//! The narrow interface to the outside asset program: what this library reads
//! from its records, and the commands it asks it to carry out.
use vstd::prelude::*;
use crate::address::Address;

verus! {

/// A command to the asset program about one asset.
#[derive(Clone, Copy, Debug, PartialEq, Eq)]
pub enum AssetCommand {
    /// Freeze the asset under a freeze delegate held by `delegate`.
    FreezeWithDelegate { asset: Address, delegate: Address },
    /// Install a transfer delegate held by `delegate`.
    AddTransferDelegate { asset: Address, delegate: Address },
    /// Install the order oracle at `oracle` as the check on the asset's transfers.
    InstallOracleHook { asset: Address, oracle: Address },
    /// Thaw the asset, signed for by the listing that holds the delegate.
    Unfreeze { asset: Address },
    /// Remove the freeze delegate.
    RemoveFreezeDelegate { asset: Address },
    /// Remove the transfer delegate.
    RemoveTransferDelegate { asset: Address },
    /// Remove the order-oracle check at `oracle`.
    RemoveOracleHook { asset: Address, oracle: Address },
    /// Record on the asset that its order is confirmed.
    MarkOrderConfirmed { asset: Address },
}

/// What `mpl_core::accounts::BaseCollectionV1::from_bytes` reads as the
/// collection's minted count, or nothing where the bytes do not parse.
pub uninterp spec fn collection_minted(data: Seq<u8>) -> Option<u32>;

/// What `mpl_core::accounts::BaseAssetV1::from_bytes` reads as the asset's
/// owner, or nothing where the bytes do not parse.
pub uninterp spec fn asset_owner_of(data: Seq<u8>) -> Option<Seq<u8>>;

/// Relies on `mpl_core::accounts::BaseCollectionV1::from_bytes`: parses the
/// base collection record and yields its `num_minted` field.
#[verifier::external_body]
pub(crate) fn collection_num_minted(data: &[u8]) -> (r: Option<u32>)
    ensures
        r == collection_minted(data@),
{
    mpl_core::accounts::BaseCollectionV1::from_bytes(data).ok().map(|c| c.num_minted)
}

/// Relies on `mpl_core::accounts::BaseAssetV1::from_bytes`: parses the base
/// asset record and yields its `owner` field.
#[verifier::external_body]
pub(crate) fn asset_owner(data: &[u8]) -> (r: Option<Address>)
    ensures
        match r {
            Some(a) => asset_owner_of(data@) == Some(a@),
            None => asset_owner_of(data@) is None,
        },
{
    mpl_core::accounts::BaseAssetV1::from_bytes(data).ok().map(|a| Address::new(a.owner.to_bytes()))
}

} // verus!
