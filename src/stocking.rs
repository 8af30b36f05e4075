//! Binding a batch of assets into a listing, and unbinding them again.
use vstd::prelude::*;
use crate::address::{lemma_view_injective, oracle_address, oracle_address_of, Address};
use crate::asset_program::{collection_minted, collection_num_minted, AssetCommand};
use crate::codec::{decode_oracle, decode_order_oracle};
use crate::enums::{is_settled, OrderStatus};
use crate::errors::ClickCrateError;
use crate::state::{AccountData, ClickCrateState, ProductListingState};

verus! {

/// Largest number of assets one stocking or removal may carry.
pub const MAX_BATCH: usize = 20;

/// No asset occurs twice.
pub open spec fn distinct(items: Seq<Address>) -> bool {
    forall|i: int, j: int| 0 <= i < j < items.len() ==> items[i] != items[j]
}

/// A batch of 1 to `MAX_BATCH` distinct assets that matches the minted count.
pub open spec fn valid_batch(assets: Seq<Address>, minted: u32) -> bool {
    &&& assets.len() == minted
    &&& 1 <= assets.len() <= MAX_BATCH
    &&& distinct(assets)
}

/// Whether every asset of the batch has a derivable oracle address.
pub open spec fn oracles_derivable(assets: Seq<Address>, program_id: Address) -> bool {
    forall|i: int| 0 <= i < assets.len() ==> (#[trigger] oracle_address_of(assets[i], program_id)) is Some
}

/// Whether no two items of `items` are the same address.
pub fn all_distinct(items: &Vec<Address>) -> (r: bool)
    ensures
        r == distinct(items@),
{
    let n = items.len();
    let mut i: usize = 0;
    while i < n
        invariant
            n == items@.len(),
            i <= n,
            forall|a: int, b: int| 0 <= a < b < n && a < i ==> items@[a] != items@[b],
        decreases n - i,
    {
        let mut j: usize = i + 1;
        while j < n
            invariant
                n == items@.len(),
                i < n,
                i + 1 <= j <= n,
                forall|a: int, b: int| 0 <= a < b < n && a < i ==> items@[a] != items@[b],
                forall|b: int| i < b < j ==> items@[i as int] != items@[b],
            decreases n - j,
        {
            if items[i] == items[j] {
                return false;
            }
            j = j + 1;
        }
        i = i + 1;
    }
    true
}

/// Whether `assets` is a valid batch against the minted count.
pub fn check_batch(assets: &Vec<Address>, minted: u32) -> (r: bool)
    ensures
        r == valid_batch(assets@, minted),
{
    assets.len() as u64 == minted as u64 && 1 <= assets.len() && assets.len() <= MAX_BATCH
        && all_distinct(assets)
}

/// The reason stocking is refused, if it is.
pub open spec fn stocking_error(
    clickcrate: ClickCrateState,
    listing: ProductListingState,
    signer: Address,
    product_listing_id: Address,
    clickcrate_id: Address,
    program_id: Address,
    collection: Seq<u8>,
    products: Seq<Address>,
) -> Option<ClickCrateError> {
    if listing.id != product_listing_id {
        Some(ClickCrateError::ProductListingNotFound)
    } else if clickcrate.id != clickcrate_id {
        Some(ClickCrateError::ClickCrateNotFound)
    } else if signer != listing.owner || signer != clickcrate.owner {
        Some(ClickCrateError::UnauthorizedUpdate)
    } else if !listing.is_active {
        Some(ClickCrateError::ProductListingDeactivated)
    } else if !clickcrate.is_active {
        Some(ClickCrateError::ClickCrateDeactivated)
    } else if listing.in_stock != 0 || listing.sold != 0 {
        Some(ClickCrateError::ProductListingNotEmpty)
    } else if collection_minted(collection) is None {
        Some(ClickCrateError::InvalidCollectionAccount)
    } else if !valid_batch(products, collection_minted(collection)->0) {
        Some(ClickCrateError::InvalidStockingRequest)
    } else if !oracles_derivable(products, program_id) {
        Some(ClickCrateError::AddressDerivationFailed)
    } else {
        None
    }
}

/// The listing once `count` units are bound to it in `clickcrate_id`.
pub open spec fn stocked_listing(
    listing: ProductListingState,
    clickcrate_id: Address,
    vault: Address,
    price: u64,
    count: nat,
) -> ProductListingState {
    ProductListingState {
        in_stock: count as u64,
        clickcrate_pos: Some(clickcrate_id),
        vault: Some(vault),
        price: Some(price),
        ..listing
    }
}

/// The slot once it hosts `listing_id`.
pub open spec fn stocked_clickcrate(clickcrate: ClickCrateState, listing_id: Address) -> ClickCrateState {
    ClickCrateState { product: Some(listing_id), ..clickcrate }
}

/// The three commands that bind the `k`-th asset: freeze it and hand a
/// transfer delegate to the listing, then gate its transfers on its oracle.
pub open spec fn binds_unit(
    cmds: Seq<AssetCommand>,
    k: int,
    asset: Address,
    delegate: Address,
    program_id: Address,
) -> bool {
    &&& cmds[3 * k] == AssetCommand::FreezeWithDelegate { asset, delegate }
    &&& cmds[3 * k + 1] == AssetCommand::AddTransferDelegate { asset, delegate }
    &&& cmds[3 * k + 2] matches AssetCommand::InstallOracleHook { asset: a, oracle }
        && a == asset && oracle_address_of(asset, program_id) == Some(oracle@)
}

/// The commands that bind every asset of the batch, in batch order.
pub open spec fn stocking_commands(
    cmds: Seq<AssetCommand>,
    assets: Seq<Address>,
    delegate: Address,
    program_id: Address,
) -> bool {
    &&& cmds.len() == 3 * assets.len()
    &&& forall|k: int| 0 <= k < assets.len() ==> #[trigger] binds_unit(cmds, k, assets[k], delegate, program_id)
}

/// Binds `products` into the listing and the listing into the slot.
///
/// `listing_address` is the listing's own account, which receives the
/// delegates; `vault` is the escrow created with this stocking. On success
/// the returned commands must all be carried out by the asset program.
#[verifier::loop_isolation(false)]
pub fn place_products(
    clickcrate: &mut ClickCrateState,
    product_listing: &mut ProductListingState,
    signer: &Address,
    product_listing_id: &Address,
    clickcrate_id: &Address,
    listing_address: &Address,
    vault: &Address,
    program_id: &Address,
    collection_data: &[u8],
    products: &Vec<Address>,
    price: u64,
) -> (r: Result<Vec<AssetCommand>, ClickCrateError>)
    ensures
        match r {
            Ok(cmds) => {
                &&& stocking_error(*old(clickcrate), *old(product_listing), *signer, *product_listing_id,
                    *clickcrate_id, *program_id, collection_data@, products@) is None
                &&& *final(product_listing) == stocked_listing(*old(product_listing), old(clickcrate).id,
                    *vault, price, products@.len())
                &&& *final(clickcrate) == stocked_clickcrate(*old(clickcrate), old(product_listing).id)
                &&& stocking_commands(cmds@, products@, *listing_address, *program_id)
            },
            Err(e) => {
                &&& stocking_error(*old(clickcrate), *old(product_listing), *signer, *product_listing_id,
                    *clickcrate_id, *program_id, collection_data@, products@) == Some(e)
                &&& *final(product_listing) == *old(product_listing)
                &&& *final(clickcrate) == *old(clickcrate)
            },
        },
        r is Ok ==> {
            &&& final(product_listing).in_stock == products@.len()
            &&& final(product_listing).sold == 0
            &&& final(product_listing).price == Some(price)
            &&& final(product_listing).vault == Some(*vault)
            &&& final(product_listing).clickcrate_pos == Some(old(clickcrate).id)
            &&& final(clickcrate).product == Some(old(product_listing).id)
        },
{
    if product_listing.id != *product_listing_id {
        return Err(ClickCrateError::ProductListingNotFound);
    }
    if clickcrate.id != *clickcrate_id {
        return Err(ClickCrateError::ClickCrateNotFound);
    }
    if *signer != product_listing.owner || *signer != clickcrate.owner {
        return Err(ClickCrateError::UnauthorizedUpdate);
    }
    if !product_listing.is_active {
        return Err(ClickCrateError::ProductListingDeactivated);
    }
    if !clickcrate.is_active {
        return Err(ClickCrateError::ClickCrateDeactivated);
    }
    if product_listing.in_stock != 0 || product_listing.sold != 0 {
        return Err(ClickCrateError::ProductListingNotEmpty);
    }
    let total_minted = match collection_num_minted(collection_data) {
        Some(n) => n,
        None => return Err(ClickCrateError::InvalidCollectionAccount),
    };
    if !check_batch(products, total_minted) {
        return Err(ClickCrateError::InvalidStockingRequest);
    }
    let n = products.len();
    let mut cmds: Vec<AssetCommand> = Vec::new();
    let mut stocked: u64 = 0;
    let mut i: usize = 0;
    while i < n
        invariant
            n == products@.len(),
            n <= MAX_BATCH,
            i <= n,
            stocked == i,
            cmds@.len() == 3 * i,
            forall|k: int| 0 <= k < i ==> #[trigger] binds_unit(cmds@, k, products@[k], *listing_address, *program_id),
            forall|k: int| 0 <= k < i ==> (#[trigger] oracle_address_of(products@[k], *program_id)) is Some,
        decreases n - i,
    {
        let asset = products[i];
        let oracle = match oracle_address(&asset, program_id) {
            Some(a) => a,
            None => {
                assert(!oracles_derivable(products@, *program_id));
                return Err(ClickCrateError::AddressDerivationFailed);
            },
        };
        let ghost prev = cmds@;
        cmds.push(AssetCommand::FreezeWithDelegate { asset, delegate: *listing_address });
        cmds.push(AssetCommand::AddTransferDelegate { asset, delegate: *listing_address });
        cmds.push(AssetCommand::InstallOracleHook { asset, oracle });
        assert forall|k: int| 0 <= k < i + 1 implies #[trigger] binds_unit(cmds@, k, products@[k], *listing_address, *program_id) by {
            if k < i {
                assert(binds_unit(prev, k, products@[k], *listing_address, *program_id));
                assert(cmds@[3 * k] == prev[3 * k]);
                assert(cmds@[3 * k + 1] == prev[3 * k + 1]);
                assert(cmds@[3 * k + 2] == prev[3 * k + 2]);
            }
        }
        stocked = stocked + 1;
        i = i + 1;
    }
    assert(oracles_derivable(products@, *program_id));
    product_listing.in_stock = stocked;
    product_listing.clickcrate_pos = Some(clickcrate.id);
    product_listing.vault = Some(*vault);
    product_listing.price = Some(price);
    clickcrate.product = Some(product_listing.id);
    Ok(cmds)
}

/// Index of the first account at address `key`, searching from `i` on.
pub open spec fn account_index(accounts: Seq<AccountData>, key: Seq<u8>, i: int) -> Option<int>
    decreases accounts.len() - i,
{
    if i < 0 || i >= accounts.len() {
        None
    } else if accounts[i].key@ == key {
        Some(i)
    } else {
        account_index(accounts, key, i + 1)
    }
}

/// The order status that the asset's oracle account records, or why it
/// cannot be read.
pub open spec fn recorded_status(
    asset: Address,
    program_id: Address,
    accounts: Seq<AccountData>,
) -> Result<OrderStatus, ClickCrateError> {
    match oracle_address_of(asset, program_id) {
        None => Err(ClickCrateError::OracleNotFound),
        Some(key) => match account_index(accounts, key, 0) {
            None => Err(ClickCrateError::OracleNotFound),
            Some(i) => match decode_oracle(accounts[i].data@) {
                None => Err(ClickCrateError::InvalidOracleAccount),
                Some(o) => Ok(o.order_status),
            },
        },
    }
}

/// The first reason, scanning the batch from `i` on, that an asset's order
/// keeps the batch from being unbound.
pub open spec fn settlement_error(
    assets: Seq<Address>,
    program_id: Address,
    accounts: Seq<AccountData>,
    i: int,
) -> Option<ClickCrateError>
    decreases assets.len() - i,
{
    if i < 0 || i >= assets.len() {
        None
    } else {
        match recorded_status(assets[i], program_id, accounts) {
            Err(e) => Some(e),
            Ok(status) => if !is_settled(status) {
                Some(ClickCrateError::OrdersInProgress)
            } else {
                settlement_error(assets, program_id, accounts, i + 1)
            },
        }
    }
}

/// Finds the first account at `key`.
pub fn find_account(accounts: &Vec<AccountData>, key: &Address) -> (r: Option<usize>)
    ensures
        match r {
            Some(i) => i < accounts@.len() && account_index(accounts@, key@, 0) == Some(i as int),
            None => account_index(accounts@, key@, 0) is None,
        },
{
    let n = accounts.len();
    let mut i: usize = 0;
    while i < n
        invariant
            n == accounts@.len(),
            i <= n,
            account_index(accounts@, key@, 0) == account_index(accounts@, key@, i as int),
        decreases n - i,
    {
        proof {
            lemma_view_injective(accounts@[i as int].key, *key);
        }
        if accounts[i].key == *key {
            return Some(i);
        }
        i = i + 1;
    }
    None
}

/// Reads the order status recorded for `asset`, with the oracle's address.
pub fn read_recorded_status(
    asset: &Address,
    program_id: &Address,
    accounts: &Vec<AccountData>,
) -> (r: Result<(OrderStatus, Address), ClickCrateError>)
    ensures
        match r {
            Ok((status, oracle)) => recorded_status(*asset, *program_id, accounts@) == Ok::<
                OrderStatus,
                ClickCrateError,
            >(status) && oracle_address_of(*asset, *program_id) == Some(oracle@),
            Err(e) => recorded_status(*asset, *program_id, accounts@) == Err::<OrderStatus, ClickCrateError>(e),
        },
{
    let oracle = match oracle_address(asset, program_id) {
        Some(a) => a,
        None => return Err(ClickCrateError::OracleNotFound),
    };
    let i = match find_account(accounts, &oracle) {
        Some(i) => i,
        None => return Err(ClickCrateError::OracleNotFound),
    };
    match decode_order_oracle(accounts[i].data.as_slice()) {
        Some(record) => Ok((record.order_status, oracle)),
        None => Err(ClickCrateError::InvalidOracleAccount),
    }
}

/// What a successful removal hands back: the escrow balance above its reserve,
/// swept to the owner before the escrow is closed, and the commands for the
/// asset program.
#[derive(Debug, PartialEq, Eq)]
pub struct RemovalReceipt {
    pub swept: u64,
    pub commands: Vec<AssetCommand>,
}

/// The reason a removal is refused before any order is looked at, if it is.
pub open spec fn removal_precheck_error(
    clickcrate: ClickCrateState,
    listing: ProductListingState,
    signer: Address,
    product_listing_id: Address,
    clickcrate_id: Address,
    vault: Address,
    collection: Seq<u8>,
    products: Seq<Address>,
) -> Option<ClickCrateError> {
    if listing.id != product_listing_id {
        Some(ClickCrateError::ProductListingNotFound)
    } else if clickcrate.id != clickcrate_id {
        Some(ClickCrateError::ClickCrateNotFound)
    } else if signer != listing.owner || signer != clickcrate.owner {
        Some(ClickCrateError::UnauthorizedUpdate)
    } else if !listing.is_active {
        Some(ClickCrateError::ProductListingDeactivated)
    } else if !clickcrate.is_active {
        Some(ClickCrateError::ClickCrateDeactivated)
    } else if listing.vault != Some(vault) {
        Some(ClickCrateError::InvalidVaultAccount)
    } else if collection_minted(collection) is None {
        Some(ClickCrateError::InvalidCollectionAccount)
    } else if !valid_batch(products, collection_minted(collection)->0) {
        Some(ClickCrateError::InvalidRemovalRequest)
    } else {
        None
    }
}

/// The reason a removal is refused, if it is.
pub open spec fn removal_error(
    clickcrate: ClickCrateState,
    listing: ProductListingState,
    signer: Address,
    product_listing_id: Address,
    clickcrate_id: Address,
    vault: Address,
    program_id: Address,
    collection: Seq<u8>,
    products: Seq<Address>,
    oracle_accounts: Seq<AccountData>,
) -> Option<ClickCrateError> {
    match removal_precheck_error(clickcrate, listing, signer, product_listing_id, clickcrate_id, vault, collection, products) {
        Some(e) => Some(e),
        None => settlement_error(products, program_id, oracle_accounts, 0),
    }
}

/// The listing once `count` units are unbound: stock never drops below zero,
/// and the slot and escrow references are gone.
pub open spec fn unbound_listing(listing: ProductListingState, count: nat) -> ProductListingState {
    ProductListingState {
        in_stock: if listing.in_stock >= count { (listing.in_stock - count) as u64 } else { 0 },
        clickcrate_pos: None,
        vault: None,
        ..listing
    }
}

/// The slot once its listing is unbound.
pub open spec fn unbound_clickcrate(clickcrate: ClickCrateState) -> ClickCrateState {
    ClickCrateState { product: None, ..clickcrate }
}

/// The part of the escrow balance above the reserve it must keep.
pub open spec fn sweep_amount(balance: u64, minimum_reserve: u64) -> u64 {
    if balance > minimum_reserve { (balance - minimum_reserve) as u64 } else { 0 }
}

/// The four commands that unbind the `k`-th asset: thaw it, drop both
/// delegates, then drop its oracle gate.
pub open spec fn unbinds_unit(cmds: Seq<AssetCommand>, k: int, asset: Address, program_id: Address) -> bool {
    &&& cmds[4 * k] == AssetCommand::Unfreeze { asset }
    &&& cmds[4 * k + 1] == AssetCommand::RemoveFreezeDelegate { asset }
    &&& cmds[4 * k + 2] == AssetCommand::RemoveTransferDelegate { asset }
    &&& cmds[4 * k + 3] matches AssetCommand::RemoveOracleHook { asset: a, oracle }
        && a == asset && oracle_address_of(asset, program_id) == Some(oracle@)
}

/// The commands that unbind every asset of the batch, in batch order.
pub open spec fn removal_commands(cmds: Seq<AssetCommand>, assets: Seq<Address>, program_id: Address) -> bool {
    &&& cmds.len() == 4 * assets.len()
    &&& forall|k: int| 0 <= k < assets.len() ==> #[trigger] unbinds_unit(cmds, k, assets[k], program_id)
}

/// Unbinds `products` from the listing and the listing from its slot, once
/// no order of the batch is mid-fulfilment.
///
/// `oracle_accounts` holds the batch's oracle accounts, found by their derived
/// addresses; `vault_balance` is the escrow's balance and `minimum_reserve`
/// what it must keep until it is closed. On success the escrow is closed and
/// the returned commands must all be carried out by the asset program.
#[verifier::loop_isolation(false)]
pub fn remove_products(
    clickcrate: &mut ClickCrateState,
    product_listing: &mut ProductListingState,
    signer: &Address,
    product_listing_id: &Address,
    clickcrate_id: &Address,
    vault: &Address,
    program_id: &Address,
    collection_data: &[u8],
    products: &Vec<Address>,
    oracle_accounts: &Vec<AccountData>,
    vault_balance: u64,
    minimum_reserve: u64,
) -> (r: Result<RemovalReceipt, ClickCrateError>)
    ensures
        match r {
            Ok(receipt) => {
                &&& removal_error(*old(clickcrate), *old(product_listing), *signer, *product_listing_id,
                    *clickcrate_id, *vault, *program_id, collection_data@, products@, oracle_accounts@) is None
                &&& *final(product_listing) == unbound_listing(*old(product_listing), products@.len())
                &&& *final(clickcrate) == unbound_clickcrate(*old(clickcrate))
                &&& receipt.swept == sweep_amount(vault_balance, minimum_reserve)
                &&& removal_commands(receipt.commands@, products@, *program_id)
            },
            Err(e) => {
                &&& removal_error(*old(clickcrate), *old(product_listing), *signer, *product_listing_id,
                    *clickcrate_id, *vault, *program_id, collection_data@, products@, oracle_accounts@) == Some(e)
                &&& *final(product_listing) == *old(product_listing)
                &&& *final(clickcrate) == *old(clickcrate)
            },
        },
        r is Ok ==> {
            &&& final(product_listing).clickcrate_pos is None
            &&& final(product_listing).vault is None
            &&& final(clickcrate).product is None
        },
{
    if product_listing.id != *product_listing_id {
        return Err(ClickCrateError::ProductListingNotFound);
    }
    if clickcrate.id != *clickcrate_id {
        return Err(ClickCrateError::ClickCrateNotFound);
    }
    if *signer != product_listing.owner || *signer != clickcrate.owner {
        return Err(ClickCrateError::UnauthorizedUpdate);
    }
    if !product_listing.is_active {
        return Err(ClickCrateError::ProductListingDeactivated);
    }
    if !clickcrate.is_active {
        return Err(ClickCrateError::ClickCrateDeactivated);
    }
    if product_listing.vault != Some(*vault) {
        return Err(ClickCrateError::InvalidVaultAccount);
    }
    let total_minted = match collection_num_minted(collection_data) {
        Some(n) => n,
        None => return Err(ClickCrateError::InvalidCollectionAccount),
    };
    if !check_batch(products, total_minted) {
        return Err(ClickCrateError::InvalidRemovalRequest);
    }
    let n = products.len();
    let mut commands: Vec<AssetCommand> = Vec::new();
    let mut i: usize = 0;
    while i < n
        invariant
            n == products@.len(),
            i <= n,
            settlement_error(products@, *program_id, oracle_accounts@, 0)
                == settlement_error(products@, *program_id, oracle_accounts@, i as int),
            commands@.len() == 4 * i,
            forall|k: int| 0 <= k < i ==> #[trigger] unbinds_unit(commands@, k, products@[k], *program_id),
        decreases n - i,
    {
        let asset = products[i];
        let (status, oracle) = match read_recorded_status(&asset, program_id, oracle_accounts) {
            Ok(found) => found,
            Err(e) => return Err(e),
        };
        if !status.is_settled() {
            return Err(ClickCrateError::OrdersInProgress);
        }
        let ghost prev = commands@;
        commands.push(AssetCommand::Unfreeze { asset });
        commands.push(AssetCommand::RemoveFreezeDelegate { asset });
        commands.push(AssetCommand::RemoveTransferDelegate { asset });
        commands.push(AssetCommand::RemoveOracleHook { asset, oracle });
        assert forall|k: int| 0 <= k < i + 1 implies #[trigger] unbinds_unit(commands@, k, products@[k], *program_id) by {
            if k < i {
                assert(unbinds_unit(prev, k, products@[k], *program_id));
                assert(commands@[4 * k] == prev[4 * k]);
                assert(commands@[4 * k + 1] == prev[4 * k + 1]);
                assert(commands@[4 * k + 2] == prev[4 * k + 2]);
                assert(commands@[4 * k + 3] == prev[4 * k + 3]);
            }
        }
        i = i + 1;
    }
    let count = n as u64;
    product_listing.in_stock = if product_listing.in_stock >= count {
        product_listing.in_stock - count
    } else {
        0
    };
    let swept = if vault_balance > minimum_reserve {
        vault_balance - minimum_reserve
    } else {
        0
    };
    clickcrate.product = None;
    product_listing.clickcrate_pos = None;
    product_listing.vault = None;
    Ok(RemovalReceipt { swept, commands })
}

} // verus!
