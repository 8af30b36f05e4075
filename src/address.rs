//! 32-byte ledger addresses.
use vstd::prelude::*;

verus! {

/// Length in bytes of a ledger address.
pub const ADDRESS_LEN: usize = 32;

/// A ledger address (public key or program-derived address) as raw bytes.
#[derive(Clone, Copy, Debug)]
pub struct Address {
    pub bytes: [u8; 32],
}

impl View for Address {
    type V = Seq<u8>;

    open spec fn view(&self) -> Seq<u8> {
        self.bytes@
    }
}

impl Address {
    /// Wraps raw bytes as an address.
    pub fn new(bytes: [u8; 32]) -> (r: Address)
        ensures
            r.bytes == bytes,
    {
        Address { bytes }
    }

    /// Byte-wise comparison of two addresses.
    pub fn same_as(&self, other: &Address) -> (r: bool)
        ensures
            r == (*self == *other),
    {
        let mut i: usize = 0;
        while i < ADDRESS_LEN
            invariant
                i <= ADDRESS_LEN,
                forall|j: int| 0 <= j < i ==> self.bytes@[j] == other.bytes@[j],
            decreases ADDRESS_LEN - i,
        {
            if self.bytes[i] != other.bytes[i] {
                assert(self.bytes@[i as int] != other.bytes@[i as int]);
                return false;
            }
            i = i + 1;
        }
        assert(self.bytes =~= other.bytes);
        true
    }
}

impl PartialEq for Address {
    fn eq(&self, other: &Address) -> (r: bool) {
        self.same_as(other)
    }
}

impl vstd::std_specs::cmp::PartialEqSpecImpl for Address {
    open spec fn obeys_eq_spec() -> bool {
        true
    }

    open spec fn eq_spec(&self, other: &Address) -> bool {
        *self == *other
    }
}

impl Eq for Address {}

/// Two addresses are equal exactly when their bytes are.
pub proof fn lemma_view_injective(a: Address, b: Address)
    ensures
        (a@ == b@) == (a == b),
{
    if a@ == b@ {
        assert(a.bytes =~= b.bytes);
    }
}

/// What `Pubkey::try_find_program_address` yields for the given seeds and
/// program id: the derived address and its bump, or nothing.
pub uninterp spec fn program_address(seeds: Seq<Seq<u8>>, program_id: Seq<u8>) -> Option<(Seq<u8>, u8)>;

/// Relies on `solana_program::pubkey::Pubkey::try_find_program_address`, a
/// deterministic search over bump seeds that returns `None` instead of
/// panicking when no off-curve address exists.
#[verifier::external_body]
fn try_find_program_address(tag: &[u8], parent: &Address, program_id: &Address) -> (r: Option<(Address, u8)>)
    ensures
        match r {
            Some((a, bump)) => program_address(seq![tag@, parent@], program_id@) == Some((a@, bump)),
            None => program_address(seq![tag@, parent@], program_id@) is None,
        },
{
    solana_program::pubkey::Pubkey::try_find_program_address(
        &[tag, &parent.bytes],
        &solana_program::pubkey::Pubkey::new_from_array(program_id.bytes),
    ).map(|(a, bump)| (Address::new(a.to_bytes()), bump))
}

/// Seed tag of order-oracle records.
pub open spec fn oracle_tag() -> Seq<u8> {
    seq![111u8, 114u8, 97u8, 99u8, 108u8, 101u8]
}

/// The address derived from a namespace tag and a parent identity under a program.
pub open spec fn derived_address(tag: Seq<u8>, parent: Address, program_id: Address) -> Option<Seq<u8>> {
    match program_address(seq![tag, parent@], program_id@) {
        Some((a, _)) => Some(a),
        None => None,
    }
}

/// Address of the order oracle kept for an asset.
pub open spec fn oracle_address_of(asset: Address, program_id: Address) -> Option<Seq<u8>> {
    derived_address(oracle_tag(), asset, program_id)
}

/// Derives the address of the order oracle kept for `asset`.
pub fn oracle_address(asset: &Address, program_id: &Address) -> (r: Option<Address>)
    ensures
        match r {
            Some(a) => oracle_address_of(*asset, *program_id) == Some(a@),
            None => oracle_address_of(*asset, *program_id) is None,
        },
{
    let tag: [u8; 6] = [111, 114, 97, 99, 108, 101];
    assert(tag@ =~= oracle_tag());
    match try_find_program_address(tag.as_slice(), asset, program_id) {
        Some((a, _)) => Some(a),
        None => None,
    }
}

} // verus!
