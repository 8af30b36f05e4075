//! Properties that relate several operations, or several calls of one.
use vstd::prelude::*;
use crate::address::Address;
use crate::enums::is_settled;
use crate::errors::ClickCrateError;
use crate::orders::{completion_error, purchase_error, purchased_listing, purchased_oracle};
use crate::state::{AccountData, ClickCrateState, OrderOracle, ProductListingState};
use crate::stocking::{
    recorded_status, removal_error, removal_precheck_error, settlement_error, unbound_clickcrate,
    unbound_listing,
};

verus! {

/// A purchase spends its asset's purchase token: once one purchase went
/// through, another against the same asset fails because the validation vector has moved
/// on, whatever quantity and balance it brings.
pub proof fn lemma_purchase_single_use(
    clickcrate: ClickCrateState,
    listing: ProductListingState,
    oracle: OrderOracle,
    owner: Address,
    product: Address,
    product_id: Address,
    quantity: u64,
    buyer_balance: u64,
    second_quantity: u64,
    second_balance: u64,
)
    requires
        purchase_error(clickcrate, listing, oracle, owner, product, product_id, quantity, buyer_balance) is None,
    ensures
        purchase_error(
            clickcrate,
            purchased_listing(listing, quantity),
            purchased_oracle(oracle),
            owner,
            product,
            product_id,
            second_quantity,
            second_balance,
        ) == Some(ClickCrateError::OracleAlreadyUpdated),
{
}

proof fn lemma_blocked_scan(
    products: Seq<Address>,
    program_id: Address,
    accounts: Seq<AccountData>,
    blocked: int,
    i: int,
)
    requires
        0 <= i <= blocked < products.len(),
        forall|j: int| 0 <= j < products.len() ==> (#[trigger] recorded_status(products[j], program_id, accounts)) is Ok,
        !is_settled(recorded_status(products[blocked], program_id, accounts)->Ok_0),
    ensures
        settlement_error(products, program_id, accounts, i) == Some(ClickCrateError::OrdersInProgress),
    decreases blocked - i,
{
    assert(recorded_status(products[i], program_id, accounts) is Ok);
    if i < blocked && is_settled(recorded_status(products[i], program_id, accounts)->Ok_0) {
        lemma_blocked_scan(products, program_id, accounts, blocked, i + 1);
    }
}

proof fn lemma_settled_scan(products: Seq<Address>, program_id: Address, accounts: Seq<AccountData>, i: int)
    requires
        0 <= i <= products.len(),
        forall|j: int| 0 <= j < products.len() ==> {
            &&& (#[trigger] recorded_status(products[j], program_id, accounts)) is Ok
            &&& is_settled(recorded_status(products[j], program_id, accounts)->Ok_0)
        },
    ensures
        settlement_error(products, program_id, accounts, i) is None,
    decreases products.len() - i,
{
    if i < products.len() {
        assert(recorded_status(products[i], program_id, accounts) is Ok);
        lemma_settled_scan(products, program_id, accounts, i + 1);
    }
}

/// Removal is blocked while any asset of the batch has an order in Placed,
/// Confirmed, Fulfilled or Delivered: it fails, and once the batch itself is
/// acceptable it fails with `OrdersInProgress`.
pub proof fn lemma_removal_blocked_by_open_order(
    clickcrate: ClickCrateState,
    listing: ProductListingState,
    signer: Address,
    product_listing_id: Address,
    clickcrate_id: Address,
    vault: Address,
    program_id: Address,
    collection: Seq<u8>,
    products: Seq<Address>,
    oracle_accounts: Seq<AccountData>,
    blocked: int,
)
    requires
        0 <= blocked < products.len(),
        forall|j: int| 0 <= j < products.len() ==> (#[trigger] recorded_status(products[j], program_id, oracle_accounts)) is Ok,
        !is_settled(recorded_status(products[blocked], program_id, oracle_accounts)->Ok_0),
    ensures
        removal_error(clickcrate, listing, signer, product_listing_id, clickcrate_id, vault, program_id,
            collection, products, oracle_accounts) is Some,
        removal_precheck_error(clickcrate, listing, signer, product_listing_id, clickcrate_id, vault,
            collection, products) is None ==> removal_error(clickcrate, listing, signer, product_listing_id,
            clickcrate_id, vault, program_id, collection, products, oracle_accounts)
            == Some(ClickCrateError::OrdersInProgress),
{
    lemma_blocked_scan(products, program_id, oracle_accounts, blocked, 0);
}

/// Once the batch is acceptable and every order in it is Pending, Completed
/// or Cancelled, removal goes through, and it leaves neither the listing nor
/// the slot referring to the other, nor the listing to its escrow.
pub proof fn lemma_removal_clears_references(
    clickcrate: ClickCrateState,
    listing: ProductListingState,
    signer: Address,
    product_listing_id: Address,
    clickcrate_id: Address,
    vault: Address,
    program_id: Address,
    collection: Seq<u8>,
    products: Seq<Address>,
    oracle_accounts: Seq<AccountData>,
)
    requires
        removal_precheck_error(clickcrate, listing, signer, product_listing_id, clickcrate_id, vault,
            collection, products) is None,
        forall|j: int| 0 <= j < products.len() ==> {
            &&& (#[trigger] recorded_status(products[j], program_id, oracle_accounts)) is Ok
            &&& is_settled(recorded_status(products[j], program_id, oracle_accounts)->Ok_0)
        },
    ensures
        removal_error(clickcrate, listing, signer, product_listing_id, clickcrate_id, vault, program_id,
            collection, products, oracle_accounts) is None,
        unbound_listing(listing, products.len()).clickcrate_pos is None,
        unbound_listing(listing, products.len()).vault is None,
        unbound_clickcrate(clickcrate).product is None,
{
    lemma_settled_scan(products, program_id, oracle_accounts, 0);
}

/// A payout that every other check admits fails with `InsufficientBalance`
/// exactly when the escrow holds less than the price.
pub proof fn lemma_payout_needs_price(
    listing: ProductListingState,
    oracle: OrderOracle,
    product_listing_id: Address,
    seller: Address,
    authority: Address,
    asset_owner: Option<Seq<u8>>,
    vault_balance: u64,
)
    requires
        completion_error(listing, oracle, product_listing_id, seller, authority, asset_owner, u64::MAX) is None,
    ensures
        (completion_error(listing, oracle, product_listing_id, seller, authority, asset_owner, vault_balance)
            == Some(ClickCrateError::InsufficientBalance)) == (vault_balance < listing.price->0),
        vault_balance >= listing.price->0 ==> completion_error(listing, oracle, product_listing_id, seller,
            authority, asset_owner, vault_balance) is None,
{
}

/// After a payout of the price, the same payout is refused with
/// `InsufficientBalance` when what is left in the escrow is below the price.
pub proof fn lemma_payout_drains_escrow(
    listing: ProductListingState,
    oracle: OrderOracle,
    product_listing_id: Address,
    seller: Address,
    authority: Address,
    asset_owner: Option<Seq<u8>>,
    vault_balance: u64,
)
    requires
        completion_error(listing, oracle, product_listing_id, seller, authority, asset_owner, vault_balance) is None,
        vault_balance - listing.price->0 < listing.price->0,
    ensures
        completion_error(listing, oracle, product_listing_id, seller, authority, asset_owner,
            (vault_balance - listing.price->0) as u64) == Some(ClickCrateError::InsufficientBalance),
{
}

} // verus!
