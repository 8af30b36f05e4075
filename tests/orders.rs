use anchor_lang::AnchorSerialize;
use clickcrate::ExternalValidationResult::{Approved, Pass, Rejected};
use clickcrate::{
    close_oracle, complete_order, initialize_oracle, make_purchase, register_clickcrate,
    register_product_listing, update_order_status, Address, AssetCommand, ClickCrateError,
    ClickCrateState, ErrorKind, ExternalValidationResult, OracleValidation, OrderOracle,
    OrderStatus, Origin, PlacementType, ProductCategory, ProductListingState,
};
use mpl_core::accounts::BaseAssetV1;
use mpl_core::types::{Key, UpdateAuthority};

fn addr(b: u8) -> Address {
    Address::new([b; 32])
}

fn owner() -> Address {
    addr(1)
}

fn manager() -> Address {
    addr(3)
}

fn vector(
    create: ExternalValidationResult,
    transfer: ExternalValidationResult,
    burn: ExternalValidationResult,
    update: ExternalValidationResult,
) -> OracleValidation {
    OracleValidation::V1 { create, transfer, burn, update }
}

fn asset_bytes(asset_owner: Address) -> Vec<u8> {
    BaseAssetV1 {
        key: Key::AssetV1,
        owner: asset_owner.bytes.into(),
        update_authority: UpdateAuthority::None,
        name: "Unit".to_string(),
        uri: "https://example.com/a.json".to_string(),
        seq: Some(4),
    }
    .try_to_vec()
    .unwrap()
}

/// A slot hosting a stocked listing of `in_stock` units at `price`.
fn stocked(in_stock: u64, price: Option<u64>) -> (ClickCrateState, ProductListingState) {
    let mut slot = register_clickcrate(
        addr(10),
        owner(),
        PlacementType::Relatedpurchase,
        ProductCategory::Toys,
        addr(2),
    );
    let mut listing = register_product_listing(
        addr(20),
        owner(),
        Origin::Shopify,
        PlacementType::Relatedpurchase,
        ProductCategory::Toys,
        manager(),
        Origin::Square,
    );
    slot.is_active = true;
    slot.product = Some(listing.id);
    listing.is_active = true;
    listing.in_stock = in_stock;
    listing.price = price;
    listing.vault = Some(addr(40));
    listing.clickcrate_pos = Some(slot.id);
    (slot, listing)
}

fn placed_oracle() -> OrderOracle {
    OrderOracle {
        order_status: OrderStatus::Placed,
        order_manager: Origin::Square,
        validation: vector(Pass, Rejected, Pass, Pass),
        bump: 251,
    }
}

#[test]
fn initialize_oracle_starts_placed_with_listing_manager() {
    let (_, listing) = stocked(3, Some(10));
    let oracle = initialize_oracle(&listing, &owner(), &addr(20), 7).unwrap();
    assert_eq!(oracle.order_status, OrderStatus::Placed);
    assert_eq!(oracle.order_manager, Origin::Square);
    assert_eq!(oracle.validation, vector(Pass, Rejected, Pass, Pass));
    assert_eq!(oracle.bump, 7);
}

#[test]
fn initialize_oracle_rejects_other_payer_and_listing() {
    let (_, listing) = stocked(3, Some(10));
    assert_eq!(
        initialize_oracle(&listing, &addr(99), &addr(20), 7),
        Err(ClickCrateError::UnauthorizedUpdate)
    );
    assert_eq!(
        initialize_oracle(&listing, &owner(), &addr(21), 7),
        Err(ClickCrateError::ProductListingNotFound)
    );
}

#[test]
fn oracle_initialize_method_resets_record() {
    let mut oracle = OrderOracle {
        order_status: OrderStatus::Delivered,
        order_manager: Origin::Clickcrate,
        validation: OracleValidation::Uninitialized,
        bump: 0,
    };
    assert_eq!(oracle.initialize(Origin::Shopify, 9), Ok(()));
    assert_eq!(
        oracle,
        OrderOracle {
            order_status: OrderStatus::Placed,
            order_manager: Origin::Shopify,
            validation: vector(Pass, Rejected, Pass, Pass),
            bump: 9,
        }
    );
}

#[test]
fn purchase_moves_stock_and_spends_token() {
    let (slot, mut listing) = stocked(5, Some(250));
    let mut oracle = placed_oracle();
    let receipt = make_purchase(&slot, &mut listing, &mut oracle, &owner(), &addr(31), &addr(31), 2, 500)
        .unwrap();
    assert_eq!(receipt.payment, 500);
    assert_eq!(receipt.commands, vec![AssetCommand::MarkOrderConfirmed { asset: addr(31) }]);
    assert_eq!(listing.in_stock, 3);
    assert_eq!(listing.sold, 2);
    assert_eq!(oracle.order_status, OrderStatus::Pending);
    assert_eq!(oracle.validation, vector(Pass, Rejected, Pass, Rejected));
    assert_eq!(oracle.bump, 251);
}

#[test]
fn second_purchase_of_same_asset_conflicts() {
    let (slot, mut listing) = stocked(3, Some(100));
    let mut oracle = placed_oracle();
    assert!(make_purchase(&slot, &mut listing, &mut oracle, &owner(), &addr(31), &addr(31), 1, 1_000).is_ok());
    let before = (listing, oracle);
    let second = make_purchase(&slot, &mut listing, &mut oracle, &owner(), &addr(31), &addr(31), 1, 1_000)
        .unwrap_err();
    assert_eq!(second, ClickCrateError::OracleAlreadyUpdated);
    assert_eq!(second.kind(), ErrorKind::ExternalValidationConflict);
    assert_eq!((listing, oracle), before);
}

#[test]
fn purchase_with_insufficient_balance_is_refused_and_changes_nothing() {
    // Payment is owed in full: a buyer who cannot pay gets no stock.
    let (slot, mut listing) = stocked(3, Some(100));
    let mut oracle = placed_oracle();
    let before = (listing, oracle);
    let r = make_purchase(&slot, &mut listing, &mut oracle, &owner(), &addr(31), &addr(31), 2, 199);
    assert_eq!(r, Err(ClickCrateError::InsufficientBalance));
    assert_eq!((listing, oracle), before);
}

#[test]
fn purchase_whose_amount_overflows_is_insufficient_balance() {
    let (slot, mut listing) = stocked(3, Some(u64::MAX));
    let mut oracle = placed_oracle();
    let r = make_purchase(&slot, &mut listing, &mut oracle, &owner(), &addr(31), &addr(31), 2, u64::MAX);
    assert_eq!(r, Err(ClickCrateError::InsufficientBalance));
}

#[test]
fn purchase_of_exact_balance_and_whole_stock() {
    let (slot, mut listing) = stocked(4, Some(25));
    let mut oracle = placed_oracle();
    let r = make_purchase(&slot, &mut listing, &mut oracle, &owner(), &addr(31), &addr(31), 4, 100).unwrap();
    assert_eq!(r.payment, 100);
    assert_eq!(listing.in_stock, 0);
    assert_eq!(listing.sold, 4);
}

#[test]
fn purchase_precondition_errors() {
    let (slot, listing) = stocked(3, Some(100));
    let run = |slot: ClickCrateState, mut listing: ProductListingState, mut oracle: OrderOracle, signer: Address, product: Address, quantity: u64| {
        make_purchase(&slot, &mut listing, &mut oracle, &signer, &product, &addr(31), quantity, 1_000)
            .map(|r| r.payment)
    };
    let mut unbound = slot;
    unbound.product = Some(addr(77));
    assert_eq!(run(unbound, listing, placed_oracle(), owner(), addr(31), 1), Err(ClickCrateError::ProductNotFound));
    assert_eq!(run(slot, listing, placed_oracle(), owner(), addr(32), 1), Err(ClickCrateError::ProductNotFound));
    assert_eq!(run(slot, listing, placed_oracle(), addr(99), addr(31), 1), Err(ClickCrateError::UnauthorizedUpdate));
    let mut inactive_listing = listing;
    inactive_listing.is_active = false;
    assert_eq!(run(slot, inactive_listing, placed_oracle(), owner(), addr(31), 1), Err(ClickCrateError::ProductListingDeactivated));
    let mut inactive_slot = slot;
    inactive_slot.is_active = false;
    assert_eq!(run(inactive_slot, listing, placed_oracle(), owner(), addr(31), 1), Err(ClickCrateError::ClickCrateDeactivated));
    let mut pending = placed_oracle();
    pending.order_status = OrderStatus::Pending;
    assert_eq!(run(slot, listing, pending, owner(), addr(31), 1), Err(ClickCrateError::ProductNotPlaced));
    assert_eq!(run(slot, listing, placed_oracle(), owner(), addr(31), 4), Err(ClickCrateError::ProductOutOfStock));
    let mut unpriced = listing;
    unpriced.price = None;
    assert_eq!(run(slot, unpriced, placed_oracle(), owner(), addr(31), 1), Err(ClickCrateError::PriceNotFound));
    let mut nearly_full = listing;
    nearly_full.sold = u64::MAX;
    assert_eq!(run(slot, nearly_full, placed_oracle(), owner(), addr(31), 1), Err(ClickCrateError::SoldCountOverflow));
}

#[test]
fn status_table_holds_from_every_prior_status() {
    let all = [
        OrderStatus::Pending,
        OrderStatus::Placed,
        OrderStatus::Confirmed,
        OrderStatus::Fulfilled,
        OrderStatus::Delivered,
        OrderStatus::Completed,
        OrderStatus::Cancelled,
    ];
    let expected = |s: OrderStatus| match s {
        OrderStatus::Placed | OrderStatus::Pending => vector(Pass, Rejected, Pass, Pass),
        OrderStatus::Confirmed | OrderStatus::Fulfilled | OrderStatus::Delivered => {
            vector(Rejected, Rejected, Rejected, Pass)
        }
        OrderStatus::Completed | OrderStatus::Cancelled => vector(Approved, Approved, Rejected, Pass),
    };
    let (_, listing) = stocked(3, Some(1));
    for prior in all {
        for target in all {
            let mut oracle = placed_oracle();
            oracle.order_status = prior;
            oracle.validation = OracleValidation::Uninitialized;
            update_order_status(&listing, &mut oracle, &manager(), &addr(20), target).unwrap();
            assert_eq!(oracle.order_status, target);
            assert_eq!(oracle.validation, expected(target));
            assert_eq!(target.validation(), expected(target));
        }
    }
}

#[test]
fn status_update_by_stranger_is_unauthorized() {
    let (_, listing) = stocked(3, Some(1));
    let mut oracle = placed_oracle();
    let r = update_order_status(&listing, &mut oracle, &addr(99), &addr(20), OrderStatus::Completed);
    assert_eq!(r, Err(ClickCrateError::UnauthorizedUpdate));
    assert_eq!(r.unwrap_err().kind(), ErrorKind::Unauthorized);
    assert_eq!(oracle, placed_oracle());
    let other = update_order_status(&listing, &mut oracle, &owner(), &addr(21), OrderStatus::Completed);
    assert_eq!(other, Err(ClickCrateError::ProductListingNotFound));
}

#[test]
fn completion_pays_exactly_the_price() {
    let (_, listing) = stocked(2, Some(300));
    let mut oracle = placed_oracle();
    oracle.order_status = OrderStatus::Completed;
    let asset = asset_bytes(owner());
    assert_eq!(complete_order(&listing, &oracle, &addr(20), &owner(), &owner(), &asset, 300), Ok(300));
    assert_eq!(complete_order(&listing, &oracle, &addr(20), &owner(), &owner(), &asset, 5_000), Ok(300));
    assert_eq!(
        complete_order(&listing, &oracle, &addr(20), &owner(), &owner(), &asset, 299),
        Err(ClickCrateError::InsufficientBalance)
    );
}

#[test]
fn completion_errors() {
    let (_, listing) = stocked(2, Some(300));
    let mut done = placed_oracle();
    done.order_status = OrderStatus::Completed;
    let asset = asset_bytes(owner());
    assert_eq!(
        complete_order(&listing, &placed_oracle(), &addr(20), &owner(), &owner(), &asset, 1_000),
        Err(ClickCrateError::OrderNotCompleted)
    );
    assert_eq!(
        complete_order(&listing, &done, &addr(20), &addr(99), &owner(), &asset, 1_000),
        Err(ClickCrateError::UnauthorizedUpdate)
    );
    assert_eq!(
        complete_order(&listing, &done, &addr(20), &owner(), &addr(99), &asset, 1_000),
        Err(ClickCrateError::UnauthorizedUpdate)
    );
    // The asset's own record names someone else as its owner.
    assert_eq!(
        complete_order(&listing, &done, &addr(20), &owner(), &owner(), &asset_bytes(addr(5)), 1_000),
        Err(ClickCrateError::UnauthorizedUpdate)
    );
    assert_eq!(
        complete_order(&listing, &done, &addr(20), &owner(), &owner(), &[1, 2, 3], 1_000),
        Err(ClickCrateError::InvalidProductAccount)
    );
    assert_eq!(
        complete_order(&listing, &done, &addr(21), &owner(), &owner(), &asset, 1_000),
        Err(ClickCrateError::ProductListingNotFound)
    );
    let mut unpriced = listing;
    unpriced.price = None;
    assert_eq!(
        complete_order(&unpriced, &done, &addr(20), &owner(), &owner(), &asset, 1_000),
        Err(ClickCrateError::PriceNotFound)
    );
}

#[test]
fn close_oracle_needs_owner_of_listing_and_asset() {
    let (_, listing) = stocked(2, Some(300));
    assert_eq!(close_oracle(&listing, &owner(), &addr(20), &asset_bytes(owner())), Ok(()));
    assert_eq!(
        close_oracle(&listing, &addr(99), &addr(20), &asset_bytes(owner())),
        Err(ClickCrateError::UnauthorizedClose)
    );
    assert_eq!(
        close_oracle(&listing, &owner(), &addr(20), &asset_bytes(addr(6))),
        Err(ClickCrateError::UnauthorizedClose)
    );
    assert_eq!(
        close_oracle(&listing, &owner(), &addr(20), &[]),
        Err(ClickCrateError::InvalidProductAccount)
    );
    assert_eq!(
        close_oracle(&listing, &owner(), &addr(21), &asset_bytes(owner())),
        Err(ClickCrateError::ProductListingNotFound)
    );
}
