//! Per-asset order lifecycle: oracle creation, purchase, status transitions,
//! payout and oracle closure.
use vstd::prelude::*;
use crate::address::{lemma_view_injective, Address};
use crate::asset_program::{asset_owner, asset_owner_of, AssetCommand};
use crate::enums::{awaiting_purchase_validation, purchased_validation, status_validation, OracleValidation, OrderStatus};
use crate::errors::ClickCrateError;
use crate::state::{ClickCrateState, OrderOracle, ProductListingState};

verus! {

/// The reason creating an asset's oracle is refused, if it is.
pub open spec fn oracle_init_error(
    listing: ProductListingState,
    payer: Address,
    product_listing_id: Address,
) -> Option<ClickCrateError> {
    if listing.id != product_listing_id {
        Some(ClickCrateError::ProductListingNotFound)
    } else if payer != listing.owner {
        Some(ClickCrateError::UnauthorizedUpdate)
    } else {
        None
    }
}

/// Creates the oracle of an asset bound into the listing: a placed order
/// managed by the listing's order manager.
pub fn initialize_oracle(
    product_listing: &ProductListingState,
    payer: &Address,
    product_listing_id: &Address,
    bump: u8,
) -> (r: Result<OrderOracle, ClickCrateError>)
    ensures
        match r {
            Ok(oracle) => oracle_init_error(*product_listing, *payer, *product_listing_id) is None
                && oracle == OrderOracle::placed(product_listing.order_manager, bump),
            Err(e) => oracle_init_error(*product_listing, *payer, *product_listing_id) == Some(e),
        },
        r matches Ok(oracle) ==> oracle.consistent(),
{
    if product_listing.id != *product_listing_id {
        return Err(ClickCrateError::ProductListingNotFound);
    }
    if *payer != product_listing.owner {
        return Err(ClickCrateError::UnauthorizedUpdate);
    }
    let mut oracle = OrderOracle {
        order_status: OrderStatus::Placed,
        order_manager: product_listing.order_manager,
        validation: OracleValidation::Uninitialized,
        bump,
    };
    let _ = oracle.initialize(product_listing.order_manager, bump);
    Ok(oracle)
}

/// What a successful purchase hands back: the amount to move from the buyer
/// to the escrow, and the commands for the asset program.
#[derive(Debug, PartialEq, Eq)]
pub struct PurchaseReceipt {
    pub payment: u64,
    pub commands: Vec<AssetCommand>,
}

/// The reason a purchase is refused, if it is.
pub open spec fn purchase_error(
    clickcrate: ClickCrateState,
    listing: ProductListingState,
    oracle: OrderOracle,
    owner: Address,
    product: Address,
    product_id: Address,
    quantity: u64,
    buyer_balance: u64,
) -> Option<ClickCrateError> {
    if clickcrate.product != Some(listing.id) || product != product_id {
        Some(ClickCrateError::ProductNotFound)
    } else if owner != listing.owner || owner != clickcrate.owner {
        Some(ClickCrateError::UnauthorizedUpdate)
    } else if !listing.is_active {
        Some(ClickCrateError::ProductListingDeactivated)
    } else if !clickcrate.is_active {
        Some(ClickCrateError::ClickCrateDeactivated)
    } else if oracle.validation != awaiting_purchase_validation() {
        Some(ClickCrateError::OracleAlreadyUpdated)
    } else if oracle.order_status != OrderStatus::Placed {
        Some(ClickCrateError::ProductNotPlaced)
    } else if listing.in_stock < quantity {
        Some(ClickCrateError::ProductOutOfStock)
    } else if listing.price is None {
        Some(ClickCrateError::PriceNotFound)
    } else if buyer_balance < listing.price->0 * quantity {
        Some(ClickCrateError::InsufficientBalance)
    } else if listing.sold + quantity > u64::MAX {
        Some(ClickCrateError::SoldCountOverflow)
    } else {
        None
    }
}

/// The listing after `quantity` units are sold.
pub open spec fn purchased_listing(listing: ProductListingState, quantity: u64) -> ProductListingState {
    ProductListingState {
        in_stock: (listing.in_stock - quantity) as u64,
        sold: (listing.sold + quantity) as u64,
        ..listing
    }
}

/// The oracle of a purchased asset: the order is pending and the purchase
/// token is spent.
pub open spec fn purchased_oracle(oracle: OrderOracle) -> OrderOracle {
    OrderOracle { order_status: OrderStatus::Pending, validation: purchased_validation(), ..oracle }
}

/// Sells `quantity` units of the listing hosted in `clickcrate`, against the
/// asset `product`, to a buyer holding `buyer_balance`.
///
/// The buyer pays `price * quantity` into the escrow; a buyer who cannot pay
/// is refused and nothing changes.
pub fn make_purchase(
    clickcrate: &ClickCrateState,
    product_listing: &mut ProductListingState,
    oracle: &mut OrderOracle,
    owner: &Address,
    product: &Address,
    product_id: &Address,
    quantity: u64,
    buyer_balance: u64,
) -> (r: Result<PurchaseReceipt, ClickCrateError>)
    ensures
        match r {
            Ok(receipt) => {
                &&& purchase_error(*clickcrate, *old(product_listing), *old(oracle), *owner, *product,
                    *product_id, quantity, buyer_balance) is None
                &&& *final(product_listing) == purchased_listing(*old(product_listing), quantity)
                &&& *final(oracle) == purchased_oracle(*old(oracle))
                &&& receipt.payment == old(product_listing).price->0 * quantity
                &&& receipt.commands@ == seq![AssetCommand::MarkOrderConfirmed { asset: *product }]
            },
            Err(e) => {
                &&& purchase_error(*clickcrate, *old(product_listing), *old(oracle), *owner, *product,
                    *product_id, quantity, buyer_balance) == Some(e)
                &&& *final(product_listing) == *old(product_listing)
                &&& *final(oracle) == *old(oracle)
            },
        },
        r is Ok ==> {
            &&& final(product_listing).in_stock == old(product_listing).in_stock - quantity
            &&& final(product_listing).sold == old(product_listing).sold + quantity
            &&& final(oracle).order_status == OrderStatus::Pending
            &&& final(oracle).consistent()
        },
{
    if clickcrate.product != Some(product_listing.id) || *product != *product_id {
        return Err(ClickCrateError::ProductNotFound);
    }
    if *owner != product_listing.owner || *owner != clickcrate.owner {
        return Err(ClickCrateError::UnauthorizedUpdate);
    }
    if !product_listing.is_active {
        return Err(ClickCrateError::ProductListingDeactivated);
    }
    if !clickcrate.is_active {
        return Err(ClickCrateError::ClickCrateDeactivated);
    }
    if !oracle.validation.is_awaiting_purchase() {
        return Err(ClickCrateError::OracleAlreadyUpdated);
    }
    if oracle.order_status != OrderStatus::Placed {
        return Err(ClickCrateError::ProductNotPlaced);
    }
    if product_listing.in_stock < quantity {
        return Err(ClickCrateError::ProductOutOfStock);
    }
    let price = match product_listing.price {
        Some(p) => p,
        None => return Err(ClickCrateError::PriceNotFound),
    };
    let amount = match price.checked_mul(quantity) {
        Some(a) => a,
        None => return Err(ClickCrateError::InsufficientBalance),
    };
    if buyer_balance < amount {
        return Err(ClickCrateError::InsufficientBalance);
    }
    let sold = match product_listing.sold.checked_add(quantity) {
        Some(s) => s,
        None => return Err(ClickCrateError::SoldCountOverflow),
    };
    product_listing.in_stock = product_listing.in_stock - quantity;
    product_listing.sold = sold;
    oracle.order_status = OrderStatus::Pending;
    oracle.validation = OracleValidation::purchased();
    let mut commands: Vec<AssetCommand> = Vec::new();
    commands.push(AssetCommand::MarkOrderConfirmed { asset: *product });
    Ok(PurchaseReceipt { payment: amount, commands })
}

/// The reason a status transition is refused, if it is.
pub open spec fn status_update_error(
    listing: ProductListingState,
    seller: Address,
    product_listing_id: Address,
) -> Option<ClickCrateError> {
    if listing.id != product_listing_id {
        Some(ClickCrateError::ProductListingNotFound)
    } else if seller != listing.owner && seller != listing.manager {
        Some(ClickCrateError::UnauthorizedUpdate)
    } else {
        None
    }
}

/// The oracle once its order is moved to `status`.
pub open spec fn with_status(oracle: OrderOracle, status: OrderStatus) -> OrderOracle {
    OrderOracle { order_status: status, validation: status_validation(status), ..oracle }
}

/// Moves the asset's order to `new_order_status`, on behalf of the listing's
/// owner or manager; the validation vector follows from the new status alone.
pub fn update_order_status(
    product_listing: &ProductListingState,
    oracle: &mut OrderOracle,
    seller: &Address,
    product_listing_id: &Address,
    new_order_status: OrderStatus,
) -> (r: Result<(), ClickCrateError>)
    ensures
        match r {
            Ok(_) => status_update_error(*product_listing, *seller, *product_listing_id) is None
                && *final(oracle) == with_status(*old(oracle), new_order_status),
            Err(e) => status_update_error(*product_listing, *seller, *product_listing_id) == Some(e)
                && *final(oracle) == *old(oracle),
        },
        r is Ok ==> final(oracle).order_status == new_order_status
            && final(oracle).validation == status_validation(new_order_status)
            && final(oracle).consistent(),
{
    if product_listing.id != *product_listing_id {
        return Err(ClickCrateError::ProductListingNotFound);
    }
    if *seller != product_listing.owner && *seller != product_listing.manager {
        return Err(ClickCrateError::UnauthorizedUpdate);
    }
    oracle.order_status = new_order_status;
    oracle.validation = new_order_status.validation();
    Ok(())
}

/// The reason a payout is refused, if it is; `asset_owner` is the owner that
/// the asset's record names, if it parses.
pub open spec fn completion_error(
    listing: ProductListingState,
    oracle: OrderOracle,
    product_listing_id: Address,
    seller: Address,
    authority: Address,
    asset_owner: Option<Seq<u8>>,
    vault_balance: u64,
) -> Option<ClickCrateError> {
    if listing.id != product_listing_id {
        Some(ClickCrateError::ProductListingNotFound)
    } else if seller != listing.owner || authority != listing.owner {
        Some(ClickCrateError::UnauthorizedUpdate)
    } else if asset_owner is None {
        Some(ClickCrateError::InvalidProductAccount)
    } else if asset_owner != Some(seller@) {
        Some(ClickCrateError::UnauthorizedUpdate)
    } else if oracle.order_status != OrderStatus::Completed {
        Some(ClickCrateError::OrderNotCompleted)
    } else if listing.price is None {
        Some(ClickCrateError::PriceNotFound)
    } else if vault_balance < listing.price->0 {
        Some(ClickCrateError::InsufficientBalance)
    } else {
        None
    }
}

/// Pays the seller for a completed order: returns the amount, exactly the
/// listing's price, to move from the escrow holding `vault_balance`.
pub fn complete_order(
    product_listing: &ProductListingState,
    oracle: &OrderOracle,
    product_listing_id: &Address,
    seller: &Address,
    authority: &Address,
    product_data: &[u8],
    vault_balance: u64,
) -> (r: Result<u64, ClickCrateError>)
    ensures
        match r {
            Ok(amount) => completion_error(*product_listing, *oracle, *product_listing_id, *seller,
                *authority, asset_owner_of(product_data@), vault_balance) is None
                && amount == product_listing.price->0,
            Err(e) => completion_error(*product_listing, *oracle, *product_listing_id, *seller,
                *authority, asset_owner_of(product_data@), vault_balance) == Some(e),
        },
        r is Ok ==> vault_balance >= product_listing.price->0,
{
    if product_listing.id != *product_listing_id {
        return Err(ClickCrateError::ProductListingNotFound);
    }
    if *seller != product_listing.owner || *authority != product_listing.owner {
        return Err(ClickCrateError::UnauthorizedUpdate);
    }
    let owner = match asset_owner(product_data) {
        Some(o) => o,
        None => return Err(ClickCrateError::InvalidProductAccount),
    };
    proof {
        lemma_view_injective(owner, *seller);
    }
    if owner != *seller {
        return Err(ClickCrateError::UnauthorizedUpdate);
    }
    if oracle.order_status != OrderStatus::Completed {
        return Err(ClickCrateError::OrderNotCompleted);
    }
    let price = match product_listing.price {
        Some(p) => p,
        None => return Err(ClickCrateError::PriceNotFound),
    };
    if vault_balance < price {
        return Err(ClickCrateError::InsufficientBalance);
    }
    Ok(price)
}

/// The reason closing an asset's oracle is refused, if it is.
pub open spec fn oracle_close_error(
    listing: ProductListingState,
    owner: Address,
    product_listing_id: Address,
    asset_owner: Option<Seq<u8>>,
) -> Option<ClickCrateError> {
    if listing.id != product_listing_id {
        Some(ClickCrateError::ProductListingNotFound)
    } else if asset_owner is None {
        Some(ClickCrateError::InvalidProductAccount)
    } else if owner != listing.owner || asset_owner != Some(listing.owner@) {
        Some(ClickCrateError::UnauthorizedClose)
    } else {
        None
    }
}

/// Allows the oracle's storage to be reclaimed: the signer must own the
/// listing and be the owner that the asset's own record names.
pub fn close_oracle(
    product_listing: &ProductListingState,
    owner: &Address,
    product_listing_id: &Address,
    product_data: &[u8],
) -> (r: Result<(), ClickCrateError>)
    ensures
        match r {
            Ok(_) => oracle_close_error(*product_listing, *owner, *product_listing_id,
                asset_owner_of(product_data@)) is None,
            Err(e) => oracle_close_error(*product_listing, *owner, *product_listing_id,
                asset_owner_of(product_data@)) == Some(e),
        },
{
    if product_listing.id != *product_listing_id {
        return Err(ClickCrateError::ProductListingNotFound);
    }
    let asset_owner = match asset_owner(product_data) {
        Some(o) => o,
        None => return Err(ClickCrateError::InvalidProductAccount),
    };
    proof {
        lemma_view_injective(asset_owner, product_listing.owner);
    }
    if *owner != product_listing.owner || asset_owner != product_listing.owner {
        return Err(ClickCrateError::UnauthorizedClose);
    }
    Ok(())
}

} // verus!
