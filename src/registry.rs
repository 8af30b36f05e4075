//! Registration, update and activation of slots and listings.
use vstd::prelude::*;
use crate::address::Address;
use crate::enums::{Origin, PlacementType, ProductCategory};
use crate::errors::ClickCrateError;
use crate::state::{ClickCrateState, ProductListingState};

verus! {

/// Registers a slot owned by `owner`; it starts inactive and empty.
pub fn register_clickcrate(
    id: Address,
    owner: Address,
    eligible_placement_type: PlacementType,
    eligible_product_category: ProductCategory,
    manager: Address,
) -> (r: ClickCrateState)
    ensures
        r == (ClickCrateState {
            id,
            owner,
            manager,
            eligible_placement_type,
            eligible_product_category,
            product: None,
            is_active: false,
        }),
{
    ClickCrateState {
        id,
        owner,
        manager,
        eligible_placement_type,
        eligible_product_category,
        product: None,
        is_active: false,
    }
}

/// The reason a change to a slot is refused, if it is.
pub open spec fn clickcrate_change_error(clickcrate: ClickCrateState, signer: Address, id: Address) -> Option<ClickCrateError> {
    if clickcrate.id != id {
        Some(ClickCrateError::ClickCrateNotFound)
    } else if signer != clickcrate.owner {
        Some(ClickCrateError::UnauthorizedUpdate)
    } else {
        None
    }
}

/// Replaces the slot's eligibility filters and manager, on its owner's behalf.
pub fn update_clickcrate(
    clickcrate: &mut ClickCrateState,
    signer: &Address,
    id: &Address,
    eligible_placement_type: PlacementType,
    eligible_product_category: ProductCategory,
    manager: Address,
) -> (r: Result<(), ClickCrateError>)
    ensures
        match r {
            Ok(_) => clickcrate_change_error(*old(clickcrate), *signer, *id) is None
                && *final(clickcrate) == (ClickCrateState {
                    eligible_placement_type,
                    eligible_product_category,
                    manager,
                    ..*old(clickcrate)
                }),
            Err(e) => clickcrate_change_error(*old(clickcrate), *signer, *id) == Some(e)
                && *final(clickcrate) == *old(clickcrate),
        },
{
    if clickcrate.id != *id {
        return Err(ClickCrateError::ClickCrateNotFound);
    }
    if *signer != clickcrate.owner {
        return Err(ClickCrateError::UnauthorizedUpdate);
    }
    clickcrate.eligible_placement_type = eligible_placement_type;
    clickcrate.eligible_product_category = eligible_product_category;
    clickcrate.manager = manager;
    Ok(())
}

/// Sets the slot's active flag, on its owner's behalf.
fn set_clickcrate_active(clickcrate: &mut ClickCrateState, signer: &Address, active: bool) -> (r: Result<(), ClickCrateError>)
    ensures
        match r {
            Ok(_) => *signer == old(clickcrate).owner
                && *final(clickcrate) == (ClickCrateState { is_active: active, ..*old(clickcrate) }),
            Err(e) => *signer != old(clickcrate).owner && e == ClickCrateError::UnauthorizedUpdate
                && *final(clickcrate) == *old(clickcrate),
        },
{
    if *signer != clickcrate.owner {
        return Err(ClickCrateError::UnauthorizedUpdate);
    }
    clickcrate.is_active = active;
    Ok(())
}

/// Opens the slot for stocking and purchases.
pub fn activate_clickcrate(clickcrate: &mut ClickCrateState, signer: &Address) -> (r: Result<(), ClickCrateError>)
    ensures
        match r {
            Ok(_) => *signer == old(clickcrate).owner
                && *final(clickcrate) == (ClickCrateState { is_active: true, ..*old(clickcrate) }),
            Err(e) => *signer != old(clickcrate).owner && e == ClickCrateError::UnauthorizedUpdate
                && *final(clickcrate) == *old(clickcrate),
        },
{
    set_clickcrate_active(clickcrate, signer, true)
}

/// Closes the slot to stocking and purchases.
pub fn deactivate_clickcrate(clickcrate: &mut ClickCrateState, signer: &Address) -> (r: Result<(), ClickCrateError>)
    ensures
        match r {
            Ok(_) => *signer == old(clickcrate).owner
                && *final(clickcrate) == (ClickCrateState { is_active: false, ..*old(clickcrate) }),
            Err(e) => *signer != old(clickcrate).owner && e == ClickCrateError::UnauthorizedUpdate
                && *final(clickcrate) == *old(clickcrate),
        },
{
    set_clickcrate_active(clickcrate, signer, false)
}

/// Registers a listing owned by `owner`; it starts inactive, with no stock,
/// no sales, no price, no slot and no escrow.
pub fn register_product_listing(
    id: Address,
    owner: Address,
    origin: Origin,
    placement_type: PlacementType,
    product_category: ProductCategory,
    manager: Address,
    order_manager: Origin,
) -> (r: ProductListingState)
    ensures
        r == (ProductListingState {
            id,
            origin,
            owner,
            manager,
            placement_type,
            product_category,
            in_stock: 0,
            sold: 0,
            clickcrate_pos: None,
            is_active: false,
            price: None,
            vault: None,
            order_manager,
        }),
{
    ProductListingState {
        id,
        origin,
        owner,
        manager,
        placement_type,
        product_category,
        in_stock: 0,
        sold: 0,
        clickcrate_pos: None,
        is_active: false,
        price: None,
        vault: None,
        order_manager,
    }
}

/// The reason a change to a listing is refused, if it is.
pub open spec fn listing_change_error(listing: ProductListingState, signer: Address, id: Address) -> Option<ClickCrateError> {
    if listing.id != id {
        Some(ClickCrateError::ProductListingNotFound)
    } else if signer != listing.owner {
        Some(ClickCrateError::UnauthorizedUpdate)
    } else {
        None
    }
}

/// Replaces the listing's placement type, category and manager, on its
/// owner's behalf; stock, price and references are left alone.
pub fn update_product_listing(
    product_listing: &mut ProductListingState,
    signer: &Address,
    id: &Address,
    placement_type: PlacementType,
    product_category: ProductCategory,
    manager: Address,
) -> (r: Result<(), ClickCrateError>)
    ensures
        match r {
            Ok(_) => listing_change_error(*old(product_listing), *signer, *id) is None
                && *final(product_listing) == (ProductListingState {
                    placement_type,
                    product_category,
                    manager,
                    ..*old(product_listing)
                }),
            Err(e) => listing_change_error(*old(product_listing), *signer, *id) == Some(e)
                && *final(product_listing) == *old(product_listing),
        },
{
    if product_listing.id != *id {
        return Err(ClickCrateError::ProductListingNotFound);
    }
    if *signer != product_listing.owner {
        return Err(ClickCrateError::UnauthorizedUpdate);
    }
    product_listing.placement_type = placement_type;
    product_listing.product_category = product_category;
    product_listing.manager = manager;
    Ok(())
}

/// Sets the listing's active flag, on its owner's behalf.
fn set_listing_active(product_listing: &mut ProductListingState, signer: &Address, active: bool) -> (r: Result<(), ClickCrateError>)
    ensures
        match r {
            Ok(_) => *signer == old(product_listing).owner
                && *final(product_listing) == (ProductListingState { is_active: active, ..*old(product_listing) }),
            Err(e) => *signer != old(product_listing).owner && e == ClickCrateError::UnauthorizedUpdate
                && *final(product_listing) == *old(product_listing),
        },
{
    if *signer != product_listing.owner {
        return Err(ClickCrateError::UnauthorizedUpdate);
    }
    product_listing.is_active = active;
    Ok(())
}

/// Opens the listing for stocking and purchases.
pub fn activate_product_listing(product_listing: &mut ProductListingState, signer: &Address) -> (r: Result<(), ClickCrateError>)
    ensures
        match r {
            Ok(_) => *signer == old(product_listing).owner
                && *final(product_listing) == (ProductListingState { is_active: true, ..*old(product_listing) }),
            Err(e) => *signer != old(product_listing).owner && e == ClickCrateError::UnauthorizedUpdate
                && *final(product_listing) == *old(product_listing),
        },
{
    set_listing_active(product_listing, signer, true)
}

/// Closes the listing to stocking and purchases.
pub fn deactivate_product_listing(product_listing: &mut ProductListingState, signer: &Address) -> (r: Result<(), ClickCrateError>)
    ensures
        match r {
            Ok(_) => *signer == old(product_listing).owner
                && *final(product_listing) == (ProductListingState { is_active: false, ..*old(product_listing) }),
            Err(e) => *signer != old(product_listing).owner && e == ClickCrateError::UnauthorizedUpdate
                && *final(product_listing) == *old(product_listing),
        },
{
    set_listing_active(product_listing, signer, false)
}

} // verus!
