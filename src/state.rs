//! The records the lifecycle operations read and write.
use vstd::prelude::*;
use crate::address::Address;
use crate::enums::{
    purchased_validation, status_validation, OracleValidation, OrderStatus, Origin, PlacementType,
    ProductCategory,
};

verus! {

/// A placement slot: one physical or virtual location that hosts at most one listing.
#[derive(Clone, Copy, Debug, PartialEq, Eq)]
pub struct ClickCrateState {
    pub id: Address,
    pub owner: Address,
    pub manager: Address,
    pub eligible_placement_type: PlacementType,
    pub eligible_product_category: ProductCategory,
    /// The listing bound to this slot, if any.
    pub product: Option<Address>,
    pub is_active: bool,
}

impl ClickCrateState {
    /// Serialized size of the record, account discriminator included.
    pub const MAX_SIZE: usize = 8 + 32 + 32 + 32 + 1 + 1 + (1 + 32) + 1;
}

/// A product listing: one sellable unit type with its stock, price and escrow.
#[derive(Clone, Copy, Debug, PartialEq, Eq)]
pub struct ProductListingState {
    pub id: Address,
    pub origin: Origin,
    pub owner: Address,
    pub manager: Address,
    pub placement_type: PlacementType,
    pub product_category: ProductCategory,
    /// Units bound to the listing and still available.
    pub in_stock: u64,
    /// Units transacted so far.
    pub sold: u64,
    /// The slot the listing is bound to, if any.
    pub clickcrate_pos: Option<Address>,
    pub is_active: bool,
    pub price: Option<u64>,
    /// The escrow that holds buyer funds, once stocked.
    pub vault: Option<Address>,
    pub order_manager: Origin,
}

impl ProductListingState {
    /// Serialized size of the record, account discriminator included.
    pub const MAX_SIZE: usize = 8 + 32 + 1 + 32 + 32 + 1 + 1 + 8 + 8 + (1 + 32) + 1 + 8 + 32 + 1;
}

/// The custody record of a listing's escrow; its balance is held by the ledger.
#[derive(Clone, Copy, Debug, PartialEq, Eq, Structural)]
pub struct VaultAccount {
    pub bump: u8,
}

impl VaultAccount {
    /// Serialized size of the record, account discriminator included.
    pub const MAX_SIZE: usize = 8 + 1;
}

/// A ledger account handed to an operation: its address and its raw bytes.
#[derive(Debug, PartialEq, Eq)]
pub struct AccountData {
    pub key: Address,
    pub data: Vec<u8>,
}

/// Per-asset order record whose validation the asset program consults.
#[derive(Clone, Copy, Debug, PartialEq, Eq, Structural)]
pub struct OrderOracle {
    pub order_status: OrderStatus,
    pub order_manager: Origin,
    pub validation: OracleValidation,
    pub bump: u8,
}

impl OrderOracle {
    /// Serialized size of the record, account discriminator included.
    pub const MAX_SIZE: usize = 8 + 1 + 1 + 5 + 1;

    /// The validation agrees with the status: it is the status's vector, or the vector
    /// a purchase leaves on a pending order.
    pub open spec fn consistent(self) -> bool {
        ||| self.validation == status_validation(self.order_status)
        ||| (self.order_status == OrderStatus::Pending && self.validation == purchased_validation())
    }

    /// The oracle of a freshly placed asset.
    pub open spec fn placed(order_manager: Origin, bump: u8) -> OrderOracle {
        OrderOracle {
            order_status: OrderStatus::Placed,
            order_manager,
            validation: status_validation(OrderStatus::Placed),
            bump,
        }
    }

    /// Resets the record to a freshly placed order.
    pub fn initialize(&mut self, order_manager: Origin, bump: u8) -> (r: Result<(), crate::errors::ClickCrateError>)
        ensures
            r is Ok,
            *final(self) == OrderOracle::placed(order_manager, bump),
            final(self).consistent(),
    {
        self.order_status = OrderStatus::Placed;
        self.order_manager = order_manager;
        self.validation = OrderStatus::Placed.validation();
        self.bump = bump;
        Ok(())
    }
}

} // verus!
