//! Errors of the lifecycle operations, each with its kind and a reason.
use vstd::prelude::*;

verus! {

/// Broad class of a failure.
#[derive(Clone, Copy, Debug, PartialEq, Eq, Structural)]
pub enum ErrorKind {
    /// A referenced record is absent or sits at another address.
    NotFound,
    /// The signer is not the required owner, manager or seller.
    Unauthorized,
    /// An activation flag, a counter or an order status is not as required.
    InvalidState,
    /// A batch is outside its bounds or disagrees with the minted count.
    InvalidBatch,
    /// Buyer or escrow funds fall short of the amount due.
    InsufficientBalance,
    /// A validation vector was already consumed, or an outside record does not parse.
    ExternalValidationConflict,
}

/// Why an operation was rejected; a rejected operation changes nothing.
#[derive(Clone, Copy, Debug, PartialEq, Eq, Structural)]
pub enum ClickCrateError {
    ClickCrateNotFound,
    ProductListingNotFound,
    ProductNotFound,
    OracleNotFound,
    InvalidVaultAccount,
    AddressDerivationFailed,
    UnauthorizedUpdate,
    UnauthorizedClose,
    ClickCrateDeactivated,
    ProductListingDeactivated,
    ProductListingNotEmpty,
    ProductNotPlaced,
    ProductOutOfStock,
    PriceNotFound,
    SoldCountOverflow,
    OrderNotCompleted,
    OrdersInProgress,
    InvalidStockingRequest,
    InvalidRemovalRequest,
    InsufficientBalance,
    OracleAlreadyUpdated,
    InvalidProductAccount,
    InvalidCollectionAccount,
    InvalidOracleAccount,
}

/// The kind that each error belongs to.
pub open spec fn kind_of(e: ClickCrateError) -> ErrorKind {
    match e {
        ClickCrateError::ClickCrateNotFound
        | ClickCrateError::ProductListingNotFound
        | ClickCrateError::ProductNotFound
        | ClickCrateError::OracleNotFound
        | ClickCrateError::InvalidVaultAccount
        | ClickCrateError::AddressDerivationFailed => ErrorKind::NotFound,
        ClickCrateError::UnauthorizedUpdate
        | ClickCrateError::UnauthorizedClose => ErrorKind::Unauthorized,
        ClickCrateError::ClickCrateDeactivated
        | ClickCrateError::ProductListingDeactivated
        | ClickCrateError::ProductListingNotEmpty
        | ClickCrateError::ProductNotPlaced
        | ClickCrateError::ProductOutOfStock
        | ClickCrateError::PriceNotFound
        | ClickCrateError::SoldCountOverflow
        | ClickCrateError::OrderNotCompleted
        | ClickCrateError::OrdersInProgress => ErrorKind::InvalidState,
        ClickCrateError::InvalidStockingRequest
        | ClickCrateError::InvalidRemovalRequest => ErrorKind::InvalidBatch,
        ClickCrateError::InsufficientBalance => ErrorKind::InsufficientBalance,
        ClickCrateError::OracleAlreadyUpdated
        | ClickCrateError::InvalidProductAccount
        | ClickCrateError::InvalidCollectionAccount
        | ClickCrateError::InvalidOracleAccount => ErrorKind::ExternalValidationConflict,
    }
}

impl ClickCrateError {
    /// The kind this error belongs to.
    pub fn kind(&self) -> (r: ErrorKind)
        ensures
            r == kind_of(*self),
    {
        match self {
            ClickCrateError::ClickCrateNotFound
            | ClickCrateError::ProductListingNotFound
            | ClickCrateError::ProductNotFound
            | ClickCrateError::OracleNotFound
            | ClickCrateError::InvalidVaultAccount
            | ClickCrateError::AddressDerivationFailed => ErrorKind::NotFound,
            ClickCrateError::UnauthorizedUpdate
            | ClickCrateError::UnauthorizedClose => ErrorKind::Unauthorized,
            ClickCrateError::ClickCrateDeactivated
            | ClickCrateError::ProductListingDeactivated
            | ClickCrateError::ProductListingNotEmpty
            | ClickCrateError::ProductNotPlaced
            | ClickCrateError::ProductOutOfStock
            | ClickCrateError::PriceNotFound
            | ClickCrateError::SoldCountOverflow
            | ClickCrateError::OrderNotCompleted
            | ClickCrateError::OrdersInProgress => ErrorKind::InvalidState,
            ClickCrateError::InvalidStockingRequest
            | ClickCrateError::InvalidRemovalRequest => ErrorKind::InvalidBatch,
            ClickCrateError::InsufficientBalance => ErrorKind::InsufficientBalance,
            ClickCrateError::OracleAlreadyUpdated
            | ClickCrateError::InvalidProductAccount
            | ClickCrateError::InvalidCollectionAccount
            | ClickCrateError::InvalidOracleAccount => ErrorKind::ExternalValidationConflict,
        }
    }

    /// A human-readable reason.
    pub fn message(&self) -> &'static str {
        match self {
            ClickCrateError::ClickCrateNotFound => "ClickCrate not found",
            ClickCrateError::ProductListingNotFound => "Product listing not found",
            ClickCrateError::ProductNotFound => "Product not found in this ClickCrate",
            ClickCrateError::OracleNotFound => "Order oracle not found for product",
            ClickCrateError::InvalidVaultAccount => "Vault account does not match the listing",
            ClickCrateError::AddressDerivationFailed => "No program address could be derived",
            ClickCrateError::UnauthorizedUpdate => "Signer is not authorized for this update",
            ClickCrateError::UnauthorizedClose => "Signer is not authorized to close this oracle",
            ClickCrateError::ClickCrateDeactivated => "ClickCrate is deactivated",
            ClickCrateError::ProductListingDeactivated => "Product listing is deactivated",
            ClickCrateError::ProductListingNotEmpty => "Product listing still holds stock or sales",
            ClickCrateError::ProductNotPlaced => "Product order is not in the placed state",
            ClickCrateError::ProductOutOfStock => "Product is out of stock",
            ClickCrateError::PriceNotFound => "Product listing has no price",
            ClickCrateError::SoldCountOverflow => "Sold count would overflow",
            ClickCrateError::OrderNotCompleted => "Order is not completed",
            ClickCrateError::OrdersInProgress => "Orders are still in progress",
            ClickCrateError::InvalidStockingRequest => "Invalid stocking request",
            ClickCrateError::InvalidRemovalRequest => "Invalid removal request",
            ClickCrateError::InsufficientBalance => "Insufficient balance",
            ClickCrateError::OracleAlreadyUpdated => "Order oracle was already updated",
            ClickCrateError::InvalidProductAccount => "Product account does not parse",
            ClickCrateError::InvalidCollectionAccount => "Collection account does not parse",
            ClickCrateError::InvalidOracleAccount => "Order oracle account does not parse",
        }
    }
}

} // verus!
