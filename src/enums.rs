//! Value types shared by every record: order status, validation results, origins
//! and eligibility filters, together with the status-to-validation table.
use vstd::prelude::*;

verus! {

/// Verdict of one check that the asset program consults on a lifecycle event.
#[derive(Clone, Copy, Debug, PartialEq, Eq, Structural)]
pub enum ExternalValidationResult {
    Approved,
    Rejected,
    Pass,
}

/// The four-flag permission vector (create, transfer, burn, update) of an asset.
#[derive(Clone, Copy, Debug, PartialEq, Eq, Structural)]
pub enum OracleValidation {
    Uninitialized,
    V1 {
        create: ExternalValidationResult,
        transfer: ExternalValidationResult,
        burn: ExternalValidationResult,
        update: ExternalValidationResult,
    },
}

#[derive(Clone, Copy, Debug, PartialEq, Eq, Structural)]
pub enum PlacementType {
    Digitalreplica,
    Relatedpurchase,
    Targetedplacement,
}

#[derive(Clone, Copy, Debug, PartialEq, Eq, Structural)]
pub enum ProductCategory {
    Clothing,
    Electronics,
    Books,
    Home,
    Beauty,
    Toys,
    Sports,
    Automotive,
    Grocery,
    Beverage,
    Health,
}

/// Marketplace a listing or an order comes from.
#[derive(Clone, Copy, Debug, PartialEq, Eq, Structural)]
pub enum Origin {
    Clickcrate,
    Shopify,
    Square,
}

#[derive(Clone, Copy, Debug, PartialEq, Eq, Structural)]
pub enum OrderStatus {
    Pending,
    Placed,
    Confirmed,
    Fulfilled,
    Delivered,
    Completed,
    Cancelled,
}

/// A version-1 validation vector with the four given verdicts.
pub open spec fn validation_v1(
    create: ExternalValidationResult,
    transfer: ExternalValidationResult,
    burn: ExternalValidationResult,
    update: ExternalValidationResult,
) -> OracleValidation {
    OracleValidation::V1 { create, transfer, burn, update }
}

/// The validation vector that each order status imposes on its asset.
pub open spec fn status_validation(status: OrderStatus) -> OracleValidation {
    match status {
        OrderStatus::Placed | OrderStatus::Pending => validation_v1(
            ExternalValidationResult::Pass,
            ExternalValidationResult::Rejected,
            ExternalValidationResult::Pass,
            ExternalValidationResult::Pass,
        ),
        OrderStatus::Confirmed | OrderStatus::Fulfilled | OrderStatus::Delivered => validation_v1(
            ExternalValidationResult::Rejected,
            ExternalValidationResult::Rejected,
            ExternalValidationResult::Rejected,
            ExternalValidationResult::Pass,
        ),
        OrderStatus::Completed | OrderStatus::Cancelled => validation_v1(
            ExternalValidationResult::Approved,
            ExternalValidationResult::Approved,
            ExternalValidationResult::Rejected,
            ExternalValidationResult::Pass,
        ),
    }
}

/// The validation vector of an asset that is placed and awaits its purchase: the single-use
/// token that a purchase consumes.
pub open spec fn awaiting_purchase_validation() -> OracleValidation {
    status_validation(OrderStatus::Placed)
}

/// The validation vector that a purchase leaves behind: updates are blocked until the
/// order moves on.
pub open spec fn purchased_validation() -> OracleValidation {
    validation_v1(
        ExternalValidationResult::Pass,
        ExternalValidationResult::Rejected,
        ExternalValidationResult::Pass,
        ExternalValidationResult::Rejected,
    )
}

/// Statuses under which the listing's assets may be unbound.
pub open spec fn is_settled(status: OrderStatus) -> bool {
    status == OrderStatus::Pending || status == OrderStatus::Completed || status == OrderStatus::Cancelled
}

impl OrderStatus {
    /// The validation vector this status imposes; the one place where vectors are computed.
    pub fn validation(&self) -> (r: OracleValidation)
        ensures
            r == status_validation(*self),
    {
        match self {
            OrderStatus::Placed | OrderStatus::Pending => OracleValidation::V1 {
                create: ExternalValidationResult::Pass,
                transfer: ExternalValidationResult::Rejected,
                burn: ExternalValidationResult::Pass,
                update: ExternalValidationResult::Pass,
            },
            OrderStatus::Confirmed | OrderStatus::Fulfilled | OrderStatus::Delivered => OracleValidation::V1 {
                create: ExternalValidationResult::Rejected,
                transfer: ExternalValidationResult::Rejected,
                burn: ExternalValidationResult::Rejected,
                update: ExternalValidationResult::Pass,
            },
            OrderStatus::Completed | OrderStatus::Cancelled => OracleValidation::V1 {
                create: ExternalValidationResult::Approved,
                transfer: ExternalValidationResult::Approved,
                burn: ExternalValidationResult::Rejected,
                update: ExternalValidationResult::Pass,
            },
        }
    }

    /// Whether no fulfilment is under way for an asset in this status.
    pub fn is_settled(&self) -> (r: bool)
        ensures
            r == is_settled(*self),
    {
        match self {
            OrderStatus::Pending | OrderStatus::Completed | OrderStatus::Cancelled => true,
            _ => false,
        }
    }
}

impl OracleValidation {
    /// The validation vector that a purchase leaves behind.
    pub fn purchased() -> (r: OracleValidation)
        ensures
            r == purchased_validation(),
    {
        OracleValidation::V1 {
            create: ExternalValidationResult::Pass,
            transfer: ExternalValidationResult::Rejected,
            burn: ExternalValidationResult::Pass,
            update: ExternalValidationResult::Rejected,
        }
    }

    /// Whether this is still the unused purchase token.
    pub fn is_awaiting_purchase(&self) -> (r: bool)
        ensures
            r == (*self == awaiting_purchase_validation()),
    {
        let token = OrderStatus::Placed.validation();
        *self == token
    }
}

} // verus!
