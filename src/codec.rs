//! Byte layout of an order-oracle account: an 8-byte account discriminator,
//! then the fields in order, each enum as a one-byte variant index.
use vstd::prelude::*;
use crate::enums::{ExternalValidationResult, OracleValidation, OrderStatus, Origin};
use crate::state::OrderOracle;

verus! {

/// The discriminator that opens every order-oracle account.
pub open spec fn oracle_discriminator() -> Seq<u8> {
    seq![192u8, 227u8, 150u8, 94u8, 198u8, 44u8, 108u8, 107u8]
}

pub open spec fn status_tag(s: OrderStatus) -> u8 {
    match s {
        OrderStatus::Pending => 0,
        OrderStatus::Placed => 1,
        OrderStatus::Confirmed => 2,
        OrderStatus::Fulfilled => 3,
        OrderStatus::Delivered => 4,
        OrderStatus::Completed => 5,
        OrderStatus::Cancelled => 6,
    }
}

pub open spec fn status_of_tag(t: u8) -> Option<OrderStatus> {
    if t == 0 {
        Some(OrderStatus::Pending)
    } else if t == 1 {
        Some(OrderStatus::Placed)
    } else if t == 2 {
        Some(OrderStatus::Confirmed)
    } else if t == 3 {
        Some(OrderStatus::Fulfilled)
    } else if t == 4 {
        Some(OrderStatus::Delivered)
    } else if t == 5 {
        Some(OrderStatus::Completed)
    } else if t == 6 {
        Some(OrderStatus::Cancelled)
    } else {
        None
    }
}

pub open spec fn origin_tag(o: Origin) -> u8 {
    match o {
        Origin::Clickcrate => 0,
        Origin::Shopify => 1,
        Origin::Square => 2,
    }
}

pub open spec fn origin_of_tag(t: u8) -> Option<Origin> {
    if t == 0 {
        Some(Origin::Clickcrate)
    } else if t == 1 {
        Some(Origin::Shopify)
    } else if t == 2 {
        Some(Origin::Square)
    } else {
        None
    }
}

pub open spec fn result_tag(r: ExternalValidationResult) -> u8 {
    match r {
        ExternalValidationResult::Approved => 0,
        ExternalValidationResult::Rejected => 1,
        ExternalValidationResult::Pass => 2,
    }
}

pub open spec fn result_of_tag(t: u8) -> Option<ExternalValidationResult> {
    if t == 0 {
        Some(ExternalValidationResult::Approved)
    } else if t == 1 {
        Some(ExternalValidationResult::Rejected)
    } else if t == 2 {
        Some(ExternalValidationResult::Pass)
    } else {
        None
    }
}

/// Bytes of a validation vector.
pub open spec fn encode_validation(v: OracleValidation) -> Seq<u8> {
    match v {
        OracleValidation::Uninitialized => seq![0u8],
        OracleValidation::V1 { create, transfer, burn, update } => seq![
            1u8,
            result_tag(create),
            result_tag(transfer),
            result_tag(burn),
            result_tag(update),
        ],
    }
}

/// Bytes of an order-oracle account.
pub open spec fn encode_oracle(o: OrderOracle) -> Seq<u8> {
    oracle_discriminator() + seq![status_tag(o.order_status), origin_tag(o.order_manager)]
        + encode_validation(o.validation) + seq![o.bump]
}

/// The validation and the bump that follow the validation's first byte at `at`, if the
/// bytes hold them.
pub open spec fn decode_validation_and_bump(d: Seq<u8>, at: int) -> Option<(OracleValidation, u8)> {
    if d.len() <= at {
        None
    } else if d[at] == 0 {
        if d.len() <= at + 1 {
            None
        } else {
            Some((OracleValidation::Uninitialized, d[at + 1]))
        }
    } else if d[at] == 1 {
        if d.len() <= at + 5 {
            None
        } else {
            match (result_of_tag(d[at + 1]), result_of_tag(d[at + 2]), result_of_tag(d[at + 3]), result_of_tag(d[at + 4])) {
                (Some(create), Some(transfer), Some(burn), Some(update)) => Some(
                    (OracleValidation::V1 { create, transfer, burn, update }, d[at + 5]),
                ),
                _ => None,
            }
        }
    } else {
        None
    }
}

/// The order oracle that an account's bytes hold, if any; bytes after the
/// record are ignored.
pub open spec fn decode_oracle(d: Seq<u8>) -> Option<OrderOracle> {
    if d.len() < 10 || d.subrange(0, 8) != oracle_discriminator() {
        None
    } else {
        match (status_of_tag(d[8]), origin_of_tag(d[9]), decode_validation_and_bump(d, 10)) {
            (Some(order_status), Some(order_manager), Some((validation, bump))) => Some(
                OrderOracle { order_status, order_manager, validation, bump },
            ),
            _ => None,
        }
    }
}

fn status_from_tag(t: u8) -> (r: Option<OrderStatus>)
    ensures
        r == status_of_tag(t),
{
    if t == 0 {
        Some(OrderStatus::Pending)
    } else if t == 1 {
        Some(OrderStatus::Placed)
    } else if t == 2 {
        Some(OrderStatus::Confirmed)
    } else if t == 3 {
        Some(OrderStatus::Fulfilled)
    } else if t == 4 {
        Some(OrderStatus::Delivered)
    } else if t == 5 {
        Some(OrderStatus::Completed)
    } else if t == 6 {
        Some(OrderStatus::Cancelled)
    } else {
        None
    }
}

fn origin_from_tag(t: u8) -> (r: Option<Origin>)
    ensures
        r == origin_of_tag(t),
{
    if t == 0 {
        Some(Origin::Clickcrate)
    } else if t == 1 {
        Some(Origin::Shopify)
    } else if t == 2 {
        Some(Origin::Square)
    } else {
        None
    }
}

fn result_from_tag(t: u8) -> (r: Option<ExternalValidationResult>)
    ensures
        r == result_of_tag(t),
{
    if t == 0 {
        Some(ExternalValidationResult::Approved)
    } else if t == 1 {
        Some(ExternalValidationResult::Rejected)
    } else if t == 2 {
        Some(ExternalValidationResult::Pass)
    } else {
        None
    }
}

fn status_to_tag(s: OrderStatus) -> (r: u8)
    ensures
        r == status_tag(s),
{
    match s {
        OrderStatus::Pending => 0,
        OrderStatus::Placed => 1,
        OrderStatus::Confirmed => 2,
        OrderStatus::Fulfilled => 3,
        OrderStatus::Delivered => 4,
        OrderStatus::Completed => 5,
        OrderStatus::Cancelled => 6,
    }
}

fn origin_to_tag(o: Origin) -> (r: u8)
    ensures
        r == origin_tag(o),
{
    match o {
        Origin::Clickcrate => 0,
        Origin::Shopify => 1,
        Origin::Square => 2,
    }
}

fn result_to_tag(v: ExternalValidationResult) -> (r: u8)
    ensures
        r == result_tag(v),
{
    match v {
        ExternalValidationResult::Approved => 0,
        ExternalValidationResult::Rejected => 1,
        ExternalValidationResult::Pass => 2,
    }
}

/// The discriminator as bytes.
pub fn oracle_discriminator_bytes() -> (r: [u8; 8])
    ensures
        r@ == oracle_discriminator(),
{
    let d: [u8; 8] = [192, 227, 150, 94, 198, 44, 108, 107];
    assert(d@ =~= oracle_discriminator());
    d
}

/// Reads an order oracle from an account's bytes.
pub fn decode_order_oracle(data: &[u8]) -> (r: Option<OrderOracle>)
    ensures
        r == decode_oracle(data@),
{
    if data.len() < 10 {
        return None;
    }
    let disc = oracle_discriminator_bytes();
    let mut i: usize = 0;
    while i < 8
        invariant
            i <= 8,
            data@.len() >= 10,
            disc@ == oracle_discriminator(),
            forall|j: int| 0 <= j < i ==> data@[j] == disc@[j],
        decreases 8 - i,
    {
        if data[i] != disc[i] {
            assert(data@.subrange(0, 8)[i as int] != oracle_discriminator()[i as int]);
            return None;
        }
        i = i + 1;
    }
    assert(data@.subrange(0, 8) =~= oracle_discriminator());
    let order_status = match status_from_tag(data[8]) {
        Some(s) => s,
        None => return None,
    };
    let order_manager = match origin_from_tag(data[9]) {
        Some(o) => o,
        None => return None,
    };
    if data.len() <= 10 {
        return None;
    }
    let (validation, bump) = if data[10] == 0 {
        if data.len() <= 11 {
            return None;
        }
        (OracleValidation::Uninitialized, data[11])
    } else if data[10] == 1 {
        if data.len() <= 15 {
            return None;
        }
        let create = match result_from_tag(data[11]) {
            Some(v) => v,
            None => return None,
        };
        let transfer = match result_from_tag(data[12]) {
            Some(v) => v,
            None => return None,
        };
        let burn = match result_from_tag(data[13]) {
            Some(v) => v,
            None => return None,
        };
        let update = match result_from_tag(data[14]) {
            Some(v) => v,
            None => return None,
        };
        (OracleValidation::V1 { create, transfer, burn, update }, data[15])
    } else {
        return None;
    };
    Some(OrderOracle { order_status, order_manager, validation, bump })
}

/// Writes an order oracle as account bytes.
pub fn encode_order_oracle(oracle: &OrderOracle) -> (r: Vec<u8>)
    ensures
        r@ == encode_oracle(*oracle),
{
    let disc = oracle_discriminator_bytes();
    let mut out: Vec<u8> = Vec::new();
    let mut i: usize = 0;
    while i < 8
        invariant
            i <= 8,
            disc@ == oracle_discriminator(),
            out@ == disc@.subrange(0, i as int),
        decreases 8 - i,
    {
        out.push(disc[i]);
        assert(out@ =~= disc@.subrange(0, i + 1));
        i = i + 1;
    }
    out.push(status_to_tag(oracle.order_status));
    out.push(origin_to_tag(oracle.order_manager));
    match oracle.validation {
        OracleValidation::Uninitialized => {
            out.push(0);
        },
        OracleValidation::V1 { create, transfer, burn, update } => {
            out.push(1);
            out.push(result_to_tag(create));
            out.push(result_to_tag(transfer));
            out.push(result_to_tag(burn));
            out.push(result_to_tag(update));
        },
    }
    out.push(oracle.bump);
    assert(out@ =~= encode_oracle(*oracle));
    out
}

/// Reading back the bytes of an order oracle gives the same oracle, whatever
/// bytes follow them in the account.
pub proof fn lemma_oracle_round_trip(oracle: OrderOracle, rest: Seq<u8>)
    ensures
        decode_oracle(encode_oracle(oracle) + rest) == Some(oracle),
{
    let d = encode_oracle(oracle) + rest;
    assert(d.subrange(0, 8) =~= oracle_discriminator());
    match oracle.validation {
        OracleValidation::Uninitialized => {},
        OracleValidation::V1 { create, transfer, burn, update } => {
            assert(result_of_tag(result_tag(create)) == Some(create));
            assert(result_of_tag(result_tag(transfer)) == Some(transfer));
            assert(result_of_tag(result_tag(burn)) == Some(burn));
            assert(result_of_tag(result_tag(update)) == Some(update));
        },
    }
    assert(status_of_tag(status_tag(oracle.order_status)) == Some(oracle.order_status));
    assert(origin_of_tag(origin_tag(oracle.order_manager)) == Some(oracle.order_manager));
}

} // verus!
