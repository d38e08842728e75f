use vstd::prelude::*;

use crate::contract::{LotStatus, is_payment_plan, payment_plan_known};
use crate::dates::{Date, month_index_in_range};
use crate::error::ApiError;
use crate::periods::{add_months, spec_add_months};
use crate::text::{byte_count, byte_len, str_eq, trim, trimmed};

verus! {

/// Payment methods of the older contract endpoints.
pub open spec fn is_legacy_method(s: Seq<char>) -> bool {
    s == "cash"@ || s == "card"@ || s == "gcash"@ || s == "maya"@
}

/// Why a contract of the older endpoints is refused, if it is: a blank or
/// over-long (255 bytes as given) buyer name, a blank block or lot, an
/// unknown plan, a negative amount, then a due day outside 1..=31.
pub open spec fn spec_legacy_contract_error(
    buyer_name: Seq<char>,
    lot_block: Seq<char>,
    lot_lot: Seq<char>,
    payment_plan: Seq<char>,
    any_amount_negative: bool,
    due_day: int,
) -> Option<ApiError> {
    if trimmed(buyer_name).len() == 0 || byte_count(buyer_name) > 255 {
        Some(ApiError::InvalidBuyerName)
    } else if trimmed(lot_block).len() == 0 || trimmed(lot_lot).len() == 0 {
        Some(ApiError::BlockAndLotRequired)
    } else if !is_payment_plan(payment_plan) {
        Some(ApiError::InvalidPaymentPlan)
    } else if any_amount_negative {
        Some(ApiError::NegativeNumericField)
    } else if !(1 <= due_day <= 31) {
        Some(ApiError::DueDayOutOfRange)
    } else {
        None
    }
}

/// Checks a contract sent to the older endpoints.
pub fn validate_legacy_contract(
    buyer_name: &str,
    lot_block: &str,
    lot_lot: &str,
    payment_plan: &str,
    any_amount_negative: bool,
    due_day: i32,
) -> (r: Result<(), ApiError>)
    ensures
        match r {
            Ok(_) => spec_legacy_contract_error(
                buyer_name@,
                lot_block@,
                lot_lot@,
                payment_plan@,
                any_amount_negative,
                due_day as int,
            ) is None,
            Err(e) => spec_legacy_contract_error(
                buyer_name@,
                lot_block@,
                lot_lot@,
                payment_plan@,
                any_amount_negative,
                due_day as int,
            ) == Some(e),
        },
{
    if trim(buyer_name).is_empty() || byte_len(buyer_name) > 255 {
        return Err(ApiError::InvalidBuyerName);
    }
    if trim(lot_block).is_empty() || trim(lot_lot).is_empty() {
        return Err(ApiError::BlockAndLotRequired);
    }
    if !payment_plan_known(payment_plan) {
        return Err(ApiError::InvalidPaymentPlan);
    }
    if any_amount_negative {
        return Err(ApiError::NegativeNumericField);
    }
    if due_day < 1 || due_day > 31 {
        return Err(ApiError::DueDayOutOfRange);
    }
    Ok(())
}

/// Why a payment sent to the older endpoints is refused, if it is.
pub open spec fn spec_legacy_payment_error(method: Seq<char>, amount_positive: bool, months_covered: int) -> Option<
    ApiError,
> {
    if !is_legacy_method(method) {
        Some(ApiError::InvalidPaymentMethod)
    } else if !amount_positive {
        Some(ApiError::PaymentAmountNotPositive)
    } else if months_covered < 0 {
        Some(ApiError::MonthsCoveredNegative)
    } else {
        None
    }
}

/// Checks a payment sent to the older endpoints.
pub fn validate_legacy_payment(method: &str, amount_positive: bool, months_covered: i32) -> (r: Result<
    (),
    ApiError,
>)
    ensures
        match r {
            Ok(_) => spec_legacy_payment_error(method@, amount_positive, months_covered as int) is None,
            Err(e) => spec_legacy_payment_error(method@, amount_positive, months_covered as int)
                == Some(e),
        },
{
    if !(str_eq(method, "cash") || str_eq(method, "card") || str_eq(method, "gcash") || str_eq(
        method,
        "maya",
    )) {
        return Err(ApiError::InvalidPaymentMethod);
    }
    if !amount_positive {
        return Err(ApiError::PaymentAmountNotPositive);
    }
    if months_covered < 0 {
        return Err(ApiError::MonthsCoveredNegative);
    }
    Ok(())
}

/// Months a payment moves the due date by: the months it covers, at least one.
pub open spec fn months_advanced(months_covered: int) -> int {
    if months_covered < 1 {
        1
    } else {
        months_covered
    }
}

/// The older endpoints move the next due date forward by the months a payment
/// covers (at least one), clamping the day to the target month.
pub fn legacy_next_due_date(current: Date, months_covered: i32) -> (r: Date)
    requires
        current.valid(),
        month_index_in_range(current.month_index() + months_advanced(months_covered as int)),
    ensures
        r == spec_add_months(current, months_advanced(months_covered as int)),
        r.valid(),
{
    let months: i32 = if months_covered < 1 {
        1
    } else {
        months_covered
    };
    add_months(current, months)
}

/// Lot status the older endpoints set for a contract's lot: sold once fully
/// paid or on a full-payment plan, otherwise reserved.
pub fn legacy_lot_status(fully_paid: bool, payment_plan: &str) -> (r: LotStatus)
    ensures
        r == (if fully_paid || payment_plan@ == "full"@ {
            LotStatus::Sold
        } else {
            LotStatus::Reserved
        }),
{
    if fully_paid || str_eq(payment_plan, "full") {
        LotStatus::Sold
    } else {
        LotStatus::Reserved
    }
}

} // verus!
