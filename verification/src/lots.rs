use vstd::prelude::*;

use crate::agents::opt_view;
use crate::error::ApiError;
use crate::text::{byte_count, byte_len, non_blank, opt_str_view, owned, spec_non_blank, str_eq, trim, trimmed};

verus! {

/// Longest block or lot label, in UTF-8 bytes.
pub const MAX_BLOCK_LOT_BYTES: usize = 20;

/// Longest owner/buyer name on a lot, in UTF-8 bytes.
pub const MAX_OWNER_BYTES: usize = 255;

/// Lot types of the pricelist.
pub open spec fn is_lot_type(s: Seq<char>) -> bool {
    s == "Inner"@ || s == "Commercial"@ || s == "Corner"@ || s == "Commercial / Corner"@
}

/// Statuses an admin may set on a lot.
pub open spec fn is_lot_status(s: Seq<char>) -> bool {
    s == "Available"@ || s == "Hold"@ || s == "Reserved"@ || s == "Sold"@
}

/// A block or lot label: not blank, and at most 20 bytes as given.
pub open spec fn is_block_lot_label(s: Seq<char>) -> bool {
    trimmed(s).len() > 0 && byte_count(s) <= MAX_BLOCK_LOT_BYTES
}

/// Why a block/lot pair is refused, if it is.
pub open spec fn spec_block_lot_error(block: Seq<char>, lot: Seq<char>) -> Option<ApiError> {
    if !is_block_lot_label(block) {
        Some(ApiError::InvalidBlock)
    } else if !is_block_lot_label(lot) {
        Some(ApiError::InvalidLot)
    } else {
        None
    }
}

/// Checks the block and lot labels.
pub fn validate_block_lot(block: &str, lot: &str) -> (r: Result<(), ApiError>)
    ensures
        match r {
            Ok(_) => spec_block_lot_error(block@, lot@) is None,
            Err(e) => spec_block_lot_error(block@, lot@) == Some(e),
        },
{
    if trim(block).is_empty() || byte_len(block) > MAX_BLOCK_LOT_BYTES {
        return Err(ApiError::InvalidBlock);
    }
    if trim(lot).is_empty() || byte_len(lot) > MAX_BLOCK_LOT_BYTES {
        return Err(ApiError::InvalidLot);
    }
    Ok(())
}

/// Checks the lot type.
pub fn validate_lot_type(lot_type: &str) -> (r: Result<(), ApiError>)
    ensures
        r is Ok <==> is_lot_type(lot_type@),
        r is Err ==> r == Err::<(), ApiError>(ApiError::InvalidLotType),
{
    if str_eq(lot_type, "Inner") || str_eq(lot_type, "Commercial") || str_eq(lot_type, "Corner")
        || str_eq(lot_type, "Commercial / Corner") {
        Ok(())
    } else {
        Err(ApiError::InvalidLotType)
    }
}

/// Checks a lot status set by an admin.
pub fn validate_status(status: &str) -> (r: Result<(), ApiError>)
    ensures
        r is Ok <==> is_lot_status(status@),
        r is Err ==> r == Err::<(), ApiError>(ApiError::InvalidStatus),
{
    if str_eq(status, "Available") || str_eq(status, "Hold") || str_eq(status, "Reserved")
        || str_eq(status, "Sold") {
        Ok(())
    } else {
        Err(ApiError::InvalidStatus)
    }
}

/// Checks area and rate, given whether each is finite and positive.
pub fn validate_area_rate(area_positive: bool, rate_positive: bool) -> (r: Result<(), ApiError>)
    ensures
        r == (if !area_positive {
            Err(ApiError::InvalidArea)
        } else if !rate_positive {
            Err(ApiError::InvalidRate)
        } else {
            Ok::<(), ApiError>(())
        }),
{
    if !area_positive {
        return Err(ApiError::InvalidArea);
    }
    if !rate_positive {
        return Err(ApiError::InvalidRate);
    }
    Ok(())
}

/// Why a new lot is refused, if it is.
pub open spec fn spec_new_lot_error(
    block: Seq<char>,
    lot: Seq<char>,
    lot_type: Seq<char>,
    area_positive: bool,
    rate_positive: bool,
) -> Option<ApiError> {
    if spec_block_lot_error(block, lot) is Some {
        spec_block_lot_error(block, lot)
    } else if !is_lot_type(lot_type) {
        Some(ApiError::InvalidLotType)
    } else if !area_positive {
        Some(ApiError::InvalidArea)
    } else if !rate_positive {
        Some(ApiError::InvalidRate)
    } else {
        None
    }
}

/// Checks a new lot of the pricelist.
pub fn validate_new_lot(
    block: &str,
    lot: &str,
    lot_type: &str,
    area_positive: bool,
    rate_positive: bool,
) -> (r: Result<(), ApiError>)
    ensures
        match r {
            Ok(_) => spec_new_lot_error(block@, lot@, lot_type@, area_positive, rate_positive) is None,
            Err(e) => spec_new_lot_error(block@, lot@, lot_type@, area_positive, rate_positive)
                == Some(e),
        },
{
    match validate_block_lot(block, lot) {
        Err(e) => {
            return Err(e);
        },
        Ok(_) => {},
    }
    match validate_lot_type(lot_type) {
        Err(e) => {
            return Err(e);
        },
        Ok(_) => {},
    }
    validate_area_rate(area_positive, rate_positive)
}

/// Why an edit of a lot is refused, if it is: the checks of a new lot, then
/// the status, then an owner name longer than 255 bytes once trimmed.
pub open spec fn spec_lot_update_error(
    block: Seq<char>,
    lot: Seq<char>,
    lot_type: Seq<char>,
    area_positive: bool,
    rate_positive: bool,
    status: Seq<char>,
    owner_buyer: Option<Seq<char>>,
) -> Option<ApiError> {
    if spec_new_lot_error(block, lot, lot_type, area_positive, rate_positive) is Some {
        spec_new_lot_error(block, lot, lot_type, area_positive, rate_positive)
    } else if !is_lot_status(status) {
        Some(ApiError::InvalidStatus)
    } else if (match spec_non_blank(owner_buyer) {
        Some(o) => byte_count(o) > MAX_OWNER_BYTES,
        None => false,
    }) {
        Some(ApiError::OwnerBuyerTooLong)
    } else {
        None
    }
}

/// Checks an edit of a lot; gives back the owner name to store (trimmed,
/// none when blank).
pub fn validate_lot_update(
    block: &str,
    lot: &str,
    lot_type: &str,
    area_positive: bool,
    rate_positive: bool,
    status: &str,
    owner_buyer: Option<&str>,
) -> (r: Result<Option<String>, ApiError>)
    ensures
        match r {
            Ok(o) => spec_lot_update_error(
                block@,
                lot@,
                lot_type@,
                area_positive,
                rate_positive,
                status@,
                opt_str_view(owner_buyer),
            ) is None && opt_view(o) == spec_non_blank(opt_str_view(owner_buyer)),
            Err(e) => spec_lot_update_error(
                block@,
                lot@,
                lot_type@,
                area_positive,
                rate_positive,
                status@,
                opt_str_view(owner_buyer),
            ) == Some(e),
        },
{
    match validate_new_lot(block, lot, lot_type, area_positive, rate_positive) {
        Err(e) => {
            return Err(e);
        },
        Ok(_) => {},
    }
    match validate_status(status) {
        Err(e) => {
            return Err(e);
        },
        Ok(_) => {},
    }
    match non_blank(owner_buyer) {
        Some(o) => {
            if byte_len(o) > MAX_OWNER_BYTES {
                Err(ApiError::OwnerBuyerTooLong)
            } else {
                Ok(Some(owned(o)))
            }
        },
        None => Ok(None),
    }
}

} // verus!
