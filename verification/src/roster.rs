use vstd::prelude::*;

use crate::error::ApiError;
use crate::text::{byte_count, byte_len, opt_str_view, str_eq, trim, trimmed};

verus! {

/// Longest roster code and PRC license number, in UTF-8 bytes.
pub const MAX_ROSTER_FIELD_BYTES: usize = 100;

/// Roles a roster entry may have.
pub open spec fn is_roster_role(s: Seq<char>) -> bool {
    s == "Lead Broker"@ || s == "Titling Officer"@ || s == "Agent"@
}

/// Statuses a roster entry may have.
pub open spec fn is_roster_status(s: Seq<char>) -> bool {
    s == "Active"@ || s == "Inactive"@
}

/// A PRC license number longer than may be stored (checked before trimming).
pub open spec fn prc_too_long(prc: Option<Seq<char>>) -> bool {
    match prc {
        Some(v) => byte_count(v) > MAX_ROSTER_FIELD_BYTES,
        None => false,
    }
}

/// The entry reports to itself.
pub open spec fn reports_to_self(broker_id: Option<u128>, current_id: Option<u128>) -> bool {
    match (broker_id, current_id) {
        (Some(b), Some(c)) => b == c,
        _ => false,
    }
}

/// Why a roster entry is refused, if it is, in the order the checks run.
/// `rate_ok` says whether the commission rate is finite and within 0..=100.
pub open spec fn spec_roster_input_error(
    role: Seq<char>,
    code: Seq<char>,
    prc: Option<Seq<char>>,
    rate_ok: bool,
    status: Seq<char>,
    broker_id: Option<u128>,
    current_id: Option<u128>,
) -> Option<ApiError> {
    if !is_roster_role(role) {
        Some(ApiError::InvalidRole)
    } else if trimmed(code).len() == 0 || byte_count(code) > MAX_ROSTER_FIELD_BYTES {
        Some(ApiError::InvalidCode)
    } else if prc_too_long(prc) {
        Some(ApiError::PrcLicenseTooLong)
    } else if !rate_ok {
        Some(ApiError::CommissionRateOutOfRange)
    } else if !is_roster_status(status) {
        Some(ApiError::InvalidStatus)
    } else if role != "Agent"@ && broker_id is Some {
        Some(ApiError::BrokerOnlyForAgent)
    } else if reports_to_self(broker_id, current_id) {
        Some(ApiError::SelfReporting)
    } else {
        None
    }
}

/// Checks a roster entry; `current_id` is the entry's own id when it is edited.
pub fn validate_roster_input(
    role: &str,
    code: &str,
    prc_license_number: Option<&str>,
    rate_ok: bool,
    status: &str,
    broker_id: Option<u128>,
    current_id: Option<u128>,
) -> (r: Result<(), ApiError>)
    ensures
        match r {
            Ok(_) => spec_roster_input_error(
                role@,
                code@,
                opt_str_view(prc_license_number),
                rate_ok,
                status@,
                broker_id,
                current_id,
            ) is None,
            Err(e) => spec_roster_input_error(
                role@,
                code@,
                opt_str_view(prc_license_number),
                rate_ok,
                status@,
                broker_id,
                current_id,
            ) == Some(e),
        },
{
    if !(str_eq(role, "Lead Broker") || str_eq(role, "Titling Officer") || str_eq(role, "Agent")) {
        return Err(ApiError::InvalidRole);
    }
    if trim(code).is_empty() || byte_len(code) > MAX_ROSTER_FIELD_BYTES {
        return Err(ApiError::InvalidCode);
    }
    match prc_license_number {
        Some(v) => {
            if byte_len(v) > MAX_ROSTER_FIELD_BYTES {
                return Err(ApiError::PrcLicenseTooLong);
            }
        },
        None => {},
    }
    if !rate_ok {
        return Err(ApiError::CommissionRateOutOfRange);
    }
    if !(str_eq(status, "Active") || str_eq(status, "Inactive")) {
        return Err(ApiError::InvalidStatus);
    }
    if !str_eq(role, "Agent") && broker_id.is_some() {
        return Err(ApiError::BrokerOnlyForAgent);
    }
    match (broker_id, current_id) {
        (Some(b), Some(c)) => {
            if b == c {
                return Err(ApiError::SelfReporting);
            }
        },
        _ => {},
    }
    Ok(())
}

/// The refusal for a failed roster write, from the database error code and
/// the violated constraint: a unique violation names what is taken, a foreign
/// key violation a missing user or broker; anything else is a failed save.
pub open spec fn spec_roster_db_error(code: Option<Seq<char>>, constraint: Option<Seq<char>>) -> ApiError {
    if code == Some("23505"@) {
        if constraint == Some("roster_user_id_unique"@) {
            ApiError::UserAlreadyOnRoster
        } else if constraint == Some("roster_code_unique"@) {
            ApiError::RosterCodeTaken
        } else {
            ApiError::RosterValueTaken
        }
    } else if code == Some("23503"@) {
        ApiError::RosterReferenceMissing
    } else {
        ApiError::RosterSaveFailed
    }
}

/// The database error code reports a unique-constraint violation.
pub fn is_unique_violation(code: Option<&str>) -> (r: bool)
    ensures
        r == (opt_str_view(code) == Some("23505"@)),
{
    is_text(code, "23505")
}

/// The database error code reports a foreign-key violation.
pub fn is_foreign_key_violation(code: Option<&str>) -> (r: bool)
    ensures
        r == (opt_str_view(code) == Some("23503"@)),
{
    is_text(code, "23503")
}

fn is_text(o: Option<&str>, lit: &str) -> (r: bool)
    ensures
        r == (opt_str_view(o) == Some(lit@)),
{
    match o {
        Some(s) => str_eq(s, lit),
        None => false,
    }
}

/// Maps a failed roster write to its refusal.
pub fn roster_db_error(code: Option<&str>, constraint: Option<&str>) -> (r: ApiError)
    ensures
        r == spec_roster_db_error(opt_str_view(code), opt_str_view(constraint)),
{
    if is_text(code, "23505") {
        if is_text(constraint, "roster_user_id_unique") {
            ApiError::UserAlreadyOnRoster
        } else if is_text(constraint, "roster_code_unique") {
            ApiError::RosterCodeTaken
        } else {
            ApiError::RosterValueTaken
        }
    } else if is_text(code, "23503") {
        ApiError::RosterReferenceMissing
    } else {
        ApiError::RosterSaveFailed
    }
}

} // verus!
