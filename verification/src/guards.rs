use vstd::prelude::*;

use crate::contract::LotStatus;
use crate::error::ApiError;
use crate::text::{opt_str_view, str_eq};

verus! {

/// A session must belong to an account of `required` role; `refusal` is what
/// the caller is told otherwise.
pub open spec fn spec_role_check(role: Seq<char>, required: Seq<char>, refusal: ApiError) -> Result<(), ApiError> {
    if role == required {
        Ok(())
    } else {
        Err(refusal)
    }
}

fn role_is(role: &str, required: &str, refusal: ApiError) -> (r: Result<(), ApiError>)
    ensures
        r == spec_role_check(role@, required@, refusal),
{
    if str_eq(role, required) {
        Ok(())
    } else {
        Err(refusal)
    }
}

/// Admin-only routes.
pub fn require_admin(role: &str) -> (r: Result<(), ApiError>)
    ensures
        r == spec_role_check(role@, "Admin"@, ApiError::AdminRequired),
{
    role_is(role, "Admin", ApiError::AdminRequired)
}

/// Agent portal routes.
pub fn require_agent(role: &str) -> (r: Result<(), ApiError>)
    ensures
        r == spec_role_check(role@, "Agent"@, ApiError::AgentRequired),
{
    role_is(role, "Agent", ApiError::AgentRequired)
}

/// Lead Broker portal routes.
pub fn require_lead_broker(role: &str) -> (r: Result<(), ApiError>)
    ensures
        r == spec_role_check(role@, "Lead Broker"@, ApiError::LeadBrokerRequired),
{
    role_is(role, "Lead Broker", ApiError::LeadBrokerRequired)
}

/// Employee self-service routes.
pub fn require_employee(role: &str) -> (r: Result<(), ApiError>)
    ensures
        r == spec_role_check(role@, "Employee"@, ApiError::EmployeeRequired),
{
    role_is(role, "Employee", ApiError::EmployeeRequired)
}

/// Titling Officer portal routes.
pub fn require_titling_officer(role: &str) -> (r: Result<(), ApiError>)
    ensures
        r == spec_role_check(role@, "Titling Officer"@, ApiError::TitlingOfficerRequired),
{
    role_is(role, "Titling Officer", ApiError::TitlingOfficerRequired)
}

/// An upline portal is open to the role whose label the portal's slug names;
/// `label` is that label, `None` when no role type has the slug.
pub fn require_upline_role(label: Option<&str>, session_role: &str) -> (r: Result<(), ApiError>)
    ensures
        opt_str_view(label) is None ==> r == Err::<(), ApiError>(ApiError::UnknownUplineRole),
        opt_str_view(label) matches Some(l) ==> r == spec_role_check(
            session_role@,
            l,
            ApiError::UplinePortalForbidden,
        ),
{
    match label {
        None => Err(ApiError::UnknownUplineRole),
        Some(l) => {
            if str_eq(session_role, l) {
                Ok(())
            } else {
                Err(ApiError::UplinePortalForbidden)
            }
        },
    }
}

/// Statuses from which a portal user may reserve or release a lot.
pub open spec fn is_reservable(current: Seq<char>) -> bool {
    current == "Available"@ || current == "Hold"@ || current == "Reserved"@
}

/// The portal asking to change a lot's reservation.
#[derive(Clone, Copy, Debug, PartialEq, Eq, Structural)]
pub enum ReservePortal {
    Upline,
    TitlingOfficer,
}

/// A Titling Officer's request to reserve or release a lot.
pub struct ToReserveLotInput {
    pub status: String,
    pub reserved_until: Option<i64>,
    pub reserve_agent_id: Option<String>,
    pub reserve_notes: Option<String>,
}

/// An upline role's request to reserve or release a lot.
pub struct UplineReserveLotInput {
    pub status: String,
    pub reserved_until: Option<i64>,
    pub reserve_agent_id: Option<String>,
    pub reserve_notes: Option<String>,
}

/// Checks the status a portal asks for: only Available or Reserved.
pub fn check_requested_reserve_status(portal: ReservePortal, requested: &str) -> (r: Result<
    LotStatus,
    ApiError,
>)
    ensures
        requested@ == "Available"@ ==> r == Ok::<LotStatus, ApiError>(LotStatus::Available),
        requested@ == "Reserved"@ ==> r == Ok::<LotStatus, ApiError>(LotStatus::Reserved),
        requested@ != "Available"@ && requested@ != "Reserved"@ ==> r == Err::<LotStatus, ApiError>(
            match portal {
                ReservePortal::Upline => ApiError::UplineReserveStatus,
                ReservePortal::TitlingOfficer => ApiError::TitlingReserveStatus,
            },
        ),
{
    proof {
        reveal_strlit("Available");
        reveal_strlit("Reserved");
        assert("Available"@[0] != "Reserved"@[0]);
    }
    if str_eq(requested, "Available") {
        Ok(LotStatus::Available)
    } else if str_eq(requested, "Reserved") {
        Ok(LotStatus::Reserved)
    } else {
        match portal {
            ReservePortal::Upline => Err(ApiError::UplineReserveStatus),
            ReservePortal::TitlingOfficer => Err(ApiError::TitlingReserveStatus),
        }
    }
}

/// Checks that the lot's current status lets a portal reserve or release it;
/// on success tells whether the lot goes on hold (it does when reserved).
pub fn check_lot_reservable(current: &str, target: LotStatus) -> (r: Result<bool, ApiError>)
    ensures
        is_reservable(current@) ==> r == Ok::<bool, ApiError>(target == LotStatus::Reserved),
        !is_reservable(current@) ==> r == Err::<bool, ApiError>(ApiError::LotNotReservable),
{
    if str_eq(current, "Available") || str_eq(current, "Hold") || str_eq(current, "Reserved") {
        Ok(match target {
            LotStatus::Reserved => true,
            _ => false,
        })
    } else {
        Err(ApiError::LotNotReservable)
    }
}

} // verus!
