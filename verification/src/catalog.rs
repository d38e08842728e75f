use vstd::prelude::*;

use crate::agents::opt_view;
use crate::dates::Date;
use crate::error::ApiError;
use crate::salary::spec_field_date;
use crate::dates::parse_date;
use crate::text::{byte_count, byte_len, non_blank, opt_str_view, owned, spec_non_blank, str_eq, trim, trimmed};

verus! {

/// Longest label of a position or rate category, in UTF-8 bytes.
pub const MAX_LABEL_BYTES: usize = 100;

/// Longest project name, in UTF-8 bytes.
pub const MAX_PROJECT_NAME_BYTES: usize = 255;

/// A label once trimmed: not blank and at most 100 bytes.
pub open spec fn label_ok(label: Seq<char>) -> bool {
    trimmed(label).len() > 0 && byte_count(trimmed(label)) <= MAX_LABEL_BYTES
}

/// Checks a label; gives back the trimmed label.
pub fn validate_label(label: &str) -> (r: Result<&str, ApiError>)
    ensures
        label_ok(label@) ==> (r matches Ok(l) && l@ == trimmed(label@)),
        !label_ok(label@) ==> r == Err::<&str, ApiError>(ApiError::InvalidLabel),
{
    let l = trim(label);
    if l.is_empty() || byte_len(l) > MAX_LABEL_BYTES {
        Err(ApiError::InvalidLabel)
    } else {
        Ok(l)
    }
}

/// A request to add an employee position.
pub struct CreateEmployeePositionTypeInput {
    pub label: String,
}

/// A request to move an employee position in the list (its label is fixed).
pub struct UpdateEmployeePositionTypeInput {
    pub sort_order: i32,
}

/// Checks a new employee position; gives back its trimmed label.
pub fn validate_new_position_type(input: &CreateEmployeePositionTypeInput) -> (r: Result<
    &str,
    ApiError,
>)
    ensures
        label_ok(input.label@) ==> (r matches Ok(l) && l@ == trimmed(input.label@)),
        !label_ok(input.label@) ==> r == Err::<&str, ApiError>(ApiError::InvalidLabel),
{
    validate_label(input.label.as_str())
}

/// A position may be deleted only once no employee holds it.
pub fn check_position_deletable(in_use: bool) -> (r: Result<(), ApiError>)
    ensures
        r == (if in_use {
            Err(ApiError::PositionInUse)
        } else {
            Ok::<(), ApiError>(())
        }),
{
    if in_use {
        Err(ApiError::PositionInUse)
    } else {
        Ok(())
    }
}

/// A request to add a project.
pub struct CreateProjectInput {
    pub name: String,
}

/// A project name once trimmed: not blank and at most 255 bytes.
pub open spec fn project_name_ok(name: Seq<char>) -> bool {
    trimmed(name).len() > 0 && byte_count(trimmed(name)) <= MAX_PROJECT_NAME_BYTES
}

/// Checks a new project; gives back its trimmed name.
pub fn validate_new_project(input: &CreateProjectInput) -> (r: Result<&str, ApiError>)
    ensures
        project_name_ok(input.name@) ==> (r matches Ok(n) && n@ == trimmed(input.name@)),
        !project_name_ok(input.name@) ==> r == Err::<&str, ApiError>(ApiError::InvalidProjectName),
{
    let n = trim(input.name.as_str());
    if n.is_empty() || byte_len(n) > MAX_PROJECT_NAME_BYTES {
        Err(ApiError::InvalidProjectName)
    } else {
        Ok(n)
    }
}

/// A request to add an expense category.
pub struct CreateExpenseCategoryInput {
    pub name: String,
}

/// Checks a new expense category; gives back its trimmed name.
pub fn validate_new_expense_category(input: &CreateExpenseCategoryInput) -> (r: Result<
    &str,
    ApiError,
>)
    ensures
        trimmed(input.name@).len() > 0 ==> (r matches Ok(n) && n@ == trimmed(input.name@)),
        trimmed(input.name@).len() == 0 ==> r == Err::<&str, ApiError>(ApiError::NameRequired),
{
    let n = trim(input.name.as_str());
    if n.is_empty() {
        Err(ApiError::NameRequired)
    } else {
        Ok(n)
    }
}

/// The stored fields of an expense.
pub struct ExpenseFields {
    pub paid_to: String,
    pub paid_at: Date,
    pub description: Option<String>,
}

/// Why an expense is refused, if it is: a blank payee, a non-positive amount,
/// then an unreadable payment date.
pub open spec fn spec_expense_error(
    paid_to: Seq<char>,
    amount_positive: bool,
    paid_at: Seq<char>,
) -> Option<ApiError> {
    if trimmed(paid_to).len() == 0 {
        Some(ApiError::PaidToRequired)
    } else if !amount_positive {
        Some(ApiError::AmountNotPositive)
    } else if spec_field_date(paid_at) is None {
        Some(ApiError::PaidAtFormat)
    } else {
        None
    }
}

/// Checks an expense (new or edited); the description is kept trimmed when
/// not blank.
pub fn validate_expense(
    paid_to: &str,
    amount_positive: bool,
    paid_at: &str,
    description: Option<&str>,
) -> (r: Result<ExpenseFields, ApiError>)
    ensures
        match r {
            Ok(f) => {
                &&& spec_expense_error(paid_to@, amount_positive, paid_at@) is None
                &&& f.paid_to@ == trimmed(paid_to@)
                &&& spec_field_date(paid_at@) == Some(f.paid_at)
                &&& opt_view(f.description) == spec_non_blank(opt_str_view(description))
            },
            Err(e) => spec_expense_error(paid_to@, amount_positive, paid_at@) == Some(e),
        },
{
    let payee = trim(paid_to);
    if payee.is_empty() {
        return Err(ApiError::PaidToRequired);
    }
    if !amount_positive {
        return Err(ApiError::AmountNotPositive);
    }
    let date = match parse_date(paid_at) {
        Some(d) => d,
        None => {
            return Err(ApiError::PaidAtFormat);
        },
    };
    let kept: Option<String> = match non_blank(description) {
        Some(t) => Some(owned(t)),
        None => None,
    };
    Ok(ExpenseFields { paid_to: owned(payee), paid_at: date, description: kept })
}

/// Why a new rate category is refused, if it is. `percent_ok` says whether
/// the percent is finite and within 0..=100.
pub open spec fn spec_new_category_error(label: Seq<char>, percent_ok: bool) -> Option<ApiError> {
    if !label_ok(label) {
        Some(ApiError::InvalidLabel)
    } else if !percent_ok {
        Some(ApiError::PercentOutOfRange)
    } else {
        None
    }
}

/// Checks a new rate category; gives back its trimmed label.
pub fn validate_new_category(label: &str, percent_ok: bool) -> (r: Result<&str, ApiError>)
    ensures
        match r {
            Ok(l) => spec_new_category_error(label@, percent_ok) is None && l@ == trimmed(label@),
            Err(e) => spec_new_category_error(label@, percent_ok) == Some(e),
        },
{
    let l = match validate_label(label) {
        Ok(l) => l,
        Err(e) => {
            return Err(e);
        },
    };
    if !percent_ok {
        return Err(ApiError::PercentOutOfRange);
    }
    Ok(l)
}

/// Why an edit of a rate category is refused, if it is: the checks of a new
/// one, then the agent-pool row may not be renamed nor shrunk below what the
/// upline roles take from it.
pub open spec fn spec_category_update_error(
    label: Seq<char>,
    percent_ok: bool,
    existing_label: Seq<char>,
    is_agent_pool: bool,
    below_upline_total: bool,
) -> Option<ApiError> {
    if spec_new_category_error(label, percent_ok) is Some {
        spec_new_category_error(label, percent_ok)
    } else if is_agent_pool && trimmed(label) != existing_label {
        Some(ApiError::CannotRenameAgentPool)
    } else if is_agent_pool && below_upline_total {
        Some(ApiError::AgentPoolBelowUplines)
    } else {
        None
    }
}

/// Checks an edit of a rate category; gives back its trimmed label.
/// `below_upline_total` says whether the new percent is below the upline
/// roles' total for the project (only read for the agent-pool row).
pub fn validate_category_update<'a>(
    label: &'a str,
    percent_ok: bool,
    existing_label: &str,
    is_agent_pool: bool,
    below_upline_total: bool,
) -> (r: Result<&'a str, ApiError>)
    ensures
        match r {
            Ok(l) => spec_category_update_error(
                label@,
                percent_ok,
                existing_label@,
                is_agent_pool,
                below_upline_total,
            ) is None && l@ == trimmed(label@),
            Err(e) => spec_category_update_error(
                label@,
                percent_ok,
                existing_label@,
                is_agent_pool,
                below_upline_total,
            ) == Some(e),
        },
{
    let l = match validate_new_category(label, percent_ok) {
        Ok(l) => l,
        Err(e) => {
            return Err(e);
        },
    };
    if is_agent_pool && !str_eq(l, existing_label) {
        return Err(ApiError::CannotRenameAgentPool);
    }
    if is_agent_pool && below_upline_total {
        return Err(ApiError::AgentPoolBelowUplines);
    }
    Ok(l)
}

/// The agent-pool category can never be deleted.
pub fn check_category_deletable(is_agent_pool: bool) -> (r: Result<(), ApiError>)
    ensures
        r == (if is_agent_pool {
            Err(ApiError::CannotDeleteAgentPool)
        } else {
            Ok::<(), ApiError>(())
        }),
{
    if is_agent_pool {
        Err(ApiError::CannotDeleteAgentPool)
    } else {
        Ok(())
    }
}

/// Why a project's rate for an upline role is refused, if it is: the percent,
/// the direct-sale pool percent, then a total above the agent-pool bucket.
pub open spec fn spec_upline_rate_error(
    percent_ok: bool,
    pool_percent_ok: bool,
    exceeds_pool: bool,
) -> Option<ApiError> {
    if !percent_ok {
        Some(ApiError::PercentOutOfRange)
    } else if !pool_percent_ok {
        Some(ApiError::DirectSalePoolOutOfRange)
    } else if exceeds_pool {
        Some(ApiError::UplineRatesExceedPool)
    } else {
        None
    }
}

/// Checks a project's rate for an upline role, given whether the percent is
/// within 0..=100, whether the direct-sale pool percent (when given) is, and
/// whether the upline roles' total would exceed the agent-pool bucket.
pub fn validate_upline_role_rate(percent_ok: bool, pool_percent_ok: bool, exceeds_pool: bool) -> (r:
    Result<(), ApiError>)
    ensures
        match r {
            Ok(_) => spec_upline_rate_error(percent_ok, pool_percent_ok, exceeds_pool) is None,
            Err(e) => spec_upline_rate_error(percent_ok, pool_percent_ok, exceeds_pool) == Some(e),
        },
{
    if !percent_ok {
        return Err(ApiError::PercentOutOfRange);
    }
    if !pool_percent_ok {
        return Err(ApiError::DirectSalePoolOutOfRange);
    }
    if exceeds_pool {
        return Err(ApiError::UplineRatesExceedPool);
    }
    Ok(())
}

/// The refusal for a failed write of an employee position: a unique
/// violation means the position already exists.
pub fn position_db_error(unique_violation: bool) -> (r: ApiError)
    ensures
        r == (if unique_violation {
            ApiError::PositionExists
        } else {
            ApiError::PositionSaveFailed
        }),
{
    if unique_violation {
        ApiError::PositionExists
    } else {
        ApiError::PositionSaveFailed
    }
}

/// The refusal for a failed write of an upline role type: a unique violation
/// means its label or portal path is taken.
pub fn role_type_db_error(unique_violation: bool) -> (r: ApiError)
    ensures
        r == (if unique_violation {
            ApiError::RoleTypeTaken
        } else {
            ApiError::RoleTypeSaveFailed
        }),
{
    if unique_violation {
        ApiError::RoleTypeTaken
    } else {
        ApiError::RoleTypeSaveFailed
    }
}

/// The refusal for a failed write of a rate category.
pub fn category_db_error(unique_violation: bool) -> (r: ApiError)
    ensures
        r == (if unique_violation {
            ApiError::CategoryLabelTaken
        } else {
            ApiError::CategorySaveFailed
        }),
{
    if unique_violation {
        ApiError::CategoryLabelTaken
    } else {
        ApiError::CategorySaveFailed
    }
}

/// Roles with a company-wide rate that are not upline role types: the shared
/// agent pool and the fixed stakeholder allocations.
pub open spec fn is_fixed_role(role: Seq<char>) -> bool {
    role == "Agent"@ || role == "Legal Counsel"@ || role == "Land Owner"@ || role == "Hypomone"@
        || role == "Project Dev & Processing"@
}

/// Whether `role` is one of the fixed rate roles (any other role must be the
/// label of an upline role type).
pub fn fixed_role(role: &str) -> (r: bool)
    ensures
        r == is_fixed_role(role@),
{
    str_eq(role, "Agent") || str_eq(role, "Legal Counsel") || str_eq(role, "Land Owner") || str_eq(
        role,
        "Hypomone",
    ) || str_eq(role, "Project Dev & Processing")
}

/// Checks a change of a company-wide commission rate: the role must be known
/// (fixed, or an upline role type's label), then the rate finite and within
/// 0..=100.
pub fn check_rate_update(known_role: bool, rate_ok: bool) -> (r: Result<(), ApiError>)
    ensures
        r == (if !known_role {
            Err(ApiError::UnknownRole)
        } else if !rate_ok {
            Err(ApiError::CommissionRateOutOfRange)
        } else {
            Ok::<(), ApiError>(())
        }),
{
    if !known_role {
        return Err(ApiError::UnknownRole);
    }
    if !rate_ok {
        return Err(ApiError::CommissionRateOutOfRange);
    }
    Ok(())
}

/// A category seeded into every new project's rate configuration, with its
/// default percent (used when no company-wide rate of that name is stored).
pub struct SeedCategory {
    pub label: &'static str,
    pub default_percent: u32,
    pub sort_order: i32,
}

/// Label of the agent-pool category seeded into every project.
pub fn agent_pool_label() -> (r: &'static str)
    ensures
        r@ == "Agent Commission"@,
{
    "Agent Commission"
}

/// Sort position of the agent-pool category.
pub const AGENT_POOL_SORT_ORDER: i32 = 99;

/// Default percent of the agent-pool category when no company-wide rate of
/// the pool roles is stored.
pub const AGENT_POOL_DEFAULT_PERCENT: u32 = 20;

/// The fixed categories a new project starts with, in sort order.
pub fn seed_categories() -> (r: Vec<SeedCategory>)
    ensures
        r@.len() == 4,
        r@[0].label@ == "Legal Counsel"@ && r@[0].default_percent == 5 && r@[0].sort_order == 0,
        r@[1].label@ == "Land Owner"@ && r@[1].default_percent == 40 && r@[1].sort_order == 1,
        r@[2].label@ == "Hypomone"@ && r@[2].default_percent == 25 && r@[2].sort_order == 2,
        r@[3].label@ == "Project Dev & Processing"@ && r@[3].default_percent == 10
            && r@[3].sort_order == 3,
{
    let mut v: Vec<SeedCategory> = Vec::new();
    v.push(SeedCategory { label: "Legal Counsel", default_percent: 5, sort_order: 0 });
    v.push(SeedCategory { label: "Land Owner", default_percent: 40, sort_order: 1 });
    v.push(SeedCategory { label: "Hypomone", default_percent: 25, sort_order: 2 });
    v.push(SeedCategory { label: "Project Dev & Processing", default_percent: 10, sort_order: 3 });
    v
}

/// Roles whose company-wide rates add up to the agent-pool default.
pub fn agent_pool_roles() -> (r: Vec<&'static str>)
    ensures
        r@.len() == 3,
        r@[0]@ == "Lead Broker"@,
        r@[1]@ == "Titling Officer"@,
        r@[2]@ == "Agent"@,
{
    let mut v: Vec<&'static str> = Vec::new();
    v.push("Lead Broker");
    v.push("Titling Officer");
    v.push("Agent");
    v
}

/// The only subdivision layout format version.
pub const LAYOUT_VERSION: i32 = 1;

/// Why a subdivision layout is refused, if it is: it must name the project of
/// the URL, be of version 1, hold its blocks in an array, and have a positive
/// finite width and height (`size_positive`).
pub open spec fn spec_layout_error(
    url_project: u128,
    body_project: u128,
    version: i32,
    blocks_is_array: bool,
    size_positive: bool,
) -> Option<ApiError> {
    if body_project != url_project {
        Some(ApiError::LayoutProjectMismatch)
    } else if version != LAYOUT_VERSION {
        Some(ApiError::LayoutVersion)
    } else if !blocks_is_array {
        Some(ApiError::LayoutBlocksNotArray)
    } else if !size_positive {
        Some(ApiError::LayoutSizeInvalid)
    } else {
        None
    }
}

/// Checks a subdivision layout before it is stored.
pub fn validate_layout(
    url_project: u128,
    body_project: u128,
    version: i32,
    blocks_is_array: bool,
    size_positive: bool,
) -> (r: Result<(), ApiError>)
    ensures
        match r {
            Ok(_) => spec_layout_error(url_project, body_project, version, blocks_is_array, size_positive)
                is None,
            Err(e) => spec_layout_error(url_project, body_project, version, blocks_is_array, size_positive)
                == Some(e),
        },
{
    if body_project != url_project {
        return Err(ApiError::LayoutProjectMismatch);
    }
    if version != LAYOUT_VERSION {
        return Err(ApiError::LayoutVersion);
    }
    if !blocks_is_array {
        return Err(ApiError::LayoutBlocksNotArray);
    }
    if !size_positive {
        return Err(ApiError::LayoutSizeInvalid);
    }
    Ok(())
}

} // verus!
