use vstd::prelude::*;

use crate::error::ApiError;
use crate::text::{byte_count, byte_len, trim, trimmed};

verus! {

/// Split length the company settings fall back to when none is stored.
pub const DEFAULT_COMPANY_SPLIT_MONTHS: i32 = 15;

/// The company-wide settings.
pub struct CompanySettings {
    pub company_name: String,
    pub office_address: String,
    pub currency: String,
    pub timezone: String,
    pub agent_commission_split_months: i32,
    pub updated_at: i64,
}

/// A request to replace the company settings.
pub struct CompanySettingsInput {
    pub company_name: String,
    pub office_address: String,
    pub currency: String,
    pub timezone: String,
    pub agent_commission_split_months: Option<i32>,
}

/// A request to change only the default commission split.
pub struct UpdateAgentCommissionSplitInput {
    pub agent_commission_split_months: i32,
}

/// A split length the settings accept.
pub open spec fn split_months_ok(m: int) -> bool {
    1 <= m <= 120
}

/// Why new company settings are refused, if they are: the trimmed name must be
/// 1 to 255 bytes, the address at most 2000 bytes, the currency (1 to 10
/// bytes) and timezone (1 to 64 bytes) non-blank, and a given split 1 to 120.
pub open spec fn spec_settings_error(
    company_name: Seq<char>,
    office_address: Seq<char>,
    currency: Seq<char>,
    timezone: Seq<char>,
    split: Option<i32>,
) -> Option<ApiError> {
    if trimmed(company_name).len() == 0 || byte_count(trimmed(company_name)) > 255 {
        Some(ApiError::InvalidCompanyName)
    } else if byte_count(office_address) > 2000 {
        Some(ApiError::OfficeAddressTooLong)
    } else if trimmed(currency).len() == 0 || byte_count(currency) > 10 {
        Some(ApiError::InvalidCurrency)
    } else if trimmed(timezone).len() == 0 || byte_count(timezone) > 64 {
        Some(ApiError::InvalidTimezone)
    } else if (match split {
        Some(m) => !split_months_ok(m as int),
        None => false,
    }) {
        Some(ApiError::AgentSplitMonthsOutOfRange)
    } else {
        None
    }
}

/// Checks new company settings; gives back the trimmed company name.
pub fn validate_company_settings(input: &CompanySettingsInput) -> (r: Result<&str, ApiError>)
    ensures
        match r {
            Ok(name) => spec_settings_error(
                input.company_name@,
                input.office_address@,
                input.currency@,
                input.timezone@,
                input.agent_commission_split_months,
            ) is None && name@ == trimmed(input.company_name@),
            Err(e) => spec_settings_error(
                input.company_name@,
                input.office_address@,
                input.currency@,
                input.timezone@,
                input.agent_commission_split_months,
            ) == Some(e),
        },
{
    let name = trim(input.company_name.as_str());
    if name.is_empty() || byte_len(name) > 255 {
        return Err(ApiError::InvalidCompanyName);
    }
    if byte_len(input.office_address.as_str()) > 2000 {
        return Err(ApiError::OfficeAddressTooLong);
    }
    if trim(input.currency.as_str()).is_empty() || byte_len(input.currency.as_str()) > 10 {
        return Err(ApiError::InvalidCurrency);
    }
    if trim(input.timezone.as_str()).is_empty() || byte_len(input.timezone.as_str()) > 64 {
        return Err(ApiError::InvalidTimezone);
    }
    match input.agent_commission_split_months {
        Some(m) => {
            if m < 1 || m > 120 {
                return Err(ApiError::AgentSplitMonthsOutOfRange);
            }
        },
        None => {},
    }
    Ok(name)
}

/// Split length the settings keep: the requested one, else the stored one,
/// else the default of 15.
pub fn settings_split_months(requested: Option<i32>, stored: Option<i32>) -> (r: i32)
    ensures
        r == (match requested {
            Some(m) => m,
            None => match stored {
                Some(s) => s,
                None => DEFAULT_COMPANY_SPLIT_MONTHS,
            },
        }),
{
    match requested {
        Some(m) => m,
        None => match stored {
            Some(s) => s,
            None => DEFAULT_COMPANY_SPLIT_MONTHS,
        },
    }
}

/// Checks a change of the default commission split.
pub fn validate_split_update(input: &UpdateAgentCommissionSplitInput) -> (r: Result<i32, ApiError>)
    ensures
        split_months_ok(input.agent_commission_split_months as int) ==> r == Ok::<i32, ApiError>(
            input.agent_commission_split_months,
        ),
        !split_months_ok(input.agent_commission_split_months as int) ==> r == Err::<i32, ApiError>(
            ApiError::AgentSplitMonthsOutOfRange,
        ),
{
    let m = input.agent_commission_split_months;
    if m < 1 || m > 120 {
        Err(ApiError::AgentSplitMonthsOutOfRange)
    } else {
        Ok(m)
    }
}

} // verus!
