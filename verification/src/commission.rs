use vstd::prelude::*;

use crate::agents::opt_view;
use crate::dates::{Date, parse_date};
use crate::error::ApiError;
use crate::periods::{spec_period_end, validate_period_boundary};
use crate::salary::spec_field_date;
use crate::text::{non_blank, opt_str_view, owned, spec_non_blank, str_eq, trim, trimmed};

verus! {

/// `?from=&to=` of the admin commission-status list.
pub struct ListCommissionStatusQuery {
    pub from: Option<String>,
    pub to: Option<String>,
}

/// `?subject_agent_id=` of the commission row-meta list.
pub struct ListCommissionRowMetaQuery {
    pub subject_agent_id: Option<String>,
}

/// A request to set the "other" flag of one commission row.
pub struct UpsertCommissionRowMetaInput {
    pub subject_agent_id: String,
    pub row_key: String,
    pub period_start: String,
    pub other_flag: String,
}

/// Reading of an optional date filter: absent gives none; present must read
/// as a date (blank text is refused too).
pub open spec fn spec_required_filter(s: Option<Seq<char>>, err: ApiError) -> Result<Option<Date>, ApiError> {
    match s {
        None => Ok(None),
        Some(t) => match spec_field_date(t) {
            Some(d) => Ok(Some(d)),
            None => Err(err),
        },
    }
}

fn read_filter(s: Option<&str>, err: ApiError) -> (r: Result<Option<Date>, ApiError>)
    ensures
        r == spec_required_filter(opt_str_view(s), err),
{
    match s {
        None => Ok(None),
        Some(t) => match parse_date(t) {
            Some(d) => Ok(Some(d)),
            None => Err(err),
        },
    }
}

/// Reads the date range of the admin commission-status list.
pub fn commission_status_range(query: &ListCommissionStatusQuery) -> (r: Result<
    (Option<Date>, Option<Date>),
    ApiError,
>)
    ensures
        spec_required_filter(opt_view(query.from), ApiError::FromDateFormat) matches Err(e) ==> r
            == Err::<(Option<Date>, Option<Date>), ApiError>(e),
        spec_required_filter(opt_view(query.from), ApiError::FromDateFormat) matches Ok(f) ==> (
        match spec_required_filter(opt_view(query.to), ApiError::ToDateFormat) {
            Ok(t) => r == Ok::<(Option<Date>, Option<Date>), ApiError>((f, t)),
            Err(e) => r == Err::<(Option<Date>, Option<Date>), ApiError>(e),
        }),
{
    let from_text: Option<&str> = match &query.from {
        Some(s) => Some(s.as_str()),
        None => None,
    };
    let to_text: Option<&str> = match &query.to {
        Some(s) => Some(s.as_str()),
        None => None,
    };
    let from = match read_filter(from_text, ApiError::FromDateFormat) {
        Ok(f) => f,
        Err(e) => {
            return Err(e);
        },
    };
    match read_filter(to_text, ApiError::ToDateFormat) {
        Ok(t) => Ok((from, t)),
        Err(e) => Err(e),
    }
}

/// Reading of an optional date filter of a portal: absent or blank gives
/// none; otherwise it must read as a date.
pub open spec fn spec_optional_ymd(s: Option<Seq<char>>, err: ApiError) -> Result<Option<Date>, ApiError> {
    match spec_non_blank(s) {
        None => Ok(None),
        Some(_) => match s {
            Some(t) => match spec_field_date(t) {
                Some(d) => Ok(Some(d)),
                None => Err(err),
            },
            None => Ok(None),
        },
    }
}

/// Reads an optional `YYYY-MM-DD` filter, where blank means none; `err` is
/// the refusal for unreadable text.
pub fn parse_optional_ymd(value: Option<&str>, err: ApiError) -> (r: Result<Option<Date>, ApiError>)
    ensures
        r == spec_optional_ymd(opt_str_view(value), err),
{
    match value {
        None => Ok(None),
        Some(s) => {
            if trim(s).is_empty() {
                Ok(None)
            } else {
                match parse_date(s) {
                    Some(d) => Ok(Some(d)),
                    None => Err(err),
                }
            }
        },
    }
}

/// Release statuses of a commission period.
pub open spec fn is_commission_status(s: Seq<char>) -> bool {
    s == "not_yet"@ || s == "partial"@ || s == "pending"@ || s == "paid"@
}

/// The stored fields of a commission period status.
pub struct CommissionStatusFields {
    pub subject: String,
    pub period_start: Date,
    pub period_end: Date,
    /// Day a partial release was paid; only for the `partial` status.
    pub partial_paid_at: Option<Date>,
}

/// Why a commission period status is refused, if it is. `partial_amount_ok`
/// says whether the partial amount (zero when left out) is finite and not
/// negative; it is read for the `partial` status only, as is the payment day.
pub open spec fn spec_commission_status_error(
    subject: Seq<char>,
    status: Seq<char>,
    period_start: Seq<char>,
    period_end: Seq<char>,
    partial_amount_ok: bool,
    partial_paid_at: Option<Seq<char>>,
) -> Option<ApiError> {
    if trimmed(subject).len() == 0 {
        Some(ApiError::SubjectRequired)
    } else if !is_commission_status(status) {
        Some(ApiError::InvalidCommissionStatus)
    } else {
        match spec_field_date(period_start) {
            None => Some(ApiError::PeriodStartFormat),
            Some(s) => match spec_field_date(period_end) {
                None => Some(ApiError::PeriodEndFormat),
                Some(e) => if e.key() < s.key() {
                    Some(ApiError::PeriodEndBeforeStart)
                } else if status == "partial"@ && !partial_amount_ok {
                    Some(ApiError::PartialAmountInvalid)
                } else if status == "partial"@ && spec_optional_ymd(
                    partial_paid_at,
                    ApiError::PartialPaidAtFormat,
                ) is Err {
                    Some(ApiError::PartialPaidAtFormat)
                } else {
                    None
                },
            },
        }
    }
}

/// Checks a commission period status. A partial release paid on no given day
/// is dated `today`.
pub fn validate_commission_status(
    subject: &str,
    status: &str,
    period_start: &str,
    period_end: &str,
    partial_amount_ok: bool,
    partial_paid_at: Option<&str>,
    today: Date,
) -> (r: Result<CommissionStatusFields, ApiError>)
    ensures
        match r {
            Ok(f) => {
                &&& spec_commission_status_error(
                    subject@,
                    status@,
                    period_start@,
                    period_end@,
                    partial_amount_ok,
                    opt_str_view(partial_paid_at),
                ) is None
                &&& f.subject@ == trimmed(subject@)
                &&& spec_field_date(period_start@) == Some(f.period_start)
                &&& spec_field_date(period_end@) == Some(f.period_end)
                &&& status@ != "partial"@ ==> f.partial_paid_at is None
                &&& status@ == "partial"@ ==> f.partial_paid_at == (match spec_optional_ymd(
                    opt_str_view(partial_paid_at),
                    ApiError::PartialPaidAtFormat,
                ) {
                    Ok(Some(d)) => Some(d),
                    _ => Some(today),
                })
            },
            Err(e) => spec_commission_status_error(
                subject@,
                status@,
                period_start@,
                period_end@,
                partial_amount_ok,
                opt_str_view(partial_paid_at),
            ) == Some(e),
        },
{
    let subj = trim(subject);
    if subj.is_empty() {
        return Err(ApiError::SubjectRequired);
    }
    let is_partial = str_eq(status, "partial");
    if !(str_eq(status, "not_yet") || is_partial || str_eq(status, "pending") || str_eq(
        status,
        "paid",
    )) {
        return Err(ApiError::InvalidCommissionStatus);
    }
    let start = match parse_date(period_start) {
        Some(d) => d,
        None => {
            return Err(ApiError::PeriodStartFormat);
        },
    };
    let end = match parse_date(period_end) {
        Some(d) => d,
        None => {
            return Err(ApiError::PeriodEndFormat);
        },
    };
    if end.is_before(&start) {
        return Err(ApiError::PeriodEndBeforeStart);
    }
    let paid: Option<Date> = if is_partial {
        if !partial_amount_ok {
            return Err(ApiError::PartialAmountInvalid);
        }
        match parse_optional_ymd(partial_paid_at, ApiError::PartialPaidAtFormat) {
            Ok(Some(d)) => Some(d),
            Ok(None) => Some(today),
            Err(e) => {
                return Err(e);
            },
        }
    } else {
        None
    };
    Ok(
        CommissionStatusFields {
            subject: owned(subj),
            period_start: start,
            period_end: end,
            partial_paid_at: paid,
        },
    )
}

/// Values of the "other" flag of a commission row.
pub open spec fn is_other_flag(s: Seq<char>) -> bool {
    s == "none"@ || s == "half"@ || s == "full"@
}

/// The stored fields of a commission row's "other" flag.
pub struct RowMetaFields {
    pub subject: String,
    pub row_key: String,
    pub period_start: Date,
}

/// Why a row flag is refused, if it is.
pub open spec fn spec_row_meta_error(input: UpsertCommissionRowMetaInput) -> Option<ApiError> {
    if trimmed(input.subject_agent_id@).len() == 0 || trimmed(input.row_key@).len() == 0 {
        Some(ApiError::RowMetaKeysRequired)
    } else if !is_other_flag(input.other_flag@) {
        Some(ApiError::InvalidOtherFlag)
    } else if spec_field_date(input.period_start@) is None {
        Some(ApiError::PeriodStartFormat)
    } else {
        None
    }
}

/// Checks a row flag; subject and row key are kept trimmed.
pub fn validate_row_meta(input: &UpsertCommissionRowMetaInput) -> (r: Result<RowMetaFields, ApiError>)
    ensures
        match r {
            Ok(f) => spec_row_meta_error(*input) is None && f.subject@ == trimmed(
                input.subject_agent_id@,
            ) && f.row_key@ == trimmed(input.row_key@) && spec_field_date(input.period_start@)
                == Some(f.period_start),
            Err(e) => spec_row_meta_error(*input) == Some(e),
        },
{
    let subj = trim(input.subject_agent_id.as_str());
    let key = trim(input.row_key.as_str());
    if subj.is_empty() || key.is_empty() {
        return Err(ApiError::RowMetaKeysRequired);
    }
    let flag = input.other_flag.as_str();
    if !(str_eq(flag, "none") || str_eq(flag, "half") || str_eq(flag, "full")) {
        return Err(ApiError::InvalidOtherFlag);
    }
    match parse_date(input.period_start.as_str()) {
        Some(d) => Ok(RowMetaFields { subject: owned(subj), row_key: owned(key), period_start: d }),
        None => Err(ApiError::PeriodStartFormat),
    }
}

/// Subject filter of the row-meta list: trimmed, none when blank.
pub fn row_meta_subject_filter(query: &ListCommissionRowMetaQuery) -> (r: Option<&str>)
    ensures
        opt_str_view(r) == spec_non_blank(opt_view(query.subject_agent_id)),
{
    let text: Option<&str> = match &query.subject_agent_id {
        Some(s) => Some(s.as_str()),
        None => None,
    };
    non_blank(text)
}

/// Manual statuses of the payment tracker grid (blank clears the override).
pub open spec fn is_override_status(s: Seq<char>) -> bool {
    s == ""@ || s == "Paid"@ || s == "Half"@ || s == "Hold"@
}

/// Why an installment status override is refused, if it is.
pub open spec fn spec_override_error(status: Seq<char>, month: int) -> Option<ApiError> {
    if !is_override_status(status) {
        Some(ApiError::InvalidOverrideStatus)
    } else if !(0 <= month <= 11) {
        Some(ApiError::OverrideMonthOutOfRange)
    } else {
        None
    }
}

/// Checks an installment status override (months count from 0 = January).
pub fn validate_status_override(status: &str, month: i32) -> (r: Result<(), ApiError>)
    ensures
        match r {
            Ok(_) => spec_override_error(status@, month as int) is None,
            Err(e) => spec_override_error(status@, month as int) == Some(e),
        },
{
    if !(str_eq(status, "") || str_eq(status, "Paid") || str_eq(status, "Half") || str_eq(
        status,
        "Hold",
    )) {
        return Err(ApiError::InvalidOverrideStatus);
    }
    if month < 0 || month > 11 {
        return Err(ApiError::OverrideMonthOutOfRange);
    }
    Ok(())
}

/// The stored fields of a commission release entry.
pub struct ReleaseEntryFields {
    pub subject: String,
    pub period_start: Date,
    pub period_end: Date,
    pub paid_at: Date,
}

/// Why a commission release entry is refused, if it is: a blank subject, a
/// non-positive amount, unreadable dates, a period ending before it starts or
/// not matching the biweekly cadence, then an unreadable payment day.
pub open spec fn spec_release_entry_error(
    subject: Seq<char>,
    amount_positive: bool,
    period_start: Seq<char>,
    period_end: Seq<char>,
    paid_at: Seq<char>,
) -> Option<ApiError> {
    if trimmed(subject).len() == 0 {
        Some(ApiError::SubjectRequired)
    } else if !amount_positive {
        Some(ApiError::AmountNotPositive)
    } else {
        match spec_field_date(period_start) {
            None => Some(ApiError::PeriodStartFormat),
            Some(s) => match spec_field_date(period_end) {
                None => Some(ApiError::PeriodEndFormat),
                Some(e) => if e.key() < s.key() {
                    Some(ApiError::PeriodEndBeforeStart)
                } else if !(s.day == 1 || s.day == 16) {
                    Some(ApiError::PeriodStartNotBoundary)
                } else if e != spec_period_end(s) {
                    Some(ApiError::PeriodEndNotBoundary)
                } else if spec_field_date(paid_at) is None {
                    Some(ApiError::PaidAtFormat)
                } else {
                    None
                },
            },
        }
    }
}

/// Checks a commission release entry.
pub fn validate_release_entry(
    subject: &str,
    amount_positive: bool,
    period_start: &str,
    period_end: &str,
    paid_at: &str,
) -> (r: Result<ReleaseEntryFields, ApiError>)
    ensures
        match r {
            Ok(f) => {
                &&& spec_release_entry_error(
                    subject@,
                    amount_positive,
                    period_start@,
                    period_end@,
                    paid_at@,
                ) is None
                &&& f.subject@ == trimmed(subject@)
                &&& spec_field_date(period_start@) == Some(f.period_start)
                &&& spec_field_date(period_end@) == Some(f.period_end)
                &&& spec_field_date(paid_at@) == Some(f.paid_at)
            },
            Err(e) => spec_release_entry_error(
                subject@,
                amount_positive,
                period_start@,
                period_end@,
                paid_at@,
            ) == Some(e),
        },
{
    let subj = trim(subject);
    if subj.is_empty() {
        return Err(ApiError::SubjectRequired);
    }
    if !amount_positive {
        return Err(ApiError::AmountNotPositive);
    }
    let start = match parse_date(period_start) {
        Some(d) => d,
        None => {
            return Err(ApiError::PeriodStartFormat);
        },
    };
    let end = match parse_date(period_end) {
        Some(d) => d,
        None => {
            return Err(ApiError::PeriodEndFormat);
        },
    };
    if end.is_before(&start) {
        return Err(ApiError::PeriodEndBeforeStart);
    }
    match validate_period_boundary(start, end) {
        Err(e) => {
            return Err(e);
        },
        Ok(_) => {},
    }
    match parse_date(paid_at) {
        Some(d) => Ok(
            ReleaseEntryFields { subject: owned(subj), period_start: start, period_end: end, paid_at: d },
        ),
        None => Err(ApiError::PaidAtFormat),
    }
}

/// The stored fields of a commission release credit.
pub struct ReleaseCreditFields {
    pub subject: String,
    pub paid_at: Date,
    pub note: Option<String>,
}

/// Why a commission release credit is refused, if it is.
pub open spec fn spec_release_credit_error(
    subject: Seq<char>,
    amount_positive: bool,
    paid_at: Seq<char>,
) -> Option<ApiError> {
    if trimmed(subject).len() == 0 {
        Some(ApiError::SubjectRequired)
    } else if !amount_positive {
        Some(ApiError::AmountNotPositive)
    } else if spec_field_date(paid_at) is None {
        Some(ApiError::PaidAtFormat)
    } else {
        None
    }
}

/// Checks a commission release credit; the note is kept trimmed when not blank.
pub fn validate_release_credit(
    subject: &str,
    amount_positive: bool,
    paid_at: &str,
    note: Option<&str>,
) -> (r: Result<ReleaseCreditFields, ApiError>)
    ensures
        match r {
            Ok(f) => {
                &&& spec_release_credit_error(subject@, amount_positive, paid_at@) is None
                &&& f.subject@ == trimmed(subject@)
                &&& spec_field_date(paid_at@) == Some(f.paid_at)
                &&& opt_view(f.note) == spec_non_blank(opt_str_view(note))
            },
            Err(e) => spec_release_credit_error(subject@, amount_positive, paid_at@) == Some(e),
        },
{
    let subj = trim(subject);
    if subj.is_empty() {
        return Err(ApiError::SubjectRequired);
    }
    if !amount_positive {
        return Err(ApiError::AmountNotPositive);
    }
    let paid = match parse_date(paid_at) {
        Some(d) => d,
        None => {
            return Err(ApiError::PaidAtFormat);
        },
    };
    let kept: Option<String> = match non_blank(note) {
        Some(t) => Some(owned(t)),
        None => None,
    };
    Ok(ReleaseCreditFields { subject: owned(subj), paid_at: paid, note: kept })
}

/// Checks the split length of a new company-wide schedule entry.
pub fn validate_schedule_entry(split_months: i32) -> (r: Result<(), ApiError>)
    ensures
        r == (if 1 <= split_months <= 120 {
            Ok::<(), ApiError>(())
        } else {
            Err(ApiError::SplitMonthsOutOfRange)
        }),
{
    if split_months < 1 || split_months > 120 {
        Err(ApiError::SplitMonthsOutOfRange)
    } else {
        Ok(())
    }
}

/// The last remaining schedule entry can never be deleted, so a lookup always
/// has a baseline to resolve to.
pub fn check_schedule_deletable(total_entries: i64) -> (r: Result<(), ApiError>)
    ensures
        r == (if total_entries <= 1 {
            Err(ApiError::LastScheduleEntry)
        } else {
            Ok::<(), ApiError>(())
        }),
{
    if total_entries <= 1 {
        Err(ApiError::LastScheduleEntry)
    } else {
        Ok(())
    }
}

/// The release statuses of a commission period are exactly `not_yet`,
/// `partial`, `pending` and `paid`: for a named subject the status refusal
/// comes exactly for any other text, and with readable, ordered period dates
/// each of `not_yet`, `pending` and `paid` is accepted outright, as is
/// `partial` with a valid amount and a readable (or absent) payment day.
pub proof fn lemma_commission_statuses(
    subject: Seq<char>,
    status: Seq<char>,
    period_start: Seq<char>,
    period_end: Seq<char>,
    partial_amount_ok: bool,
    partial_paid_at: Option<Seq<char>>,
)
    requires
        trimmed(subject).len() > 0,
    ensures
        spec_commission_status_error(subject, status, period_start, period_end, partial_amount_ok, partial_paid_at)
            == Some(ApiError::InvalidCommissionStatus) <==> !(status == "not_yet"@ || status == "partial"@
            || status == "pending"@ || status == "paid"@),
        ((status == "not_yet"@ || status == "pending"@ || status == "paid"@ || (status == "partial"@
            && partial_amount_ok && spec_optional_ymd(partial_paid_at, ApiError::PartialPaidAtFormat) is Ok))
            && (spec_field_date(period_start) matches Some(s) && (spec_field_date(period_end) matches Some(e)
            && s.key() <= e.key()))) ==> spec_commission_status_error(
            subject,
            status,
            period_start,
            period_end,
            partial_amount_ok,
            partial_paid_at,
        ) is None,
{
    reveal_strlit("not_yet");
    reveal_strlit("partial");
    reveal_strlit("pending");
    reveal_strlit("paid");
    assert("not_yet"@[0] != "partial"@[0]);
    assert("pending"@[1] != "partial"@[1]);
    assert("paid"@[2] != "partial"@[2]);
}

} // verus!
