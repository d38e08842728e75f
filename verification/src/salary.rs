use vstd::prelude::*;

use crate::agents::opt_view;
use crate::dates::{Date, chrono_parse_ymd, parse_date, ymd_date};
use crate::error::ApiError;
use crate::text::{non_blank, opt_str_view, owned, spec_non_blank, str_eq, trim, trimmed};

verus! {

/// The employment statuses.
pub open spec fn is_employee_status(s: Seq<char>) -> bool {
    s == "Active"@ || s == "Inactive"@
}

/// Whether `status` is an employment status.
pub fn valid_status(status: &str) -> (r: bool)
    ensures
        r == is_employee_status(status@),
{
    str_eq(status, "Active") || str_eq(status, "Inactive")
}

/// Days of the week run from 0 (Sunday) to 6 (Saturday).
pub open spec fn is_weekday(d: i16) -> bool {
    0 <= d <= 6
}

/// Every entry is a day of the week.
pub open spec fn rest_days_in_range(days: Seq<i16>) -> bool {
    forall|i: int| 0 <= i < days.len() ==> is_weekday(#[trigger] days[i])
}

/// Each day is smaller than the next.
pub open spec fn ascending_days(days: Seq<i16>) -> bool {
    forall|i: int, j: int| 0 <= i < j < days.len() ==> days[i] < days[j]
}

/// The rest days a request gives; none when the field is left out.
pub open spec fn rest_days_given(o: Option<Vec<i16>>) -> Seq<i16> {
    match o {
        Some(v) => v@,
        None => Seq::empty(),
    }
}

fn contains_day(days: &Vec<i16>, d: i16) -> (r: bool)
    ensures
        r == days@.contains(d),
{
    let mut i: usize = 0;
    while i < days.len()
        invariant
            i <= days.len(),
            forall|k: int| 0 <= k < i ==> days@[k] != d,
        decreases days.len() - i,
    {
        if days[i] == d {
            assert(days@[i as int] == d);
            return true;
        }
        i = i + 1;
    }
    false
}

/// Rest days as stored: each a day of the week, ascending, without repeats.
/// Leaving the field out means no rest days.
pub fn normalize_rest_days(rest_days: Option<Vec<i16>>) -> (r: Result<Vec<i16>, ApiError>)
    ensures
        match r {
            Ok(v) => rest_days_in_range(rest_days_given(rest_days)) && ascending_days(v@) && (forall|
                x: i16,
            | v@.contains(x) <==> rest_days_given(rest_days).contains(x)),
            Err(e) => !rest_days_in_range(rest_days_given(rest_days)) && e
                == ApiError::RestDaysOutOfRange,
        },
{
    let days: Vec<i16> = match rest_days {
        Some(v) => v,
        None => Vec::new(),
    };
    assert(days@ == rest_days_given(rest_days));
    let n = days.len();
    let mut i: usize = 0;
    while i < n
        invariant
            n == days.len(),
            i <= n,
            days@ == rest_days_given(rest_days),
            forall|k: int| 0 <= k < i ==> is_weekday(#[trigger] days@[k]),
        decreases n - i,
    {
        if days[i] < 0 || days[i] > 6 {
            assert(!is_weekday(days@[i as int]));
            return Err(ApiError::RestDaysOutOfRange);
        }
        i = i + 1;
    }
    let mut out: Vec<i16> = Vec::new();
    let mut d: i16 = 0;
    while d <= 6
        invariant
            0 <= d <= 7,
            rest_days_in_range(days@),
            ascending_days(out@),
            forall|k: int| 0 <= k < out.len() ==> 0 <= #[trigger] out@[k] < d,
            forall|x: i16| 0 <= x < d ==> (out@.contains(x) <==> days@.contains(x)),
        decreases 7 - d,
    {
        let ghost before = out@;
        let present = contains_day(&days, d);
        if present {
            out.push(d);
        }
        proof {
            assert forall|x: i16| 0 <= x < d + 1 implies (out@.contains(x) <==> days@.contains(x)) by {
                if out@.contains(x) {
                    let k = choose|k: int| 0 <= k < out.len() && out@[k] == x;
                    if k < before.len() {
                        assert(before[k] == x);
                    }
                }
                if x < d && before.contains(x) {
                    let k = choose|k: int| 0 <= k < before.len() && before[k] == x;
                    assert(out@[k] == x);
                }
                if x == d && present {
                    assert(out@[before.len() as int] == d);
                }
            }
        }
        d = d + 1;
    }
    assert forall|x: i16| out@.contains(x) <==> days@.contains(x) by {
        if out@.contains(x) {
            let k = choose|k: int| 0 <= k < out.len() && out@[k] == x;
            assert(0 <= out@[k] < 7);
        }
        if days@.contains(x) {
            let k = choose|k: int| 0 <= k < days.len() && days@[k] == x;
            assert(is_weekday(days@[k]));
        }
    }
    Ok(out)
}

/// Two ascending day lists holding the same days are equal: the stored rest
/// days depend only on which days were given, not on their order or repeats.
pub proof fn lemma_rest_days_canonical(a: Seq<i16>, b: Seq<i16>)
    requires
        ascending_days(a),
        ascending_days(b),
        forall|x: i16| a.contains(x) <==> b.contains(x),
    ensures
        a == b,
    decreases a.len(),
{
    if a.len() == 0 {
        if b.len() > 0 {
            assert(b.contains(b[0]));
        }
        assert(a =~= b);
    } else {
        assert(a.contains(a[0]));
        assert(b.contains(b[0]));
        let i = choose|i: int| 0 <= i < b.len() && b[i] == a[0];
        let j = choose|j: int| 0 <= j < a.len() && a[j] == b[0];
        if i > 0 {
            assert(b[0] < b[i]);
        }
        if j > 0 {
            assert(a[0] < a[j]);
        }
        let a1 = a.drop_first();
        let b1 = b.drop_first();
        assert forall|x: i16| a1.contains(x) <==> b1.contains(x) by {
            if a1.contains(x) {
                let k = choose|k: int| 0 <= k < a1.len() && a1[k] == x;
                assert(a[k + 1] == x);
                assert(a.contains(x));
                let m = choose|m: int| 0 <= m < b.len() && b[m] == x;
                assert(a[0] < a[k + 1]);
                assert(m != 0);
                assert(b1[m - 1] == x);
            }
            if b1.contains(x) {
                let k = choose|k: int| 0 <= k < b1.len() && b1[k] == x;
                assert(b[k + 1] == x);
                assert(b.contains(x));
                let m = choose|m: int| 0 <= m < a.len() && a[m] == x;
                assert(b[0] < b[k + 1]);
                assert(m != 0);
                assert(a1[m - 1] == x);
            }
        }
        lemma_rest_days_canonical(a1, b1);
        assert(a[0] == b[0]);
        assert(a.len() == b.len());
        assert forall|k: int| 0 <= k < a.len() implies a[k] == b[k] by {
            if k > 0 {
                assert(a[k] == a1[k - 1]);
                assert(b[k] == b1[k - 1]);
            }
        }
        assert(a =~= b);
    }
}

/// Some entry of `labels` reads `pos`.
pub open spec fn label_listed(labels: Seq<String>, pos: Seq<char>) -> bool {
    exists|i: int| 0 <= i < labels.len() && labels[i]@ == pos
}

/// Whether `pos` is one of the configured position labels.
pub fn position_listed(labels: &Vec<String>, pos: &str) -> (r: bool)
    ensures
        r == label_listed(labels@, pos@),
{
    let mut i: usize = 0;
    while i < labels.len()
        invariant
            i <= labels.len(),
            forall|k: int| 0 <= k < i ==> labels@[k]@ != pos@,
        decreases labels.len() - i,
    {
        if str_eq(labels[i].as_str(), pos) {
            return true;
        }
        i = i + 1;
    }
    false
}

/// The position a request names, trimmed; blank counts as none.
pub fn employee_position(position: Option<&str>) -> (r: Option<&str>)
    ensures
        opt_str_view(r) == spec_non_blank(opt_str_view(position)),
{
    non_blank(position)
}

/// A named position that is not among the configured labels.
pub open spec fn position_refused(position: Option<Seq<char>>, labels: Seq<String>) -> bool {
    match spec_non_blank(position) {
        Some(p) => !label_listed(labels, p),
        None => false,
    }
}

/// Status of a new employee: as given, `Active` when left out.
pub open spec fn status_or_active(status: Option<Seq<char>>) -> Seq<char> {
    match status {
        Some(s) => s,
        None => "Active"@,
    }
}

/// The stored fields of an employee record.
pub struct EmployeeFields {
    pub name: String,
    pub position: Option<String>,
    pub status: String,
    pub rest_days: Vec<i16>,
}

/// `f` holds the trimmed name, the non-blank trimmed position, `status` and
/// the normalized rest days of `rest`.
pub open spec fn employee_fields_match(
    f: EmployeeFields,
    name: Seq<char>,
    position: Option<Seq<char>>,
    status: Seq<char>,
    rest: Seq<i16>,
) -> bool {
    &&& f.name@ == trimmed(name)
    &&& opt_view(f.position) == spec_non_blank(position)
    &&& f.status@ == status
    &&& ascending_days(f.rest_days@)
    &&& forall|x: i16| f.rest_days@.contains(x) <==> rest.contains(x)
}

/// Why a new employee is refused, if it is: a blank name, an unknown
/// position, a bad status, then a rest day out of range.
pub open spec fn spec_new_employee_error(
    name: Seq<char>,
    position: Option<Seq<char>>,
    status: Option<Seq<char>>,
    rest: Seq<i16>,
    labels: Seq<String>,
) -> Option<ApiError> {
    if trimmed(name).len() == 0 {
        Some(ApiError::NameRequired)
    } else if position_refused(position, labels) {
        Some(ApiError::InvalidEmployeePosition)
    } else if !is_employee_status(status_or_active(status)) {
        Some(ApiError::EmployeeStatusInvalid)
    } else if !rest_days_in_range(rest) {
        Some(ApiError::RestDaysOutOfRange)
    } else {
        None
    }
}

/// Checks a new employee record. `position_labels` are the configured
/// position labels (only read when a position is named).
pub fn validate_new_employee(
    name: &str,
    position: Option<&str>,
    status: Option<&str>,
    rest_days: Option<Vec<i16>>,
    position_labels: &Vec<String>,
) -> (r: Result<EmployeeFields, ApiError>)
    ensures
        match r {
            Ok(f) => spec_new_employee_error(
                name@,
                opt_str_view(position),
                opt_str_view(status),
                rest_days_given(rest_days),
                position_labels@,
            ) is None && employee_fields_match(
                f,
                name@,
                opt_str_view(position),
                status_or_active(opt_str_view(status)),
                rest_days_given(rest_days),
            ),
            Err(e) => spec_new_employee_error(
                name@,
                opt_str_view(position),
                opt_str_view(status),
                rest_days_given(rest_days),
                position_labels@,
            ) == Some(e),
        },
{
    let n = trim(name);
    if n.is_empty() {
        return Err(ApiError::NameRequired);
    }
    let pos = employee_position(position);
    let stored_position: Option<String> = match pos {
        Some(p) => {
            if !position_listed(position_labels, p) {
                return Err(ApiError::InvalidEmployeePosition);
            }
            Some(owned(p))
        },
        None => None,
    };
    let st: &str = match status {
        Some(s) => s,
        None => "Active",
    };
    if !valid_status(st) {
        return Err(ApiError::EmployeeStatusInvalid);
    }
    let days = normalize_rest_days(rest_days);
    match days {
        Ok(v) => Ok(
            EmployeeFields { name: owned(n), position: stored_position, status: owned(st), rest_days: v },
        ),
        Err(e) => Err(e),
    }
}

/// Why an edit of an employee is refused, if it is: a blank name, a bad
/// status, an unknown position, then a rest day out of range.
pub open spec fn spec_employee_update_error(
    name: Seq<char>,
    position: Option<Seq<char>>,
    status: Seq<char>,
    rest: Seq<i16>,
    labels: Seq<String>,
) -> Option<ApiError> {
    if trimmed(name).len() == 0 {
        Some(ApiError::NameRequired)
    } else if !is_employee_status(status) {
        Some(ApiError::EmployeeStatusInvalid)
    } else if position_refused(position, labels) {
        Some(ApiError::InvalidEmployeePosition)
    } else if !rest_days_in_range(rest) {
        Some(ApiError::RestDaysOutOfRange)
    } else {
        None
    }
}

/// Checks an edit of an employee record.
pub fn validate_employee_update(
    name: &str,
    position: Option<&str>,
    status: &str,
    rest_days: Option<Vec<i16>>,
    position_labels: &Vec<String>,
) -> (r: Result<EmployeeFields, ApiError>)
    ensures
        match r {
            Ok(f) => spec_employee_update_error(
                name@,
                opt_str_view(position),
                status@,
                rest_days_given(rest_days),
                position_labels@,
            ) is None && employee_fields_match(
                f,
                name@,
                opt_str_view(position),
                status@,
                rest_days_given(rest_days),
            ),
            Err(e) => spec_employee_update_error(
                name@,
                opt_str_view(position),
                status@,
                rest_days_given(rest_days),
                position_labels@,
            ) == Some(e),
        },
{
    let n = trim(name);
    if n.is_empty() {
        return Err(ApiError::NameRequired);
    }
    if !valid_status(status) {
        return Err(ApiError::EmployeeStatusInvalid);
    }
    let pos = employee_position(position);
    let stored_position: Option<String> = match pos {
        Some(p) => {
            if !position_listed(position_labels, p) {
                return Err(ApiError::InvalidEmployeePosition);
            }
            Some(owned(p))
        },
        None => None,
    };
    let days = normalize_rest_days(rest_days);
    match days {
        Ok(v) => Ok(
            EmployeeFields {
                name: owned(n),
                position: stored_position,
                status: owned(status),
                rest_days: v,
            },
        ),
        Err(e) => Err(e),
    }
}

/// What linking an employee record to another login account involves.
pub struct AccountRelink {
    /// The newly linked account, which must not be on the commission roster.
    pub check_roster: Option<u128>,
    /// The previously linked account, whose role goes back to a plain user.
    pub revert_role: Option<u128>,
    /// The newly linked account, which gets the employee role.
    pub grant_role: Option<u128>,
}

/// Nothing happens when the linked account stays the same; otherwise the old
/// account (if any) is reverted and the new one (if any) checked and granted.
pub fn plan_account_relink(old: Option<u128>, new: Option<u128>) -> (r: AccountRelink)
    ensures
        old == new ==> r.check_roster is None && r.revert_role is None && r.grant_role is None,
        old != new ==> r.check_roster == new && r.revert_role == old && r.grant_role == new,
{
    let same = match (old, new) {
        (Some(a), Some(b)) => a == b,
        (None, None) => true,
        _ => false,
    };
    if same {
        AccountRelink { check_roster: None, revert_role: None, grant_role: None }
    } else {
        AccountRelink { check_roster: new, revert_role: old, grant_role: new }
    }
}

/// The two kinds of pay plan.
#[derive(Clone, Copy, Debug, PartialEq, Eq, Structural)]
pub enum PlanKind {
    Training,
    Regular,
}

/// Release cadences of a regular plan.
pub open spec fn is_schedule_type(s: Seq<char>) -> bool {
    s == "weekly"@ || s == "semimonthly"@ || s == "monthly"@
}

/// Whether `s` is a release cadence.
pub fn schedule_type_known(s: &str) -> (r: bool)
    ensures
        r == is_schedule_type(s@),
{
    str_eq(s, "weekly") || str_eq(s, "semimonthly") || str_eq(s, "monthly")
}

/// A present value that is a release cadence.
pub open spec fn schedule_given(s: Option<Seq<char>>) -> bool {
    match s {
        Some(t) => is_schedule_type(t),
        None => false,
    }
}

/// A `YYYY-MM-DD` request field, read after trimming.
pub open spec fn spec_field_date(s: Seq<char>) -> Option<Date> {
    ymd_date(chrono_parse_ymd(trimmed(s)))
}

/// The stored fields of a new pay plan.
pub struct SalaryPlanFields {
    pub kind: PlanKind,
    pub start_date: Date,
    pub end_date: Option<Date>,
    pub schedule_type: Option<String>,
}

/// Why a new pay plan is refused, if it is. The start date is read first; a
/// training plan needs an end date on or after it and a positive fee; a
/// regular plan needs a positive monthly amount and a cadence.
pub open spec fn spec_salary_plan_error(
    kind: Seq<char>,
    start_date: Seq<char>,
    end_date: Option<Seq<char>>,
    fee_positive: bool,
    amount_positive: bool,
    schedule_type: Option<Seq<char>>,
) -> Option<ApiError> {
    match spec_field_date(start_date) {
        None => Some(ApiError::PlanStartDateFormat),
        Some(start) => if kind == "training"@ {
            match end_date {
                None => Some(ApiError::PlanEndDateRequired),
                Some(e) => match spec_field_date(e) {
                    None => Some(ApiError::PlanEndDateFormat),
                    Some(end) => if end.key() < start.key() {
                        Some(ApiError::PlanEndBeforeStart)
                    } else if !fee_positive {
                        Some(ApiError::TrainingFeeNotPositive)
                    } else {
                        None
                    },
                },
            }
        } else if kind == "regular"@ {
            if !amount_positive {
                Some(ApiError::MonthlyAmountNotPositive)
            } else if !schedule_given(schedule_type) {
                Some(ApiError::InvalidScheduleType)
            } else {
                None
            }
        } else {
            Some(ApiError::InvalidPlanKind)
        },
    }
}

/// Checks a new pay plan. `fee_positive` and `amount_positive` say whether
/// the training fee and the monthly amount are given, finite and positive.
pub fn validate_salary_plan(
    kind: &str,
    start_date: &str,
    end_date: Option<&str>,
    fee_positive: bool,
    amount_positive: bool,
    schedule_type: Option<&str>,
) -> (r: Result<SalaryPlanFields, ApiError>)
    ensures
        match r {
            Ok(f) => {
                &&& spec_salary_plan_error(
                    kind@,
                    start_date@,
                    opt_str_view(end_date),
                    fee_positive,
                    amount_positive,
                    opt_str_view(schedule_type),
                ) is None
                &&& spec_field_date(start_date@) == Some(f.start_date)
                &&& f.kind == (if kind@ == "training"@ {
                    PlanKind::Training
                } else {
                    PlanKind::Regular
                })
                &&& f.kind == PlanKind::Training ==> f.schedule_type is None && (
                end_date matches Some(e) && spec_field_date(e@) == f.end_date)
                &&& f.kind == PlanKind::Regular ==> f.end_date is None && opt_view(f.schedule_type)
                    == opt_str_view(schedule_type)
            },
            Err(e) => spec_salary_plan_error(
                kind@,
                start_date@,
                opt_str_view(end_date),
                fee_positive,
                amount_positive,
                opt_str_view(schedule_type),
            ) == Some(e),
        },
{
    let start = match parse_date(start_date) {
        Some(d) => d,
        None => {
            return Err(ApiError::PlanStartDateFormat);
        },
    };
    if str_eq(kind, "training") {
        let end_raw = match end_date {
            Some(e) => e,
            None => {
                return Err(ApiError::PlanEndDateRequired);
            },
        };
        let end = match parse_date(end_raw) {
            Some(d) => d,
            None => {
                return Err(ApiError::PlanEndDateFormat);
            },
        };
        if end.is_before(&start) {
            return Err(ApiError::PlanEndBeforeStart);
        }
        if !fee_positive {
            return Err(ApiError::TrainingFeeNotPositive);
        }
        Ok(
            SalaryPlanFields {
                kind: PlanKind::Training,
                start_date: start,
                end_date: Some(end),
                schedule_type: None,
            },
        )
    } else if str_eq(kind, "regular") {
        if !amount_positive {
            return Err(ApiError::MonthlyAmountNotPositive);
        }
        let schedule = match schedule_type {
            Some(s) => {
                if !schedule_type_known(s) {
                    return Err(ApiError::InvalidScheduleType);
                }
                s
            },
            None => {
                return Err(ApiError::InvalidScheduleType);
            },
        };
        proof {
            reveal_strlit("training");
            reveal_strlit("regular");
            assert("training"@[0] != "regular"@[0]);
        }
        Ok(
            SalaryPlanFields {
                kind: PlanKind::Regular,
                start_date: start,
                end_date: None,
                schedule_type: Some(owned(schedule)),
            },
        )
    } else {
        Err(ApiError::InvalidPlanKind)
    }
}

/// Why an amount correction of a pay plan is refused, if it is: a training
/// plan needs a positive fee; a regular plan a positive amount and a cadence.
pub open spec fn spec_plan_update_error(
    kind: PlanKind,
    fee_positive: bool,
    amount_positive: bool,
    schedule_type: Option<Seq<char>>,
) -> Option<ApiError> {
    match kind {
        PlanKind::Training => if !fee_positive {
            Some(ApiError::TrainingFeeNotPositive)
        } else {
            None
        },
        PlanKind::Regular => if !amount_positive {
            Some(ApiError::MonthlyAmountNotPositive)
        } else if !schedule_given(schedule_type) {
            Some(ApiError::InvalidScheduleType)
        } else {
            None
        },
    }
}

/// Reads the stored kind of a pay plan.
pub fn plan_kind(kind: &str) -> (r: Option<PlanKind>)
    ensures
        r == (if kind@ == "training"@ {
            Some(PlanKind::Training)
        } else if kind@ == "regular"@ {
            Some(PlanKind::Regular)
        } else {
            None
        }),
{
    if str_eq(kind, "training") {
        Some(PlanKind::Training)
    } else if str_eq(kind, "regular") {
        Some(PlanKind::Regular)
    } else {
        None
    }
}

/// Checks an amount correction of a pay plan of the given kind; for a regular
/// plan it gives back the cadence to store.
pub fn validate_plan_update(
    kind: PlanKind,
    fee_positive: bool,
    amount_positive: bool,
    schedule_type: Option<&str>,
) -> (r: Result<Option<String>, ApiError>)
    ensures
        match r {
            Ok(s) => spec_plan_update_error(
                kind,
                fee_positive,
                amount_positive,
                opt_str_view(schedule_type),
            ) is None && (kind == PlanKind::Training ==> s is None) && (kind == PlanKind::Regular
                ==> opt_view(s) == opt_str_view(schedule_type)),
            Err(e) => spec_plan_update_error(
                kind,
                fee_positive,
                amount_positive,
                opt_str_view(schedule_type),
            ) == Some(e),
        },
{
    match kind {
        PlanKind::Training => {
            if !fee_positive {
                Err(ApiError::TrainingFeeNotPositive)
            } else {
                Ok(None)
            }
        },
        PlanKind::Regular => {
            if !amount_positive {
                return Err(ApiError::MonthlyAmountNotPositive);
            }
            match schedule_type {
                Some(s) => {
                    if schedule_type_known(s) {
                        Ok(Some(owned(s)))
                    } else {
                        Err(ApiError::InvalidScheduleType)
                    }
                },
                None => Err(ApiError::InvalidScheduleType),
            }
        },
    }
}

/// The stored fields of a salary release entry.
pub struct SalaryReleaseFields {
    pub period_start: Date,
    pub period_end: Date,
    pub paid_at: Date,
    pub note: Option<String>,
}

/// Why a salary release entry is refused, if it is: a non-positive amount,
/// unreadable dates, or a period that ends before it starts.
pub open spec fn spec_salary_release_error(
    amount_positive: bool,
    period_start: Seq<char>,
    period_end: Seq<char>,
    paid_at: Seq<char>,
) -> Option<ApiError> {
    if !amount_positive {
        Some(ApiError::AmountNotPositive)
    } else {
        match spec_field_date(period_start) {
            None => Some(ApiError::PeriodStartFormat),
            Some(s) => match spec_field_date(period_end) {
                None => Some(ApiError::PeriodEndFormat),
                Some(e) => if e.key() < s.key() {
                    Some(ApiError::PeriodEndBeforeStart)
                } else if spec_field_date(paid_at) is None {
                    Some(ApiError::PaidAtFormat)
                } else {
                    None
                },
            },
        }
    }
}

/// Checks a salary release entry; the note is kept trimmed when not blank.
pub fn validate_salary_release(
    amount_positive: bool,
    period_start: &str,
    period_end: &str,
    paid_at: &str,
    note: Option<&str>,
) -> (r: Result<SalaryReleaseFields, ApiError>)
    ensures
        match r {
            Ok(f) => {
                &&& spec_salary_release_error(amount_positive, period_start@, period_end@, paid_at@)
                    is None
                &&& spec_field_date(period_start@) == Some(f.period_start)
                &&& spec_field_date(period_end@) == Some(f.period_end)
                &&& spec_field_date(paid_at@) == Some(f.paid_at)
                &&& opt_view(f.note) == spec_non_blank(opt_str_view(note))
            },
            Err(e) => spec_salary_release_error(amount_positive, period_start@, period_end@, paid_at@)
                == Some(e),
        },
{
    if !amount_positive {
        return Err(ApiError::AmountNotPositive);
    }
    let start = match parse_date(period_start) {
        Some(d) => d,
        None => {
            return Err(ApiError::PeriodStartFormat);
        },
    };
    let end = match parse_date(period_end) {
        Some(d) => d,
        None => {
            return Err(ApiError::PeriodEndFormat);
        },
    };
    if end.is_before(&start) {
        return Err(ApiError::PeriodEndBeforeStart);
    }
    let paid = match parse_date(paid_at) {
        Some(d) => d,
        None => {
            return Err(ApiError::PaidAtFormat);
        },
    };
    let kept_note: Option<String> = match non_blank(note) {
        Some(t) => Some(owned(t)),
        None => None,
    };
    Ok(SalaryReleaseFields { period_start: start, period_end: end, paid_at: paid, note: kept_note })
}

/// The refusal for a failed write of an employee record: a unique violation
/// means the login account is already linked to another employee.
pub fn employee_db_error(unique_violation: bool) -> (r: ApiError)
    ensures
        r == (if unique_violation {
            ApiError::EmployeeUserLinked
        } else {
            ApiError::EmployeeSaveFailed
        }),
{
    if unique_violation {
        ApiError::EmployeeUserLinked
    } else {
        ApiError::EmployeeSaveFailed
    }
}

/// The release cadences of a regular pay plan are exactly `weekly`,
/// `semimonthly` and `monthly`: a regular plan with a readable start date and a
/// positive monthly amount is accepted exactly when its cadence is one of them,
/// and the cadence check agrees with that set on every text.
pub proof fn lemma_regular_plan_cadences(
    start_date: Seq<char>,
    end_date: Option<Seq<char>>,
    fee_positive: bool,
    schedule_type: Option<Seq<char>>,
    s: Seq<char>,
)
    requires
        spec_field_date(start_date) is Some,
    ensures
        is_schedule_type(s) <==> (s == "weekly"@ || s == "semimonthly"@ || s == "monthly"@),
        spec_salary_plan_error("regular"@, start_date, end_date, fee_positive, true, schedule_type) is None
            <==> (schedule_type matches Some(t) && (t == "weekly"@ || t == "semimonthly"@ || t == "monthly"@)),
{
    reveal_strlit("regular");
    reveal_strlit("training");
    assert("regular"@[0] != "training"@[0]);
}

} // verus!
