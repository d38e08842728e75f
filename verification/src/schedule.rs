use vstd::prelude::*;

use crate::dates::{
    Date, clamp, date_at_month, date_at_month_index, days_in_month, lemma_month_index_orders_key,
    min_int, month_index, month_index_in_range, MAX_YEAR, MIN_YEAR,
};

verus! {

/// Due date of installment `k` (1-based) of a monthly amortization anchored at
/// `anchor`, with the monthly due day `due_day` (clamped to 1..=31).
///
/// When the first amortization is paid on the approval date itself
/// (`first_on_approval`, i.e. there is no separate down payment) installment 1 is
/// due on `anchor` and installment `k >= 2` in the `k - 1`-th month after it.
/// Otherwise installment 1 falls on the first due day strictly after the anchor's
/// day in the anchor's month (or the next month), and each later installment one
/// month after the previous one.
pub open spec fn installment_due(anchor: Date, due_day: int, first_on_approval: bool, k: int) -> Date {
    let dd = clamp(due_day, 1, 31);
    if first_on_approval {
        if k == 1 {
            anchor
        } else {
            date_at_month_index(anchor.month_index() + (k - 1), dd)
        }
    } else {
        let first = if dd > anchor.day { anchor.month_index() } else { anchor.month_index() + 1 };
        date_at_month_index(first + (k - 1), dd)
    }
}

/// Month index of the `k`-th installment's month, for `k >= 1` in the
/// first-on-approval case and every `k >= 1` otherwise.
pub open spec fn installment_month(anchor: Date, due_day: int, first_on_approval: bool, k: int) -> int {
    let dd = clamp(due_day, 1, 31);
    if first_on_approval {
        anchor.month_index() + (k - 1)
    } else {
        (if dd > anchor.day { anchor.month_index() } else { anchor.month_index() + 1 }) + (k - 1)
    }
}

/// Installments `1..=count` of the schedule stay within the years the date
/// library can represent.
pub open spec fn schedule_in_range(anchor: Date, count: int) -> bool {
    &&& month_index_in_range(anchor.month_index() + count + 1)
    &&& anchor.month_index() + count + 1 <= 0x7fff_ffff
}

/// Whether installments `1..=count` of a schedule anchored at `anchor` stay
/// within the years the date library can represent.
pub fn schedule_fits(anchor: Date, count: i32) -> (r: bool)
    requires
        anchor.valid(),
    ensures
        r == schedule_in_range(anchor, count as int),
{
    let m: i64 = (anchor.year as i64) * 12 + (anchor.month as i64) - 1 + (count as i64) + 1;
    (MIN_YEAR as i64) * 12 <= m && m <= (MAX_YEAR as i64) * 12 + 11 && m <= 0x7fff_ffff
}

/// Calendar due date for installment `installment_index` (1-based).
///
/// `first_on_approval` says whether the contract's initial payment is zero or
/// less (the first amortization is then recorded on the approval date itself).
pub fn installment_due_date(
    anchor: Date,
    due_day: i32,
    first_on_approval: bool,
    installment_index: i32,
) -> (r: Date)
    requires
        anchor.valid(),
        1 <= installment_index,
        schedule_in_range(anchor, installment_index as int),
    ensures
        r == installment_due(anchor, due_day as int, first_on_approval, installment_index as int),
        r.valid(),
{
    let due_day: i32 = if due_day < 1 {
        1
    } else if due_day > 31 {
        31
    } else {
        due_day
    };
    if first_on_approval && installment_index == 1 {
        return anchor;
    }
    let base: i32 = month_index(anchor);
    if first_on_approval {
        let idx: i32 = base + 1 + (installment_index - 2);
        return date_at_month(idx, due_day);
    }
    let first_due_idx: i32 = if due_day > anchor.day as i32 {
        base
    } else {
        base + 1
    };
    date_at_month(first_due_idx + (installment_index - 1), due_day)
}

/// Due dates of installments `1..=total_months` (empty when `total_months <= 0`).
pub fn build_installment_schedule(
    anchor: Date,
    due_day: i32,
    first_on_approval: bool,
    total_months: i32,
) -> (r: Vec<Date>)
    requires
        anchor.valid(),
        schedule_in_range(anchor, total_months as int),
    ensures
        total_months <= 0 ==> r.len() == 0,
        total_months > 0 ==> r.len() == total_months,
        forall|i: int|
            0 <= i < r.len() ==> r[i] == installment_due(
                anchor,
                due_day as int,
                first_on_approval,
                i + 1,
            ),
{
    let mut out: Vec<Date> = Vec::new();
    if total_months <= 0 {
        return out;
    }
    let mut i: i32 = 1;
    while i <= total_months
        invariant
            anchor.valid(),
            schedule_in_range(anchor, total_months as int),
            1 <= i <= total_months + 1,
            out.len() == i - 1,
            forall|j: int|
                0 <= j < out.len() ==> out[j] == installment_due(
                    anchor,
                    due_day as int,
                    first_on_approval,
                    j + 1,
                ),
        decreases total_months + 1 - i,
    {
        let d = installment_due_date(anchor, due_day, first_on_approval, i);
        out.push(d);
        i = i + 1;
    }
    out
}

/// Each installment lands in its own month: installment `k` (for `k >= 2`, and
/// for `k = 1` as well when it is not recorded on the approval date) falls in
/// month `installment_month(.., k)`, one month after installment `k - 1`.
pub proof fn lemma_installment_month(anchor: Date, due_day: int, first_on_approval: bool, k: int)
    requires
        anchor.valid(),
        k >= 1,
        schedule_in_range(anchor, k),
    ensures
        installment_due(anchor, due_day, first_on_approval, k).valid(),
        installment_due(anchor, due_day, first_on_approval, k).month_index()
            == installment_month(anchor, due_day, first_on_approval, k),
{
    let dd = clamp(due_day, 1, 31);
    let m = installment_month(anchor, due_day, first_on_approval, k);
    if !(first_on_approval && k == 1) {
        lemma_date_at_month_index(m, dd);
    }
}

/// The date at a month index is a valid date in that month.
pub proof fn lemma_date_at_month_index(m: int, due_day: int)
    requires
        month_index_in_range(m),
    ensures
        date_at_month_index(m, due_day).valid(),
        date_at_month_index(m, due_day).month_index() == m,
        date_at_month_index(m, due_day).day <= clamp(due_day, 1, 31),
{
    let year = m / 12;
    let month = m % 12 + 1;
    assert(year * 12 + (month - 1) == m);
}

/// The schedule moves strictly forward: installment `j` is due strictly before
/// installment `k` whenever `1 <= j < k`, and no installment is due before the
/// anchor (only installment 1 of a first-on-approval schedule is due on it).
pub proof fn lemma_schedule_strictly_increasing(
    anchor: Date,
    due_day: int,
    first_on_approval: bool,
    j: int,
    k: int,
)
    requires
        anchor.valid(),
        1 <= j < k,
        schedule_in_range(anchor, k),
    ensures
        installment_due(anchor, due_day, first_on_approval, j).key()
            < installment_due(anchor, due_day, first_on_approval, k).key(),
        anchor.key() <= installment_due(anchor, due_day, first_on_approval, j).key(),
        anchor.key() < installment_due(anchor, due_day, first_on_approval, k).key(),
{
    let dj = installment_due(anchor, due_day, first_on_approval, j);
    let dk = installment_due(anchor, due_day, first_on_approval, k);
    lemma_installment_month(anchor, due_day, first_on_approval, j);
    lemma_installment_month(anchor, due_day, first_on_approval, k);
    lemma_month_index_orders_key(dj, dk);
    let dd = clamp(due_day, 1, 31);
    if first_on_approval && j == 1 {
        assert(dj == anchor);
    } else if dj.month_index() == anchor.month_index() {
        // Only possible without first_on_approval, when the due day lies after
        // the anchor's day in the anchor's own month.
        assert(!first_on_approval);
        assert(dd > anchor.day);
        assert(j == 1);
        lemma_date_at_month_index(anchor.month_index(), dd);
        assert(dj.year == anchor.year && dj.month == anchor.month);
        assert(dj.day as int == min_int(dd, days_in_month(anchor.year as int, anchor.month as int)));
    } else {
        lemma_month_index_orders_key(anchor, dj);
    }
    if anchor.month_index() < dk.month_index() {
        lemma_month_index_orders_key(anchor, dk);
    }
}

/// A buyer whose first amortization is recorded on the approval date pays
/// installment 2 in the calendar month after approval (on the due day, clamped
/// to that month), never a few days later in the approval month itself.
pub proof fn lemma_second_installment_next_month(anchor: Date, due_day: int)
    requires
        anchor.valid(),
        schedule_in_range(anchor, 2),
    ensures
        installment_due(anchor, due_day, true, 1) == anchor,
        installment_due(anchor, due_day, true, 2).month_index() == anchor.month_index() + 1,
        installment_due(anchor, due_day, true, 2).day <= clamp(due_day, 1, 31),
{
    lemma_installment_month(anchor, due_day, true, 2);
    lemma_date_at_month_index(anchor.month_index() + 1, clamp(due_day, 1, 31));
}

/// Without a first amortization on the approval date, installment 1 is the
/// first due-day date from the anchor on: it falls on the due day (clamped to
/// its month) no earlier than the anchor, and no due-day date of a month from
/// the anchor's up to installment 1's lies after the anchor. It is due in the
/// anchor's month or the next, and installment `k` is the due-day date `k - 1`
/// months after installment 1.
pub proof fn lemma_first_installment_next_due_day(anchor: Date, due_day: int, k: int)
    requires
        anchor.valid(),
        k >= 1,
        schedule_in_range(anchor, k),
    ensures
        installment_due(anchor, due_day, false, 1).valid(),
        anchor.key() <= installment_due(anchor, due_day, false, 1).key(),
        installment_due(anchor, due_day, false, 1) == date_at_month_index(
            installment_due(anchor, due_day, false, 1).month_index(),
            due_day,
        ),
        anchor.month_index() <= installment_due(anchor, due_day, false, 1).month_index()
            <= anchor.month_index() + 1,
        forall|m: int|
            anchor.month_index() <= m < installment_due(anchor, due_day, false, 1).month_index()
                ==> (#[trigger] date_at_month_index(m, due_day)).key() <= anchor.key(),
        installment_due(anchor, due_day, false, k) == date_at_month_index(
            installment_due(anchor, due_day, false, 1).month_index() + (k - 1),
            due_day,
        ),
{
    let dd = clamp(due_day, 1, 31);
    let d1 = installment_due(anchor, due_day, false, 1);
    let a = anchor.month_index();
    lemma_installment_month(anchor, due_day, false, 1);
    let m1 = installment_month(anchor, due_day, false, 1);
    assert(d1 == date_at_month_index(m1, dd));
    lemma_date_at_month_index(m1, dd);
    lemma_date_at_month_index(a, dd);
    let here = date_at_month_index(a, dd);
    assert(here.year == anchor.year && here.month == anchor.month);
    assert(date_at_month_index(m1, due_day) == date_at_month_index(m1, dd));
    if dd > anchor.day {
        assert(d1 == here);
        assert(days_in_month(anchor.year as int, anchor.month as int) >= anchor.day);
        assert(d1.day >= anchor.day);
    } else {
        lemma_month_index_orders_key(anchor, d1);
        assert(here.day <= anchor.day);
        assert forall|m: int| a <= m < d1.month_index() implies (#[trigger] date_at_month_index(m, due_day)).key()
            <= anchor.key() by {
            assert(m == a);
            assert(date_at_month_index(m, due_day) == here);
        }
    }
    assert(installment_due(anchor, due_day, false, k) == date_at_month_index(m1 + (k - 1), dd));
    assert(date_at_month_index(m1 + (k - 1), due_day) == date_at_month_index(m1 + (k - 1), dd));
}

} // verus!
