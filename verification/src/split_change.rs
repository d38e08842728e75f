use vstd::prelude::*;

use crate::dates::{Date, chrono_parse_ymd, parse_date, ymd_date};
use crate::error::ApiError;
use crate::periods::{
    earliest_selectable_period_start, effective_period_start_for, is_period_start,
    lemma_previous_period_start, period_start_containing, previous_biweek_period_start,
    spec_period_start_containing, spec_previous_period_start,
};
use crate::text::{blank, opt_str_view, str_eq, trim, trimmed};
use crate::dates::is_valid_ymd;

verus! {

/// Fewest months a commission may be split over.
pub const MIN_SPLIT_MONTHS: i32 = 1;

/// Most months a commission may be split over.
pub const MAX_SPLIT_MONTHS: i32 = 120;

/// How future commission amounts are recomputed after a split change.
#[derive(Clone, Copy, Debug, PartialEq, Eq, Structural)]
pub enum RebalanceStrategy {
    /// Remaining amount divided over the new number of months.
    EvenSplit,
    /// Total divided over the new months, minus paid periods, with any
    /// overpayment clawed back on the first new period.
    CatchUp,
}

impl RebalanceStrategy {
    /// Stored spelling of the strategy.
    pub open spec fn text(self) -> Seq<char> {
        match self {
            RebalanceStrategy::EvenSplit => "even_split"@,
            RebalanceStrategy::CatchUp => "catch_up"@,
        }
    }

    /// Stored spelling of the strategy.
    pub fn as_str(&self) -> (r: &'static str)
        ensures
            r@ == self.text(),
    {
        match self {
            RebalanceStrategy::EvenSplit => "even_split",
            RebalanceStrategy::CatchUp => "catch_up",
        }
    }
}

/// Strategy named by an optional request field: absent or blank means
/// `even_split`; otherwise the trimmed text must be `even_split` or `catch_up`.
pub open spec fn spec_parse_rebalance(raw: Option<Seq<char>>) -> Result<RebalanceStrategy, ApiError> {
    match raw {
        None => Ok(RebalanceStrategy::EvenSplit),
        Some(t) => if trimmed(t).len() == 0 {
            Ok(RebalanceStrategy::EvenSplit)
        } else if trimmed(t) == "even_split"@ {
            Ok(RebalanceStrategy::EvenSplit)
        } else if trimmed(t) == "catch_up"@ {
            Ok(RebalanceStrategy::CatchUp)
        } else {
            Err(ApiError::InvalidRebalanceStrategy)
        },
    }
}

/// Reads the `rebalance_strategy` request field.
pub fn parse_rebalance_strategy(raw: Option<&str>) -> (r: Result<RebalanceStrategy, ApiError>)
    ensures
        r == spec_parse_rebalance(opt_str_view(raw)),
{
    match raw {
        None => Ok(RebalanceStrategy::EvenSplit),
        Some(s) => {
            let t = trim(s);
            if t.is_empty() {
                Ok(RebalanceStrategy::EvenSplit)
            } else if str_eq(t, "even_split") {
                Ok(RebalanceStrategy::EvenSplit)
            } else if str_eq(t, "catch_up") {
                Ok(RebalanceStrategy::CatchUp)
            } else {
                Err(ApiError::InvalidRebalanceStrategy)
            }
        },
    }
}

/// Checks the request of a split change before the contract is looked up:
/// the month count must be within 1..=120, then the strategy must be known.
pub fn validate_split_request(split_months: i32, rebalance_raw: Option<&str>) -> (r: Result<RebalanceStrategy, ApiError>)
    ensures
        !(MIN_SPLIT_MONTHS <= split_months <= MAX_SPLIT_MONTHS)
            ==> r == Err::<RebalanceStrategy, ApiError>(ApiError::SplitMonthsOutOfRange),
        MIN_SPLIT_MONTHS <= split_months <= MAX_SPLIT_MONTHS ==> r == spec_parse_rebalance(opt_str_view(rebalance_raw)),
{
    if split_months < MIN_SPLIT_MONTHS || split_months > MAX_SPLIT_MONTHS {
        return Err(ApiError::SplitMonthsOutOfRange);
    }
    parse_rebalance_strategy(rebalance_raw)
}

/// A request to change a contract's commission split from a biweekly period on.
pub struct ChangeContractSplitInput {
    pub split_months: i32,
    /// Explicit effective period (`YYYY-MM-DD`, the 1st or the 16th); absent
    /// means the period containing today.
    pub effective_period_start: Option<String>,
    /// `even_split` (the default) or `catch_up`.
    pub rebalance_strategy: Option<String>,
}

/// Checks the split length and strategy of a split-change request.
pub fn split_request(input: &ChangeContractSplitInput) -> (r: Result<RebalanceStrategy, ApiError>)
    ensures
        !(MIN_SPLIT_MONTHS <= input.split_months <= MAX_SPLIT_MONTHS) ==> r == Err::<
            RebalanceStrategy,
            ApiError,
        >(ApiError::SplitMonthsOutOfRange),
        MIN_SPLIT_MONTHS <= input.split_months <= MAX_SPLIT_MONTHS ==> r == spec_parse_rebalance(
            match input.rebalance_strategy {
                Some(s) => Some(s@),
                None => None,
            },
        ),
{
    let raw: Option<&str> = match &input.rebalance_strategy {
        Some(s) => Some(s.as_str()),
        None => None,
    };
    validate_split_request(input.split_months, raw)
}

/// The period boundaries a split change works with.
#[derive(Clone, Copy, Debug, PartialEq, Eq, Structural)]
pub struct SplitPeriods {
    /// Period the new split takes effect from.
    pub effective_period_start: Date,
    /// Period of the backfilled original split (distinct from the above).
    pub genesis_effective: Date,
    /// Period a change saved today would take effect from.
    pub earliest_effective: Date,
    /// Earliest period a new change may target: the first of this month.
    pub earliest_selectable: Date,
}

/// Period boundaries of a split change, given the requested effective date
/// already parsed (`None`: not requested; `Some(None)`: unparsable), the date the
/// contract's original split counts from, and today's date.
pub open spec fn spec_split_periods(
    requested: Option<Option<Date>>,
    genesis_anchor: Date,
    today: Date,
) -> Result<SplitPeriods, ApiError> {
    let genesis_period_start = spec_period_start_containing(genesis_anchor);
    let earliest_effective = spec_period_start_containing(today);
    let earliest_selectable = Date { year: today.year, month: today.month, day: 1 };
    let chosen = match requested {
        None => Ok(earliest_effective),
        Some(None) => Err(ApiError::EffectivePeriodStartFormat),
        Some(Some(d)) => if d.day != 1 && d.day != 16 {
            Err(ApiError::EffectivePeriodStartNotBoundary)
        } else {
            Ok(d)
        },
    };
    match chosen {
        Err(e) => Err(e),
        Ok(effective) => {
            let prev = spec_previous_period_start(effective);
            let genesis_effective = if genesis_period_start != effective {
                genesis_period_start
            } else if is_valid_ymd(prev.year as int, prev.month as int, prev.day as int) {
                prev
            } else {
                effective
            };
            Ok(SplitPeriods { effective_period_start: effective, genesis_effective, earliest_effective, earliest_selectable })
        },
    }
}

/// Works out the period boundaries of a split change from the already parsed
/// requested date (see `spec_split_periods`).
pub fn split_periods(requested: Option<Option<Date>>, genesis_anchor: Date, today: Date) -> (r: Result<SplitPeriods, ApiError>)
    requires
        genesis_anchor.valid(),
        today.valid(),
        requested matches Some(Some(d)) ==> d.valid(),
    ensures
        r == spec_split_periods(requested, genesis_anchor, today),
        r matches Ok(p) ==> p.effective_period_start.valid() && is_period_start(p.effective_period_start),
{
    let genesis_period_start = period_start_containing(genesis_anchor);
    let earliest_effective = effective_period_start_for(today);
    let earliest_selectable = earliest_selectable_period_start(today);
    let effective_period_start = match requested {
        Some(parsed) => match parsed {
            None => return Err(ApiError::EffectivePeriodStartFormat),
            Some(d) => {
                if d.day != 1 && d.day != 16 {
                    return Err(ApiError::EffectivePeriodStartNotBoundary);
                }
                d
            },
        },
        None => earliest_effective,
    };
    let genesis_effective = if genesis_period_start == effective_period_start {
        previous_biweek_period_start(effective_period_start)
    } else {
        genesis_period_start
    };
    Ok(SplitPeriods { effective_period_start, genesis_effective, earliest_effective, earliest_selectable })
}

/// Parses the optional `effective_period_start` field and works out the period
/// boundaries of a split change (see `split_periods`).
pub fn resolve_split_periods(effective_raw: Option<&str>, genesis_anchor: Date, today: Date) -> (r: Result<SplitPeriods, ApiError>)
    requires
        genesis_anchor.valid(),
        today.valid(),
    ensures
        r == spec_split_periods(
            match effective_raw {
                Some(t) => Some(ymd_date(chrono_parse_ymd(trimmed(t@)))),
                None => None,
            },
            genesis_anchor,
            today,
        ),
{
    let requested = match effective_raw {
        Some(raw) => Some(parse_date(raw)),
        None => None,
    };
    split_periods(requested, genesis_anchor, today)
}

/// A split change keeps the backfilled original split on its own row: the
/// genesis period differs from the period the change takes effect from, except
/// when the change targets the very first representable period.
pub proof fn lemma_genesis_distinct(requested: Option<Option<Date>>, genesis_anchor: Date, today: Date)
    requires
        genesis_anchor.valid(),
        today.valid(),
        requested matches Some(Some(d)) ==> d.valid(),
        spec_split_periods(requested, genesis_anchor, today) is Ok,
        is_valid_ymd(
            spec_previous_period_start(spec_split_periods(requested, genesis_anchor, today)->Ok_0.effective_period_start).year as int,
            spec_previous_period_start(spec_split_periods(requested, genesis_anchor, today)->Ok_0.effective_period_start).month as int,
            spec_previous_period_start(spec_split_periods(requested, genesis_anchor, today)->Ok_0.effective_period_start).day as int,
        ),
    ensures
        spec_split_periods(requested, genesis_anchor, today)->Ok_0.genesis_effective
            != spec_split_periods(requested, genesis_anchor, today)->Ok_0.effective_period_start,
{
    let p = spec_split_periods(requested, genesis_anchor, today)->Ok_0;
    let eff = p.effective_period_start;
    assert(eff.valid());
    assert(is_period_start(eff));
    lemma_previous_period_start(eff);
}

/// Refuses a new change (one with no row yet at its effective period) that
/// targets a period before the first of the current month.
pub fn check_effective_selectable(has_row_at_effective: bool, periods: &SplitPeriods) -> (r: Result<(), ApiError>)
    requires
        periods.effective_period_start.valid(),
        periods.earliest_selectable.valid(),
    ensures
        r is Err <==> !has_row_at_effective
            && periods.effective_period_start.key() < periods.earliest_selectable.key(),
        r is Err ==> r == Err::<(), ApiError>(ApiError::EffectivePeriodStartTooEarly),
{
    if !has_row_at_effective && periods.effective_period_start.is_before(&periods.earliest_selectable) {
        return Err(ApiError::EffectivePeriodStartTooEarly);
    }
    Ok(())
}

/// One stored split-history row of a contract.
pub struct SplitHistoryRow {
    pub effective_period_start: Date,
    pub split_months: i32,
    pub rebalance_strategy: String,
}

/// What a split change writes.
#[derive(Clone, Copy, Debug, PartialEq, Eq, Structural)]
pub struct SplitChangeWrite {
    /// The contract has no history yet: backfill the original split first.
    pub insert_genesis: bool,
    /// Split months active today, stored on the contract.
    pub current_active: i32,
}

/// Split months active at `eff` under `history` (rows in ascending period
/// order): that of the last row starting no later than `eff`, else `current`.
pub open spec fn active_at(history: Seq<SplitHistoryRow>, eff: Date, current: i32) -> i32
    decreases history.len(),
{
    if history.len() == 0 {
        current
    } else if history.last().effective_period_start.key() <= eff.key() {
        history.last().split_months
    } else {
        active_at(history.drop_last(), eff, current)
    }
}

/// Strategy of the first row of `history` starting exactly at `eff`.
pub open spec fn strategy_at(history: Seq<SplitHistoryRow>, eff: Date) -> Option<Seq<char>>
    decreases history.len(),
{
    if history.len() == 0 {
        None
    } else if history[0].effective_period_start == eff {
        Some(history[0].rebalance_strategy@)
    } else {
        strategy_at(history.drop_first(), eff)
    }
}

/// Strategy in force at the effective period before the change: that of the
/// row already stored there, else of the first history row starting there,
/// else `catch_up`.
pub open spec fn strategy_before(
    existing_at_effective: Option<Seq<char>>,
    history: Seq<SplitHistoryRow>,
    eff: Date,
) -> Seq<char> {
    match existing_at_effective {
        Some(s) => s,
        None => match strategy_at(history, eff) {
            Some(s) => s,
            None => "catch_up"@,
        },
    }
}

/// Decision on a split change once the contract's stored rows are read.
pub open spec fn spec_decide_split_change(
    split_months: i32,
    strategy: RebalanceStrategy,
    current_split_months: i32,
    periods: SplitPeriods,
    existing_at_effective: Option<Seq<char>>,
    history: Seq<SplitHistoryRow>,
) -> Result<SplitChangeWrite, ApiError> {
    let eff = periods.effective_period_start;
    let active_before = active_at(history, eff, current_split_months);
    if active_before == split_months && strategy_before(existing_at_effective, history, eff) == strategy.text() {
        Err(ApiError::SplitUnchanged)
    } else if active_before == split_months && existing_at_effective is None {
        Err(ApiError::SplitMustDiffer)
    } else {
        Ok(SplitChangeWrite {
            insert_genesis: history.len() == 0,
            current_active: if eff.key() <= periods.earliest_effective.key() { split_months } else { active_before },
        })
    }
}

fn active_split_at(history: &Vec<SplitHistoryRow>, eff: Date, current: i32) -> (r: i32)
    requires
        eff.valid(),
        forall|i: int| 0 <= i < history.len() ==> (#[trigger] history@[i]).effective_period_start.valid(),
    ensures
        r == active_at(history@, eff, current),
{
    let n = history.len();
    let mut k: usize = n;
    assert(history@.subrange(0, n as int) =~= history@);
    while k > 0
        invariant
            n == history@.len(),
            k <= n,
            eff.valid(),
            forall|i: int| 0 <= i < history.len() ==> (#[trigger] history@[i]).effective_period_start.valid(),
            active_at(history@, eff, current) == active_at(history@.subrange(0, k as int), eff, current),
        decreases k,
    {
        let row = &history[k - 1];
        assert(history@.subrange(0, k as int).last() == history@[k - 1]);
        assert(history@.subrange(0, k as int).drop_last() =~= history@.subrange(0, k - 1));
        if !eff.is_before(&row.effective_period_start) {
            return row.split_months;
        }
        k = k - 1;
    }
    assert(history@.subrange(0, 0) =~= Seq::<SplitHistoryRow>::empty());
    current
}

fn strategy_matches_at(history: &Vec<SplitHistoryRow>, eff: Date, strategy: RebalanceStrategy) -> (r: bool)
    ensures
        r == ((match strategy_at(history@, eff) {
            Some(s) => s,
            None => "catch_up"@,
        }) == strategy.text()),
{
    let n = history.len();
    let mut i: usize = 0;
    assert(history@.subrange(0, n as int) =~= history@);
    while i < n
        invariant
            n == history@.len(),
            i <= n,
            strategy_at(history@, eff) == strategy_at(history@.subrange(i as int, n as int), eff),
        decreases n - i,
    {
        assert(history@.subrange(i as int, n as int)[0] == history@[i as int]);
        assert(history@.subrange(i as int, n as int).drop_first() =~= history@.subrange(i + 1, n as int));
        if history[i].effective_period_start == eff {
            return str_eq(history[i].rebalance_strategy.as_str(), strategy.as_str());
        }
        i = i + 1;
    }
    assert(history@.subrange(n as int, n as int) =~= Seq::<SplitHistoryRow>::empty());
    str_eq("catch_up", strategy.as_str())
}

/// Decides a split change from the rows stored for the contract: the split
/// months active at the effective period and the strategy there must not both
/// stay the same, and a change with no row at its period must change the months;
/// otherwise says whether to backfill the original split and what is active today.
pub fn decide_split_change(
    split_months: i32,
    strategy: RebalanceStrategy,
    current_split_months: i32,
    periods: &SplitPeriods,
    existing_at_effective: &Option<String>,
    history: &Vec<SplitHistoryRow>,
) -> (r: Result<SplitChangeWrite, ApiError>)
    requires
        periods.effective_period_start.valid(),
        periods.earliest_effective.valid(),
        forall|i: int| 0 <= i < history.len() ==> (#[trigger] history@[i]).effective_period_start.valid(),
    ensures
        r == spec_decide_split_change(
            split_months,
            strategy,
            current_split_months,
            *periods,
            match existing_at_effective {
                Some(v) => Some(v@),
                None => None,
            },
            history@,
        ),
{
    let eff = periods.effective_period_start;
    let n = history.len();
    let active_before: i32 = active_split_at(history, eff, current_split_months);
    let before_text: bool = match existing_at_effective {
        Some(s) => str_eq(s.as_str(), strategy.as_str()),
        None => strategy_matches_at(history, eff, strategy),
    };
    if active_before == split_months && before_text {
        return Err(ApiError::SplitUnchanged);
    }
    if active_before == split_months && existing_at_effective.is_none() {
        return Err(ApiError::SplitMustDiffer);
    }
    let current_active: i32 = if !periods.earliest_effective.is_before(&eff) {
        split_months
    } else {
        active_before
    };
    Ok(SplitChangeWrite { insert_genesis: n == 0, current_active })
}

/// The split in force at an effective date is that of the latest history row
/// starting on or before it (a row starting exactly on the date is in force
/// on it); with no such row it is the contract's current split.
pub proof fn lemma_active_split_latest_row(history: Seq<SplitHistoryRow>, eff: Date, current: i32, i: int)
    requires
        0 <= i < history.len(),
        history[i].effective_period_start.key() <= eff.key(),
        forall|j: int| i < j < history.len() ==> eff.key() < #[trigger] history[j].effective_period_start.key(),
    ensures
        active_at(history, eff, current) == history[i].split_months,
    decreases history.len(),
{
    let n = history.len();
    if i < n - 1 {
        assert(eff.key() < history[n - 1].effective_period_start.key());
        let h = history.drop_last();
        assert forall|j: int| i < j < h.len() implies eff.key() < #[trigger] h[j].effective_period_start.key() by {
            assert(h[j] == history[j]);
        }
        lemma_active_split_latest_row(h, eff, current, i);
        assert(h[i] == history[i]);
    }
}

/// With no history row starting on or before the effective date, the split in
/// force there is the contract's current split.
pub proof fn lemma_active_split_before_history(history: Seq<SplitHistoryRow>, eff: Date, current: i32)
    requires
        forall|j: int| 0 <= j < history.len() ==> eff.key() < #[trigger] history[j].effective_period_start.key(),
    ensures
        active_at(history, eff, current) == current,
    decreases history.len(),
{
    if history.len() > 0 {
        let h = history.drop_last();
        assert(eff.key() < history[history.len() - 1].effective_period_start.key());
        assert forall|j: int| 0 <= j < h.len() implies eff.key() < #[trigger] h[j].effective_period_start.key() by {
            assert(h[j] == history[j]);
        }
        lemma_active_split_before_history(h, eff, current);
    }
}

/// In a history whose periods strictly ascend, a row starting exactly at the
/// effective date sets the split in force there.
pub proof fn lemma_active_split_row_at_effective(history: Seq<SplitHistoryRow>, eff: Date, current: i32, i: int)
    requires
        0 <= i < history.len(),
        history[i].effective_period_start == eff,
        forall|a: int, b: int|
            0 <= a < b < history.len() ==> (#[trigger] history[a]).effective_period_start.key()
                < (#[trigger] history[b]).effective_period_start.key(),
    ensures
        active_at(history, eff, current) == history[i].split_months,
{
    assert forall|j: int| i < j < history.len() implies eff.key() < #[trigger] history[j].effective_period_start.key() by {
        assert(history[i].effective_period_start.key() < history[j].effective_period_start.key());
    }
    lemma_active_split_latest_row(history, eff, current, i);
}

/// A split change is judged against the row in force at its effective date,
/// the latest history row starting on or before it: asking for other split
/// months than that row's is always recorded (storing the new months on the
/// contract when the change is already due, else keeping that row's months),
/// and "unchanged" is answered only when the months asked for are that row's.
pub proof fn lemma_split_change_against_row_in_force(
    split_months: i32,
    strategy: RebalanceStrategy,
    current_split_months: i32,
    periods: SplitPeriods,
    existing_at_effective: Option<Seq<char>>,
    history: Seq<SplitHistoryRow>,
    i: int,
)
    requires
        0 <= i < history.len(),
        history[i].effective_period_start.key() <= periods.effective_period_start.key(),
        forall|j: int|
            i < j < history.len() ==> periods.effective_period_start.key()
                < #[trigger] history[j].effective_period_start.key(),
    ensures
        split_months != history[i].split_months ==> spec_decide_split_change(
            split_months,
            strategy,
            current_split_months,
            periods,
            existing_at_effective,
            history,
        ) == Ok::<SplitChangeWrite, ApiError>(
            SplitChangeWrite {
                insert_genesis: false,
                current_active: if periods.effective_period_start.key() <= periods.earliest_effective.key() {
                    split_months
                } else {
                    history[i].split_months
                },
            },
        ),
        spec_decide_split_change(
            split_months,
            strategy,
            current_split_months,
            periods,
            existing_at_effective,
            history,
        ) is Err ==> split_months == history[i].split_months,
{
    lemma_active_split_latest_row(history, periods.effective_period_start, current_split_months, i);
}

} // verus!
