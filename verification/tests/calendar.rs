use realty_api::dates::{
    date_of_timestamp, date_or_timestamp, format_date, last_day_of_month, parse_date, Date,
};
use realty_api::error::ApiError;
use realty_api::periods::{
    add_months, shift_fits, earliest_selectable_period_start, effective_period_start_for,
    period_start_containing, previous_biweek_period_start, validate_period_boundary,
};
use realty_api::schedule::{build_installment_schedule, installment_due_date, schedule_fits};
use realty_api::split_change::{
    check_effective_selectable, decide_split_change, parse_rebalance_strategy,
    resolve_split_periods, split_request, validate_split_request, ChangeContractSplitInput,
    RebalanceStrategy, SplitHistoryRow,
};

fn d(year: i32, month: u32, day: u32) -> Date {
    Date { year, month, day }
}

#[test]
fn from_ymd_checks_the_calendar() {
    assert_eq!(Date::from_ymd(2024, 2, 29), Some(d(2024, 2, 29)));
    assert_eq!(Date::from_ymd(2023, 2, 29), None);
    assert_eq!(Date::from_ymd(2024, 13, 1), None);
    assert_eq!(Date::from_ymd(2024, 4, 31), None);
}

#[test]
fn is_before_compares_calendar_order() {
    assert!(d(2023, 12, 31).is_before(&d(2024, 1, 1)));
    assert!(d(2024, 1, 9).is_before(&d(2024, 1, 10)));
    assert!(!d(2024, 1, 10).is_before(&d(2024, 1, 10)));
    assert!(!d(2024, 2, 1).is_before(&d(2024, 1, 31)));
}

#[test]
fn last_day_of_month_handles_leap_years() {
    assert_eq!(last_day_of_month(2024, 2), 29);
    assert_eq!(last_day_of_month(2023, 2), 28);
    assert_eq!(last_day_of_month(1900, 2), 28);
    assert_eq!(last_day_of_month(2000, 2), 29);
    assert_eq!(last_day_of_month(2024, 4), 30);
    assert_eq!(last_day_of_month(2024, 12), 31);
}

#[test]
fn parse_date_trims_and_reads_iso_dates() {
    assert_eq!(parse_date(" 2024-03-05 "), Some(d(2024, 3, 5)));
    assert_eq!(parse_date("2024-02-29"), Some(d(2024, 2, 29)));
    assert_eq!(parse_date("2023-02-29"), None);
    assert_eq!(parse_date("2024-13-01"), None);
    assert_eq!(parse_date(""), None);
    assert_eq!(parse_date("05/03/2024"), None);
}

#[test]
fn format_date_writes_iso_dates() {
    assert_eq!(format_date(d(2024, 3, 5)), "2024-03-05");
    assert_eq!(format_date(d(1999, 12, 31)), "1999-12-31");
}

#[test]
fn timestamps_map_to_utc_days() {
    assert_eq!(date_of_timestamp(0), Some(d(1970, 1, 1)));
    assert_eq!(date_of_timestamp(31_536_000), Some(d(1971, 1, 1)));
    assert_eq!(date_of_timestamp(86_399), Some(d(1970, 1, 1)));
    assert_eq!(date_of_timestamp(i64::MAX), None);
}

#[test]
fn date_or_timestamp_prefers_the_given_date() {
    let today = d(2025, 6, 1);
    assert_eq!(date_or_timestamp(Some(d(2024, 1, 2)), 0, today), d(2024, 1, 2));
    assert_eq!(date_or_timestamp(None, 0, today), d(1970, 1, 1));
    assert_eq!(date_or_timestamp(None, i64::MAX, today), today);
}

#[test]
fn add_months_clamps_the_day() {
    assert_eq!(add_months(d(2024, 1, 31), 1), d(2024, 2, 29));
    assert_eq!(add_months(d(2023, 1, 31), 1), d(2023, 2, 28));
    assert_eq!(add_months(d(2024, 11, 15), 3), d(2025, 2, 15));
    assert_eq!(add_months(d(2024, 3, 31), -1), d(2024, 2, 29));
    assert_eq!(add_months(d(2024, 5, 10), 0), d(2024, 5, 10));
}

#[test]
fn first_installment_waits_for_the_due_day() {
    // Due day later in the anchor's month: the first installment falls that month.
    assert_eq!(installment_due_date(d(2024, 1, 10), 15, false, 1), d(2024, 1, 15));
    assert_eq!(installment_due_date(d(2024, 1, 10), 15, false, 2), d(2024, 2, 15));
    // Due day already passed: the first installment falls the next month.
    assert_eq!(installment_due_date(d(2024, 1, 20), 15, false, 1), d(2024, 2, 15));
}

#[test]
fn installment_on_approval_then_a_full_month_later() {
    let anchor = d(2024, 1, 20);
    assert_eq!(installment_due_date(anchor, 15, true, 1), anchor);
    assert_eq!(installment_due_date(anchor, 15, true, 2), d(2024, 2, 15));
    assert_eq!(installment_due_date(anchor, 15, true, 3), d(2024, 3, 15));
}

#[test]
fn due_day_clamps_to_short_months() {
    assert_eq!(installment_due_date(d(2024, 1, 31), 31, false, 1), d(2024, 2, 29));
    assert_eq!(installment_due_date(d(2024, 1, 31), 31, false, 2), d(2024, 3, 31));
    // Out-of-range due days are clamped to 1..=31.
    assert_eq!(installment_due_date(d(2024, 1, 10), 45, false, 1), d(2024, 1, 31));
    assert_eq!(installment_due_date(d(2024, 1, 10), 0, false, 1), d(2024, 2, 1));
}

#[test]
fn schedule_lists_each_installment_in_order() {
    let s = build_installment_schedule(d(2024, 1, 10), 15, false, 3);
    assert_eq!(s, vec![d(2024, 1, 15), d(2024, 2, 15), d(2024, 3, 15)]);
    assert!(build_installment_schedule(d(2024, 1, 10), 15, false, 0).is_empty());
    assert!(build_installment_schedule(d(2024, 1, 10), 15, false, -4).is_empty());
    let long = build_installment_schedule(d(2024, 12, 31), 31, true, 14);
    for w in long.windows(2) {
        assert!(w[0].is_before(&w[1]));
    }
}

#[test]
fn biweekly_periods_start_on_the_first_and_sixteenth() {
    assert_eq!(period_start_containing(d(2024, 3, 20)), d(2024, 3, 16));
    assert_eq!(period_start_containing(d(2024, 3, 15)), d(2024, 3, 1));
    assert_eq!(period_start_containing(d(2024, 3, 16)), d(2024, 3, 16));
    assert_eq!(effective_period_start_for(d(2024, 3, 5)), d(2024, 3, 1));
    assert_eq!(earliest_selectable_period_start(d(2024, 3, 20)), d(2024, 3, 1));
}

#[test]
fn previous_period_steps_back_one_half_month() {
    assert_eq!(previous_biweek_period_start(d(2024, 3, 16)), d(2024, 3, 1));
    assert_eq!(previous_biweek_period_start(d(2024, 3, 1)), d(2024, 2, 16));
    assert_eq!(previous_biweek_period_start(d(2024, 1, 1)), d(2023, 12, 16));
}

#[test]
fn period_boundaries_must_match_the_cadence() {
    assert_eq!(validate_period_boundary(d(2024, 3, 1), d(2024, 3, 15)), Ok(()));
    assert_eq!(validate_period_boundary(d(2024, 2, 16), d(2024, 2, 29)), Ok(()));
    assert_eq!(
        validate_period_boundary(d(2024, 2, 16), d(2024, 2, 28)),
        Err(ApiError::PeriodEndNotBoundary)
    );
    assert_eq!(
        validate_period_boundary(d(2024, 2, 2), d(2024, 2, 15)),
        Err(ApiError::PeriodStartNotBoundary)
    );
}

#[test]
fn rebalance_strategy_parsing() {
    assert_eq!(parse_rebalance_strategy(None), Ok(RebalanceStrategy::EvenSplit));
    assert_eq!(parse_rebalance_strategy(Some("  ")), Ok(RebalanceStrategy::EvenSplit));
    assert_eq!(parse_rebalance_strategy(Some(" catch_up ")), Ok(RebalanceStrategy::CatchUp));
    assert_eq!(parse_rebalance_strategy(Some("even_split")), Ok(RebalanceStrategy::EvenSplit));
    assert_eq!(parse_rebalance_strategy(Some("other")), Err(ApiError::InvalidRebalanceStrategy));
    assert_eq!(RebalanceStrategy::CatchUp.as_str(), "catch_up");
}

#[test]
fn split_request_months_range() {
    assert_eq!(validate_split_request(0, None), Err(ApiError::SplitMonthsOutOfRange));
    assert_eq!(validate_split_request(121, None), Err(ApiError::SplitMonthsOutOfRange));
    assert_eq!(validate_split_request(120, Some("catch_up")), Ok(RebalanceStrategy::CatchUp));
    assert_eq!(validate_split_request(1, None), Ok(RebalanceStrategy::EvenSplit));
}

#[test]
fn split_periods_default_to_the_current_period() {
    let p = resolve_split_periods(None, d(2023, 5, 20), d(2024, 3, 20)).unwrap();
    assert_eq!(p.effective_period_start, d(2024, 3, 16));
    assert_eq!(p.genesis_effective, d(2023, 5, 16));
    assert_eq!(p.earliest_effective, d(2024, 3, 16));
    assert_eq!(p.earliest_selectable, d(2024, 3, 1));
}

#[test]
fn split_periods_keep_genesis_apart_from_the_change() {
    // The contract started in the same period the change targets: the original
    // split is backfilled one period earlier.
    let p = resolve_split_periods(Some("2024-03-16"), d(2024, 3, 18), d(2024, 3, 20)).unwrap();
    assert_eq!(p.effective_period_start, d(2024, 3, 16));
    assert_eq!(p.genesis_effective, d(2024, 3, 1));
    assert_ne!(p.genesis_effective, p.effective_period_start);
}

#[test]
fn split_periods_refuse_bad_effective_dates() {
    assert_eq!(
        resolve_split_periods(Some("March"), d(2024, 1, 1), d(2024, 3, 20)),
        Err(ApiError::EffectivePeriodStartFormat)
    );
    assert_eq!(
        resolve_split_periods(Some("2024-04-02"), d(2024, 1, 1), d(2024, 3, 20)),
        Err(ApiError::EffectivePeriodStartNotBoundary)
    );
}

#[test]
fn effective_period_cannot_precede_this_month() {
    let early = resolve_split_periods(Some("2024-02-16"), d(2023, 1, 1), d(2024, 3, 20)).unwrap();
    assert_eq!(check_effective_selectable(false, &early), Err(ApiError::EffectivePeriodStartTooEarly));
    assert_eq!(check_effective_selectable(true, &early), Ok(()));
    let fine = resolve_split_periods(Some("2024-03-01"), d(2023, 1, 1), d(2024, 3, 20)).unwrap();
    assert_eq!(check_effective_selectable(false, &fine), Ok(()));
}

fn row(y: i32, m: u32, day: u32, months: i32, strategy: &str) -> SplitHistoryRow {
    SplitHistoryRow {
        effective_period_start: d(y, m, day),
        split_months: months,
        rebalance_strategy: strategy.to_string(),
    }
}

#[test]
fn first_split_change_backfills_the_original() {
    let p = resolve_split_periods(None, d(2023, 5, 20), d(2024, 3, 20)).unwrap();
    let w = decide_split_change(24, RebalanceStrategy::EvenSplit, 36, &p, &None, &vec![]).unwrap();
    assert!(w.insert_genesis);
    assert_eq!(w.current_active, 24);
}

#[test]
fn unchanged_split_is_refused() {
    let p = resolve_split_periods(None, d(2023, 5, 20), d(2024, 3, 20)).unwrap();
    let history = vec![row(2023, 5, 16, 36, "catch_up")];
    assert_eq!(
        decide_split_change(36, RebalanceStrategy::CatchUp, 36, &p, &None, &history),
        Err(ApiError::SplitUnchanged)
    );
    assert_eq!(
        decide_split_change(36, RebalanceStrategy::EvenSplit, 36, &p, &None, &history),
        Err(ApiError::SplitMustDiffer)
    );
}

#[test]
fn future_split_change_keeps_todays_split_active() {
    let p = resolve_split_periods(Some("2024-05-01"), d(2023, 5, 20), d(2024, 3, 20)).unwrap();
    let history = vec![row(2023, 5, 16, 36, "catch_up")];
    let w = decide_split_change(12, RebalanceStrategy::EvenSplit, 36, &p, &None, &history).unwrap();
    assert!(!w.insert_genesis);
    assert_eq!(w.current_active, 36);
}

#[test]
fn editing_the_strategy_of_an_existing_row() {
    let p = resolve_split_periods(Some("2024-03-16"), d(2023, 5, 20), d(2024, 3, 20)).unwrap();
    let history = vec![row(2023, 5, 16, 36, "catch_up"), row(2024, 3, 16, 24, "catch_up")];
    let existing = Some("catch_up".to_string());
    let w = decide_split_change(24, RebalanceStrategy::EvenSplit, 24, &p, &existing, &history)
        .unwrap();
    assert_eq!(w.current_active, 24);
}

#[test]
fn schedule_fits_near_the_last_representable_year() {
    assert!(schedule_fits(d(2024, 1, 15), 120));
    assert!(schedule_fits(d(262142, 10, 1), 1));
    assert!(!schedule_fits(d(262142, 11, 1), 1));
    assert!(!schedule_fits(d(262142, 1, 1), 12));
}

#[test]
fn shift_fits_both_directions() {
    assert!(shift_fits(d(2024, 1, 31), -24));
    assert!(shift_fits(d(262142, 12, 1), 0));
    assert!(!shift_fits(d(262142, 12, 1), 1));
    assert!(!shift_fits(d(-262143, 1, 1), -1));
}

#[test]
fn split_request_checks_months_then_strategy() {
    let req = |m: i32, s: Option<&str>| ChangeContractSplitInput {
        split_months: m,
        effective_period_start: None,
        rebalance_strategy: s.map(str::to_string),
    };
    assert_eq!(split_request(&req(6, None)), Ok(RebalanceStrategy::EvenSplit));
    assert_eq!(split_request(&req(6, Some("catch_up"))), Ok(RebalanceStrategy::CatchUp));
    assert_eq!(split_request(&req(0, Some("catch_up"))), Err(ApiError::SplitMonthsOutOfRange));
    assert_eq!(split_request(&req(121, None)), Err(ApiError::SplitMonthsOutOfRange));
    assert!(split_request(&req(12, Some("bogus"))).is_err());
}
