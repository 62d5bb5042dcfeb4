use tttb_backend::period::resolve_period;
use tttb_backend::transactions::TradeDate;

fn d(year: i32, month: u32, day: u32) -> TradeDate {
    TradeDate { year, month, day }
}

#[test]
fn presets_resolve_against_today() {
    let today = d(2026, 9, 12);

    for (preset, start, end) in [
        ("today", Some(d(2026, 9, 12)), d(2026, 9, 12)),
        ("7d", Some(d(2026, 9, 5)), d(2026, 9, 12)),
        ("12m", Some(d(2025, 9, 12)), d(2026, 9, 12)),
        ("ytd", Some(d(2026, 1, 1)), d(2026, 9, 12)),
        ("all", None, d(2026, 9, 12)),
    ] {
        let resolved = resolve_period(Some(preset), None, None, today)
            .unwrap_or_else(|_| panic!("{preset} resolves"));
        assert_eq!(resolved.start, start, "{preset} start");
        assert_eq!(resolved.end, end, "{preset} end");
    }
}

#[test]
fn twelve_months_back_from_a_leap_day_starts_on_first_march() {
    let leap_day = d(2028, 2, 29);
    let resolved = resolve_period(Some("12m"), None, None, leap_day).expect("resolves");

    assert_eq!(resolved.start, Some(d(2027, 3, 1)));
    assert_eq!(resolved.end, leap_day);
}

#[test]
fn explicit_dates_win_and_default_their_end_to_today() {
    let today = d(2026, 9, 12);
    let resolved = resolve_period(None, Some(d(2026, 2, 1)), Some(d(2026, 6, 29)), today)
        .expect("explicit range resolves");
    assert_eq!(resolved.start, Some(d(2026, 2, 1)));
    assert_eq!(resolved.end, d(2026, 6, 29));

    let open_ended = resolve_period(Some("custom"), Some(d(2026, 2, 1)), None, today)
        .expect("open-ended custom range resolves");
    assert_eq!(open_ended.end, today);
}

#[test]
fn an_unknown_preset_is_a_bad_request() {
    let error = resolve_period(Some("last-tuesday"), None, None, d(2026, 9, 12))
        .expect_err("unknown preset is rejected");
    assert_eq!(error.code, "invalid_period");
    assert_eq!(error.message, "invalid period: last-tuesday");
}

#[test]
fn a_start_after_the_end_is_a_bad_request() {
    let error = resolve_period(
        None,
        Some(d(2026, 9, 13)),
        Some(d(2026, 9, 12)),
        d(2026, 9, 12),
    )
    .expect_err("inverted range is rejected");
    assert_eq!(error.code, "start_date_after_end_date");
}

#[test]
fn seven_days_back_crosses_month_and_year_ends() {
    let resolved = resolve_period(Some("7d"), None, None, d(2026, 1, 3)).expect("resolves");
    assert_eq!(resolved.start, Some(d(2025, 12, 27)));
}

#[test]
fn a_week_back_crosses_month_and_year_ends() {
    for (today, start) in [
        (d(2026, 3, 3), d(2026, 2, 24)),
        (d(2028, 3, 3), d(2028, 2, 25)),
        (d(2027, 1, 4), d(2026, 12, 28)),
    ] {
        let resolved = resolve_period(Some("7d"), None, None, today).expect("resolves");
        assert_eq!(resolved.start, Some(start));
        assert_eq!(resolved.end, today);
    }
}
