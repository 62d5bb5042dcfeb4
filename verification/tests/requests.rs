use tttb_backend::config::Mode;
use tttb_backend::gains::{gains_dates, parse_method, percentage_method, report_start, GainsQuery, ReturnMethod};
use tttb_backend::history::{history_range, value_history_point};
use tttb_backend::decimal::DecimalNum;
use tttb_backend::requests::{
    bumps_revision, data_version, demo_guard, is_mutating_method, reject_demo_mutation,
    revision_string,
};
use tttb_backend::transactions::TradeDate;

fn d(year: i32, month: u32, day: u32) -> TradeDate {
    TradeDate { year, month, day }
}

#[test]
fn demo_mode_refuses_writes() {
    let error = reject_demo_mutation(Mode::Demo).expect_err("demo is read-only");
    assert_eq!(error.status, 403);
    assert_eq!(error.code, "demo_read_only");
    assert!(reject_demo_mutation(Mode::Production).is_ok());
    assert!(demo_guard(Mode::Demo, "GET").is_ok());
    assert!(demo_guard(Mode::Demo, "POST").is_err());
    assert!(demo_guard(Mode::Development, "DELETE").is_ok());
}

#[test]
fn only_unrefused_mutations_move_the_revision() {
    assert!(!is_mutating_method("GET"));
    assert!(!is_mutating_method("OPTIONS"));
    assert!(is_mutating_method("PATCH"));
    assert!(bumps_revision("POST", 200));
    assert!(bumps_revision("PUT", 500));
    assert!(!bumps_revision("POST", 422));
    assert!(!bumps_revision("HEAD", 200));
}

#[test]
fn revisions_name_ledger_and_counter() {
    assert_eq!(revision_string("ledger-a", 7), "ledger-a:7");
    assert_ne!(revision_string("ledger-a", 7), revision_string("ledger-b", 7));
    let version = data_version("l:1".into(), d(2026, 3, 5), Err("offline".into()));
    assert_eq!(version.valuation_date, "2026-03-05");
    assert!(!version.prices_refreshing);
    assert!(data_version("l:1".into(), d(2026, 3, 5), Ok(true)).prices_refreshing);
}

#[test]
fn gains_queries_parse_method_and_dates() {
    assert_eq!(parse_method(None).expect("default"), ReturnMethod::Xirr);
    assert_eq!(parse_method(Some("modified_dietz")).expect("known"), ReturnMethod::ModifiedDietz);
    assert_eq!(parse_method(Some("irr")).expect_err("unknown").message, "invalid method: irr");
    assert_eq!(percentage_method(ReturnMethod::Xirr), "money_weighted");

    let query = GainsQuery {
        include_closed: false,
        start_date: Some("2026-01-01".into()),
        end_date: None,
        method: None,
    };
    assert_eq!(gains_dates(&query, d(2026, 3, 5)).expect("ok"), (Some(d(2026, 1, 1)), d(2026, 3, 5)));
    let mut late = query.clone();
    late.start_date = Some("2026-04-01".into());
    assert_eq!(gains_dates(&late, d(2026, 3, 5)).expect_err("late").code, "start_date_after_end_date");
    let mut bad = query.clone();
    bad.end_date = Some("soon".into());
    assert_eq!(gains_dates(&bad, d(2026, 3, 5)).expect_err("bad").message, "invalid end_date: soon");
}

#[test]
fn reports_start_at_the_first_trade_through_the_end() {
    let dates = vec![d(2026, 5, 1), d(2025, 2, 3), d(2027, 1, 1)];
    assert_eq!(report_start(None, &dates, d(2026, 12, 31)), (d(2025, 2, 3), true));
    assert_eq!(report_start(None, &vec![d(2027, 1, 1)], d(2026, 12, 31)), (d(2026, 12, 31), false));
    assert_eq!(report_start(Some(d(2026, 6, 1)), &dates, d(2026, 12, 31)), (d(2026, 6, 1), true));
}

#[test]
fn history_ranges_are_ordered() {
    assert_eq!(history_range(&None, &None).expect("open"), (None, None));
    assert_eq!(
        history_range(&Some("2026-01-02".into()), &Some("2026-01-01".into())).expect_err("inverted").code,
        "invalid_date_range"
    );
    assert_eq!(
        history_range(&Some("x".into()), &None).expect_err("bad").message,
        "invalid from: x"
    );
    let point = value_history_point(d(2026, 1, 2), DecimalNum { mantissa: 5, scale: 0 }, true, 2, 1);
    assert_eq!(point.date, "2026-01-02");
    assert_eq!(point.value_base, "5.00");
}
