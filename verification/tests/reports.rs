use tttb_backend::transactions::TradeDate;
use tttb_backend::decimal::DecimalNum;
use tttb_backend::gains::{
    gains_response, summary_response, totals_response, HoldingsSummary, ReturnMethod,
};
use tttb_backend::valuation::{Availability, AvailabilityResponse, ValuationReason};

fn d(mantissa: i128, scale: u32) -> DecimalNum {
    DecimalNum { mantissa, scale }
}

fn value(r: &AvailabilityResponse) -> &str {
    match r {
        AvailabilityResponse::Available { value } => value.as_str(),
        AvailabilityResponse::Unavailable { .. } => panic!("expected an available figure"),
    }
}

fn reasons(r: &AvailabilityResponse) -> Vec<String> {
    match r {
        AvailabilityResponse::Available { .. } => panic!("expected an unavailable figure"),
        AvailabilityResponse::Unavailable { reasons } => reasons.clone(),
    }
}

fn summary() -> HoldingsSummary {
    HoldingsSummary {
        market_value_base: Availability::Available(d(1234567, 3)),
        cost_basis_base: Availability::Available(d(100000, 2)),
        price_effect_base: Availability::Unavailable { reasons: vec![ValuationReason::MissingPrice] },
        fx_effect_base: Availability::Available(d(-250, 2)),
        unrealized_gain_base: Availability::Available(d(23456, 2)),
        unrealized_gain_percent: Availability::Available(d(234567, 4)),
        day_change_base: Availability::Available(d(0, 0)),
        day_change_percent: Availability::Unavailable {
            reasons: vec![ValuationReason::MissingPreviousClose, ValuationReason::MissingFx],
        },
        excluded_rows: 2,
    }
}

#[test]
fn summary_renders_money_and_truncated_percentages() {
    let r = summary_response(&summary());
    assert_eq!(value(&r.market_value_base), "1234.57");
    assert_eq!(value(&r.cost_basis_base), "1000.00");
    assert_eq!(reasons(&r.price_effect_base), vec!["missing_price".to_owned()]);
    assert_eq!(value(&r.fx_effect_base), "-2.50");
    assert_eq!(value(&r.unrealized_gain_base), "234.56");
    assert_eq!(value(&r.unrealized_gain_percent), "23.45");
    assert_eq!(value(&r.day_change_base), "0.00");
    assert_eq!(
        reasons(&r.day_change_percent),
        vec!["missing_previous_close".to_owned(), "missing_fx".to_owned()]
    );
    assert_eq!(r.excluded_rows, 2);
}

#[test]
fn totals_report_amounts_only_with_data() {
    let pct = AvailabilityResponse::Available { value: "1.00".to_owned() };
    let with_data = totals_response(
        true,
        &[],
        d(150, 0),
        d(25, 1),
        d(-3, 0),
        d(1495, 1),
        pct.clone(),
        pct.clone(),
        pct.clone(),
        pct.clone(),
        1,
    );
    assert_eq!(value(&with_data.capital_gain_base), "150.00");
    assert_eq!(value(&with_data.income_base), "2.50");
    assert_eq!(value(&with_data.currency_gain_base), "-3.00");
    assert_eq!(value(&with_data.total_return_base), "149.50");
    assert_eq!(value(&with_data.total_return_percent), "1.00");
    assert_eq!(with_data.excluded_rows, 1);

    let without = totals_response(
        false,
        &[ValuationReason::MissingStartPrice],
        d(0, 0),
        d(0, 0),
        d(0, 0),
        d(0, 0),
        pct.clone(),
        pct.clone(),
        pct.clone(),
        pct,
        3,
    );
    assert_eq!(reasons(&without.capital_gain_base), vec!["missing_start_price".to_owned()]);
    assert_eq!(reasons(&without.total_return_base), vec!["missing_start_price".to_owned()]);
}

#[test]
fn report_carries_dates_currency_and_method() {
    let end = TradeDate { year: 2026, month: 6, day: 30 };
    let start = TradeDate { year: 2026, month: 1, day: 2 };
    let pct = AvailabilityResponse::Unavailable { reasons: Vec::new() };
    let totals = totals_response(
        false, &[], d(0, 0), d(0, 0), d(0, 0), d(0, 0),
        pct.clone(), pct.clone(), pct.clone(), pct, 0,
    );
    let r = gains_response(
        end,
        true,
        true,
        start,
        ReturnMethod::Xirr,
        "annualised".to_owned(),
        summary_response(&summary()),
        totals,
        Vec::new(),
    );
    assert_eq!(r.as_of_date, "2026-06-30");
    assert_eq!(r.base_currency, "SEK");
    assert!(r.include_closed_positions);
    assert_eq!(r.report_period.start_date.as_deref(), Some("2026-01-02"));
    assert_eq!(r.report_period.end_date, "2026-06-30");
    assert_eq!(r.percentage_method, "money_weighted");
    assert_eq!(r.display_percent_kind, "annualised");
    assert!(r.rows.is_empty());

    let totals = totals_response(
        false, &[], d(0, 0), d(0, 0), d(0, 0), d(0, 0),
        AvailabilityResponse::Unavailable { reasons: Vec::new() },
        AvailabilityResponse::Unavailable { reasons: Vec::new() },
        AvailabilityResponse::Unavailable { reasons: Vec::new() },
        AvailabilityResponse::Unavailable { reasons: Vec::new() },
        0,
    );
    let no_start = gains_response(
        end, false, false, end, ReturnMethod::ModifiedDietz, "period".to_owned(),
        summary_response(&summary()), totals, Vec::new(),
    );
    assert_eq!(no_start.report_period.start_date, None);
    assert_eq!(no_start.percentage_method, "modified_dietz");
}
