use tttb_backend::decimal::DecimalNum;
use tttb_backend::gains::ReturnMethod;
use tttb_backend::performance::{
    CashFlow, DisplayPercentKind, PerformanceAccumulator, PeriodAmounts,
};
use tttb_backend::transactions::TradeDate;
use tttb_backend::valuation::{Availability, AvailabilityResponse, ValuationReason};

fn d(mantissa: i128, scale: u32) -> DecimalNum {
    DecimalNum { mantissa, scale }
}

fn avail(mantissa: i128) -> Availability<DecimalNum> {
    Availability::Available(d(mantissa, 0))
}

fn value(r: &AvailabilityResponse) -> &str {
    match r {
        AvailabilityResponse::Available { value } => value.as_str(),
        AvailabilityResponse::Unavailable { .. } => panic!("expected an available figure"),
    }
}

fn reasons(r: &AvailabilityResponse) -> Vec<String> {
    match r {
        AvailabilityResponse::Available { .. } => panic!("expected an unavailable figure"),
        AvailabilityResponse::Unavailable { reasons } => reasons.clone(),
    }
}

fn flow(amount: i128) -> CashFlow {
    CashFlow { date: TradeDate { year: 2026, month: 6, day: 1 }, amount_base: d(amount, 0) }
}

fn amounts(total: i128, capital: i128, income: i128, currency: i128) -> PeriodAmounts {
    PeriodAmounts {
        begin_market_value_base: avail(0),
        end_market_value_base: avail(1100),
        total_return_base: avail(total),
        capital_gain_base: avail(capital),
        currency_gain_base: avail(currency),
        income_base: avail(income),
    }
}

fn accumulated() -> PerformanceAccumulator {
    let mut acc = PerformanceAccumulator::new();
    let flows = Availability::Available(vec![flow(1000), flow(-500)]);
    assert!(acc.add(&amounts(100, 60, 10, 30), &flows, &flows));
    acc
}

fn identity(q: DecimalNum) -> (DecimalNum, DisplayPercentKind) {
    (q, DisplayPercentKind::Absolute)
}

#[test]
fn available_periods_are_summed_and_their_flows_kept() {
    let acc = accumulated();
    assert!(acc.has_data);
    assert_eq!(acc.total_return, d(100, 0));
    assert_eq!(acc.end_mv, d(1100, 0));
    assert_eq!(acc.actual_cash_flows.len(), 2);
    assert_eq!(acc.excluded_rows, 0);
}

#[test]
fn incomplete_periods_are_excluded_with_their_reasons_once() {
    let mut acc = PerformanceAccumulator::new();
    let missing = Availability::Unavailable { reasons: vec![ValuationReason::MissingEndFx] };
    let period = PeriodAmounts {
        total_return_base: missing.clone(),
        income_base: missing.clone(),
        ..amounts(0, 0, 0, 0)
    };
    let flows = Availability::Available(Vec::new());
    assert!(acc.add(&period, &flows, &flows));
    assert_eq!(acc.excluded_rows, 1);
    assert_eq!(acc.unavailable_reasons, vec![ValuationReason::MissingEndFx]);
    assert!(!acc.has_data);

    let p = acc
        .into_percents(ReturnMethod::Simple, &avail(0), &avail(0), identity)
        .expect("no overflow");
    assert_eq!(reasons(&p.total_return_percent), vec!["missing_end_fx".to_owned()]);
    assert_eq!(reasons(&p.capital_gain_percent), vec!["missing_end_fx".to_owned()]);
    assert_eq!(p.display_percent_kind, "absolute");
}

#[test]
fn simple_return_divides_by_begin_value_and_gross_buys() {
    let p = accumulated()
        .into_percents(ReturnMethod::Simple, &avail(0), &avail(0), identity)
        .expect("no overflow");
    assert_eq!(value(&p.total_return_percent), "10.00");
    assert_eq!(value(&p.capital_gain_percent), "6.00");
    assert_eq!(value(&p.income_percent), "1.00");
    assert_eq!(value(&p.currency_gain_percent), "3.00");
    assert_eq!(p.display_percent_kind, "simple");
}

#[test]
fn simple_return_without_buys_or_begin_value_has_no_denominator() {
    let mut acc = PerformanceAccumulator::new();
    let flows = Availability::Available(vec![flow(-500)]);
    assert!(acc.add(&amounts(100, 60, 10, 30), &flows, &flows));
    let p = acc
        .into_percents(ReturnMethod::Simple, &avail(0), &avail(0), identity)
        .expect("no overflow");
    assert_eq!(
        reasons(&p.total_return_percent),
        vec!["zero_or_invalid_performance_denominator".to_owned()]
    );
}

#[test]
fn money_weighted_return_is_shared_out_by_weight() {
    let mw = Availability::Available(d(1, 1));
    let p = accumulated()
        .into_percents(ReturnMethod::Xirr, &mw, &avail(0), identity)
        .expect("no overflow");
    assert_eq!(value(&p.total_return_percent), "10.00");
    assert_eq!(value(&p.capital_gain_percent), "6.00");
    assert_eq!(value(&p.income_percent), "1.00");
    assert_eq!(value(&p.currency_gain_percent), "3.00");
    assert_eq!(p.display_percent_kind, "money_weighted");

    let missing = Availability::Unavailable { reasons: vec![ValuationReason::MissingEndPrice] };
    let p = accumulated()
        .into_percents(ReturnMethod::Xirr, &missing, &avail(0), identity)
        .expect("no overflow");
    assert_eq!(reasons(&p.income_percent), vec!["missing_end_price".to_owned()]);
}

#[test]
fn modified_dietz_uses_the_denominator_and_the_annualisation() {
    let p = accumulated()
        .into_percents(ReturnMethod::ModifiedDietz, &avail(0), &avail(3000), |q: DecimalNum| {
            (q, DisplayPercentKind::Annualised)
        })
        .expect("no overflow");
    // 60 / 3000 = 2%, cut at two places; 100 / 3000 rounded.
    assert_eq!(value(&p.capital_gain_percent), "2.00");
    assert_eq!(value(&p.currency_gain_percent), "1.00");
    assert_eq!(value(&p.income_percent), "0.33");
    assert_eq!(value(&p.total_return_percent), "3.33");
    assert_eq!(p.display_percent_kind, "annualised");
}
