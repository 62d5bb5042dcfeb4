use tttb_backend::decimal::DecimalNum;
use tttb_backend::gain_rows::RealizedGain;
use tttb_backend::gains::BaseAmount;
use tttb_backend::holdings::ValuedHolding;
use tttb_backend::valuation::{Availability, AvailabilityResponse, ValuationReason};
use tttb_backend::waterfall::{IncomeInput, PortfolioWaterfallAccumulator};

fn d(mantissa: i128, scale: u32) -> DecimalNum {
    DecimalNum { mantissa, scale }
}

fn available(mantissa: i128) -> Availability<DecimalNum> {
    Availability::Available(d(mantissa, 2))
}

fn base_available(mantissa: i128) -> BaseAmount {
    BaseAmount::Available(d(mantissa, 2))
}

fn holding(
    cost_basis: i128,
    price_effect: i128,
    fx_effect: i128,
    market_value: i128,
    unrealized_gain: i128,
) -> ValuedHolding {
    ValuedHolding {
        quantity: 10,
        cost_basis_native: d(0, 0),
        cost_basis_base: available(cost_basis),
        fee_component_base: available(0),
        price_effect_base: available(price_effect),
        fx_effect_base: available(fx_effect),
        latest_price: None,
        previous_price: None,
        latest_fx: None,
        previous_fx: None,
        market_value_native: available(0),
        market_value_base: available(market_value),
        unrealized_gain_base: available(unrealized_gain),
        unrealized_gain_percent: available(0),
        day_change_base: available(0),
        day_change_percent: available(0),
        reasons: vec![],
    }
}

fn realized(gain: i128, cost_basis: i128, fee: i128) -> RealizedGain {
    RealizedGain {
        sold_quantity: 10,
        proceeds_native: d(0, 0),
        cost_basis_native: d(0, 0),
        proceeds_base: base_available(0),
        cost_basis_base: base_available(cost_basis),
        price_effect_base: base_available(0),
        fx_effect_base: base_available(0),
        gain_base: base_available(gain),
        fee_base: base_available(fee),
        sell_brokerage_base: d(0, 0),
    }
}

fn value(r: &AvailabilityResponse) -> &str {
    match r {
        AvailabilityResponse::Available { value } => value.as_str(),
        AvailabilityResponse::Unavailable { .. } => panic!("expected an available figure"),
    }
}

#[test]
fn income_not_tracked_sets_flag_without_excluding_row() {
    let mut accum = PortfolioWaterfallAccumulator::new();
    assert!(accum.add_open(
        &holding(10000, 1000, 0, 11000, 1000),
        &realized(500, 2000, 100),
        d(2, 0),
        &IncomeInput::NotTracked,
    ));
    let response = accum.into_response();
    assert!(response.income_not_tracked);
    assert_eq!(value(&response.income_base), "0.00");
    assert_eq!(response.excluded_rows, 0);
}

#[test]
fn waterfall_sums_open_and_closed_instruments() {
    let mut accum = PortfolioWaterfallAccumulator::new();
    assert!(accum.add_open(
        &holding(10000, 1000, 0, 11000, 1000),
        &realized(500, 2000, 100),
        d(2, 0),
        &IncomeInput::Available(d(300, 2)),
    ));
    assert!(accum.add_closed(&realized(700, 3000, 50), d(1, 0), &IncomeInput::NotTracked));
    let response = accum.into_response();
    assert_eq!(value(&response.cost_basis_base), "100.00");
    assert_eq!(value(&response.realized_gain_base), "12.00");
    assert_eq!(value(&response.realized_cost_basis_base), "50.00");
    assert_eq!(value(&response.brokerage_total_base), "3.00");
    assert_eq!(value(&response.income_base), "3.00");
    // 10 unrealized + 5 realized + 3 income, then 7 realized.
    assert_eq!(value(&response.total_return_base), "25.00");
    assert!(!response.income_not_tracked);
}

#[test]
fn instruments_with_missing_figures_are_left_out_with_their_reasons() {
    let mut accum = PortfolioWaterfallAccumulator::new();
    let mut valued = holding(10000, 1000, 0, 11000, 1000);
    valued.market_value_base = Availability::Unavailable { reasons: vec![ValuationReason::MissingPrice] };
    assert!(accum.add_open(&valued, &realized(500, 2000, 100), d(0, 0), &IncomeInput::NotTracked));
    let missing_fx = RealizedGain {
        gain_base: BaseAmount::Unavailable { missing_fx_transaction_ids: vec![3] },
        ..realized(0, 0, 0)
    };
    assert!(accum.add_closed(&missing_fx, d(0, 0), &IncomeInput::NotTracked));
    assert!(accum.add_closed(
        &realized(700, 3000, 50),
        d(0, 0),
        &IncomeInput::Unavailable(vec![ValuationReason::MissingPrice]),
    ));
    assert_eq!(accum.excluded_rows, 3);
    assert_eq!(
        accum.unavailable_reasons,
        vec![ValuationReason::MissingPrice, ValuationReason::MissingFx]
    );
    let response = accum.into_response();
    match &response.total_return_base {
        AvailabilityResponse::Unavailable { reasons } => {
            assert_eq!(reasons, &vec!["missing_price".to_owned(), "missing_fx".to_owned()])
        }
        AvailabilityResponse::Available { .. } => panic!("no instrument was added"),
    }
    assert!(!response.income_not_tracked);
}
