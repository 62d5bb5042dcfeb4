use tttb_backend::decimal::DecimalNum;
use tttb_backend::gain_rows::{
    add_amounts, closed_gain_row, current_position_percent, gains_rows, open_gain_row,
    InstrumentPeriod, RealizedGain,
};
use tttb_backend::gains::{BaseAmount, GainPositionStatus};
use tttb_backend::holdings::ValuedHolding;
use tttb_backend::instruments::InstrumentRow;
use tttb_backend::transactions::TradeDate;
use tttb_backend::valuation::{Availability, AvailabilityResponse, ValuationReason};

fn d(mantissa: i128, scale: u32) -> DecimalNum {
    DecimalNum { mantissa, scale }
}

fn avail(mantissa: i128, scale: u32) -> Availability<DecimalNum> {
    Availability::Available(d(mantissa, scale))
}

fn base(mantissa: i128, scale: u32) -> BaseAmount {
    BaseAmount::Available(d(mantissa, scale))
}

fn missing() -> BaseAmount {
    BaseAmount::Unavailable { missing_fx_transaction_ids: vec![1] }
}

fn value(r: &AvailabilityResponse) -> &str {
    match r {
        AvailabilityResponse::Available { value } => value.as_str(),
        AvailabilityResponse::Unavailable { .. } => panic!("expected an available figure"),
    }
}

fn reasons(r: &AvailabilityResponse) -> Vec<String> {
    match r {
        AvailabilityResponse::Available { .. } => panic!("expected an unavailable figure"),
        AvailabilityResponse::Unavailable { reasons } => reasons.clone(),
    }
}

fn msft() -> InstrumentRow {
    InstrumentRow {
        id: 3,
        symbol: "MSFT".to_owned(),
        exchange: "NASDAQ".to_owned(),
        name: "Microsoft".to_owned(),
        kind: "STOCK".to_owned(),
        currency: "USD".to_owned(),
        isin: None,
        conviction: "MEDIUM".to_owned(),
    }
}

/// Bought 10 at 100 USD (FX 10, brokerage 20), sold all at 120 USD (FX 11,
/// brokerage 5).
fn sold_out() -> RealizedGain {
    RealizedGain {
        sold_quantity: 10,
        cost_basis_native: d(1000, 0),
        proceeds_native: d(1200, 0),
        cost_basis_base: base(10020, 0),
        proceeds_base: base(13195, 0),
        price_effect_base: base(2175, 0),
        fx_effect_base: base(1000, 0),
        gain_base: base(3175, 0),
        fee_base: base(25, 0),
        sell_brokerage_base: d(5, 0),
    }
}

#[test]
fn closed_row_reports_the_realized_position() {
    let income = Availability::Unavailable { reasons: vec![ValuationReason::MissingEndFx] };
    let row = closed_gain_row(&msft(), &sold_out(), None, &income, &avail(25, 0))
        .expect("no overflow")
        .expect("instrument decodes");
    assert_eq!(row.instrument.symbol, "MSFT");
    assert_eq!(row.position_status, GainPositionStatus::Closed);
    assert_eq!(row.quantity, 0);
    assert_eq!(row.cost_basis_native, "1000.00");
    assert_eq!(value(&row.cost_basis_base), "10020.00");
    assert_eq!(value(&row.market_value_native), "0.00");
    assert_eq!(value(&row.market_value_base), "0.00");
    assert_eq!(value(&row.proceeds_native), "1200.00");
    assert_eq!(value(&row.proceeds_base), "13195.00");
    assert_eq!(value(&row.unrealized_price_effect_base), "2175.00");
    assert_eq!(value(&row.unrealized_fx_effect_base), "1000.00");
    assert_eq!(value(&row.unrealized_gain_base), "3175.00");
    assert_eq!(value(&row.unrealized_gain_percent), "31.68");
    assert_eq!(value(&row.price_effect_base), "2175.00");
    assert_eq!(value(&row.fx_effect_base), "1000.00");
    assert_eq!(value(&row.capital_gain_base), "2175.00");
    assert_eq!(value(&row.capital_gain_percent), "21.70");
    assert_eq!(value(&row.currency_gain_base), "1000.00");
    assert_eq!(value(&row.currency_gain_percent), "9.98");
    // Income is unavailable, so the total return is the realized gain.
    assert_eq!(value(&row.total_return_base), "3175.00");
    assert_eq!(value(&row.total_return_percent), "31.68");
    assert_eq!(reasons(&row.income_base), vec!["missing_end_fx".to_owned()]);
    assert_eq!(value(&row.held_fee_component_base), "0.00");
    assert_eq!(value(&row.realized_fee_base), "25.00");
    assert_eq!(value(&row.realized_sell_brokerage_base), "5.00");
    assert_eq!(value(&row.brokerage_total_base), "25.00");
    assert!(row.latest_price.is_none() && row.latest_fx.is_none());
    assert_eq!(reasons(&row.day_change_base), Vec::<String>::new());
    assert!(row.reasons.is_empty());
}

#[test]
fn closed_row_adds_available_income_to_the_total_return() {
    let row = closed_gain_row(
        &msft(),
        &sold_out(),
        Some(TradeDate { year: 2026, month: 6, day: 1 }),
        &avail(25, 0),
        &avail(25, 0),
    )
    .expect("no overflow")
    .expect("instrument decodes");
    assert_eq!(value(&row.total_return_base), "3200.00");
    assert_eq!(row.performance_start_date.as_deref(), Some("2026-06-01"));
}

#[test]
fn closed_row_with_missing_fx_on_the_buy() {
    let realized = RealizedGain {
        cost_basis_base: missing(),
        gain_base: missing(),
        fee_base: missing(),
        ..sold_out()
    };
    let row = closed_gain_row(&msft(), &realized, None, &avail(0, 0), &avail(25, 0))
        .expect("no overflow")
        .expect("instrument decodes");
    assert_eq!(reasons(&row.cost_basis_base), vec!["missing_fx".to_owned()]);
    assert_eq!(value(&row.proceeds_base), "13195.00");
    assert_eq!(reasons(&row.realized_fee_base), vec!["missing_fx".to_owned()]);
    assert_eq!(value(&row.held_fee_component_base), "0.00");
    assert_eq!(value(&row.realized_sell_brokerage_base), "5.00");
    assert_eq!(value(&row.brokerage_total_base), "25.00");
    assert_eq!(reasons(&row.unrealized_gain_percent), vec!["missing_fx".to_owned()]);
    assert_eq!(row.reasons, vec!["missing_fx".to_owned()]);
}

#[test]
fn closed_row_with_zero_cost_reports_zero_cost_basis() {
    let realized = RealizedGain { cost_basis_base: base(0, 2), ..sold_out() };
    let row = closed_gain_row(&msft(), &realized, None, &avail(0, 0), &avail(0, 0))
        .expect("no overflow")
        .expect("instrument decodes");
    assert_eq!(reasons(&row.unrealized_gain_percent), vec!["zero_cost_basis".to_owned()]);
    assert_eq!(row.reasons, vec!["zero_cost_basis".to_owned()]);
}

#[test]
fn row_of_an_undecodable_instrument_is_an_error() {
    let instrument = InstrumentRow { kind: "BOND".to_owned(), ..msft() };
    let error = closed_gain_row(&instrument, &sold_out(), None, &avail(0, 0), &avail(0, 0))
        .expect("no overflow")
        .expect_err("unknown kind");
    assert_eq!(error.status, 500);
}

/// Bought 10 at 100 USD (FX 10, brokerage 20), sold 4 at 120 USD (FX 11,
/// brokerage 5); 6 still held.
fn held_six() -> ValuedHolding {
    ValuedHolding {
        quantity: 6,
        cost_basis_native: d(600, 0),
        cost_basis_base: avail(6012, 0),
        fee_component_base: avail(12, 0),
        price_effect_base: avail(1308, 0),
        fx_effect_base: avail(600, 0),
        market_value_native: avail(792, 0),
        market_value_base: avail(7920, 0),
        unrealized_gain_base: avail(1908, 0),
        unrealized_gain_percent: avail(3173652, 5),
        day_change_base: Availability::Unavailable {
            reasons: vec![ValuationReason::MissingPreviousClose],
        },
        day_change_percent: Availability::Unavailable {
            reasons: vec![ValuationReason::MissingPreviousClose],
        },
        latest_price: None,
        previous_price: None,
        latest_fx: None,
        previous_fx: None,
        reasons: vec![ValuationReason::MissingPreviousClose],
    }
}

fn sold_four() -> RealizedGain {
    RealizedGain {
        sold_quantity: 4,
        cost_basis_native: d(400, 0),
        proceeds_native: d(480, 0),
        cost_basis_base: base(4008, 0),
        proceeds_base: base(5275, 0),
        price_effect_base: base(867, 0),
        fx_effect_base: base(400, 0),
        gain_base: base(1267, 0),
        fee_base: base(13, 0),
        sell_brokerage_base: d(5, 0),
    }
}

#[test]
fn open_row_adds_the_realized_part_to_the_breakdown() {
    let row = open_gain_row(&msft(), &held_six(), &sold_four(), None, &avail(0, 0), &avail(25, 0))
        .expect("no overflow")
        .expect("instrument decodes");
    assert_eq!(row.position_status, GainPositionStatus::Open);
    assert_eq!(row.quantity, 6);
    assert_eq!(value(&row.performance_denominator_base), "6012.00");
    assert_eq!(value(&row.unrealized_gain_base), "1908.00");
    assert_eq!(value(&row.capital_gain_base), "2175.00");
    assert_eq!(value(&row.currency_gain_base), "1000.00");
    assert_eq!(value(&row.unrealized_price_effect_base), "1308.00");
    assert_eq!(value(&row.unrealized_fx_effect_base), "600.00");
    assert_eq!(value(&row.total_return_base), "3175.00");
    // 3175 of a total cost of 6012 + 4008.
    assert_eq!(value(&row.total_return_percent), "31.68");
    assert_eq!(value(&row.unrealized_gain_percent), "31.73");
    assert_eq!(value(&row.held_fee_component_base), "12.00");
    assert_eq!(value(&row.realized_fee_base), "13.00");
    assert_eq!(value(&row.realized_sell_brokerage_base), "5.00");
    assert_eq!(value(&row.brokerage_total_base), "25.00");
    assert_eq!(reasons(&row.proceeds_native), Vec::<String>::new());
    assert_eq!(reasons(&row.day_change_base), vec!["missing_previous_close".to_owned()]);
    assert_eq!(row.reasons, vec!["missing_previous_close".to_owned()]);
}

#[test]
fn open_row_sums_are_unavailable_with_both_reasons() {
    let valued = ValuedHolding {
        unrealized_gain_base: Availability::Unavailable { reasons: vec![ValuationReason::MissingPrice] },
        ..held_six()
    };
    let realized = RealizedGain { gain_base: missing(), ..sold_four() };
    let row = open_gain_row(&msft(), &valued, &realized, None, &avail(0, 0), &avail(25, 0))
        .expect("no overflow")
        .expect("instrument decodes");
    assert_eq!(
        reasons(&row.total_return_base),
        vec!["missing_price".to_owned(), "missing_fx".to_owned()]
    );
    assert_eq!(
        reasons(&row.total_return_percent),
        vec!["missing_price".to_owned(), "missing_fx".to_owned()]
    );
}

#[test]
fn overflowing_sum_gives_no_row() {
    let huge = (1i128 << 96) - 1;
    let valued = ValuedHolding { unrealized_gain_base: avail(huge, 0), ..held_six() };
    let realized = RealizedGain { gain_base: base(huge, 0), ..sold_four() };
    assert!(open_gain_row(&msft(), &valued, &realized, None, &avail(0, 0), &avail(0, 0)).is_none());
}

#[test]
fn amounts_add_exactly_and_percentages_are_cut_to_two_places() {
    match add_amounts(&avail(150, 2), &avail(25, 1)).expect("no overflow") {
        Availability::Available(v) => assert_eq!((v.mantissa, v.scale), (400, 2)),
        Availability::Unavailable { .. } => panic!("both available"),
    }
    let p = current_position_percent(&avail(1, 0), &avail(3, 0)).expect("no overflow");
    assert_eq!(value(&p), "33.33");
    let zero = current_position_percent(&avail(1, 0), &avail(0, 0)).expect("no overflow");
    assert_eq!(reasons(&zero), vec!["zero_cost_basis".to_owned()]);
}

fn closed_period(instrument: InstrumentRow) -> InstrumentPeriod {
    InstrumentPeriod {
        instrument,
        held_quantity: 0,
        has_period_exposure: false,
        realized: sold_out(),
        valued: None,
        income_base: avail(0, 0),
        brokerage_total_base: avail(25, 0),
    }
}

fn open_period() -> InstrumentPeriod {
    InstrumentPeriod {
        instrument: InstrumentRow { id: 4, symbol: "AAPL".to_owned(), ..msft() },
        held_quantity: 6,
        has_period_exposure: true,
        realized: sold_four(),
        valued: Some(held_six()),
        income_base: avail(0, 0),
        brokerage_total_base: avail(25, 0),
    }
}

#[test]
fn closed_positions_get_rows_only_when_asked_for() {
    let start = TradeDate { year: 2026, month: 6, day: 1 };
    let periods = vec![closed_period(msft()), open_period()];
    let rows = gains_rows(&periods, false, start).expect("no overflow").expect("decodes");
    assert_eq!(rows.len(), 1);
    assert_eq!(rows[0].instrument.symbol, "AAPL");
    assert_eq!(rows[0].performance_start_date.as_deref(), Some("2026-06-01"));

    let rows = gains_rows(&periods, true, start).expect("no overflow").expect("decodes");
    assert_eq!(rows.len(), 2);
    assert_eq!(rows[0].position_status, GainPositionStatus::Closed);
    assert_eq!(rows[0].performance_start_date, None);
    assert_eq!(rows[1].position_status, GainPositionStatus::Open);
}

#[test]
fn first_row_that_cannot_be_built_decides() {
    let start = TradeDate { year: 2026, month: 6, day: 1 };
    let bad = InstrumentRow { conviction: "EXTREME".to_owned(), ..msft() };
    let periods = vec![open_period(), closed_period(bad)];
    assert!(gains_rows(&periods, false, start).expect("no overflow").is_ok());
    let error = gains_rows(&periods, true, start)
        .expect("no overflow")
        .expect_err("unknown conviction");
    assert_eq!(error.status, 500);
}
