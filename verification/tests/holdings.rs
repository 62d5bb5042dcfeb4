use tttb_backend::transactions::TradeDate;
use tttb_backend::decimal::DecimalNum;
use tttb_backend::holdings::{
    build_conviction_target, market_value_state, stored_conviction, target_field_response,
    valuation_field, BaseCostBasis, BaseResponse, ConvictionTargetOutput, HoldingResponse,
    MarketValueState, PositionFigures, TargetField, UnavailableReason, ValuedHolding,
    ValuedOpenHolding,
};
use tttb_backend::valuation::{DataFreshness, PriceSnapshot};
use tttb_backend::instruments::{ConvictionDto, ConvictionLevel, InstrumentRow};
use tttb_backend::valuation::{Availability, AvailabilityResponse, ValuationReason};

fn d(mantissa: i128, scale: u32) -> DecimalNum {
    DecimalNum { mantissa, scale }
}

fn value(r: &AvailabilityResponse) -> &str {
    match r {
        AvailabilityResponse::Available { value } => value.as_str(),
        AvailabilityResponse::Unavailable { .. } => panic!("expected an available figure"),
    }
}

fn reasons(r: &AvailabilityResponse) -> Vec<String> {
    match r {
        AvailabilityResponse::Available { .. } => panic!("expected an unavailable figure"),
        AvailabilityResponse::Unavailable { reasons } => reasons.clone(),
    }
}

fn msft() -> InstrumentRow {
    InstrumentRow {
        id: 3,
        symbol: "MSFT".to_owned(),
        exchange: "NASDAQ".to_owned(),
        name: "Microsoft".to_owned(),
        kind: "STOCK".to_owned(),
        currency: "USD".to_owned(),
        isin: None,
        conviction: "MEDIUM".to_owned(),
    }
}

fn target(status: &'static str) -> ConvictionTargetOutput {
    ConvictionTargetOutput {
        conviction: ConvictionLevel::Low,
        status,
        target_value: TargetField::Available(d(10000000, 2)),
        target_gap: TargetField::Available(d(0, 0)),
        target_gap_percent: TargetField::Available(d(123456, 4)),
    }
}

#[test]
fn holding_reports_weighted_average_and_base_cost() {
    let position = PositionFigures {
        quantity: 10,
        cost_basis_native: d(12500, 2),
        average_cost_native: Some(d(1250, 2)),
        base: BaseCostBasis::Available {
            cost_basis_base: d(125960, 2),
            fee_component_base: d(960, 2),
        },
        average_cost_base: Some(d(12596, 2)),
    };
    let conviction_target = build_conviction_target(&target("on_target"), &[]);
    let h = HoldingResponse::build(&msft(), &position, None, conviction_target).expect("built");
    assert_eq!(h.quantity, 10);
    assert_eq!(h.average_cost_native, "12.50");
    assert_eq!(h.cost_basis_native, "125.00");
    assert_eq!(h.instrument.symbol, "MSFT");
    match h.base {
        BaseResponse::Available { cost_basis_base, average_cost_base, fee_component_base } => {
            assert_eq!(cost_basis_base, "1259.60");
            assert_eq!(average_cost_base, "125.96");
            assert_eq!(fee_component_base, "9.60");
        }
        BaseResponse::Unavailable { .. } => panic!("expected an available base"),
    }
    assert!(h.valuation.is_none());
}

#[test]
fn missing_fx_reports_unavailable_base_with_reason() {
    let position = PositionFigures {
        quantity: 5,
        cost_basis_native: d(3000, 0),
        average_cost_native: Some(d(600, 0)),
        base: BaseCostBasis::Unavailable {
            reasons: vec![UnavailableReason::MissingFx { transaction_id: 17 }],
        },
        average_cost_base: None,
    };
    let h = HoldingResponse::build(&msft(), &position, None, build_conviction_target(&target("below"), &[]))
        .expect("built");
    assert_eq!(h.average_cost_native, "600.00");
    match h.base {
        BaseResponse::Unavailable { reasons } => {
            assert_eq!(reasons.len(), 1);
            assert_eq!(reasons[0].code, "missing_fx");
            assert_eq!(reasons[0].transaction_id, 17);
        }
        BaseResponse::Available { .. } => panic!("expected an unavailable base"),
    }
}

#[test]
fn inconsistent_positions_are_internal_errors() {
    let mut position = PositionFigures {
        quantity: 0,
        cost_basis_native: d(0, 0),
        average_cost_native: None,
        base: BaseCostBasis::Available { cost_basis_base: d(0, 0), fee_component_base: d(0, 0) },
        average_cost_base: None,
    };
    let e = HoldingResponse::build(&msft(), &position, None, build_conviction_target(&target("x"), &[]))
        .expect_err("no average");
    assert_eq!(e.message, "holding with non-positive quantity");
    position.average_cost_native = Some(d(1, 0));
    let e = HoldingResponse::build(&msft(), &position, None, build_conviction_target(&target("x"), &[]))
        .expect_err("no base average");
    assert_eq!(e.message, "available base without average");
}

#[test]
fn conviction_target_formats_value_gap_and_percent() {
    let t = build_conviction_target(&target("above"), &[]);
    assert_eq!(t.conviction, ConvictionDto::Low);
    assert_eq!(t.status, "above");
    assert_eq!(value(&t.target_value_base), "100000.00");
    assert_eq!(value(&t.target_gap_base), "0.00");
    assert_eq!(value(&t.target_gap_percent), "12.34");
}

#[test]
fn unavailable_target_carries_the_valuation_reasons() {
    let output = ConvictionTargetOutput {
        conviction: ConvictionLevel::Medium,
        status: "excluded_unavailable",
        target_value: TargetField::Unavailable(vec!["valuation_unavailable".to_owned()]),
        target_gap: TargetField::Unavailable(vec!["valuation_unavailable".to_owned()]),
        target_gap_percent: TargetField::Unavailable(vec!["valuation_unavailable".to_owned()]),
    };
    let t = build_conviction_target(&output, &[ValuationReason::MissingPrice]);
    assert_eq!(
        reasons(&t.target_value_base),
        vec!["valuation_unavailable".to_owned(), "missing_price".to_owned()]
    );
    assert_eq!(t.status, "excluded_unavailable");
}

#[test]
fn target_field_uses_the_given_format() {
    let r = target_field_response(&TargetField::Available(d(5, 0)), &[], |v: DecimalNum| {
        format!("v{}", v.mantissa)
    });
    assert_eq!(value(&r), "v5");
    let r = target_field_response(
        &TargetField::Unavailable(vec!["no_target".to_owned()]),
        &["stale_price_3_days".to_owned()],
        |v: DecimalNum| format!("{}", v.mantissa),
    );
    assert_eq!(reasons(&r), vec!["no_target".to_owned(), "stale_price_3_days".to_owned()]);
}

#[test]
fn market_value_state_follows_the_valuation() {
    let available = Availability::Available(d(100, 0));
    let (state, why) = market_value_state(Some(&available));
    assert_eq!(state, MarketValueState::Available(d(100, 0)));
    assert!(why.is_empty());
    let unavailable: Availability<DecimalNum> =
        Availability::Unavailable { reasons: vec![ValuationReason::MissingFx] };
    let (state, why) = market_value_state(Some(&unavailable));
    assert_eq!(state, MarketValueState::Unavailable);
    assert_eq!(why, vec![ValuationReason::MissingFx]);
    let (state, why) = market_value_state(None);
    assert_eq!(state, MarketValueState::MappingDisabled);
    assert!(why.is_empty());
}

#[test]
fn stored_conviction_names_unknown_values() {
    assert_eq!(stored_conviction(&msft()).expect("known"), ConvictionLevel::Medium);
    let mut row = msft();
    row.conviction = "EXTREME".to_owned();
    let e = stored_conviction(&row).expect_err("unknown");
    assert_eq!(e.message, "stored unknown conviction \"EXTREME\" for instrument 3");
}

#[test]
fn valuation_block_formats_amounts_and_percent() {
    let f = valuation_field(
        &Availability::Available(d(100000, 2)),
        &Availability::Available(d(-5, 1)),
        &Availability::Available(d(-504, 3)),
        &Availability::Unavailable { reasons: vec![ValuationReason::MissingPreviousClose] },
    );
    assert_eq!(value(&f.market_value_base), "1000.00");
    assert_eq!(value(&f.unrealized_gain_base), "-0.50");
    assert_eq!(value(&f.unrealized_gain_percent), "-0.50");
    assert_eq!(reasons(&f.day_change_base), vec!["missing_previous_close".to_owned()]);
}

fn valued(close: i128, market_value: Availability<DecimalNum>) -> ValuedOpenHolding {
    ValuedOpenHolding {
        instrument: msft(),
        quantity: 7,
        conviction: ConvictionLevel::High,
        valuation: Some(ValuedHolding {
            quantity: 7,
            cost_basis_native: d(0, 0),
            cost_basis_base: Availability::Available(d(0, 0)),
            fee_component_base: Availability::Available(d(0, 0)),
            price_effect_base: Availability::Available(d(0, 0)),
            fx_effect_base: Availability::Available(d(0, 0)),
            market_value_native: Availability::Available(d(0, 0)),
            market_value_base: market_value,
            unrealized_gain_base: Availability::Available(d(0, 0)),
            unrealized_gain_percent: Availability::Available(d(0, 0)),
            day_change_base: Availability::Available(d(0, 0)),
            day_change_percent: Availability::Available(d(0, 0)),
            previous_price: None,
            previous_fx: None,
            reasons: Vec::new(),
            latest_price: Some(PriceSnapshot {
                date: TradeDate { year: 2026, month: 6, day: 12 },
                close: d(close, 2),
                currency: "USD".to_owned(),
                source: "cached".to_owned(),
                freshness: DataFreshness::Fresh,
            }),
            latest_fx: None,
        }),
    }
}

#[test]
fn valued_holding_feeds_the_conviction_targets() {
    let h = valued(12345, Availability::Available(d(86415, 1)));
    assert_eq!(h.market_value_state(), MarketValueState::Available(d(86415, 1)));
    assert!(h.market_value_reasons().is_empty());
    assert!(h.has_positive_price());
    assert!(h.latest_fx_snapshot().is_none());
    assert_eq!(h.latest_price_snapshot().expect("price").close, d(12345, 2));
    let input = h.conviction_target_input();
    assert_eq!(input.instrument_id, 3);
    assert_eq!(input.conviction, ConvictionLevel::High);
    assert_eq!(input.open_quantity, 7);
    assert!(input.has_positive_price);

    let zero = valued(0, Availability::Unavailable { reasons: vec![ValuationReason::MissingFx] });
    assert_eq!(zero.market_value_state(), MarketValueState::Unavailable);
    assert_eq!(zero.market_value_reasons(), vec![ValuationReason::MissingFx]);
    assert!(!zero.has_positive_price());

    let unmapped = ValuedOpenHolding { valuation: None, ..valued(1, Availability::Available(d(1, 0))) };
    assert_eq!(unmapped.market_value_state(), MarketValueState::MappingDisabled);
    assert!(unmapped.latest_price_snapshot().is_none());
    assert!(!unmapped.conviction_target_input().has_positive_price);
}
