use tttb_backend::decimal::DecimalNum;
use tttb_backend::instruments::InstrumentRow;
use tttb_backend::rebalance::{
    parse_amount, rebalance_response, PlannedTrade, PreparedCandidate, RebalanceLadder,
    RebalancePlanResponse, RebalanceRung, RebalanceTradeSideResponse, TradeSide,
    UntradedCandidate,
};
use tttb_backend::valuation::DataFreshness;

fn d(mantissa: i128, scale: u32) -> DecimalNum {
    DecimalNum { mantissa, scale }
}

fn instrument(id: i64, symbol: &str, kind: &str) -> InstrumentRow {
    InstrumentRow {
        id,
        symbol: symbol.to_owned(),
        exchange: "STO".to_owned(),
        name: symbol.to_owned(),
        kind: kind.to_owned(),
        currency: "SEK".to_owned(),
        isin: None,
        conviction: "HIGH".to_owned(),
    }
}

fn prepared() -> Vec<PreparedCandidate> {
    vec![
        PreparedCandidate {
            instrument: instrument(1, "AAA", "STOCK"),
            price_freshness: DataFreshness::Fresh,
            fx_freshness: DataFreshness::MinorStale { trading_days: 2 },
        },
        PreparedCandidate {
            instrument: instrument(2, "BBB", "ETF"),
            price_freshness: DataFreshness::WarningStale { trading_days: 6 },
            fx_freshness: DataFreshness::MinorStale { trading_days: 9 },
        },
    ]
}

fn rung(trades: Vec<PlannedTrade>, untraded: Vec<UntradedCandidate>) -> RebalanceRung {
    RebalanceRung {
        selected_count: 2,
        effective_trade_count: trades.len(),
        trades,
        untraded,
        achieved_net_base: d(99950, 2),
        residual_base: d(50, 2),
        coverage_percent: Some(d(999500, 4)),
    }
}

fn trade(id: i64, side: TradeSide) -> PlannedTrade {
    PlannedTrade { instrument_id: id, side, shares: 4, price_base: d(12345, 2), amount_base: d(49380, 2) }
}

#[test]
fn amount_is_required_and_must_be_a_decimal() {
    let missing = parse_amount(None).expect_err("required");
    assert_eq!(missing.status, 400);
    assert_eq!(missing.code, "invalid_amount");
    assert_eq!(missing.message, "amount query parameter is required");
    let bad = parse_amount(Some("lots")).expect_err("not a decimal");
    assert_eq!(bad.code, "invalid_amount");
    assert_eq!(bad.message, "amount must be a decimal");
    assert_eq!(parse_amount(Some(" -1000.5 ")).expect("trimmed"), d(-10005, 1));
}

#[test]
fn ladder_is_reported_rung_by_rung() {
    let ladder = RebalanceLadder {
        pool_value_base: d(1000000, 1),
        candidate_count: 2,
        rungs: vec![rung(
            vec![trade(1, TradeSide::Buy), trade(2, TradeSide::Sell)],
            vec![UntradedCandidate { instrument_id: 2, reason: "below_minimum".to_owned() }],
        )],
    };
    let response = rebalance_response(d(1000, 0), &Ok(ladder), &prepared()).expect("reported");
    assert_eq!(response.amount_base, "1000.00");
    assert_eq!(response.base_currency, "SEK");
    match response.plan {
        RebalancePlanResponse::Available { pool_value_base, candidate_count, rungs } => {
            assert_eq!(pool_value_base, "100000.00");
            assert_eq!(candidate_count, 2);
            assert_eq!(rungs.len(), 1);
            let r = &rungs[0];
            assert_eq!(r.selected_count, 2);
            assert_eq!(r.effective_trade_count, 2);
            assert_eq!(r.achieved_net_base, "999.50");
            assert_eq!(r.residual_base, "0.50");
            assert_eq!(r.coverage_percent.as_deref(), Some("99.95"));
            assert_eq!(r.trades[0].instrument.symbol, "AAA");
            assert_eq!(r.trades[0].side, RebalanceTradeSideResponse::Buy);
            assert_eq!(r.trades[0].shares, 4);
            assert_eq!(r.trades[0].price_base, "123.45");
            assert_eq!(r.trades[0].amount_base, "493.80");
            assert_eq!(r.trades[0].freshness, "minor_stale_2_days");
            assert_eq!(r.trades[1].side, RebalanceTradeSideResponse::Sell);
            assert_eq!(r.trades[1].freshness, "warning_stale_6_days");
            assert_eq!(r.untraded[0].instrument.symbol, "BBB");
            assert_eq!(r.untraded[0].reason, "below_minimum");
        }
        RebalancePlanResponse::Unavailable { .. } => panic!("expected a plan"),
    }
}

#[test]
fn no_ladder_reports_the_plan_unavailable() {
    let response =
        rebalance_response(d(5, 1), &Err("empty_pool".to_owned()), &prepared()).expect("reported");
    assert_eq!(response.amount_base, "0.50");
    match response.plan {
        RebalancePlanResponse::Unavailable { reasons } => {
            assert_eq!(reasons, vec!["empty_pool".to_owned()]);
        }
        RebalancePlanResponse::Available { .. } => panic!("expected no plan"),
    }
}

#[test]
fn trade_without_prepared_candidate_is_an_internal_error() {
    let ladder = RebalanceLadder {
        pool_value_base: d(1, 0),
        candidate_count: 1,
        rungs: vec![rung(vec![trade(1, TradeSide::Buy), trade(42, TradeSide::Buy)], Vec::new())],
    };
    let error = rebalance_response(d(1, 0), &Ok(ladder), &prepared()).expect_err("missing");
    assert_eq!(error.status, 500);
    assert_eq!(error.message, "rebalance response lookup missing candidate for instrument 42");
}

#[test]
fn undecodable_instrument_is_an_internal_error() {
    let mut candidates = prepared();
    candidates[0].instrument.kind = "BOND".to_owned();
    let ladder = RebalanceLadder {
        pool_value_base: d(1, 0),
        candidate_count: 1,
        rungs: vec![rung(vec![trade(1, TradeSide::Buy)], Vec::new())],
    };
    let error = rebalance_response(d(1, 0), &Ok(ladder), &candidates).expect_err("bad row");
    assert_eq!(error.status, 500);
    assert_eq!(error.message, "stored unknown instrument type \"BOND\"");
}
