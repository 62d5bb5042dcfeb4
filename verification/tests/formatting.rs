use tttb_backend::transactions::TradeDate;
use tttb_backend::decimal::DecimalNum;
use tttb_backend::gains::percent_of;
use tttb_backend::history::{price_point_response, value_history_point};
use tttb_backend::valuation::{
    fx_snapshot_response, price_snapshot_response, serialize_freshness, staler_freshness,
    Availability, AvailabilityResponse, DataFreshness, FxSnapshot, PriceSnapshot,
};

fn d(mantissa: i128, scale: u32) -> DecimalNum {
    DecimalNum { mantissa, scale }
}

fn fx_rate_text(rate: DecimalNum) -> String {
    fx_snapshot_response(&FxSnapshot {
        date: TradeDate { year: 2026, month: 6, day: 1 },
        rate,
        base: "USD".to_owned(),
        quote: "SEK".to_owned(),
        freshness: DataFreshness::Fresh,
    })
    .rate
}

fn close_text(close: DecimalNum) -> String {
    let day = TradeDate { year: 2026, month: 6, day: 1 };
    price_point_response(day, close, &Availability::Available(d(0, 0)), None).close
}

#[test]
fn fx_rates_keep_every_stored_digit() {
    assert_eq!(fx_rate_text(d(1005, 2)), "10.05");
    assert_eq!(fx_rate_text(d(11, 0)), "11");
    assert_eq!(fx_rate_text(d(-5, 3)), "-0.005");
    assert_eq!(fx_rate_text(d(0, 2)), "0.00");
}

#[test]
fn price_history_closes_drop_trailing_zeros() {
    assert_eq!(close_text(d(31000, 4)), "3.1");
    assert_eq!(close_text(d(1200, 2)), "12");
    assert_eq!(close_text(d(0, 3)), "0");
    assert_eq!(close_text(d(-1250, 3)), "-1.25");
}

#[test]
fn percentages_are_cut_to_two_places_not_rounded() {
    assert_eq!(percent_of(&d(12345, 3)), "12.34");
    assert_eq!(percent_of(&d(12999, 3)), "12.99");
    assert_eq!(percent_of(&d(75, 1)), "7.50");
    assert_eq!(percent_of(&d(3, 0)), "3.00");
    assert_eq!(percent_of(&d(-1, 3)), "-0.00");
    assert_eq!(percent_of(&d(-1234, 2)), "-12.34");
}

#[test]
fn snapshots_render_date_amount_and_freshness() {
    let price = PriceSnapshot {
        date: TradeDate { year: 2026, month: 6, day: 12 },
        close: d(120, 0),
        currency: "USD".to_owned(),
        source: "cached".to_owned(),
        freshness: DataFreshness::MinorStale { trading_days: 2 },
    };
    let r = price_snapshot_response(&price);
    assert_eq!(r.date, "2026-06-12");
    assert_eq!(r.close, "120.00");
    assert_eq!(r.currency, "USD");
    assert_eq!(r.source, "cached");
    assert_eq!(r.freshness, "minor_stale_2_days");

    let fx = FxSnapshot {
        date: TradeDate { year: 2026, month: 6, day: 11 },
        rate: d(11, 0),
        base: "USD".to_owned(),
        quote: "SEK".to_owned(),
        freshness: DataFreshness::Fresh,
    };
    let r = fx_snapshot_response(&fx);
    assert_eq!(r.date, "2026-06-11");
    assert_eq!(r.rate, "11");
    assert_eq!(r.quote, "SEK");
    assert_eq!(r.freshness, "fresh");
}

#[test]
fn the_staler_freshness_wins_and_left_wins_ties() {
    let fresh = DataFreshness::Fresh;
    let minor = DataFreshness::MinorStale { trading_days: 9 };
    let warning = DataFreshness::WarningStale { trading_days: 2 };
    assert_eq!(staler_freshness(fresh, minor), minor);
    assert_eq!(staler_freshness(warning, minor), warning);
    assert_eq!(staler_freshness(minor, DataFreshness::MinorStale { trading_days: 3 }), minor);
    assert_eq!(serialize_freshness(staler_freshness(minor, warning)), "warning_stale_2_days");
}

#[test]
fn price_history_point_keeps_full_precision() {
    let day = TradeDate { year: 2026, month: 6, day: 12 };
    let rate_day = TradeDate { year: 2026, month: 6, day: 11 };
    let p = price_point_response(
        day,
        d(1234500, 4),
        &Availability::Available(d(1357950, 4)),
        Some((d(110000, 4), rate_day)),
    );
    assert_eq!(p.date, "2026-06-12");
    assert_eq!(p.close, "123.45");
    match p.close_base {
        AvailabilityResponse::Available { value } => assert_eq!(value, "135.80"),
        AvailabilityResponse::Unavailable { .. } => panic!("expected a base close"),
    }
    let fx = p.fx.expect("fx applied");
    assert_eq!(fx.rate, "11");
    assert_eq!(fx.date, "2026-06-11");

    let v = value_history_point(day, d(-5, 3), true, 2, 1);
    assert_eq!(v.date, "2026-06-12");
    assert_eq!(v.value_base, "0.00");
    assert!(v.incomplete);
    assert_eq!((v.included_count, v.excluded_count), (2, 1));
}

#[test]
fn dates_outside_four_digit_years_carry_a_sign() {
    let far = TradeDate { year: 10000, month: 1, day: 2 };
    let early = TradeDate { year: 5, month: 11, day: 30 };
    let before_era = TradeDate { year: -44, month: 3, day: 15 };
    let snapshot = |date| PriceSnapshot {
        date,
        close: d(1, 0),
        currency: "SEK".to_owned(),
        source: "cached".to_owned(),
        freshness: DataFreshness::Fresh,
    };
    assert_eq!(price_snapshot_response(&snapshot(far)).date, "+10000-01-02");
    assert_eq!(price_snapshot_response(&snapshot(early)).date, "0005-11-30");
    assert_eq!(price_snapshot_response(&snapshot(before_era)).date, "-0044-03-15");
}
