use tttb_backend::history::{history_reads, value_history_instrument, HistoryReads};
use tttb_backend::decimal::DecimalNum;
use tttb_backend::fx_rates::{value_history_fx_candidate, FxProvider, FxRateRow};
use tttb_backend::instruments::InstrumentRow;
use tttb_backend::prices::{price_candidate, PriceRow};
use tttb_backend::provider_symbols::MarketDataProvider;
use tttb_backend::transactions::TradeDate;

fn instrument() -> InstrumentRow {
    InstrumentRow {
        id: 7,
        symbol: "VOLV B".to_owned(),
        exchange: "XSTO".to_owned(),
        name: "Volvo B".to_owned(),
        kind: "STOCK".to_owned(),
        currency: "SEK".to_owned(),
        isin: None,
        conviction: "LOW".to_owned(),
    }
}

fn close_row(date: &str, close: &str, currency: &str) -> PriceRow {
    PriceRow {
        id: 21,
        instrument_id: 7,
        provider: MarketDataProvider::Yahoo,
        provider_symbol: "VOLV-B.ST".to_owned(),
        date: date.to_owned(),
        close: close.to_owned(),
        currency: currency.to_owned(),
        fetched_at: "2026-06-16T08:00:00Z".to_owned(),
    }
}

#[test]
fn price_candidate_decodes_date_and_close() {
    let candidate = price_candidate("price-history", &instrument(), close_row("2026-06-12", "251.40", "SEK"))
        .expect("decodes");
    assert_eq!(candidate.date, TradeDate { year: 2026, month: 6, day: 12 });
    assert_eq!(candidate.close, DecimalNum { mantissa: 25140, scale: 2 });
    assert_eq!(candidate.currency, "SEK");
}

#[test]
fn price_candidate_keeps_a_row_in_another_currency() {
    let candidate = price_candidate("price-history", &instrument(), close_row("2026-06-12", "25", "usd"))
        .expect("still taken");
    assert_eq!(candidate.currency, "usd");
}

#[test]
fn price_candidate_rejects_an_undecodable_date_first() {
    let error = price_candidate("price-history", &instrument(), close_row("12/06/2026", "abc", "SEK"))
        .expect_err("bad date");
    assert_eq!(error.status, 500);
    assert_eq!(error.code, "internal_error");
    assert!(error
        .message
        .starts_with("price-history: undecodable date in price row 21 for instrument 7: "));
}

#[test]
fn price_candidate_rejects_an_undecodable_close() {
    let error = price_candidate("price-history", &instrument(), close_row("2026-06-12", "abc", "SEK"))
        .expect_err("bad close");
    assert_eq!(error.status, 500);
    assert!(error
        .message
        .starts_with("price-history: undecodable close in price row 21 for instrument 7: "));
}

#[test]
fn value_history_names_itself_in_price_errors() {
    let error = price_candidate("value-history", &instrument(), close_row("2026-06-12", "1,5", "SEK"))
        .expect_err("bad close");
    assert!(error
        .message
        .starts_with("value-history: undecodable close in price row 21 for instrument 7: "));
}

fn rate_row(date: &str, rate: &str) -> FxRateRow {
    FxRateRow {
        id: 9,
        base: "USD".to_owned(),
        quote: "SEK".to_owned(),
        date: date.to_owned(),
        rate: rate.to_owned(),
        provider: FxProvider::Frankfurter,
        fetched_at: "2026-06-16T08:00:00Z".to_owned(),
    }
}

#[test]
fn value_history_fx_candidate_decodes_a_rate() {
    let candidate = value_history_fx_candidate(rate_row("2026-06-12", "10.5")).expect("decodes");
    assert_eq!(candidate.date, TradeDate { year: 2026, month: 6, day: 12 });
    assert_eq!(candidate.rate, DecimalNum { mantissa: 105, scale: 1 });
    assert_eq!(candidate.base, "USD");
    assert_eq!(candidate.quote, "SEK");
}

#[test]
fn value_history_fx_candidate_rejects_undecodable_rows() {
    let date = value_history_fx_candidate(rate_row("2026/06/12", "x")).expect_err("bad date");
    assert_eq!(date.status, 500);
    assert!(date.message.starts_with("value-history: undecodable date in fx row 9 (USD->SEK): "));
    let rate = value_history_fx_candidate(rate_row("2026-06-12", "x")).expect_err("bad rate");
    assert!(rate.message.starts_with("value-history: undecodable rate in fx row 9 (USD->SEK): "));
}

#[test]
fn value_history_reads_only_what_an_instrument_needs() {
    assert_eq!(history_reads(0, Some(true), "USD"), None);
    assert_eq!(
        history_reads(3, Some(true), "USD"),
        Some(HistoryReads { prices: true, fx_rates: true })
    );
    assert_eq!(
        history_reads(3, Some(false), "sek"),
        Some(HistoryReads { prices: false, fx_rates: false })
    );
    assert_eq!(
        history_reads(1, None, "SEK"),
        Some(HistoryReads { prices: false, fx_rates: false })
    );
}

#[test]
fn value_history_instrument_keeps_rows_in_order_or_reports_the_first_bad_one() {
    let input = value_history_instrument(
        &instrument(),
        Vec::new(),
        vec![close_row("2026-06-11", "250", "SEK"), close_row("2026-06-12", "251.40", "SEK")],
        vec![rate_row("2026-06-12", "10.5")],
    )
    .expect("all rows decode");
    assert_eq!(input.native_currency, "SEK");
    assert_eq!(input.prices.len(), 2);
    assert_eq!(input.prices[1].close, DecimalNum { mantissa: 25140, scale: 2 });
    assert_eq!(input.fx_rates[0].rate, DecimalNum { mantissa: 105, scale: 1 });

    let error = value_history_instrument(
        &instrument(),
        Vec::new(),
        vec![close_row("2026-06-11", "250", "SEK"), close_row("2026-06-12", "x", "SEK")],
        vec![rate_row("bad", "10.5")],
    )
    .expect_err("a close does not decode");
    assert!(error
        .message
        .starts_with("value-history: undecodable close in price row 21 for instrument 7: "));

    let error = value_history_instrument(&instrument(), Vec::new(), Vec::new(), vec![rate_row("bad", "1")])
        .expect_err("a rate does not decode");
    assert!(error.message.starts_with("value-history: undecodable date in fx row 9 (USD->SEK): "));
}
