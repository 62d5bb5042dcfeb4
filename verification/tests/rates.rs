use tttb_backend::transactions::TradeDate;
use tttb_backend::decimal::DecimalNum;
use tttb_backend::error::RepoError;
use tttb_backend::fx_rates::{fx_candidate, FxProvider, FxRateRow};

fn stored(date: &str, rate: &str) -> FxRateRow {
    FxRateRow {
        id: 4,
        base: "USD".to_owned(),
        quote: "SEK".to_owned(),
        date: date.to_owned(),
        rate: rate.to_owned(),
        provider: FxProvider::Frankfurter,
        fetched_at: "2026-06-16T08:00:00Z".to_owned(),
    }
}

fn message(error: RepoError) -> String {
    match error {
        RepoError::Decode(m) => m,
    }
}

#[test]
fn stored_rate_and_date_decode() {
    let row = stored("2026-06-10", "10.05");
    assert_eq!(row.rate_decimal().expect("rate"), DecimalNum { mantissa: 1005, scale: 2 });
    assert_eq!(row.date_value().expect("date"), TradeDate { year: 2026, month: 6, day: 10 });
}

#[test]
fn bad_stored_rate_and_date_are_decode_errors() {
    let row = stored("June 10", "ten");
    assert!(message(row.rate_decimal().expect_err("bad rate")).starts_with("bad fx rate \"ten\": "));
    assert!(message(row.date_value().expect_err("bad date")).starts_with("bad fx date \"June 10\": "));
}

#[test]
fn candidate_keeps_pair_and_skips_undecodable_rows() {
    let candidate = fx_candidate(stored("2026-06-12", "10.22")).expect("decodes");
    assert_eq!(candidate.rate, DecimalNum { mantissa: 1022, scale: 2 });
    assert_eq!(candidate.date, TradeDate { year: 2026, month: 6, day: 12 });
    assert_eq!(candidate.base, "USD");
    assert_eq!(candidate.quote, "SEK");
    assert!(fx_candidate(stored("2026-06-12", "n/a")).is_none());
    assert!(fx_candidate(stored("2026-13-12", "10.22")).is_none());
}
