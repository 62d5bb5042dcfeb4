use tttb_backend::decimal::DecimalNum;
use tttb_backend::error::RepoError;
use tttb_backend::transactions::{
    instrument_ledgers, parse_stored_decimal, TradeDate, TransactionKind, TransactionRow,
};

fn row(id: i64, instrument_id: i64, kind: &str, date: &str) -> TransactionRow {
    TransactionRow {
        id,
        instrument_id,
        kind: kind.to_owned(),
        trade_date: date.to_owned(),
        quantity: 10,
        price: Some("12.50".to_owned()),
        dividend_per_share: None,
        currency: Some("USD".to_owned()),
        fx_rate_to_base: Some("10.0".to_owned()),
        brokerage: None,
        brokerage_currency: None,
        source_value: None,
        source_currency: None,
        note: None,
        import_batch_id: None,
    }
}

fn day(year: i32, month: u32, day: u32) -> TradeDate {
    TradeDate { year, month, day }
}

fn decode_message(error: RepoError) -> String {
    match error {
        RepoError::Decode(message) => message,
    }
}

#[test]
fn stored_row_becomes_ledger_entry_with_zero_brokerage() {
    let entry = row(7, 1, "BUY", "2026-06-12").to_ledger().expect("decodes");
    assert_eq!(entry.id, 7);
    assert_eq!(entry.kind, TransactionKind::Buy);
    assert_eq!(entry.trade_date, day(2026, 6, 12));
    assert_eq!(entry.quantity, 10);
    assert_eq!(entry.price, Some(DecimalNum { mantissa: 1250, scale: 2 }));
    assert_eq!(entry.dividend_per_share, None);
    assert_eq!(entry.fx_rate_to_base, Some(DecimalNum { mantissa: 100, scale: 1 }));
    assert_eq!(entry.brokerage_base, DecimalNum { mantissa: 0, scale: 0 });
}

#[test]
fn stored_brokerage_is_decoded() {
    let mut stored = row(1, 1, "SELL", "2026-06-12");
    stored.brokerage = Some("9.60".to_owned());
    let entry = stored.to_ledger().expect("decodes");
    assert_eq!(entry.kind, TransactionKind::Sell);
    assert_eq!(entry.brokerage_base, DecimalNum { mantissa: 960, scale: 2 });
}

#[test]
fn unknown_stored_type_is_a_decode_error() {
    let error = row(1, 1, "GIFT", "2026-06-12").to_ledger().expect_err("unknown type");
    assert_eq!(decode_message(error), "unknown transaction type \"GIFT\"");
}

#[test]
fn bad_stored_date_is_a_decode_error_quoting_it() {
    let error = row(1, 1, "BUY", "12/06/2026").to_ledger().expect_err("bad date");
    assert!(decode_message(error).starts_with("bad trade_date \"12/06/2026\": "));
}

#[test]
fn first_bad_stored_decimal_is_reported() {
    let mut stored = row(1, 1, "BUY", "2026-06-12");
    stored.dividend_per_share = Some("x".to_owned());
    stored.brokerage = Some("y".to_owned());
    let error = stored.to_ledger().expect_err("bad decimal");
    assert!(decode_message(error).starts_with("bad decimal \"x\": "));
}

#[test]
fn stored_decimal_absent_stays_absent() {
    assert_eq!(parse_stored_decimal(&None).expect("absent"), None);
    assert_eq!(
        parse_stored_decimal(&Some("-3.25".to_owned())).expect("parses"),
        Some(DecimalNum { mantissa: -325, scale: 2 })
    );
    assert!(parse_stored_decimal(&Some(" 1".to_owned())).is_err());
}

#[test]
fn ledgers_group_rows_by_instrument_and_cut_at_the_end_date() {
    let rows = vec![
        row(1, 5, "BUY", "2026-06-01"),
        row(2, 3, "BUY", "2026-06-02"),
        row(3, 5, "SELL", "2026-06-20"),
        row(4, 9, "BUY", "2026-07-01"),
    ];
    let (full, through) = instrument_ledgers(&rows, day(2026, 6, 15)).expect("decodes");
    let ids = |entries: &Vec<tttb_backend::transactions::LedgerTransaction>| -> Vec<i64> {
        entries.iter().map(|e| e.id).collect()
    };
    assert_eq!(full.len(), 3);
    assert_eq!(ids(&full[&5]), vec![1, 3]);
    assert_eq!(ids(&full[&3]), vec![2]);
    assert_eq!(ids(&full[&9]), vec![4]);
    assert_eq!(through.len(), 2);
    assert_eq!(ids(&through[&5]), vec![1]);
    assert_eq!(ids(&through[&3]), vec![2]);
    assert!(!through.contains_key(&9));
}

#[test]
fn ledgers_keep_trades_on_the_end_date() {
    let rows = vec![row(1, 5, "BUY", "2026-06-15")];
    let (_, through) = instrument_ledgers(&rows, day(2026, 6, 15)).expect("decodes");
    assert_eq!(through[&5].len(), 1);
}

#[test]
fn ledgers_stop_at_the_first_undecodable_row() {
    let rows = vec![
        row(1, 5, "BUY", "2026-06-01"),
        row(2, 5, "LOAN", "2026-06-02"),
        row(3, 5, "BUY", "bad"),
    ];
    let error = instrument_ledgers(&rows, day(2026, 6, 15)).expect_err("second row fails");
    assert_eq!(decode_message(error), "unknown transaction type \"LOAN\"");
}

#[test]
fn trades_after_the_end_do_not_change_the_cut_ledgers() {
    let end = day(2026, 6, 15);
    let rows = vec![row(1, 5, "BUY", "2026-06-01"), row(2, 3, "BUY", "2026-06-15")];
    let (_, before) = instrument_ledgers(&rows, end).expect("decodes");
    let mut more = rows.clone();
    more.push(row(3, 5, "SELL", "2026-06-16"));
    more.push(row(4, 8, "BUY", "2027-01-01"));
    let (full, after) = instrument_ledgers(&more, end).expect("decodes");
    assert_eq!(format!("{before:?}"), format!("{after:?}"));
    assert_eq!(full[&5].len(), 2);
}
