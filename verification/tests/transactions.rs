use tttb_backend::decimal::DecimalNum;
use tttb_backend::transactions::{
    candidate_ledger, LedgerTransaction, TradeDate, TransactionInput, TransactionKind,
    TransactionKindDto,
};

fn tx(id: i64, year: i32, month: u32, day: u32) -> LedgerTransaction {
    LedgerTransaction {
        id,
        trade_date: TradeDate { year, month, day },
        kind: TransactionKind::Buy,
        quantity: 1,
        price: Some(DecimalNum { mantissa: 100, scale: 0 }),
        dividend_per_share: None,
        fx_rate_to_base: None,
        brokerage_base: DecimalNum { mantissa: 0, scale: 0 },
    }
}

fn ids(ledger: &[LedgerTransaction]) -> Vec<i64> {
    ledger.iter().map(|t| t.id).collect()
}

#[test]
fn candidate_ledgers_replay_in_date_then_id_order() {
    let stored = vec![tx(3, 2026, 1, 5), tx(1, 2026, 1, 5), tx(2, 2025, 12, 31)];
    assert_eq!(ids(&candidate_ledger(&stored, None, None)), vec![2, 1, 3]);

    let edited = tx(1, 2026, 2, 1);
    assert_eq!(ids(&candidate_ledger(&stored, Some(1), Some(edited))), vec![2, 3, 1]);
    assert_eq!(ids(&candidate_ledger(&stored, Some(3), None)), vec![2, 1]);
    let prospective = tx(i64::MAX, 2026, 1, 5);
    assert_eq!(ids(&candidate_ledger(&stored, None, Some(prospective))), vec![2, 1, 3, i64::MAX]);
}

#[test]
fn transaction_bodies_are_checked_field_by_field() {
    let body = TransactionInput {
        instrument_id: 1,
        kind: TransactionKindDto::Buy,
        trade_date: " 2026-03-05 ".into(),
        quantity: 10,
        price: Some(" 12.50 ".into()),
        dividend_per_share: None,
        currency: Some(" USD ".into()),
        fx_rate_to_base: Some("".into()),
        brokerage: None,
        note: Some("  ".into()),
    };
    let proposed = body.proposed().expect("valid body");
    assert_eq!(proposed.trade_date, TradeDate { year: 2026, month: 3, day: 5 });
    assert_eq!(proposed.price, Some(DecimalNum { mantissa: 1250, scale: 2 }));
    assert_eq!(proposed.fx_rate_to_base, None);
    assert_eq!(proposed.currency.as_deref(), Some("USD"));
    assert_eq!(body.note(), None);

    let mut bad = body.clone();
    bad.price = Some("twelve".into());
    let error = bad.proposed().expect_err("bad price");
    assert_eq!(error.code, "invalid_decimal");
    assert_eq!(error.message, "price is not a valid decimal: \"twelve\"");

    let mut bad_date = body.clone();
    bad_date.trade_date = "05/03/2026".into();
    assert_eq!(bad_date.proposed().expect_err("bad date").code, "invalid_date");
}
