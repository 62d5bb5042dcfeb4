use tttb_backend::error::{ErrorDetails, RepoError};
use tttb_backend::instruments::{
    conviction_changes, deletion_check, instrument_responses, new_instrument_from,
    resolve_after_unique_violation, resolve_existing, ConvictionChange, ConvictionDto,
    CreateInstrument, InstrumentKindDto, InstrumentResponse, InstrumentRow, NewInstrument,
    UpdateConvictions, UpsertDecision,
};

fn row(id: i64, isin: Option<&str>) -> InstrumentRow {
    InstrumentRow {
        id,
        symbol: "MSFT".into(),
        exchange: "NASDAQ".into(),
        name: "Microsoft".into(),
        kind: "STOCK".into(),
        currency: "USD".into(),
        isin: isin.map(str::to_owned),
        conviction: "HIGH".into(),
    }
}

fn new(isin: Option<&str>) -> NewInstrument {
    NewInstrument {
        symbol: "MSFT".into(),
        exchange: "NASDAQ".into(),
        name: "Microsoft".into(),
        kind: "STOCK".into(),
        currency: "USD".into(),
        isin: isin.map(str::to_owned),
    }
}

#[test]
fn stored_rows_become_responses() {
    let response = InstrumentResponse::from_row(&row(1, None)).expect("known row");
    assert_eq!(response.kind, InstrumentKindDto::Stock);
    assert_eq!(response.conviction, ConvictionDto::High);
    let mut bad = row(2, None);
    bad.kind = "BOND".into();
    let error = InstrumentResponse::from_row(&bad).expect_err("unknown kind");
    assert_eq!(error.status, 500);
    assert_eq!(error.message, "stored unknown instrument type \"BOND\"");
    assert!(instrument_responses(&vec![row(1, None), bad]).is_err());
    assert_eq!(instrument_responses(&vec![row(1, None), row(3, None)]).expect("all known").len(), 2);
}

#[test]
fn create_requests_are_trimmed_and_validated() {
    let body = CreateInstrument {
        symbol: " msft ".into(),
        exchange: " nasdaq".into(),
        name: "Microsoft ".into(),
        kind: InstrumentKindDto::Etf,
        currency: "USD".into(),
        isin: Some(" us5949181045 ".into()),
    };
    let new = new_instrument_from(&body).expect("valid");
    assert_eq!(new.symbol, "msft");
    assert_eq!(new.exchange, "NASDAQ");
    assert_eq!(new.kind, "ETF");
    assert_eq!(new.isin.as_deref(), Some("US5949181045"));
    let mut blank = body.clone();
    blank.name = "   ".into();
    assert_eq!(new_instrument_from(&blank).expect_err("blank").code, "invalid_instrument");
}

#[test]
fn upserts_resolve_identity_by_isin_then_symbol() {
    assert!(matches!(resolve_existing(&new(None), None, None), Ok(UpsertDecision::Insert)));
    assert!(matches!(
        resolve_existing(&new(Some("US1")), None, Some(row(4, None))),
        Ok(UpsertDecision::BackfillIsin(4))
    ));
    assert!(matches!(
        resolve_existing(&new(Some("US1")), None, Some(row(4, Some("US1")))),
        Ok(UpsertDecision::Existing(r)) if r.id == 4
    ));
    match resolve_existing(&new(Some("US1")), None, Some(row(4, Some("US2")))) {
        Err(RepoError::Decode(message)) => assert_eq!(
            message,
            "instrument identity conflict for NASDAQ/MSFT: stored isin US2 differs from requested US1"
        ),
        other => panic!("unexpected {other:?}"),
    }
    match resolve_existing(&new(Some("US1")), Some(row(5, Some("US1"))), Some(row(4, None))) {
        Err(RepoError::Decode(message)) => assert_eq!(
            message,
            "instrument identity conflict for NASDAQ/MSFT: ISIN lookup id 5 differs from symbol lookup id 4"
        ),
        other => panic!("unexpected {other:?}"),
    }
    assert!(matches!(
        resolve_after_unique_violation(&new(None), None, None),
        Err(RepoError::Decode(m)) if m == "instrument unique violation but no matching row was found"
    ));
}

#[test]
fn only_empty_instruments_are_deletable() {
    assert!(deletion_check(3, 0, 0).is_ok());
    let error = deletion_check(3, 2, 5).expect_err("has rows");
    assert_eq!(error.status, 409);
    assert!(matches!(
        error.details,
        Some(ErrorDetails::NotDeletable { instrument_id: 3, reason: "has_transactions", transactions: 2, quantity: 5 })
    ));
    assert!(matches!(
        deletion_check(3, 0, 1).expect_err("position").details,
        Some(ErrorDetails::NotDeletable { reason: "nonzero_quantity", .. })
    ));
}

#[test]
fn batch_conviction_changes_use_stored_names() {
    let body = UpdateConvictions {
        changes: vec![
            ConvictionChange { instrument_id: 1, conviction: ConvictionDto::Low },
            ConvictionChange { instrument_id: 2, conviction: ConvictionDto::Other },
        ],
    };
    assert_eq!(
        conviction_changes(&body),
        vec![(1, "LOW".to_string()), (2, "OTHER".to_string())]
    );
}

#[test]
fn identity_conflict_names_both_isins() {
    match tttb_backend::instruments::identity_conflict("NASDAQ", "MSFT", "US1", "US2") {
        RepoError::Decode(m) => assert_eq!(
            m,
            "instrument identity conflict for NASDAQ/MSFT: stored isin US1 differs from requested US2"
        ),
    }
}

#[test]
fn new_mappings_are_enabled_by_default() {
    assert!(tttb_backend::provider_symbols::default_enabled());
}
