use tttb_backend::error::RepoError;
use tttb_backend::prices::{PriceRow, RawPriceRow};
use tttb_backend::provider_symbols::{
    parse_provider, provider_symbol_update, required_provider_symbol, trimmed,
    MarketDataProvider, ProviderSymbolResponse, ProviderSymbolRow, RawProviderSymbolRow,
    UpdateProviderSymbolRequest,
};
use tttb_backend::decimal::DecimalNum;
use tttb_backend::transactions::TradeDate;

fn body(symbol: &str, currency: Option<&str>, asset_class: Option<&str>) -> UpdateProviderSymbolRequest {
    UpdateProviderSymbolRequest {
        provider_symbol: symbol.into(),
        currency: currency.map(str::to_owned),
        asset_class: asset_class.map(str::to_owned),
        enabled: true,
    }
}

#[test]
fn providers_are_named_in_path_segments() {
    assert_eq!(parse_provider(" yahoo ").expect("known"), MarketDataProvider::Yahoo);
    assert_eq!(parse_provider("nasdaq_nordic").expect("known"), MarketDataProvider::NasdaqNordic);
    let error = parse_provider(" stooq").expect_err("unknown");
    assert_eq!(error.code, "invalid_provider");
    assert_eq!(error.message, "unsupported provider \"STOOQ\"");
}

#[test]
fn nasdaq_mappings_need_asset_class_and_currency() {
    let symbol = required_provider_symbol(&body("  MSFT ", None, None)).expect("symbol");
    assert_eq!(symbol, "MSFT");
    assert_eq!(
        required_provider_symbol(&body("   ", None, None)).expect_err("blank").code,
        "invalid_provider_symbol"
    );

    let yahoo = provider_symbol_update(1, MarketDataProvider::Yahoo, "MSFT".into(), &body("MSFT", None, None), None)
        .expect("yahoo needs neither");
    assert_eq!(yahoo.asset_class, None);
    assert_eq!(yahoo.created_at, yahoo.updated_at);

    let missing_class = provider_symbol_update(
        1,
        MarketDataProvider::NasdaqNordic,
        "VOLV-B".into(),
        &body("VOLV-B", Some("SEK"), Some("  ")),
        None,
    )
    .expect_err("asset class required");
    assert_eq!(missing_class.code, "missing_asset_class");

    let missing_currency = provider_symbol_update(
        1,
        MarketDataProvider::NasdaqNordic,
        "VOLV-B".into(),
        &body("VOLV-B", None, None),
        Some("STOCKS".into()),
    )
    .expect_err("currency required");
    assert_eq!(missing_currency.code, "missing_source_currency");

    let kept = provider_symbol_update(
        1,
        MarketDataProvider::NasdaqNordic,
        "VOLV-B".into(),
        &body("VOLV-B", Some(" SEK "), None),
        Some("STOCKS".into()),
    )
    .expect("stored class kept");
    assert_eq!(kept.asset_class.as_deref(), Some("STOCKS"));
    assert_eq!(kept.currency.as_deref(), Some("SEK"));
    assert_eq!(trimmed(Some(" x ".into())).as_deref(), Some("x"));
}

#[test]
fn stored_rows_decode_their_provider() {
    let raw = RawProviderSymbolRow {
        id: 9,
        instrument_id: 4,
        provider: "YAHOO".into(),
        provider_symbol: "MSFT".into(),
        asset_class: None,
        currency: Some("USD".into()),
        enabled: true,
        created_at: "t0".into(),
        updated_at: "t1".into(),
    };
    let row = ProviderSymbolRow::try_from_raw(raw.clone()).expect("known provider");
    let response = ProviderSymbolResponse::from_row(row);
    assert_eq!(response.provider, "YAHOO");
    let mut unknown = raw;
    unknown.provider = "STOOQ".into();
    match ProviderSymbolRow::try_from_raw(unknown) {
        Err(RepoError::Decode(m)) => {
            assert_eq!(m, "unknown provider-symbol provider \"STOOQ\" in row 9 for instrument 4")
        }
        other => panic!("unexpected {other:?}"),
    }
}

#[test]
fn price_rows_decode_date_and_close() {
    let row = PriceRow::try_from_raw(RawPriceRow {
        id: 1,
        instrument_id: 2,
        provider: "YAHOO".into(),
        provider_symbol: "MSFT".into(),
        date: "2026-06-10".into(),
        close: "10.00".into(),
        currency: "USD".into(),
        fetched_at: "t".into(),
    })
    .expect("decodes");
    assert_eq!(row.date_value().expect("date"), TradeDate { year: 2026, month: 6, day: 10 });
    assert_eq!(row.close_decimal().expect("close"), DecimalNum { mantissa: 1000, scale: 2 });
    let mut bad = row.clone();
    bad.date = "June".into();
    match bad.date_value() {
        Err(RepoError::Decode(m)) => assert!(m.starts_with("bad price date \"June\": ")),
        other => panic!("unexpected {other:?}"),
    }
    bad.close = "ten".into();
    match bad.close_decimal() {
        Err(RepoError::Decode(m)) => assert!(m.starts_with("bad price close \"ten\": ")),
        other => panic!("unexpected {other:?}"),
    }
}
