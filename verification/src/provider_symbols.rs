//! Per-instrument symbols at the market-data providers: the stored row, the
//! update request, and the checks an update goes through.
use vstd::prelude::*;

use crate::calendar::{now_iso8601, rfc3339_utc_text};
use crate::config::{debug_string, debug_text};
use crate::error::{ApiError, RepoError, STATUS_BAD_REQUEST};
use crate::text::{
    append_str, clone_opt, i64_string, int_text, str_eq, trim, trim_string, upper, upper_string,
};

verus! {

/// A market-data provider.
#[derive(Clone, Copy, Debug, PartialEq, Eq, Structural)]
pub enum MarketDataProvider {
    Yahoo,
    NasdaqNordic,
}

pub open spec fn provider_db(p: MarketDataProvider) -> Seq<char> {
    match p {
        MarketDataProvider::Yahoo => "YAHOO"@,
        MarketDataProvider::NasdaqNordic => "NASDAQ_NORDIC"@,
    }
}

pub open spec fn provider_from_db(s: Seq<char>) -> Option<MarketDataProvider> {
    if s == "YAHOO"@ {
        Some(MarketDataProvider::Yahoo)
    } else if s == "NASDAQ_NORDIC"@ {
        Some(MarketDataProvider::NasdaqNordic)
    } else {
        None
    }
}

impl MarketDataProvider {
    pub fn as_str(self) -> (s: &'static str)
        ensures
            s@ == provider_db(self),
    {
        match self {
            MarketDataProvider::Yahoo => "YAHOO",
            MarketDataProvider::NasdaqNordic => "NASDAQ_NORDIC",
        }
    }

    pub fn from_db_str(value: &str) -> (p: Option<Self>)
        ensures
            p == provider_from_db(value@),
    {
        if str_eq(value, "YAHOO") {
            Some(MarketDataProvider::Yahoo)
        } else if str_eq(value, "NASDAQ_NORDIC") {
            Some(MarketDataProvider::NasdaqNordic)
        } else {
            None
        }
    }
}

/// Each provider's stored name reads back as that provider.
pub proof fn lemma_provider_round_trips(p: MarketDataProvider)
    ensures
        provider_from_db(provider_db(p)) == Some(p),
{
    reveal_strlit("YAHOO");
    reveal_strlit("NASDAQ_NORDIC");
    assert("YAHOO"@.len() != "NASDAQ_NORDIC"@.len());
}

/// A provider-symbol row as stored, before its provider is decoded.
#[derive(Clone, Debug)]
pub struct RawProviderSymbolRow {
    pub id: i64,
    pub instrument_id: i64,
    pub provider: String,
    pub provider_symbol: String,
    pub asset_class: Option<String>,
    pub currency: Option<String>,
    pub enabled: bool,
    pub created_at: String,
    pub updated_at: String,
}

/// A provider-symbol mapping.
#[derive(Clone, Debug)]
pub struct ProviderSymbolRow {
    pub id: i64,
    pub instrument_id: i64,
    pub provider: MarketDataProvider,
    pub provider_symbol: String,
    pub asset_class: Option<String>,
    pub currency: Option<String>,
    pub enabled: bool,
    pub created_at: String,
    pub updated_at: String,
}

/// Fields of a mapping to store.
#[derive(Clone, Debug)]
pub struct NewProviderSymbol {
    pub instrument_id: i64,
    pub provider: MarketDataProvider,
    pub provider_symbol: String,
    pub asset_class: Option<String>,
    pub currency: Option<String>,
    pub enabled: bool,
    pub created_at: String,
    pub updated_at: String,
}

impl ProviderSymbolRow {
    /// Decodes a stored row; an unknown provider is a decode error naming it,
    /// the row and the instrument.
    pub fn try_from_raw(row: RawProviderSymbolRow) -> (r: Result<Self, RepoError>)
        ensures
            match provider_from_db(row.provider@) {
                Some(p) => r matches Ok(out) && out.id == row.id && out.instrument_id
                    == row.instrument_id && out.provider == p && out.provider_symbol
                    == row.provider_symbol && out.asset_class == row.asset_class && out.currency
                    == row.currency && out.enabled == row.enabled && out.created_at
                    == row.created_at && out.updated_at == row.updated_at,
                None => r matches Err(RepoError::Decode(m)) && m@
                    == "unknown provider-symbol provider "@ + debug_text(row.provider@)
                    + " in row "@ + int_text(row.id as int) + " for instrument "@ + int_text(
                    row.instrument_id as int,
                ),
            },
    {
        match MarketDataProvider::from_db_str(row.provider.as_str()) {
            Some(provider) => Ok(ProviderSymbolRow {
                id: row.id,
                instrument_id: row.instrument_id,
                provider,
                provider_symbol: row.provider_symbol,
                asset_class: row.asset_class,
                currency: row.currency,
                enabled: row.enabled,
                created_at: row.created_at,
                updated_at: row.updated_at,
            }),
            None => {
                let mut m = "unknown provider-symbol provider ".to_owned();
                let q = debug_string(row.provider.as_str());
                append_str(&mut m, q.as_str());
                append_str(&mut m, " in row ");
                let id = i64_string(row.id);
                append_str(&mut m, id.as_str());
                append_str(&mut m, " for instrument ");
                let instrument = i64_string(row.instrument_id);
                append_str(&mut m, instrument.as_str());
                Err(RepoError::Decode(m))
            },
        }
    }
}

/// The body of `PUT /api/instruments/{id}/provider-symbols/{provider}`.
#[derive(Clone, Debug)]
pub struct UpdateProviderSymbolRequest {
    pub provider_symbol: String,
    pub currency: Option<String>,
    /// Required for Nasdaq Nordic; omitted on an update, the stored one is kept.
    pub asset_class: Option<String>,
    pub enabled: bool,
}

/// A mapping as the API returns it.
#[derive(Clone, Debug)]
pub struct ProviderSymbolResponse {
    pub id: i64,
    pub instrument_id: i64,
    pub provider: String,
    pub provider_symbol: String,
    pub asset_class: Option<String>,
    pub currency: Option<String>,
    pub enabled: bool,
    pub created_at: String,
    pub updated_at: String,
}

impl ProviderSymbolResponse {
    pub fn from_row(row: ProviderSymbolRow) -> (r: Self)
        ensures
            r.id == row.id,
            r.instrument_id == row.instrument_id,
            r.provider@ == provider_db(row.provider),
            r.provider_symbol == row.provider_symbol,
            r.asset_class == row.asset_class,
            r.currency == row.currency,
            r.enabled == row.enabled,
            r.created_at == row.created_at,
            r.updated_at == row.updated_at,
    {
        ProviderSymbolResponse {
            id: row.id,
            instrument_id: row.instrument_id,
            provider: row.provider.as_str().to_owned(),
            provider_symbol: row.provider_symbol,
            asset_class: row.asset_class,
            currency: row.currency,
            enabled: row.enabled,
            created_at: row.created_at,
            updated_at: row.updated_at,
        }
    }
}

/// An optional text trimmed; blank becomes absent.
pub open spec fn trimmed_text(value: Option<Seq<char>>) -> Option<Seq<char>> {
    match value {
        Some(v) => if trim(v).len() == 0 {
            None
        } else {
            Some(trim(v))
        },
        None => None,
    }
}

pub open spec fn opt_text(value: Option<String>) -> Option<Seq<char>> {
    match value {
        Some(v) => Some(v@),
        None => None,
    }
}

pub fn trimmed(value: Option<String>) -> (r: Option<String>)
    ensures
        opt_text(r) == trimmed_text(opt_text(value)),
{
    match value {
        Some(v) => {
            let t = trim_string(v.as_str());
            if t.unicode_len() == 0 {
                None
            } else {
                Some(t)
            }
        },
        None => None,
    }
}

/// The provider a path segment names: trimmed and upper-cased; an unknown
/// one is a bad request quoting it.
pub fn parse_provider(raw: &str) -> (r: Result<MarketDataProvider, ApiError>)
    ensures
        match provider_from_db(upper(trim(raw@))) {
            Some(p) => r == Ok::<MarketDataProvider, ApiError>(p),
            None => (r matches Err(e) && e.status == STATUS_BAD_REQUEST && e.code@
                == "invalid_provider"@ && e.message@ == "unsupported provider "@ + debug_text(
                upper(trim(raw@)),
            ) && e.details is None),
        },
{
    let name = upper_string(trim_string(raw).as_str());
    match MarketDataProvider::from_db_str(name.as_str()) {
        Some(p) => Ok(p),
        None => {
            let mut m = "unsupported provider ".to_owned();
            let q = debug_string(name.as_str());
            append_str(&mut m, q.as_str());
            Err(ApiError::bad_request("invalid_provider", m))
        },
    }
}

/// The trimmed provider symbol of an update; blank is a bad request.
pub fn required_provider_symbol(body: &UpdateProviderSymbolRequest) -> (r: Result<String, ApiError>)
    ensures
        trim(body.provider_symbol@).len() > 0 ==> (r matches Ok(s) && s@ == trim(
            body.provider_symbol@,
        )),
        trim(body.provider_symbol@).len() == 0 ==> (r matches Err(e) && e.status
            == STATUS_BAD_REQUEST && e.code@ == "invalid_provider_symbol"@ && e.message@
            == "provider_symbol is required"@ && e.details is None),
{
    let symbol = trim_string(body.provider_symbol.as_str());
    if symbol.unicode_len() == 0 {
        return Err(
            ApiError::bad_request(
                "invalid_provider_symbol",
                "provider_symbol is required".to_owned(),
            ),
        );
    }
    Ok(symbol)
}

/// The asset class an update stores: the request's (trimmed), or else the
/// stored one.
pub open spec fn effective_asset_class(
    requested: Option<String>,
    stored: Option<String>,
) -> Option<Seq<char>> {
    match trimmed_text(opt_text(requested)) {
        Some(a) => Some(a),
        None => opt_text(stored),
    }
}

/// The mapping an update stores, stamped with the current time. Nasdaq Nordic needs an asset class and a
/// currency: the first is a required query parameter of its price history,
/// the second the only source of the stored prices' currency.
pub fn provider_symbol_update(
    instrument_id: i64,
    provider: MarketDataProvider,
    provider_symbol: String,
    body: &UpdateProviderSymbolRequest,
    stored_asset_class: Option<String>,
) -> (r: Result<NewProviderSymbol, ApiError>)
    ensures
        provider == MarketDataProvider::NasdaqNordic && effective_asset_class(
            body.asset_class,
            stored_asset_class,
        ) is None ==> (r matches Err(e) && e.status == STATUS_BAD_REQUEST && e.code@
            == "missing_asset_class"@ && e.message@
            == "asset_class is required for NASDAQ_NORDIC mappings"@ && e.details is None),
        provider == MarketDataProvider::NasdaqNordic && effective_asset_class(
            body.asset_class,
            stored_asset_class,
        ) is Some && trimmed_text(opt_text(body.currency)) is None ==> (r matches Err(e)
            && e.status == STATUS_BAD_REQUEST && e.code@ == "missing_source_currency"@
            && e.message@ == "currency is required for NASDAQ_NORDIC mappings"@ && e.details is None),
        !(provider == MarketDataProvider::NasdaqNordic && (effective_asset_class(
            body.asset_class,
            stored_asset_class,
        ) is None || trimmed_text(opt_text(body.currency)) is None)) ==> (r matches Ok(n)
            && n.instrument_id == instrument_id && n.provider == provider && n.provider_symbol
            == provider_symbol && opt_text(n.asset_class) == effective_asset_class(
            body.asset_class,
            stored_asset_class,
        ) && opt_text(n.currency) == trimmed_text(opt_text(body.currency)) && n.enabled
            == body.enabled && n.created_at == n.updated_at && rfc3339_utc_text(n.created_at@)),
{
    let asset_class = match trimmed(clone_opt(&body.asset_class)) {
        Some(a) => Some(a),
        None => stored_asset_class,
    };
    let currency = trimmed(clone_opt(&body.currency));
    if provider == MarketDataProvider::NasdaqNordic {
        if asset_class.is_none() {
            return Err(
                ApiError::bad_request(
                    "missing_asset_class",
                    "asset_class is required for NASDAQ_NORDIC mappings".to_owned(),
                ),
            );
        }
        if currency.is_none() {
            return Err(
                ApiError::bad_request(
                    "missing_source_currency",
                    "currency is required for NASDAQ_NORDIC mappings".to_owned(),
                ),
            );
        }
    }
    let now = now_iso8601();
    Ok(NewProviderSymbol {
        instrument_id,
        provider,
        provider_symbol,
        asset_class,
        currency,
        enabled: body.enabled,
        created_at: now.clone(),
        updated_at: now,
    })
}

/// Whether a new mapping is enabled when the request does not say.
pub fn default_enabled() -> (b: bool)
    ensures
        b,
{
    true
}

} // verus!
