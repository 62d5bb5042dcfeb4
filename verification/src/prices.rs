//! Stored daily closes: the row as read, the decoding of its provider, date
//! and close, and the candidate a price history takes from it.
use vstd::prelude::*;

use crate::config::{debug_string, debug_text};
use crate::decimal::{decimal_from_str, decimal_from_text, DecimalNum};
use crate::error::{ApiError, RepoError, STATUS_INTERNAL_SERVER_ERROR};
use crate::instruments::InstrumentRow;
use crate::provider_symbols::{provider_from_db, MarketDataProvider};
use crate::text::{append_str, i64_string, int_text};
use crate::transactions::{parse_ymd, ymd_date, TradeDate};

verus! {

/// A price row as stored, before its provider is decoded.
#[derive(Clone, Debug)]
pub struct RawPriceRow {
    pub id: i64,
    pub instrument_id: i64,
    pub provider: String,
    pub provider_symbol: String,
    pub date: String,
    pub close: String,
    pub currency: String,
    pub fetched_at: String,
}

/// A daily close of an instrument at a provider.
#[derive(Clone, Debug)]
pub struct PriceRow {
    pub id: i64,
    pub instrument_id: i64,
    pub provider: MarketDataProvider,
    pub provider_symbol: String,
    pub date: String,
    pub close: String,
    pub currency: String,
    pub fetched_at: String,
}

impl PriceRow {
    /// Decodes a stored row; an unknown provider is a decode error naming it,
    /// the row and the instrument.
    pub fn try_from_raw(row: RawPriceRow) -> (r: Result<Self, RepoError>)
        ensures
            match provider_from_db(row.provider@) {
                Some(p) => r matches Ok(out) && out.id == row.id && out.instrument_id
                    == row.instrument_id && out.provider == p && out.provider_symbol
                    == row.provider_symbol && out.date == row.date && out.close == row.close
                    && out.currency == row.currency && out.fetched_at == row.fetched_at,
                None => r matches Err(RepoError::Decode(m)) && m@ == "unknown price provider "@
                    + debug_text(row.provider@) + " in row "@ + int_text(row.id as int)
                    + " for instrument "@ + int_text(row.instrument_id as int),
            },
    {
        match MarketDataProvider::from_db_str(row.provider.as_str()) {
            Some(provider) => Ok(PriceRow {
                id: row.id,
                instrument_id: row.instrument_id,
                provider,
                provider_symbol: row.provider_symbol,
                date: row.date,
                close: row.close,
                currency: row.currency,
                fetched_at: row.fetched_at,
            }),
            None => {
                let mut m = "unknown price provider ".to_owned();
                let q = debug_string(row.provider.as_str());
                append_str(&mut m, q.as_str());
                append_str(&mut m, " in row ");
                let id = i64_string(row.id);
                append_str(&mut m, id.as_str());
                append_str(&mut m, " for instrument ");
                let instrument = i64_string(row.instrument_id);
                append_str(&mut m, instrument.as_str());
                Err(RepoError::Decode(m))
            },
        }
    }

    /// The row's date; a stored date that is not `YYYY-MM-DD` is a decode
    /// error quoting it, followed by the parser's message.
    pub fn date_value(&self) -> (r: Result<TradeDate, RepoError>)
        ensures
            match ymd_date(self.date@) {
                Some((y, m, d)) => r matches Ok(t) && t.year == y && t.month == m && t.day == d,
                None => r matches Err(RepoError::Decode(msg)) && msg@.subrange(
                    0,
                    ("bad price date "@ + debug_text(self.date@) + ": "@).len() as int,
                ) == "bad price date "@ + debug_text(self.date@) + ": "@,
            },
    {
        match parse_ymd(self.date.as_str()) {
            Ok(t) => Ok(t),
            Err(error) => {
                let mut m = "bad price date ".to_owned();
                let q = debug_string(self.date.as_str());
                append_str(&mut m, q.as_str());
                append_str(&mut m, ": ");
                let ghost prefix = m@;
                append_str(&mut m, error.as_str());
                assert(m@.subrange(0, prefix.len() as int) =~= prefix);
                Err(RepoError::Decode(m))
            },
        }
    }

    /// The row's close; a stored close that is not a decimal is a decode
    /// error quoting it, followed by the parser's message.
    pub fn close_decimal(&self) -> (r: Result<DecimalNum, RepoError>)
        ensures
            match decimal_from_text(self.close@) {
                Some((m, sc)) => r matches Ok(d) && d.mantissa == m && d.scale == sc && d.wf(),
                None => r matches Err(RepoError::Decode(msg)) && msg@.subrange(
                    0,
                    ("bad price close "@ + debug_text(self.close@) + ": "@).len() as int,
                ) == "bad price close "@ + debug_text(self.close@) + ": "@,
            },
    {
        match decimal_from_str(self.close.as_str()) {
            Ok(d) => Ok(d),
            Err(error) => {
                let mut m = "bad price close ".to_owned();
                let q = debug_string(self.close.as_str());
                append_str(&mut m, q.as_str());
                append_str(&mut m, ": ");
                let ghost prefix = m@;
                append_str(&mut m, error.as_str());
                assert(m@.subrange(0, prefix.len() as int) =~= prefix);
                Err(RepoError::Decode(m))
            },
        }
    }
}

/// A close that a price history may use: `close` in `currency` on `date`.
#[derive(Clone, Debug)]
pub struct PriceCandidate {
    pub date: TradeDate,
    pub close: DecimalNum,
    pub currency: String,
}

/// The start of the error that the history named `history` (`price-history`
/// or `value-history`) gives for a price row of an instrument whose `part`
/// (`date` or `close`) does not decode.
pub open spec fn undecodable_price_prefix(
    history: Seq<char>,
    part: Seq<char>,
    row_id: i64,
    instrument_id: i64,
) -> Seq<char> {
    history + ": undecodable "@ + part + " in price row "@ + int_text(row_id as int)
        + " for instrument "@ + int_text(instrument_id as int) + ": "@
}

/// An internal error whose message starts with `prefix`.
pub open spec fn internal_error_starting<T>(r: Result<T, ApiError>, prefix: Seq<char>) -> bool {
    r matches Err(e) && e.status == STATUS_INTERNAL_SERVER_ERROR && e.code@ == "internal_error"@
        && e.details is None && prefix.len() <= e.message@.len() && e.message@.subrange(
        0,
        prefix.len() as int,
    ) == prefix
}

/// `message` followed by the decode message of `error`, as an internal error.
pub(crate) fn internal_with_cause(message: String, error: RepoError) -> (e: ApiError)
    ensures
        internal_error_starting::<()>(Err(e), message@),
{
    let mut m = message;
    let ghost prefix = m@;
    match error {
        RepoError::Decode(detail) => append_str(&mut m, detail.as_str()),
    }
    assert(m@.subrange(0, prefix.len() as int) =~= prefix);
    ApiError::internal(m)
}

/// The error for an undecodable part of a price row: the prefix, then the
/// decode message.
fn undecodable_price(
    history: &str,
    part: &str,
    row_id: i64,
    instrument_id: i64,
    error: RepoError,
) -> (e: ApiError)
    ensures
        internal_error_starting::<()>(
            Err(e),
            undecodable_price_prefix(history@, part@, row_id, instrument_id),
        ),
{
    let mut m = history.to_owned();
    append_str(&mut m, ": undecodable ");
    append_str(&mut m, part);
    append_str(&mut m, " in price row ");
    let id = i64_string(row_id);
    append_str(&mut m, id.as_str());
    append_str(&mut m, " for instrument ");
    let instrument = i64_string(instrument_id);
    append_str(&mut m, instrument.as_str());
    append_str(&mut m, ": ");
    internal_with_cause(m, error)
}

/// `r` is the candidate a history named `history` takes from the stored close
/// `row` of `instrument`, as [`price_candidate`] states.
pub open spec fn price_candidate_is(
    history: Seq<char>,
    instrument: InstrumentRow,
    row: PriceRow,
    r: Result<PriceCandidate, ApiError>,
) -> bool {
    match ymd_date(row.date@) {
        None => internal_error_starting(
            r,
            undecodable_price_prefix(history, "date"@, row.id, instrument.id),
        ),
        Some((y, m, d)) => match decimal_from_text(row.close@) {
            None => internal_error_starting(
                r,
                undecodable_price_prefix(history, "close"@, row.id, instrument.id),
            ),
            Some((mant, sc)) => r matches Ok(c) && c.date.year == y && c.date.month == m
                && c.date.day == d && c.close.mantissa == mant && c.close.scale == sc
                && c.close.wf() && c.currency == row.currency,
        },
    }
}

/// Whether a stored close's date and close both decode.
pub open spec fn price_row_decodes(row: PriceRow) -> bool {
    ymd_date(row.date@) is Some && decimal_from_text(row.close@) is Some
}

/// The candidate that the history named `history` takes from a stored close
/// of `instrument`: its date, close and currency. A date or close that does
/// not decode is an internal error naming the history, the row and the
/// instrument (the date is checked first). A row whose currency differs from
/// the instrument's is still taken as it is.
pub fn price_candidate(history: &str, instrument: &InstrumentRow, row: PriceRow) -> (r: Result<
    PriceCandidate,
    ApiError,
>)
    ensures
        price_candidate_is(history@, *instrument, row, r),
{
    let date = match row.date_value() {
        Ok(d) => d,
        Err(e) => {
            return Err(undecodable_price(history, "date", row.id, instrument.id, e));
        },
    };
    let close = match row.close_decimal() {
        Ok(c) => c,
        Err(e) => {
            return Err(undecodable_price(history, "close", row.id, instrument.id, e));
        },
    };
    Ok(PriceCandidate { date, close, currency: row.currency })
}

} // verus!
