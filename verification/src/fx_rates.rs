//! Stored daily FX rates: the row as read, the decoding of its date and rate,
//! and the candidate a valuation takes from it.
use vstd::prelude::*;

use crate::config::{debug_string, debug_text};
use crate::decimal::{decimal_from_str, decimal_from_text, DecimalNum};
use crate::error::{ApiError, RepoError};
use crate::prices::{internal_error_starting, internal_with_cause};
use crate::text::{append_str, i64_string, int_text};
use crate::transactions::{decode_error_starting, parse_ymd, ymd_date, TradeDate};

verus! {

/// The source of FX rates.
#[derive(Clone, Copy, Debug, PartialEq, Eq, Structural)]
pub enum FxProvider {
    Frankfurter,
}

/// A daily rate of a currency pair from a provider, as stored.
#[derive(Clone, Debug)]
pub struct FxRateRow {
    pub id: i64,
    pub base: String,
    pub quote: String,
    pub date: String,
    pub rate: String,
    pub provider: FxProvider,
    pub fetched_at: String,
}

/// The start of the decode error for a stored FX date `raw`.
pub open spec fn bad_fx_date_prefix(raw: Seq<char>) -> Seq<char> {
    "bad fx date "@ + debug_text(raw) + ": "@
}

/// The start of the decode error for a stored FX rate `raw`.
pub open spec fn bad_fx_rate_prefix(raw: Seq<char>) -> Seq<char> {
    "bad fx rate "@ + debug_text(raw) + ": "@
}

impl FxRateRow {
    /// The row's date; a stored date that is not `YYYY-MM-DD` is a decode
    /// error quoting it, followed by the parser's message.
    pub fn date_value(&self) -> (r: Result<TradeDate, RepoError>)
        ensures
            match ymd_date(self.date@) {
                Some((y, m, d)) => r matches Ok(t) && t.year == y && t.month == m && t.day == d,
                None => decode_error_starting(r, bad_fx_date_prefix(self.date@)),
            },
    {
        match parse_ymd(self.date.as_str()) {
            Ok(t) => Ok(t),
            Err(error) => {
                let mut m = "bad fx date ".to_owned();
                let q = debug_string(self.date.as_str());
                append_str(&mut m, q.as_str());
                append_str(&mut m, ": ");
                let ghost prefix = m@;
                append_str(&mut m, error.as_str());
                assert(m@.subrange(0, prefix.len() as int) =~= prefix);
                Err(RepoError::Decode(m))
            },
        }
    }

    /// The row's rate; a stored rate that is not a decimal is a decode error
    /// quoting it, followed by the parser's message.
    pub fn rate_decimal(&self) -> (r: Result<DecimalNum, RepoError>)
        ensures
            match decimal_from_text(self.rate@) {
                Some((m, sc)) => r matches Ok(d) && d.mantissa == m && d.scale == sc && d.wf(),
                None => decode_error_starting(r, bad_fx_rate_prefix(self.rate@)),
            },
    {
        match decimal_from_str(self.rate.as_str()) {
            Ok(d) => Ok(d),
            Err(error) => {
                let mut m = "bad fx rate ".to_owned();
                let q = debug_string(self.rate.as_str());
                append_str(&mut m, q.as_str());
                append_str(&mut m, ": ");
                let ghost prefix = m@;
                append_str(&mut m, error.as_str());
                assert(m@.subrange(0, prefix.len() as int) =~= prefix);
                Err(RepoError::Decode(m))
            },
        }
    }
}

/// A rate that a valuation may use: `1 base = rate quote` on `date`.
#[derive(Clone, Debug)]
pub struct FxCandidate {
    pub date: TradeDate,
    pub rate: DecimalNum,
    pub base: String,
    pub quote: String,
}

/// The candidate of a stored rate, or `None` when its date or rate does not
/// decode (such a row is passed over).
pub fn fx_candidate(row: FxRateRow) -> (c: Option<FxCandidate>)
    ensures
        (ymd_date(row.date@) is Some && decimal_from_text(row.rate@) is Some) <==> c is Some,
        c matches Some(x) ==> {
            &&& ymd_date(row.date@) == Some(
                (x.date.year as int, x.date.month as int, x.date.day as int),
            )
            &&& decimal_from_text(row.rate@) == Some((x.rate.mantissa as int, x.rate.scale as nat))
            &&& x.rate.wf()
            &&& x.base == row.base
            &&& x.quote == row.quote
        },
{
    let date = match row.date_value() {
        Ok(d) => d,
        Err(_) => {
            return None;
        },
    };
    let rate = match row.rate_decimal() {
        Ok(r) => r,
        Err(_) => {
            return None;
        },
    };
    Some(FxCandidate { date, rate, base: row.base, quote: row.quote })
}

/// The start of the error that the value history gives for an FX row whose
/// `part` (`date` or `rate`) does not decode.
pub open spec fn undecodable_fx_prefix(part: Seq<char>, row_id: i64, base: Seq<char>, quote: Seq<char>) -> Seq<
    char,
> {
    "value-history: undecodable "@ + part + " in fx row "@ + int_text(row_id as int) + " ("@ + base
        + "->"@ + quote + "): "@
}

/// The error for an undecodable part of an FX row: the prefix, then the
/// decode message.
fn undecodable_fx(part: &str, row: &FxRateRow, error: RepoError) -> (e: ApiError)
    ensures
        internal_error_starting::<()>(
            Err(e),
            undecodable_fx_prefix(part@, row.id, row.base@, row.quote@),
        ),
{
    let mut m = "value-history: undecodable ".to_owned();
    append_str(&mut m, part);
    append_str(&mut m, " in fx row ");
    let id = i64_string(row.id);
    append_str(&mut m, id.as_str());
    append_str(&mut m, " (");
    append_str(&mut m, row.base.as_str());
    append_str(&mut m, "->");
    append_str(&mut m, row.quote.as_str());
    append_str(&mut m, "): ");
    internal_with_cause(m, error)
}

/// `r` is the candidate the value history takes from the stored rate `row`,
/// as [`value_history_fx_candidate`] states.
pub open spec fn history_fx_candidate_is(row: FxRateRow, r: Result<FxCandidate, ApiError>) -> bool {
    match ymd_date(row.date@) {
        None => internal_error_starting(
            r,
            undecodable_fx_prefix("date"@, row.id, row.base@, row.quote@),
        ),
        Some((y, m, d)) => match decimal_from_text(row.rate@) {
            None => internal_error_starting(
                r,
                undecodable_fx_prefix("rate"@, row.id, row.base@, row.quote@),
            ),
            Some((mant, sc)) => r matches Ok(x) && x.date.year == y && x.date.month == m
                && x.date.day == d && x.rate.mantissa == mant && x.rate.scale == sc
                && x.rate.wf() && x.base == row.base && x.quote == row.quote,
        },
    }
}

/// Whether a stored rate's date and rate both decode.
pub open spec fn fx_row_decodes(row: FxRateRow) -> bool {
    ymd_date(row.date@) is Some && decimal_from_text(row.rate@) is Some
}

/// The candidate that the value history takes from a stored rate. Unlike
/// [`fx_candidate`], a date or rate that does not decode is an internal error
/// naming the row and its pair (the date is checked first).
pub fn value_history_fx_candidate(row: FxRateRow) -> (r: Result<FxCandidate, ApiError>)
    ensures
        history_fx_candidate_is(row, r),
{
    let date = match row.date_value() {
        Ok(d) => d,
        Err(e) => {
            return Err(undecodable_fx("date", &row, e));
        },
    };
    let rate = match row.rate_decimal() {
        Ok(r) => r,
        Err(e) => {
            return Err(undecodable_fx("rate", &row, e));
        },
    };
    Ok(FxCandidate { date, rate, base: row.base, quote: row.quote })
}

} // verus!
