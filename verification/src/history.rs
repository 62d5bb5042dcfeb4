//! Price and portfolio-value histories: the date range a query asks for and
//! the points as the API reports them.
use vstd::prelude::*;

use crate::calendar::{date_after, date_lt, format_ymd, valid_date, ymd_text};
use crate::decimal::{money_string, money_text, normalized_string, normalized_text, DecimalNum};
use crate::error::{ApiError, STATUS_BAD_REQUEST};
use crate::gains::{money_of, named_date, parse_date};
use crate::transactions::{ymd_date, TradeDate};
use crate::fx_rates::{
    fx_row_decodes, history_fx_candidate_is, value_history_fx_candidate, FxCandidate, FxRateRow,
};
use crate::instruments::InstrumentRow;
use crate::prices::{price_candidate, price_candidate_is, price_row_decodes, PriceCandidate, PriceRow};
use crate::text::{eq_ignore_case, eq_ignore_case_exec};
use crate::transactions::LedgerTransaction;
use crate::valuation::{
    reason_code, serialize_availability, Availability, AvailabilityResponse, BASE_CURRENCY,
};

verus! {

/// The query of a price or value history.
#[derive(Clone, Debug)]
pub struct ValueHistoryQuery {
    pub from: Option<String>,
    pub to: Option<String>,
}

/// The query of an instrument's price history.
#[derive(Clone, Debug)]
pub struct PriceHistoryQuery {
    pub from: Option<String>,
    pub to: Option<String>,
}

/// The date a bound names, when it parses.
pub open spec fn bound_date(bound: Option<String>) -> Option<TradeDate> {
    match bound {
        Some(s) => match ymd_date(s@) {
            Some(p) => Some(named_date(p)),
            None => None,
        },
        None => None,
    }
}

pub open spec fn bound_parses(bound: Option<String>) -> bool {
    match bound {
        Some(s) => ymd_date(s@) is Some,
        None => true,
    }
}

/// The range a history query asks for: each bound a `YYYY-MM-DD` date, and
/// `from` not after `to`.
pub fn history_range(from: &Option<String>, to: &Option<String>) -> (r: Result<
    (Option<TradeDate>, Option<TradeDate>),
    ApiError,
>)
    ensures
        !bound_parses(*from) ==> (r matches Err(e) && e.status == STATUS_BAD_REQUEST && e.code@
            == "invalid_date"@ && e.message@ == "invalid from: "@ + from.unwrap()@),
        bound_parses(*from) && !bound_parses(*to) ==> (r matches Err(e) && e.status
            == STATUS_BAD_REQUEST && e.code@ == "invalid_date"@ && e.message@ == "invalid to: "@
            + to.unwrap()@),
        bound_parses(*from) && bound_parses(*to) ==> match (bound_date(*from), bound_date(*to)) {
            (Some(f), Some(t)) => if date_lt(t, f) {
                (r matches Err(e) && e.status == STATUS_BAD_REQUEST && e.code@
                    == "invalid_date_range"@ && e.message@ == "from must not be after to"@
                    && e.details is None)
            } else {
                r == Ok::<(Option<TradeDate>, Option<TradeDate>), ApiError>((Some(f), Some(t)))
            },
            (f, t) => r == Ok::<(Option<TradeDate>, Option<TradeDate>), ApiError>((f, t)),
        },
{
    proof {
        reveal_strlit("invalid ");
        reveal_strlit("from");
        reveal_strlit("to");
        reveal_strlit(": ");
        reveal_strlit("invalid from: ");
        reveal_strlit("invalid to: ");
        assert("invalid "@ + "from"@ + ": "@ =~= "invalid from: "@);
        assert("invalid "@ + "to"@ + ": "@ =~= "invalid to: "@);
    }
    let start = match from {
        Some(s) => match parse_date(s.as_str(), "from") {
            Ok(d) => Some(d),
            Err(e) => {
                return Err(e);
            },
        },
        None => None,
    };
    let end = match to {
        Some(s) => match parse_date(s.as_str(), "to") {
            Ok(d) => Some(d),
            Err(e) => {
                return Err(e);
            },
        },
        None => None,
    };
    if let (Some(f), Some(t)) = (start, end) {
        if date_after(f, t) {
            return Err(
                ApiError::bad_request("invalid_date_range", "from must not be after to".to_owned()),
            );
        }
    }
    Ok((start, end))
}

/// One day of the portfolio's value.
#[derive(Clone, Debug)]
pub struct ValueHistoryPointResponse {
    pub date: String,
    pub value_base: String,
    pub incomplete: bool,
    pub included_count: usize,
    pub excluded_count: usize,
}

/// The portfolio's value over time.
#[derive(Clone, Debug)]
pub struct ValueHistoryResponse {
    pub base_currency: String,
    pub points: Vec<ValueHistoryPointResponse>,
}

/// A day of the value history as the API reports it.
pub fn value_history_point(
    date: TradeDate,
    value_base: DecimalNum,
    incomplete: bool,
    included_count: usize,
    excluded_count: usize,
) -> (r: ValueHistoryPointResponse)
    requires
        valid_date(date),
        value_base.wf(),
    ensures
        r.date@ == ymd_text(date.year as int, date.month as int, date.day as int),
        r.value_base@ == money_text(value_base),
        r.incomplete == incomplete,
        r.included_count == included_count,
        r.excluded_count == excluded_count,
{
    ValueHistoryPointResponse {
        date: format_ymd(date),
        value_base: money_string(value_base),
        incomplete,
        included_count,
        excluded_count,
    }
}

/// The FX rate applied to a price point, and the day it was observed.
#[derive(Clone, Debug)]
pub struct FxAppliedResponse {
    pub rate: String,
    pub date: String,
}

/// One day of an instrument's price history.
#[derive(Clone, Debug)]
pub struct PricePointResponse {
    pub date: String,
    pub close: String,
    pub close_base: AvailabilityResponse,
    pub fx: Option<FxAppliedResponse>,
}

/// An instrument's price history.
#[derive(Clone, Debug)]
pub struct PriceHistoryResponse {
    pub instrument_id: i64,
    pub currency: String,
    pub base_currency: String,
    pub points: Vec<PricePointResponse>,
}

/// A day of the price history as the API reports it: the native close at
/// full precision, the base close as money, and the FX rate applied, if any.
pub fn price_point_response(
    date: TradeDate,
    close: DecimalNum,
    close_base: &Availability<DecimalNum>,
    fx: Option<(DecimalNum, TradeDate)>,
) -> (r: PricePointResponse)
    requires
        valid_date(date),
        close.wf(),
        close_base matches Availability::Available(v) ==> v.wf(),
        fx matches Some((rate, day)) ==> rate.wf() && valid_date(day),
    ensures
        r.date@ == ymd_text(date.year as int, date.month as int, date.day as int),
        r.close@ == normalized_text(close),
        match close_base {
            Availability::Available(v) => r.close_base matches AvailabilityResponse::Available {
                value: s,
            } && s@ == money_text(*v),
            Availability::Unavailable { reasons } => r.close_base matches AvailabilityResponse::Unavailable {
                reasons: codes,
            } && codes@.len() == reasons@.len() && forall|i: int|
                0 <= i < reasons@.len() ==> #[trigger] codes@[i]@ == reason_code(reasons@[i]),
        },
        match fx {
            Some((rate, day)) => r.fx matches Some(f) && f.rate@ == normalized_text(rate) && f.date@ == ymd_text(day.year as int, day.month as int, day.day as int),
            None => r.fx is None,
        },
{
    let fx_response = match fx {
        Some((rate, day)) => Some(FxAppliedResponse { rate: normalized_string(rate), date: format_ymd(day) }),
        None => None,
    };
    let close_base_response = serialize_availability(close_base, money_of);
    PricePointResponse {
        date: format_ymd(date),
        close: normalized_string(close),
        close_base: close_base_response,
        fx: fx_response,
    }
}

/// Which stored series the value history reads for an instrument.
#[derive(Clone, Copy, Debug, PartialEq, Eq, Structural)]
pub struct HistoryReads {
    pub prices: bool,
    pub fx_rates: bool,
}

/// What the value history reads for an instrument: nothing when its ledger
/// is empty (it is skipped); otherwise its closes only when its price mapping
/// is enabled, and FX rates only when its currency is not the base currency
/// (compared ignoring ASCII case).
pub fn history_reads(ledger_len: usize, mapping_enabled: Option<bool>, currency: &str) -> (r: Option<
    HistoryReads,
>)
    ensures
        ledger_len == 0 ==> r is None,
        ledger_len != 0 ==> r == Some(
            (HistoryReads {
                prices: mapping_enabled == Some(true),
                fx_rates: !eq_ignore_case(currency@, BASE_CURRENCY@),
            }),
        ),
{
    if ledger_len == 0 {
        return None;
    }
    let prices = match mapping_enabled {
        Some(enabled) => enabled,
        None => false,
    };
    Some(HistoryReads { prices, fx_rates: !eq_ignore_case_exec(currency, BASE_CURRENCY) })
}

/// One instrument as the value history derives it: its currency, its ledger
/// and the closes and FX rates read for it.
#[derive(Clone, Debug)]
pub struct ValueHistoryInstrument {
    pub native_currency: String,
    pub ledger: Vec<LedgerTransaction>,
    pub prices: Vec<PriceCandidate>,
    pub fx_rates: Vec<FxCandidate>,
}

/// Every row before `n` decodes.
pub open spec fn prices_decode(rows: Seq<PriceRow>, n: int) -> bool {
    forall|j: int| 0 <= j < n ==> #[trigger] price_row_decodes(rows[j])
}

/// Every rate before `n` decodes.
pub open spec fn rates_decode(rows: Seq<FxRateRow>, n: int) -> bool {
    forall|j: int| 0 <= j < n ==> #[trigger] fx_row_decodes(rows[j])
}

/// The candidates of the closes, in order, or the error of the first that
/// does not decode.
fn history_prices(instrument: &InstrumentRow, rows: Vec<PriceRow>) -> (r: Result<
    Vec<PriceCandidate>,
    ApiError,
>)
    ensures
        r matches Ok(cs) ==> cs@.len() == rows@.len() && prices_decode(rows@, rows@.len() as int)
            && forall|k: int|
            0 <= k < rows@.len() ==> price_candidate_is(
                "value-history"@,
                *instrument,
                rows@[k],
                Ok(#[trigger] cs@[k]),
            ),
        prices_decode(rows@, rows@.len() as int) ==> r is Ok,
        r matches Err(e) ==> exists|k: int|
            0 <= k < rows@.len() && prices_decode(rows@, k) && !price_row_decodes(#[trigger] rows@[k])
                && price_candidate_is("value-history"@, *instrument, rows@[k], Err(e)),
{
    let ghost orig = rows@;
    let n = rows.len();
    let mut rest = rows;
    let mut out: Vec<PriceCandidate> = Vec::new();
    let mut i: usize = 0;
    while rest.len() > 0
        invariant
            orig == rows@,
            orig.len() == n,
            i <= orig.len(),
            rest@ == orig.skip(i as int),
            out@.len() == i,
            prices_decode(orig, i as int),
            forall|k: int|
                0 <= k < i ==> price_candidate_is(
                    "value-history"@,
                    *instrument,
                    orig[k],
                    Ok(#[trigger] out@[k]),
                ),
        decreases rest@.len(),
    {
        assert(rest@.len() == orig.len() - i);
        let row = rest.remove(0);
        assert(row == orig[i as int]);
        match price_candidate("value-history", instrument, row) {
            Ok(c) => {
                out.push(c);
            },
            Err(e) => {
                assert(!price_row_decodes(orig[i as int]));
                assert(price_candidate_is("value-history"@, *instrument, orig[i as int], Err(e)));
                assert(orig == rows@);
                return Err(e);
            },
        }
        i = i + 1;
        assert(rest@ =~= orig.skip(i as int));
    }
    assert(i == orig.len());
    Ok(out)
}

/// The candidates of the rates, in order, or the error of the first that
/// does not decode.
fn history_rates(rows: Vec<FxRateRow>) -> (r: Result<Vec<FxCandidate>, ApiError>)
    ensures
        r matches Ok(cs) ==> cs@.len() == rows@.len() && rates_decode(rows@, rows@.len() as int)
            && forall|k: int|
            0 <= k < rows@.len() ==> history_fx_candidate_is(rows@[k], Ok(#[trigger] cs@[k])),
        rates_decode(rows@, rows@.len() as int) ==> r is Ok,
        r matches Err(e) ==> exists|k: int|
            0 <= k < rows@.len() && rates_decode(rows@, k) && !fx_row_decodes(#[trigger] rows@[k])
                && history_fx_candidate_is(rows@[k], Err(e)),
{
    let ghost orig = rows@;
    let n = rows.len();
    let mut rest = rows;
    let mut out: Vec<FxCandidate> = Vec::new();
    let mut i: usize = 0;
    while rest.len() > 0
        invariant
            orig == rows@,
            orig.len() == n,
            i <= orig.len(),
            rest@ == orig.skip(i as int),
            out@.len() == i,
            rates_decode(orig, i as int),
            forall|k: int| 0 <= k < i ==> history_fx_candidate_is(orig[k], Ok(#[trigger] out@[k])),
        decreases rest@.len(),
    {
        assert(rest@.len() == orig.len() - i);
        let row = rest.remove(0);
        assert(row == orig[i as int]);
        match value_history_fx_candidate(row) {
            Ok(c) => {
                out.push(c);
            },
            Err(e) => {
                assert(!fx_row_decodes(orig[i as int]));
                assert(history_fx_candidate_is(orig[i as int], Err(e)));
                assert(orig == rows@);
                return Err(e);
            },
        }
        i = i + 1;
        assert(rest@ =~= orig.skip(i as int));
    }
    assert(i == orig.len());
    Ok(out)
}

/// An instrument's input to the value history from what was read for it
/// (see [`history_reads`]): its currency and ledger as they are, every close
/// and FX rate as its candidate. The first close that does not decode is the
/// error, then the first rate that does not.
pub fn value_history_instrument(
    instrument: &InstrumentRow,
    ledger: Vec<LedgerTransaction>,
    price_rows: Vec<PriceRow>,
    fx_rows: Vec<FxRateRow>,
) -> (r: Result<ValueHistoryInstrument, ApiError>)
    ensures
        r matches Ok(x) ==> {
            &&& x.native_currency == instrument.currency
            &&& x.ledger@ == ledger@
            &&& x.prices@.len() == price_rows@.len()
            &&& forall|k: int|
                0 <= k < price_rows@.len() ==> price_candidate_is(
                    "value-history"@,
                    *instrument,
                    price_rows@[k],
                    Ok(#[trigger] x.prices@[k]),
                )
            &&& x.fx_rates@.len() == fx_rows@.len()
            &&& forall|k: int|
                0 <= k < fx_rows@.len() ==> history_fx_candidate_is(
                    fx_rows@[k],
                    Ok(#[trigger] x.fx_rates@[k]),
                )
        },
        (prices_decode(price_rows@, price_rows@.len() as int) && rates_decode(
            fx_rows@,
            fx_rows@.len() as int,
        )) <==> r is Ok,
        r matches Err(e) ==> (exists|k: int|
            0 <= k < price_rows@.len() && prices_decode(price_rows@, k) && !price_row_decodes(
                #[trigger] price_rows@[k],
            ) && price_candidate_is("value-history"@, *instrument, price_rows@[k], Err(e))) || (
        prices_decode(price_rows@, price_rows@.len() as int) && exists|k: int|
            0 <= k < fx_rows@.len() && rates_decode(fx_rows@, k) && !fx_row_decodes(
                #[trigger] fx_rows@[k],
            ) && history_fx_candidate_is(fx_rows@[k], Err(e))),
{
    let prices = history_prices(instrument, price_rows);
    let prices = match prices {
        Ok(p) => p,
        Err(e) => {
            return Err(e);
        },
    };
    let fx_rates = match history_rates(fx_rows) {
        Ok(f) => f,
        Err(e) => {
            return Err(e);
        },
    };
    Ok(
        ValueHistoryInstrument {
            native_currency: instrument.currency.clone(),
            ledger,
            prices,
            fx_rates,
        },
    )
}

} // verus!
