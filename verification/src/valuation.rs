//! Valuation vocabulary shared by the holdings, gains and rebalance responses:
//! why a figure is unavailable, how stale its inputs are, and how both render.
use vstd::prelude::*;

use crate::calendar::{format_ymd, valid_date, ymd_text};
use crate::decimal::{decimal_string, decimal_text, money_string, money_text, DecimalNum};
use crate::text::{append_str, i64_string, int_text};
use crate::transactions::TradeDate;

verus! {

pub const BASE_CURRENCY: &'static str = "SEK";

/// Why a valuation figure could not be computed.
#[derive(Clone, Copy, Debug, PartialEq, Eq, Structural)]
pub enum ValuationReason {
    MissingPrice,
    MissingFx,
    MissingPreviousClose,
    PreviousCloseSourceMismatch,
    MissingPreviousFx,
    StalePrice { trading_days: i64 },
    StaleFx { trading_days: i64 },
    ZeroCostBasis,
    ZeroPreviousMarketValue,
    BaseCostBasisUnavailable,
    MissingStartPrice,
    MissingEndPrice,
    MissingStartFx,
    MissingEndFx,
    MissingTransactionPrice { transaction_id: i64 },
    MissingTransactionFx { transaction_id: i64 },
    ZeroOrInvalidPerformanceDenominator,
    PerformanceDidNotConverge,
}

/// The stable code each reason serialises to.
pub open spec fn reason_code(reason: ValuationReason) -> Seq<char> {
    match reason {
        ValuationReason::MissingPrice => "missing_price"@,
        ValuationReason::MissingFx => "missing_fx"@,
        ValuationReason::MissingPreviousClose => "missing_previous_close"@,
        ValuationReason::PreviousCloseSourceMismatch => "previous_close_source_mismatch"@,
        ValuationReason::MissingPreviousFx => "missing_previous_fx"@,
        ValuationReason::StalePrice { trading_days } => "stale_price_"@ + int_text(
            trading_days as int,
        ) + "_days"@,
        ValuationReason::StaleFx { trading_days } => "stale_fx_"@ + int_text(trading_days as int)
            + "_days"@,
        ValuationReason::ZeroCostBasis => "zero_cost_basis"@,
        ValuationReason::ZeroPreviousMarketValue => "zero_previous_market_value"@,
        ValuationReason::BaseCostBasisUnavailable => "base_cost_basis_unavailable"@,
        ValuationReason::MissingStartPrice => "missing_start_price"@,
        ValuationReason::MissingEndPrice => "missing_end_price"@,
        ValuationReason::MissingStartFx => "missing_start_fx"@,
        ValuationReason::MissingEndFx => "missing_end_fx"@,
        ValuationReason::MissingTransactionPrice { transaction_id } => "missing_transaction_price_"@
            + int_text(transaction_id as int),
        ValuationReason::MissingTransactionFx { transaction_id } => "missing_transaction_fx_"@
            + int_text(transaction_id as int),
        ValuationReason::ZeroOrInvalidPerformanceDenominator => "zero_or_invalid_performance_denominator"@,
        ValuationReason::PerformanceDidNotConverge => "performance_did_not_converge"@,
    }
}

fn prefixed_number(prefix: &str, n: i64, suffix: &str) -> (s: String)
    ensures
        s@ == prefix@ + int_text(n as int) + suffix@,
{
    let mut s = prefix.to_owned();
    let digits = i64_string(n);
    append_str(&mut s, digits.as_str());
    append_str(&mut s, suffix);
    s
}

/// The code of a valuation reason, as the API reports it.
pub fn serialize_valuation_reason(reason: &ValuationReason) -> (s: String)
    ensures
        s@ == reason_code(*reason),
{
    match reason {
        ValuationReason::MissingPrice => "missing_price".to_owned(),
        ValuationReason::MissingFx => "missing_fx".to_owned(),
        ValuationReason::MissingPreviousClose => "missing_previous_close".to_owned(),
        ValuationReason::PreviousCloseSourceMismatch => "previous_close_source_mismatch".to_owned(),
        ValuationReason::MissingPreviousFx => "missing_previous_fx".to_owned(),
        ValuationReason::StalePrice { trading_days } => prefixed_number(
            "stale_price_",
            *trading_days,
            "_days",
        ),
        ValuationReason::StaleFx { trading_days } => prefixed_number(
            "stale_fx_",
            *trading_days,
            "_days",
        ),
        ValuationReason::ZeroCostBasis => "zero_cost_basis".to_owned(),
        ValuationReason::ZeroPreviousMarketValue => "zero_previous_market_value".to_owned(),
        ValuationReason::BaseCostBasisUnavailable => "base_cost_basis_unavailable".to_owned(),
        ValuationReason::MissingStartPrice => "missing_start_price".to_owned(),
        ValuationReason::MissingEndPrice => "missing_end_price".to_owned(),
        ValuationReason::MissingStartFx => "missing_start_fx".to_owned(),
        ValuationReason::MissingEndFx => "missing_end_fx".to_owned(),
        ValuationReason::MissingTransactionPrice { transaction_id } => {
            proof {
                reveal_strlit("");
            }
            let s = prefixed_number("missing_transaction_price_", *transaction_id, "");
            assert(s@ =~= "missing_transaction_price_"@ + int_text(*transaction_id as int));
            s
        },
        ValuationReason::MissingTransactionFx { transaction_id } => {
            proof {
                reveal_strlit("");
            }
            let s = prefixed_number("missing_transaction_fx_", *transaction_id, "");
            assert(s@ =~= "missing_transaction_fx_"@ + int_text(*transaction_id as int));
            s
        },
        ValuationReason::ZeroOrInvalidPerformanceDenominator => "zero_or_invalid_performance_denominator".to_owned(),
        ValuationReason::PerformanceDidNotConverge => "performance_did_not_converge".to_owned(),
    }
}

/// Codes for a list of reasons, in order.
pub fn serialize_reasons(reasons: &[ValuationReason]) -> (codes: Vec<String>)
    ensures
        codes@.len() == reasons@.len(),
        forall|i: int| 0 <= i < reasons@.len() ==> #[trigger] codes@[i]@ == reason_code(reasons@[i]),
{
    let mut codes: Vec<String> = Vec::new();
    let mut i: usize = 0;
    while i < reasons.len()
        invariant
            i <= reasons@.len(),
            codes@.len() == i,
            forall|j: int| 0 <= j < i ==> #[trigger] codes@[j]@ == reason_code(reasons@[j]),
        decreases reasons@.len() - i,
    {
        codes.push(serialize_valuation_reason(&reasons[i]));
        i = i + 1;
    }
    codes
}

/// How stale a price or FX observation is, in trading days.
#[derive(Clone, Copy, Debug, PartialEq, Eq, Structural)]
pub enum DataFreshness {
    Fresh,
    MinorStale { trading_days: i64 },
    WarningStale { trading_days: i64 },
}

/// The severity class of a freshness: fresh, minor, warning.
pub open spec fn freshness_class(f: DataFreshness) -> int {
    match f {
        DataFreshness::Fresh => 0,
        DataFreshness::MinorStale { .. } => 1,
        DataFreshness::WarningStale { .. } => 2,
    }
}

pub open spec fn freshness_days(f: DataFreshness) -> int {
    match f {
        DataFreshness::Fresh => 0,
        DataFreshness::MinorStale { trading_days } => trading_days as int,
        DataFreshness::WarningStale { trading_days } => trading_days as int,
    }
}

/// Severity order: by class, then by the number of trading days.
pub open spec fn at_least_as_stale(a: DataFreshness, b: DataFreshness) -> bool {
    freshness_class(a) > freshness_class(b) || (freshness_class(a) == freshness_class(b)
        && freshness_days(a) >= freshness_days(b))
}

/// The staler of two freshness values; `left` on a tie.
pub fn staler_freshness(left: DataFreshness, right: DataFreshness) -> (f: DataFreshness)
    ensures
        f == (if at_least_as_stale(left, right) {
            left
        } else {
            right
        }),
        f == left || f == right,
        freshness_class(f) == (if freshness_class(left) >= freshness_class(right) {
            freshness_class(left)
        } else {
            freshness_class(right)
        }),
        freshness_class(left) == freshness_class(right) ==> freshness_days(f) == (if freshness_days(
            left,
        ) >= freshness_days(right) {
            freshness_days(left)
        } else {
            freshness_days(right)
        }),
{
    let (lc, ld): (u8, i64) = match left {
        DataFreshness::Fresh => (0, 0),
        DataFreshness::MinorStale { trading_days } => (1, trading_days),
        DataFreshness::WarningStale { trading_days } => (2, trading_days),
    };
    let (rc, rd): (u8, i64) = match right {
        DataFreshness::Fresh => (0, 0),
        DataFreshness::MinorStale { trading_days } => (1, trading_days),
        DataFreshness::WarningStale { trading_days } => (2, trading_days),
    };
    if lc > rc || (lc == rc && ld >= rd) {
        left
    } else {
        right
    }
}

/// The staler of two freshness values is at least as stale as each of them;
/// any two freshness values are comparable.
pub proof fn lemma_staler_is_at_least_as_stale(a: DataFreshness, b: DataFreshness)
    ensures
        ({
            let s = if at_least_as_stale(a, b) {
                a
            } else {
                b
            };
            at_least_as_stale(s, a) && at_least_as_stale(s, b)
        }),
        at_least_as_stale(a, b) || at_least_as_stale(b, a),
{
}

/// The staler of two freshness values has the higher class of the two, and
/// within one class it carries the larger number of trading days.
pub proof fn lemma_staler_keeps_class_then_days(a: DataFreshness, b: DataFreshness)
    ensures
        ({
            let s = if at_least_as_stale(a, b) {
                a
            } else {
                b
            };
            &&& freshness_class(s) >= freshness_class(a)
            &&& freshness_class(s) >= freshness_class(b)
            &&& (freshness_class(s) == freshness_class(a) || freshness_class(s) == freshness_class(
                b,
            ))
            &&& freshness_class(a) == freshness_class(b) ==> freshness_days(s) >= freshness_days(a)
                && freshness_days(s) >= freshness_days(b)
        }),
{
}

pub open spec fn freshness_code(f: DataFreshness) -> Seq<char> {
    match f {
        DataFreshness::Fresh => "fresh"@,
        DataFreshness::MinorStale { trading_days } => "minor_stale_"@ + int_text(
            trading_days as int,
        ) + "_days"@,
        DataFreshness::WarningStale { trading_days } => "warning_stale_"@ + int_text(
            trading_days as int,
        ) + "_days"@,
    }
}

/// `fresh`, `minor_stale_<n>_days` or `warning_stale_<n>_days`.
pub fn serialize_freshness(freshness: DataFreshness) -> (s: String)
    ensures
        s@ == freshness_code(freshness),
{
    match freshness {
        DataFreshness::Fresh => "fresh".to_owned(),
        DataFreshness::MinorStale { trading_days } => prefixed_number(
            "minor_stale_",
            trading_days,
            "_days",
        ),
        DataFreshness::WarningStale { trading_days } => prefixed_number(
            "warning_stale_",
            trading_days,
            "_days",
        ),
    }
}

/// A valuation figure that is either available or unavailable for reasons.
#[derive(Clone, Debug)]
pub enum Availability<T> {
    Available(T),
    Unavailable { reasons: Vec<ValuationReason> },
}

pub open spec fn availability_reasons<T>(a: Availability<T>) -> Seq<ValuationReason> {
    match a {
        Availability::Available(_) => Seq::empty(),
        Availability::Unavailable { reasons } => reasons@,
    }
}

impl<T> Availability<T> {
    /// The reasons it is unavailable; none when available.
    pub fn reasons(&self) -> (r: Vec<ValuationReason>)
        ensures
            r@ == availability_reasons(*self),
    {
        match self {
            Availability::Available(_) => Vec::new(),
            Availability::Unavailable { reasons } => reasons.clone(),
        }
    }
}

/// The serialised form: `available` with the formatted value, or
/// `unavailable` with the reason codes.
#[derive(Clone, Debug)]
pub enum AvailabilityResponse {
    Available { value: String },
    Unavailable { reasons: Vec<String> },
}

/// Serialises an availability, formatting an available value with `f`.
pub fn serialize_availability<T, F: Fn(&T) -> String>(value: &Availability<T>, f: F) -> (r:
    AvailabilityResponse)
    requires
        value matches Availability::Available(v) ==> call_requires(f, (v,)),
    ensures
        match value {
            Availability::Available(v) => r matches AvailabilityResponse::Available { value: s }
                && call_ensures(f, (v,), s),
            Availability::Unavailable { reasons } => r matches AvailabilityResponse::Unavailable {
                reasons: codes,
            } && codes@.len() == reasons@.len() && forall|i: int|
                0 <= i < reasons@.len() ==> #[trigger] codes@[i]@ == reason_code(reasons@[i]),
        },
{
    match value {
        Availability::Available(v) => AvailabilityResponse::Available { value: f(v) },
        Availability::Unavailable { reasons } => AvailabilityResponse::Unavailable {
            reasons: serialize_reasons(reasons.as_slice()),
        },
    }
}

/// The close a valuation used: its day, amount and currency, the code of
/// where it came from, and how stale it is.
#[derive(Clone, Debug)]
pub struct PriceSnapshot {
    pub date: TradeDate,
    pub close: DecimalNum,
    pub currency: String,
    pub source: String,
    pub freshness: DataFreshness,
}

/// The FX rate a valuation used: `1 base = rate quote` on `date`.
#[derive(Clone, Debug)]
pub struct FxSnapshot {
    pub date: TradeDate,
    pub rate: DecimalNum,
    pub base: String,
    pub quote: String,
    pub freshness: DataFreshness,
}

/// A price snapshot as the API reports it.
#[derive(Clone, Debug)]
pub struct PriceSnapshotResponse {
    pub date: String,
    pub close: String,
    pub currency: String,
    pub source: String,
    pub freshness: String,
}

/// An FX snapshot as the API reports it.
#[derive(Clone, Debug)]
pub struct FxSnapshotResponse {
    pub date: String,
    pub rate: String,
    pub base: String,
    pub quote: String,
    pub freshness: String,
}

/// A price snapshot as reported: the day as `YYYY-MM-DD`, the close as money.
pub fn price_snapshot_response(snapshot: &PriceSnapshot) -> (r: PriceSnapshotResponse)
    requires
        valid_date(snapshot.date),
        snapshot.close.wf(),
    ensures
        r.date@ == ymd_text(
            snapshot.date.year as int,
            snapshot.date.month as int,
            snapshot.date.day as int,
        ),
        r.close@ == money_text(snapshot.close),
        r.currency == snapshot.currency,
        r.source == snapshot.source,
        r.freshness@ == freshness_code(snapshot.freshness),
{
    PriceSnapshotResponse {
        date: format_ymd(snapshot.date),
        close: money_string(snapshot.close),
        currency: snapshot.currency.clone(),
        source: snapshot.source.clone(),
        freshness: serialize_freshness(snapshot.freshness),
    }
}

/// An FX snapshot as reported: the day as `YYYY-MM-DD`, the rate with every
/// stored digit.
pub fn fx_snapshot_response(snapshot: &FxSnapshot) -> (r: FxSnapshotResponse)
    requires
        valid_date(snapshot.date),
        snapshot.rate.wf(),
    ensures
        r.date@ == ymd_text(
            snapshot.date.year as int,
            snapshot.date.month as int,
            snapshot.date.day as int,
        ),
        r.rate@ == decimal_text(snapshot.rate),
        r.base == snapshot.base,
        r.quote == snapshot.quote,
        r.freshness@ == freshness_code(snapshot.freshness),
{
    FxSnapshotResponse {
        date: format_ymd(snapshot.date),
        rate: decimal_string(snapshot.rate),
        base: snapshot.base.clone(),
        quote: snapshot.quote.clone(),
        freshness: serialize_freshness(snapshot.freshness),
    }
}

} // verus!
