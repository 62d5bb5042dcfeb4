//! The rows of the gains report: one per instrument, for an open position
//! together with what was already realized of it, or for a position closed in
//! full. Sums and percentages go through `rust_decimal`'s checked arithmetic;
//! where the plain operators would overflow, a row is not built.
use vstd::prelude::*;

use crate::calendar::{format_ymd, valid_date, ymd_text};
use crate::decimal::{
    checked_product, checked_quotient, checked_sum, decimal_product, decimal_quotient,
    decimal_sum, money_string, money_text, two_places_text, DecimalNum,
};
use crate::error::ApiError;
use crate::gains::{
    amount_wf, base_amount_availability, dedup_spec, flatten, lemma_merged_reasons_are_exact,
    merge_closed_reasons, merge_response_reasons, money_availability, percent_availability,
    percent_of, reports, BaseAmount, GainPositionStatus, GainRow,
};
use crate::holdings::{fx_wf, price_wf, ValuedHolding};
use crate::instruments::{response_of, row_decodes, row_failure, InstrumentResponse, InstrumentRow};
use crate::transactions::TradeDate;
use crate::valuation::{
    availability_reasons, freshness_code, fx_snapshot_response, price_snapshot_response,
    reason_code, serialize_availability, serialize_reasons, Availability, AvailabilityResponse,
    FxSnapshot, FxSnapshotResponse, PriceSnapshot, PriceSnapshotResponse, ValuationReason,
};

verus! {

/// An amount as a plain value: the decimal, or why it is unavailable.
pub open spec fn amount_model(a: Availability<DecimalNum>) -> Result<DecimalNum, Seq<ValuationReason>> {
    match a {
        Availability::Available(v) => Ok(v),
        Availability::Unavailable { reasons } => Err(reasons@),
    }
}

/// The reasons of a modelled amount; none when it is available.
pub open spec fn model_reasons(x: Result<DecimalNum, Seq<ValuationReason>>) -> Seq<ValuationReason> {
    match x {
        Ok(_) => Seq::empty(),
        Err(r) => r,
    }
}

/// `r` reports the modelled amount `x`: the value rendered by `text`, or the
/// reason codes in order.
pub open spec fn reports_model(
    x: Result<DecimalNum, Seq<ValuationReason>>,
    r: AvailabilityResponse,
    text: spec_fn(DecimalNum) -> Seq<char>,
) -> bool {
    match x {
        Ok(v) => r matches AvailabilityResponse::Available { value: s } && s@ == text(v),
        Err(reasons) => r matches AvailabilityResponse::Unavailable { reasons: codes }
            && codes@.len() == reasons.len() && forall|i: int|
            0 <= i < reasons.len() ==> #[trigger] codes@[i]@ == reason_code(reasons[i]),
    }
}

/// The sum of two amounts: available when both are (`None` when the sum
/// overflows), otherwise unavailable with the reasons of the first, then of
/// the second.
pub open spec fn sum_model(
    x: Result<DecimalNum, Seq<ValuationReason>>,
    y: Result<DecimalNum, Seq<ValuationReason>>,
) -> Option<Result<DecimalNum, Seq<ValuationReason>>> {
    match (x, y) {
        (Ok(a), Ok(b)) => match decimal_sum(a, b) {
            Some(c) => Some(Ok(c)),
            None => None,
        },
        _ => Some(Err(model_reasons(x) + model_reasons(y))),
    }
}

/// One hundred.
pub open spec fn hundred() -> DecimalNum {
    DecimalNum { mantissa: 100, scale: 0 }
}

/// `gain` as a percentage of `base`: `(gain / base) * 100` when both are
/// available and the base is not zero (`None` when that overflows); a zero
/// base gives `zero_cost_basis`; otherwise the reasons of both, each once.
pub open spec fn percent_model(
    gain: Result<DecimalNum, Seq<ValuationReason>>,
    base: Result<DecimalNum, Seq<ValuationReason>>,
) -> Option<Result<DecimalNum, Seq<ValuationReason>>> {
    match (gain, base) {
        (Ok(g), Ok(b)) => if b.mantissa == 0 {
            Some(Err(seq![ValuationReason::ZeroCostBasis]))
        } else {
            match decimal_quotient(g, b) {
                Some(q) => match decimal_product(q, hundred()) {
                    Some(p) => Some(Ok(p)),
                    None => None,
                },
                None => None,
            }
        },
        _ => Some(Err(dedup_spec(model_reasons(gain) + model_reasons(base)))),
    }
}

/// A modelled amount whose value lies in the decimal range.
pub open spec fn model_wf(x: Result<DecimalNum, Seq<ValuationReason>>) -> bool {
    x matches Ok(v) ==> v.wf()
}

proof fn lemma_flatten_pair(a: Seq<ValuationReason>, b: Seq<ValuationReason>)
    ensures
        flatten(seq![a, b]) == a + b,
{
    let s2 = seq![a, b];
    let s1 = seq![a];
    assert(s2.drop_last() =~= s1);
    assert(s1.drop_last() =~= Seq::<Seq<ValuationReason>>::empty());
    assert(flatten(Seq::<Seq<ValuationReason>>::empty()) == Seq::<ValuationReason>::empty());
    assert(flatten(s1) == flatten(s1.drop_last()) + s1.last());
    assert(Seq::<ValuationReason>::empty() + a =~= a);
    assert(flatten(s1) == a);
    assert(flatten(s2) == flatten(s2.drop_last()) + s2.last());
}

/// The reasons of both amounts, each once.
fn merged_pair(a: &Availability<DecimalNum>, b: &Availability<DecimalNum>) -> (r: Vec<
    ValuationReason,
>)
    ensures
        r@ == dedup_spec(availability_reasons(*a) + availability_reasons(*b)),
{
    let sources = [a.reasons(), b.reasons()];
    let r = merge_response_reasons(&sources);
    proof {
        assert(sources@.map_values(|v: Vec<ValuationReason>| v@) =~= seq![
            availability_reasons(*a),
            availability_reasons(*b),
        ]);
        lemma_flatten_pair(availability_reasons(*a), availability_reasons(*b));
    }
    r
}

/// The sum of two amounts, as [`sum_model`] states.
pub fn add_amounts(a: &Availability<DecimalNum>, b: &Availability<DecimalNum>) -> (r: Option<
    Availability<DecimalNum>,
>)
    requires
        amount_wf(*a),
        amount_wf(*b),
    ensures
        match sum_model(amount_model(*a), amount_model(*b)) {
            Some(m) => r matches Some(x) && amount_model(x) == m && amount_wf(x),
            None => r is None,
        },
{
    match (a, b) {
        (Availability::Available(x), Availability::Available(y)) => match checked_sum(*x, *y) {
            Some(z) => Some(Availability::Available(z)),
            None => None,
        },
        _ => {
            let mut reasons = a.reasons();
            let rb = b.reasons();
            let ghost ra = reasons@;
            let mut k: usize = 0;
            while k < rb.len()
                invariant
                    k <= rb@.len(),
                    reasons@ == ra + rb@.subrange(0, k as int),
                decreases rb@.len() - k,
            {
                reasons.push(rb[k]);
                k = k + 1;
                assert(reasons@ =~= ra + rb@.subrange(0, k as int));
            }
            assert(rb@.subrange(0, k as int) =~= rb@);
            Some(Availability::Unavailable { reasons })
        },
    }
}

/// `gain` as a percentage of `base`, as [`percent_model`] states.
pub fn percent_amount(gain: &Availability<DecimalNum>, base: &Availability<DecimalNum>) -> (r:
    Option<Availability<DecimalNum>>)
    requires
        amount_wf(*gain),
        amount_wf(*base),
    ensures
        match percent_model(amount_model(*gain), amount_model(*base)) {
            Some(m) => r matches Some(x) && amount_model(x) == m && amount_wf(x),
            None => r is None,
        },
{
    match (gain, base) {
        (Availability::Available(g), Availability::Available(b)) => {
            if b.mantissa == 0 {
                let mut reasons: Vec<ValuationReason> = Vec::new();
                reasons.push(ValuationReason::ZeroCostBasis);
                assert(reasons@ =~= seq![ValuationReason::ZeroCostBasis]);
                Some(Availability::Unavailable { reasons })
            } else {
                match checked_quotient(*g, *b) {
                    Some(q) => match checked_product(q, DecimalNum { mantissa: 100, scale: 0 }) {
                        Some(p) => Some(Availability::Available(p)),
                        None => None,
                    },
                    None => None,
                }
            }
        },
        _ => Some(Availability::Unavailable { reasons: merged_pair(gain, base) }),
    }
}

/// A modelled amount reported with `reports` is reported as the model says.
proof fn lemma_reports_model(a: Availability<DecimalNum>, r: AvailabilityResponse, text: spec_fn(
    DecimalNum,
) -> Seq<char>)
    requires
        reports(a, r, text),
    ensures
        reports_model(amount_model(a), r, text),
{
}

/// `amount` as a percentage of `cost_basis`, reported with two decimals, as
/// [`percent_model`] states; `None` where the division or the scaling to a
/// percentage overflows.
pub fn current_position_percent(
    amount: &Availability<DecimalNum>,
    cost_basis: &Availability<DecimalNum>,
) -> (r: Option<AvailabilityResponse>)
    requires
        amount_wf(*amount),
        amount_wf(*cost_basis),
    ensures
        match percent_model(amount_model(*amount), amount_model(*cost_basis)) {
            Some(m) => r matches Some(x) && reports_model(m, x, |v: DecimalNum| two_places_text(v)),
            None => r is None,
        },
{
    match percent_amount(amount, cost_basis) {
        Some(p) => {
            let x = serialize_availability(&p, percent_of);
            proof {
                lemma_reports_model(p, x, |v: DecimalNum| two_places_text(v));
            }
            Some(x)
        },
        None => None,
    }
}

/// What was realized of an instrument by its sells: cost and proceeds in the
/// instrument's currency, and the base-currency figures, each missing when a
/// transaction lacks its FX rate.
#[derive(Clone, Debug)]
pub struct RealizedGain {
    /// How many shares were sold.
    pub sold_quantity: i64,
    pub cost_basis_native: DecimalNum,
    pub proceeds_native: DecimalNum,
    pub cost_basis_base: BaseAmount,
    pub proceeds_base: BaseAmount,
    pub price_effect_base: BaseAmount,
    pub fx_effect_base: BaseAmount,
    pub gain_base: BaseAmount,
    /// The brokerage charged against the realized part.
    pub fee_base: BaseAmount,
    /// The brokerage of the sells themselves.
    pub sell_brokerage_base: DecimalNum,
}

/// An available base amount lies in the decimal range.
pub open spec fn base_wf(b: BaseAmount) -> bool {
    b matches BaseAmount::Available(d) ==> d.wf()
}

impl RealizedGain {
    pub open spec fn wf(&self) -> bool {
        &&& self.cost_basis_native.wf()
        &&& self.proceeds_native.wf()
        &&& base_wf(self.cost_basis_base)
        &&& base_wf(self.proceeds_base)
        &&& base_wf(self.price_effect_base)
        &&& base_wf(self.fx_effect_base)
        &&& base_wf(self.gain_base)
        &&& base_wf(self.fee_base)
        &&& self.sell_brokerage_base.wf()
    }
}

/// A base amount as a plain value: missing FX is its one reason.
pub open spec fn base_model(b: BaseAmount) -> Result<DecimalNum, Seq<ValuationReason>> {
    match b {
        BaseAmount::Available(d) => Ok(d),
        BaseAmount::Unavailable { .. } => Err(seq![ValuationReason::MissingFx]),
    }
}

/// `r` reports the price snapshot `s`.
pub open spec fn price_reported(s: Option<PriceSnapshot>, r: Option<PriceSnapshotResponse>) -> bool {
    match s {
        Some(p) => r matches Some(x) && x.date@ == ymd_text(
            p.date.year as int,
            p.date.month as int,
            p.date.day as int,
        ) && x.close@ == money_text(p.close) && x.currency == p.currency && x.source == p.source
            && x.freshness@ == freshness_code(p.freshness),
        None => r is None,
    }
}

/// `r` reports the FX snapshot `s`.
pub open spec fn fx_reported(s: Option<FxSnapshot>, r: Option<FxSnapshotResponse>) -> bool {
    match s {
        Some(p) => r matches Some(x) && x.date@ == ymd_text(
            p.date.year as int,
            p.date.month as int,
            p.date.day as int,
        ) && x.rate@ == crate::decimal::decimal_text(p.rate) && x.base == p.base && x.quote
            == p.quote && x.freshness@ == freshness_code(p.freshness),
        None => r is None,
    }
}

/// `codes` are the codes of `reasons`, in order.
pub open spec fn codes_of(reasons: Seq<ValuationReason>, codes: Seq<String>) -> bool {
    codes.len() == reasons.len() && forall|i: int|
        0 <= i < reasons.len() ==> #[trigger] codes[i]@ == reason_code(reasons[i])
}

/// `r` is the report date of a row: `YYYY-MM-DD` when there is one.
pub open spec fn date_reported(d: Option<TradeDate>, r: Option<String>) -> bool {
    match d {
        Some(t) => r matches Some(s) && s@ == ymd_text(t.year as int, t.month as int, t.day as int),
        None => r is None,
    }
}

/// An unavailable figure with no reasons.
pub open spec fn blank(r: AvailabilityResponse) -> bool {
    r matches AvailabilityResponse::Unavailable { reasons } && reasons@.len() == 0
}

fn price_response(s: &Option<PriceSnapshot>) -> (r: Option<PriceSnapshotResponse>)
    requires
        price_wf(*s),
    ensures
        price_reported(*s, r),
{
    match s {
        Some(p) => Some(price_snapshot_response(p)),
        None => None,
    }
}

fn fx_response(s: &Option<FxSnapshot>) -> (r: Option<FxSnapshotResponse>)
    requires
        fx_wf(*s),
    ensures
        fx_reported(*s, r),
{
    match s {
        Some(p) => Some(fx_snapshot_response(p)),
        None => None,
    }
}

fn date_response(d: Option<TradeDate>) -> (r: Option<String>)
    requires
        d matches Some(t) ==> valid_date(t),
    ensures
        date_reported(d, r),
{
    match d {
        Some(t) => Some(format_ymd(t)),
        None => None,
    }
}

fn money_report(a: &Availability<DecimalNum>) -> (r: AvailabilityResponse)
    requires
        amount_wf(*a),
    ensures
        reports_model(amount_model(*a), r, |v: DecimalNum| money_text(v)),
{
    let r = money_availability(a);
    proof {
        lemma_reports_model(*a, r, |v: DecimalNum| money_text(v));
    }
    r
}

fn percent_report(a: &Availability<DecimalNum>) -> (r: AvailabilityResponse)
    requires
        amount_wf(*a),
    ensures
        reports_model(amount_model(*a), r, |v: DecimalNum| two_places_text(v)),
{
    let r = percent_availability(a);
    proof {
        lemma_reports_model(*a, r, |v: DecimalNum| two_places_text(v));
    }
    r
}

fn base_availability(b: &BaseAmount) -> (r: Availability<DecimalNum>)
    requires
        base_wf(*b),
    ensures
        amount_model(r) == base_model(*b),
        amount_wf(r),
{
    let r = base_amount_availability(b);
    proof {
        if r is Unavailable {
            assert(availability_reasons(r) =~= seq![ValuationReason::MissingFx]);
        }
    }
    r
}

fn base_report(b: &BaseAmount) -> (r: AvailabilityResponse)
    requires
        base_wf(*b),
    ensures
        reports_model(base_model(*b), r, |v: DecimalNum| money_text(v)),
{
    let a = base_availability(b);
    money_report(&a)
}

fn blank_report() -> (r: AvailabilityResponse)
    ensures
        blank(r),
{
    AvailabilityResponse::Unavailable { reasons: Vec::new() }
}

fn zero_money() -> (r: AvailabilityResponse)
    ensures
        r matches AvailabilityResponse::Available { value } && value@ == money_text(
            DecimalNum { mantissa: 0, scale: 0 },
        ),
{
    AvailabilityResponse::Available { value: money_string(DecimalNum::zero()) }
}

/// The totals an open row reports: total return (unrealized and realized
/// gain, then income), cost (held and realized), price effect and FX effect
/// (each held plus realized); `None` when a sum overflows.
pub open spec fn open_totals(
    valued: ValuedHolding,
    realized: RealizedGain,
    income: Availability<DecimalNum>,
) -> Option<
    (
        Result<DecimalNum, Seq<ValuationReason>>,
        Result<DecimalNum, Seq<ValuationReason>>,
        Result<DecimalNum, Seq<ValuationReason>>,
        Result<DecimalNum, Seq<ValuationReason>>,
    ),
> {
    match sum_model(amount_model(valued.unrealized_gain_base), base_model(realized.gain_base)) {
        None => None,
        Some(ex_income) => match (
            sum_model(ex_income, amount_model(income)),
            sum_model(amount_model(valued.cost_basis_base), base_model(realized.cost_basis_base)),
            sum_model(amount_model(valued.price_effect_base), base_model(realized.price_effect_base)),
            sum_model(amount_model(valued.fx_effect_base), base_model(realized.fx_effect_base)),
        ) {
            (Some(tg), Some(tc), Some(tp), Some(tf)) => Some((tg, tc, tp, tf)),
            _ => None,
        },
    }
}

/// `row` is the open row of `instrument` for these figures: the sums and
/// their percentages of the total cost given, everything else reported as
/// the valuation and the realized part hold it.
pub open spec fn open_row_is(
    row: GainRow,
    instrument: InstrumentRow,
    valued: ValuedHolding,
    realized: RealizedGain,
    performance_start_date: Option<TradeDate>,
    income: Availability<DecimalNum>,
    brokerage_total: Availability<DecimalNum>,
    totals: (
        Result<DecimalNum, Seq<ValuationReason>>,
        Result<DecimalNum, Seq<ValuationReason>>,
        Result<DecimalNum, Seq<ValuationReason>>,
        Result<DecimalNum, Seq<ValuationReason>>,
    ),
    percents: (
        Result<DecimalNum, Seq<ValuationReason>>,
        Result<DecimalNum, Seq<ValuationReason>>,
        Result<DecimalNum, Seq<ValuationReason>>,
    ),
) -> bool {
    let money = |v: DecimalNum| money_text(v);
    let pct = |v: DecimalNum| two_places_text(v);
    let (total_gain, _total_cost, total_price, total_fx) = totals;
    let (total_pct, capital_pct, currency_pct) = percents;
    &&& row.instrument == response_of(instrument)
    &&& row.quantity == valued.quantity
    &&& row.cost_basis_native@ == money_text(valued.cost_basis_native)
    &&& reports_model(amount_model(valued.cost_basis_base), row.cost_basis_base, money)
    &&& date_reported(performance_start_date, row.performance_start_date)
    &&& reports_model(amount_model(valued.cost_basis_base), row.performance_denominator_base, money)
    &&& reports_model(total_gain, row.total_return_base, money)
    &&& reports_model(total_pct, row.total_return_percent, pct)
    &&& reports_model(total_price, row.capital_gain_base, money)
    &&& reports_model(capital_pct, row.capital_gain_percent, pct)
    &&& reports_model(total_fx, row.currency_gain_base, money)
    &&& reports_model(currency_pct, row.currency_gain_percent, pct)
    &&& reports_model(amount_model(income), row.income_base, money)
    &&& reports_model(total_price, row.price_effect_base, money)
    &&& reports_model(total_fx, row.fx_effect_base, money)
    &&& price_reported(valued.latest_price, row.latest_price)
    &&& price_reported(valued.previous_price, row.previous_price)
    &&& fx_reported(valued.latest_fx, row.latest_fx)
    &&& fx_reported(valued.previous_fx, row.previous_fx)
    &&& reports_model(amount_model(valued.market_value_native), row.market_value_native, money)
    &&& reports_model(amount_model(valued.market_value_base), row.market_value_base, money)
    &&& blank(row.proceeds_native)
    &&& blank(row.proceeds_base)
    &&& reports_model(amount_model(valued.fee_component_base), row.held_fee_component_base, money)
    &&& reports_model(base_model(realized.fee_base), row.realized_fee_base, money)
    &&& row.realized_sell_brokerage_base matches AvailabilityResponse::Available { value } && value@
        == money_text(realized.sell_brokerage_base)
    &&& reports_model(amount_model(brokerage_total), row.brokerage_total_base, money)
    &&& reports_model(amount_model(valued.price_effect_base), row.unrealized_price_effect_base, money)
    &&& reports_model(amount_model(valued.fx_effect_base), row.unrealized_fx_effect_base, money)
    &&& reports_model(amount_model(valued.unrealized_gain_base), row.unrealized_gain_base, money)
    &&& reports_model(amount_model(valued.unrealized_gain_percent), row.unrealized_gain_percent, pct)
    &&& reports_model(base_model(realized.gain_base), row.realized_gain_base, money)
    &&& reports_model(base_model(realized.cost_basis_base), row.realized_cost_basis_base, money)
    &&& reports_model(amount_model(valued.day_change_base), row.day_change_base, money)
    &&& reports_model(amount_model(valued.day_change_percent), row.day_change_percent, pct)
    &&& codes_of(valued.reasons@, row.reasons@)
    &&& row.position_status == GainPositionStatus::Open
}

/// The row of an open position. `None` where a sum or a percentage overflows
/// the decimal range (the plain operators would panic there); otherwise an
/// instrument row that does not decode is its error, and the row is as
/// [`open_row_is`] states, its percentages of the held and realized cost.
pub fn open_gain_row(
    instrument: &InstrumentRow,
    valued: &ValuedHolding,
    realized: &RealizedGain,
    performance_start_date: Option<TradeDate>,
    income_base: &Availability<DecimalNum>,
    brokerage_total_base: &Availability<DecimalNum>,
) -> (r: Option<Result<GainRow, ApiError>>)
    requires
        valued.wf(),
        realized.wf(),
        amount_wf(*income_base),
        amount_wf(*brokerage_total_base),
        performance_start_date matches Some(d) ==> valid_date(d),
    ensures
        match open_totals(*valued, *realized, *income_base) {
            None => r is None,
            Some((tg, tc, tp, tf)) => if !row_decodes(*instrument) {
                r matches Some(Err(e)) && row_failure(*instrument, e)
            } else {
                match (percent_model(tg, tc), percent_model(tp, tc), percent_model(tf, tc)) {
                    (Some(ptr), Some(pcap), Some(pcur)) => r matches Some(Ok(row)) && open_row_is(
                        row,
                        *instrument,
                        *valued,
                        *realized,
                        performance_start_date,
                        *income_base,
                        *brokerage_total_base,
                        (tg, tc, tp, tf),
                        (ptr, pcap, pcur),
                    ),
                    _ => r is None,
                }
            },
        },
{
    let realized_gain = base_availability(&realized.gain_base);
    let realized_cost = base_availability(&realized.cost_basis_base);
    let realized_price = base_availability(&realized.price_effect_base);
    let realized_fx = base_availability(&realized.fx_effect_base);
    let total_gain_ex_income = match add_amounts(&valued.unrealized_gain_base, &realized_gain) {
        Some(a) => a,
        None => {
            return None;
        },
    };
    let total_gain = add_amounts(&total_gain_ex_income, income_base);
    let total_cost = add_amounts(&valued.cost_basis_base, &realized_cost);
    let total_price = add_amounts(&valued.price_effect_base, &realized_price);
    let total_fx = add_amounts(&valued.fx_effect_base, &realized_fx);
    let (total_gain, total_cost, total_price, total_fx) = match (
        total_gain,
        total_cost,
        total_price,
        total_fx,
    ) {
        (Some(a), Some(b), Some(c), Some(d)) => (a, b, c, d),
        _ => {
            return None;
        },
    };
    let instrument_response = match InstrumentResponse::from_row(instrument) {
        Ok(resp) => resp,
        Err(e) => {
            return Some(Err(e));
        },
    };
    let total_return_percent = match current_position_percent(&total_gain, &total_cost) {
        Some(p) => p,
        None => {
            return None;
        },
    };
    let capital_gain_percent = match current_position_percent(&total_price, &total_cost) {
        Some(p) => p,
        None => {
            return None;
        },
    };
    let currency_gain_percent = match current_position_percent(&total_fx, &total_cost) {
        Some(p) => p,
        None => {
            return None;
        },
    };
    Some(
        Ok(
            GainRow {
                instrument: instrument_response,
                quantity: valued.quantity,
                cost_basis_native: money_string(valued.cost_basis_native),
                cost_basis_base: money_report(&valued.cost_basis_base),
                performance_start_date: date_response(performance_start_date),
                performance_denominator_base: money_report(&valued.cost_basis_base),
                capital_gain_base: money_report(&total_price),
                capital_gain_percent,
                currency_gain_base: money_report(&total_fx),
                currency_gain_percent,
                income_base: money_report(income_base),
                total_return_base: money_report(&total_gain),
                total_return_percent,
                price_effect_base: money_report(&total_price),
                fx_effect_base: money_report(&total_fx),
                latest_price: price_response(&valued.latest_price),
                previous_price: price_response(&valued.previous_price),
                latest_fx: fx_response(&valued.latest_fx),
                previous_fx: fx_response(&valued.previous_fx),
                market_value_native: money_report(&valued.market_value_native),
                market_value_base: money_report(&valued.market_value_base),
                proceeds_native: blank_report(),
                proceeds_base: blank_report(),
                held_fee_component_base: money_report(&valued.fee_component_base),
                realized_fee_base: base_report(&realized.fee_base),
                realized_sell_brokerage_base: AvailabilityResponse::Available {
                    value: money_string(realized.sell_brokerage_base),
                },
                brokerage_total_base: money_report(brokerage_total_base),
                unrealized_price_effect_base: money_report(&valued.price_effect_base),
                unrealized_fx_effect_base: money_report(&valued.fx_effect_base),
                unrealized_gain_base: money_report(&valued.unrealized_gain_base),
                unrealized_gain_percent: percent_report(&valued.unrealized_gain_percent),
                realized_gain_base: base_report(&realized.gain_base),
                realized_cost_basis_base: base_report(&realized.cost_basis_base),
                day_change_base: money_report(&valued.day_change_base),
                day_change_percent: percent_report(&valued.day_change_percent),
                reasons: serialize_reasons(valued.reasons.as_slice()),
                position_status: GainPositionStatus::Open,
            },
        ),
    )
}

/// The total return of a closed row: the realized gain plus income when both
/// are available (`None` when the sum overflows), else the realized gain as
/// it is.
pub open spec fn closed_total(
    gain: Result<DecimalNum, Seq<ValuationReason>>,
    income: Result<DecimalNum, Seq<ValuationReason>>,
) -> Option<Result<DecimalNum, Seq<ValuationReason>>> {
    match (gain, income) {
        (Ok(g), Ok(i)) => match decimal_sum(g, i) {
            Some(t) => Some(Ok(t)),
            None => None,
        },
        _ => Some(gain),
    }
}

/// The reasons a closed row shows: those of its cost, proceeds, effects, gain
/// and gain percentage, each once.
pub open spec fn closed_reasons(
    realized: RealizedGain,
    gain_percent: Result<DecimalNum, Seq<ValuationReason>>,
) -> Seq<ValuationReason> {
    dedup_spec(
        flatten(
            seq![
                model_reasons(base_model(realized.cost_basis_base)),
                model_reasons(base_model(realized.proceeds_base)),
                model_reasons(base_model(realized.price_effect_base)),
                model_reasons(base_model(realized.fx_effect_base)),
                model_reasons(base_model(realized.gain_base)),
                model_reasons(gain_percent),
            ],
        ),
    )
}

/// `row` is the closed row of `instrument` for these figures: nothing held,
/// every figure the realized one, percentages of the realized cost.
pub open spec fn closed_row_is(
    row: GainRow,
    instrument: InstrumentRow,
    realized: RealizedGain,
    performance_start_date: Option<TradeDate>,
    income: Availability<DecimalNum>,
    brokerage_total: Availability<DecimalNum>,
    gain_percent: Result<DecimalNum, Seq<ValuationReason>>,
    total_return: Result<DecimalNum, Seq<ValuationReason>>,
    percents: (
        Result<DecimalNum, Seq<ValuationReason>>,
        Result<DecimalNum, Seq<ValuationReason>>,
        Result<DecimalNum, Seq<ValuationReason>>,
    ),
) -> bool {
    let money = |v: DecimalNum| money_text(v);
    let pct = |v: DecimalNum| two_places_text(v);
    let (capital_pct, currency_pct, total_pct) = percents;
    let zero = money_text(DecimalNum { mantissa: 0, scale: 0 });
    &&& row.instrument == response_of(instrument)
    &&& row.quantity == 0
    &&& row.cost_basis_native@ == money_text(realized.cost_basis_native)
    &&& reports_model(base_model(realized.cost_basis_base), row.cost_basis_base, money)
    &&& date_reported(performance_start_date, row.performance_start_date)
    &&& reports_model(base_model(realized.cost_basis_base), row.performance_denominator_base, money)
    &&& reports_model(base_model(realized.price_effect_base), row.capital_gain_base, money)
    &&& reports_model(capital_pct, row.capital_gain_percent, pct)
    &&& reports_model(base_model(realized.fx_effect_base), row.currency_gain_base, money)
    &&& reports_model(currency_pct, row.currency_gain_percent, pct)
    &&& reports_model(amount_model(income), row.income_base, money)
    &&& reports_model(total_return, row.total_return_base, money)
    &&& reports_model(total_pct, row.total_return_percent, pct)
    &&& reports_model(base_model(realized.price_effect_base), row.price_effect_base, money)
    &&& reports_model(base_model(realized.fx_effect_base), row.fx_effect_base, money)
    &&& row.latest_price is None && row.previous_price is None
    &&& row.latest_fx is None && row.previous_fx is None
    &&& row.market_value_native matches AvailabilityResponse::Available { value } && value@ == zero
    &&& row.market_value_base matches AvailabilityResponse::Available { value } && value@ == zero
    &&& row.proceeds_native matches AvailabilityResponse::Available { value } && value@
        == money_text(realized.proceeds_native)
    &&& reports_model(base_model(realized.proceeds_base), row.proceeds_base, money)
    &&& row.held_fee_component_base matches AvailabilityResponse::Available { value } && value@
        == zero
    &&& reports_model(base_model(realized.fee_base), row.realized_fee_base, money)
    &&& row.realized_sell_brokerage_base matches AvailabilityResponse::Available { value } && value@
        == money_text(realized.sell_brokerage_base)
    &&& reports_model(amount_model(brokerage_total), row.brokerage_total_base, money)
    &&& reports_model(base_model(realized.price_effect_base), row.unrealized_price_effect_base, money)
    &&& reports_model(base_model(realized.fx_effect_base), row.unrealized_fx_effect_base, money)
    &&& reports_model(base_model(realized.gain_base), row.unrealized_gain_base, money)
    &&& reports_model(gain_percent, row.unrealized_gain_percent, pct)
    &&& reports_model(base_model(realized.gain_base), row.realized_gain_base, money)
    &&& reports_model(base_model(realized.cost_basis_base), row.realized_cost_basis_base, money)
    &&& blank(row.day_change_base)
    &&& blank(row.day_change_percent)
    &&& codes_of(closed_reasons(realized, gain_percent), row.reasons@)
    &&& row.position_status == GainPositionStatus::Closed
}

/// The row of a position closed in full. `None` where a percentage or the
/// total return overflows the decimal range (the plain operators would panic
/// there); otherwise an instrument row that does not decode is its error, and
/// the row is as [`closed_row_is`] states.
pub fn closed_gain_row(
    instrument: &InstrumentRow,
    realized: &RealizedGain,
    performance_start_date: Option<TradeDate>,
    income_base: &Availability<DecimalNum>,
    brokerage_total_base: &Availability<DecimalNum>,
) -> (r: Option<Result<GainRow, ApiError>>)
    requires
        realized.wf(),
        amount_wf(*income_base),
        amount_wf(*brokerage_total_base),
        performance_start_date matches Some(d) ==> valid_date(d),
    ensures
        match percent_model(base_model(realized.gain_base), base_model(realized.cost_basis_base)) {
            None => r is None,
            Some(gp) => if !row_decodes(*instrument) {
                r matches Some(Err(e)) && row_failure(*instrument, e)
            } else {
                match (
                    percent_model(
                        base_model(realized.price_effect_base),
                        base_model(realized.cost_basis_base),
                    ),
                    percent_model(
                        base_model(realized.fx_effect_base),
                        base_model(realized.cost_basis_base),
                    ),
                    closed_total(base_model(realized.gain_base), amount_model(*income_base)),
                ) {
                    (Some(pcap), Some(pcur), Some(tr)) => match percent_model(
                        tr,
                        base_model(realized.cost_basis_base),
                    ) {
                        Some(ptr) => r matches Some(Ok(row)) && closed_row_is(
                            row,
                            *instrument,
                            *realized,
                            performance_start_date,
                            *income_base,
                            *brokerage_total_base,
                            gp,
                            tr,
                            (pcap, pcur, ptr),
                        ),
                        None => r is None,
                    },
                    _ => r is None,
                }
            },
        },
{
    let cost_basis = base_availability(&realized.cost_basis_base);
    let gain = base_availability(&realized.gain_base);
    let proceeds = base_availability(&realized.proceeds_base);
    let price_effect = base_availability(&realized.price_effect_base);
    let fx_effect = base_availability(&realized.fx_effect_base);
    let gain_percent = match percent_amount(&gain, &cost_basis) {
        Some(p) => p,
        None => {
            return None;
        },
    };
    let sources = [
        cost_basis.reasons(),
        proceeds.reasons(),
        price_effect.reasons(),
        fx_effect.reasons(),
        gain.reasons(),
        gain_percent.reasons(),
    ];
    let merged = merge_closed_reasons(&sources);
    proof {
        assert(sources@.map_values(|v: Vec<ValuationReason>| v@) =~= seq![
            model_reasons(base_model(realized.cost_basis_base)),
            model_reasons(base_model(realized.proceeds_base)),
            model_reasons(base_model(realized.price_effect_base)),
            model_reasons(base_model(realized.fx_effect_base)),
            model_reasons(base_model(realized.gain_base)),
            model_reasons(amount_model(gain_percent)),
        ]);
        lemma_merged_reasons_are_exact(sources@.map_values(|v: Vec<ValuationReason>| v@));
    }
    let mut reasons = merged;
    crate::gains::dedup_valuation_reasons(&mut reasons);
    let instrument_response = match InstrumentResponse::from_row(instrument) {
        Ok(resp) => resp,
        Err(e) => {
            return Some(Err(e));
        },
    };
    let capital_gain_percent = match current_position_percent(&price_effect, &cost_basis) {
        Some(p) => p,
        None => {
            return None;
        },
    };
    let currency_gain_percent = match current_position_percent(&fx_effect, &cost_basis) {
        Some(p) => p,
        None => {
            return None;
        },
    };
    let total_return = match (&gain, income_base) {
        (Availability::Available(g), Availability::Available(i)) => match checked_sum(*g, *i) {
            Some(t) => Availability::Available(t),
            None => {
                return None;
            },
        },
        _ => base_availability(&realized.gain_base),
    };
    let total_return_percent = match current_position_percent(&total_return, &cost_basis) {
        Some(p) => p,
        None => {
            return None;
        },
    };
    Some(
        Ok(
            GainRow {
                instrument: instrument_response,
                quantity: 0,
                cost_basis_native: money_string(realized.cost_basis_native),
                cost_basis_base: money_report(&cost_basis),
                performance_start_date: date_response(performance_start_date),
                performance_denominator_base: money_report(&cost_basis),
                capital_gain_base: money_report(&price_effect),
                capital_gain_percent,
                currency_gain_base: money_report(&fx_effect),
                currency_gain_percent,
                income_base: money_report(income_base),
                total_return_base: money_report(&total_return),
                total_return_percent,
                price_effect_base: money_report(&price_effect),
                fx_effect_base: money_report(&fx_effect),
                latest_price: None,
                previous_price: None,
                latest_fx: None,
                previous_fx: None,
                market_value_native: zero_money(),
                market_value_base: zero_money(),
                proceeds_native: AvailabilityResponse::Available {
                    value: money_string(realized.proceeds_native),
                },
                proceeds_base: money_report(&proceeds),
                held_fee_component_base: zero_money(),
                realized_fee_base: base_report(&realized.fee_base),
                realized_sell_brokerage_base: AvailabilityResponse::Available {
                    value: money_string(realized.sell_brokerage_base),
                },
                brokerage_total_base: money_report(brokerage_total_base),
                unrealized_price_effect_base: money_report(&price_effect),
                unrealized_fx_effect_base: money_report(&fx_effect),
                unrealized_gain_base: money_report(&gain),
                unrealized_gain_percent: percent_report(&gain_percent),
                realized_gain_base: money_report(&gain),
                realized_cost_basis_base: money_report(&cost_basis),
                day_change_base: blank_report(),
                day_change_percent: blank_report(),
                reasons: serialize_reasons(reasons.as_slice()),
                position_status: GainPositionStatus::Closed,
            },
        ),
    )
}

/// What the report knows of one instrument with trades up to the report end:
/// its position, what was sold, whether it was exposed during the period,
/// the realized part, the valuation of what is held, and its period income
/// and brokerage in the base currency.
#[derive(Clone, Debug)]
pub struct InstrumentPeriod {
    pub instrument: InstrumentRow,
    pub held_quantity: i64,
    pub has_period_exposure: bool,
    pub realized: RealizedGain,
    pub valued: Option<ValuedHolding>,
    pub income_base: Availability<DecimalNum>,
    pub brokerage_total_base: Availability<DecimalNum>,
}

impl InstrumentPeriod {
    pub open spec fn wf(&self) -> bool {
        &&& self.realized.wf()
        &&& amount_wf(self.income_base)
        &&& amount_wf(self.brokerage_total_base)
        &&& self.held_quantity != 0 ==> (self.valued matches Some(v) && v.wf())
    }
}

/// Whether an instrument gets a row: a held position always; a closed one
/// only when closed positions are asked for and something was sold.
pub open spec fn gets_row(p: InstrumentPeriod, include_closed: bool) -> bool {
    p.held_quantity != 0 || (include_closed && p.realized.sold_quantity > 0)
}

/// The instruments that get a row, in order.
pub open spec fn row_instruments(periods: Seq<InstrumentPeriod>, include_closed: bool) -> Seq<
    InstrumentPeriod,
>
    decreases periods.len(),
{
    if periods.len() == 0 {
        Seq::empty()
    } else {
        let before = row_instruments(periods.drop_last(), include_closed);
        if gets_row(periods.last(), include_closed) {
            before.push(periods.last())
        } else {
            before
        }
    }
}

/// The period start shown on a row: the report start when the instrument
/// was exposed during the period.
pub open spec fn start_shown(p: InstrumentPeriod, report_start: TradeDate) -> Option<TradeDate> {
    if p.has_period_exposure {
        Some(report_start)
    } else {
        None
    }
}

/// The outcome of building one instrument's row: `Some(Ok(row))` with the
/// row as stated, `Some(Err(e))` for an instrument that does not decode, or
/// `None` where a sum or percentage overflows.
pub open spec fn row_outcome(
    p: InstrumentPeriod,
    report_start: TradeDate,
    r: Option<Result<GainRow, ApiError>>,
) -> bool {
    let start = start_shown(p, report_start);
    if p.held_quantity != 0 {
        let valued = p.valued->Some_0;
        match open_totals(valued, p.realized, p.income_base) {
            None => r is None,
            Some((tg, tc, tp, tf)) => if !row_decodes(p.instrument) {
                r matches Some(Err(e)) && row_failure(p.instrument, e)
            } else {
                match (percent_model(tg, tc), percent_model(tp, tc), percent_model(tf, tc)) {
                    (Some(ptr), Some(pcap), Some(pcur)) => r matches Some(Ok(row)) && open_row_is(
                        row,
                        p.instrument,
                        valued,
                        p.realized,
                        start,
                        p.income_base,
                        p.brokerage_total_base,
                        (tg, tc, tp, tf),
                        (ptr, pcap, pcur),
                    ),
                    _ => r is None,
                }
            },
        }
    } else {
        let cb = base_model(p.realized.cost_basis_base);
        match percent_model(base_model(p.realized.gain_base), cb) {
            None => r is None,
            Some(gp) => if !row_decodes(p.instrument) {
                r matches Some(Err(e)) && row_failure(p.instrument, e)
            } else {
                match (
                    percent_model(base_model(p.realized.price_effect_base), cb),
                    percent_model(base_model(p.realized.fx_effect_base), cb),
                    closed_total(base_model(p.realized.gain_base), amount_model(p.income_base)),
                ) {
                    (Some(pcap), Some(pcur), Some(tr)) => match percent_model(tr, cb) {
                        Some(ptr) => r matches Some(Ok(row)) && closed_row_is(
                            row,
                            p.instrument,
                            p.realized,
                            start,
                            p.income_base,
                            p.brokerage_total_base,
                            gp,
                            tr,
                            (pcap, pcur, ptr),
                        ),
                        None => r is None,
                    },
                    _ => r is None,
                }
            },
        }
    }
}

/// The first `n` instruments of `kept` each give a row.
pub open spec fn rows_built(kept: Seq<InstrumentPeriod>, report_start: TradeDate, n: int) -> bool {
    forall|j: int| 0 <= j < n ==> #[trigger] gives_row(kept[j], report_start)
}

/// The instrument's row can be built.
pub open spec fn gives_row(p: InstrumentPeriod, report_start: TradeDate) -> bool {
    exists|row: GainRow| row_outcome(p, report_start, Some(Ok(row)))
}

/// The instruments of a prefix that get a row begin the whole list's.
proof fn lemma_row_instruments_prefix(s: Seq<InstrumentPeriod>, include_closed: bool, n: int)
    requires
        0 <= n <= s.len(),
    ensures
        row_instruments(s.subrange(0, n), include_closed).len() <= row_instruments(
            s,
            include_closed,
        ).len(),
        forall|k: int|
            0 <= k < row_instruments(s.subrange(0, n), include_closed).len() ==> row_instruments(
                s,
                include_closed,
            )[k] == #[trigger] row_instruments(s.subrange(0, n), include_closed)[k],
    decreases s.len() - n,
{
    if n < s.len() {
        lemma_row_instruments_prefix(s, include_closed, n + 1);
        let a = s.subrange(0, n + 1);
        assert(a.drop_last() =~= s.subrange(0, n));
        let pa = row_instruments(a, include_closed);
        let pn = row_instruments(s.subrange(0, n), include_closed);
        assert(pa == if gets_row(a.last(), include_closed) {
            pn.push(a.last())
        } else {
            pn
        });
        assert forall|k: int| 0 <= k < pn.len() implies row_instruments(s, include_closed)[k]
            == #[trigger] pn[k] by {
            assert(pa[k] == pn[k]);
            assert(row_instruments(s, include_closed)[k] == pa[k]);
        }
    } else {
        assert(s.subrange(0, n) =~= s);
    }
}

/// One instrument's row, as [`row_outcome`] states.
pub fn gain_row_of(p: &InstrumentPeriod, report_start: TradeDate) -> (r: Option<
    Result<GainRow, ApiError>,
>)
    requires
        p.wf(),
        valid_date(report_start),
    ensures
        row_outcome(*p, report_start, r),
{
    let start = if p.has_period_exposure {
        Some(report_start)
    } else {
        None
    };
    if p.held_quantity != 0 {
        match &p.valued {
            Some(valued) => open_gain_row(
                &p.instrument,
                valued,
                &p.realized,
                start,
                &p.income_base,
                &p.brokerage_total_base,
            ),
            None => None,
        }
    } else {
        closed_gain_row(&p.instrument, &p.realized, start, &p.income_base, &p.brokerage_total_base)
    }
}

/// The rows of the report, one per instrument that gets one, in order. The
/// first instrument whose row cannot be built decides: `Some(Err(e))` when it
/// does not decode, `None` when a figure of it overflows.
pub fn gains_rows(periods: &Vec<InstrumentPeriod>, include_closed: bool, report_start: TradeDate) -> (r:
    Option<Result<Vec<GainRow>, ApiError>>)
    requires
        forall|i: int| 0 <= i < periods@.len() ==> (#[trigger] periods@[i]).wf(),
        valid_date(report_start),
    ensures
        r matches Some(Ok(rows)) ==> rows@.len() == row_instruments(periods@, include_closed).len()
            && forall|k: int|
            0 <= k < rows@.len() ==> row_outcome(
                row_instruments(periods@, include_closed)[k],
                report_start,
                Some(Ok(#[trigger] rows@[k])),
            ),
        r matches Some(Err(e)) ==> exists|k: int|
            0 <= k < row_instruments(periods@, include_closed).len() && row_outcome(
                #[trigger] row_instruments(periods@, include_closed)[k],
                report_start,
                Some(Err(e)),
            ) && rows_built(row_instruments(periods@, include_closed), report_start, k),
        r is None ==> exists|k: int|
            0 <= k < row_instruments(periods@, include_closed).len() && row_outcome(
                #[trigger] row_instruments(periods@, include_closed)[k],
                report_start,
                None,
            ) && rows_built(row_instruments(periods@, include_closed), report_start, k),
{
    let mut rows: Vec<GainRow> = Vec::new();
    let mut i: usize = 0;
    while i < periods.len()
        invariant
            i <= periods@.len(),
            forall|j: int| 0 <= j < periods@.len() ==> (#[trigger] periods@[j]).wf(),
            valid_date(report_start),
            rows@.len() == row_instruments(periods@.subrange(0, i as int), include_closed).len(),
            forall|k: int|
                0 <= k < rows@.len() ==> row_outcome(
                    row_instruments(periods@.subrange(0, i as int), include_closed)[k],
                    report_start,
                    Some(Ok(#[trigger] rows@[k])),
                ),
        decreases periods@.len() - i,
    {
        let p = &periods[i];
        let ghost before = row_instruments(periods@.subrange(0, i as int), include_closed);
        assert(periods@.subrange(0, i + 1).drop_last() =~= periods@.subrange(0, i as int));
        assert(periods@.subrange(0, i + 1).last() == periods@[i as int]);
        if p.held_quantity != 0 || (include_closed && p.realized.sold_quantity > 0) {
            match gain_row_of(p, report_start) {
                Some(Ok(row)) => {
                    rows.push(row);
                },
                other => {
                    proof {
                        lemma_row_instruments_prefix(periods@, include_closed, i as int + 1);
                        let kept = row_instruments(periods@, include_closed);
                        let k = before.len() as int;
                        assert(row_instruments(periods@.subrange(0, i + 1), include_closed)
                            == before.push(periods@[i as int]));
                        let pre = row_instruments(periods@.subrange(0, i + 1), include_closed);
                        assert(pre[k] == periods@[i as int]);
                        assert(kept[k] == pre[k]);
                        assert forall|j: int| 0 <= j < k implies #[trigger] gives_row(
                            kept[j],
                            report_start,
                        ) by {
                            assert(pre[j] == before[j]);
                            assert(kept[j] == pre[j]);
                            assert(row_outcome(before[j], report_start, Some(Ok(rows@[j]))));
                            assert(row_outcome(kept[j], report_start, Some(Ok(rows@[j]))));
                        }
                        assert(rows_built(kept, report_start, k));
                        assert(row_outcome(kept[k], report_start, other));
                        assert(0 <= k < kept.len());
                    }
                    return match other {
                        Some(Err(e)) => Some(Err(e)),
                        _ => None,
                    };
                },
            }
        }
        i = i + 1;
    }
    assert(periods@.subrange(0, i as int) =~= periods@);
    Some(Ok(rows))
}

/// An open row's total return is its unrealized gain plus its realized gain
/// plus its income whenever all three are available: `(u + g) + i`.
pub proof fn lemma_open_total_return_adds_income(
    valued: ValuedHolding,
    realized: RealizedGain,
    income: Availability<DecimalNum>,
    u: DecimalNum,
    g: DecimalNum,
    i: DecimalNum,
)
    requires
        valued.unrealized_gain_base == Availability::<DecimalNum>::Available(u),
        realized.gain_base == BaseAmount::Available(g),
        income == Availability::<DecimalNum>::Available(i),
        open_totals(valued, realized, income) is Some,
    ensures
        decimal_sum(u, g) matches Some(ug) && decimal_sum(ug, i) matches Some(t)
            && open_totals(valued, realized, income)->Some_0.0 == Ok::<
            DecimalNum,
            Seq<ValuationReason>,
        >(t),
{
}

/// The open row built for such figures reports that total return, as money,
/// in `total_return_base`.
pub proof fn lemma_open_row_reports_total_with_income(
    row: GainRow,
    instrument: InstrumentRow,
    valued: ValuedHolding,
    realized: RealizedGain,
    performance_start_date: Option<TradeDate>,
    income: Availability<DecimalNum>,
    brokerage_total: Availability<DecimalNum>,
    percents: (
        Result<DecimalNum, Seq<ValuationReason>>,
        Result<DecimalNum, Seq<ValuationReason>>,
        Result<DecimalNum, Seq<ValuationReason>>,
    ),
    u: DecimalNum,
    g: DecimalNum,
    i: DecimalNum,
)
    requires
        valued.unrealized_gain_base == Availability::<DecimalNum>::Available(u),
        realized.gain_base == BaseAmount::Available(g),
        income == Availability::<DecimalNum>::Available(i),
        open_totals(valued, realized, income) is Some,
        open_row_is(
            row,
            instrument,
            valued,
            realized,
            performance_start_date,
            income,
            brokerage_total,
            open_totals(valued, realized, income)->Some_0,
            percents,
        ),
    ensures
        decimal_sum(u, g) matches Some(ug) && decimal_sum(ug, i) matches Some(t)
            && row.total_return_base matches AvailabilityResponse::Available { value }
            && value@ == money_text(t),
{
    lemma_open_total_return_adds_income(valued, realized, income, u, g, i);
}

/// An open row's cost, price effect and FX effect are each the held figure
/// plus the realized one whenever both are available.
pub proof fn lemma_open_totals_add_held_and_realized(
    valued: ValuedHolding,
    realized: RealizedGain,
    income: Availability<DecimalNum>,
)
    requires
        open_totals(valued, realized, income) is Some,
    ensures
        ({
            let totals = open_totals(valued, realized, income)->Some_0;
            let tc = totals.1;
            let tp = totals.2;
            let tf = totals.3;
            &&& valued.cost_basis_base matches Availability::Available(c) ==> (realized.cost_basis_base matches BaseAmount::Available(
                rc,
            ) ==> (decimal_sum(c, rc) matches Some(x) && tc == Ok::<
                DecimalNum,
                Seq<ValuationReason>,
            >(x)))
            &&& valued.price_effect_base matches Availability::Available(p) ==> (realized.price_effect_base matches BaseAmount::Available(
                rp,
            ) ==> (decimal_sum(p, rp) matches Some(x) && tp == Ok::<
                DecimalNum,
                Seq<ValuationReason>,
            >(x)))
            &&& valued.fx_effect_base matches Availability::Available(f) ==> (realized.fx_effect_base matches BaseAmount::Available(
                rf,
            ) ==> (decimal_sum(f, rf) matches Some(x) && tf == Ok::<
                DecimalNum,
                Seq<ValuationReason>,
            >(x)))
        }),
{
}

/// A closed row's total return is its realized gain plus its income when
/// both are available, and its realized gain alone when the income is not.
pub proof fn lemma_closed_total_adds_income(g: DecimalNum, income: Availability<DecimalNum>)
    ensures
        income matches Availability::Available(i) ==> closed_total(
            Ok(g),
            amount_model(income),
        ) == match decimal_sum(g, i) {
            Some(t) => Some(Ok::<DecimalNum, Seq<ValuationReason>>(t)),
            None => None,
        },
        income is Unavailable ==> closed_total(Ok(g), amount_model(income)) == Some(
            Ok::<DecimalNum, Seq<ValuationReason>>(g),
        ),
{
}

} // verus!
