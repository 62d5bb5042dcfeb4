//! The portfolio's performance over a report period: the per-instrument
//! period amounts summed up, and the percentages each return method reports
//! from the sums. The money-weighted return, the modified Dietz denominator
//! and the annualisation are computed elsewhere and handed in; what is done
//! with them is stated here.
use vstd::prelude::*;

use crate::decimal::{
    checked_product, checked_quotient, checked_sum, decimal_product, decimal_quotient,
    decimal_sum, money_string, money_text, two_places_string, two_places_text, DecimalNum,
};
use crate::gain_rows::{codes_of, hundred};
use crate::gains::{amount_wf, dedup_spec, dedup_valuation_reasons, flatten, ReturnMethod};
use crate::transactions::TradeDate;
use crate::valuation::{
    availability_reasons, serialize_reasons, Availability, AvailabilityResponse, ValuationReason,
};

verus! {

/// A dated cash flow in the base currency: positive into the position.
#[derive(Clone, Copy, Debug, PartialEq, Eq, Structural)]
pub struct CashFlow {
    pub date: TradeDate,
    pub amount_base: DecimalNum,
}

/// What one instrument contributed over the period, in the base currency.
#[derive(Clone, Debug)]
pub struct PeriodAmounts {
    pub begin_market_value_base: Availability<DecimalNum>,
    pub end_market_value_base: Availability<DecimalNum>,
    pub total_return_base: Availability<DecimalNum>,
    pub capital_gain_base: Availability<DecimalNum>,
    pub currency_gain_base: Availability<DecimalNum>,
    pub income_base: Availability<DecimalNum>,
}

impl PeriodAmounts {
    pub open spec fn wf(&self) -> bool {
        &&& amount_wf(self.begin_market_value_base)
        &&& amount_wf(self.end_market_value_base)
        &&& amount_wf(self.total_return_base)
        &&& amount_wf(self.capital_gain_base)
        &&& amount_wf(self.currency_gain_base)
        &&& amount_wf(self.income_base)
    }
}

/// The period amounts of every instrument with full data summed up, the cash
/// flows gathered, and for the others the count and the reasons.
#[derive(Clone, Debug)]
pub struct PerformanceAccumulator {
    pub begin_mv: DecimalNum,
    pub end_mv: DecimalNum,
    pub total_return: DecimalNum,
    pub capital_gain: DecimalNum,
    pub currency_gain: DecimalNum,
    pub income_gain: DecimalNum,
    pub cash_flows: Vec<CashFlow>,
    pub actual_cash_flows: Vec<CashFlow>,
    pub unavailable_reasons: Vec<ValuationReason>,
    pub excluded_rows: usize,
    pub has_data: bool,
}

/// Every flow lies in the decimal range.
pub open spec fn flows_wf(flows: Seq<CashFlow>) -> bool {
    forall|i: int| 0 <= i < flows.len() ==> (#[trigger] flows[i]).amount_base.wf()
}

impl PerformanceAccumulator {
    pub open spec fn wf(&self) -> bool {
        &&& self.begin_mv.wf()
        &&& self.end_mv.wf()
        &&& self.total_return.wf()
        &&& self.capital_gain.wf()
        &&& self.currency_gain.wf()
        &&& self.income_gain.wf()
        &&& flows_wf(self.cash_flows@)
        &&& flows_wf(self.actual_cash_flows@)
    }

    /// Nothing added yet: every sum zero, no flows, no exclusions.
    pub fn new() -> (acc: Self)
        ensures
            acc.wf(),
            acc.begin_mv == DecimalNum::zero_spec() && acc.end_mv == DecimalNum::zero_spec(),
            acc.total_return == DecimalNum::zero_spec() && acc.capital_gain
                == DecimalNum::zero_spec(),
            acc.currency_gain == DecimalNum::zero_spec() && acc.income_gain
                == DecimalNum::zero_spec(),
            acc.cash_flows@.len() == 0 && acc.actual_cash_flows@.len() == 0,
            acc.unavailable_reasons@.len() == 0,
            acc.excluded_rows == 0,
            !acc.has_data,
    {
        PerformanceAccumulator {
            begin_mv: DecimalNum::zero(),
            end_mv: DecimalNum::zero(),
            total_return: DecimalNum::zero(),
            capital_gain: DecimalNum::zero(),
            currency_gain: DecimalNum::zero(),
            income_gain: DecimalNum::zero(),
            cash_flows: Vec::new(),
            actual_cash_flows: Vec::new(),
            unavailable_reasons: Vec::new(),
            excluded_rows: 0,
            has_data: false,
        }
    }
}

impl DecimalNum {
    /// Zero with scale zero.
    pub open spec fn zero_spec() -> DecimalNum {
        DecimalNum { mantissa: 0, scale: 0 }
    }
}

/// Whether every amount and both flow lists are available.
pub open spec fn all_available(
    amounts: PeriodAmounts,
    flows: Availability<Vec<CashFlow>>,
    actual_flows: Availability<Vec<CashFlow>>,
) -> bool {
    &&& amounts.begin_market_value_base is Available
    &&& amounts.end_market_value_base is Available
    &&& amounts.total_return_base is Available
    &&& amounts.capital_gain_base is Available
    &&& amounts.currency_gain_base is Available
    &&& amounts.income_base is Available
    &&& flows is Available
    &&& actual_flows is Available
}

/// The available value of an amount.
pub open spec fn value_of(a: Availability<DecimalNum>) -> DecimalNum {
    a->Available_0
}

/// The reasons an instrument is left out: those of its begin value, total
/// return, capital, currency and income gains and both flow lists, in that
/// order.
pub open spec fn exclusion_reasons(
    amounts: PeriodAmounts,
    flows: Availability<Vec<CashFlow>>,
    actual_flows: Availability<Vec<CashFlow>>,
) -> Seq<ValuationReason> {
    flatten(
        seq![
            availability_reasons(amounts.begin_market_value_base),
            availability_reasons(amounts.total_return_base),
            availability_reasons(amounts.capital_gain_base),
            availability_reasons(amounts.currency_gain_base),
            availability_reasons(amounts.income_base),
            availability_reasons(flows),
            availability_reasons(actual_flows),
        ],
    )
}

/// The six sums after adding one instrument, or `None` when one overflows.
pub open spec fn added_sums(acc: PerformanceAccumulator, amounts: PeriodAmounts) -> Option<
    (DecimalNum, DecimalNum, DecimalNum, DecimalNum, DecimalNum, DecimalNum),
> {
    match (
        decimal_sum(acc.begin_mv, value_of(amounts.begin_market_value_base)),
        decimal_sum(acc.end_mv, value_of(amounts.end_market_value_base)),
        decimal_sum(acc.total_return, value_of(amounts.total_return_base)),
        decimal_sum(acc.capital_gain, value_of(amounts.capital_gain_base)),
        decimal_sum(acc.currency_gain, value_of(amounts.currency_gain_base)),
        decimal_sum(acc.income_gain, value_of(amounts.income_base)),
    ) {
        (Some(a), Some(b), Some(c), Some(d), Some(e), Some(f)) => Some((a, b, c, d, e, f)),
        _ => None,
    }
}

fn is_available<T>(a: &Availability<T>) -> (b: bool)
    ensures
        b == a is Available,
{
    match a {
        Availability::Available(_) => true,
        Availability::Unavailable { .. } => false,
    }
}

fn add_or_none(a: DecimalNum, b: &Availability<DecimalNum>) -> (r: Option<DecimalNum>)
    requires
        a.wf(),
        amount_wf(*b),
        b is Available,
    ensures
        r == decimal_sum(a, value_of(*b)),
        r matches Some(x) ==> x.wf(),
{
    match b {
        Availability::Available(v) => checked_sum(a, *v),
        Availability::Unavailable { .. } => None,
    }
}

impl PerformanceAccumulator {
    /// Adds one instrument's period. With every amount and both flow lists
    /// available, the six sums grow by its amounts, its flows are appended
    /// and there is data; `false` (and nothing changed) where a sum would
    /// overflow the decimal range. Otherwise the instrument is counted as
    /// excluded and its reasons join the others, each once.
    pub fn add(
        &mut self,
        amounts: &PeriodAmounts,
        flows: &Availability<Vec<CashFlow>>,
        actual_flows: &Availability<Vec<CashFlow>>,
    ) -> (added: bool)
        requires
            old(self).wf(),
            amounts.wf(),
            flows matches Availability::Available(f) ==> flows_wf(f@),
            actual_flows matches Availability::Available(f) ==> flows_wf(f@),
            old(self).excluded_rows < usize::MAX,
        ensures
            final(self).wf(),
            all_available(*amounts, *flows, *actual_flows) ==> match added_sums(
                *old(self),
                *amounts,
            ) {
                Some((a, b, c, d, e, f)) => {
                    &&& added
                    &&& final(self).begin_mv == a && final(self).end_mv == b
                    &&& final(self).total_return == c && final(self).capital_gain == d
                    &&& final(self).currency_gain == e && final(self).income_gain == f
                    &&& final(self).cash_flows@ == old(self).cash_flows@ + flows->Available_0@
                    &&& final(self).actual_cash_flows@ == old(self).actual_cash_flows@
                        + actual_flows->Available_0@
                    &&& final(self).unavailable_reasons@ == old(self).unavailable_reasons@
                    &&& final(self).excluded_rows == old(self).excluded_rows
                    &&& final(self).has_data
                },
                None => !added && *final(self) == *old(self),
            },
            !all_available(*amounts, *flows, *actual_flows) ==> {
                &&& added
                &&& final(self).excluded_rows == old(self).excluded_rows + 1
                &&& final(self).unavailable_reasons@ == dedup_spec(
                    old(self).unavailable_reasons@ + exclusion_reasons(
                        *amounts,
                        *flows,
                        *actual_flows,
                    ),
                )
                &&& final(self).begin_mv == old(self).begin_mv && final(self).end_mv
                    == old(self).end_mv
                &&& final(self).total_return == old(self).total_return
                    && final(self).capital_gain == old(self).capital_gain
                &&& final(self).currency_gain == old(self).currency_gain
                    && final(self).income_gain == old(self).income_gain
                &&& final(self).cash_flows@ == old(self).cash_flows@
                &&& final(self).actual_cash_flows@ == old(self).actual_cash_flows@
                &&& final(self).has_data == old(self).has_data
            },
    {
        let available = match (flows, actual_flows) {
            (Availability::Available(_), Availability::Available(_)) => {
                is_available(&amounts.begin_market_value_base)
                    && is_available(&amounts.end_market_value_base)
                    && is_available(&amounts.total_return_base)
                    && is_available(&amounts.capital_gain_base)
                    && is_available(&amounts.currency_gain_base)
                    && is_available(&amounts.income_base)
            },
            _ => false,
        };
        if available {
            let a = add_or_none(self.begin_mv, &amounts.begin_market_value_base);
            let b = add_or_none(self.end_mv, &amounts.end_market_value_base);
            let c = add_or_none(self.total_return, &amounts.total_return_base);
            let d = add_or_none(self.capital_gain, &amounts.capital_gain_base);
            let e = add_or_none(self.currency_gain, &amounts.currency_gain_base);
            let f = add_or_none(self.income_gain, &amounts.income_base);
            match (a, b, c, d, e, f) {
                (Some(a), Some(b), Some(c), Some(d), Some(e), Some(f)) => {
                    self.begin_mv = a;
                    self.end_mv = b;
                    self.total_return = c;
                    self.capital_gain = d;
                    self.currency_gain = e;
                    self.income_gain = f;
                    if let Availability::Available(list) = flows {
                        append_flows(&mut self.cash_flows, list);
                    }
                    if let Availability::Available(list) = actual_flows {
                        append_flows(&mut self.actual_cash_flows, list);
                    }
                    self.has_data = true;
                    true
                },
                _ => false,
            }
        } else {
            self.excluded_rows = self.excluded_rows + 1;
            let sources = [
                amounts.begin_market_value_base.reasons(),
                amounts.total_return_base.reasons(),
                amounts.capital_gain_base.reasons(),
                amounts.currency_gain_base.reasons(),
                amounts.income_base.reasons(),
                flows.reasons(),
                actual_flows.reasons(),
            ];
            let mut extra: Vec<ValuationReason> = Vec::new();
            let mut i: usize = 0;
            while i < 7
                invariant
                    i <= 7,
                    sources@.len() == 7,
                    extra@ == flatten(
                        sources@.map_values(|v: Vec<ValuationReason>| v@).subrange(0, i as int),
                    ),
                decreases 7 - i,
            {
                let ghost views = sources@.map_values(|v: Vec<ValuationReason>| v@);
                assert(views.subrange(0, i + 1).drop_last() =~= views.subrange(0, i as int));
                let src = &sources[i];
                let ghost mid = extra@;
                let mut k: usize = 0;
                while k < src.len()
                    invariant
                        k <= src@.len(),
                        extra@ == mid + src@.subrange(0, k as int),
                    decreases src@.len() - k,
                {
                    extra.push(src[k]);
                    k = k + 1;
                    assert(extra@ =~= mid + src@.subrange(0, k as int));
                }
                assert(src@.subrange(0, k as int) =~= src@);
                assert(views.subrange(0, i + 1).last() == src@);
                i = i + 1;
            }
            proof {
                let views = sources@.map_values(|v: Vec<ValuationReason>| v@);
                assert(views.subrange(0, 7) =~= views);
                assert(views =~= seq![
                    availability_reasons(amounts.begin_market_value_base),
                    availability_reasons(amounts.total_return_base),
                    availability_reasons(amounts.capital_gain_base),
                    availability_reasons(amounts.currency_gain_base),
                    availability_reasons(amounts.income_base),
                    availability_reasons(*flows),
                    availability_reasons(*actual_flows),
                ]);
                assert(extra@ == exclusion_reasons(*amounts, *flows, *actual_flows));
            }
            append_reasons(&mut self.unavailable_reasons, &extra);
            dedup_valuation_reasons(&mut self.unavailable_reasons);
            true
        }
    }
}

/// Appends `more` to `reasons`.
pub(crate) fn append_reasons(reasons: &mut Vec<ValuationReason>, more: &Vec<ValuationReason>)
    ensures
        final(reasons)@ == old(reasons)@ + more@,
{
    let ghost start = reasons@;
    let mut k: usize = 0;
    while k < more.len()
        invariant
            k <= more@.len(),
            reasons@ == start + more@.subrange(0, k as int),
        decreases more@.len() - k,
    {
        reasons.push(more[k]);
        k = k + 1;
        assert(reasons@ =~= start + more@.subrange(0, k as int));
    }
    assert(more@.subrange(0, k as int) =~= more@);
}

/// Appends `more` to `flows`.
fn append_flows(flows: &mut Vec<CashFlow>, more: &Vec<CashFlow>)
    ensures
        final(flows)@ == old(flows)@ + more@,
        flows_wf(old(flows)@) && flows_wf(more@) ==> flows_wf(final(flows)@),
{
    let ghost start = flows@;
    let mut k: usize = 0;
    while k < more.len()
        invariant
            k <= more@.len(),
            flows@ == start + more@.subrange(0, k as int),
        decreases more@.len() - k,
    {
        flows.push(more[k]);
        k = k + 1;
        assert(flows@ =~= start + more@.subrange(0, k as int));
    }
    assert(more@.subrange(0, k as int) =~= more@);
    assert(flows_wf(start) && flows_wf(more@) ==> flows_wf(flows@)) by {
        if flows_wf(start) && flows_wf(more@) {
            assert forall|i: int| 0 <= i < flows@.len() implies (#[trigger] flows@[i]).amount_base.wf() by {
                if i < start.len() {
                    assert(flows@[i] == start[i]);
                } else {
                    assert(flows@[i] == more@[i - start.len()]);
                }
            }
        }
    }
}

/// Whether a modified Dietz return is shown annualised or as it is.
#[derive(Clone, Copy, Debug, PartialEq, Eq, Structural)]
pub enum DisplayPercentKind {
    Annualised,
    Absolute,
}

/// The report's four percentages and how the total is shown.
#[derive(Clone, Debug)]
pub struct PerformancePercents {
    pub capital_gain_percent: AvailabilityResponse,
    pub income_percent: AvailabilityResponse,
    pub currency_gain_percent: AvailabilityResponse,
    pub total_return_percent: AvailabilityResponse,
    pub display_percent_kind: String,
}

/// A fraction as a percentage: `x * 100` rendered as money (rounded half to
/// even to two decimals); `None` when the product overflows.
pub open spec fn pct100(x: DecimalNum) -> Option<Seq<char>> {
    match decimal_product(x, hundred()) {
        Some(p) => Some(money_text(p)),
        None => None,
    }
}

/// `r` reports `x`: the text, or the reason codes in order.
pub open spec fn text_reported(x: Result<Seq<char>, Seq<ValuationReason>>, r: AvailabilityResponse) -> bool {
    match x {
        Ok(t) => r matches AvailabilityResponse::Available { value } && value@ == t,
        Err(reasons) => r matches AvailabilityResponse::Unavailable { reasons: codes } && codes_of(
            reasons,
            codes@,
        ),
    }
}

/// All four percentages report `x`, and the kind is `kind`.
pub open spec fn all_reported(
    p: PerformancePercents,
    x: Result<Seq<char>, Seq<ValuationReason>>,
    kind: Seq<char>,
) -> bool {
    &&& text_reported(x, p.capital_gain_percent)
    &&& text_reported(x, p.income_percent)
    &&& text_reported(x, p.currency_gain_percent)
    &&& text_reported(x, p.total_return_percent)
    &&& p.display_percent_kind@ == kind
}

/// A part of the money-weighted return: the cumulative return `t` shared out
/// by the part's weight in the total return. A zero total return gives
/// `0.00` when every part is zero too, else no meaningful denominator.
pub open spec fn xirr_part(acc: PerformanceAccumulator, t: DecimalNum, part: DecimalNum) -> Option<
    Result<Seq<char>, Seq<ValuationReason>>,
> {
    if acc.total_return.mantissa == 0 {
        if acc.capital_gain.mantissa == 0 && acc.currency_gain.mantissa == 0
            && acc.income_gain.mantissa == 0 {
            Some(Ok("0.00"@))
        } else {
            Some(Err(seq![ValuationReason::ZeroOrInvalidPerformanceDenominator]))
        }
    } else {
        match decimal_quotient(part, acc.total_return) {
            Some(w) => match decimal_product(t, w) {
                Some(share) => match pct100(share) {
                    Some(text) => Some(Ok(text)),
                    None => None,
                },
                None => None,
            },
            None => None,
        }
    }
}

/// A flow counted as a buy: its amount when positive, else zero.
pub open spec fn buy_part(f: CashFlow) -> DecimalNum {
    if f.amount_base.mantissa > 0 {
        f.amount_base
    } else {
        DecimalNum::zero_spec()
    }
}

/// The buys among `flows` summed from zero in order; `None` on overflow.
pub open spec fn gross_buys(flows: Seq<CashFlow>) -> Option<DecimalNum>
    decreases flows.len(),
{
    if flows.len() == 0 {
        Some(DecimalNum::zero_spec())
    } else {
        match gross_buys(flows.drop_last()) {
            Some(g) => decimal_sum(g, buy_part(flows.last())),
            None => None,
        }
    }
}

/// The simple return's denominator: the begin value plus the gross buys.
pub open spec fn simple_denominator(acc: PerformanceAccumulator) -> Option<DecimalNum> {
    match gross_buys(acc.actual_cash_flows@) {
        Some(g) => decimal_sum(acc.begin_mv, g),
        None => None,
    }
}

/// A part of the simple return: the part over the denominator.
pub open spec fn simple_part(part: DecimalNum, denominator: DecimalNum) -> Option<
    Result<Seq<char>, Seq<ValuationReason>>,
> {
    match decimal_quotient(part, denominator) {
        Some(q) => match pct100(q) {
            Some(text) => Some(Ok(text)),
            None => None,
        },
        None => None,
    }
}

/// A part of the modified Dietz return: `(part / d) * 100` with two decimals
/// cut, not rounded.
pub open spec fn dietz_part(part: DecimalNum, d: DecimalNum) -> Option<
    Result<Seq<char>, Seq<ValuationReason>>,
> {
    match decimal_quotient(part, d) {
        Some(q) => match decimal_product(q, hundred()) {
            Some(p) => Some(Ok(two_places_text(p))),
            None => None,
        },
        None => None,
    }
}

/// The label of a display kind.
pub open spec fn kind_label(k: DisplayPercentKind) -> Seq<char> {
    match k {
        DisplayPercentKind::Annualised => "annualised"@,
        DisplayPercentKind::Absolute => "absolute"@,
    }
}

fn percent_text(x: DecimalNum) -> (r: Option<String>)
    requires
        x.wf(),
    ensures
        match pct100(x) {
            Some(t) => r matches Some(s) && s@ == t,
            None => r is None,
        },
{
    match checked_product(x, DecimalNum { mantissa: 100, scale: 0 }) {
        Some(p) => Some(money_string(p)),
        None => None,
    }
}

fn reasons_response(reasons: &Vec<ValuationReason>) -> (r: AvailabilityResponse)
    ensures
        text_reported(Err(reasons@), r),
{
    AvailabilityResponse::Unavailable { reasons: serialize_reasons(reasons.as_slice()) }
}

fn text_response(t: String) -> (r: AvailabilityResponse)
    ensures
        text_reported(Ok(t@), r),
{
    AvailabilityResponse::Available { value: t }
}

fn all_of(reasons: &Vec<ValuationReason>, kind: &str) -> (p: PerformancePercents)
    ensures
        all_reported(p, Err(reasons@), kind@),
{
    PerformancePercents {
        capital_gain_percent: reasons_response(reasons),
        income_percent: reasons_response(reasons),
        currency_gain_percent: reasons_response(reasons),
        total_return_percent: reasons_response(reasons),
        display_percent_kind: kind.to_owned(),
    }
}

fn no_denominator() -> (r: Vec<ValuationReason>)
    ensures
        r@ == seq![ValuationReason::ZeroOrInvalidPerformanceDenominator],
{
    let mut r: Vec<ValuationReason> = Vec::new();
    r.push(ValuationReason::ZeroOrInvalidPerformanceDenominator);
    assert(r@ =~= seq![ValuationReason::ZeroOrInvalidPerformanceDenominator]);
    r
}

fn xirr_part_response(acc: &PerformanceAccumulator, t: DecimalNum, part: DecimalNum) -> (r: Option<
    AvailabilityResponse,
>)
    requires
        acc.wf(),
        t.wf(),
        part.wf(),
    ensures
        match xirr_part(*acc, t, part) {
            Some(x) => r matches Some(resp) && text_reported(x, resp),
            None => r is None,
        },
{
    if acc.total_return.mantissa == 0 {
        if acc.capital_gain.mantissa == 0 && acc.currency_gain.mantissa == 0
            && acc.income_gain.mantissa == 0 {
            proof {
                reveal_strlit("0.00");
            }
            Some(text_response("0.00".to_owned()))
        } else {
            Some(reasons_response(&no_denominator()))
        }
    } else {
        match checked_quotient(part, acc.total_return) {
            Some(w) => match checked_product(t, w) {
                Some(share) => match percent_text(share) {
                    Some(text) => Some(text_response(text)),
                    None => None,
                },
                None => None,
            },
            None => None,
        }
    }
}

fn simple_part_response(part: DecimalNum, denominator: DecimalNum) -> (r: Option<AvailabilityResponse>)
    requires
        part.wf(),
        denominator.wf(),
    ensures
        match simple_part(part, denominator) {
            Some(x) => r matches Some(resp) && text_reported(x, resp),
            None => r is None,
        },
{
    match checked_quotient(part, denominator) {
        Some(q) => match percent_text(q) {
            Some(text) => Some(text_response(text)),
            None => None,
        },
        None => None,
    }
}

fn dietz_part_response(part: DecimalNum, d: DecimalNum) -> (r: Option<AvailabilityResponse>)
    requires
        part.wf(),
        d.wf(),
    ensures
        match dietz_part(part, d) {
            Some(x) => r matches Some(resp) && text_reported(x, resp),
            None => r is None,
        },
{
    match checked_quotient(part, d) {
        Some(q) => match checked_product(q, DecimalNum { mantissa: 100, scale: 0 }) {
            Some(p) => Some(text_response(two_places_string(p))),
            None => None,
        },
        None => None,
    }
}

/// The gross buys of the flows, as [`gross_buys`] states.
fn sum_buys(flows: &Vec<CashFlow>) -> (r: Option<DecimalNum>)
    requires
        flows_wf(flows@),
    ensures
        r == gross_buys(flows@),
        r matches Some(g) ==> g.wf(),
{
    let mut total = DecimalNum::zero();
    let mut i: usize = 0;
    while i < flows.len()
        invariant
            i <= flows@.len(),
            flows_wf(flows@),
            Some(total) == gross_buys(flows@.subrange(0, i as int)),
            total.wf(),
        decreases flows@.len() - i,
    {
        let f = flows[i];
        assert(flows@.subrange(0, i + 1).drop_last() =~= flows@.subrange(0, i as int));
        assert(flows@.subrange(0, i + 1).last() == f);
        let part = if f.amount_base.mantissa > 0 {
            f.amount_base
        } else {
            DecimalNum::zero()
        };
        assert(f.amount_base.wf());
        match checked_sum(total, part) {
            Some(t) => {
                total = t;
            },
            None => {
                proof {
                    lemma_gross_buys_stays_none(flows@, (i + 1) as int);
                }
                assert(flows@.subrange(0, flows@.len() as int) =~= flows@);
                return None;
            },
        }
        i = i + 1;
    }
    assert(flows@.subrange(0, i as int) =~= flows@);
    Some(total)
}

/// Once the running sum overflows, it stays `None`.
proof fn lemma_gross_buys_stays_none(flows: Seq<CashFlow>, k: int)
    requires
        0 <= k <= flows.len(),
        gross_buys(flows.subrange(0, k)) is None,
    ensures
        gross_buys(flows) is None,
    decreases flows.len() - k,
{
    if k < flows.len() {
        assert(flows.subrange(0, k + 1).drop_last() =~= flows.subrange(0, k));
        lemma_gross_buys_stays_none(flows, k + 1);
    } else {
        assert(flows.subrange(0, k) =~= flows);
    }
}

impl PerformanceAccumulator {
    /// The report's percentages by `method`, from the sums. `money_weighted`
    /// is the cumulative money-weighted return of the begin value, the actual
    /// flows and the end value over the period; `dietz_denominator` the
    /// modified Dietz denominator of the begin value and the flows;
    /// `annualise` turns a period return into the shown one. Without data all
    /// four are unavailable with the collected reasons. `None` where a
    /// division or product overflows the decimal range.
    pub fn into_percents<F: Fn(DecimalNum) -> (DecimalNum, DisplayPercentKind)>(
        &self,
        method: ReturnMethod,
        money_weighted: &Availability<DecimalNum>,
        dietz_denominator: &Availability<DecimalNum>,
        annualise: F,
    ) -> (r: Option<PerformancePercents>)
        requires
            self.wf(),
            amount_wf(*money_weighted),
            amount_wf(*dietz_denominator),
            forall|q: DecimalNum| call_requires(annualise, (q,)),
            forall|q: DecimalNum, out: (DecimalNum, DisplayPercentKind)|
                call_ensures(annualise, (q,), out) ==> out.0.wf(),
        ensures
            !self.has_data ==> (r matches Some(p) && all_reported(
                p,
                Err(self.unavailable_reasons@),
                "absolute"@,
            )),
            self.has_data && method == ReturnMethod::Xirr ==> match *money_weighted {
                Availability::Unavailable { reasons } => r matches Some(p) && all_reported(
                    p,
                    Err(reasons@),
                    "money_weighted"@,
                ),
                Availability::Available(t) => match (
                    xirr_part(*self, t, self.capital_gain),
                    xirr_part(*self, t, self.income_gain),
                    xirr_part(*self, t, self.currency_gain),
                    pct100(t),
                ) {
                    (Some(c), Some(i), Some(u), Some(total)) => r matches Some(p) && text_reported(
                        c,
                        p.capital_gain_percent,
                    ) && text_reported(i, p.income_percent) && text_reported(
                        u,
                        p.currency_gain_percent,
                    ) && text_reported(Ok(total), p.total_return_percent)
                        && p.display_percent_kind@ == "money_weighted"@,
                    _ => r is None,
                },
            },
            self.has_data && method == ReturnMethod::Simple ==> match simple_denominator(*self) {
                None => r is None,
                Some(den) => if den.mantissa <= 0 {
                    r matches Some(p) && all_reported(
                        p,
                        Err(seq![ValuationReason::ZeroOrInvalidPerformanceDenominator]),
                        "simple"@,
                    )
                } else {
                    match (
                        simple_part(self.capital_gain, den),
                        simple_part(self.income_gain, den),
                        simple_part(self.currency_gain, den),
                        simple_part(self.total_return, den),
                    ) {
                        (Some(c), Some(i), Some(u), Some(t)) => r matches Some(p)
                            && text_reported(c, p.capital_gain_percent) && text_reported(
                            i,
                            p.income_percent,
                        ) && text_reported(u, p.currency_gain_percent) && text_reported(
                            t,
                            p.total_return_percent,
                        ) && p.display_percent_kind@ == "simple"@,
                        _ => r is None,
                    }
                },
            },
            self.has_data && method == ReturnMethod::ModifiedDietz ==> match *dietz_denominator {
                Availability::Unavailable { reasons } => r matches Some(p) && all_reported(
                    p,
                    Err(reasons@),
                    "absolute"@,
                ),
                Availability::Available(d) => match (
                    dietz_part(self.capital_gain, d),
                    dietz_part(self.income_gain, d),
                    dietz_part(self.currency_gain, d),
                    decimal_quotient(self.total_return, d),
                ) {
                    (Some(c), Some(i), Some(u), Some(q)) => {
                        &&& r matches Some(p) ==> {
                            &&& text_reported(c, p.capital_gain_percent)
                            &&& text_reported(i, p.income_percent)
                            &&& text_reported(u, p.currency_gain_percent)
                            &&& exists|v: DecimalNum, k: DisplayPercentKind|
                                call_ensures(annualise, (q,), (v, k)) && (pct100(v) matches Some(
                                    t,
                                ) && text_reported(Ok(t), p.total_return_percent))
                                    && p.display_percent_kind@ == kind_label(k)
                        }
                        &&& r is None ==> exists|v: DecimalNum, k: DisplayPercentKind|
                            call_ensures(annualise, (q,), (v, k)) && pct100(v) is None
                    },
                    _ => r is None,
                },
            },
    {
        if !self.has_data {
            return Some(all_of(&self.unavailable_reasons, "absolute"));
        }
        match method {
            ReturnMethod::Xirr => match money_weighted {
                Availability::Unavailable { reasons } => Some(all_of(reasons, "money_weighted")),
                Availability::Available(t) => {
                    let c = xirr_part_response(self, *t, self.capital_gain);
                    let i = xirr_part_response(self, *t, self.income_gain);
                    let u = xirr_part_response(self, *t, self.currency_gain);
                    let total = percent_text(*t);
                    match (c, i, u, total) {
                        (Some(c), Some(i), Some(u), Some(total)) => Some(
                            PerformancePercents {
                                capital_gain_percent: c,
                                income_percent: i,
                                currency_gain_percent: u,
                                total_return_percent: text_response(total),
                                display_percent_kind: "money_weighted".to_owned(),
                            },
                        ),
                        _ => None,
                    }
                },
            },
            ReturnMethod::Simple => {
                let gross = match sum_buys(&self.actual_cash_flows) {
                    Some(g) => g,
                    None => {
                        return None;
                    },
                };
                let den = match checked_sum(self.begin_mv, gross) {
                    Some(d) => d,
                    None => {
                        return None;
                    },
                };
                if den.mantissa <= 0 {
                    return Some(all_of(&no_denominator(), "simple"));
                }
                let c = simple_part_response(self.capital_gain, den);
                let i = simple_part_response(self.income_gain, den);
                let u = simple_part_response(self.currency_gain, den);
                let t = simple_part_response(self.total_return, den);
                match (c, i, u, t) {
                    (Some(c), Some(i), Some(u), Some(t)) => Some(
                        PerformancePercents {
                            capital_gain_percent: c,
                            income_percent: i,
                            currency_gain_percent: u,
                            total_return_percent: t,
                            display_percent_kind: "simple".to_owned(),
                        },
                    ),
                    _ => None,
                }
            },
            ReturnMethod::ModifiedDietz => match dietz_denominator {
                Availability::Unavailable { reasons } => Some(all_of(reasons, "absolute")),
                Availability::Available(d) => {
                    let c = dietz_part_response(self.capital_gain, *d);
                    let i = dietz_part_response(self.income_gain, *d);
                    let u = dietz_part_response(self.currency_gain, *d);
                    let q = checked_quotient(self.total_return, *d);
                    match (c, i, u, q) {
                        (Some(c), Some(i), Some(u), Some(q)) => {
                            let (v, kind) = annualise(q);
                            let total = match percent_text(v) {
                                Some(t) => t,
                                None => {
                                    return None;
                                },
                            };
                            let label = match kind {
                                DisplayPercentKind::Annualised => "annualised",
                                DisplayPercentKind::Absolute => "absolute",
                            };
                            proof {
                                reveal_strlit("annualised");
                                reveal_strlit("absolute");
                            }
                            Some(
                                PerformancePercents {
                                    capital_gain_percent: c,
                                    income_percent: i,
                                    currency_gain_percent: u,
                                    total_return_percent: text_response(total),
                                    display_percent_kind: label.to_owned(),
                                },
                            )
                        },
                        _ => None,
                    }
                },
            },
        }
    }
}

/// No flow among `flows` is a buy.
pub open spec fn no_buys(flows: Seq<CashFlow>) -> bool {
    forall|i: int| 0 <= i < flows.len() ==> (#[trigger] flows[i]).amount_base.mantissa <= 0
}

/// Sales and zero flows add nothing to the gross buys.
pub proof fn lemma_gross_buys_without_buys(flows: Seq<CashFlow>)
    requires
        no_buys(flows),
    ensures
        gross_buys(flows) == Some(DecimalNum::zero_spec()),
    decreases flows.len(),
{
    if flows.len() > 0 {
        let rest = flows.drop_last();
        assert forall|i: int| 0 <= i < rest.len() implies (#[trigger] rest[i]).amount_base.mantissa
            <= 0 by {
            assert(rest[i] == flows[i]);
        }
        lemma_gross_buys_without_buys(rest);
        assert(flows.last() == flows[flows.len() - 1]);
    }
}

/// The simple return divides by the begin market value when no buy happened
/// in the period: the denominator is the begin value itself.
pub proof fn lemma_simple_denominator_without_buys(acc: PerformanceAccumulator)
    requires
        no_buys(acc.actual_cash_flows@),
        acc.begin_mv.mantissa != 0,
    ensures
        simple_denominator(acc) == Some(acc.begin_mv),
{
    lemma_gross_buys_without_buys(acc.actual_cash_flows@);
}

/// Every part of the simple return is its share of the denominator: with the
/// begin value `B` and no buys, a part `x` is reported as `x / B` in percent.
pub proof fn lemma_simple_parts_of_begin_value(acc: PerformanceAccumulator, part: DecimalNum)
    requires
        no_buys(acc.actual_cash_flows@),
        acc.begin_mv.mantissa != 0,
    ensures
        simple_part(part, simple_denominator(acc)->Some_0) == match decimal_quotient(
            part,
            acc.begin_mv,
        ) {
            Some(q) => match pct100(q) {
                Some(t) => Some(Ok::<Seq<char>, Seq<ValuationReason>>(t)),
                None => None,
            },
            None => None,
        },
{
    lemma_simple_denominator_without_buys(acc);
}

/// Adding an instrument whose figures are all available grows each of the
/// six sums by that instrument's amount.
pub proof fn lemma_add_grows_each_sum(acc: PerformanceAccumulator, amounts: PeriodAmounts)
    ensures
        added_sums(acc, amounts) matches Some((b, e, t, c, u, i)) ==> {
            &&& Some(b) == decimal_sum(acc.begin_mv, value_of(amounts.begin_market_value_base))
            &&& Some(e) == decimal_sum(acc.end_mv, value_of(amounts.end_market_value_base))
            &&& Some(t) == decimal_sum(acc.total_return, value_of(amounts.total_return_base))
            &&& Some(c) == decimal_sum(acc.capital_gain, value_of(amounts.capital_gain_base))
            &&& Some(u) == decimal_sum(acc.currency_gain, value_of(amounts.currency_gain_base))
            &&& Some(i) == decimal_sum(acc.income_gain, value_of(amounts.income_base))
        },
{
}

/// Starting from no income, two instruments added in turn leave the income
/// of the first plus the income of the second.
pub proof fn lemma_income_of_two_instruments(
    start: PerformanceAccumulator,
    first: PeriodAmounts,
    middle: PerformanceAccumulator,
    second: PeriodAmounts,
)
    requires
        start.income_gain.mantissa == 0,
        added_sums(start, first) matches Some(t) && middle.income_gain == t.5,
        added_sums(middle, second) is Some,
    ensures
        Some(added_sums(middle, second)->Some_0.5) == decimal_sum(
            value_of(first.income_base),
            value_of(second.income_base),
        ),
{
}

} // verus!
