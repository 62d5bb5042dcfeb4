//! The portfolio waterfall: from cost to total return, summed over every
//! instrument whose figures are all available, with the others counted and
//! their reasons kept.
use vstd::prelude::*;

use crate::decimal::{checked_sum, decimal_sum, money_string, money_text, DecimalNum};
use crate::gain_rows::RealizedGain;
use crate::gains::{dedup_spec, dedup_valuation_reasons, flatten, BaseAmount};
use crate::holdings::ValuedHolding;
use crate::performance::{append_reasons, text_reported, value_of};
use crate::valuation::{
    availability_reasons, serialize_reasons, Availability, AvailabilityResponse, ValuationReason,
};

verus! {

/// An instrument's income over the period, as far as it is known.
#[derive(Clone, Debug)]
pub enum IncomeInput {
    Available(DecimalNum),
    /// No income is recorded for the instrument.
    NotTracked,
    Unavailable(Vec<ValuationReason>),
}

/// The waterfall's running sums.
#[derive(Clone, Copy, Debug, PartialEq, Eq, Structural)]
pub struct WaterfallTotals {
    pub cost_basis: DecimalNum,
    pub held_fee_component: DecimalNum,
    pub price_effect: DecimalNum,
    pub fx_effect: DecimalNum,
    pub market_value: DecimalNum,
    pub realized_gain: DecimalNum,
    pub realized_fee: DecimalNum,
    pub realized_cost_basis: DecimalNum,
    pub brokerage_total: DecimalNum,
    pub income: DecimalNum,
    pub unrealized_gain: DecimalNum,
    pub total_return: DecimalNum,
}

impl WaterfallTotals {
    pub open spec fn wf(&self) -> bool {
        &&& self.cost_basis.wf() && self.held_fee_component.wf() && self.price_effect.wf()
        &&& self.fx_effect.wf() && self.market_value.wf() && self.realized_gain.wf()
        &&& self.realized_fee.wf() && self.realized_cost_basis.wf() && self.brokerage_total.wf()
        &&& self.income.wf() && self.unrealized_gain.wf() && self.total_return.wf()
    }

    /// Every sum zero.
    pub fn zero() -> (t: Self)
        ensures
            t.wf(),
            t == WaterfallTotals::all(DecimalNum { mantissa: 0, scale: 0 }),
    {
        let z = DecimalNum::zero();
        WaterfallTotals {
            cost_basis: z,
            held_fee_component: z,
            price_effect: z,
            fx_effect: z,
            market_value: z,
            realized_gain: z,
            realized_fee: z,
            realized_cost_basis: z,
            brokerage_total: z,
            income: z,
            unrealized_gain: z,
            total_return: z,
        }
    }

    /// Every sum `v`.
    pub open spec fn all(v: DecimalNum) -> WaterfallTotals {
        WaterfallTotals {
            cost_basis: v,
            held_fee_component: v,
            price_effect: v,
            fx_effect: v,
            market_value: v,
            realized_gain: v,
            realized_fee: v,
            realized_cost_basis: v,
            brokerage_total: v,
            income: v,
            unrealized_gain: v,
            total_return: v,
        }
    }
}

/// The waterfall being built.
#[derive(Clone, Debug)]
pub struct PortfolioWaterfallAccumulator {
    pub totals: WaterfallTotals,
    pub has_data: bool,
    pub excluded_rows: usize,
    pub unavailable_reasons: Vec<ValuationReason>,
    pub income_available_rows: usize,
    pub income_not_tracked_rows: usize,
}

impl PortfolioWaterfallAccumulator {
    /// Nothing added yet.
    pub fn new() -> (acc: Self)
        ensures
            acc.totals.wf(),
            acc.totals == WaterfallTotals::all(DecimalNum { mantissa: 0, scale: 0 }),
            !acc.has_data,
            acc.excluded_rows == 0 && acc.income_available_rows == 0
                && acc.income_not_tracked_rows == 0,
            acc.unavailable_reasons@.len() == 0,
    {
        PortfolioWaterfallAccumulator {
            totals: WaterfallTotals::zero(),
            has_data: false,
            excluded_rows: 0,
            unavailable_reasons: Vec::new(),
            income_available_rows: 0,
            income_not_tracked_rows: 0,
        }
    }

    /// The counters can still count one more instrument.
    pub open spec fn room(&self) -> bool {
        &&& self.excluded_rows < usize::MAX
        &&& self.income_available_rows < usize::MAX
        &&& self.income_not_tracked_rows < usize::MAX
    }
}

pub open spec fn all_added(t: WaterfallTotals, d: WaterfallTotals) -> Option<WaterfallTotals> {
    match decimal_sum(t.cost_basis, d.cost_basis) {
        None => None,
        Some(cost_basis) => 
        match decimal_sum(t.held_fee_component, d.held_fee_component) {
            None => None,
            Some(held_fee_component) => 
            match decimal_sum(t.price_effect, d.price_effect) {
                None => None,
                Some(price_effect) => 
                match decimal_sum(t.fx_effect, d.fx_effect) {
                    None => None,
                    Some(fx_effect) => 
                    match decimal_sum(t.market_value, d.market_value) {
                        None => None,
                        Some(market_value) => 
                        match decimal_sum(t.realized_gain, d.realized_gain) {
                            None => None,
                            Some(realized_gain) => 
                            match decimal_sum(t.realized_fee, d.realized_fee) {
                                None => None,
                                Some(realized_fee) => 
                                match decimal_sum(t.realized_cost_basis, d.realized_cost_basis) {
                                    None => None,
                                    Some(realized_cost_basis) => 
                                    match decimal_sum(t.brokerage_total, d.brokerage_total) {
                                        None => None,
                                        Some(brokerage_total) => 
                                        match decimal_sum(t.income, d.income) {
                                            None => None,
                                            Some(income) => 
                                            match decimal_sum(t.unrealized_gain, d.unrealized_gain) {
                                                None => None,
                                                Some(unrealized_gain) => 
                                                match decimal_sum(t.total_return, d.total_return) {
                                                    None => None,
                                                    Some(total_return) => 
                                                    Some(WaterfallTotals { cost_basis, held_fee_component, price_effect, fx_effect, market_value, realized_gain, realized_fee, realized_cost_basis, brokerage_total, income, unrealized_gain, total_return })
                                                },
                                            },
                                        },
                                    },
                                },
                            },
                        },
                    },
                },
            },
        },
    }
}

pub open spec fn realized_added(t: WaterfallTotals, d: WaterfallTotals) -> Option<WaterfallTotals> {
    match decimal_sum(t.realized_gain, d.realized_gain) {
        None => None,
        Some(realized_gain) => 
        match decimal_sum(t.realized_fee, d.realized_fee) {
            None => None,
            Some(realized_fee) => 
            match decimal_sum(t.realized_cost_basis, d.realized_cost_basis) {
                None => None,
                Some(realized_cost_basis) => 
                match decimal_sum(t.brokerage_total, d.brokerage_total) {
                    None => None,
                    Some(brokerage_total) => 
                    match decimal_sum(t.income, d.income) {
                        None => None,
                        Some(income) => 
                        match decimal_sum(t.total_return, d.total_return) {
                            None => None,
                            Some(total_return) => 
                            Some(WaterfallTotals { cost_basis: t.cost_basis, held_fee_component: t.held_fee_component, price_effect: t.price_effect, fx_effect: t.fx_effect, market_value: t.market_value, realized_gain, realized_fee, realized_cost_basis, brokerage_total, income, unrealized_gain: t.unrealized_gain, total_return })
                        },
                    },
                },
            },
        },
    }
}

fn add_all(t: &WaterfallTotals, d: &WaterfallTotals) -> (r: Option<WaterfallTotals>)
    requires
        t.wf(),
        d.wf(),
    ensures
        r == all_added(*t, *d),
        r matches Some(x) ==> x.wf(),
{
    let cost_basis = match checked_sum(t.cost_basis, d.cost_basis) {
        Some(v) => v,
        None => {
            return None;
        },
    };
    let held_fee_component = match checked_sum(t.held_fee_component, d.held_fee_component) {
        Some(v) => v,
        None => {
            return None;
        },
    };
    let price_effect = match checked_sum(t.price_effect, d.price_effect) {
        Some(v) => v,
        None => {
            return None;
        },
    };
    let fx_effect = match checked_sum(t.fx_effect, d.fx_effect) {
        Some(v) => v,
        None => {
            return None;
        },
    };
    let market_value = match checked_sum(t.market_value, d.market_value) {
        Some(v) => v,
        None => {
            return None;
        },
    };
    let realized_gain = match checked_sum(t.realized_gain, d.realized_gain) {
        Some(v) => v,
        None => {
            return None;
        },
    };
    let realized_fee = match checked_sum(t.realized_fee, d.realized_fee) {
        Some(v) => v,
        None => {
            return None;
        },
    };
    let realized_cost_basis = match checked_sum(t.realized_cost_basis, d.realized_cost_basis) {
        Some(v) => v,
        None => {
            return None;
        },
    };
    let brokerage_total = match checked_sum(t.brokerage_total, d.brokerage_total) {
        Some(v) => v,
        None => {
            return None;
        },
    };
    let income = match checked_sum(t.income, d.income) {
        Some(v) => v,
        None => {
            return None;
        },
    };
    let unrealized_gain = match checked_sum(t.unrealized_gain, d.unrealized_gain) {
        Some(v) => v,
        None => {
            return None;
        },
    };
    let total_return = match checked_sum(t.total_return, d.total_return) {
        Some(v) => v,
        None => {
            return None;
        },
    };
    Some(WaterfallTotals { cost_basis, held_fee_component, price_effect, fx_effect, market_value, realized_gain, realized_fee, realized_cost_basis, brokerage_total, income, unrealized_gain, total_return })
}

fn add_realized(t: &WaterfallTotals, d: &WaterfallTotals) -> (r: Option<WaterfallTotals>)
    requires
        t.wf(),
        d.wf(),
    ensures
        r == realized_added(*t, *d),
        r matches Some(x) ==> x.wf(),
{
    let realized_gain = match checked_sum(t.realized_gain, d.realized_gain) {
        Some(v) => v,
        None => {
            return None;
        },
    };
    let realized_fee = match checked_sum(t.realized_fee, d.realized_fee) {
        Some(v) => v,
        None => {
            return None;
        },
    };
    let realized_cost_basis = match checked_sum(t.realized_cost_basis, d.realized_cost_basis) {
        Some(v) => v,
        None => {
            return None;
        },
    };
    let brokerage_total = match checked_sum(t.brokerage_total, d.brokerage_total) {
        Some(v) => v,
        None => {
            return None;
        },
    };
    let income = match checked_sum(t.income, d.income) {
        Some(v) => v,
        None => {
            return None;
        },
    };
    let total_return = match checked_sum(t.total_return, d.total_return) {
        Some(v) => v,
        None => {
            return None;
        },
    };
    Some(WaterfallTotals { cost_basis: t.cost_basis, held_fee_component: t.held_fee_component, price_effect: t.price_effect, fx_effect: t.fx_effect, market_value: t.market_value, realized_gain, realized_fee, realized_cost_basis, brokerage_total, income, unrealized_gain: t.unrealized_gain, total_return })
}


/// The reasons of a base amount: missing FX, or none.
pub open spec fn base_reasons(b: BaseAmount) -> Seq<ValuationReason> {
    match b {
        BaseAmount::Available(_) => Seq::empty(),
        BaseAmount::Unavailable { .. } => seq![ValuationReason::MissingFx],
    }
}

/// The value of an available base amount.
pub open spec fn base_value(b: BaseAmount) -> DecimalNum {
    b->Available_0
}

/// The reasons an open instrument is left out of the waterfall.
pub open spec fn open_exclusion_reasons(valued: ValuedHolding, realized: RealizedGain) -> Seq<
    ValuationReason,
> {
    flatten(
        seq![
            availability_reasons(valued.cost_basis_base),
            availability_reasons(valued.fee_component_base),
            availability_reasons(valued.price_effect_base),
            availability_reasons(valued.fx_effect_base),
            availability_reasons(valued.market_value_base),
            availability_reasons(valued.unrealized_gain_base),
            base_reasons(realized.gain_base),
            base_reasons(realized.fee_base),
            base_reasons(realized.cost_basis_base),
        ],
    )
}

/// Whether every figure an open instrument adds is available.
pub open spec fn open_figures_available(valued: ValuedHolding, realized: RealizedGain) -> bool {
    &&& valued.cost_basis_base is Available && valued.fee_component_base is Available
    &&& valued.price_effect_base is Available && valued.fx_effect_base is Available
    &&& valued.market_value_base is Available && valued.unrealized_gain_base is Available
    &&& realized.gain_base is Available && realized.fee_base is Available
    &&& realized.cost_basis_base is Available
}

/// What an income adds: its value, or zero when not tracked.
pub open spec fn income_value(income: IncomeInput) -> DecimalNum {
    match income {
        IncomeInput::Available(v) => v,
        _ => DecimalNum { mantissa: 0, scale: 0 },
    }
}

/// What an open instrument adds to each sum; `None` when its total return
/// (unrealized gain, plus realized gain, plus income) overflows.
pub open spec fn open_delta(
    valued: ValuedHolding,
    realized: RealizedGain,
    brokerage_total: DecimalNum,
    income: DecimalNum,
) -> Option<WaterfallTotals> {
    let u = value_of(valued.unrealized_gain_base);
    let g = base_value(realized.gain_base);
    match decimal_sum(u, g) {
        None => None,
        Some(ug) => match decimal_sum(ug, income) {
            None => None,
            Some(total) => Some(
                WaterfallTotals {
                    cost_basis: value_of(valued.cost_basis_base),
                    held_fee_component: value_of(valued.fee_component_base),
                    price_effect: value_of(valued.price_effect_base),
                    fx_effect: value_of(valued.fx_effect_base),
                    market_value: value_of(valued.market_value_base),
                    realized_gain: g,
                    realized_fee: base_value(realized.fee_base),
                    realized_cost_basis: base_value(realized.cost_basis_base),
                    brokerage_total,
                    income,
                    unrealized_gain: u,
                    total_return: total,
                },
            ),
        },
    }
}

/// What a closed instrument adds to the realized sums; `None` when its total
/// return (realized gain plus income) overflows.
pub open spec fn closed_delta(
    realized: RealizedGain,
    brokerage_total: DecimalNum,
    income: DecimalNum,
) -> Option<WaterfallTotals> {
    let g = base_value(realized.gain_base);
    match decimal_sum(g, income) {
        None => None,
        Some(total) => Some(
            WaterfallTotals {
                realized_gain: g,
                realized_fee: base_value(realized.fee_base),
                realized_cost_basis: base_value(realized.cost_basis_base),
                brokerage_total,
                income,
                total_return: total,
                ..WaterfallTotals::all(DecimalNum { mantissa: 0, scale: 0 })
            },
        ),
    }
}

/// `after` is `before` with one more instrument left out for `reasons`.
pub open spec fn excluded(
    before: PortfolioWaterfallAccumulator,
    after: PortfolioWaterfallAccumulator,
    reasons: Seq<ValuationReason>,
) -> bool {
    &&& after.excluded_rows == before.excluded_rows + 1
    &&& after.unavailable_reasons@ == dedup_spec(before.unavailable_reasons@ + reasons)
    &&& after.totals == before.totals
    &&& after.has_data == before.has_data
    &&& after.income_available_rows == before.income_available_rows
    &&& after.income_not_tracked_rows == before.income_not_tracked_rows
}

/// `after` is `before` with `totals` taken and the income counted.
pub open spec fn included(
    before: PortfolioWaterfallAccumulator,
    after: PortfolioWaterfallAccumulator,
    totals: WaterfallTotals,
    income: IncomeInput,
) -> bool {
    &&& after.totals == totals
    &&& after.has_data
    &&& after.excluded_rows == before.excluded_rows
    &&& after.unavailable_reasons@ == before.unavailable_reasons@
    &&& after.income_available_rows == before.income_available_rows + (if income is Available {
        1int
    } else {
        0int
    })
    &&& after.income_not_tracked_rows == before.income_not_tracked_rows + (if income is NotTracked {
        1int
    } else {
        0int
    })
}

/// Appends the sources to `reasons`, then drops repeats.
fn exclude_with(reasons: &mut Vec<ValuationReason>, sources: &[Vec<ValuationReason>])
    ensures
        final(reasons)@ == dedup_spec(
            old(reasons)@ + flatten(sources@.map_values(|v: Vec<ValuationReason>| v@)),
        ),
{
    let ghost start = reasons@;
    let mut i: usize = 0;
    while i < sources.len()
        invariant
            i <= sources@.len(),
            reasons@ == start + flatten(
                sources@.map_values(|v: Vec<ValuationReason>| v@).subrange(0, i as int),
            ),
        decreases sources@.len() - i,
    {
        let ghost views = sources@.map_values(|v: Vec<ValuationReason>| v@);
        assert(views.subrange(0, i + 1).drop_last() =~= views.subrange(0, i as int));
        let src = &sources[i];
        let ghost mid = reasons@;
        let mut k: usize = 0;
        while k < src.len()
            invariant
                k <= src@.len(),
                reasons@ == mid + src@.subrange(0, k as int),
            decreases src@.len() - k,
        {
            reasons.push(src[k]);
            k = k + 1;
            assert(reasons@ =~= mid + src@.subrange(0, k as int));
        }
        assert(src@.subrange(0, k as int) =~= src@);
        assert(views.subrange(0, i + 1).last() == src@);
        assert(reasons@ =~= start + flatten(views.subrange(0, i + 1)));
        i = i + 1;
    }
    assert(sources@.map_values(|v: Vec<ValuationReason>| v@).subrange(0, i as int)
        =~= sources@.map_values(|v: Vec<ValuationReason>| v@));
    dedup_valuation_reasons(reasons);
}

fn base_reason_vec(b: &BaseAmount) -> (r: Vec<ValuationReason>)
    ensures
        r@ == base_reasons(*b),
{
    let mut r: Vec<ValuationReason> = Vec::new();
    if let BaseAmount::Unavailable { .. } = b {
        r.push(ValuationReason::MissingFx);
        assert(r@ =~= seq![ValuationReason::MissingFx]);
    }
    r
}

fn available_value(a: &Availability<DecimalNum>) -> (r: Option<DecimalNum>)
    ensures
        a is Available <==> r is Some,
        r matches Some(v) ==> v == value_of(*a),
{
    match a {
        Availability::Available(v) => Some(*v),
        Availability::Unavailable { .. } => None,
    }
}

fn base_amount_value(b: &BaseAmount) -> (r: Option<DecimalNum>)
    ensures
        b is Available <==> r is Some,
        r matches Some(v) ==> v == base_value(*b),
{
    match b {
        BaseAmount::Available(v) => Some(*v),
        BaseAmount::Unavailable { .. } => None,
    }
}

impl PortfolioWaterfallAccumulator {
    /// Adds an open instrument. When any of its figures is unavailable it is
    /// left out with the reasons of all of them; when its income is
    /// unavailable it is left out with the income's reasons; otherwise every
    /// sum grows by its figures (income not tracked adds zero and is
    /// counted). `false`, with nothing changed, where a sum would overflow
    /// the decimal range.
    pub fn add_open(
        &mut self,
        valued: &ValuedHolding,
        realized: &RealizedGain,
        brokerage_total_base: DecimalNum,
        income: &IncomeInput,
    ) -> (added: bool)
        requires
            old(self).totals.wf(),
            old(self).room(),
            valued.wf(),
            realized.wf(),
            brokerage_total_base.wf(),
            income matches IncomeInput::Available(v) ==> v.wf(),
        ensures
            final(self).totals.wf(),
            !open_figures_available(*valued, *realized) ==> added && excluded(
                *old(self),
                *final(self),
                open_exclusion_reasons(*valued, *realized),
            ),
            open_figures_available(*valued, *realized) && income is Unavailable ==> added
                && excluded(*old(self), *final(self), income->Unavailable_0@),
            open_figures_available(*valued, *realized) && !(income is Unavailable) ==> match open_delta(
                *valued,
                *realized,
                brokerage_total_base,
                income_value(*income),
            ) {
                Some(d) => match all_added(old(self).totals, d) {
                    Some(t) => added && included(*old(self), *final(self), t, *income),
                    None => !added && *final(self) == *old(self),
                },
                None => !added && *final(self) == *old(self),
            },
    {
        let cb = available_value(&valued.cost_basis_base);
        let fee = available_value(&valued.fee_component_base);
        let pe = available_value(&valued.price_effect_base);
        let fx = available_value(&valued.fx_effect_base);
        let mv = available_value(&valued.market_value_base);
        let ug = available_value(&valued.unrealized_gain_base);
        let rg = base_amount_value(&realized.gain_base);
        let rf = base_amount_value(&realized.fee_base);
        let rc = base_amount_value(&realized.cost_basis_base);
        let (cb, fee, pe, fx, mv, ug, rg, rf, rc) = match (cb, fee, pe, fx, mv, ug, rg, rf, rc) {
            (Some(a), Some(b), Some(c), Some(d), Some(e), Some(f), Some(g), Some(h), Some(i)) => (
                a,
                b,
                c,
                d,
                e,
                f,
                g,
                h,
                i,
            ),
            _ => {
                let sources = [
                    valued.cost_basis_base.reasons(),
                    valued.fee_component_base.reasons(),
                    valued.price_effect_base.reasons(),
                    valued.fx_effect_base.reasons(),
                    valued.market_value_base.reasons(),
                    valued.unrealized_gain_base.reasons(),
                    base_reason_vec(&realized.gain_base),
                    base_reason_vec(&realized.fee_base),
                    base_reason_vec(&realized.cost_basis_base),
                ];
                proof {
                    assert(sources@.map_values(|v: Vec<ValuationReason>| v@) =~= seq![
                        availability_reasons(valued.cost_basis_base),
                        availability_reasons(valued.fee_component_base),
                        availability_reasons(valued.price_effect_base),
                        availability_reasons(valued.fx_effect_base),
                        availability_reasons(valued.market_value_base),
                        availability_reasons(valued.unrealized_gain_base),
                        base_reasons(realized.gain_base),
                        base_reasons(realized.fee_base),
                        base_reasons(realized.cost_basis_base),
                    ]);
                }
                self.excluded_rows = self.excluded_rows + 1;
                exclude_with(&mut self.unavailable_reasons, &sources);
                return true;
            },
        };
        let income_base = match income {
            IncomeInput::Available(v) => *v,
            IncomeInput::NotTracked => DecimalNum::zero(),
            IncomeInput::Unavailable(reasons) => {
                self.excluded_rows = self.excluded_rows + 1;
                append_reasons(&mut self.unavailable_reasons, reasons);
                dedup_valuation_reasons(&mut self.unavailable_reasons);
                return true;
            },
        };
        let ug_rg = match checked_sum(ug, rg) {
            Some(v) => v,
            None => {
                return false;
            },
        };
        let total = match checked_sum(ug_rg, income_base) {
            Some(v) => v,
            None => {
                return false;
            },
        };
        let delta = WaterfallTotals {
            cost_basis: cb,
            held_fee_component: fee,
            price_effect: pe,
            fx_effect: fx,
            market_value: mv,
            realized_gain: rg,
            realized_fee: rf,
            realized_cost_basis: rc,
            brokerage_total: brokerage_total_base,
            income: income_base,
            unrealized_gain: ug,
            total_return: total,
        };
        let totals = match add_all(&self.totals, &delta) {
            Some(t) => t,
            None => {
                return false;
            },
        };
        self.totals = totals;
        self.has_data = true;
        match income {
            IncomeInput::Available(_) => {
                self.income_available_rows = self.income_available_rows + 1;
            },
            IncomeInput::NotTracked => {
                self.income_not_tracked_rows = self.income_not_tracked_rows + 1;
            },
            IncomeInput::Unavailable(_) => {},
        }
        true
    }
}

impl PortfolioWaterfallAccumulator {
    /// Adds an instrument closed in full. When its realized gain, fee or cost
    /// is unavailable it is left out with the reasons of those three; when
    /// its income is unavailable, with the income's reasons; otherwise the
    /// realized sums grow by its figures. `false`, with nothing changed,
    /// where a sum would overflow the decimal range.
    pub fn add_closed(
        &mut self,
        realized: &RealizedGain,
        brokerage_total_base: DecimalNum,
        income: &IncomeInput,
    ) -> (added: bool)
        requires
            old(self).totals.wf(),
            old(self).room(),
            realized.wf(),
            brokerage_total_base.wf(),
            income matches IncomeInput::Available(v) ==> v.wf(),
        ensures
            final(self).totals.wf(),
            !(realized.gain_base is Available && realized.fee_base is Available
                && realized.cost_basis_base is Available) ==> added && excluded(
                *old(self),
                *final(self),
                flatten(
                    seq![
                        base_reasons(realized.gain_base),
                        base_reasons(realized.fee_base),
                        base_reasons(realized.cost_basis_base),
                    ],
                ),
            ),
            realized.gain_base is Available && realized.fee_base is Available
                && realized.cost_basis_base is Available && income is Unavailable ==> added
                && excluded(*old(self), *final(self), income->Unavailable_0@),
            realized.gain_base is Available && realized.fee_base is Available
                && realized.cost_basis_base is Available && !(income is Unavailable) ==> match closed_delta(
                *realized,
                brokerage_total_base,
                income_value(*income),
            ) {
                Some(d) => match realized_added(old(self).totals, d) {
                    Some(t) => added && included(*old(self), *final(self), t, *income),
                    None => !added && *final(self) == *old(self),
                },
                None => !added && *final(self) == *old(self),
            },
    {
        let rg = base_amount_value(&realized.gain_base);
        let rf = base_amount_value(&realized.fee_base);
        let rc = base_amount_value(&realized.cost_basis_base);
        let (rg, rf, rc) = match (rg, rf, rc) {
            (Some(a), Some(b), Some(c)) => (a, b, c),
            _ => {
                let sources = [
                    base_reason_vec(&realized.gain_base),
                    base_reason_vec(&realized.fee_base),
                    base_reason_vec(&realized.cost_basis_base),
                ];
                proof {
                    let views = sources@.map_values(|v: Vec<ValuationReason>| v@);
                    assert(views =~= seq![
                        base_reasons(realized.gain_base),
                        base_reasons(realized.fee_base),
                        base_reasons(realized.cost_basis_base),
                    ]);
                }
                self.excluded_rows = self.excluded_rows + 1;
                exclude_with(&mut self.unavailable_reasons, &sources);
                return true;
            },
        };
        let income_base = match income {
            IncomeInput::Available(v) => *v,
            IncomeInput::NotTracked => DecimalNum::zero(),
            IncomeInput::Unavailable(reasons) => {
                self.excluded_rows = self.excluded_rows + 1;
                append_reasons(&mut self.unavailable_reasons, reasons);
                dedup_valuation_reasons(&mut self.unavailable_reasons);
                return true;
            },
        };
        let total = match checked_sum(rg, income_base) {
            Some(v) => v,
            None => {
                return false;
            },
        };
        let z = DecimalNum::zero();
        let delta = WaterfallTotals {
            cost_basis: z,
            held_fee_component: z,
            price_effect: z,
            fx_effect: z,
            market_value: z,
            realized_gain: rg,
            realized_fee: rf,
            realized_cost_basis: rc,
            brokerage_total: brokerage_total_base,
            income: income_base,
            unrealized_gain: z,
            total_return: total,
        };
        let totals = match add_realized(&self.totals, &delta) {
            Some(t) => t,
            None => {
                return false;
            },
        };
        self.totals = totals;
        self.has_data = true;
        match income {
            IncomeInput::Available(_) => {
                self.income_available_rows = self.income_available_rows + 1;
            },
            IncomeInput::NotTracked => {
                self.income_not_tracked_rows = self.income_not_tracked_rows + 1;
            },
            IncomeInput::Unavailable(_) => {},
        }
        true
    }
}

/// The waterfall as the API reports it.
#[derive(Clone, Debug)]
pub struct PortfolioWaterfallResponse {
    pub cost_basis_base: AvailabilityResponse,
    pub held_fee_component_base: AvailabilityResponse,
    pub price_effect_base: AvailabilityResponse,
    pub fx_effect_base: AvailabilityResponse,
    pub market_value_base: AvailabilityResponse,
    pub realized_gain_base: AvailabilityResponse,
    pub realized_fee_base: AvailabilityResponse,
    pub realized_cost_basis_base: AvailabilityResponse,
    pub brokerage_total_base: AvailabilityResponse,
    pub income_base: AvailabilityResponse,
    pub unrealized_gain_base: AvailabilityResponse,
    pub total_return_base: AvailabilityResponse,
    pub income_not_tracked: bool,
    pub excluded_rows: usize,
}

/// Every figure of `r` reports `x` for the matching sum.
pub open spec fn waterfall_reported(
    r: PortfolioWaterfallResponse,
    t: WaterfallTotals,
    unavailable: Option<Seq<ValuationReason>>,
) -> bool {
    let rep = |v: DecimalNum| match unavailable {
        Some(reasons) => Err(reasons),
        None => Ok(money_text(v)),
    };
    &&& text_reported(rep(t.cost_basis), r.cost_basis_base)
    &&& text_reported(rep(t.held_fee_component), r.held_fee_component_base)
    &&& text_reported(rep(t.price_effect), r.price_effect_base)
    &&& text_reported(rep(t.fx_effect), r.fx_effect_base)
    &&& text_reported(rep(t.market_value), r.market_value_base)
    &&& text_reported(rep(t.realized_gain), r.realized_gain_base)
    &&& text_reported(rep(t.realized_fee), r.realized_fee_base)
    &&& text_reported(rep(t.realized_cost_basis), r.realized_cost_basis_base)
    &&& text_reported(rep(t.brokerage_total), r.brokerage_total_base)
    &&& text_reported(rep(t.income), r.income_base)
    &&& text_reported(rep(t.unrealized_gain), r.unrealized_gain_base)
    &&& text_reported(rep(t.total_return), r.total_return_base)
}

fn money_response(v: DecimalNum) -> (r: AvailabilityResponse)
    requires
        v.wf(),
    ensures
        text_reported(Ok(money_text(v)), r),
{
    AvailabilityResponse::Available { value: money_string(v) }
}

fn unavailable_response(reasons: &Vec<ValuationReason>) -> (r: AvailabilityResponse)
    ensures
        text_reported(Err(reasons@), r),
{
    AvailabilityResponse::Unavailable { reasons: serialize_reasons(reasons.as_slice()) }
}

impl PortfolioWaterfallAccumulator {
    /// The waterfall: without data every figure is unavailable with the
    /// collected reasons; otherwise every sum as money, and income is marked
    /// not tracked when no instrument tracked it but some did not.
    pub fn into_response(&self) -> (r: PortfolioWaterfallResponse)
        requires
            self.totals.wf(),
        ensures
            r.excluded_rows == self.excluded_rows,
            !self.has_data ==> waterfall_reported(r, self.totals, Some(self.unavailable_reasons@))
                && !r.income_not_tracked,
            self.has_data ==> waterfall_reported(r, self.totals, None) && r.income_not_tracked == (
            self.income_available_rows == 0 && self.income_not_tracked_rows > 0),
    {
        if !self.has_data {
            let u = &self.unavailable_reasons;
            return PortfolioWaterfallResponse {
                cost_basis_base: unavailable_response(u),
                held_fee_component_base: unavailable_response(u),
                price_effect_base: unavailable_response(u),
                fx_effect_base: unavailable_response(u),
                market_value_base: unavailable_response(u),
                realized_gain_base: unavailable_response(u),
                realized_fee_base: unavailable_response(u),
                realized_cost_basis_base: unavailable_response(u),
                brokerage_total_base: unavailable_response(u),
                income_base: unavailable_response(u),
                unrealized_gain_base: unavailable_response(u),
                total_return_base: unavailable_response(u),
                income_not_tracked: false,
                excluded_rows: self.excluded_rows,
            };
        }
        let t = &self.totals;
        PortfolioWaterfallResponse {
            cost_basis_base: money_response(t.cost_basis),
            held_fee_component_base: money_response(t.held_fee_component),
            price_effect_base: money_response(t.price_effect),
            fx_effect_base: money_response(t.fx_effect),
            market_value_base: money_response(t.market_value),
            realized_gain_base: money_response(t.realized_gain),
            realized_fee_base: money_response(t.realized_fee),
            realized_cost_basis_base: money_response(t.realized_cost_basis),
            brokerage_total_base: money_response(t.brokerage_total),
            income_base: money_response(t.income),
            unrealized_gain_base: money_response(t.unrealized_gain),
            total_return_base: money_response(t.total_return),
            income_not_tracked: self.income_available_rows == 0 && self.income_not_tracked_rows > 0,
            excluded_rows: self.excluded_rows,
        }
    }
}

/// Adding a closed instrument grows the waterfall's total return by its
/// realized gain plus its income, the realized gain by its gain and the
/// income by its income; the held sums stay as they were.
pub proof fn lemma_closed_grows_total_by_gain_and_income(
    before: WaterfallTotals,
    realized: RealizedGain,
    brokerage_total: DecimalNum,
    income: DecimalNum,
)
    requires
        closed_delta(realized, brokerage_total, income) matches Some(d) && realized_added(
            before,
            d,
        ) is Some,
    ensures
        ({
            let g = base_value(realized.gain_base);
            let after = realized_added(
                before,
                closed_delta(realized, brokerage_total, income)->Some_0,
            )->Some_0;
            &&& decimal_sum(g, income) matches Some(gi) && Some(after.total_return)
                == decimal_sum(before.total_return, gi)
            &&& Some(after.realized_gain) == decimal_sum(before.realized_gain, g)
            &&& Some(after.income) == decimal_sum(before.income, income)
            &&& Some(after.brokerage_total) == decimal_sum(before.brokerage_total, brokerage_total)
            &&& Some(after.realized_fee) == decimal_sum(
                before.realized_fee,
                base_value(realized.fee_base),
            )
            &&& Some(after.realized_cost_basis) == decimal_sum(
                before.realized_cost_basis,
                base_value(realized.cost_basis_base),
            )
            &&& after.unrealized_gain == before.unrealized_gain
            &&& after.market_value == before.market_value
            &&& after.cost_basis == before.cost_basis
            &&& after.held_fee_component == before.held_fee_component
            &&& after.price_effect == before.price_effect
            &&& after.fx_effect == before.fx_effect
        }),
{
}

/// Adding an open instrument grows the waterfall's total return by its
/// unrealized gain plus its realized gain plus its income, and each of those
/// three sums by its own figure.
pub proof fn lemma_open_grows_total_by_gains_and_income(
    before: WaterfallTotals,
    valued: ValuedHolding,
    realized: RealizedGain,
    brokerage_total: DecimalNum,
    income: DecimalNum,
)
    requires
        open_delta(valued, realized, brokerage_total, income) matches Some(d) && all_added(
            before,
            d,
        ) is Some,
    ensures
        ({
            let u = value_of(valued.unrealized_gain_base);
            let g = base_value(realized.gain_base);
            let after = all_added(
                before,
                open_delta(valued, realized, brokerage_total, income)->Some_0,
            )->Some_0;
            &&& decimal_sum(u, g) matches Some(ug) && decimal_sum(ug, income) matches Some(ugi)
                && Some(after.total_return) == decimal_sum(before.total_return, ugi)
            &&& Some(after.unrealized_gain) == decimal_sum(before.unrealized_gain, u)
            &&& Some(after.realized_gain) == decimal_sum(before.realized_gain, g)
            &&& Some(after.income) == decimal_sum(before.income, income)
            &&& Some(after.market_value) == decimal_sum(
                before.market_value,
                value_of(valued.market_value_base),
            )
            &&& Some(after.cost_basis) == decimal_sum(
                before.cost_basis,
                value_of(valued.cost_basis_base),
            )
            &&& Some(after.held_fee_component) == decimal_sum(
                before.held_fee_component,
                value_of(valued.fee_component_base),
            )
            &&& Some(after.price_effect) == decimal_sum(
                before.price_effect,
                value_of(valued.price_effect_base),
            )
            &&& Some(after.fx_effect) == decimal_sum(before.fx_effect, value_of(valued.fx_effect_base))
            &&& Some(after.realized_fee) == decimal_sum(
                before.realized_fee,
                base_value(realized.fee_base),
            )
            &&& Some(after.realized_cost_basis) == decimal_sum(
                before.realized_cost_basis,
                base_value(realized.cost_basis_base),
            )
            &&& Some(after.brokerage_total) == decimal_sum(before.brokerage_total, brokerage_total)
        }),
{
}

/// From an empty waterfall, one closed instrument leaves a total return of
/// its realized gain plus its income.
pub proof fn lemma_first_closed_total_return(
    realized: RealizedGain,
    brokerage_total: DecimalNum,
    income: DecimalNum,
)
    requires
        closed_delta(realized, brokerage_total, income) matches Some(d) && realized_added(
            WaterfallTotals::all(DecimalNum { mantissa: 0, scale: 0 }),
            d,
        ) is Some,
    ensures
        Some(
            realized_added(
                WaterfallTotals::all(DecimalNum { mantissa: 0, scale: 0 }),
                closed_delta(realized, brokerage_total, income)->Some_0,
            )->Some_0.total_return,
        ) == decimal_sum(base_value(realized.gain_base), income),
{
}

} // verus!
