//! The holdings response: each open position with its costs, its valuation
//! and its conviction target, as the API reports them.
use vstd::prelude::*;

use crate::calendar::valid_date;
use crate::config::{debug_string, debug_text};
use crate::decimal::{money_string, money_text, two_places_string, two_places_text, DecimalNum};
use crate::error::{ApiError, STATUS_INTERNAL_SERVER_ERROR};
use crate::gains::{amount_wf, money_availability, percent_availability, reports};
use crate::instruments::{
    conviction_from_db, level_dto, response_of, row_decodes, row_failure, ConvictionDto,
    ConvictionLevel, InstrumentResponse, InstrumentRow,
};
use crate::text::{append_str, i64_string, int_text};
use crate::valuation::{
    availability_reasons, reason_code, serialize_reasons, Availability, AvailabilityResponse,
    FxSnapshot, PriceSnapshot, ValuationReason,
};

verus! {

/// The valuation block of a holding.
#[derive(Clone, Debug)]
pub struct ValuationField {
    pub market_value_base: AvailabilityResponse,
    pub unrealized_gain_base: AvailabilityResponse,
    pub unrealized_gain_percent: AvailabilityResponse,
    pub day_change_base: AvailabilityResponse,
}

/// The valuation block: amounts as money, the gain percentage with two decimals.
pub fn valuation_field(
    market_value_base: &Availability<DecimalNum>,
    unrealized_gain_base: &Availability<DecimalNum>,
    unrealized_gain_percent: &Availability<DecimalNum>,
    day_change_base: &Availability<DecimalNum>,
) -> (r: ValuationField)
    requires
        amount_wf(*market_value_base),
        amount_wf(*unrealized_gain_base),
        amount_wf(*unrealized_gain_percent),
        amount_wf(*day_change_base),
    ensures
        reports(*market_value_base, r.market_value_base, |v: DecimalNum| money_text(v)),
        reports(*unrealized_gain_base, r.unrealized_gain_base, |v: DecimalNum| money_text(v)),
        reports(
            *unrealized_gain_percent,
            r.unrealized_gain_percent,
            |v: DecimalNum| two_places_text(v),
        ),
        reports(*day_change_base, r.day_change_base, |v: DecimalNum| money_text(v)),
{
    ValuationField {
        market_value_base: money_availability(market_value_base),
        unrealized_gain_base: money_availability(unrealized_gain_base),
        unrealized_gain_percent: percent_availability(unrealized_gain_percent),
        day_change_base: money_availability(day_change_base),
    }
}

/// What a holding's market value means for its conviction target.
#[derive(Clone, Copy, Debug, PartialEq, Eq, Structural)]
pub enum MarketValueState {
    Available(DecimalNum),
    Unavailable,
    MappingDisabled,
}

/// The market-value state of a holding, from its valued market value (`None`
/// when price mapping is off), with the reasons of an unavailable value
/// (none otherwise).
pub fn market_value_state(market_value: Option<&Availability<DecimalNum>>) -> (r: (
    MarketValueState,
    Vec<ValuationReason>,
))
    ensures
        match market_value {
            Some(Availability::Available(v)) => r.0 == MarketValueState::Available(*v)
                && r.1@.len() == 0,
            Some(Availability::Unavailable { reasons }) => r.0 == MarketValueState::Unavailable
                && r.1@ == reasons@,
            None => r.0 == MarketValueState::MappingDisabled && r.1@.len() == 0,
        },
{
    match market_value {
        Some(Availability::Available(v)) => (MarketValueState::Available(*v), Vec::new()),
        Some(Availability::Unavailable { reasons }) => {
            let mut copy: Vec<ValuationReason> = Vec::new();
            let mut i: usize = 0;
            while i < reasons.len()
                invariant
                    i <= reasons@.len(),
                    copy@ == reasons@.subrange(0, i as int),
                decreases reasons.len() - i,
            {
                copy.push(reasons[i]);
                i = i + 1;
            }
            (MarketValueState::Unavailable, copy)
        },
        None => (MarketValueState::MappingDisabled, Vec::new()),
    }
}

/// An open position valued at the report date: its quantity, cost, effects
/// and market value, the closes and FX rates used, and why figures are
/// missing.
#[derive(Clone, Debug)]
pub struct ValuedHolding {
    pub quantity: i64,
    pub cost_basis_native: DecimalNum,
    pub cost_basis_base: Availability<DecimalNum>,
    /// The part of the cost basis that is brokerage on the shares still held.
    pub fee_component_base: Availability<DecimalNum>,
    pub price_effect_base: Availability<DecimalNum>,
    pub fx_effect_base: Availability<DecimalNum>,
    pub market_value_native: Availability<DecimalNum>,
    pub market_value_base: Availability<DecimalNum>,
    pub unrealized_gain_base: Availability<DecimalNum>,
    pub unrealized_gain_percent: Availability<DecimalNum>,
    pub day_change_base: Availability<DecimalNum>,
    pub day_change_percent: Availability<DecimalNum>,
    pub latest_price: Option<PriceSnapshot>,
    pub previous_price: Option<PriceSnapshot>,
    pub latest_fx: Option<FxSnapshot>,
    pub previous_fx: Option<FxSnapshot>,
    pub reasons: Vec<ValuationReason>,
}

/// A price snapshot on a calendar date with a close in the decimal range.
pub open spec fn price_wf(p: Option<PriceSnapshot>) -> bool {
    p matches Some(s) ==> valid_date(s.date) && s.close.wf()
}

/// An FX snapshot on a calendar date with a rate in the decimal range.
pub open spec fn fx_wf(p: Option<FxSnapshot>) -> bool {
    p matches Some(s) ==> valid_date(s.date) && s.rate.wf()
}

impl ValuedHolding {
    /// Every amount lies in the decimal range and every snapshot is on a
    /// calendar date.
    pub open spec fn wf(&self) -> bool {
        &&& self.cost_basis_native.wf()
        &&& amount_wf(self.cost_basis_base)
        &&& amount_wf(self.fee_component_base)
        &&& amount_wf(self.price_effect_base)
        &&& amount_wf(self.fx_effect_base)
        &&& amount_wf(self.market_value_native)
        &&& amount_wf(self.market_value_base)
        &&& amount_wf(self.unrealized_gain_base)
        &&& amount_wf(self.unrealized_gain_percent)
        &&& amount_wf(self.day_change_base)
        &&& amount_wf(self.day_change_percent)
        &&& price_wf(self.latest_price)
        &&& price_wf(self.previous_price)
        &&& fx_wf(self.latest_fx)
        &&& fx_wf(self.previous_fx)
    }
}

/// A held instrument with its quantity, its conviction and, when price
/// mapping is on, its valuation.
#[derive(Clone, Debug)]
pub struct ValuedOpenHolding {
    pub instrument: InstrumentRow,
    pub quantity: i64,
    pub conviction: ConvictionLevel,
    pub valuation: Option<ValuedHolding>,
}

/// What the conviction targets read of a holding.
#[derive(Clone, Debug)]
pub struct ConvictionTargetInput {
    pub instrument_id: i64,
    pub conviction: ConvictionLevel,
    pub market_value: MarketValueState,
    pub open_quantity: i64,
    pub has_positive_price: bool,
}

/// The market-value state of a holding's valuation (`None` when price mapping
/// is off).
pub open spec fn state_of(valuation: Option<ValuedHolding>) -> MarketValueState {
    match valuation {
        Some(v) => match v.market_value_base {
            Availability::Available(x) => MarketValueState::Available(x),
            Availability::Unavailable { .. } => MarketValueState::Unavailable,
        },
        None => MarketValueState::MappingDisabled,
    }
}

impl ValuedOpenHolding {
    /// Available with the value, unavailable, or mapping disabled.
    pub fn market_value_state(&self) -> (r: MarketValueState)
        ensures
            r == state_of(self.valuation),
    {
        match &self.valuation {
            Some(v) => match &v.market_value_base {
                Availability::Available(x) => MarketValueState::Available(*x),
                Availability::Unavailable { .. } => MarketValueState::Unavailable,
            },
            None => MarketValueState::MappingDisabled,
        }
    }

    /// Why the market value is unavailable; none when it is available or
    /// mapping is off.
    pub fn market_value_reasons(&self) -> (r: Vec<ValuationReason>)
        ensures
            r@ == match self.valuation {
                Some(v) => availability_reasons(v.market_value_base),
                None => Seq::empty(),
            },
    {
        match &self.valuation {
            Some(v) => v.market_value_base.reasons(),
            None => Vec::new(),
        }
    }

    /// The latest close used, if valued.
    pub fn latest_price_snapshot(&self) -> (r: Option<&PriceSnapshot>)
        ensures
            match self.valuation {
                Some(v) => match v.latest_price {
                    Some(p) => r matches Some(q) && *q == p,
                    None => r is None,
                },
                None => r is None,
            },
    {
        match &self.valuation {
            Some(v) => match &v.latest_price {
                Some(p) => Some(p),
                None => None,
            },
            None => None,
        }
    }

    /// The latest FX rate used, if valued.
    pub fn latest_fx_snapshot(&self) -> (r: Option<&FxSnapshot>)
        ensures
            match self.valuation {
                Some(v) => match v.latest_fx {
                    Some(f) => r matches Some(q) && *q == f,
                    None => r is None,
                },
                None => r is None,
            },
    {
        match &self.valuation {
            Some(v) => match &v.latest_fx {
                Some(f) => Some(f),
                None => None,
            },
            None => None,
        }
    }

    /// Whether the latest close is above zero.
    pub open spec fn positive_price(&self) -> bool {
        self.valuation matches Some(v) && v.latest_price matches Some(p) && p.close.mantissa > 0
    }

    /// Whether the latest close is above zero.
    pub fn has_positive_price(&self) -> (b: bool)
        ensures
            b == self.positive_price(),
    {
        match self.latest_price_snapshot() {
            Some(p) => p.close.mantissa > 0,
            None => false,
        }
    }

    /// The holding as the conviction targets see it.
    pub fn conviction_target_input(&self) -> (r: ConvictionTargetInput)
        ensures
            r.instrument_id == self.instrument.id,
            r.conviction == self.conviction,
            r.market_value == state_of(self.valuation),
            r.open_quantity == self.quantity,
            r.has_positive_price == self.positive_price(),
    {
        ConvictionTargetInput {
            instrument_id: self.instrument.id,
            conviction: self.conviction,
            market_value: self.market_value_state(),
            open_quantity: self.quantity,
            has_positive_price: self.has_positive_price(),
        }
    }
}

/// The conviction stored for an instrument; an unknown one is an internal
/// error naming it and the instrument.
pub fn stored_conviction(instrument: &InstrumentRow) -> (r: Result<ConvictionLevel, ApiError>)
    ensures
        match conviction_from_db(instrument.conviction@) {
            Some(c) => r == Ok::<ConvictionLevel, ApiError>(c),
            None => (r matches Err(e) && e.status == STATUS_INTERNAL_SERVER_ERROR && e.code@
                == "internal_error"@ && e.message@ == "stored unknown conviction "@ + debug_text(
                instrument.conviction@,
            ) + " for instrument "@ + int_text(instrument.id as int) && e.details is None),
        },
{
    match ConvictionLevel::from_db_str(instrument.conviction.as_str()) {
        Some(c) => Ok(c),
        None => {
            let mut m = "stored unknown conviction ".to_owned();
            let q = debug_string(instrument.conviction.as_str());
            append_str(&mut m, q.as_str());
            append_str(&mut m, " for instrument ");
            let id = i64_string(instrument.id);
            append_str(&mut m, id.as_str());
            Err(ApiError::internal(m))
        },
    }
}

/// A conviction-target figure: available, or unavailable with the codes of why.
#[derive(Clone, Debug)]
pub enum TargetField {
    Available(DecimalNum),
    Unavailable(Vec<String>),
}

/// The conviction target derived for a holding: its conviction, the code of
/// its status, and the target value, gap and gap percentage.
#[derive(Clone, Debug)]
pub struct ConvictionTargetOutput {
    pub conviction: ConvictionLevel,
    pub status: &'static str,
    pub target_value: TargetField,
    pub target_gap: TargetField,
    pub target_gap_percent: TargetField,
}

pub open spec fn field_wf(f: TargetField) -> bool {
    f matches TargetField::Available(v) ==> v.wf()
}

impl ConvictionTargetOutput {
    pub open spec fn wf(&self) -> bool {
        field_wf(self.target_value) && field_wf(self.target_gap) && field_wf(
            self.target_gap_percent,
        )
    }
}

/// The conviction target as reported.
#[derive(Clone, Debug)]
pub struct ConvictionTargetResponse {
    pub conviction: ConvictionDto,
    pub status: &'static str,
    pub target_value_base: AvailabilityResponse,
    pub target_gap_base: AvailabilityResponse,
    pub target_gap_percent: AvailabilityResponse,
}

pub open spec fn string_views(s: Seq<String>) -> Seq<Seq<char>> {
    s.map_values(|x: String| x@)
}

/// `r` reports a target figure: the available value rendered by `text`, or
/// the figure's own codes followed by the valuation codes.
pub open spec fn target_reported(
    field: TargetField,
    valuation_codes: Seq<Seq<char>>,
    r: AvailabilityResponse,
    text: spec_fn(DecimalNum) -> Seq<char>,
) -> bool {
    match field {
        TargetField::Available(v) => r matches AvailabilityResponse::Available { value: s } && s@
            == text(v),
        TargetField::Unavailable(codes) => r matches AvailabilityResponse::Unavailable {
            reasons: out,
        } && string_views(out@) == string_views(codes@) + valuation_codes,
    }
}

/// Appends copies of `more` to `out`.
fn extend_strings(out: &mut Vec<String>, more: &[String])
    ensures
        final(out)@ == old(out)@ + more@,
{
    let ghost start = out@;
    let mut i: usize = 0;
    while i < more.len()
        invariant
            i <= more@.len(),
            out@ == start + more@.subrange(0, i as int),
        decreases more.len() - i,
    {
        out.push(more[i].clone());
        i = i + 1;
        assert(more@.subrange(0, i as int) =~= more@.subrange(0, i - 1).push(more@[i - 1]));
    }
    assert(more@.subrange(0, i as int) =~= more@);
}

/// A target figure as reported: an available value formatted with `format`;
/// an unavailable one keeps its own codes and then the valuation codes, so
/// that the target reads as actionably as the valuation beside it.
pub fn target_field_response<F: Fn(DecimalNum) -> String>(
    field: &TargetField,
    valuation_reasons: &[String],
    format: F,
) -> (r: AvailabilityResponse)
    requires
        field matches TargetField::Available(v) ==> call_requires(format, (*v,)),
    ensures
        match field {
            TargetField::Available(v) => r matches AvailabilityResponse::Available { value: s }
                && call_ensures(format, (*v,), s),
            TargetField::Unavailable(codes) => r matches AvailabilityResponse::Unavailable {
                reasons: out,
            } && out@ == codes@ + valuation_reasons@,
        },
{
    match field {
        TargetField::Available(v) => AvailabilityResponse::Available { value: format(*v) },
        TargetField::Unavailable(codes) => {
            let mut out: Vec<String> = Vec::new();
            extend_strings(&mut out, codes.as_slice());
            extend_strings(&mut out, valuation_reasons);
            assert(out@ =~= codes@ + valuation_reasons@);
            AvailabilityResponse::Unavailable { reasons: out }
        },
    }
}

fn money_value(v: DecimalNum) -> (s: String)
    requires
        v.wf(),
    ensures
        s@ == money_text(v),
{
    money_string(v)
}

fn percent_value(v: DecimalNum) -> (s: String)
    requires
        v.wf(),
    ensures
        s@ == two_places_text(v),
{
    two_places_string(v)
}

/// The codes of the market-value reasons, as strings.
pub open spec fn reason_codes(reasons: Seq<ValuationReason>) -> Seq<Seq<char>> {
    reasons.map_values(|r: ValuationReason| reason_code(r))
}

/// The conviction target as reported: the value and gap as money, the gap
/// percentage with two decimals; an unavailable figure also carries the codes
/// of why the market value is unavailable.
pub fn build_conviction_target(
    output: &ConvictionTargetOutput,
    market_value_reasons: &[ValuationReason],
) -> (r: ConvictionTargetResponse)
    requires
        output.wf(),
    ensures
        r.conviction == level_dto(output.conviction),
        r.status == output.status,
        target_reported(
            output.target_value,
            reason_codes(market_value_reasons@),
            r.target_value_base,
            |v: DecimalNum| money_text(v),
        ),
        target_reported(
            output.target_gap,
            reason_codes(market_value_reasons@),
            r.target_gap_base,
            |v: DecimalNum| money_text(v),
        ),
        target_reported(
            output.target_gap_percent,
            reason_codes(market_value_reasons@),
            r.target_gap_percent,
            |v: DecimalNum| two_places_text(v),
        ),
{
    let valuation_reasons = serialize_reasons(market_value_reasons);
    proof {
        assert(string_views(valuation_reasons@) =~= reason_codes(market_value_reasons@));
    }
    let target_value_base = target_field_response(
        &output.target_value,
        valuation_reasons.as_slice(),
        money_value,
    );
    let target_gap_base = target_field_response(
        &output.target_gap,
        valuation_reasons.as_slice(),
        money_value,
    );
    let target_gap_percent = target_field_response(
        &output.target_gap_percent,
        valuation_reasons.as_slice(),
        percent_value,
    );
    proof {
        let codes = valuation_reasons@;
        if let TargetField::Unavailable(c) = &output.target_value {
            assert(string_views(c@ + codes) =~= string_views(c@) + string_views(codes));
        }
        if let TargetField::Unavailable(c) = &output.target_gap {
            assert(string_views(c@ + codes) =~= string_views(c@) + string_views(codes));
        }
        if let TargetField::Unavailable(c) = &output.target_gap_percent {
            assert(string_views(c@ + codes) =~= string_views(c@) + string_views(codes));
        }
    }
    ConvictionTargetResponse {
        conviction: ConvictionDto::from_level(output.conviction),
        status: output.status,
        target_value_base,
        target_gap_base,
        target_gap_percent,
    }
}

/// Why a holding's base-currency cost is unavailable.
#[derive(Clone, Copy, Debug, PartialEq, Eq, Structural)]
pub enum UnavailableReason {
    MissingFx { transaction_id: i64 },
}

/// A holding's cost in the base currency, or why it is unavailable.
#[derive(Clone, Debug)]
pub enum BaseCostBasis {
    Available { cost_basis_base: DecimalNum, fee_component_base: DecimalNum },
    Unavailable { reasons: Vec<UnavailableReason> },
}

/// What the holdings response reads of a position: its quantity and native
/// cost, its average native cost (none for a non-positive quantity), its
/// base-currency cost and the average of that (none when unavailable).
#[derive(Clone, Debug)]
pub struct PositionFigures {
    pub quantity: i64,
    pub cost_basis_native: DecimalNum,
    pub average_cost_native: Option<DecimalNum>,
    pub base: BaseCostBasis,
    pub average_cost_base: Option<DecimalNum>,
}

impl PositionFigures {
    pub open spec fn wf(&self) -> bool {
        &&& self.cost_basis_native.wf()
        &&& self.average_cost_native matches Some(a) ==> a.wf()
        &&& self.average_cost_base matches Some(a) ==> a.wf()
        &&& self.base matches BaseCostBasis::Available { cost_basis_base, fee_component_base }
            ==> cost_basis_base.wf() && fee_component_base.wf()
    }
}

/// A reason a base cost is unavailable, as reported.
#[derive(Clone, Debug)]
pub struct ReasonResponse {
    pub code: &'static str,
    pub transaction_id: i64,
}

/// The base-currency cost as reported.
#[derive(Clone, Debug)]
pub enum BaseResponse {
    Available { cost_basis_base: String, average_cost_base: String, fee_component_base: String },
    Unavailable { reasons: Vec<ReasonResponse> },
}

/// A holding as reported.
#[derive(Clone, Debug)]
pub struct HoldingResponse {
    pub instrument: InstrumentResponse,
    pub quantity: i64,
    pub cost_basis_native: String,
    pub average_cost_native: String,
    pub base: BaseResponse,
    pub valuation: Option<ValuationField>,
    pub conviction_target: ConvictionTargetResponse,
}

/// The internal error of a holding without an average native cost.
pub open spec fn non_positive_failure(e: ApiError) -> bool {
    e.status == STATUS_INTERNAL_SERVER_ERROR && e.code@ == "internal_error"@ && e.message@
        == "holding with non-positive quantity"@ && e.details is None
}

/// The internal error of an available base cost without an average.
pub open spec fn base_average_failure(e: ApiError) -> bool {
    e.status == STATUS_INTERNAL_SERVER_ERROR && e.code@ == "internal_error"@ && e.message@
        == "available base without average"@ && e.details is None
}

/// Whether the base block of a position can be reported.
pub open spec fn base_reportable(position: PositionFigures) -> bool {
    position.base matches BaseCostBasis::Available { .. } ==> position.average_cost_base is Some
}

/// `r` reports the base cost of a reportable position.
pub open spec fn base_reported(position: PositionFigures, r: BaseResponse) -> bool {
    match position.base {
        BaseCostBasis::Available { cost_basis_base, fee_component_base } => r matches BaseResponse::Available {
            cost_basis_base: c,
            average_cost_base: a,
            fee_component_base: f,
        } && c@ == money_text(cost_basis_base) && a@ == money_text(
            position.average_cost_base.unwrap(),
        ) && f@ == money_text(fee_component_base),
        BaseCostBasis::Unavailable { reasons } => r matches BaseResponse::Unavailable {
            reasons: out,
        } && out@.len() == reasons@.len() && forall|i: int|
            0 <= i < reasons@.len() ==> (#[trigger] out@[i]).code@ == "missing_fx"@
                && reasons@[i] == (UnavailableReason::MissingFx {
                transaction_id: out@[i].transaction_id,
            }),
    }
}

impl HoldingResponse {
    /// A holding as reported: the instrument, the quantity, the native cost
    /// and its average as money, and the base cost (with its average) or the
    /// reasons it is unavailable. A position without an average native cost,
    /// then an available base cost without an average, then an instrument row
    /// that does not decode, is an internal error.
    pub fn build(
        instrument: &InstrumentRow,
        position: &PositionFigures,
        valuation: Option<ValuationField>,
        conviction_target: ConvictionTargetResponse,
    ) -> (r: Result<Self, ApiError>)
        requires
            position.wf(),
        ensures
            position.average_cost_native is None ==> (r matches Err(e) && non_positive_failure(e)),
            position.average_cost_native is Some && !base_reportable(*position) ==> (r matches Err(e)
                && base_average_failure(e)),
            position.average_cost_native is Some && base_reportable(*position) && !row_decodes(
                *instrument,
            ) ==> (r matches Err(e) && row_failure(*instrument, e)),
            (position.average_cost_native is Some && base_reportable(*position) && row_decodes(
                *instrument,
            )) ==> (r matches Ok(h) && h.instrument == response_of(*instrument) && h.quantity
                == position.quantity && h.cost_basis_native@ == money_text(
                position.cost_basis_native,
            ) && h.average_cost_native@ == money_text(position.average_cost_native.unwrap())
                && base_reported(*position, h.base) && h.valuation == valuation
                && h.conviction_target == conviction_target),
    {
        let average_cost_native = match position.average_cost_native {
            Some(a) => money_string(a),
            None => {
                return Err(ApiError::internal("holding with non-positive quantity".to_owned()));
            },
        };
        let base = match &position.base {
            BaseCostBasis::Available { cost_basis_base, fee_component_base } => {
                let average = match position.average_cost_base {
                    Some(a) => money_string(a),
                    None => {
                        return Err(ApiError::internal("available base without average".to_owned()));
                    },
                };
                BaseResponse::Available {
                    cost_basis_base: money_string(*cost_basis_base),
                    average_cost_base: average,
                    fee_component_base: money_string(*fee_component_base),
                }
            },
            BaseCostBasis::Unavailable { reasons } => {
                let mut out: Vec<ReasonResponse> = Vec::new();
                let mut i: usize = 0;
                while i < reasons.len()
                    invariant
                        i <= reasons@.len(),
                        out@.len() == i,
                        forall|j: int|
                            0 <= j < i ==> (#[trigger] out@[j]).code@ == "missing_fx"@
                                && reasons@[j] == (UnavailableReason::MissingFx {
                                transaction_id: out@[j].transaction_id,
                            }),
                    decreases reasons.len() - i,
                {
                    match reasons[i] {
                        UnavailableReason::MissingFx { transaction_id } => {
                            out.push(ReasonResponse { code: "missing_fx", transaction_id });
                            proof {
                                reveal_strlit("missing_fx");
                            }
                        },
                    }
                    i = i + 1;
                }
                BaseResponse::Unavailable { reasons: out }
            },
        };
        let instrument_response = match InstrumentResponse::from_row(instrument) {
            Ok(i) => i,
            Err(e) => {
                return Err(e);
            },
        };
        Ok(
            HoldingResponse {
                instrument: instrument_response,
                quantity: position.quantity,
                cost_basis_native: money_string(position.cost_basis_native),
                average_cost_native,
                base,
                valuation,
                conviction_target,
            },
        )
    }
}

} // verus!
