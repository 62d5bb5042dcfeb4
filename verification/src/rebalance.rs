//! The rebalance response: the amount a request asks to move, and the ladder
//! of trade plans as the API reports it.
use vstd::prelude::*;

use crate::decimal::{
    decimal_from_str, decimal_from_text, money_string, money_text, two_places_string,
    two_places_text, DecimalNum,
};
use crate::error::{ApiError, STATUS_BAD_REQUEST, STATUS_INTERNAL_SERVER_ERROR};
use crate::instruments::{response_of, row_decodes, row_failure, InstrumentResponse, InstrumentRow};
use crate::text::{append_str, i64_string, int_text, trim, trim_string};
use crate::valuation::{
    at_least_as_stale, freshness_code, serialize_freshness, staler_freshness, DataFreshness,
    BASE_CURRENCY,
};

verus! {

/// The query of a rebalance request.
#[derive(Clone, Debug)]
pub struct RebalanceQuery {
    pub amount: Option<String>,
}

/// The amount a rebalance request asks to move: required, and a decimal once
/// trimmed.
pub fn parse_amount(amount: Option<&str>) -> (r: Result<DecimalNum, ApiError>)
    ensures
        match amount {
            None => (r matches Err(e) && e.status == STATUS_BAD_REQUEST && e.code@
                == "invalid_amount"@ && e.message@ == "amount query parameter is required"@
                && e.details is None),
            Some(a) => match decimal_from_text(trim(a@)) {
                Some((m, sc)) => r matches Ok(d) && d.mantissa == m && d.scale == sc && d.wf(),
                None => (r matches Err(e) && e.status == STATUS_BAD_REQUEST && e.code@
                    == "invalid_amount"@ && e.message@ == "amount must be a decimal"@
                    && e.details is None),
            },
        },
{
    match amount {
        None => Err(
            ApiError::bad_request(
                "invalid_amount",
                "amount query parameter is required".to_owned(),
            ),
        ),
        Some(a) => {
            let trimmed = trim_string(a);
            match decimal_from_str(trimmed.as_str()) {
                Ok(d) => Ok(d),
                Err(_) => Err(
                    ApiError::bad_request("invalid_amount", "amount must be a decimal".to_owned()),
                ),
            }
        },
    }
}

/// The direction of a planned trade.
#[derive(Clone, Copy, Debug, PartialEq, Eq, Structural)]
pub enum TradeSide {
    Buy,
    Sell,
}

/// A trade of a plan: whole shares of one instrument at a base-currency price.
#[derive(Clone, Copy, Debug)]
pub struct PlannedTrade {
    pub instrument_id: i64,
    pub side: TradeSide,
    pub shares: i64,
    pub price_base: DecimalNum,
    pub amount_base: DecimalNum,
}

/// A candidate a plan leaves untouched, with the code of the reason.
#[derive(Clone, Debug)]
pub struct UntradedCandidate {
    pub instrument_id: i64,
    pub reason: String,
}

/// One rung of the ladder: the plan when trading a given number of candidates.
#[derive(Clone, Debug)]
pub struct RebalanceRung {
    pub selected_count: usize,
    pub effective_trade_count: usize,
    pub trades: Vec<PlannedTrade>,
    pub untraded: Vec<UntradedCandidate>,
    pub achieved_net_base: DecimalNum,
    pub residual_base: DecimalNum,
    pub coverage_percent: Option<DecimalNum>,
}

/// The plans for moving an amount through the candidate pool.
#[derive(Clone, Debug)]
pub struct RebalanceLadder {
    pub pool_value_base: DecimalNum,
    pub candidate_count: usize,
    pub rungs: Vec<RebalanceRung>,
}

/// A pool candidate with what the response reports of it: the instrument
/// and how stale its price and FX rate are.
#[derive(Clone, Debug)]
pub struct PreparedCandidate {
    pub instrument: InstrumentRow,
    pub price_freshness: DataFreshness,
    pub fx_freshness: DataFreshness,
}

impl RebalanceRung {
    pub open spec fn wf(&self) -> bool {
        &&& forall|i: int|
            0 <= i < self.trades@.len() ==> (#[trigger] self.trades@[i]).price_base.wf()
                && self.trades@[i].amount_base.wf()
        &&& self.achieved_net_base.wf()
        &&& self.residual_base.wf()
        &&& self.coverage_percent matches Some(c) ==> c.wf()
    }
}

impl RebalanceLadder {
    pub open spec fn wf(&self) -> bool {
        &&& self.pool_value_base.wf()
        &&& forall|i: int| 0 <= i < self.rungs@.len() ==> (#[trigger] self.rungs@[i]).wf()
    }
}

/// The side of a trade as reported.
#[derive(Clone, Copy, Debug, PartialEq, Eq, Structural)]
pub enum RebalanceTradeSideResponse {
    Buy,
    Sell,
}

pub open spec fn side_of(side: TradeSide) -> RebalanceTradeSideResponse {
    match side {
        TradeSide::Buy => RebalanceTradeSideResponse::Buy,
        TradeSide::Sell => RebalanceTradeSideResponse::Sell,
    }
}

/// The reported side of a trade side.
pub fn side_response(side: TradeSide) -> (r: RebalanceTradeSideResponse)
    ensures
        r == side_of(side),
{
    match side {
        TradeSide::Buy => RebalanceTradeSideResponse::Buy,
        TradeSide::Sell => RebalanceTradeSideResponse::Sell,
    }
}

/// A trade as reported.
#[derive(Clone, Debug)]
pub struct RebalanceTradeResponse {
    pub instrument: InstrumentResponse,
    pub side: RebalanceTradeSideResponse,
    pub shares: i64,
    pub price_base: String,
    pub amount_base: String,
    pub freshness: String,
}

/// An untraded candidate as reported.
#[derive(Clone, Debug)]
pub struct RebalanceUntradedResponse {
    pub instrument: InstrumentResponse,
    pub reason: String,
}

/// A rung as reported.
#[derive(Clone, Debug)]
pub struct RebalanceRungResponse {
    pub selected_count: usize,
    pub effective_trade_count: usize,
    pub trades: Vec<RebalanceTradeResponse>,
    pub untraded: Vec<RebalanceUntradedResponse>,
    pub achieved_net_base: String,
    pub residual_base: String,
    pub coverage_percent: Option<String>,
}

/// The plan as reported: the ladder, or why there is none.
#[derive(Clone, Debug)]
pub enum RebalancePlanResponse {
    Available { pool_value_base: String, candidate_count: usize, rungs: Vec<RebalanceRungResponse> },
    Unavailable { reasons: Vec<String> },
}

/// A rebalance response.
#[derive(Clone, Debug)]
pub struct RebalanceResponse {
    pub amount_base: String,
    pub base_currency: &'static str,
    pub plan: RebalancePlanResponse,
}

/// The first prepared candidate of an instrument, if any.
pub open spec fn first_prepared(prepared: Seq<PreparedCandidate>, id: i64) -> Option<
    PreparedCandidate,
>
    decreases prepared.len(),
{
    if prepared.len() == 0 {
        None
    } else {
        let earlier = first_prepared(prepared.drop_last(), id);
        if earlier is Some {
            earlier
        } else if prepared.last().instrument.id == id {
            Some(prepared.last())
        } else {
            None
        }
    }
}

proof fn lemma_first_prepared_kept(s: Seq<PreparedCandidate>, t: Seq<PreparedCandidate>, id: i64)
    requires
        first_prepared(s, id) is Some,
    ensures
        first_prepared(s + t, id) == first_prepared(s, id),
    decreases t.len(),
{
    if t.len() > 0 {
        lemma_first_prepared_kept(s, t.drop_last(), id);
        assert((s + t).drop_last() =~= s + t.drop_last());
    } else {
        assert(s + t =~= s);
    }
}

proof fn lemma_first_prepared_absent(s: Seq<PreparedCandidate>, id: i64)
    requires
        forall|i: int| 0 <= i < s.len() ==> (#[trigger] s[i]).instrument.id != id,
    ensures
        first_prepared(s, id) is None,
    decreases s.len(),
{
    if s.len() > 0 {
        lemma_first_prepared_absent(s.drop_last(), id);
    }
}

/// The internal error for a trade or untraded candidate with no prepared candidate.
pub open spec fn lookup_failure(id: i64, e: ApiError) -> bool {
    &&& e.status == STATUS_INTERNAL_SERVER_ERROR
    &&& e.code@ == "internal_error"@
    &&& e.message@ == "rebalance response lookup missing candidate for instrument "@ + int_text(
        id as int,
    )
    &&& e.details is None
}

/// The prepared candidate of an instrument: the first with its id.
fn lookup_prepared(prepared: &Vec<PreparedCandidate>, id: i64) -> (r: Result<
    &PreparedCandidate,
    ApiError,
>)
    ensures
        match first_prepared(prepared@, id) {
            Some(p) => r matches Ok(q) && *q == p,
            None => r matches Err(e) && lookup_failure(id, e),
        },
{
    let mut i: usize = 0;
    while i < prepared.len()
        invariant
            i <= prepared@.len(),
            forall|j: int| 0 <= j < i ==> (#[trigger] prepared@[j]).instrument.id != id,
        decreases prepared.len() - i,
    {
        if prepared[i].instrument.id == id {
            proof {
                let s = prepared@.subrange(0, i as int);
                let s1 = prepared@.subrange(0, i + 1);
                lemma_first_prepared_absent(s, id);
                assert(s1.drop_last() =~= s);
                assert(first_prepared(s1, id) == Some(prepared@[i as int]));
                lemma_first_prepared_kept(s1, prepared@.subrange(i + 1, prepared@.len() as int), id);
                assert(s1 + prepared@.subrange(i + 1, prepared@.len() as int) =~= prepared@);
            }
            return Ok(&prepared[i]);
        }
        i = i + 1;
    }
    proof {
        lemma_first_prepared_absent(prepared@, id);
    }
    let mut m = "rebalance response lookup missing candidate for instrument ".to_owned();
    let n = i64_string(id);
    append_str(&mut m, n.as_str());
    Err(ApiError::internal(m))
}

/// The staler of two freshness values, `a` on a tie.
pub open spec fn staler(a: DataFreshness, b: DataFreshness) -> DataFreshness {
    if at_least_as_stale(a, b) {
        a
    } else {
        b
    }
}

/// Whether an instrument of a plan can be reported: it has a prepared
/// candidate whose stored row decodes.
pub open spec fn reportable(prepared: Seq<PreparedCandidate>, id: i64) -> bool {
    first_prepared(prepared, id) matches Some(p) && row_decodes(p.instrument)
}

/// The error reporting an instrument that is not reportable gives.
pub open spec fn report_failure(prepared: Seq<PreparedCandidate>, id: i64, e: ApiError) -> bool {
    match first_prepared(prepared, id) {
        None => lookup_failure(id, e),
        Some(p) => row_failure(p.instrument, e),
    }
}

/// `r` reports trade `t`, whose instrument is reportable.
pub open spec fn trade_reported(
    prepared: Seq<PreparedCandidate>,
    t: PlannedTrade,
    r: RebalanceTradeResponse,
) -> bool {
    let p = first_prepared(prepared, t.instrument_id).unwrap();
    &&& r.instrument == response_of(p.instrument)
    &&& r.side == side_of(t.side)
    &&& r.shares == t.shares
    &&& r.price_base@ == money_text(t.price_base)
    &&& r.amount_base@ == money_text(t.amount_base)
    &&& r.freshness@ == freshness_code(staler(p.price_freshness, p.fx_freshness))
}

/// A trade as reported: its instrument, side, shares and amounts as money,
/// and the staler of its price and FX freshness.
pub fn serialize_trade(trade: &PlannedTrade, prepared: &Vec<PreparedCandidate>) -> (r: Result<
    RebalanceTradeResponse,
    ApiError,
>)
    requires
        trade.price_base.wf(),
        trade.amount_base.wf(),
    ensures
        reportable(prepared@, trade.instrument_id) ==> (r matches Ok(resp) && trade_reported(
            prepared@,
            *trade,
            resp,
        )),
        !reportable(prepared@, trade.instrument_id) ==> (r matches Err(e) && report_failure(
            prepared@,
            trade.instrument_id,
            e,
        )),
{
    let p = match lookup_prepared(prepared, trade.instrument_id) {
        Ok(p) => p,
        Err(e) => {
            return Err(e);
        },
    };
    let freshness = serialize_freshness(staler_freshness(p.price_freshness, p.fx_freshness));
    let instrument = match InstrumentResponse::from_row(&p.instrument) {
        Ok(i) => i,
        Err(e) => {
            return Err(e);
        },
    };
    Ok(
        RebalanceTradeResponse {
            instrument,
            side: side_response(trade.side),
            shares: trade.shares,
            price_base: money_string(trade.price_base),
            amount_base: money_string(trade.amount_base),
            freshness,
        },
    )
}

/// `r` reports untraded candidate `u`, whose instrument is reportable.
pub open spec fn untraded_reported(
    prepared: Seq<PreparedCandidate>,
    u: UntradedCandidate,
    r: RebalanceUntradedResponse,
) -> bool {
    &&& r.instrument == response_of(first_prepared(prepared, u.instrument_id).unwrap().instrument)
    &&& r.reason == u.reason
}

/// An untraded candidate as reported: its instrument and reason.
pub fn serialize_untraded(untraded: &UntradedCandidate, prepared: &Vec<PreparedCandidate>) -> (r:
    Result<RebalanceUntradedResponse, ApiError>)
    ensures
        reportable(prepared@, untraded.instrument_id) ==> (r matches Ok(resp) && untraded_reported(
            prepared@,
            *untraded,
            resp,
        )),
        !reportable(prepared@, untraded.instrument_id) ==> (r matches Err(e) && report_failure(
            prepared@,
            untraded.instrument_id,
            e,
        )),
{
    let p = match lookup_prepared(prepared, untraded.instrument_id) {
        Ok(p) => p,
        Err(e) => {
            return Err(e);
        },
    };
    let instrument = match InstrumentResponse::from_row(&p.instrument) {
        Ok(i) => i,
        Err(e) => {
            return Err(e);
        },
    };
    Ok(RebalanceUntradedResponse { instrument, reason: untraded.reason.clone() })
}

/// Whether every trade and untraded candidate of a rung can be reported.
pub open spec fn rung_reportable(prepared: Seq<PreparedCandidate>, rung: RebalanceRung) -> bool {
    &&& forall|i: int|
        0 <= i < rung.trades@.len() ==> reportable(prepared, (#[trigger] rung.trades@[i]).instrument_id)
    &&& forall|i: int|
        0 <= i < rung.untraded@.len() ==> reportable(
            prepared,
            (#[trigger] rung.untraded@[i]).instrument_id,
        )
}

/// The error of the first trade, else the first untraded candidate, that
/// cannot be reported.
pub open spec fn rung_failure(prepared: Seq<PreparedCandidate>, rung: RebalanceRung, e: ApiError) -> bool {
    ||| exists|i: int|
        0 <= i < rung.trades@.len() && !reportable(prepared, #[trigger] rung.trades@[i].instrument_id)
            && (forall|j: int| 0 <= j < i ==> reportable(prepared, rung.trades@[j].instrument_id))
            && report_failure(prepared, rung.trades@[i].instrument_id, e)
    ||| (forall|j: int|
        0 <= j < rung.trades@.len() ==> reportable(prepared, #[trigger] rung.trades@[j].instrument_id))
        && exists|i: int|
        0 <= i < rung.untraded@.len() && !reportable(
            prepared,
            #[trigger] rung.untraded@[i].instrument_id,
        ) && (forall|j: int| 0 <= j < i ==> reportable(prepared, rung.untraded@[j].instrument_id))
            && report_failure(prepared, rung.untraded@[i].instrument_id, e)
}

/// `r` reports a reportable rung.
pub open spec fn rung_reported(
    prepared: Seq<PreparedCandidate>,
    rung: RebalanceRung,
    r: RebalanceRungResponse,
) -> bool {
    &&& r.selected_count == rung.selected_count
    &&& r.effective_trade_count == rung.effective_trade_count
    &&& r.trades@.len() == rung.trades@.len()
    &&& forall|i: int|
        0 <= i < rung.trades@.len() ==> trade_reported(
            prepared,
            #[trigger] rung.trades@[i],
            r.trades@[i],
        )
    &&& r.untraded@.len() == rung.untraded@.len()
    &&& forall|i: int|
        0 <= i < rung.untraded@.len() ==> untraded_reported(
            prepared,
            #[trigger] rung.untraded@[i],
            r.untraded@[i],
        )
    &&& r.achieved_net_base@ == money_text(rung.achieved_net_base)
    &&& r.residual_base@ == money_text(rung.residual_base)
    &&& match rung.coverage_percent {
        Some(c) => r.coverage_percent matches Some(s) && s@ == two_places_text(c),
        None => r.coverage_percent is None,
    }
}

/// A rung as reported: its trades and untraded candidates in order, the
/// amounts as money and the coverage with two decimals.
pub fn serialize_rung(rung: &RebalanceRung, prepared: &Vec<PreparedCandidate>) -> (r: Result<
    RebalanceRungResponse,
    ApiError,
>)
    requires
        rung.wf(),
    ensures
        rung_reportable(prepared@, *rung) ==> (r matches Ok(resp) && rung_reported(
            prepared@,
            *rung,
            resp,
        )),
        !rung_reportable(prepared@, *rung) ==> (r matches Err(e) && rung_failure(
            prepared@,
            *rung,
            e,
        )),
{
    let mut trades: Vec<RebalanceTradeResponse> = Vec::new();
    let mut i: usize = 0;
    while i < rung.trades.len()
        invariant
            rung.wf(),
            i <= rung.trades@.len(),
            trades@.len() == i,
            forall|j: int| 0 <= j < i ==> reportable(prepared@, #[trigger] rung.trades@[j].instrument_id),
            forall|j: int|
                0 <= j < i ==> trade_reported(prepared@, #[trigger] rung.trades@[j], trades@[j]),
        decreases rung.trades.len() - i,
    {
        let t = &rung.trades[i];
        proof {
            assert(rung.trades@[i as int].price_base.wf());
        }
        match serialize_trade(t, prepared) {
            Ok(resp) => {
                trades.push(resp);
            },
            Err(e) => {
                assert(!reportable(prepared@, rung.trades@[i as int].instrument_id));
                return Err(e);
            },
        }
        i = i + 1;
    }
    let mut untraded: Vec<RebalanceUntradedResponse> = Vec::new();
    let mut k: usize = 0;
    while k < rung.untraded.len()
        invariant
            i == rung.trades@.len(),
            forall|j: int|
                0 <= j < rung.trades@.len() ==> reportable(prepared@, #[trigger] rung.trades@[j].instrument_id),
            k <= rung.untraded@.len(),
            untraded@.len() == k,
            forall|j: int|
                0 <= j < k ==> reportable(prepared@, #[trigger] rung.untraded@[j].instrument_id),
            forall|j: int|
                0 <= j < k ==> untraded_reported(prepared@, #[trigger] rung.untraded@[j], untraded@[j]),
        decreases rung.untraded.len() - k,
    {
        match serialize_untraded(&rung.untraded[k], prepared) {
            Ok(resp) => {
                untraded.push(resp);
            },
            Err(e) => {
                assert(!reportable(prepared@, rung.untraded@[k as int].instrument_id));
                return Err(e);
            },
        }
        k = k + 1;
    }
    let coverage_percent = match rung.coverage_percent {
        Some(c) => Some(two_places_string(c)),
        None => None,
    };
    Ok(
        RebalanceRungResponse {
            selected_count: rung.selected_count,
            effective_trade_count: rung.effective_trade_count,
            trades,
            untraded,
            achieved_net_base: money_string(rung.achieved_net_base),
            residual_base: money_string(rung.residual_base),
            coverage_percent,
        },
    )
}

/// The ladder as reported, rung by rung; the first rung that cannot be
/// reported gives the error.
pub fn serialize_available_plan(prepared: &Vec<PreparedCandidate>, ladder: &RebalanceLadder) -> (r:
    Result<RebalancePlanResponse, ApiError>)
    requires
        ladder.wf(),
    ensures
        (forall|i: int|
            0 <= i < ladder.rungs@.len() ==> rung_reportable(prepared@, #[trigger] ladder.rungs@[i]))
            <==> r is Ok,
        r matches Ok(plan) ==> (plan matches RebalancePlanResponse::Available {
            pool_value_base,
            candidate_count,
            rungs,
        } && pool_value_base@ == money_text(ladder.pool_value_base) && candidate_count
            == ladder.candidate_count && rungs@.len() == ladder.rungs@.len() && forall|i: int|
            0 <= i < ladder.rungs@.len() ==> rung_reported(
                prepared@,
                #[trigger] ladder.rungs@[i],
                rungs@[i],
            )),
        r matches Err(e) ==> exists|i: int|
            0 <= i < ladder.rungs@.len() && !rung_reportable(prepared@, #[trigger] ladder.rungs@[i])
                && (forall|j: int| 0 <= j < i ==> rung_reportable(prepared@, ladder.rungs@[j]))
                && rung_failure(prepared@, ladder.rungs@[i], e),
{
    let mut rungs: Vec<RebalanceRungResponse> = Vec::new();
    let mut i: usize = 0;
    while i < ladder.rungs.len()
        invariant
            ladder.wf(),
            i <= ladder.rungs@.len(),
            rungs@.len() == i,
            forall|j: int| 0 <= j < i ==> rung_reportable(prepared@, #[trigger] ladder.rungs@[j]),
            forall|j: int|
                0 <= j < i ==> rung_reported(prepared@, #[trigger] ladder.rungs@[j], rungs@[j]),
        decreases ladder.rungs.len() - i,
    {
        proof {
            assert(ladder.rungs@[i as int].wf());
        }
        match serialize_rung(&ladder.rungs[i], prepared) {
            Ok(resp) => {
                rungs.push(resp);
            },
            Err(e) => {
                return Err(e);
            },
        }
        i = i + 1;
    }
    Ok(
        RebalancePlanResponse::Available {
            pool_value_base: money_string(ladder.pool_value_base),
            candidate_count: ladder.candidate_count,
            rungs,
        },
    )
}

/// The response to a rebalance request for `amount`: the reported ladder, or,
/// when no ladder could be built, the plan unavailable with that reason.
pub fn rebalance_response(
    amount: DecimalNum,
    ladder: &Result<RebalanceLadder, String>,
    prepared: &Vec<PreparedCandidate>,
) -> (r: Result<RebalanceResponse, ApiError>)
    requires
        amount.wf(),
        ladder matches Ok(l) ==> l.wf(),
    ensures
        match ladder {
            Err(reason) => r matches Ok(resp) && resp.amount_base@ == money_text(amount)
                && resp.base_currency == BASE_CURRENCY && (resp.plan matches RebalancePlanResponse::Unavailable {
                reasons,
            } && reasons@.len() == 1 && reasons@[0] == *reason),
            Ok(l) => {
                &&& (forall|i: int|
                    0 <= i < l.rungs@.len() ==> rung_reportable(prepared@, #[trigger] l.rungs@[i]))
                    <==> r is Ok
                &&& r matches Ok(resp) ==> resp.amount_base@ == money_text(amount)
                    && resp.base_currency == BASE_CURRENCY && (resp.plan matches RebalancePlanResponse::Available {
                    pool_value_base,
                    candidate_count,
                    rungs,
                } && pool_value_base@ == money_text(l.pool_value_base) && candidate_count
                    == l.candidate_count && rungs@.len() == l.rungs@.len() && forall|i: int|
                    0 <= i < l.rungs@.len() ==> rung_reported(
                        prepared@,
                        #[trigger] l.rungs@[i],
                        rungs@[i],
                    ))
                &&& r matches Err(e) ==> exists|i: int|
                    0 <= i < l.rungs@.len() && !rung_reportable(prepared@, #[trigger] l.rungs@[i])
                        && (forall|j: int| 0 <= j < i ==> rung_reportable(prepared@, l.rungs@[j]))
                        && rung_failure(prepared@, l.rungs@[i], e)
            },
        },
{
    let plan = match ladder {
        Err(reason) => {
            let mut reasons: Vec<String> = Vec::new();
            reasons.push(reason.clone());
            RebalancePlanResponse::Unavailable { reasons }
        },
        Ok(l) => match serialize_available_plan(prepared, l) {
            Ok(p) => p,
            Err(e) => {
                return Err(e);
            },
        },
    };
    Ok(RebalanceResponse { amount_base: money_string(amount), base_currency: BASE_CURRENCY, plan })
}

} // verus!
