//! Reason bookkeeping for the gains rows: merging the reasons of several
//! figures, dropping repeats while keeping first occurrences, and combining
//! two availabilities.
use vstd::prelude::*;

use crate::decimal::{money_string, money_text, two_places_string, two_places_text, DecimalNum};
use crate::calendar::{date_after, date_lt, format_ymd, valid_date, ymd_text};
use crate::error::{ApiError, STATUS_BAD_REQUEST};
use crate::text::{append_str, str_eq};
use crate::transactions::{parse_ymd, ymd_date, TradeDate};
use crate::instruments::InstrumentResponse;
use crate::valuation::{
    availability_reasons, reason_code, serialize_availability, serialize_reasons, Availability,
    AvailabilityResponse, FxSnapshotResponse, PriceSnapshotResponse, ValuationReason, BASE_CURRENCY,
};

verus! {

/// The first occurrence of each reason, in order of first appearance.
pub open spec fn dedup_spec(s: Seq<ValuationReason>) -> Seq<ValuationReason>
    decreases s.len(),
{
    if s.len() == 0 {
        Seq::empty()
    } else {
        let d = dedup_spec(s.drop_last());
        if d.contains(s.last()) {
            d
        } else {
            d.push(s.last())
        }
    }
}

pub open spec fn no_duplicates(s: Seq<ValuationReason>) -> bool {
    forall|i: int, j: int| 0 <= i < j < s.len() ==> s[i] != s[j]
}

/// The concatenation of several reason lists, in order.
pub open spec fn flatten(sources: Seq<Seq<ValuationReason>>) -> Seq<ValuationReason>
    decreases sources.len(),
{
    if sources.len() == 0 {
        Seq::empty()
    } else {
        flatten(sources.drop_last()) + sources.last()
    }
}

/// Removes repeated reasons in place, keeping the first occurrence of each.
pub fn dedup_valuation_reasons(reasons: &mut Vec<ValuationReason>)
    ensures
        final(reasons)@ == dedup_spec(old(reasons)@),
{
    let ghost orig = reasons@;
    let mut deduped: Vec<ValuationReason> = Vec::new();
    let mut i: usize = 0;
    while i < reasons.len()
        invariant
            reasons@ == orig,
            i <= orig.len(),
            deduped@ == dedup_spec(orig.subrange(0, i as int)),
        decreases orig.len() - i,
    {
        let r = reasons[i];
        let mut found = false;
        let mut k: usize = 0;
        while k < deduped.len()
            invariant
                k <= deduped@.len(),
                found == (exists|m: int| 0 <= m < k && deduped@[m] == r),
            decreases deduped@.len() - k,
        {
            if deduped[k] == r {
                found = true;
            }
            k = k + 1;
        }
        let ghost pre = orig.subrange(0, i as int);
        assert(orig.subrange(0, i + 1).drop_last() =~= pre);
        assert(found == deduped@.contains(r));
        if !found {
            deduped.push(r);
        }
        i = i + 1;
    }
    assert(orig.subrange(0, i as int) =~= orig);
    *reasons = deduped;
}

/// Concatenates the reason lists and drops repeats, keeping first occurrences.
pub fn merge_closed_reasons(sources: &[Vec<ValuationReason>]) -> (r: Vec<ValuationReason>)
    ensures
        r@ == dedup_spec(flatten(sources@.map_values(|v: Vec<ValuationReason>| v@))),
{
    let mut reasons: Vec<ValuationReason> = Vec::new();
    let mut i: usize = 0;
    while i < sources.len()
        invariant
            i <= sources@.len(),
            reasons@ == flatten(
                sources@.map_values(|v: Vec<ValuationReason>| v@).subrange(0, i as int),
            ),
        decreases sources@.len() - i,
    {
        let ghost views = sources@.map_values(|v: Vec<ValuationReason>| v@);
        assert(views.subrange(0, i + 1).drop_last() =~= views.subrange(0, i as int));
        let src = &sources[i];
        let ghost before = reasons@;
        let mut k: usize = 0;
        while k < src.len()
            invariant
                k <= src@.len(),
                reasons@ == before + src@.subrange(0, k as int),
            decreases src@.len() - k,
        {
            reasons.push(src[k]);
            k = k + 1;
            assert(reasons@ =~= before + src@.subrange(0, k as int));
        }
        assert(src@.subrange(0, k as int) =~= src@);
        i = i + 1;
    }
    assert(sources@.map_values(|v: Vec<ValuationReason>| v@).subrange(0, i as int)
        =~= sources@.map_values(|v: Vec<ValuationReason>| v@));
    dedup_valuation_reasons(&mut reasons);
    reasons
}

/// The same merge, used for the reasons shown on a response field.
pub fn merge_response_reasons(sources: &[Vec<ValuationReason>]) -> (r: Vec<ValuationReason>)
    ensures
        r@ == dedup_spec(flatten(sources@.map_values(|v: Vec<ValuationReason>| v@))),
{
    merge_closed_reasons(sources)
}

/// Applies `f` when both are available; otherwise unavailable with the reasons
/// of `a` followed by those of `b`.
pub fn combine_availability<T, U, V, F: Fn(&T, &U) -> V>(
    a: &Availability<T>,
    b: &Availability<U>,
    f: F,
) -> (r: Availability<V>)
    requires
        forall|x: &T, y: &U| call_requires(f, (x, y)),
    ensures
        match (a, b) {
            (Availability::Available(x), Availability::Available(y)) => r matches Availability::Available(
                z,
            ) && call_ensures(f, (x, y), z),
            _ => r matches Availability::Unavailable { reasons } && reasons@
                == availability_reasons(*a) + availability_reasons(*b),
        },
{
    match (a, b) {
        (Availability::Available(x), Availability::Available(y)) => Availability::Available(
            f(x, y),
        ),
        _ => {
            let mut reasons = a.reasons();
            let rb = b.reasons();
            let ghost ra = reasons@;
            let mut k: usize = 0;
            while k < rb.len()
                invariant
                    k <= rb@.len(),
                    reasons@ == ra + rb@.subrange(0, k as int),
                decreases rb@.len() - k,
            {
                reasons.push(rb[k]);
                k = k + 1;
                assert(reasons@ =~= ra + rb@.subrange(0, k as int));
            }
            assert(rb@.subrange(0, k as int) =~= rb@);
            Availability::Unavailable { reasons }
        },
    }
}

/// A base-currency amount, unavailable when an FX rate it needs is missing.
#[derive(Clone, Debug)]
pub enum BaseAmount {
    Available(DecimalNum),
    Unavailable { missing_fx_transaction_ids: Vec<i64> },
}

/// A base amount as an availability: missing FX is the single reason.
pub fn base_amount_availability(value: &BaseAmount) -> (r: Availability<DecimalNum>)
    ensures
        match value {
            BaseAmount::Available(d) => r matches Availability::Available(e) && e == *d,
            BaseAmount::Unavailable { .. } => r matches Availability::Unavailable { reasons }
                && reasons@ == seq![ValuationReason::MissingFx],
        },
{
    match value {
        BaseAmount::Available(d) => Availability::Available(*d),
        BaseAmount::Unavailable { .. } => {
            let mut reasons: Vec<ValuationReason> = Vec::new();
            reasons.push(ValuationReason::MissingFx);
            assert(reasons@ =~= seq![ValuationReason::MissingFx]);
            Availability::Unavailable { reasons }
        },
    }
}

/// A base amount as a response field: money text, or `missing_fx`.
pub fn serialize_base_amount(value: &BaseAmount) -> (r: AvailabilityResponse)
    requires
        value matches BaseAmount::Available(d) ==> d.wf(),
    ensures
        match value {
            BaseAmount::Available(d) => r matches AvailabilityResponse::Available { value: s }
                && s@ == money_text(*d),
            BaseAmount::Unavailable { .. } => r matches AvailabilityResponse::Unavailable {
                reasons: codes,
            } && codes@.len() == 1 && codes@[0]@ == reason_code(ValuationReason::MissingFx),
        },
{
    let availability = base_amount_availability(value);
    serialize_availability(&availability, money_of)
}

/// `money_string` on a borrowed amount.
pub fn money_of(v: &DecimalNum) -> (s: String)
    requires
        v.wf(),
    ensures
        s@ == money_text(*v),
{
    money_string(*v)
}

// ---------------------------------------------------------------------------
// Laws of the reason merge.

proof fn lemma_dedup_contains(s: Seq<ValuationReason>, x: ValuationReason)
    ensures
        dedup_spec(s).contains(x) <==> s.contains(x),
    decreases s.len(),
{
    if s.len() > 0 {
        lemma_dedup_contains(s.drop_last(), x);
        let d = dedup_spec(s.drop_last());
        if s.contains(x) && !s.drop_last().contains(x) {
            let k = choose|k: int| 0 <= k < s.len() && s[k] == x;
            if k < s.len() - 1 {
                assert(s.drop_last()[k] == x);
            }
            assert(s.last() == x);
            if !d.contains(x) {
                assert(d.push(x)[d.len() as int] == x);
            }
        }
        if s.drop_last().contains(x) {
            let k = choose|k: int| 0 <= k < s.drop_last().len() && s.drop_last()[k] == x;
            assert(s[k] == x);
        }
        if !d.contains(s.last()) {
            if d.push(s.last()).contains(x) {
                let k = choose|k: int| 0 <= k < d.push(s.last()).len() && d.push(s.last())[k] == x;
                if k < d.len() {
                    assert(d[k] == x);
                } else {
                    assert(s[s.len() - 1] == x);
                }
            }
            if d.contains(x) {
                let k = choose|k: int| 0 <= k < d.len() && d[k] == x;
                assert(d.push(s.last())[k] == x);
            }
        }
    }
}

proof fn lemma_dedup_no_duplicates(s: Seq<ValuationReason>)
    ensures
        no_duplicates(dedup_spec(s)),
    decreases s.len(),
{
    if s.len() > 0 {
        lemma_dedup_no_duplicates(s.drop_last());
        let d = dedup_spec(s.drop_last());
        if !d.contains(s.last()) {
            let e = d.push(s.last());
            assert forall|i: int, j: int| 0 <= i < j < e.len() implies e[i] != e[j] by {
                if j == d.len() {
                    if e[i] == e[j] {
                        assert(d[i] == s.last());
                    }
                } else {
                    assert(e[i] == d[i] && e[j] == d[j]);
                }
            }
        }
    }
}

proof fn lemma_dedup_of_distinct(s: Seq<ValuationReason>)
    requires
        no_duplicates(s),
    ensures
        dedup_spec(s) == s,
    decreases s.len(),
{
    if s.len() > 0 {
        let t = s.drop_last();
        assert(no_duplicates(t)) by {
            assert forall|i: int, j: int| 0 <= i < j < t.len() implies t[i] != t[j] by {
                assert(t[i] == s[i] && t[j] == s[j]);
            }
        }
        lemma_dedup_of_distinct(t);
        if t.contains(s.last()) {
            let k = choose|k: int| 0 <= k < t.len() && t[k] == s.last();
            assert(s[k] == s[s.len() - 1]);
        }
        assert(t.push(s.last()) =~= s);
    }
}

/// Merging keeps exactly the reasons that occur in some source, each once:
/// nothing is lost, nothing is repeated, and merging again changes nothing.
pub proof fn lemma_merged_reasons_are_exact(sources: Seq<Seq<ValuationReason>>)
    ensures
        no_duplicates(dedup_spec(flatten(sources))),
        forall|x: ValuationReason|
            dedup_spec(flatten(sources)).contains(x) <==> flatten(sources).contains(x),
        dedup_spec(dedup_spec(flatten(sources))) == dedup_spec(flatten(sources)),
{
    let s = flatten(sources);
    lemma_dedup_no_duplicates(s);
    assert forall|x: ValuationReason| dedup_spec(s).contains(x) <==> s.contains(x) by {
        lemma_dedup_contains(s, x);
    }
    lemma_dedup_of_distinct(dedup_spec(s));
}

/// Removing repeats keeps the first occurrences, in the order they appear:
/// the result, followed by a new reason, is the dedup of the list so extended.
pub proof fn lemma_dedup_appends_new_reason(s: Seq<ValuationReason>, x: ValuationReason)
    requires
        !s.contains(x),
    ensures
        dedup_spec(s.push(x)) == dedup_spec(s).push(x),
{
    lemma_dedup_contains(s, x);
    assert(s.push(x).drop_last() =~= s);
}


/// How a gains report turns gains into percentages.
#[derive(Clone, Copy, Debug, PartialEq, Eq, Structural)]
pub enum ReturnMethod {
    Xirr,
    Simple,
    ModifiedDietz,
}

/// The method a `method` query names; absent means `xirr`.
pub fn parse_method(value: Option<&str>) -> (r: Result<ReturnMethod, ApiError>)
    ensures
        match value {
            None => r == Ok::<ReturnMethod, ApiError>(ReturnMethod::Xirr),
            Some(v) => if v@ == "xirr"@ {
                r == Ok::<ReturnMethod, ApiError>(ReturnMethod::Xirr)
            } else if v@ == "simple"@ {
                r == Ok::<ReturnMethod, ApiError>(ReturnMethod::Simple)
            } else if v@ == "modified_dietz"@ {
                r == Ok::<ReturnMethod, ApiError>(ReturnMethod::ModifiedDietz)
            } else {
                (r matches Err(e) && e.status == STATUS_BAD_REQUEST && e.code@ == "invalid_method"@
                    && e.message@ == "invalid method: "@ + v@ && e.details is None)
            },
        },
{
    let v = match value {
        Some(v) => v,
        None => "xirr",
    };
    proof {
        reveal_strlit("xirr");
    }
    if str_eq(v, "xirr") {
        Ok(ReturnMethod::Xirr)
    } else if str_eq(v, "simple") {
        Ok(ReturnMethod::Simple)
    } else if str_eq(v, "modified_dietz") {
        Ok(ReturnMethod::ModifiedDietz)
    } else {
        let mut m = "invalid method: ".to_owned();
        append_str(&mut m, v);
        Err(ApiError::bad_request("invalid_method", m))
    }
}

/// The query of `GET /api/gains`.
#[derive(Clone, Debug)]
pub struct GainsQuery {
    pub include_closed: bool,
    pub start_date: Option<String>,
    pub end_date: Option<String>,
    pub method: Option<String>,
}

/// The period of a gains report as it is reported.
#[derive(Clone, Debug)]
pub struct ReportPeriodResponse {
    pub start_date: Option<String>,
    pub end_date: String,
}

/// Whether a gains row is an open or a closed position.
#[derive(Clone, Copy, Debug, PartialEq, Eq, Structural)]
pub enum GainPositionStatus {
    Open,
    Closed,
}

/// A query date in `YYYY-MM-DD`; anything else is a bad request naming the field.
pub fn parse_date(s: &str, field: &str) -> (r: Result<TradeDate, ApiError>)
    ensures
        match ymd_date(s@) {
            Some((y, m, d)) => r matches Ok(t) && t.year == y && t.month == m && t.day == d
                && valid_date(t),
            None => (r matches Err(e) && e.status == STATUS_BAD_REQUEST && e.code@
                == "invalid_date"@ && e.message@ == "invalid "@ + field@ + ": "@ + s@
                && e.details is None),
        },
{
    match parse_ymd(s) {
        Ok(t) => Ok(t),
        Err(_) => {
            let mut m = "invalid ".to_owned();
            append_str(&mut m, field);
            append_str(&mut m, ": ");
            append_str(&mut m, s);
            Err(ApiError::bad_request("invalid_date", m))
        },
    }
}

/// The date a parsed query date names.
pub open spec fn named_date(p: (int, int, int)) -> TradeDate {
    TradeDate { year: p.0 as i32, month: p.1 as u32, day: p.2 as u32 }
}

/// The dates a gains query asks for: the end date, or `today` without one,
/// and the start date if given, which must not fall after the end.
pub fn gains_dates(query: &GainsQuery, today: TradeDate) -> (r: Result<
    (Option<TradeDate>, TradeDate),
    ApiError,
>)
    ensures
        match query.end_date {
            Some(e) => ymd_date(e@) is None ==> (r matches Err(err) && err.code@ == "invalid_date"@
                && err.message@ == "invalid end_date: "@ + e@),
            None => true,
        },
        r matches Ok((start, end)) ==> {
            &&& (start matches Some(sd) ==> valid_date(sd))
            &&& (query.end_date is Some || valid_date(today) ==> valid_date(end))
            &&& end == match query.end_date {
                Some(e) => named_date(ymd_date(e@).unwrap()),
                None => today,
            }
            &&& match query.start_date {
                Some(sd) => ymd_date(sd@) is Some && start == Some(named_date(ymd_date(sd@).unwrap()))
                    && !date_lt(end, start.unwrap()),
                None => start is None,
            }
        },
        (match query.end_date {
            Some(e) => ymd_date(e@) is Some,
            None => true,
        }) ==> {
            let end = match query.end_date {
                Some(e) => named_date(ymd_date(e@).unwrap()),
                None => today,
            };
            match query.start_date {
                Some(sd) => match ymd_date(sd@) {
                    None => (r matches Err(err) && err.code@ == "invalid_date"@ && err.message@
                        == "invalid start_date: "@ + sd@),
                    Some(p) => if date_lt(end, named_date(p)) {
                        (r matches Err(err) && err.status == STATUS_BAD_REQUEST && err.code@
                            == "start_date_after_end_date"@ && err.message@
                            == "start_date must not be after end_date"@)
                    } else {
                        r is Ok
                    },
                },
                None => r is Ok,
            }
        },
{
    proof {
        reveal_strlit("invalid ");
        reveal_strlit("end_date");
        reveal_strlit("start_date");
        reveal_strlit(": ");
        reveal_strlit("invalid end_date: ");
        reveal_strlit("invalid start_date: ");
        assert("invalid "@ + "end_date"@ + ": "@ =~= "invalid end_date: "@);
        assert("invalid "@ + "start_date"@ + ": "@ =~= "invalid start_date: "@);
    }
    let end = match &query.end_date {
        Some(s) => match parse_date(s.as_str(), "end_date") {
            Ok(d) => d,
            Err(e) => {
                return Err(e);
            },
        },
        None => today,
    };
    let start = match &query.start_date {
        Some(s) => {
            let d = match parse_date(s.as_str(), "start_date") {
                Ok(d) => d,
                Err(e) => {
                    return Err(e);
                },
            };
            if date_after(d, end) {
                return Err(
                    ApiError::bad_request(
                        "start_date_after_end_date",
                        "start_date must not be after end_date".to_owned(),
                    ),
                );
            }
            Some(d)
        },
        None => None,
    };
    Ok((start, end))
}

/// Whether `d` is the earliest of the dates in `dates` on or before `end`.
pub open spec fn earliest_through(dates: Seq<TradeDate>, end: TradeDate, d: TradeDate) -> bool {
    &&& dates.contains(d)
    &&& !date_lt(end, d)
    &&& forall|i: int| 0 <= i < dates.len() && !date_lt(end, dates[i]) ==> !date_lt(#[trigger] dates[i], d)
}

/// The first day of a gains report and whether the report has one: the
/// requested start, else the earliest trade on or before the end (else the
/// end itself, with no start to report).
pub fn report_start(start_date: Option<TradeDate>, trade_dates: &Vec<TradeDate>, end: TradeDate) -> (r: (
    TradeDate,
    bool,
))
    ensures
        match start_date {
            Some(s) => r == (s, true),
            None => if exists|i: int| 0 <= i < trade_dates@.len() && !date_lt(end, #[trigger] trade_dates@[i]) {
                r.1 && earliest_through(trade_dates@, end, r.0)
            } else {
                r == (end, false)
            },
        },
{
    if let Some(s) = start_date {
        return (s, true);
    }
    let mut best: Option<TradeDate> = None;
    let mut i: usize = 0;
    while i < trade_dates.len()
        invariant
            i <= trade_dates@.len(),
            match best {
                Some(b) => earliest_through(trade_dates@.subrange(0, i as int), end, b),
                None => forall|j: int| 0 <= j < i ==> date_lt(end, #[trigger] trade_dates@[j]),
            },
        decreases trade_dates.len() - i,
    {
        let d = trade_dates[i];
        let ghost pre = trade_dates@.subrange(0, i as int);
        let ghost next = trade_dates@.subrange(0, i + 1);
        assert(next =~= pre.push(d));
        if !date_after(d, end) {
            match best {
                Some(b) => {
                    if date_after(b, d) {
                        best = Some(d);
                        assert(next[i as int] == d);
                        assert forall|j: int| 0 <= j < next.len() && !date_lt(end, next[j]) implies !date_lt(#[trigger] next[j], d) by {
                            if j < i {
                                assert(next[j] == pre[j]);
                            }
                        }
                    } else {
                        assert(pre.contains(b));
                        assert(next.contains(b)) by {
                            let k = choose|k: int| 0 <= k < pre.len() && pre[k] == b;
                            assert(next[k] == b);
                        }
                        assert forall|j: int| 0 <= j < next.len() && !date_lt(end, next[j]) implies !date_lt(#[trigger] next[j], b) by {
                            if j < i {
                                assert(next[j] == pre[j]);
                            }
                        }
                    }
                },
                None => {
                    best = Some(d);
                    assert(next[i as int] == d);
                    assert forall|j: int| 0 <= j < next.len() && !date_lt(end, next[j]) implies !date_lt(#[trigger] next[j], d) by {
                        if j < i {
                            assert(date_lt(end, trade_dates@[j]));
                        }
                    }
                },
            }
        } else {
            match best {
                Some(b) => {
                    assert(next.contains(b)) by {
                        let k = choose|k: int| 0 <= k < pre.len() && pre[k] == b;
                        assert(next[k] == b);
                    }
                    assert forall|j: int| 0 <= j < next.len() && !date_lt(end, next[j]) implies !date_lt(#[trigger] next[j], b) by {
                        if j < i {
                            assert(next[j] == pre[j]);
                        }
                    }
                },
                None => {},
            }
        }
        i = i + 1;
    }
    assert(trade_dates@.subrange(0, i as int) =~= trade_dates@);
    match best {
        Some(b) => (b, true),
        None => (end, false),
    }
}

/// The period of a report as it is reported: the start only when the report has one.
pub fn report_period_response(has_start: bool, start: TradeDate, end: TradeDate) -> (r:
    ReportPeriodResponse)
    requires
        valid_date(start),
        valid_date(end),
    ensures
        has_start ==> (r.start_date matches Some(s) && s@ == ymd_text(
            start.year as int,
            start.month as int,
            start.day as int,
        )),
        !has_start ==> r.start_date is None,
        r.end_date@ == ymd_text(end.year as int, end.month as int, end.day as int),
{
    let start_date = if has_start {
        Some(format_ymd(start))
    } else {
        None
    };
    ReportPeriodResponse { start_date, end_date: format_ymd(end) }
}

/// The name a report gives its percentage method.
pub fn percentage_method(method: ReturnMethod) -> (s: &'static str)
    ensures
        s@ == match method {
            ReturnMethod::Xirr => "money_weighted"@,
            ReturnMethod::Simple => "simple"@,
            ReturnMethod::ModifiedDietz => "modified_dietz"@,
        },
{
    match method {
        ReturnMethod::Xirr => "money_weighted",
        ReturnMethod::Simple => "simple",
        ReturnMethod::ModifiedDietz => "modified_dietz",
    }
}

/// A portfolio total: the amount when any row contributed, else unavailable
/// with the collected reasons (none when no row was excluded either).
pub fn perf_amount_response(has_data: bool, unavailable_reasons: &[ValuationReason], value: DecimalNum) -> (r:
    AvailabilityResponse)
    requires
        value.wf(),
    ensures
        has_data ==> (r matches AvailabilityResponse::Available { value: s } && s@ == money_text(value)),
        !has_data ==> (r matches AvailabilityResponse::Unavailable { reasons: codes } && codes@.len()
            == unavailable_reasons@.len() && forall|i: int|
            0 <= i < unavailable_reasons@.len() ==> #[trigger] codes@[i]@ == reason_code(
                unavailable_reasons@[i],
            )),
{
    if has_data {
        return AvailabilityResponse::Available { value: money_string(value) };
    }
    if unavailable_reasons.len() > 0 {
        return AvailabilityResponse::Unavailable { reasons: serialize_reasons(unavailable_reasons) };
    }
    AvailabilityResponse::Unavailable { reasons: Vec::new() }
}

/// `two_places_string` on a borrowed percentage.
pub fn percent_of(v: &DecimalNum) -> (s: String)
    requires
        v.wf(),
    ensures
        s@ == two_places_text(*v),
{
    two_places_string(*v)
}

/// Every available amount lies in the decimal range.
pub open spec fn amount_wf(a: Availability<DecimalNum>) -> bool {
    a matches Availability::Available(v) ==> v.wf()
}

/// `r` reports `a`: the available amount rendered by `text`, or the reason codes.
pub open spec fn reports(
    a: Availability<DecimalNum>,
    r: AvailabilityResponse,
    text: spec_fn(DecimalNum) -> Seq<char>,
) -> bool {
    match a {
        Availability::Available(v) => r matches AvailabilityResponse::Available { value: s } && s@
            == text(v),
        Availability::Unavailable { reasons } => r matches AvailabilityResponse::Unavailable {
            reasons: codes,
        } && codes@.len() == reasons@.len() && forall|i: int|
            0 <= i < reasons@.len() ==> #[trigger] codes@[i]@ == reason_code(reasons@[i]),
    }
}

/// An amount reported as money.
pub fn money_availability(a: &Availability<DecimalNum>) -> (r: AvailabilityResponse)
    requires
        amount_wf(*a),
    ensures
        reports(*a, r, |v: DecimalNum| money_text(v)),
{
    serialize_availability(a, money_of)
}

/// A percentage reported with two decimals.
pub fn percent_availability(a: &Availability<DecimalNum>) -> (r: AvailabilityResponse)
    requires
        amount_wf(*a),
    ensures
        reports(*a, r, |v: DecimalNum| two_places_text(v)),
{
    serialize_availability(a, percent_of)
}

/// The open holdings of a report summed up: each figure available only when
/// every contributing holding had it.
#[derive(Clone, Debug)]
pub struct HoldingsSummary {
    pub market_value_base: Availability<DecimalNum>,
    pub cost_basis_base: Availability<DecimalNum>,
    pub price_effect_base: Availability<DecimalNum>,
    pub fx_effect_base: Availability<DecimalNum>,
    pub unrealized_gain_base: Availability<DecimalNum>,
    pub unrealized_gain_percent: Availability<DecimalNum>,
    pub day_change_base: Availability<DecimalNum>,
    pub day_change_percent: Availability<DecimalNum>,
    pub excluded_rows: usize,
}

impl HoldingsSummary {
    pub open spec fn wf(&self) -> bool {
        &&& amount_wf(self.market_value_base)
        &&& amount_wf(self.cost_basis_base)
        &&& amount_wf(self.price_effect_base)
        &&& amount_wf(self.fx_effect_base)
        &&& amount_wf(self.unrealized_gain_base)
        &&& amount_wf(self.unrealized_gain_percent)
        &&& amount_wf(self.day_change_base)
        &&& amount_wf(self.day_change_percent)
    }
}

/// The summary block of a gains report.
#[derive(Clone, Debug)]
pub struct SummaryResponse {
    pub market_value_base: AvailabilityResponse,
    pub cost_basis_base: AvailabilityResponse,
    pub price_effect_base: AvailabilityResponse,
    pub fx_effect_base: AvailabilityResponse,
    pub unrealized_gain_base: AvailabilityResponse,
    pub unrealized_gain_percent: AvailabilityResponse,
    pub day_change_base: AvailabilityResponse,
    pub day_change_percent: AvailabilityResponse,
    pub excluded_rows: usize,
}

/// The summary as reported: amounts as money, percentages with two decimals.
pub fn summary_response(summary: &HoldingsSummary) -> (r: SummaryResponse)
    requires
        summary.wf(),
    ensures
        reports(summary.market_value_base, r.market_value_base, |v: DecimalNum| money_text(v)),
        reports(summary.cost_basis_base, r.cost_basis_base, |v: DecimalNum| money_text(v)),
        reports(summary.price_effect_base, r.price_effect_base, |v: DecimalNum| money_text(v)),
        reports(summary.fx_effect_base, r.fx_effect_base, |v: DecimalNum| money_text(v)),
        reports(summary.unrealized_gain_base, r.unrealized_gain_base, |v: DecimalNum| money_text(v)),
        reports(
            summary.unrealized_gain_percent,
            r.unrealized_gain_percent,
            |v: DecimalNum| two_places_text(v),
        ),
        reports(summary.day_change_base, r.day_change_base, |v: DecimalNum| money_text(v)),
        reports(summary.day_change_percent, r.day_change_percent, |v: DecimalNum| two_places_text(v)),
        r.excluded_rows == summary.excluded_rows,
{
    SummaryResponse {
        market_value_base: money_availability(&summary.market_value_base),
        cost_basis_base: money_availability(&summary.cost_basis_base),
        price_effect_base: money_availability(&summary.price_effect_base),
        fx_effect_base: money_availability(&summary.fx_effect_base),
        unrealized_gain_base: money_availability(&summary.unrealized_gain_base),
        unrealized_gain_percent: percent_availability(&summary.unrealized_gain_percent),
        day_change_base: money_availability(&summary.day_change_base),
        day_change_percent: percent_availability(&summary.day_change_percent),
        excluded_rows: summary.excluded_rows,
    }
}

/// The totals block of a gains report.
#[derive(Clone, Debug)]
pub struct TotalsResponse {
    pub capital_gain_base: AvailabilityResponse,
    pub capital_gain_percent: AvailabilityResponse,
    pub income_base: AvailabilityResponse,
    pub income_percent: AvailabilityResponse,
    pub currency_gain_base: AvailabilityResponse,
    pub currency_gain_percent: AvailabilityResponse,
    pub total_return_base: AvailabilityResponse,
    pub total_return_percent: AvailabilityResponse,
    pub excluded_rows: usize,
}

/// One row of a gains report.
#[derive(Clone, Debug)]
pub struct GainRow {
    pub instrument: InstrumentResponse,
    pub quantity: i64,
    pub cost_basis_native: String,
    pub cost_basis_base: AvailabilityResponse,
    pub performance_start_date: Option<String>,
    pub performance_denominator_base: AvailabilityResponse,
    pub capital_gain_base: AvailabilityResponse,
    pub capital_gain_percent: AvailabilityResponse,
    pub currency_gain_base: AvailabilityResponse,
    pub currency_gain_percent: AvailabilityResponse,
    pub income_base: AvailabilityResponse,
    pub total_return_base: AvailabilityResponse,
    pub total_return_percent: AvailabilityResponse,
    pub price_effect_base: AvailabilityResponse,
    pub fx_effect_base: AvailabilityResponse,
    pub latest_price: Option<PriceSnapshotResponse>,
    pub previous_price: Option<PriceSnapshotResponse>,
    pub latest_fx: Option<FxSnapshotResponse>,
    pub previous_fx: Option<FxSnapshotResponse>,
    pub market_value_native: AvailabilityResponse,
    pub market_value_base: AvailabilityResponse,
    pub proceeds_native: AvailabilityResponse,
    pub proceeds_base: AvailabilityResponse,
    pub held_fee_component_base: AvailabilityResponse,
    pub realized_fee_base: AvailabilityResponse,
    pub realized_sell_brokerage_base: AvailabilityResponse,
    pub brokerage_total_base: AvailabilityResponse,
    pub unrealized_price_effect_base: AvailabilityResponse,
    pub unrealized_fx_effect_base: AvailabilityResponse,
    pub unrealized_gain_base: AvailabilityResponse,
    pub unrealized_gain_percent: AvailabilityResponse,
    pub realized_gain_base: AvailabilityResponse,
    pub realized_cost_basis_base: AvailabilityResponse,
    pub day_change_base: AvailabilityResponse,
    pub day_change_percent: AvailabilityResponse,
    pub reasons: Vec<String>,
    pub position_status: GainPositionStatus,
}

/// A whole gains report.
#[derive(Clone, Debug)]
pub struct GainsResponse {
    pub as_of_date: String,
    pub base_currency: String,
    pub include_closed_positions: bool,
    pub report_period: ReportPeriodResponse,
    pub percentage_method: String,
    pub display_percent_kind: String,
    pub summary: SummaryResponse,
    pub totals: TotalsResponse,
    pub rows: Vec<GainRow>,
}

/// The name a report gives its percentage method, as text.
pub open spec fn method_name(method: ReturnMethod) -> Seq<char> {
    match method {
        ReturnMethod::Xirr => "money_weighted"@,
        ReturnMethod::Simple => "simple"@,
        ReturnMethod::ModifiedDietz => "modified_dietz"@,
    }
}

/// `r` is what `perf_amount_response` gives for these inputs.
pub open spec fn reports_total(
    has_data: bool,
    reasons: Seq<ValuationReason>,
    value: DecimalNum,
    r: AvailabilityResponse,
) -> bool {
    if has_data {
        r matches AvailabilityResponse::Available { value: s } && s@ == money_text(value)
    } else {
        r matches AvailabilityResponse::Unavailable { reasons: codes } && codes@.len()
            == reasons.len() && forall|i: int|
            0 <= i < reasons.len() ==> #[trigger] codes@[i]@ == reason_code(reasons[i])
    }
}

/// The totals block: the four accumulated amounts reported as totals, beside
/// the percentages worked out for them.
pub fn totals_response(
    has_data: bool,
    unavailable_reasons: &[ValuationReason],
    capital_gain: DecimalNum,
    income_gain: DecimalNum,
    currency_gain: DecimalNum,
    total_return: DecimalNum,
    capital_gain_percent: AvailabilityResponse,
    income_percent: AvailabilityResponse,
    currency_gain_percent: AvailabilityResponse,
    total_return_percent: AvailabilityResponse,
    excluded_rows: usize,
) -> (r: TotalsResponse)
    requires
        capital_gain.wf(),
        income_gain.wf(),
        currency_gain.wf(),
        total_return.wf(),
    ensures
        reports_total(has_data, unavailable_reasons@, capital_gain, r.capital_gain_base),
        reports_total(has_data, unavailable_reasons@, income_gain, r.income_base),
        reports_total(has_data, unavailable_reasons@, currency_gain, r.currency_gain_base),
        reports_total(has_data, unavailable_reasons@, total_return, r.total_return_base),
        r.capital_gain_percent == capital_gain_percent,
        r.income_percent == income_percent,
        r.currency_gain_percent == currency_gain_percent,
        r.total_return_percent == total_return_percent,
        r.excluded_rows == excluded_rows,
{
    TotalsResponse {
        capital_gain_base: perf_amount_response(has_data, unavailable_reasons, capital_gain),
        capital_gain_percent,
        income_base: perf_amount_response(has_data, unavailable_reasons, income_gain),
        income_percent,
        currency_gain_base: perf_amount_response(has_data, unavailable_reasons, currency_gain),
        currency_gain_percent,
        total_return_base: perf_amount_response(has_data, unavailable_reasons, total_return),
        total_return_percent,
        excluded_rows,
    }
}

/// A gains report as of `end`: the base currency, the period (with its start
/// only when the report has one), and the method's name.
pub fn gains_response(
    end: TradeDate,
    include_closed: bool,
    has_start: bool,
    start: TradeDate,
    method: ReturnMethod,
    display_percent_kind: String,
    summary: SummaryResponse,
    totals: TotalsResponse,
    rows: Vec<GainRow>,
) -> (r: GainsResponse)
    requires
        valid_date(start),
        valid_date(end),
    ensures
        r.as_of_date@ == ymd_text(end.year as int, end.month as int, end.day as int),
        r.base_currency@ == BASE_CURRENCY@,
        r.include_closed_positions == include_closed,
        has_start ==> (r.report_period.start_date matches Some(s) && s@ == ymd_text(
            start.year as int,
            start.month as int,
            start.day as int,
        )),
        !has_start ==> r.report_period.start_date is None,
        r.report_period.end_date@ == ymd_text(end.year as int, end.month as int, end.day as int),
        r.percentage_method@ == method_name(method),
        r.display_percent_kind == display_percent_kind,
        r.summary == summary,
        r.totals == totals,
        r.rows == rows,
{
    GainsResponse {
        as_of_date: format_ymd(end),
        base_currency: BASE_CURRENCY.to_owned(),
        include_closed_positions: include_closed,
        report_period: report_period_response(has_start, start, end),
        percentage_method: percentage_method(method).to_owned(),
        display_percent_kind,
        summary,
        totals,
        rows,
    }
}

} // verus!
