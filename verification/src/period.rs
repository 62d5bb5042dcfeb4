//! The period a gains report covers, resolved from a preset or explicit dates.
use vstd::prelude::*;

use crate::calendar::{
    calendar_date, date_after, date_lt, day_number, days_before, is_calendar_date,
    lemma_day_number_determines_date, lemma_day_number_increases, valid_date, with_year, MIN_YEAR,
};
use crate::error::{ApiError, STATUS_BAD_REQUEST};
use crate::text::{append_str, str_eq};
use crate::transactions::TradeDate;

verus! {

/// A resolved report period. `start: None` means "since the first
/// transaction", which the caller derives from the ledger.
#[derive(Clone, Copy, Debug, PartialEq, Eq)]
pub struct ResolvedPeriod {
    pub start: Option<TradeDate>,
    pub end: TradeDate,
}

/// The date a year before `today`; a leap day falls back to 1 March.
pub open spec fn year_before(today: TradeDate) -> TradeDate {
    if is_calendar_date(today.year - 1, today.month as int, today.day as int) {
        TradeDate { year: (today.year - 1) as i32, month: today.month, day: today.day }
    } else {
        TradeDate { year: (today.year - 1) as i32, month: 3, day: 1 }
    }
}

/// The day `days` days before `today`.
pub open spec fn earlier_date(today: TradeDate, days: int) -> TradeDate {
    choose|t: TradeDate| valid_date(t) && day_number(t) == day_number(today) - days
}

/// The presets a period may name.
pub open spec fn is_preset(p: Seq<char>) -> bool {
    p == "today"@ || p == "7d"@ || p == "12m"@ || p == "ytd"@ || p == "all"@
}

/// The (start, end) a period names, before the order of the dates is
/// checked; `None` for an unknown preset.
pub open spec fn period_bounds(
    period: Option<Seq<char>>,
    start_date: Option<TradeDate>,
    end_date: Option<TradeDate>,
    today: TradeDate,
) -> Option<(Option<TradeDate>, TradeDate)> {
    match period {
        None => Some((start_date, end_date.unwrap_or(today))),
        Some(p) => if p == "custom"@ {
            Some((start_date, end_date.unwrap_or(today)))
        } else if p == "today"@ {
            Some((Some(today), today))
        } else if p == "7d"@ {
            Some((Some(earlier_date(today, 7)), today))
        } else if p == "12m"@ {
            Some((Some(year_before(today)), today))
        } else if p == "ytd"@ {
            Some((Some(TradeDate { year: today.year, month: 1, day: 1 }), today))
        } else if p == "all"@ {
            Some((None, today))
        } else {
            None
        },
    }
}

pub open spec fn opt_text(period: Option<&str>) -> Option<Seq<char>> {
    match period {
        Some(p) => Some(p@),
        None => None,
    }
}

/// Resolves the period a report covers from the client's preset or dates.
/// An unknown preset, or a start after the end, is a bad request; a preset
/// never starts after its end.
pub fn resolve_period(
    period: Option<&str>,
    start_date: Option<TradeDate>,
    end_date: Option<TradeDate>,
    today: TradeDate,
) -> (r: Result<ResolvedPeriod, ApiError>)
    requires
        valid_date(today),
        (period matches Some(p) && (p@ == "7d"@ || p@ == "12m"@)) ==> today.year > MIN_YEAR,
    ensures
        match period_bounds(opt_text(period), start_date, end_date, today) {
            None => (r matches Err(e) && e.status == STATUS_BAD_REQUEST && e.code@
                == "invalid_period"@ && e.message@ == "invalid period: "@ + opt_text(
                period,
            ).unwrap() && e.details is None),
            Some((start, end)) => match start {
                Some(s) => if date_lt(end, s) {
                    (r matches Err(e) && e.status == STATUS_BAD_REQUEST && e.code@
                        == "start_date_after_end_date"@ && e.message@
                        == "start_date must not be after end_date"@ && e.details is None)
                } else {
                    r == Ok::<ResolvedPeriod, ApiError>(ResolvedPeriod { start, end })
                },
                None => r == Ok::<ResolvedPeriod, ApiError>(ResolvedPeriod { start, end }),
            },
        },
        r matches Ok(p) ==> (p.start matches Some(s) ==> !date_lt(p.end, s)),
        (period matches Some(p) && is_preset(p@)) ==> r is Ok,
{
    proof {
        reveal_strlit("custom");
        reveal_strlit("today");
        reveal_strlit("7d");
        reveal_strlit("12m");
        reveal_strlit("ytd");
        reveal_strlit("all");
        assert("custom"@.len() == 6 && "today"@.len() == 5 && "7d"@.len() == 2);
        assert("12m"@.len() == 3 && "ytd"@.len() == 3 && "all"@.len() == 3);
        assert("custom"@ != "12m"@ && "custom"@ != "ytd"@ && "custom"@ != "all"@);
        assert(!is_preset("custom"@));
    }
    let resolved = match period {
        None => ResolvedPeriod {
            start: start_date,
            end: match end_date {
                Some(e) => e,
                None => today,
            },
        },
        Some(p) => {
            if str_eq(p, "custom") {
                ResolvedPeriod {
                    start: start_date,
                    end: match end_date {
                        Some(e) => e,
                        None => today,
                    },
                }
            } else if str_eq(p, "today") {
                ResolvedPeriod { start: Some(today), end: today }
            } else if str_eq(p, "7d") {
                let s = days_before(today, 7);
                proof {
                    let t = earlier_date(today, 7);
                    assert(valid_date(t) && day_number(t) == day_number(today) - 7);
                    lemma_day_number_determines_date(s, t);
                    if date_lt(today, s) {
                        lemma_day_number_increases(today, s);
                    }
                }
                ResolvedPeriod { start: Some(s), end: today }
            } else if str_eq(p, "12m") {
                let s = match with_year(today, today.year - 1) {
                    Some(d) => d,
                    None => match calendar_date(today.year - 1, 3, 1) {
                        Some(d) => d,
                        None => today,
                    },
                };
                ResolvedPeriod { start: Some(s), end: today }
            } else if str_eq(p, "ytd") {
                ResolvedPeriod { start: calendar_date(today.year, 1, 1), end: today }
            } else if str_eq(p, "all") {
                ResolvedPeriod { start: None, end: today }
            } else {
                let mut m = "invalid period: ".to_owned();
                append_str(&mut m, p);
                return Err(ApiError::bad_request("invalid_period", m));
            }
        },
    };
    if let Some(start) = resolved.start {
        if date_after(start, resolved.end) {
            return Err(
                ApiError::bad_request(
                    "start_date_after_end_date",
                    "start_date must not be after end_date".to_owned(),
                ),
            );
        }
    }
    Ok(resolved)
}

} // verus!
