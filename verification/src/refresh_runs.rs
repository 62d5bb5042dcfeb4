//! The lease that keeps one market-data refresh running at a time: which
//! running record still holds the lease, what a new claim takes over, and
//! what an owner-conditional update says about the lease.
use vstd::prelude::*;

use crate::text::clone_opt;

verus! {

/// A holder that has not renewed its lease for this long (in nanoseconds) is
/// recoverable by another process: two minutes.
pub const REFRESH_CLAIM_STALE_AFTER_NANOS: u128 = 120_000_000_000;

/// What a refresh run wrote.
#[derive(Clone, Copy, Debug, Default, PartialEq, Eq)]
pub struct RefreshRunCounts {
    pub prices_written: i64,
    pub fx_rates_written: i64,
    pub unmapped_instruments: i64,
    pub failed_items: i64,
}

/// A stored refresh run.
#[derive(Clone, Debug)]
pub struct RefreshRunRow {
    pub id: i64,
    pub trigger: String,
    pub started_at: String,
    pub finished_at: Option<String>,
    pub status: String,
    pub message: Option<String>,
    pub prices_written: i64,
    pub fx_rates_written: i64,
    pub unmapped_instruments: i64,
    pub failed_items: i64,
    pub claim_owner: Option<String>,
    pub heartbeat_at: Option<String>,
}

/// The outcome of a claim: the new run and the abandoned runs it took over,
/// or the live run that still holds the lease.
#[derive(Clone, Debug)]
pub enum ClaimResult {
    Claimed { run: RefreshRunRow, reclaimed: Vec<ReclaimedRun> },
    Held(RefreshRunRow),
}

/// A running record whose lease went stale and was taken over.
#[derive(Clone, Debug, PartialEq, Eq)]
pub struct ReclaimedRun {
    pub id: i64,
    pub owner: String,
}

/// Whether the caller still holds its lease after an owner-conditional update.
#[derive(Clone, Copy, Debug, PartialEq, Eq, Structural)]
pub enum LeaseState {
    Held,
    Lost,
}

/// A fenced write that did not run because the lease was gone.
#[derive(Clone, Copy, Debug, PartialEq, Eq, Structural)]
pub enum FencedWrite {
    LeaseLost,
}

/// What a claim does with the running records it found.
#[derive(Clone, Debug)]
pub enum ClaimDecision {
    /// A live record holds the lease: report it and write nothing.
    Hold(RefreshRunRow),
    /// No live record: mark these abandoned (when any) and insert a new claim.
    Claim(Vec<ReclaimedRun>),
}

/// Name for the time from an RFC 3339 heartbeat to the instant `now`
/// (seconds since the epoch and nanoseconds), as chrono's whole seconds and
/// fractional nanoseconds; `None` when either does not parse.
pub uninterp spec fn heartbeat_age(heartbeat: Seq<char>, now_secs: int, now_nanos: int) -> Option<
    (i64, i32),
>;

/// `chrono::DateTime::parse_from_rfc3339` on the heartbeat and
/// `signed_duration_since` from it to `now`, as `(num_seconds, subsec_nanos)`.
/// The result is named by [`heartbeat_age`]; chrono's parsing and leap-second
/// arithmetic are not restated.
#[verifier::external_body]
fn heartbeat_age_of(heartbeat: &str, now_secs: i64, now_nanos: u32) -> (r: Option<(i64, i32)>)
    ensures
        r == heartbeat_age(heartbeat@, now_secs as int, now_nanos as int),
{
    let parsed = chrono::DateTime::parse_from_rfc3339(heartbeat);
    let now = chrono::DateTime::<chrono::Utc>::from_timestamp(now_secs, now_nanos);
    match (parsed, now) {
        (Ok(hb), Some(now)) => {
            let age = now.signed_duration_since(hb.with_timezone(&chrono::Utc));
            Some((age.num_seconds(), age.subsec_nanos()))
        },
        _ => None,
    }
}

/// Whether a lease with this heartbeat has gone stale at `now`: no heartbeat,
/// one that does not parse, or one older than `stale_after_nanos`. A
/// heartbeat in the future is fresh.
pub open spec fn lease_is_stale(
    heartbeat: Option<Seq<char>>,
    now_secs: int,
    now_nanos: int,
    stale_after_nanos: int,
) -> bool {
    match heartbeat {
        None => true,
        Some(h) => match heartbeat_age(h, now_secs, now_nanos) {
            None => true,
            Some((s, n)) => s * 1_000_000_000 + n > stale_after_nanos,
        },
    }
}

pub open spec fn opt_text(o: Option<String>) -> Option<Seq<char>> {
    match o {
        Some(s) => Some(s@),
        None => None,
    }
}

pub fn is_stale(heartbeat: Option<&str>, now_secs: i64, now_nanos: u32, stale_after_nanos: u128) -> (b:
    bool)
    ensures
        b == lease_is_stale(
            match heartbeat {
                Some(h) => Some(h@),
                None => None,
            },
            now_secs as int,
            now_nanos as int,
            stale_after_nanos as int,
        ),
{
    match heartbeat {
        None => true,
        Some(h) => match heartbeat_age_of(h, now_secs, now_nanos) {
            None => true,
            Some((s, n)) => {
                let age: i128 = (s as i128) * 1_000_000_000 + (n as i128);
                if age < 0 {
                    false
                } else {
                    (age as u128) > stale_after_nanos
                }
            },
        },
    }
}

pub open spec fn run_is_stale(run: RefreshRunRow, now_secs: int, now_nanos: int, stale_after_nanos: int) -> bool {
    lease_is_stale(opt_text(run.heartbeat_at), now_secs, now_nanos, stale_after_nanos)
}

/// A copy of a run record.
pub fn copy_run(run: &RefreshRunRow) -> (r: RefreshRunRow)
    ensures
        r == *run,
{
    RefreshRunRow {
        id: run.id,
        trigger: run.trigger.clone(),
        started_at: run.started_at.clone(),
        finished_at: clone_opt(&run.finished_at),
        status: run.status.clone(),
        message: clone_opt(&run.message),
        prices_written: run.prices_written,
        fx_rates_written: run.fx_rates_written,
        unmapped_instruments: run.unmapped_instruments,
        failed_items: run.failed_items,
        claim_owner: clone_opt(&run.claim_owner),
        heartbeat_at: clone_opt(&run.heartbeat_at),
    }
}

/// The first running record, in the order given, whose lease is still live.
pub fn live_claim(running: &Vec<RefreshRunRow>, now_secs: i64, now_nanos: u32, stale_after_nanos: u128) -> (r:
    Option<RefreshRunRow>)
    ensures
        match r {
            Some(run) => exists|i: int|
                0 <= i < running@.len() && running@[i] == run && !run_is_stale(
                    running@[i],
                    now_secs as int,
                    now_nanos as int,
                    stale_after_nanos as int,
                ) && forall|j: int|
                    0 <= j < i ==> run_is_stale(
                        #[trigger] running@[j],
                        now_secs as int,
                        now_nanos as int,
                        stale_after_nanos as int,
                    ),
            None => forall|j: int|
                0 <= j < running@.len() ==> run_is_stale(
                    #[trigger] running@[j],
                    now_secs as int,
                    now_nanos as int,
                    stale_after_nanos as int,
                ),
        },
{
    let mut i: usize = 0;
    while i < running.len()
        invariant
            i <= running.len(),
            forall|j: int|
                0 <= j < i ==> run_is_stale(
                    #[trigger] running@[j],
                    now_secs as int,
                    now_nanos as int,
                    stale_after_nanos as int,
                ),
        decreases running.len() - i,
    {
        let run = &running[i];
        let heartbeat: Option<&str> = match &run.heartbeat_at {
            Some(h) => Some(h.as_str()),
            None => None,
        };
        if !is_stale(heartbeat, now_secs, now_nanos, stale_after_nanos) {
            return Some(copy_run(run));
        }
        i = i + 1;
    }
    None
}

/// The owner a reclaimed record is reported under.
pub open spec fn reclaimed_owner(run: RefreshRunRow) -> Seq<char> {
    match run.claim_owner {
        Some(o) => o@,
        None => "unknown owner"@,
    }
}

/// What a claim does: a live running record keeps the lease; otherwise
/// every running record is taken over, in order.
pub fn claim_decision(running: &Vec<RefreshRunRow>, now_secs: i64, now_nanos: u32, stale_after_nanos: u128) -> (d:
    ClaimDecision)
    ensures
        (exists|j: int|
            0 <= j < running@.len() && !run_is_stale(
                #[trigger] running@[j],
                now_secs as int,
                now_nanos as int,
                stale_after_nanos as int,
            )) ==> (d matches ClaimDecision::Hold(run) && exists|i: int|
            0 <= i < running@.len() && running@[i] == run && !run_is_stale(
                running@[i],
                now_secs as int,
                now_nanos as int,
                stale_after_nanos as int,
            ) && forall|j: int|
                0 <= j < i ==> run_is_stale(
                    #[trigger] running@[j],
                    now_secs as int,
                    now_nanos as int,
                    stale_after_nanos as int,
                )),
        (forall|j: int|
            0 <= j < running@.len() ==> run_is_stale(
                #[trigger] running@[j],
                now_secs as int,
                now_nanos as int,
                stale_after_nanos as int,
            )) ==> (d matches ClaimDecision::Claim(reclaimed) && reclaimed@.len() == running@.len()
            && forall|i: int|
                0 <= i < running@.len() ==> (#[trigger] reclaimed@[i]).id == running@[i].id
                    && reclaimed@[i].owner@ == reclaimed_owner(running@[i])),
{
    match live_claim(running, now_secs, now_nanos, stale_after_nanos) {
        Some(run) => ClaimDecision::Hold(run),
        None => {
            let mut reclaimed: Vec<ReclaimedRun> = Vec::new();
            let mut i: usize = 0;
            while i < running.len()
                invariant
                    i <= running.len(),
                    reclaimed@.len() == i,
                    forall|k: int|
                        0 <= k < i ==> (#[trigger] reclaimed@[k]).id == running@[k].id
                            && reclaimed@[k].owner@ == reclaimed_owner(running@[k]),
                decreases running.len() - i,
            {
                let run = &running[i];
                let owner = match &run.claim_owner {
                    Some(o) => o.clone(),
                    None => "unknown owner".to_owned(),
                };
                reclaimed.push(ReclaimedRun { id: run.id, owner });
                i = i + 1;
            }
            ClaimDecision::Claim(reclaimed)
        },
    }
}

/// The lease after an owner-conditional update of `changed` rows: held when
/// exactly one row matched.
pub fn lease_state(changed: u64) -> (s: LeaseState)
    ensures
        s == (if changed == 1 {
            LeaseState::Held
        } else {
            LeaseState::Lost
        }),
{
    if changed == 1 {
        LeaseState::Held
    } else {
        LeaseState::Lost
    }
}

} // verus!
