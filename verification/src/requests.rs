//! Request-level rules: which requests mutate, what demo mode refuses, when
//! the data revision moves, and what the revision and data-version say.
use vstd::prelude::*;

use crate::calendar::{format_ymd, valid_date, ymd_text};
use crate::config::Mode;
use crate::transactions::TradeDate;
use crate::error::{ApiError, STATUS_FORBIDDEN};
use crate::text::{append_str, i64_string, int_text, lemma_int_text_injective, str_eq};

verus! {

/// Every method but `GET`, `HEAD` and `OPTIONS` may change stored data.
pub open spec fn mutating(method: Seq<char>) -> bool {
    !(method == "GET"@ || method == "HEAD"@ || method == "OPTIONS"@)
}

/// Whether a request with this method (its canonical name) may change stored data.
pub fn is_mutating_method(method: &str) -> (b: bool)
    ensures
        b == mutating(method@),
{
    !(str_eq(method, "GET") || str_eq(method, "HEAD") || str_eq(method, "OPTIONS"))
}

/// Demo mode serves a read-only ledger: every write is refused.
pub fn reject_demo_mutation(mode: Mode) -> (r: Result<(), ApiError>)
    ensures
        mode == Mode::Demo ==> (r matches Err(e) && e.status == STATUS_FORBIDDEN && e.code@
            == "demo_read_only"@ && e.message@ == "Demo mode is read-only."@ && e.details is None),
        mode != Mode::Demo ==> r is Ok,
{
    if mode.is_demo() {
        return Err(ApiError::demo_read_only());
    }
    Ok(())
}

/// The answer the read-only guard gives a request before it reaches a
/// handler: demo mode refuses every mutating request.
pub fn demo_guard(mode: Mode, method: &str) -> (r: Result<(), ApiError>)
    ensures
        (mode == Mode::Demo && mutating(method@)) ==> (r matches Err(e) && e.status
            == STATUS_FORBIDDEN && e.code@ == "demo_read_only"@),
        !(mode == Mode::Demo && mutating(method@)) ==> r is Ok,
{
    if mode.is_demo() && is_mutating_method(method) {
        return Err(ApiError::demo_read_only());
    }
    Ok(())
}

/// Whether a finished request moves the data revision: a mutating request
/// that was not refused as a client error (4xx). A server error still moves
/// it, since a refresh may have written before failing.
pub fn bumps_revision(method: &str, status: u16) -> (b: bool)
    ensures
        b == (mutating(method@) && !(400 <= status < 500)),
{
    is_mutating_method(method) && !(400 <= status && status < 500)
}

/// The revision clients see: the ledger's id and its change counter.
pub open spec fn revision_text(ledger_id: Seq<char>, counter: int) -> Seq<char> {
    ledger_id + ":"@ + int_text(counter)
}

pub fn revision_string(ledger_id: &str, counter: i64) -> (s: String)
    ensures
        s@ == revision_text(ledger_id@, counter as int),
{
    let mut s = ledger_id.to_owned();
    append_str(&mut s, ":");
    let digits = i64_string(counter);
    append_str(&mut s, digits.as_str());
    s
}

/// Two ledgers never publish the same revision at the same counter.
pub proof fn lemma_ledgers_have_distinct_revisions(a: Seq<char>, b: Seq<char>, counter: int)
    requires
        a != b,
    ensures
        revision_text(a, counter) != revision_text(b, counter),
{
    let tail = ":"@ + int_text(counter);
    assert(revision_text(a, counter) =~= a + tail);
    assert(revision_text(b, counter) =~= b + tail);
    if a + tail == b + tail {
        assert(a.len() == b.len());
        assert(a =~= (a + tail).subrange(0, a.len() as int));
        assert(b =~= (b + tail).subrange(0, b.len() as int));
    }
}

/// The revision moves whenever the counter does.
pub proof fn lemma_counter_changes_revision(ledger_id: Seq<char>, before: int, after: int)
    requires
        before != after,
    ensures
        revision_text(ledger_id, before) != revision_text(ledger_id, after),
{
    let head = ledger_id + ":"@;
    assert(revision_text(ledger_id, before) =~= head + int_text(before));
    assert(revision_text(ledger_id, after) =~= head + int_text(after));
    if head + int_text(before) == head + int_text(after) {
        assert(int_text(before) =~= (head + int_text(before)).skip(head.len() as int));
        assert(int_text(after) =~= (head + int_text(after)).skip(head.len() as int));
        lemma_int_text_injective(before, after);
    }
}

/// The change counter after a finished request: one more exactly when the
/// request moves the revision (see [`bumps_revision`]).
pub open spec fn counter_after(counter: int, method: Seq<char>, status: int) -> int {
    if mutating(method) && !(400 <= status < 500) {
        counter + 1
    } else {
        counter
    }
}

/// A read, or a request refused as a client error (demo read-only refusals
/// included), leaves the revision a client sees as it was; any other
/// mutating request moves it to a revision it never had before.
pub proof fn lemma_revision_moves_exactly_when_bumped(
    ledger_id: Seq<char>,
    counter: int,
    method: Seq<char>,
    status: int,
)
    ensures
        (revision_text(ledger_id, counter_after(counter, method, status)) != revision_text(
            ledger_id,
            counter,
        )) <==> (mutating(method) && !(400 <= status < 500)),
        forall|earlier: int|
            earlier <= counter && mutating(method) && !(400 <= status < 500) ==> revision_text(
                ledger_id,
                counter_after(counter, method, status),
            ) != #[trigger] revision_text(ledger_id, earlier),
{
    if mutating(method) && !(400 <= status < 500) {
        lemma_counter_changes_revision(ledger_id, counter, counter + 1);
        assert forall|earlier: int|
            earlier <= counter implies revision_text(ledger_id, counter + 1) != #[trigger] revision_text(
                ledger_id,
                earlier,
            ) by {
            lemma_counter_changes_revision(ledger_id, earlier, counter + 1);
        }
    }
}

/// What snapshot of the data the app serves, and what day it thinks it is.
#[derive(Clone, Debug)]
pub struct DataVersionResponse {
    pub data_revision: String,
    pub valuation_date: String,
    pub prices_refreshing: bool,
}

/// The data-version answer; a refresh state that could not be read counts
/// as not refreshing.
pub fn data_version(
    data_revision: String,
    today: TradeDate,
    refreshing: Result<bool, String>,
) -> (r: DataVersionResponse)
    requires
        valid_date(today),
    ensures
        r.data_revision == data_revision,
        r.valuation_date@ == ymd_text(today.year as int, today.month as int, today.day as int),
        r.prices_refreshing == (refreshing matches Ok(b) && b),
{
    DataVersionResponse {
        data_revision,
        valuation_date: format_ymd(today),
        prices_refreshing: match refreshing {
            Ok(b) => b,
            Err(_) => false,
        },
    }
}


} // verus!
