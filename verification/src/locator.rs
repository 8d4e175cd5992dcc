//! The retry policy of the element locator.
//!
//! The page renders late and tells nobody when an element appears, so an
//! element is looked for again and again, at once and without backoff, until
//! it is found or the time allowed has passed.  The caller makes the queries
//! and reads the clock; what to do after each query is decided here.

use vstd::prelude::*;
use vstd::string::StringExecFns;

verus! {

/// Time that has passed since the search began.
#[derive(Debug, Clone, Copy, PartialEq, Eq, Structural)]
pub struct Elapsed {
    pub secs: u64,
    pub subsec_nanos: u32,
}

impl Elapsed {
    /// The time in nanoseconds.
    pub open spec fn nanos(&self) -> int {
        self.secs * 1_000_000_000 + self.subsec_nanos
    }
}

/// The time allowed for a search, in nanoseconds.
pub open spec fn allowance(wait_secs: u64) -> int {
    wait_secs * 1_000_000_000
}

/// What to do after one query.
#[derive(Debug, Clone, Copy, PartialEq, Eq, Structural)]
pub enum Verdict {
    /// The query succeeded: the search ends with what it found.
    Found,
    /// The query failed and time is left: query again at once.
    Retry,
    /// The query failed and the time allowed has passed: the search fails.
    GiveUp,
}

/// The verdict after a query that succeeded or not, with `elapsed` on the clock
/// and `wait_secs` seconds allowed.  A failed query is never told apart from an
/// element that is not there yet: whatever made it fail, it is repeated until
/// the time has passed.
pub open spec fn verdict(found: bool, elapsed: Elapsed, wait_secs: u64) -> Verdict {
    if found {
        Verdict::Found
    } else if elapsed.nanos() < allowance(wait_secs) {
        Verdict::Retry
    } else {
        Verdict::GiveUp
    }
}

/// Why a search failed.
#[derive(Debug, Clone, PartialEq, Eq)]
pub enum LocateError {
    /// Nothing matched the selector within the time allowed.
    NotFound { selector: String, elapsed: Elapsed },
}

/// How a search goes on after one query.
#[derive(Debug, Clone, PartialEq, Eq)]
pub enum LocateStep<T> {
    Found(T),
    Retry,
    GaveUp(LocateError),
}

/// Tells whether the time allowed has passed.
pub fn timed_out(elapsed: Elapsed, wait_secs: u64) -> (r: bool)
    ensures
        r == (elapsed.nanos() >= allowance(wait_secs)),
{
    let spent: u128 = elapsed.secs as u128 * 1_000_000_000u128 + elapsed.subsec_nanos as u128;
    let allowed: u128 = wait_secs as u128 * 1_000_000_000u128;
    spent >= allowed
}

/// Decides how the search for `selector` goes on after one query: `attempt`
/// holds what the query found, if it found anything, and `elapsed` is the time
/// since the search began.
pub fn aggressive_retry_step<T>(
    attempt: Option<T>,
    selector: &str,
    elapsed: Elapsed,
    wait_secs: u64,
) -> (step: LocateStep<T>)
    ensures
        match verdict(attempt is Some, elapsed, wait_secs) {
            Verdict::Found => step == LocateStep::Found(attempt->0),
            Verdict::Retry => step is Retry,
            Verdict::GiveUp => step matches LocateStep::GaveUp(
                LocateError::NotFound { selector: s, elapsed: e },
            ) && s@ == selector@ && e == elapsed,
        },
{
    match attempt {
        Some(found) => LocateStep::Found(found),
        None => {
            if timed_out(elapsed, wait_secs) {
                LocateStep::GaveUp(
                    LocateError::NotFound { selector: String::from_str(selector), elapsed },
                )
            } else {
                LocateStep::Retry
            }
        },
    }
}

/// One query of a search: whether it succeeded, and the time on the clock.
pub struct Attempt {
    pub found: bool,
    pub elapsed: Elapsed,
}

/// The verdict after query `i` of a search.
pub open spec fn verdict_at(trace: Seq<Attempt>, wait_secs: u64, i: int) -> Verdict {
    verdict(trace[i].found, trace[i].elapsed, wait_secs)
}

/// The search ends with query `i`: every query before it was repeated, and
/// this one is not.
pub open spec fn stops_at(trace: Seq<Attempt>, wait_secs: u64, i: int) -> bool {
    &&& 0 <= i < trace.len()
    &&& verdict_at(trace, wait_secs, i) != Verdict::Retry
    &&& forall|j: int| 0 <= j < i ==> #[trigger] verdict_at(trace, wait_secs, j) == Verdict::Retry
}

/// The clock does not run backwards between queries.
pub open spec fn in_time_order(trace: Seq<Attempt>) -> bool {
    forall|i: int, j: int|
        0 <= i <= j < trace.len() ==> (#[trigger] trace[i]).elapsed.nanos() <= (
        #[trigger] trace[j]).elapsed.nanos()
}

/// The element appears `t` nanoseconds into the search: queries before that
/// fail and queries from then on succeed.
pub open spec fn appears_at(trace: Seq<Attempt>, t: int) -> bool {
    forall|i: int| 0 <= i < trace.len() ==> ((#[trigger] trace[i]).found <==> trace[i].elapsed.nanos() >= t)
}

/// The element never appears: every query fails.
pub open spec fn never_appears(trace: Seq<Attempt>) -> bool {
    forall|i: int| 0 <= i < trace.len() ==> !(#[trigger] trace[i]).found
}

/// Consecutive queries are at most `grain` nanoseconds apart, the first one
/// at most `grain` nanoseconds after the search began.
pub open spec fn polled_within(trace: Seq<Attempt>, grain: int) -> bool {
    &&& trace.len() > 0 ==> trace[0].elapsed.nanos() <= grain
    &&& forall|i: int|
        0 < i < trace.len() ==> (#[trigger] trace[i]).elapsed.nanos() - trace[i - 1].elapsed.nanos()
            <= grain
}

/// A search ends at most once.
pub proof fn lemma_stop_is_unique(trace: Seq<Attempt>, wait_secs: u64, i: int, j: int)
    requires
        stops_at(trace, wait_secs, i),
        stops_at(trace, wait_secs, j),
    ensures
        i == j,
{
    if i < j {
        assert(verdict_at(trace, wait_secs, i) == Verdict::Retry);
    } else if j < i {
        assert(verdict_at(trace, wait_secs, j) == Verdict::Retry);
    }
}

/// An element that appears before the time allowed has passed is found, and
/// not before it appears: where some query `k` is made once the element is
/// there, the search ends at a query `i` no later than `k`, with success, and
/// that query was made at or after the moment the element appeared.
pub proof fn lemma_found_once_it_appears(
    trace: Seq<Attempt>,
    wait_secs: u64,
    t: int,
    k: int,
) -> (i: int)
    requires
        in_time_order(trace),
        appears_at(trace, t),
        t < allowance(wait_secs),
        0 <= k < trace.len(),
        trace[k].elapsed.nanos() >= t,
    ensures
        0 <= i <= k,
        stops_at(trace, wait_secs, i),
        verdict_at(trace, wait_secs, i) == Verdict::Found,
        trace[i].elapsed.nanos() >= t,
        forall|j: int| 0 <= j < i ==> (#[trigger] trace[j]).elapsed.nanos() < t,
    decreases k,
{
    if k > 0 && trace[k - 1].elapsed.nanos() >= t {
        lemma_found_once_it_appears(trace, wait_secs, t, k - 1)
    } else {
        assert forall|j: int| 0 <= j < k implies (#[trigger] trace[j]).elapsed.nanos() < t by {
            assert(trace[j].elapsed.nanos() <= trace[k - 1].elapsed.nanos());
        }
        assert forall|j: int| 0 <= j < k implies #[trigger] verdict_at(trace, wait_secs, j)
            == Verdict::Retry by {
            assert(trace[j].elapsed.nanos() < t);
            assert(!trace[j].found);
        }
        assert(trace[k].found);
        k
    }
}

/// A search for an element that never appears fails, and neither early nor
/// late: if it ends at query `i`, it ends in failure, the time allowed has
/// passed by then, and it had not passed at the query before.
pub proof fn lemma_gives_up_at_the_deadline(trace: Seq<Attempt>, wait_secs: u64, i: int)
    requires
        never_appears(trace),
        stops_at(trace, wait_secs, i),
    ensures
        verdict_at(trace, wait_secs, i) == Verdict::GiveUp,
        trace[i].elapsed.nanos() >= allowance(wait_secs),
        i > 0 ==> trace[i - 1].elapsed.nanos() < allowance(wait_secs),
{
    assert(!trace[i].found);
    if i > 0 {
        assert(verdict_at(trace, wait_secs, i - 1) == Verdict::Retry);
        assert(!trace[i - 1].found);
    }
}

/// A search for an element that never appears overruns the time allowed by no
/// more than the time between two queries.
pub proof fn lemma_gives_up_within_one_poll(
    trace: Seq<Attempt>,
    wait_secs: u64,
    grain: int,
    i: int,
)
    requires
        never_appears(trace),
        polled_within(trace, grain),
        stops_at(trace, wait_secs, i),
    ensures
        allowance(wait_secs) <= trace[i].elapsed.nanos() <= allowance(wait_secs) + grain,
{
    lemma_gives_up_at_the_deadline(trace, wait_secs, i);
    if i > 0 {
        assert(trace[i].elapsed.nanos() - trace[i - 1].elapsed.nanos() <= grain);
    }
}

/// A search for an element that never appears does end: where some query `k`
/// is made once the time allowed has passed, the search ends at a query no
/// later than `k`.
pub proof fn lemma_gives_up_in_the_end(trace: Seq<Attempt>, wait_secs: u64, k: int) -> (i: int)
    requires
        never_appears(trace),
        0 <= k < trace.len(),
        trace[k].elapsed.nanos() >= allowance(wait_secs),
    ensures
        0 <= i <= k,
        stops_at(trace, wait_secs, i),
        verdict_at(trace, wait_secs, i) == Verdict::GiveUp,
    decreases k,
{
    assert(!trace[k].found);
    if exists|j: int| 0 <= j < k && #[trigger] verdict_at(trace, wait_secs, j) != Verdict::Retry {
        let j = choose|j: int|
            0 <= j < k && #[trigger] verdict_at(trace, wait_secs, j) != Verdict::Retry;
        assert(!trace[j].found);
        lemma_gives_up_in_the_end(trace, wait_secs, j)
    } else {
        k
    }
}

} // verus!
