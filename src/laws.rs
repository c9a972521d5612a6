//! What holds of a sequential trace of allocator events: the count it
//! leaves and where the callback fires.
use vstd::prelude::*;
use vstd::arithmetic::div_mod::{lemma_add_mod_noop, lemma_small_mod};
use crate::ledger::{
    after,
    change_of,
    crosses,
    fired,
    grown,
    modulus,
    shrunk,
    Change,
    Event,
    DISABLED,
};

verus! {

/// The count after every event of `events`, in order, from `start`.
pub open spec fn count_after(start: usize, events: Seq<Event>) -> usize
    decreases events.len(),
{
    if events.len() == 0 {
        start
    } else {
        after(count_after(start, events.drop_last()), events.last())
    }
}

/// What event `i` of `events` hands the callback, from `start` under `threshold`.
pub open spec fn fired_at(start: usize, threshold: usize, events: Seq<Event>, i: int) -> Option<usize> {
    fired(count_after(start, events.take(i)), threshold, events[i])
}

/// The signed number of bytes that `event` adds to the count.
pub open spec fn delta_of(event: Event) -> int {
    match change_of(event) {
        Change::Grow(d) => d as int,
        Change::Shrink(d) => -(d as int),
        Change::Unchanged => 0,
    }
}

/// The sum of growth deltas minus the sum of shrink deltas of `events`.
pub open spec fn net(events: Seq<Event>) -> int
    decreases events.len(),
{
    if events.len() == 0 {
        0
    } else {
        net(events.drop_last()) + delta_of(events.last())
    }
}

proof fn lemma_count_modular(start: usize, events: Seq<Event>)
    ensures
        count_after(start, events) as int == (start + net(events)) % modulus(),
    decreases events.len(),
{
    let m = modulus();
    if events.len() == 0 {
        lemma_small_mod(start as nat, m as nat);
    } else {
        let prefix = events.drop_last();
        let e = events.last();
        lemma_count_modular(start, prefix);
        let c = count_after(start, prefix);
        let s = start + net(prefix);
        assert(c as int == s % m);
        lemma_add_mod_noop(s, delta_of(e), m);
        lemma_add_mod_noop(c as int, delta_of(e), m);
        lemma_small_mod(c as nat, m as nat);
        assert((c + delta_of(e)) % m == (s + delta_of(e)) % m);
        match change_of(e) {
            Change::Grow(d) => {
                assert(after(c, e) == grown(c, d));
            },
            Change::Shrink(d) => {
                assert(after(c, e) == shrunk(c, d));
            },
            Change::Unchanged => {
                lemma_small_mod(c as nat, m as nat);
            },
        }
    }
}

/// Net accounting: from an empty count, the count after any sequential trace,
/// in whatever order its events come, is the sum of its growth deltas minus
/// the sum of its shrink deltas, whenever that total fits the counter.
pub proof fn law_net_accounting(events: Seq<Event>)
    requires
        0 <= net(events) <= usize::MAX,
    ensures
        count_after(0, events) as int == net(events),
{
    lemma_count_modular(0, events);
    lemma_small_mod(net(events) as nat, modulus() as nat);
}

proof fn lemma_step(start: usize, events: Seq<Event>, i: int)
    requires
        0 <= i < events.len(),
    ensures
        count_after(start, events.take(i + 1)) == after(count_after(start, events.take(i)), events[i]),
{
    let next = events.take(i + 1);
    assert(next.drop_last() =~= events.take(i));
    assert(next.last() == events[i]);
}

/// Edge-trigger exactness: event `i` fires exactly when it is a growth and
/// the count was below the threshold just before it and at or above it just
/// after; the byte total handed over is the count after. A growth that
/// starts at or above the threshold never fires.
pub proof fn law_edge_exact(start: usize, threshold: usize, events: Seq<Event>, i: int)
    requires
        0 <= i < events.len(),
    ensures
        ({
            let before = count_after(start, events.take(i));
            let now = count_after(start, events.take(i + 1));
            &&& fired_at(start, threshold, events, i) is Some <==> (change_of(events[i]) is Grow
                && crosses(before, now, threshold))
            &&& fired_at(start, threshold, events, i) is Some ==> fired_at(
                start,
                threshold,
                events,
                i,
            ) == Some(now)
            &&& before >= threshold ==> fired_at(start, threshold, events, i) is None
        }),
{
    lemma_step(start, events, i);
}

/// Re-arm after drop: once event `i` has fired, a later event `j` that
/// leaves the count below the threshold and a still later growth `k` that
/// crosses it again make `k` fire again, with the count after `k`.
pub proof fn law_rearm(start: usize, threshold: usize, events: Seq<Event>, i: int, j: int, k: int)
    requires
        0 <= i < j < k < events.len(),
        fired_at(start, threshold, events, i) is Some,
        count_after(start, events.take(j + 1)) < threshold,
        change_of(events[k]) is Grow,
        count_after(start, events.take(k)) < threshold,
        threshold <= count_after(start, events.take(k + 1)),
    ensures
        fired_at(start, threshold, events, k) == Some(count_after(start, events.take(k + 1))),
{
    lemma_step(start, events, k);
}

/// Disabled by default: under the `DISABLED` threshold no event fires, as
/// long as the count it leaves stays below `usize::MAX`.
pub proof fn law_disabled(start: usize, events: Seq<Event>, i: int)
    requires
        0 <= i < events.len(),
        count_after(start, events.take(i + 1)) < usize::MAX,
    ensures
        fired_at(start, DISABLED, events, i) is None,
{
    lemma_step(start, events, i);
}

/// Failure is a no-op: a failed allocation or reallocation leaves the count
/// as it was and fires nothing.
pub proof fn law_failure_no_op(count: usize, threshold: usize, event: Event)
    requires
        event matches Event::Alloc { succeeded, .. } ==> !succeeded,
        event matches Event::Realloc { succeeded, .. } ==> !succeeded,
        !(event is Dealloc),
    ensures
        after(count, event) == count,
        fired(count, threshold, event) is None,
{
}

} // verus!
