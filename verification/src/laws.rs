//! What holds of every run of the state machine.

use vstd::prelude::*;
use crate::model::{Event, Outcome, TableState, WaitEnd};

verus! {

/// No event breaks a table: after any event every registered ticket is still
/// one that was handed out, and no ticket is ever taken back.
pub proof fn step_keeps_well_formed(s: TableState, event: Event)
    requires
        s.well_formed(),
    ensures
        s.step(event).well_formed(),
        s.step(event).next_ticket >= s.next_ticket,
{
}

/// No run of events breaks a table.
pub proof fn run_keeps_well_formed(s: TableState, events: Seq<Event>)
    requires
        s.well_formed(),
    ensures
        s.after(events).well_formed(),
        s.after(events).next_ticket >= s.next_ticket,
    decreases events.len(),
{
    if events.len() > 0 {
        run_keeps_well_formed(s, events.drop_last());
        step_keeps_well_formed(s.after(events.drop_last()), events.last());
    }
}

/// The first party to arrive under a key is registered there, under the
/// ticket it is handed, and no other key is touched.
pub proof fn first_arrival_registers(s: TableState, key: Seq<char>)
    requires
        s.well_formed(),
        !s.is_waiting(key),
    ensures
        s.arrive(key).holds(key, s.next_ticket),
        forall|k: Seq<char>| k != key ==> s.arrive(key).is_waiting(k) == s.is_waiting(k),
        forall|k: Seq<char>|
            k != key && s.is_waiting(k) ==> s.arrive(key).waiting[k] == s.waiting[k],
{
}

/// A waiter stays registered until a second party arrives under its key or
/// its own wait ends: whatever else happens, to other keys or to earlier
/// waiters of the same key, leaves it in the table.
pub proof fn waiter_stays_until_met_or_finished(
    s: TableState,
    key: Seq<char>,
    ticket: nat,
    events: Seq<Event>,
)
    requires
        s.well_formed(),
        s.holds(key, ticket),
        forall|i: int| 0 <= i < events.len() ==> (#[trigger] events[i]).spares(key, ticket),
    ensures
        s.after(events).holds(key, ticket),
    decreases events.len(),
{
    if events.len() > 0 {
        let before = events.drop_last();
        assert forall|i: int| 0 <= i < before.len() implies (#[trigger] before[i]).spares(
            key,
            ticket,
        ) by {
            assert(before[i] == events[i]);
        }
        waiter_stays_until_met_or_finished(s, key, ticket, before);
        assert(events.last() == events[events.len() - 1]);
        assert(events.last().spares(key, ticket));
    }
}

/// Of two arrivals under a fresh key, the first is registered and the second
/// finds it: the second consumes the entry, and the first is told of a match
/// however its wait ends.
pub proof fn pair_is_matched(s: TableState, key: Seq<char>, end: WaitEnd)
    requires
        s.well_formed(),
        !s.is_waiting(key),
    ensures
        s.arrive(key).is_waiting(key),
        !s.arrive(key).arrive(key).is_waiting(key),
        s.arrive(key).arrive(key).spent(key, s.next_ticket),
        s.arrive(key).arrive(key).outcome(key, s.next_ticket, end) == Outcome::Matched,
{
}

/// A second arrival under the key of a waiter consumes that waiter's entry.
pub proof fn second_arrival_spends(s: TableState, key: Seq<char>, ticket: nat)
    requires
        s.well_formed(),
        s.holds(key, ticket),
    ensures
        s.arrive(key).spent(key, ticket),
        !s.arrive(key).is_waiting(key),
{
}

/// A waiter whose entry is gone stays without one: no later event registers
/// its ticket again.
pub proof fn spent_stays_spent(s: TableState, key: Seq<char>, ticket: nat, events: Seq<Event>)
    requires
        s.well_formed(),
        s.spent(key, ticket),
    ensures
        s.after(events).spent(key, ticket),
    decreases events.len(),
{
    if events.len() > 0 {
        let before = events.drop_last();
        spent_stays_spent(s, key, ticket, before);
        run_keeps_well_formed(s, before);
        step_keeps_well_formed(s.after(before), events.last());
    }
}

/// Once a second party has arrived under a waiter's key, the waiter is told
/// of a match, never of a timeout: whatever happens between that arrival and
/// the end of its wait, and whether its signal or its timer ends the wait.
pub proof fn met_waiter_is_matched(
    s: TableState,
    key: Seq<char>,
    ticket: nat,
    events: Seq<Event>,
    end: WaitEnd,
)
    requires
        s.well_formed(),
        s.holds(key, ticket),
    ensures
        s.arrive(key).after(events).outcome(key, ticket, end) == Outcome::Matched,
        s.arrive(key).after(events).finish(key, ticket) == s.arrive(key).after(events),
{
    second_arrival_spends(s, key, ticket);
    step_keeps_well_formed(s, Event::Arrive { key });
    spent_stays_spent(s.arrive(key), key, ticket, events);
}

/// A waiter is met at most once: after the arrival that consumed its entry,
/// no later arrival under its key finds it there, so its signal has no
/// second party to fire it again.
pub proof fn met_at_most_once(s: TableState, key: Seq<char>, ticket: nat, events: Seq<Event>)
    requires
        s.well_formed(),
        s.holds(key, ticket),
    ensures
        !s.arrive(key).after(events).holds(key, ticket),
{
    second_arrival_spends(s, key, ticket);
    step_keeps_well_formed(s, Event::Arrive { key });
    spent_stays_spent(s.arrive(key), key, ticket, events);
}

/// An entry is withdrawn at most once: reporting the end of the same wait a
/// second time changes nothing.
pub proof fn finish_twice_is_finish_once(s: TableState, key: Seq<char>, ticket: nat)
    ensures
        s.finish(key, ticket).finish(key, ticket) == s.finish(key, ticket),
{
}

/// A waiter that nobody joins is told of a timeout when its budget runs out,
/// and its key is free from then on: whatever happened meanwhile to other
/// keys.
pub proof fn lone_waiter_times_out(s: TableState, key: Seq<char>, ticket: nat, events: Seq<Event>)
    requires
        s.well_formed(),
        s.holds(key, ticket),
        forall|i: int| 0 <= i < events.len() ==> (#[trigger] events[i]).spares(key, ticket),
    ensures
        s.after(events).outcome(key, ticket, WaitEnd::Elapsed) == Outcome::TimedOut,
        !s.after(events).finish(key, ticket).is_waiting(key),
        s.after(events).finish(key, ticket).spent(key, ticket),
{
    waiter_stays_until_met_or_finished(s, key, ticket, events);
    run_keeps_well_formed(s, events);
}

/// A waiter is told of a timeout exactly when its budget ran out and no
/// second party had consumed its entry.
pub proof fn timeout_only_when_alone(s: TableState, key: Seq<char>, ticket: nat, end: WaitEnd)
    ensures
        s.outcome(key, ticket, end) == Outcome::TimedOut <==> end == WaitEnd::Elapsed && s.holds(
            key,
            ticket,
        ),
{
}

/// A completed cycle leaves nothing behind. After a match, and after a
/// timeout, the table holds the waiters it held before the first party came,
/// so the next arrival under the key is a first arrival again.
pub proof fn cycle_leaves_no_trace(s: TableState, key: Seq<char>, end: WaitEnd)
    requires
        s.well_formed(),
        !s.is_waiting(key),
    ensures
        s.arrive(key).arrive(key).finish(key, s.next_ticket).waiting == s.waiting,
        s.arrive(key).finish(key, s.next_ticket).waiting == s.waiting,
        !s.arrive(key).arrive(key).finish(key, s.next_ticket).is_waiting(key),
        !s.arrive(key).finish(key, s.next_ticket).is_waiting(key),
{
    assert(s.arrive(key).arrive(key).waiting =~= s.waiting);
    assert(s.arrive(key).finish(key, s.next_ticket).waiting =~= s.waiting);
}

/// What an arrival does depends on the waiters alone, not on how many
/// tickets were handed out before: two tables with the same keys waiting give
/// an arriving party the same role and hold the same keys afterwards.
pub proof fn arrival_ignores_history(a: TableState, b: TableState, key: Seq<char>)
    requires
        a.waiting.dom() == b.waiting.dom(),
    ensures
        a.is_waiting(key) == b.is_waiting(key),
        a.arrive(key).waiting.dom() == b.arrive(key).waiting.dom(),
{
    assert(a.waiting.contains_key(key) == b.waiting.dom().contains(key));
    assert(a.arrive(key).waiting.dom() =~= b.arrive(key).waiting.dom());
}

/// The end of one waiter's wait never touches another key.
pub proof fn finish_is_local(s: TableState, key: Seq<char>, ticket: nat, other: Seq<char>)
    requires
        other != key,
    ensures
        s.finish(key, ticket).is_waiting(other) == s.is_waiting(other),
        s.is_waiting(other) ==> s.finish(key, ticket).waiting[other] == s.waiting[other],
{
}

} // verus!
