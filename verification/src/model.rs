//! The rendezvous state machine over mathematical values.

use vstd::prelude::*;

verus! {

/// How a call at the rendezvous ended.
#[derive(Clone, Copy, Debug, PartialEq, Eq, Structural)]
pub enum Outcome {
    /// The rendezvous completed: this party met its counterpart.
    Matched,
    /// This party came first and nobody joined it within its wait budget.
    TimedOut,
}

/// Why a first party stopped waiting.
#[derive(Clone, Copy, Debug, PartialEq, Eq, Structural)]
pub enum WaitEnd {
    /// Its signal fired.
    Signalled,
    /// Its wait budget ran out, or the wait was abandoned.
    Elapsed,
}

/// What a table holds: for each key with a party waiting, the ticket of that
/// waiter, and the ticket that the next waiter will get. Tickets are handed
/// out in rising order, so every ticket in use lies below the next one.
pub struct TableState {
    pub waiting: Map<Seq<char>, nat>,
    pub next_ticket: nat,
}

impl TableState {
    /// The table that nobody has arrived at yet.
    pub open spec fn empty() -> TableState {
        TableState { waiting: Map::empty(), next_ticket: 0 }
    }

    /// Every ticket in the table lies below the next one to be handed out.
    pub open spec fn well_formed(self) -> bool {
        forall|k: Seq<char>|
            #[trigger] self.waiting.contains_key(k) ==> self.waiting[k] < self.next_ticket
    }

    /// A party is waiting under `key`.
    pub open spec fn is_waiting(self, key: Seq<char>) -> bool {
        self.waiting.contains_key(key)
    }

    /// The waiter registered under `key` is the one with `ticket`.
    pub open spec fn holds(self, key: Seq<char>, ticket: nat) -> bool {
        self.waiting.contains_key(key) && self.waiting[key] == ticket
    }

    /// The waiter with `ticket` under `key` was registered and is no longer:
    /// a second party consumed its entry, or it withdrew.
    pub open spec fn spent(self, key: Seq<char>, ticket: nat) -> bool {
        ticket < self.next_ticket && !self.holds(key, ticket)
    }

    /// The table after an arrival under `key`: a waiter found there is
    /// consumed; otherwise the arriving party is registered with the next
    /// ticket.
    pub open spec fn arrive(self, key: Seq<char>) -> TableState {
        if self.waiting.contains_key(key) {
            TableState { waiting: self.waiting.remove(key), next_ticket: self.next_ticket }
        } else {
            TableState {
                waiting: self.waiting.insert(key, self.next_ticket),
                next_ticket: self.next_ticket + 1,
            }
        }
    }

    /// The table after the waiter with `ticket` under `key` stopped waiting:
    /// its entry is withdrawn if it is still the one registered.
    pub open spec fn finish(self, key: Seq<char>, ticket: nat) -> TableState {
        if self.holds(key, ticket) {
            TableState { waiting: self.waiting.remove(key), next_ticket: self.next_ticket }
        } else {
            self
        }
    }

    /// What the waiter with `ticket` under `key` is told when it stops
    /// waiting. It timed out only if its budget ran out while its entry was
    /// still registered; an entry already consumed means that a second party
    /// came, however late.
    pub open spec fn outcome(self, key: Seq<char>, ticket: nat, end: WaitEnd) -> Outcome {
        if end == WaitEnd::Elapsed && self.holds(key, ticket) {
            Outcome::TimedOut
        } else {
            Outcome::Matched
        }
    }
}

/// One thing that happens to a table.
pub enum Event {
    /// A party arrives under `key`.
    Arrive { key: Seq<char> },
    /// The waiter with `ticket` under `key` stops waiting.
    Finish { key: Seq<char>, ticket: nat },
}

impl Event {
    /// The event leaves the waiter with `ticket` under `key` alone: it is
    /// neither an arrival under `key` nor the end of that waiter's wait.
    pub open spec fn spares(self, key: Seq<char>, ticket: nat) -> bool {
        match self {
            Event::Arrive { key: k } => k != key,
            Event::Finish { key: k, ticket: t } => k != key || t != ticket,
        }
    }
}

impl TableState {
    /// The table after one event.
    pub open spec fn step(self, event: Event) -> TableState {
        match event {
            Event::Arrive { key } => self.arrive(key),
            Event::Finish { key, ticket } => self.finish(key, ticket),
        }
    }

    /// The table after a run of events, the first of them first.
    pub open spec fn after(self, events: Seq<Event>) -> TableState
        decreases events.len(),
    {
        if events.len() == 0 {
            self
        } else {
            self.after(events.drop_last()).step(events.last())
        }
    }
}

} // verus!
