//! The table of waiters and the two decisions made on it.

use vstd::prelude::*;
use vstd::hash_map::StringHashMap;
use std::sync::Arc;
use tokio::sync::Notify;
use crate::model::{Outcome, TableState, WaitEnd};
use crate::signal::share;

verus! {

/// A party waiting for its counterpart.
struct Waiter {
    ticket: u64,
    signal: Arc<Notify>,
}

/// What a first party needs in order to wait.
pub struct Pending {
    /// Names this waiter when it stops waiting.
    pub ticket: u64,
    /// Fires when the second party arrives.
    pub signal: Arc<Notify>,
    /// How long to wait for the signal, in milliseconds.
    pub budget_ms: u64,
}

/// The role that an arriving party was given.
pub enum Arrival {
    /// A waiter was registered under the key, with the ticket `met`. It has
    /// been removed and its signal fired: the rendezvous is complete for
    /// this party.
    Second { met: u64 },
    /// Nobody was waiting under the key. The party is now registered and has
    /// to wait on the signal, then report how the wait ended.
    First(Pending),
}

/// The registry of waiters, at most one for each key.
pub struct RendezvousTable {
    waiters: StringHashMap<Waiter>,
    next_ticket: u64,
}

impl View for RendezvousTable {
    type V = TableState;

    closed spec fn view(&self) -> TableState {
        TableState {
            waiting: Map::new(
                |k: Seq<char>| self.waiters@.contains_key(k),
                |k: Seq<char>| self.waiters@[k].ticket as nat,
            ),
            next_ticket: self.next_ticket as nat,
        }
    }
}

impl RendezvousTable {
    /// The invariant of a table: every registered ticket was handed out by
    /// it. A new table has it and every method keeps it.
    pub open spec fn well_formed(&self) -> bool {
        self@.well_formed()
    }

    /// The signal of the waiter registered under `key`.
    pub closed spec fn signal_at(&self, key: Seq<char>) -> Arc<Notify> {
        self.waiters@[key].signal
    }

    /// The table can still hand out a ticket.
    pub open spec fn has_room(&self) -> bool {
        self@.next_ticket < u64::MAX
    }

    /// A table with no waiter.
    pub fn new() -> (t: RendezvousTable)
        ensures
            t.well_formed(),
            t@ == TableState::empty(),
    {
        RendezvousTable::with_first_ticket(0)
    }

    /// A table with no waiter whose tickets start at `first`.
    pub fn with_first_ticket(first: u64) -> (t: RendezvousTable)
        ensures
            t.well_formed(),
            t@ == (TableState { waiting: Map::empty(), next_ticket: first as nat }),
    {
        let t = RendezvousTable { waiters: StringHashMap::new(), next_ticket: first };
        assert(t@.waiting =~= Map::empty());
        t
    }

    /// Whether a party is waiting under `key`.
    pub fn is_waiting(&self, key: &str) -> (b: bool)
        ensures
            b == self@.is_waiting(key@),
    {
        self.waiters.contains_key(key)
    }

    /// The number of parties waiting.
    pub fn len(&self) -> (n: usize)
        ensures
            n == self@.waiting.len(),
    {
        proof {
            assert(self@.waiting.dom() =~= self.waiters@.dom());
        }
        self.waiters.len()
    }

    /// Whether a first party can still be registered.
    pub fn can_register(&self) -> (b: bool)
        ensures
            b == self.has_room(),
    {
        self.next_ticket < u64::MAX
    }

    /// An arrival under `key`.
    ///
    /// Where a party waits under `key`, the caller is the second party: the
    /// waiter is removed and its signal fired, and the caller is done. Where
    /// nobody waits, the caller is the first party: it is registered with the
    /// next ticket and a fresh signal, and is handed both together with its
    /// wait budget.
    pub fn arrive(&mut self, key: &str, budget_ms: u64) -> (r: Arrival)
        requires
            old(self).well_formed(),
            old(self)@.is_waiting(key@) || old(self).has_room(),
        ensures
            final(self).well_formed(),
            final(self)@ == old(self)@.arrive(key@),
            match r {
                Arrival::Second { met } => old(self)@.holds(key@, met as nat),
                Arrival::First(p) => {
                    &&& !old(self)@.is_waiting(key@)
                    &&& p.ticket == old(self)@.next_ticket
                    &&& p.budget_ms == budget_ms
                    &&& p.signal == final(self).signal_at(key@)
                },
            },
            forall|k: Seq<char>|
                k != key@ && old(self)@.is_waiting(k) ==> final(self).signal_at(k) == old(
                    self,
                ).signal_at(k),
    {
        match self.waiters.get(key) {
            Some(waiter) => {
                let met: u64 = waiter.ticket;
                waiter.signal.notify_one();
                self.waiters.remove(key);
                assert(self@.waiting =~= old(self)@.arrive(key@).waiting);
                Arrival::Second { met }
            },
            None => {
                let ticket: u64 = self.next_ticket;
                let signal = Arc::new(Notify::new());
                let handle = share(&signal);
                self.next_ticket = ticket + 1;
                self.waiters.insert(key.to_owned(), Waiter { ticket, signal });
                assert(self@.waiting =~= old(self)@.arrive(key@).waiting);
                Arrival::First(Pending { ticket, signal: handle, budget_ms })
            },
        }
    }

    /// An arrival under `key` on a table that may have run out of tickets.
    ///
    /// `None` where nobody waits under `key` and no ticket is left for the
    /// caller: the table is left as it was. Otherwise the arrival is made.
    pub fn try_arrive(&mut self, key: &str, budget_ms: u64) -> (r: Option<Arrival>)
        requires
            old(self).well_formed(),
        ensures
            final(self).well_formed(),
            r is None <==> !old(self)@.is_waiting(key@) && !old(self).has_room(),
            r is None ==> final(self)@ == old(self)@,
            r is Some ==> final(self)@ == old(self)@.arrive(key@),
            match r {
                Some(Arrival::Second { met }) => old(self)@.holds(key@, met as nat),
                Some(Arrival::First(p)) => {
                    &&& !old(self)@.is_waiting(key@)
                    &&& p.ticket == old(self)@.next_ticket
                    &&& p.budget_ms == budget_ms
                    &&& p.signal == final(self).signal_at(key@)
                },
                None => true,
            },
            forall|k: Seq<char>|
                k != key@ && old(self)@.is_waiting(k) ==> final(self).signal_at(k) == old(
                    self,
                ).signal_at(k),
    {
        if self.is_waiting(key) || self.can_register() {
            Some(self.arrive(key, budget_ms))
        } else {
            None
        }
    }

    /// The end of the wait of the first party that holds `ticket` under
    /// `key`.
    ///
    /// Its entry is withdrawn if it is still registered. It is told that it
    /// timed out only if its budget ran out with its entry still in the
    /// table; if the entry is gone, a second party consumed it, and the
    /// outcome is a match even where the timer came first.
    pub fn finish(&mut self, key: &str, ticket: u64, end: WaitEnd) -> (r: Outcome)
        requires
            old(self).well_formed(),
        ensures
            final(self).well_formed(),
            final(self)@ == old(self)@.finish(key@, ticket as nat),
            r == old(self)@.outcome(key@, ticket as nat, end),
            forall|k: Seq<char>|
                k != key@ && old(self)@.is_waiting(k) ==> final(self).signal_at(k) == old(
                    self,
                ).signal_at(k),
    {
        let held = match self.waiters.get(key) {
            Some(waiter) => waiter.ticket == ticket,
            None => false,
        };
        if held {
            self.waiters.remove(key);
            assert(self@.waiting =~= old(self)@.finish(key@, ticket as nat).waiting);
            match end {
                WaitEnd::Elapsed => Outcome::TimedOut,
                WaitEnd::Signalled => Outcome::Matched,
            }
        } else {
            assert(self@.waiting =~= old(self)@.finish(key@, ticket as nat).waiting);
            Outcome::Matched
        }
    }
}

impl Default for RendezvousTable {
    /// A table with no waiter.
    fn default() -> (t: RendezvousTable)
        ensures
            t.well_formed(),
            t@ == TableState::empty(),
    {
        RendezvousTable::new()
    }
}

} // verus!
