use rendezvous::{failure_code, Arrival, Outcome, RendezvousTable, Reply, WaitEnd};
use rendezvous::{REQUEST_DEADLINE_MS, WAIT_BUDGET_MS};

fn first(table: &mut RendezvousTable, key: &str, budget_ms: u64) -> u64 {
    match table.arrive(key, budget_ms) {
        Arrival::First(pending) => {
            assert_eq!(pending.budget_ms, budget_ms);
            pending.ticket
        }
        Arrival::Second { .. } => panic!("a waiter was already registered under {key:?}"),
    }
}

fn second(table: &mut RendezvousTable, key: &str) -> u64 {
    match table.arrive(key, 10_000) {
        Arrival::Second { met } => met,
        Arrival::First(_) => panic!("nobody was waiting under {key:?}"),
    }
}

#[test]
fn new_table_is_empty() {
    let table = RendezvousTable::new();
    assert_eq!(table.len(), 0);
    assert!(!table.is_waiting("room1"));
    assert!(table.can_register());
}

#[test]
fn default_table_is_empty() {
    let table = RendezvousTable::default();
    assert_eq!(table.len(), 0);
    assert!(!table.is_waiting(""));
}

#[test]
fn first_arrival_is_registered() {
    let mut table = RendezvousTable::new();
    match table.arrive("room1", 10_000) {
        Arrival::First(pending) => {
            assert_eq!(pending.ticket, 0);
            assert_eq!(pending.budget_ms, 10_000);
        }
        Arrival::Second { .. } => panic!("nobody was waiting"),
    }
    assert!(table.is_waiting("room1"));
    assert_eq!(table.len(), 1);
}

#[test]
fn second_arrival_consumes_the_waiter() {
    let mut table = RendezvousTable::new();
    let ticket = first(&mut table, "room1", 10_000);
    assert_eq!(second(&mut table, "room1"), ticket);
    assert!(!table.is_waiting("room1"));
    assert_eq!(table.len(), 0);
    assert_eq!(table.finish("room1", ticket, WaitEnd::Signalled), Outcome::Matched);
    assert_eq!(table.len(), 0);
}

#[test]
fn lone_waiter_times_out_and_is_removed() {
    let mut table = RendezvousTable::new();
    let ticket = first(&mut table, "room2", 1_000);
    assert_eq!(table.finish("room2", ticket, WaitEnd::Elapsed), Outcome::TimedOut);
    assert!(!table.is_waiting("room2"));
    assert_eq!(table.len(), 0);
}

#[test]
fn late_match_beats_the_timer() {
    let mut table = RendezvousTable::new();
    let ticket = first(&mut table, "room3", 1_000);
    // The timer has fired, but the second party gets to the table first.
    second(&mut table, "room3");
    assert_eq!(table.finish("room3", ticket, WaitEnd::Elapsed), Outcome::Matched);
    assert!(!table.is_waiting("room3"));
}

#[test]
fn stale_finish_spares_the_next_waiter() {
    let mut table = RendezvousTable::new();
    let a = first(&mut table, "k", 1_000);
    second(&mut table, "k");
    let c = first(&mut table, "k", 1_000);
    assert_ne!(a, c);
    assert_eq!(table.finish("k", a, WaitEnd::Elapsed), Outcome::Matched);
    assert!(table.is_waiting("k"));
    assert_eq!(table.finish("k", c, WaitEnd::Elapsed), Outcome::TimedOut);
    assert!(!table.is_waiting("k"));
}

#[test]
fn finish_twice_removes_once() {
    let mut table = RendezvousTable::new();
    let a = first(&mut table, "k", 1_000);
    let other = first(&mut table, "other", 1_000);
    assert_eq!(table.finish("k", a, WaitEnd::Elapsed), Outcome::TimedOut);
    assert_eq!(table.finish("k", a, WaitEnd::Elapsed), Outcome::Matched);
    assert_eq!(table.len(), 1);
    assert!(table.is_waiting("other"));
    assert_eq!(table.finish("other", other, WaitEnd::Elapsed), Outcome::TimedOut);
}

#[test]
fn signalled_waiter_still_registered_is_withdrawn() {
    let mut table = RendezvousTable::new();
    let ticket = first(&mut table, "k", 1_000);
    assert_eq!(table.finish("k", ticket, WaitEnd::Signalled), Outcome::Matched);
    assert!(!table.is_waiting("k"));
}

#[test]
fn key_is_reusable_after_a_match() {
    let mut table = RendezvousTable::new();
    let a = first(&mut table, "room1", 10_000);
    second(&mut table, "room1");
    assert_eq!(table.finish("room1", a, WaitEnd::Signalled), Outcome::Matched);
    let b = first(&mut table, "room1", 10_000);
    assert!(table.is_waiting("room1"));
    second(&mut table, "room1");
    assert_eq!(table.finish("room1", b, WaitEnd::Signalled), Outcome::Matched);
    assert_eq!(table.len(), 0);
}

#[test]
fn key_is_reusable_after_a_timeout() {
    let mut table = RendezvousTable::new();
    let a = first(&mut table, "room2", 1_000);
    assert_eq!(table.finish("room2", a, WaitEnd::Elapsed), Outcome::TimedOut);
    let b = first(&mut table, "room2", 1_000);
    second(&mut table, "room2");
    assert_eq!(table.finish("room2", b, WaitEnd::Elapsed), Outcome::Matched);
    assert_eq!(table.len(), 0);
}

#[test]
fn third_arrival_starts_a_new_cycle() {
    let mut table = RendezvousTable::new();
    first(&mut table, "k", 1_000);
    second(&mut table, "k");
    let third = first(&mut table, "k", 1_000);
    assert_eq!(third, 1);
    assert!(table.is_waiting("k"));
}

#[test]
fn keys_do_not_interfere() {
    let mut table = RendezvousTable::new();
    let a = first(&mut table, "a", 1_000);
    let b = first(&mut table, "b", 1_000);
    assert_eq!(table.len(), 2);
    second(&mut table, "a");
    assert!(table.is_waiting("b"));
    assert_eq!(table.finish("a", a, WaitEnd::Elapsed), Outcome::Matched);
    assert_eq!(table.finish("b", b, WaitEnd::Elapsed), Outcome::TimedOut);
    assert_eq!(table.len(), 0);
}

#[test]
fn finish_under_the_wrong_key_changes_nothing() {
    let mut table = RendezvousTable::new();
    let a = first(&mut table, "a", 1_000);
    assert_eq!(table.finish("b", a, WaitEnd::Elapsed), Outcome::Matched);
    assert!(table.is_waiting("a"));
    assert_eq!(table.len(), 1);
}

#[test]
fn empty_key_is_a_key_like_any_other() {
    let mut table = RendezvousTable::new();
    let a = first(&mut table, "", 1_000);
    assert!(table.is_waiting(""));
    assert!(!table.is_waiting(" "));
    second(&mut table, "");
    assert_eq!(table.finish("", a, WaitEnd::Elapsed), Outcome::Matched);
}

#[test]
fn tickets_count_up_from_zero() {
    let mut table = RendezvousTable::new();
    assert_eq!(first(&mut table, "a", 1), 0);
    assert_eq!(first(&mut table, "b", 2), 1);
    second(&mut table, "a");
    assert_eq!(first(&mut table, "c", 3), 2);
    assert_eq!(first(&mut table, "a", 4), 3);
}

#[test]
fn budget_is_handed_through_unchanged() {
    let mut table = RendezvousTable::new();
    assert!(matches!(
        table.arrive("a", WAIT_BUDGET_MS),
        Arrival::First(p) if p.budget_ms == 10_000
    ));
    assert!(matches!(table.arrive("b", 0), Arrival::First(p) if p.budget_ms == 0));
    assert!(matches!(
        table.arrive("c", u64::MAX),
        Arrival::First(p) if p.budget_ms == u64::MAX
    ));
}

#[test]
fn reply_for_a_match() {
    let reply = Reply::for_outcome(Outcome::Matched);
    assert_eq!(reply.status, "ok");
    assert_eq!(reply.msg, "Second party arrived");
}

#[test]
fn reply_for_a_timeout() {
    let reply = Reply::for_outcome(Outcome::TimedOut);
    assert_eq!(reply.status, "error");
    assert_eq!(reply.msg, "Timeout");
}

#[test]
fn failure_codes() {
    assert_eq!(failure_code(true), 408);
    assert_eq!(failure_code(false), 500);
}

#[test]
fn request_deadline_lies_behind_the_wait_budget() {
    assert_eq!(WAIT_BUDGET_MS, 10_000);
    assert_eq!(REQUEST_DEADLINE_MS, 15_000);
    assert!(WAIT_BUDGET_MS < REQUEST_DEADLINE_MS);
}

#[test]
fn second_party_meets_the_waiter_of_its_own_key() {
    let mut table = RendezvousTable::new();
    let a = first(&mut table, "a", 1_000);
    let b = first(&mut table, "b", 1_000);
    assert_eq!(second(&mut table, "b"), b);
    assert_eq!(second(&mut table, "a"), a);
    assert_eq!(table.len(), 0);
}

#[test]
fn tickets_start_where_the_table_was_told() {
    let mut table = RendezvousTable::with_first_ticket(41);
    assert_eq!(table.len(), 0);
    assert_eq!(first(&mut table, "a", 1_000), 41);
    assert_eq!(first(&mut table, "b", 1_000), 42);
}

#[test]
fn try_arrive_makes_the_arrival_while_tickets_last() {
    let mut table = RendezvousTable::with_first_ticket(u64::MAX - 1);
    assert!(table.can_register());
    match table.try_arrive("a", 1_000) {
        Some(Arrival::First(pending)) => assert_eq!(pending.ticket, u64::MAX - 1),
        _ => panic!("a ticket was left"),
    }
    assert!(!table.can_register());
    assert!(table.is_waiting("a"));
}

#[test]
fn try_arrive_without_a_ticket_registers_nobody() {
    let mut table = RendezvousTable::with_first_ticket(u64::MAX);
    assert!(!table.can_register());
    assert!(table.try_arrive("a", 1_000).is_none());
    assert!(!table.is_waiting("a"));
    assert_eq!(table.len(), 0);
}

#[test]
fn try_arrive_without_a_ticket_still_lets_a_second_party_in() {
    let mut table = RendezvousTable::with_first_ticket(u64::MAX - 1);
    let a = first(&mut table, "a", 1_000);
    assert!(!table.can_register());
    assert!(table.try_arrive("b", 1_000).is_none());
    assert!(matches!(table.try_arrive("a", 1_000), Some(Arrival::Second { met }) if met == a));
    assert_eq!(table.finish("a", a, WaitEnd::Elapsed), Outcome::Matched);
    assert_eq!(table.len(), 0);
}
