//! A two-party rendezvous table.
//!
//! Two parties meet under a string key. The first to arrive is registered as
//! a waiter and is told to suspend on a one-shot signal for at most its wait
//! budget; the second to arrive removes the waiter, fires its signal and is
//! done at once. A waiter whose budget runs out withdraws its own entry,
//! unless a second party consumed it in the meantime.
//!
//! The table only decides. Suspending, timers and locking belong to the
//! caller, who holds the table behind whatever gives it exclusive access.

pub mod model;
pub mod reply;
pub mod signal;
pub mod table;
pub mod laws;

pub use model::{Event, Outcome, TableState, WaitEnd};
pub use reply::{failure_code, Reply, REQUEST_DEADLINE_MS, WAIT_BUDGET_MS};
pub use table::{Arrival, Pending, RendezvousTable};
