//! The one-shot wake signal of a waiter: tokio's `Notify`, shared through an
//! `Arc` by the table and the party that waits on it.
//!
//! Nothing in this module is proved. A `Notify` is opaque to the verifier,
//! and so is what firing it does to a task that waits on it.

use vstd::prelude::*;
use std::sync::Arc;
use tokio::sync::Notify;

verus! {

/// `tokio::sync::Notify`, carried through as an opaque value.
#[verifier::external_type_specification]
#[verifier::external_body]
pub struct ExNotify(tokio::sync::Notify);

/// `Notify::new` makes a notifier that holds no permit. Nothing is claimed
/// of the value.
pub assume_specification[ tokio::sync::Notify::new ]() -> (n: Notify);

/// `Notify::notify_one` wakes the task waiting on the notifier, or stores a
/// permit for the next one that waits. It returns nothing and does not
/// panic; nothing is claimed of its effect.
pub assume_specification[ tokio::sync::Notify::notify_one ](n: &Notify);

/// `Arc::clone` on a shared notifier: the new handle points to the same
/// notifier as the one it was made from.
#[verifier::external_body]
pub(crate) fn share(signal: &Arc<Notify>) -> (r: Arc<Notify>)
    ensures
        r == *signal,
{
    Arc::clone(signal)
}

} // verus!
