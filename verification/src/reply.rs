//! The answer that a caller is given for an outcome.

use vstd::prelude::*;
use crate::model::Outcome;

verus! {

/// How long a first party waits for its counterpart, in milliseconds.
pub const WAIT_BUDGET_MS: u64 = 10000;

/// The deadline of a whole request, in milliseconds: a safety net behind the
/// wait budget.
pub const REQUEST_DEADLINE_MS: u64 = 15000;

/// A status and a message for the party that called.
#[derive(Debug)]
pub struct Reply {
    pub status: String,
    pub msg: String,
}

/// The status text of an outcome.
pub open spec fn status_text(outcome: Outcome) -> Seq<char> {
    match outcome {
        Outcome::Matched => "ok"@,
        Outcome::TimedOut => "error"@,
    }
}

/// The message text of an outcome.
pub open spec fn message_text(outcome: Outcome) -> Seq<char> {
    match outcome {
        Outcome::Matched => "Second party arrived"@,
        Outcome::TimedOut => "Timeout"@,
    }
}

impl Reply {
    /// The reply for `outcome`: `ok` with "Second party arrived" for a
    /// match, `error` with "Timeout" otherwise.
    pub fn for_outcome(outcome: Outcome) -> (r: Reply)
        ensures
            r.status@ == status_text(outcome),
            r.msg@ == message_text(outcome),
    {
        match outcome {
            Outcome::Matched => Reply {
                status: "ok".to_owned(),
                msg: "Second party arrived".to_owned(),
            },
            Outcome::TimedOut => Reply {
                status: "error".to_owned(),
                msg: "Timeout".to_owned(),
            },
        }
    }
}

/// The status code for a request that failed outside the rendezvous: 408
/// where the request's own deadline ran out, 500 for anything else.
pub open spec fn failure_code_of(deadline_elapsed: bool) -> u16 {
    if deadline_elapsed {
        408
    } else {
        500
    }
}

/// The status code for a request that failed outside the rendezvous.
pub fn failure_code(deadline_elapsed: bool) -> (code: u16)
    ensures
        code == failure_code_of(deadline_elapsed),
{
    if deadline_elapsed {
        408
    } else {
        500
    }
}

} // verus!
