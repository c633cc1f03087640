//! Outcomes of the concurrent attempts made toward one endpoint, and the
//! responses that the successful ones yield.
use vstd::prelude::*;

use crate::response::{stamped, FunctionResponse, Latency, ResponseBody, ResponseView};

verus! {

/// Number of concurrent attempts made toward each endpoint in a cycle.
pub const ATTEMPTS_PER_ENDPOINT: u64 = 3;

/// What became of one attempt.
#[derive(Clone, Copy, Debug, PartialEq, Eq, Structural)]
pub enum AttemptOutcome {
    /// The endpoint answered with a well-formed body after `elapsed`.
    Completed { body: ResponseBody, elapsed: Latency },
    /// Connection failure, a status other than success, or an unreadable body.
    TransportFailed,
    /// The body was not the expected JSON document.
    ParseFailed,
}

/// The responses that the completed attempts among `outs` yield, in order,
/// each stamped with its own latency and the endpoint's `name`.
pub open spec fn successes(outs: Seq<AttemptOutcome>, name: Seq<char>) -> Seq<ResponseView>
    decreases outs.len(),
{
    if outs.len() == 0 {
        Seq::empty()
    } else {
        let prev = successes(outs.drop_last(), name);
        match outs.last() {
            AttemptOutcome::Completed { body, elapsed } => prev.push(stamped(body, elapsed, name)),
            _ => prev,
        }
    }
}

/// The models of a sequence of responses.
pub open spec fn views(s: Seq<FunctionResponse>) -> Seq<ResponseView> {
    s.map_values(|r: FunctionResponse| r@)
}

/// Keeps the completed attempts toward endpoint `name`, stamped with their
/// latency and the name; failed attempts are dropped and affect no other.
pub fn collect_attempts(name: &String, outcomes: &Vec<AttemptOutcome>) -> (r: Vec<FunctionResponse>)
    ensures
        views(r@) == successes(outcomes@, name@),
{
    let mut r: Vec<FunctionResponse> = Vec::new();
    let mut i: usize = 0;
    while i < outcomes.len()
        invariant
            i <= outcomes.len(),
            views(r@) == successes(outcomes@.take(i as int), name@),
        decreases outcomes.len() - i,
    {
        assert(outcomes@.take(i + 1).drop_last() =~= outcomes@.take(i as int));
        match outcomes[i] {
            AttemptOutcome::Completed { body, elapsed } => {
                let resp = FunctionResponse::stamp(body, elapsed, name);
                r.push(resp);
                assert(views(r@) =~= successes(outcomes@.take(i + 1), name@));
            },
            _ => {},
        }
        i = i + 1;
    }
    assert(outcomes@.take(outcomes.len() as int) =~= outcomes@);
    r
}

} // verus!
