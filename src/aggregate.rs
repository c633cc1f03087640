//! Splitting a cycle's responses into accepted cold starts and skipped ones.
use vstd::prelude::*;

use crate::probe::views;
use crate::response::{is_cold_start, FunctionResponse, ResponseView};

verus! {

/// The responses of `s` that pass the acceptance rule, in order.
pub open spec fn accepted_of(s: Seq<ResponseView>) -> Seq<ResponseView>
    decreases s.len(),
{
    if s.len() == 0 {
        Seq::empty()
    } else if is_cold_start(s.last()) {
        accepted_of(s.drop_last()).push(s.last())
    } else {
        accepted_of(s.drop_last())
    }
}

/// The endpoint names of the responses of `s` that fail the acceptance rule, in order.
pub open spec fn skipped_of(s: Seq<ResponseView>) -> Seq<Seq<char>>
    decreases s.len(),
{
    if s.len() == 0 {
        Seq::empty()
    } else if is_cold_start(s.last()) {
        skipped_of(s.drop_last())
    } else {
        skipped_of(s.drop_last()).push(s.last().function_name)
    }
}

/// A cycle's responses, split by the acceptance rule.
pub struct Classified {
    /// The accepted observations, in the order they came.
    pub accepted: Vec<FunctionResponse>,
    /// For each skipped response, the name of its endpoint.
    pub skipped: Vec<String>,
}

/// The names held by a vector of strings.
pub open spec fn string_views(s: Seq<String>) -> Seq<Seq<char>> {
    s.map_values(|x: String| x@)
}

/// Splits `responses` into those that pass the acceptance rule and the
/// endpoint names of those that do not.
pub fn classify(responses: &Vec<FunctionResponse>) -> (r: Classified)
    ensures
        views(r.accepted@) == accepted_of(views(responses@)),
        string_views(r.skipped@) == skipped_of(views(responses@)),
{
    let mut accepted: Vec<FunctionResponse> = Vec::new();
    let mut skipped: Vec<String> = Vec::new();
    let mut i: usize = 0;
    while i < responses.len()
        invariant
            i <= responses.len(),
            views(accepted@) == accepted_of(views(responses@.take(i as int))),
            string_views(skipped@) == skipped_of(views(responses@.take(i as int))),
        decreases responses.len() - i,
    {
        let ghost s = views(responses@.take(i + 1));
        assert(s.drop_last() =~= views(responses@.take(i as int)));
        assert(s.last() == responses@[i as int]@);
        let resp = &responses[i];
        if resp.is_cold_start() {
            accepted.push(resp.duplicate());
            assert(views(accepted@) =~= accepted_of(s));
        } else {
            skipped.push(resp.function_name.clone());
            assert(string_views(skipped@) =~= skipped_of(s));
        }
        i = i + 1;
    }
    assert(responses@.take(responses.len() as int) =~= responses@);
    Classified { accepted, skipped }
}

} // verus!
