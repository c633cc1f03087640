//! Properties of classification and of a whole cycle, proved over the models
//! that the executable functions' contracts speak of.
use vstd::prelude::*;

use crate::aggregate::accepted_of;
use crate::cycle::{cycle_responses, gathered, outcomes_for, published_of};
use crate::probe::{successes, AttemptOutcome};
use crate::publish::Timestamp;
use crate::registry::Registry;
use crate::response::{is_cold_start, Latency, ResponseView};

verus! {

/// How many times `x` occurs in `s`.
pub open spec fn occurrences(s: Seq<ResponseView>, x: ResponseView) -> nat
    decreases s.len(),
{
    if s.len() == 0 {
        0
    } else {
        occurrences(s.drop_last(), x) + if s.last() == x {
            1nat
        } else {
            0nat
        }
    }
}

/// `o` is a completed attempt whose measured latency is `d`.
pub open spec fn measured(o: AttemptOutcome, d: Latency) -> bool {
    o matches AttemptOutcome::Completed { elapsed, .. } && elapsed == d
}

/// Every accepted response passes the acceptance rule and comes from the input.
pub proof fn lemma_accepted_pass(s: Seq<ResponseView>)
    ensures
        forall|k: int|
            0 <= k < accepted_of(s).len() ==> is_cold_start(#[trigger] accepted_of(s)[k])
                && s.contains(accepted_of(s)[k]),
    decreases s.len(),
{
    if s.len() > 0 {
        lemma_accepted_pass(s.drop_last());
        let p = accepted_of(s.drop_last());
        assert forall|k: int| 0 <= k < accepted_of(s).len() implies is_cold_start(
            #[trigger] accepted_of(s)[k],
        ) && s.contains(accepted_of(s)[k]) by {
            if k < p.len() {
                assert(accepted_of(s)[k] == p[k]);
                let j = choose|j: int| 0 <= j < s.drop_last().len() && s.drop_last()[j] == p[k];
                assert(s[j] == p[k]);
            } else {
                assert(s[s.len() - 1] == s.last());
            }
        }
    }
}

/// A response that reports no cold start is never accepted, whatever its uptime.
pub proof fn lemma_no_cold_start_never_accepted(s: Seq<ResponseView>, r: ResponseView)
    requires
        !r.cold_start_result,
    ensures
        !accepted_of(s).contains(r),
{
    lemma_accepted_pass(s);
}

/// A response that reports a cold start after more than one second of
/// uptime (or an uptime that is not a number) is never accepted.
pub proof fn lemma_long_uptime_never_accepted(s: Seq<ResponseView>, r: ResponseView)
    requires
        r.cold_start_result,
        !r.process_uptime.spec_at_most_one_second(),
    ensures
        !accepted_of(s).contains(r),
{
    lemma_accepted_pass(s);
}

/// A response that reports a cold start within one second of uptime is
/// accepted exactly as many times as it was received.
pub proof fn lemma_cold_start_accepted_once(s: Seq<ResponseView>, r: ResponseView)
    requires
        is_cold_start(r),
    ensures
        occurrences(accepted_of(s), r) == occurrences(s, r),
    decreases s.len(),
{
    if s.len() > 0 {
        lemma_cold_start_accepted_once(s.drop_last(), r);
        let p = accepted_of(s.drop_last());
        if is_cold_start(s.last()) {
            assert(accepted_of(s).drop_last() =~= p);
        }
    }
}

/// Every response gathered from an endpoint's attempts carries the
/// endpoint's name and the latency measured by one of its completed attempts.
pub proof fn lemma_successes_stamped(outs: Seq<AttemptOutcome>, name: Seq<char>)
    ensures
        forall|k: int|
            0 <= k < successes(outs, name).len() ==> {
                &&& (#[trigger] successes(outs, name)[k]).function_name == name
                &&& exists|j: int|
                    0 <= j < outs.len() && measured(#[trigger] outs[j], successes(outs, name)[k].request_duration)
            },
    decreases outs.len(),
{
    if outs.len() > 0 {
        let d = outs.drop_last();
        lemma_successes_stamped(d, name);
        assert forall|k: int| 0 <= k < successes(outs, name).len() implies {
            &&& (#[trigger] successes(outs, name)[k]).function_name == name
            &&& exists|j: int|
                0 <= j < outs.len() && measured(#[trigger] outs[j], successes(outs, name)[k].request_duration)
        } by {
            if k < successes(d, name).len() {
                assert(successes(outs, name)[k] == successes(d, name)[k]);
                let j = choose|j: int|
                    0 <= j < d.len() && measured(d[j], successes(d, name)[k].request_duration);
                assert(outs[j] == d[j]);
            } else {
                assert(outs[outs.len() - 1] == outs.last());
            }
        }
    }
}

/// A failed attempt contributes nothing and takes nothing away: the
/// responses are those of the other attempts.
pub proof fn lemma_failed_attempt_ignored(outs: Seq<AttemptOutcome>, k: int, name: Seq<char>)
    requires
        0 <= k < outs.len(),
        !(outs[k] is Completed),
    ensures
        successes(outs, name) == successes(outs.remove(k), name),
    decreases outs.len(),
{
    if k == outs.len() - 1 {
        assert(outs.remove(k) =~= outs.drop_last());
    } else {
        lemma_failed_attempt_ignored(outs.drop_last(), k, name);
        assert(outs.remove(k).drop_last() =~= outs.drop_last().remove(k));
        assert(outs.remove(k).last() == outs.last());
    }
}

/// Accepting the responses of two runs one after the other is accepting
/// those of the first, then those of the second.
pub proof fn lemma_accepted_concat(a: Seq<ResponseView>, b: Seq<ResponseView>)
    ensures
        accepted_of(a + b) == accepted_of(a) + accepted_of(b),
    decreases b.len(),
{
    if b.len() == 0 {
        assert(a + b =~= a);
        assert(accepted_of(a) + accepted_of(b) =~= accepted_of(a));
    } else {
        lemma_accepted_concat(a, b.drop_last());
        assert((a + b).drop_last() =~= a + b.drop_last());
        assert((a + b).last() == b.last());
    }
}

/// When no endpoint yields an accepted observation, nothing is published:
/// the cycle's accepted responses, and so its data points, are none.
pub proof fn lemma_nothing_accepted_nothing_published(
    registry: Registry,
    outs: Seq<Vec<AttemptOutcome>>,
    now: Timestamp,
)
    requires
        forall|i: int|
            0 <= i < registry.entries@.len() ==> accepted_of(
                #[trigger] successes(outcomes_for(outs, i), registry.names()[i]),
            ).len() == 0,
    ensures
        accepted_of(cycle_responses(registry, outs)).len() == 0,
        published_of(registry, outs, now).len() == 0,
{
    lemma_gathered_none(registry, outs, registry.entries@.len());
}

proof fn lemma_gathered_none(registry: Registry, outs: Seq<Vec<AttemptOutcome>>, n: nat)
    requires
        n <= registry.entries@.len(),
        forall|i: int|
            0 <= i < registry.entries@.len() ==> accepted_of(
                #[trigger] successes(outcomes_for(outs, i), registry.names()[i]),
            ).len() == 0,
    ensures
        accepted_of(gathered(registry.names(), outs, n)).len() == 0,
    decreases n,
{
    if n > 0 {
        lemma_gathered_none(registry, outs, (n - 1) as nat);
        let names = registry.names();
        lemma_accepted_concat(
            gathered(names, outs, (n - 1) as nat),
            successes(outcomes_for(outs, n - 1), names[n - 1]),
        );
    }
}

/// When each of N endpoints yields exactly one accepted observation, the
/// published batch holds N data points, the `i`-th named after the `i`-th
/// endpoint, with no name twice.
pub proof fn lemma_one_datum_per_endpoint(
    registry: Registry,
    outs: Seq<Vec<AttemptOutcome>>,
    now: Timestamp,
)
    requires
        registry.wf(),
        forall|i: int|
            0 <= i < registry.entries@.len() ==> accepted_of(
                #[trigger] successes(outcomes_for(outs, i), registry.names()[i]),
            ).len() == 1,
    ensures
        published_of(registry, outs, now).len() == registry.entries@.len(),
        forall|k: int|
            0 <= k < registry.entries@.len() ==> #[trigger] published_of(registry, outs, now)[k].metric_name
                == registry.entries@[k].name@,
        forall|a: int, b: int|
            0 <= a < b < registry.entries@.len() ==> published_of(registry, outs, now)[a].metric_name
                != published_of(registry, outs, now)[b].metric_name,
{
    lemma_gathered_one_each(registry, outs, registry.entries@.len());
    let p = published_of(registry, outs, now);
    assert forall|a: int, b: int| 0 <= a < b < registry.entries@.len() implies p[a].metric_name
        != p[b].metric_name by {
        assert(p[a].metric_name == registry.entries@[a].name@);
        assert(p[b].metric_name == registry.entries@[b].name@);
    }
}

proof fn lemma_gathered_one_each(registry: Registry, outs: Seq<Vec<AttemptOutcome>>, n: nat)
    requires
        n <= registry.entries@.len(),
        forall|i: int|
            0 <= i < registry.entries@.len() ==> accepted_of(
                #[trigger] successes(outcomes_for(outs, i), registry.names()[i]),
            ).len() == 1,
    ensures
        accepted_of(gathered(registry.names(), outs, n)).len() == n,
        forall|k: int|
            0 <= k < n ==> (#[trigger] accepted_of(gathered(registry.names(), outs, n))[k]).function_name
                == registry.entries@[k].name@,
    decreases n,
{
    if n > 0 {
        let names = registry.names();
        lemma_gathered_one_each(registry, outs, (n - 1) as nat);
        let prev = gathered(names, outs, (n - 1) as nat);
        let last = successes(outcomes_for(outs, n - 1), names[n - 1]);
        lemma_accepted_concat(prev, last);
        lemma_accepted_pass(last);
        lemma_successes_stamped(outcomes_for(outs, n - 1), names[n - 1]);
        let acc = accepted_of(gathered(names, outs, n));
        assert(acc == accepted_of(prev) + accepted_of(last));
        assert forall|k: int| 0 <= k < n implies (#[trigger] acc[k]).function_name
            == registry.entries@[k].name@ by {
            if k < n - 1 {
                assert(acc[k] == accepted_of(prev)[k]);
            } else {
                let x = accepted_of(last)[0];
                assert(acc[k] == x);
                let j = choose|j: int| 0 <= j < last.len() && last[j] == x;
                assert(last[j].function_name == names[n - 1]);
            }
        }
    }
}

} // verus!
