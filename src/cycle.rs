//! One polling cycle: what to probe, and what the attempts' outcomes amount to.
use vstd::prelude::*;

use crate::aggregate::{accepted_of, classify, skipped_of, string_views};
use crate::probe::{collect_attempts, successes, views, AttemptOutcome, ATTEMPTS_PER_ENDPOINT};
use crate::publish::{data_of, datum_views, plan_publish, DatumView, PublishRequest, Timestamp};
use crate::registry::Registry;
use crate::response::{FunctionResponse, ResponseView};

verus! {

/// Seconds to wait after a cycle before the next one starts.
pub const CYCLE_INTERVAL_SECS: u64 = 900;

/// The attempts to make toward one endpoint in a cycle.
#[derive(Debug)]
pub struct ProbeRequest {
    pub name: String,
    pub url: String,
    pub attempts: u64,
}

/// One probe request per registered endpoint, in registry order, each for
/// the fixed number of concurrent attempts.
pub fn plan_probes(registry: &Registry) -> (r: Vec<ProbeRequest>)
    ensures
        r@.len() == registry.entries@.len(),
        forall|i: int|
            0 <= i < r@.len() ==> {
                &&& #[trigger] r@[i].name@ == registry.entries@[i].name@
                &&& r@[i].url@ == registry.entries@[i].url@
                &&& r@[i].attempts == ATTEMPTS_PER_ENDPOINT
            },
{
    let mut r: Vec<ProbeRequest> = Vec::new();
    let mut i: usize = 0;
    while i < registry.entries.len()
        invariant
            i <= registry.entries@.len(),
            r@.len() == i,
            forall|j: int|
                0 <= j < i ==> {
                    &&& #[trigger] r@[j].name@ == registry.entries@[j].name@
                    &&& r@[j].url@ == registry.entries@[j].url@
                    &&& r@[j].attempts == ATTEMPTS_PER_ENDPOINT
                },
        decreases registry.entries@.len() - i,
    {
        let e = &registry.entries[i];
        r.push(
            ProbeRequest {
                name: e.name.clone(),
                url: e.url.clone(),
                attempts: ATTEMPTS_PER_ENDPOINT,
            },
        );
        i = i + 1;
    }
    r
}

/// The attempt outcomes reported for the endpoint at position `i`; an
/// endpoint for which none were reported has none.
pub open spec fn outcomes_for(outs: Seq<Vec<AttemptOutcome>>, i: int) -> Seq<AttemptOutcome> {
    if 0 <= i < outs.len() {
        outs[i]@
    } else {
        Seq::empty()
    }
}

/// The responses gathered from the first `n` endpoints, endpoint by endpoint.
pub open spec fn gathered(names: Seq<Seq<char>>, outs: Seq<Vec<AttemptOutcome>>, n: nat) -> Seq<
    ResponseView,
>
    decreases n,
{
    if n == 0 {
        Seq::empty()
    } else {
        gathered(names, outs, (n - 1) as nat) + successes(
            outcomes_for(outs, n - 1),
            names[n - 1],
        )
    }
}

/// All responses of a cycle over `registry`, where `outs[i]` holds the
/// outcomes of the attempts toward the `i`-th endpoint.
pub open spec fn cycle_responses(registry: Registry, outs: Seq<Vec<AttemptOutcome>>) -> Seq<
    ResponseView,
> {
    gathered(registry.names(), outs, registry.entries@.len())
}

/// The data points that a cycle publishes, stamped with `now`.
pub open spec fn published_of(
    registry: Registry,
    outs: Seq<Vec<AttemptOutcome>>,
    now: Timestamp,
) -> Seq<DatumView> {
    data_of(accepted_of(cycle_responses(registry, outs)), now)
}

/// Collects the responses of every endpoint's completed attempts, endpoint by
/// endpoint, each stamped with its endpoint's name.
pub fn gather(registry: &Registry, outcomes: &Vec<Vec<AttemptOutcome>>) -> (r: Vec<
    FunctionResponse,
>)
    ensures
        views(r@) == cycle_responses(*registry, outcomes@),
{
    let mut r: Vec<FunctionResponse> = Vec::new();
    let mut i: usize = 0;
    let empty: Vec<AttemptOutcome> = Vec::new();
    while i < registry.entries.len()
        invariant
            i <= registry.entries@.len(),
            empty@.len() == 0,
            views(r@) == gathered(registry.names(), outcomes@, i as nat),
        decreases registry.entries@.len() - i,
    {
        let outs = if i < outcomes.len() {
            &outcomes[i]
        } else {
            &empty
        };
        assert(outs@ == outcomes_for(outcomes@, i as int));
        let mut got = collect_attempts(&registry.entries[i].name, outs);
        let ghost before = r@;
        let ghost added = got@;
        r.append(&mut got);
        assert(r@ == before + added);
        assert(views(r@) =~= views(before) + views(added));
        i = i + 1;
    }
    r
}

/// What a cycle amounts to once every attempt has come back.
#[derive(Debug)]
pub struct CycleReport {
    /// For each response that was not an accepted cold start, its endpoint's name.
    pub skipped: Vec<String>,
    /// The batch to submit, or none when nothing was accepted.
    pub publish: Option<PublishRequest>,
}

/// Decides a cycle over `registry` from the attempts' outcomes (`outcomes[i]`
/// for the `i`-th endpoint): which responses are skipped, and whether and
/// what to publish, with data points stamped `now`.
pub fn run_cycle(registry: &Registry, outcomes: &Vec<Vec<AttemptOutcome>>, now: Timestamp) -> (r:
    CycleReport)
    ensures
        string_views(r.skipped@) == skipped_of(cycle_responses(*registry, outcomes@)),
        r.publish is None <==> accepted_of(cycle_responses(*registry, outcomes@)).len() == 0,
        r.publish matches Some(p) ==> {
            &&& p.namespace@ == "aj-local-metrics"@
            &&& p.region@ == "us-east-1"@
            &&& datum_views(p.metric_data@) == published_of(*registry, outcomes@, now)
        },
{
    let responses = gather(registry, outcomes);
    let classified = classify(&responses);
    let publish = plan_publish(&classified.accepted, now);
    CycleReport { skipped: classified.skipped, publish }
}

} // verus!
