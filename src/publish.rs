//! Turning accepted observations into latency data points, and the one batch
//! that a cycle hands to the monitoring backend.
use vstd::prelude::*;

use crate::probe::views;
use crate::response::{FunctionResponse, ResponseView};

verus! {

/// A wall-clock instant: seconds since the Unix epoch and nanoseconds past that second.
#[derive(Clone, Copy, Debug, PartialEq, Eq, Structural)]
pub struct Timestamp {
    pub secs: i64,
    pub subsec_nanos: u32,
}

/// One latency data point.
#[derive(Debug)]
pub struct MetricDatum {
    /// The endpoint's name.
    pub metric_name: String,
    /// When the batch was built.
    pub timestamp: Timestamp,
    /// The request's latency in whole milliseconds.
    pub value_millis: u128,
    /// Always `Milliseconds`.
    pub unit: String,
}

/// Plain-value model of a `MetricDatum`.
pub struct DatumView {
    pub metric_name: Seq<char>,
    pub timestamp: Timestamp,
    pub value_millis: int,
    pub unit: Seq<char>,
}

impl View for MetricDatum {
    type V = DatumView;

    open spec fn view(&self) -> DatumView {
        DatumView {
            metric_name: self.metric_name@,
            timestamp: self.timestamp,
            value_millis: self.value_millis as int,
            unit: self.unit@,
        }
    }
}

/// The data point that an accepted observation becomes at instant `now`.
pub open spec fn datum_of(r: ResponseView, now: Timestamp) -> DatumView {
    DatumView {
        metric_name: r.function_name,
        timestamp: now,
        value_millis: r.request_duration.spec_millis(),
        unit: "Milliseconds"@,
    }
}

/// The data points for a batch of observations, one each, in order.
pub open spec fn data_of(s: Seq<ResponseView>, now: Timestamp) -> Seq<DatumView> {
    s.map_values(|r: ResponseView| datum_of(r, now))
}

/// The models of a sequence of data points.
pub open spec fn datum_views(s: Seq<MetricDatum>) -> Seq<DatumView> {
    s.map_values(|d: MetricDatum| d@)
}

/// What is submitted to the monitoring backend in one call.
#[derive(Debug)]
pub struct PublishRequest {
    /// The metric namespace, always `aj-local-metrics`.
    pub namespace: String,
    /// The backend's region, always `us-east-1`.
    pub region: String,
    pub metric_data: Vec<MetricDatum>,
}

/// The data point for one observation, stamped with `now`.
pub fn metric_datum(r: &FunctionResponse, now: Timestamp) -> (d: MetricDatum)
    ensures
        d@ == datum_of(r@, now),
{
    MetricDatum {
        metric_name: r.function_name.clone(),
        timestamp: now,
        value_millis: r.request_duration.as_millis(),
        unit: "Milliseconds".to_owned(),
    }
}

/// The data points for a batch of observations, one per observation, in order.
pub fn metric_data(batch: &Vec<FunctionResponse>, now: Timestamp) -> (r: Vec<MetricDatum>)
    ensures
        datum_views(r@) == data_of(views(batch@), now),
{
    let mut r: Vec<MetricDatum> = Vec::new();
    let mut i: usize = 0;
    while i < batch.len()
        invariant
            i <= batch.len(),
            r@.len() == i,
            datum_views(r@) == data_of(views(batch@.take(i as int)), now),
        decreases batch.len() - i,
    {
        let d = metric_datum(&batch[i], now);
        let ghost before = r@;
        r.push(d);
        assert forall|j: int| 0 <= j < i + 1 implies datum_views(r@)[j] == data_of(
            views(batch@.take(i + 1)),
            now,
        )[j] by {
            if j < i {
                assert(r@[j] == before[j]);
                assert(datum_views(before)[j] == data_of(views(batch@.take(i as int)), now)[j]);
            }
        }
        assert(batch@.take(i + 1)[i as int] == batch@[i as int]);
        assert(batch@.take(i + 1).drop_last() =~= batch@.take(i as int));
        assert(datum_views(r@) =~= data_of(views(batch@.take(i + 1)), now));
        i = i + 1;
    }
    assert(batch@.take(batch.len() as int) =~= batch@);
    r
}

/// The submission for a batch: none at all for an empty batch, else one
/// request under the fixed namespace and region holding a data point per
/// observation.
pub fn plan_publish(batch: &Vec<FunctionResponse>, now: Timestamp) -> (r: Option<PublishRequest>)
    ensures
        r is None <==> batch@.len() == 0,
        r matches Some(p) ==> {
            &&& p.namespace@ == "aj-local-metrics"@
            &&& p.region@ == "us-east-1"@
            &&& datum_views(p.metric_data@) == data_of(views(batch@), now)
        },
{
    if batch.len() == 0 {
        None
    } else {
        Some(
            PublishRequest {
                namespace: "aj-local-metrics".to_owned(),
                region: "us-east-1".to_owned(),
                metric_data: metric_data(batch, now),
            },
        )
    }
}

} // verus!
