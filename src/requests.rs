//! Request telemetry: REST and gRPC responses, filtered by the whitelists.
use vstd::prelude::*;

use crate::duration::{
    added, BuilderView, builder_families, collected, family_prefix, Observation, OperationDurationMetricsBuilder,
    OperationDurationStatistics,
};
use crate::metric::{families_view, labels_view, FamilyView, MetricFamily};
use crate::text::{decimal, decimal_string, split_at_space, split_once_space};
use crate::whitelist::{
    contains_sorted, grpc_endpoint_whitelist, grpc_whitelist, lemma_grpc_whitelist_sorted,
    lemma_rest_whitelist_sorted, rest_endpoint_whitelist, rest_whitelist, sorted, strs_view,
};

verus! {

/// Timings of REST responses are reported for this status only.
pub const REST_TIMINGS_FOR_STATUS: u16 = 200;

/// REST responses: per "METHOD /path" key (keys unique), the statistics per status code.
#[derive(Clone, Debug)]
pub struct WebApiTelemetry {
    pub responses: Vec<(String, Vec<(u16, OperationDurationStatistics)>)>,
}

/// gRPC responses: the statistics per full method name (names unique).
#[derive(Clone, Debug)]
pub struct GrpcTelemetry {
    pub responses: Vec<(String, OperationDurationStatistics)>,
}

#[derive(Clone, Debug)]
pub struct RequestsTelemetry {
    pub rest: WebApiTelemetry,
    pub grpc: GrpcTelemetry,
}

pub open spec fn rest_observation(
    method: Seq<char>,
    path: Seq<char>,
    status: u16,
    stat: OperationDurationStatistics,
) -> Observation {
    Observation {
        stat,
        labels: seq![("method"@, method), ("endpoint"@, path), ("status"@, decimal(status as nat))],
        timings: status == REST_TIMINGS_FOR_STATUS,
    }
}

/// The records of one REST key: one per status, when the key splits and its path is whitelisted.
pub open spec fn rest_key_observations(
    key: Seq<char>,
    rs: Seq<(u16, OperationDurationStatistics)>,
) -> Seq<Observation> {
    match split_at_space(key) {
        Some((method, path)) => if rest_whitelist().contains(path) {
            rs.map_values(
                |p: (u16, OperationDurationStatistics)| rest_observation(method, path, p.0, p.1),
            )
        } else {
            Seq::empty()
        },
        None => Seq::empty(),
    }
}

/// The records that REST telemetry hands to the builder, in order.
pub open spec fn rest_observations(
    es: Seq<(String, Vec<(u16, OperationDurationStatistics)>)>,
) -> Seq<Observation>
    decreases es.len(),
{
    if es.len() == 0 {
        Seq::empty()
    } else {
        rest_observations(es.drop_last()) + rest_key_observations(es.last().0@, es.last().1@)
    }
}

/// The records that gRPC telemetry hands to the builder: whitelisted methods, with timings.
pub open spec fn grpc_observations(es: Seq<(String, OperationDurationStatistics)>) -> Seq<
    Observation,
>
    decreases es.len(),
{
    if es.len() == 0 {
        Seq::empty()
    } else {
        let prev = grpc_observations(es.drop_last());
        if grpc_whitelist().contains(es.last().0@) {
            prev.push(
                Observation { stat: es.last().1, labels: seq![("endpoint"@, es.last().0@)], timings: true },
            )
        } else {
            prev
        }
    }
}

impl WebApiTelemetry {
    pub open spec fn families(&self, prefix: Option<&str>) -> Seq<FamilyView> {
        builder_families(collected(rest_observations(self.responses@)), family_prefix(prefix, "rest"@))
    }

    /// Appends the REST response families.
    pub fn add_metrics(&self, metrics: &mut Vec<MetricFamily>, prefix: Option<&str>)
        ensures
            families_view(final(metrics)@) == families_view(old(metrics)@) + self.families(prefix),
    {
        let mut builder = OperationDurationMetricsBuilder::new();
        let whitelist = rest_endpoint_whitelist();
        proof {
            lemma_rest_whitelist_sorted();
        }
        let ghost es = self.responses@;
        let ghost mut obs: Seq<Observation> = Seq::empty();
        let mut i: usize = 0;
        while i < self.responses.len()
            invariant
                es == self.responses@,
                i <= es.len(),
                obs == rest_observations(es.subrange(0, i as int)),
                builder@ == collected(obs),
                strs_view(whitelist@) == rest_whitelist(),
                sorted(rest_whitelist()),
            decreases es.len() - i,
        {
            proof {
                assert(es.subrange(0, i + 1).drop_last() == es.subrange(0, i as int));
            }
            let (endpoint, responses) = &self.responses[i];
            let ghost start = obs;
            let ghost key_obs = rest_key_observations(endpoint@, responses@);
            if let Some((method, path)) = split_once_space(endpoint.as_str()) {
                if contains_sorted(&whitelist, path) {
                    let mut k: usize = 0;
                    while k < responses.len()
                        invariant
                            k <= responses@.len(),
                            split_at_space(endpoint@) == Some((method@, path@)),
                            rest_whitelist().contains(path@),
                            key_obs == rest_key_observations(endpoint@, responses@),
                            obs == start + key_obs.subrange(0, k as int),
                            builder@ == collected(obs),
                        decreases responses@.len() - k,
                    {
                        let (status, stats) = &responses[k];
                        let status_text = decimal_string(*status as u64);
                        let labels = [
                            ("method", method),
                            ("endpoint", path),
                            ("status", status_text.as_str()),
                        ];
                        builder.add(stats, &labels, *status == REST_TIMINGS_FOR_STATUS);
                        proof {
                            let o = rest_observation(method@, path@, *status, *stats);
                            assert(labels_view(labels@) =~= o.labels);
                            assert(key_obs[k as int] == o);
                            assert(key_obs.subrange(0, k + 1) =~= key_obs.subrange(0, k as int).push(o));
                            assert((obs.push(o)).drop_last() =~= obs);
                            obs = obs.push(o);
                            assert(obs =~= start + key_obs.subrange(0, k + 1));
                        }
                        k += 1;
                    }
                    assert(key_obs.subrange(0, responses@.len() as int) =~= key_obs);
                } else {
                    assert(key_obs =~= Seq::<Observation>::empty());
                    assert(obs =~= start + key_obs);
                }
            } else {
                assert(key_obs =~= Seq::<Observation>::empty());
                assert(obs =~= start + key_obs);
            }
            i += 1;
        }
        assert(es.subrange(0, es.len() as int) == es);
        builder.build(prefix, "rest", metrics);
    }
}

impl GrpcTelemetry {
    pub open spec fn families(&self, prefix: Option<&str>) -> Seq<FamilyView> {
        builder_families(collected(grpc_observations(self.responses@)), family_prefix(prefix, "grpc"@))
    }

    /// Appends the gRPC response families.
    pub fn add_metrics(&self, metrics: &mut Vec<MetricFamily>, prefix: Option<&str>)
        ensures
            families_view(final(metrics)@) == families_view(old(metrics)@) + self.families(prefix),
    {
        let mut builder = OperationDurationMetricsBuilder::new();
        let whitelist = grpc_endpoint_whitelist();
        proof {
            lemma_grpc_whitelist_sorted();
        }
        let ghost es = self.responses@;
        let mut i: usize = 0;
        while i < self.responses.len()
            invariant
                es == self.responses@,
                i <= es.len(),
                builder@ == collected(grpc_observations(es.subrange(0, i as int))),
                strs_view(whitelist@) == grpc_whitelist(),
                sorted(grpc_whitelist()),
            decreases es.len() - i,
        {
            proof {
                assert(es.subrange(0, i + 1).drop_last() == es.subrange(0, i as int));
            }
            let (endpoint, stats) = &self.responses[i];
            if contains_sorted(&whitelist, endpoint.as_str()) {
                let labels = [("endpoint", endpoint.as_str())];
                builder.add(stats, &labels, true);
                proof {
                    let prev = grpc_observations(es.subrange(0, i as int));
                    let o = Observation { stat: *stats, labels: seq![("endpoint"@, endpoint@)], timings: true };
                    assert(labels_view(labels@) =~= o.labels);
                    assert(prev.push(o).drop_last() =~= prev);
                }
            }
            i += 1;
        }
        assert(es.subrange(0, es.len() as int) == es);
        builder.build(prefix, "grpc", metrics);
    }
}

impl RequestsTelemetry {
    pub open spec fn families(&self, prefix: Option<&str>) -> Seq<FamilyView> {
        self.rest.families(prefix) + self.grpc.families(prefix)
    }

    /// Appends the REST families, then the gRPC ones.
    pub fn add_metrics(&self, metrics: &mut Vec<MetricFamily>, prefix: Option<&str>)
        ensures
            families_view(final(metrics)@) == families_view(old(metrics)@) + self.families(prefix),
    {
        self.rest.add_metrics(metrics, prefix);
        self.grpc.add_metrics(metrics, prefix);
        assert(families_view(metrics@) =~= families_view(old(metrics)@) + self.families(prefix));
    }
}

/// A REST response whose status is not 200 adds a count and a fail-count sample and nothing
/// else: the average, minimum, maximum and histogram samples stay as they were.
pub proof fn lemma_rest_non_success_untimed(
    b: BuilderView,
    method: Seq<char>,
    path: Seq<char>,
    status: u16,
    stat: OperationDurationStatistics,
)
    requires
        status != REST_TIMINGS_FOR_STATUS,
    ensures
        ({
            let after = added(b, rest_observation(method, path, status, stat));
            &&& after.total.len() == b.total.len() + 1
            &&& after.fail_total.len() == b.fail_total.len() + 1
            &&& after.avg_secs == b.avg_secs
            &&& after.min_secs == b.min_secs
            &&& after.max_secs == b.max_secs
            &&& after.duration_histogram_secs == b.duration_histogram_secs
        }),
{
}

} // verus!
