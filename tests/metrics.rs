use telemetry_metrics::collections::{
    AggregatedCollectionTelemetry, CollectionTelemetry, CollectionTelemetryEnum,
    CollectionsTelemetry, LocalShardTelemetry, ReplicaSetTelemetry, ReplicaState,
};
use telemetry_metrics::domains::{
    AppBuildTelemetry, AppFeaturesTelemetry, ClusterStatusTelemetry, ClusterTelemetry,
    HardwareTelemetry, HardwareUsage, LimitValue, MemoryTelemetry, ProcFsMetrics,
};
use telemetry_metrics::duration::{
    micros_to_seconds, Decimal, OperationDurationMetricsBuilder, OperationDurationStatistics,
};
use telemetry_metrics::metric::{metric_family, MetricFamily, MetricKind, Number, Sample, Value};
use telemetry_metrics::requests::{GrpcTelemetry, RequestsTelemetry, WebApiTelemetry};
use telemetry_metrics::snapshot::{MetricsData, TelemetryData};
use telemetry_metrics::text::split_once_space;
use telemetry_metrics::whitelist::{
    compare_str, contains_sorted, grpc_endpoint_whitelist, rest_endpoint_whitelist,
};

fn stats(count: usize) -> OperationDurationStatistics {
    OperationDurationStatistics {
        count,
        fail_count: None,
        avg_duration_micros: None,
        min_duration_micros: None,
        max_duration_micros: None,
        total_duration_micros: None,
        duration_micros_histogram: vec![],
    }
}

fn micros(n: u64) -> Decimal {
    Decimal { mantissa: n, scale: 0 }
}

fn as_f64(n: Number) -> f64 {
    n.mantissa as f64 / 10f64.powi(n.scale as i32)
}

fn find<'a>(m: &'a [MetricFamily], name: &str) -> Option<&'a MetricFamily> {
    m.iter().find(|f| f.name == name)
}

fn labels(s: &Sample) -> Vec<(&str, &str)> {
    s.labels.iter().map(|(n, v)| (n.as_str(), v.as_str())).collect()
}

fn gauge_value(s: &Sample) -> f64 {
    match &s.value {
        Value::Gauge(n) => as_f64(*n),
        _ => panic!("not a gauge"),
    }
}

fn counter_value(s: &Sample) -> f64 {
    match &s.value {
        Value::Counter(n) => as_f64(*n),
        _ => panic!("not a counter"),
    }
}

fn single_gauge(m: &[MetricFamily], name: &str) -> f64 {
    let f = find(m, name).unwrap();
    assert_eq!(f.samples.len(), 1);
    gauge_value(&f.samples[0])
}

fn shard(states: Vec<ReplicaState>) -> ReplicaSetTelemetry {
    ReplicaSetTelemetry {
        replicate_states: states.into_iter().enumerate().map(|(i, s)| (i as u64, s)).collect(),
        local: None,
    }
}

fn collection(id: &str, points: usize, shards: Vec<ReplicaSetTelemetry>) -> CollectionTelemetry {
    CollectionTelemetry {
        id: id.to_string(),
        optimizers_running: 0,
        points,
        points_per_vector: vec![],
        shards,
    }
}

fn collections(entries: Vec<Option<CollectionTelemetryEnum>>) -> CollectionsTelemetry {
    CollectionsTelemetry { number_of_collections: entries.len(), collections: entries }
}

fn app() -> AppBuildTelemetry {
    AppBuildTelemetry {
        name: "qdrant".to_string(),
        version: "1.0.0".to_string(),
        features: Some(AppFeaturesTelemetry { recovery_mode: false }),
    }
}

fn snapshot(c: CollectionsTelemetry) -> TelemetryData {
    TelemetryData {
        app: app(),
        collections: c,
        cluster: None,
        requests: None,
        hardware: None,
        memory: None,
    }
}

fn project(c: CollectionsTelemetry) -> Vec<MetricFamily> {
    let mut m = vec![];
    assert!(c.sums_fit());
    c.add_metrics(&mut m, None);
    m
}

fn names(m: &[MetricFamily]) -> Vec<&str> {
    m.iter().map(|f| f.name.as_str()).collect()
}

#[test]
fn test_endpoint_whitelists_sorted() {
    let rest = rest_endpoint_whitelist();
    let grpc = grpc_endpoint_whitelist();
    assert!(
        rest.windows(2).all(|n| n[0] <= n[1]),
        "REST_ENDPOINT_WHITELIST must be sorted in code to allow binary search"
    );
    assert!(
        grpc.windows(2).all(|n| n[0] <= n[1]),
        "GRPC_ENDPOINT_WHITELIST must be sorted in code to allow binary search"
    );
}

#[test]
fn whitelist_membership_by_binary_search() {
    let rest = rest_endpoint_whitelist();
    for e in &rest {
        assert!(contains_sorted(&rest, e));
    }
    assert!(contains_sorted(&rest, "/collections/{name}/points/search"));
    assert!(!contains_sorted(&rest, "/collections/{name}/points/searc"));
    assert!(!contains_sorted(&rest, "/collections/{name}/snapshots"));
    assert!(!contains_sorted(&rest, ""));
    let grpc = grpc_endpoint_whitelist();
    assert!(contains_sorted(&grpc, "/qdrant.Points/Upsert"));
    assert!(!contains_sorted(&grpc, "/qdrant.Collections/List"));
}

#[test]
fn compare_str_orders_like_str() {
    assert_eq!(compare_str("abc", "abd"), -1);
    assert_eq!(compare_str("abd", "abc"), 1);
    assert_eq!(compare_str("ab", "abc"), -1);
    assert_eq!(compare_str("abc", "abc"), 0);
    assert_eq!(compare_str("", ""), 0);
}

#[test]
fn split_at_first_space() {
    assert_eq!(split_once_space("GET /a b"), Some(("GET", "/a b")));
    assert_eq!(split_once_space("nospace"), None);
    assert_eq!(split_once_space(" x"), Some(("", "x")));
}

#[test]
fn resharding_scale_down_is_active() {
    assert!(ReplicaState::ReshardingScaleDown.is_active());
    assert!(ReplicaState::Active.is_active());
    assert!(!ReplicaState::Resharding.is_active());
    assert!(!ReplicaState::Dead.is_active());
    assert!(!ReplicaState::Partial.is_active());
    assert!(!ReplicaState::Initializing.is_active());
    assert!(!ReplicaState::Listener.is_active());
    assert!(!ReplicaState::PartialSnapshot.is_active());
    assert!(!ReplicaState::Recovery.is_active());
}

#[test]
fn no_collections_bounds_are_zero() {
    let m = project(collections(vec![]));
    assert_eq!(single_gauge(&m, "active_replicas_min"), 0.0);
    assert_eq!(single_gauge(&m, "active_replicas_max"), 0.0);
    assert_eq!(single_gauge(&m, "dead_shards_total"), 0.0);
    assert!(find(&m, "collection_points").is_none());
}

#[test]
fn only_aggregated_or_missing_bounds_are_zero() {
    let m = project(collections(vec![
        None,
        Some(CollectionTelemetryEnum::Aggregated(AggregatedCollectionTelemetry {
            id: "B".to_string(),
        })),
    ]));
    assert_eq!(single_gauge(&m, "active_replicas_min"), 0.0);
    assert_eq!(single_gauge(&m, "active_replicas_max"), 0.0);
    assert_eq!(single_gauge(&m, "collections_total"), 2.0);
}

#[test]
fn upscale_shard_left_out_of_bounds() {
    let c = collection(
        "A",
        1,
        vec![
            shard(vec![ReplicaState::Active, ReplicaState::Active, ReplicaState::Active]),
            shard(vec![ReplicaState::Active, ReplicaState::Resharding]),
            shard(vec![ReplicaState::Active, ReplicaState::ReshardingScaleDown, ReplicaState::Dead]),
        ],
    );
    let m = project(collections(vec![Some(CollectionTelemetryEnum::Full(c))]));
    assert_eq!(single_gauge(&m, "active_replicas_min"), 2.0);
    assert_eq!(single_gauge(&m, "active_replicas_max"), 3.0);
    // dead shards ignore the upscale rule: the resharding shard counts as dead too
    assert_eq!(single_gauge(&m, "dead_shards_total"), 2.0);
}

#[test]
fn only_upscale_shards_bounds_are_zero() {
    let c = collection("A", 1, vec![shard(vec![ReplicaState::Resharding, ReplicaState::Active])]);
    let m = project(collections(vec![Some(CollectionTelemetryEnum::Full(c))]));
    assert_eq!(single_gauge(&m, "active_replicas_min"), 0.0);
    assert_eq!(single_gauge(&m, "active_replicas_max"), 0.0);
}

#[test]
fn bounds_span_collections() {
    let a = collection("A", 1, vec![shard(vec![ReplicaState::Active, ReplicaState::Active]), shard(vec![ReplicaState::Active, ReplicaState::Active])]);
    let b = collection("B", 1, vec![shard(vec![ReplicaState::Active]), shard(vec![ReplicaState::Active, ReplicaState::Active, ReplicaState::Active, ReplicaState::Active])]);
    let m = project(collections(vec![
        Some(CollectionTelemetryEnum::Full(a)),
        Some(CollectionTelemetryEnum::Full(b)),
    ]));
    assert_eq!(single_gauge(&m, "active_replicas_min"), 1.0);
    assert_eq!(single_gauge(&m, "active_replicas_max"), 4.0);
}

#[test]
fn points_per_collection_full_only() {
    let a = collection("A", 10, vec![]);
    let m = project(collections(vec![
        Some(CollectionTelemetryEnum::Full(a)),
        Some(CollectionTelemetryEnum::Aggregated(AggregatedCollectionTelemetry {
            id: "B".to_string(),
        })),
    ]));
    let f = find(&m, "collection_points").unwrap();
    assert_eq!(f.kind, MetricKind::Gauge);
    assert_eq!(f.samples.len(), 1);
    assert_eq!(labels(&f.samples[0]), vec![("id", "A")]);
    assert_eq!(gauge_value(&f.samples[0]), 10.0);
}

#[test]
fn collection_family_order() {
    let mut a = collection("A", 3, vec![]);
    a.points_per_vector = vec![("dense".to_string(), 3)];
    let m = project(collections(vec![Some(CollectionTelemetryEnum::Full(a))]));
    assert_eq!(
        names(&m),
        vec![
            "collections_total",
            "collection_vectors_total",
            "active_replicas_min",
            "active_replicas_max",
            "optimizer_running_processes",
            "collection_points",
            "dead_shards_total",
        ]
    );
}

#[test]
fn vectors_per_name() {
    let mut a = collection("A", 5, vec![]);
    a.points_per_vector = vec![("dense".to_string(), 5), ("sparse".to_string(), 2)];
    let m = project(collections(vec![Some(CollectionTelemetryEnum::Full(a))]));
    let f = find(&m, "collection_vectors_total").unwrap();
    assert_eq!(f.samples.len(), 2);
    assert_eq!(labels(&f.samples[0]), vec![("collection", "A"), ("vector", "dense")]);
    assert_eq!(gauge_value(&f.samples[0]), 5.0);
    assert_eq!(labels(&f.samples[1]), vec![("collection", "A"), ("vector", "sparse")]);
    assert_eq!(gauge_value(&f.samples[1]), 2.0);
}

#[test]
fn optimizers_summed() {
    let mut a = collection("A", 0, vec![]);
    a.optimizers_running = 2;
    let mut b = collection("B", 0, vec![]);
    b.optimizers_running = 3;
    let m = project(collections(vec![
        Some(CollectionTelemetryEnum::Full(a)),
        Some(CollectionTelemetryEnum::Full(b)),
    ]));
    assert_eq!(single_gauge(&m, "optimizer_running_processes"), 5.0);
}

#[test]
fn indexed_only_excluded_summed_per_name() {
    let mut s1 = shard(vec![ReplicaState::Active]);
    s1.local = Some(LocalShardTelemetry {
        indexed_only_excluded_vectors: Some(vec![("a".to_string(), 2), ("b".to_string(), 3)]),
    });
    let mut s2 = shard(vec![ReplicaState::Active]);
    s2.local = Some(LocalShardTelemetry {
        indexed_only_excluded_vectors: Some(vec![("a".to_string(), 5)]),
    });
    let mut s3 = shard(vec![ReplicaState::Active]);
    s3.local = Some(LocalShardTelemetry { indexed_only_excluded_vectors: None });
    let c = collection("C", 0, vec![s1, s2, s3]);
    let m = project(collections(vec![Some(CollectionTelemetryEnum::Full(c))]));
    let f = find(&m, "collection_indexed_only_excluded_points").unwrap();
    assert_eq!(f.samples.len(), 2);
    assert_eq!(labels(&f.samples[0]), vec![("id", "C"), ("vector", "a")]);
    assert_eq!(gauge_value(&f.samples[0]), 7.0);
    assert_eq!(labels(&f.samples[1]), vec![("id", "C"), ("vector", "b")]);
    assert_eq!(gauge_value(&f.samples[1]), 3.0);
}

#[test]
fn no_exclusions_no_family() {
    let c = collection("C", 0, vec![shard(vec![ReplicaState::Active])]);
    let m = project(collections(vec![Some(CollectionTelemetryEnum::Full(c))]));
    assert!(find(&m, "collection_indexed_only_excluded_points").is_none());
    assert!(find(&m, "collection_vectors_total").is_none());
}

#[test]
fn sums_that_overflow_are_detected() {
    let mut a = collection("A", 0, vec![]);
    a.optimizers_running = usize::MAX;
    let mut b = collection("B", 0, vec![]);
    b.optimizers_running = 1;
    let c = collections(vec![
        Some(CollectionTelemetryEnum::Full(a)),
        Some(CollectionTelemetryEnum::Full(b)),
    ]);
    assert!(!c.sums_fit());
    let mut s1 = shard(vec![]);
    s1.local = Some(LocalShardTelemetry {
        indexed_only_excluded_vectors: Some(vec![("a".to_string(), usize::MAX), ("b".to_string(), 1)]),
    });
    let c = collections(vec![Some(CollectionTelemetryEnum::Full(collection("C", 0, vec![s1])))]);
    assert!(!c.sums_fit());
}

#[test]
fn avg_duration_in_seconds() {
    let mut s = stats(1);
    s.avg_duration_micros = Some(micros(2_500_000));
    let mut b = OperationDurationMetricsBuilder::new();
    b.add(&s, &[("endpoint", "x")], true);
    assert_eq!(b.avg_secs.len(), 1);
    match &b.avg_secs[0].value {
        Value::Gauge(n) => {
            assert_eq!(*n, Number { mantissa: 2_500_000, scale: 6 });
            assert_eq!(as_f64(*n), 2.5);
        }
        _ => panic!("not a gauge"),
    }
}

#[test]
fn micros_to_seconds_moves_point() {
    assert_eq!(micros_to_seconds(Decimal { mantissa: 15, scale: 1 }), Number { mantissa: 15, scale: 7 });
    assert_eq!(as_f64(micros_to_seconds(micros(1000))), 0.001);
}

#[test]
fn missing_timings_default_to_zero() {
    let s = stats(4);
    let mut b = OperationDurationMetricsBuilder::new();
    b.add(&s, &[], true);
    assert_eq!(counter_value(&b.fail_total[0]), 0.0);
    assert_eq!(counter_value(&b.total[0]), 4.0);
    assert_eq!(gauge_value(&b.min_secs[0]), 0.0);
    assert_eq!(gauge_value(&b.max_secs[0]), 0.0);
    match &b.duration_histogram_secs[0].value {
        Value::Histogram { sample_count, sample_sum, buckets } => {
            assert_eq!(*sample_count, 4);
            assert_eq!(as_f64(*sample_sum), 0.0);
            assert!(buckets.is_empty());
        }
        _ => panic!("not a histogram"),
    }
}

#[test]
fn histogram_in_seconds() {
    let mut s = stats(3);
    s.fail_count = Some(1);
    s.total_duration_micros = Some(4_000_000);
    s.min_duration_micros = Some(Decimal { mantissa: 5, scale: 1 });
    s.max_duration_micros = Some(micros(3_000_000));
    s.duration_micros_histogram = vec![(micros(1000), 1), (micros(2_000_000), 3)];
    let mut b = OperationDurationMetricsBuilder::new();
    b.add(&s, &[("endpoint", "x")], true);
    assert_eq!(counter_value(&b.fail_total[0]), 1.0);
    assert_eq!(gauge_value(&b.min_secs[0]), 0.0000005);
    assert_eq!(gauge_value(&b.max_secs[0]), 3.0);
    match &b.duration_histogram_secs[0].value {
        Value::Histogram { sample_count, sample_sum, buckets } => {
            assert_eq!(*sample_count, 3);
            assert_eq!(as_f64(*sample_sum), 4.0);
            assert_eq!(buckets.len(), 2);
            assert_eq!(as_f64(buckets[0].0), 0.001);
            assert_eq!(buckets[0].1, 1);
            assert_eq!(as_f64(buckets[1].0), 2.0);
            assert_eq!(buckets[1].1, 3);
        }
        _ => panic!("not a histogram"),
    }
}

#[test]
fn builder_without_timings() {
    let mut b = OperationDurationMetricsBuilder::new();
    b.add(&stats(2), &[("a", "b")], false);
    let mut m = vec![];
    b.build(Some("p_"), "rest", &mut m);
    assert_eq!(names(&m), vec!["p_rest_responses_total", "p_rest_responses_fail_total"]);
    assert_eq!(labels(&m[0].samples[0]), vec![("a", "b")]);
}

#[test]
fn empty_builder_builds_nothing() {
    let b = OperationDurationMetricsBuilder::default();
    let mut m = vec![];
    b.build(None, "grpc", &mut m);
    assert!(m.is_empty());
}

#[test]
fn builder_prefix_without_global() {
    let mut b = OperationDurationMetricsBuilder::new();
    b.add(&stats(1), &[], true);
    let mut m = vec![];
    b.build(None, "grpc", &mut m);
    assert_eq!(
        names(&m),
        vec![
            "grpcresponses_total",
            "grpcresponses_fail_total",
            "grpcresponses_avg_duration_seconds",
            "grpcresponses_min_duration_seconds",
            "grpcresponses_max_duration_seconds",
            "grpcresponses_duration_seconds",
        ]
    );
    assert_eq!(m[5].kind, MetricKind::Histogram);
}

fn rest(entries: Vec<(&str, Vec<(u16, OperationDurationStatistics)>)>) -> WebApiTelemetry {
    WebApiTelemetry {
        responses: entries.into_iter().map(|(k, v)| (k.to_string(), v)).collect(),
    }
}

#[test]
fn rest_search_endpoint_projected() {
    let web = rest(vec![
        ("GET /collections/{name}/points/search", vec![(200, stats(5))]),
        ("GET /collections/{name}/secret", vec![(200, stats(7))]),
    ]);
    let mut m = vec![];
    web.add_metrics(&mut m, Some("qdrant_"));
    let f = find(&m, "qdrant_rest_responses_total").unwrap();
    assert_eq!(f.kind, MetricKind::Counter);
    assert_eq!(f.samples.len(), 1);
    assert_eq!(
        labels(&f.samples[0]),
        vec![("method", "GET"), ("endpoint", "/collections/{name}/points/search"), ("status", "200")]
    );
    assert_eq!(counter_value(&f.samples[0]), 5.0);
    assert!(find(&m, "qdrant_rest_responses_avg_duration_seconds").is_some());
    assert!(find(&m, "qdrant_rest_responses_duration_seconds").is_some());
    for fam in &m {
        for s in &fam.samples {
            assert!(!labels(s).contains(&("endpoint", "/collections/{name}/secret")));
        }
    }
}

#[test]
fn rest_non_success_has_no_timings() {
    let web = rest(vec![(
        "POST /collections/{name}/points/query",
        vec![(404, stats(2)), (200, stats(3))],
    )]);
    let mut m = vec![];
    web.add_metrics(&mut m, None);
    let total = find(&m, "restresponses_total").unwrap();
    assert_eq!(total.samples.len(), 2);
    assert_eq!(labels(&total.samples[0])[2], ("status", "404"));
    assert_eq!(find(&m, "restresponses_fail_total").unwrap().samples.len(), 2);
    let avg = find(&m, "restresponses_avg_duration_seconds").unwrap();
    assert_eq!(avg.samples.len(), 1);
    assert_eq!(labels(&avg.samples[0])[2], ("status", "200"));
    assert_eq!(find(&m, "restresponses_duration_seconds").unwrap().samples.len(), 1);

    let only_errors = rest(vec![("GET /collections/{name}/points", vec![(500, stats(1))])]);
    let mut m = vec![];
    only_errors.add_metrics(&mut m, None);
    assert_eq!(names(&m), vec!["restresponses_total", "restresponses_fail_total"]);
}

#[test]
fn malformed_rest_key_dropped() {
    let web = rest(vec![("/collections/{name}/points/search", vec![(200, stats(1))])]);
    let mut m = vec![];
    web.add_metrics(&mut m, None);
    assert!(m.is_empty());
}

#[test]
fn grpc_whitelisted_only() {
    let grpc = GrpcTelemetry {
        responses: vec![
            ("/qdrant.Points/Search".to_string(), stats(4)),
            ("/qdrant.Collections/Get".to_string(), stats(9)),
        ],
    };
    let mut m = vec![];
    grpc.add_metrics(&mut m, Some("q_"));
    let f = find(&m, "q_grpc_responses_total").unwrap();
    assert_eq!(f.samples.len(), 1);
    assert_eq!(labels(&f.samples[0]), vec![("endpoint", "/qdrant.Points/Search")]);
    assert_eq!(counter_value(&f.samples[0]), 4.0);
    assert_eq!(m.len(), 6);
}

#[test]
fn requests_rest_then_grpc() {
    let r = RequestsTelemetry {
        rest: rest(vec![("PUT /collections/{name}/points", vec![(200, stats(1))])]),
        grpc: GrpcTelemetry { responses: vec![("/qdrant.Points/Upsert".to_string(), stats(1))] },
    };
    let mut m = vec![];
    r.add_metrics(&mut m, None);
    assert_eq!(m.len(), 12);
    assert_eq!(m[0].name, "restresponses_total");
    assert_eq!(m[6].name, "grpcresponses_total");
}

#[test]
fn hardware_empty_no_families() {
    let h = HardwareTelemetry { collection_data: vec![] };
    let mut m = vec![];
    h.add_metrics(&mut m, None);
    assert!(m.is_empty());
}

#[test]
fn hardware_counters_per_collection() {
    let usage = HardwareUsage {
        cpu: 1,
        payload_io_read: 2,
        payload_io_write: 3,
        payload_index_io_read: 4,
        payload_index_io_write: 5,
        vector_io_read: 6,
        vector_io_write: 7,
    };
    let h = HardwareTelemetry { collection_data: vec![("A".to_string(), usage)] };
    let mut m = vec![];
    h.add_metrics(&mut m, None);
    assert_eq!(m.len(), 7);
    let expected = [
        ("collection_hardware_metric_cpu", 1.0),
        ("collection_hardware_metric_payload_io_read", 2.0),
        ("collection_hardware_metric_payload_index_io_read", 4.0),
        ("collection_hardware_metric_payload_index_io_write", 5.0),
        ("collection_hardware_metric_payload_io_write", 3.0),
        ("collection_hardware_metric_vector_io_read", 6.0),
        ("collection_hardware_metric_vector_io_write", 7.0),
    ];
    for (f, (name, v)) in m.iter().zip(expected.iter()) {
        assert_eq!(f.name, *name);
        assert_eq!(f.kind, MetricKind::Counter);
        assert_eq!(labels(&f.samples[0]), vec![("id", "A")]);
        assert_eq!(counter_value(&f.samples[0]), *v);
    }
}

#[test]
fn cluster_with_peer_id() {
    let c = ClusterTelemetry {
        enabled: true,
        status: Some(ClusterStatusTelemetry {
            number_of_peers: 3,
            term: 7,
            commit: 42,
            pending_operations: 1,
            is_voter: true,
            peer_id: Some(1234),
        }),
    };
    let mut m = vec![];
    c.add_metrics(&mut m, None);
    assert_eq!(
        names(&m),
        vec![
            "cluster_enabled",
            "cluster_peers_total",
            "cluster_term",
            "cluster_commit",
            "cluster_pending_operations_total",
            "cluster_voter",
        ]
    );
    assert_eq!(single_gauge(&m, "cluster_enabled"), 1.0);
    let commit = find(&m, "cluster_commit").unwrap();
    assert_eq!(labels(&commit.samples[0]), vec![("peer_id", "1234")]);
    assert_eq!(counter_value(&commit.samples[0]), 42.0);
    assert_eq!(counter_value(&find(&m, "cluster_term").unwrap().samples[0]), 7.0);
    assert_eq!(single_gauge(&m, "cluster_voter"), 1.0);
}

#[test]
fn cluster_without_peer_id_or_status() {
    let c = ClusterTelemetry {
        enabled: false,
        status: Some(ClusterStatusTelemetry {
            number_of_peers: 1,
            term: 0,
            commit: 0,
            pending_operations: 0,
            is_voter: false,
            peer_id: None,
        }),
    };
    let mut m = vec![];
    c.add_metrics(&mut m, None);
    assert_eq!(names(&m), vec!["cluster_enabled", "cluster_peers_total", "cluster_term"]);
    assert_eq!(single_gauge(&m, "cluster_enabled"), 0.0);
    let c = ClusterTelemetry { enabled: true, status: None };
    let mut m = vec![];
    c.add_metrics(&mut m, None);
    assert_eq!(names(&m), vec!["cluster_enabled"]);
}

#[test]
fn app_info_and_recovery_mode() {
    let a = AppBuildTelemetry {
        name: "qdrant".to_string(),
        version: "1.2.3".to_string(),
        features: Some(AppFeaturesTelemetry { recovery_mode: true }),
    };
    let mut m = vec![];
    a.add_metrics(&mut m, Some("x_"));
    assert_eq!(names(&m), vec!["x_app_info", "x_app_status_recovery_mode"]);
    assert_eq!(labels(&m[0].samples[0]), vec![("name", "qdrant"), ("version", "1.2.3")]);
    assert_eq!(gauge_value(&m[0].samples[0]), 1.0);
    assert_eq!(gauge_value(&m[1].samples[0]), 1.0);
}

#[test]
fn memory_gauges() {
    let mem = MemoryTelemetry {
        active_bytes: 1,
        allocated_bytes: 2,
        metadata_bytes: 3,
        resident_bytes: 4,
        retained_bytes: 5,
    };
    let mut m = vec![];
    mem.add_metrics(&mut m, None);
    assert_eq!(m.len(), 5);
    assert_eq!(single_gauge(&m, "memory_active_bytes"), 1.0);
    assert_eq!(single_gauge(&m, "memory_retained_bytes"), 5.0);
}

#[test]
fn process_metrics() {
    let p = ProcFsMetrics::new(10, 20, LimitValue::Unlimited, LimitValue::Value(4096), 1, 2, 3, 4);
    assert_eq!(p.max_fds_soft, 0);
    assert_eq!(p.max_fds_hard, 4096);
    let mut data = MetricsData::new_from_telemetry(snapshot(collections(vec![])), None);
    let before = data.metrics.len();
    data.add_process_metrics(&p, None);
    assert_eq!(data.metrics.len(), before + 8);
    assert_eq!(single_gauge(&data.metrics, "procfs_mmap_count"), 10.0);
    assert_eq!(single_gauge(&data.metrics, "procfs_hard_limit_fds"), 4096.0);
    assert_eq!(single_gauge(&data.metrics, "procfs_children_major_page_faults"), 4.0);
}

#[test]
fn snapshot_optional_subtrees() {
    let data = MetricsData::new_from_telemetry(snapshot(collections(vec![])), Some("qdrant_"));
    assert_eq!(data.metrics[0].name, "qdrant_app_info");
    assert!(data.metrics.iter().all(|f| f.name.starts_with("qdrant_")));
    assert!(find(&data.metrics, "qdrant_cluster_enabled").is_none());
    assert!(find(&data.metrics, "qdrant_memory_active_bytes").is_none());

    let mut t = snapshot(collections(vec![]));
    t.memory = Some(MemoryTelemetry {
        active_bytes: 0,
        allocated_bytes: 0,
        metadata_bytes: 0,
        resident_bytes: 0,
        retained_bytes: 0,
    });
    t.hardware = Some(HardwareTelemetry { collection_data: vec![] });
    t.cluster = Some(ClusterTelemetry { enabled: false, status: None });
    let data = MetricsData::new_from_telemetry(t, None);
    let n = names(&data.metrics);
    assert!(n.contains(&"cluster_enabled"));
    assert!(n.contains(&"memory_active_bytes"));
    assert!(!n.iter().any(|x| x.starts_with("collection_hardware")));
}

#[test]
fn family_name_prefix_has_no_separator() {
    let f = metric_family("total", "help", MetricKind::Gauge, vec![], Some("ab"));
    assert_eq!(f.name, "abtotal");
    let f = metric_family("total", "help", MetricKind::Gauge, vec![], None);
    assert_eq!(f.name, "total");
    assert_eq!(f.help, "help");
}
