//! Projection of a telemetry snapshot into flat, labelled metric families.
//!
//! Every number is exact: counts are whole numbers and durations are decimals, so a duration in
//! microseconds becomes seconds by moving the decimal point six places.
pub mod collections;
pub mod domains;
pub mod duration;
pub mod metric;
pub mod requests;
pub mod snapshot;
pub mod text;
pub mod whitelist;

pub use collections::{
    AggregatedCollectionTelemetry, CollectionTelemetry, CollectionTelemetryEnum,
    CollectionsTelemetry, LocalShardTelemetry, ReplicaSetTelemetry, ReplicaState,
};
pub use domains::{
    AppBuildTelemetry, AppFeaturesTelemetry, ClusterStatusTelemetry, ClusterTelemetry,
    HardwareCounter, HardwareTelemetry, HardwareUsage, LimitValue, MemoryTelemetry, ProcFsMetrics,
};
pub use duration::{Decimal, OperationDurationMetricsBuilder, OperationDurationStatistics};
pub use metric::{MetricFamily, MetricKind, Number, Sample, Value};
pub use requests::{GrpcTelemetry, RequestsTelemetry, WebApiTelemetry};
pub use snapshot::{MetricsData, TelemetryData};
pub use whitelist::{grpc_endpoint_whitelist, rest_endpoint_whitelist};
