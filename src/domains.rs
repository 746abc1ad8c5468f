//! Projectors of the smaller telemetry subtrees: application, cluster, memory, hardware and
//! process statistics.
use vstd::prelude::*;

use crate::duration::whole;
use crate::metric::{
    counter, counter_spec, families_view, family_spec, flag_gauge, gauge, gauge_spec, labels_view,
    metric_family, plain_gauge, prefix_of, push_family, push_gauge, samples_view, FamilyView,
    MetricFamily, MetricKind, Number, Sample, SampleView,
};
use crate::text::{decimal, decimal_string};

verus! {

pub struct AppFeaturesTelemetry {
    pub recovery_mode: bool,
}

pub struct AppBuildTelemetry {
    pub name: String,
    pub version: String,
    pub features: Option<AppFeaturesTelemetry>,
}

impl AppFeaturesTelemetry {
    pub open spec fn families(&self, prefix: Seq<char>) -> Seq<FamilyView> {
        seq![
            family_spec(
                "app_status_recovery_mode"@,
                "features enabled in qdrant server"@,
                MetricKind::Gauge,
                seq![flag_gauge(self.recovery_mode)],
                prefix,
            ),
        ]
    }

    /// Appends whether recovery mode is on.
    pub fn add_metrics(&self, metrics: &mut Vec<MetricFamily>, prefix: Option<&str>)
        ensures
            families_view(final(metrics)@) == families_view(old(metrics)@) + self.families(
                prefix_of(prefix),
            ),
    {
        push_gauge(
            metrics,
            "app_status_recovery_mode",
            "features enabled in qdrant server",
            if self.recovery_mode {
                1
            } else {
                0
            },
            prefix,
        );
        assert(families_view(metrics@) =~= families_view(old(metrics)@) + self.families(
            prefix_of(prefix),
        ));
    }
}

impl AppBuildTelemetry {
    pub open spec fn families(&self, prefix: Seq<char>) -> Seq<FamilyView> {
        seq![
            family_spec(
                "app_info"@,
                "information about qdrant server"@,
                MetricKind::Gauge,
                seq![gauge_spec(whole(1), seq![("name"@, self.name@), ("version"@, self.version@)])],
                prefix,
            ),
        ] + match self.features {
            Some(f) => f.families(prefix),
            None => Seq::empty(),
        }
    }

    /// Appends the build information, then the feature flags if known.
    pub fn add_metrics(&self, metrics: &mut Vec<MetricFamily>, prefix: Option<&str>)
        ensures
            families_view(final(metrics)@) == families_view(old(metrics)@) + self.families(
                prefix_of(prefix),
            ),
    {
        let labels = [("name", self.name.as_str()), ("version", self.version.as_str())];
        let g = gauge(Number::whole(1), &labels);
        assert(labels_view(labels@) =~= seq![("name"@, self.name@), ("version"@, self.version@)]);
        let samples = vec![g];
        assert(samples_view(samples@) =~= seq![g@]);
        let f = metric_family(
            "app_info",
            "information about qdrant server",
            MetricKind::Gauge,
            samples,
            prefix,
        );
        push_family(metrics, f);
        if let Some(features) = &self.features {
            features.add_metrics(metrics, prefix);
        }
        assert(families_view(metrics@) =~= families_view(old(metrics)@) + self.families(
            prefix_of(prefix),
        ));
    }
}

pub struct ClusterStatusTelemetry {
    pub number_of_peers: usize,
    pub term: u64,
    pub commit: u64,
    pub pending_operations: usize,
    pub is_voter: bool,
    pub peer_id: Option<u64>,
}

pub struct ClusterTelemetry {
    pub enabled: bool,
    pub status: Option<ClusterStatusTelemetry>,
}

impl ClusterStatusTelemetry {
    pub open spec fn families(&self, prefix: Seq<char>) -> Seq<FamilyView> {
        seq![
            family_spec(
                "cluster_peers_total"@,
                "total number of cluster peers"@,
                MetricKind::Gauge,
                seq![plain_gauge(self.number_of_peers as nat)],
                prefix,
            ),
            family_spec(
                "cluster_term"@,
                "current cluster term"@,
                MetricKind::Counter,
                seq![counter_spec(whole(self.term as nat), seq![])],
                prefix,
            ),
        ] + match self.peer_id {
            Some(id) => seq![
                family_spec(
                    "cluster_commit"@,
                    "index of last committed (finalized) operation cluster peer is aware of"@,
                    MetricKind::Counter,
                    seq![counter_spec(whole(self.commit as nat), seq![("peer_id"@, decimal(id as nat))])],
                    prefix,
                ),
                family_spec(
                    "cluster_pending_operations_total"@,
                    "total number of pending operations for cluster peer"@,
                    MetricKind::Gauge,
                    seq![plain_gauge(self.pending_operations as nat)],
                    prefix,
                ),
                family_spec(
                    "cluster_voter"@,
                    "is cluster peer a voter or learner"@,
                    MetricKind::Gauge,
                    seq![flag_gauge(self.is_voter)],
                    prefix,
                ),
            ],
            None => Seq::empty(),
        }
    }

    /// Appends peers and term; with a peer id, also commit, pending operations and voter flag.
    pub fn add_metrics(&self, metrics: &mut Vec<MetricFamily>, prefix: Option<&str>)
        ensures
            families_view(final(metrics)@) == families_view(old(metrics)@) + self.families(
                prefix_of(prefix),
            ),
    {
        push_gauge(
            metrics,
            "cluster_peers_total",
            "total number of cluster peers",
            self.number_of_peers as u64,
            prefix,
        );
        let c = counter(Number::whole(self.term), &[]);
        assert(c@.labels =~= Seq::<(Seq<char>, Seq<char>)>::empty());
        let samples = vec![c];
        assert(samples_view(samples@) =~= seq![c@]);
        let f = metric_family("cluster_term", "current cluster term", MetricKind::Counter, samples, prefix);
        push_family(metrics, f);
        if let Some(id) = self.peer_id {
            let id_text = decimal_string(id);
            let labels = [("peer_id", id_text.as_str())];
            let c = counter(Number::whole(self.commit), &labels);
            assert(labels_view(labels@) =~= seq![("peer_id"@, decimal(id as nat))]);
            let samples = vec![c];
            assert(samples_view(samples@) =~= seq![c@]);
            let f = metric_family(
                "cluster_commit",
                "index of last committed (finalized) operation cluster peer is aware of",
                MetricKind::Counter,
                samples,
                prefix,
            );
            push_family(metrics, f);
            push_gauge(
                metrics,
                "cluster_pending_operations_total",
                "total number of pending operations for cluster peer",
                self.pending_operations as u64,
                prefix,
            );
            push_gauge(
                metrics,
                "cluster_voter",
                "is cluster peer a voter or learner",
                if self.is_voter {
                    1
                } else {
                    0
                },
                prefix,
            );
        }
        assert(families_view(metrics@) =~= families_view(old(metrics)@) + self.families(
            prefix_of(prefix),
        ));
    }
}

impl ClusterTelemetry {
    pub open spec fn families(&self, prefix: Seq<char>) -> Seq<FamilyView> {
        seq![
            family_spec(
                "cluster_enabled"@,
                "is cluster support enabled"@,
                MetricKind::Gauge,
                seq![flag_gauge(self.enabled)],
                prefix,
            ),
        ] + match self.status {
            Some(s) => s.families(prefix),
            None => Seq::empty(),
        }
    }

    /// Appends whether clustering is on, then the status if known.
    pub fn add_metrics(&self, metrics: &mut Vec<MetricFamily>, prefix: Option<&str>)
        ensures
            families_view(final(metrics)@) == families_view(old(metrics)@) + self.families(
                prefix_of(prefix),
            ),
    {
        push_gauge(
            metrics,
            "cluster_enabled",
            "is cluster support enabled",
            if self.enabled {
                1
            } else {
                0
            },
            prefix,
        );
        if let Some(status) = &self.status {
            status.add_metrics(metrics, prefix);
        }
        assert(families_view(metrics@) =~= families_view(old(metrics)@) + self.families(
            prefix_of(prefix),
        ));
    }
}

pub struct MemoryTelemetry {
    pub active_bytes: usize,
    pub allocated_bytes: usize,
    pub metadata_bytes: usize,
    pub resident_bytes: usize,
    pub retained_bytes: usize,
}

impl MemoryTelemetry {
    pub open spec fn families(&self, prefix: Seq<char>) -> Seq<FamilyView> {
        seq![
            family_spec(
                "memory_active_bytes"@,
                "Total number of bytes in active pages allocated by the application"@,
                MetricKind::Gauge,
                seq![plain_gauge(self.active_bytes as nat)],
                prefix,
            ),
            family_spec(
                "memory_allocated_bytes"@,
                "Total number of bytes allocated by the application"@,
                MetricKind::Gauge,
                seq![plain_gauge(self.allocated_bytes as nat)],
                prefix,
            ),
            family_spec(
                "memory_metadata_bytes"@,
                "Total number of bytes dedicated to metadata"@,
                MetricKind::Gauge,
                seq![plain_gauge(self.metadata_bytes as nat)],
                prefix,
            ),
            family_spec(
                "memory_resident_bytes"@,
                "Maximum number of bytes in physically resident data pages mapped"@,
                MetricKind::Gauge,
                seq![plain_gauge(self.resident_bytes as nat)],
                prefix,
            ),
            family_spec(
                "memory_retained_bytes"@,
                "Total number of bytes in virtual memory mappings"@,
                MetricKind::Gauge,
                seq![plain_gauge(self.retained_bytes as nat)],
                prefix,
            ),
        ]
    }

    /// Appends the five memory gauges.
    pub fn add_metrics(&self, metrics: &mut Vec<MetricFamily>, prefix: Option<&str>)
        ensures
            families_view(final(metrics)@) == families_view(old(metrics)@) + self.families(
                prefix_of(prefix),
            ),
    {
        push_gauge(
            metrics,
            "memory_active_bytes",
            "Total number of bytes in active pages allocated by the application",
            self.active_bytes as u64,
            prefix,
        );
        push_gauge(
            metrics,
            "memory_allocated_bytes",
            "Total number of bytes allocated by the application",
            self.allocated_bytes as u64,
            prefix,
        );
        push_gauge(
            metrics,
            "memory_metadata_bytes",
            "Total number of bytes dedicated to metadata",
            self.metadata_bytes as u64,
            prefix,
        );
        push_gauge(
            metrics,
            "memory_resident_bytes",
            "Maximum number of bytes in physically resident data pages mapped",
            self.resident_bytes as u64,
            prefix,
        );
        push_gauge(
            metrics,
            "memory_retained_bytes",
            "Total number of bytes in virtual memory mappings",
            self.retained_bytes as u64,
            prefix,
        );
        assert(families_view(metrics@) =~= families_view(old(metrics)@) + self.families(
            prefix_of(prefix),
        ));
    }
}

/// Hardware usage counters of one collection.
#[derive(Clone, Copy, Debug)]
pub struct HardwareUsage {
    pub cpu: usize,
    pub payload_io_read: usize,
    pub payload_io_write: usize,
    pub payload_index_io_read: usize,
    pub payload_index_io_write: usize,
    pub vector_io_read: usize,
    pub vector_io_write: usize,
}

/// One of the hardware usage counters.
#[derive(Clone, Copy, PartialEq, Eq, Debug, Structural)]
pub enum HardwareCounter {
    Cpu,
    PayloadIoRead,
    PayloadIoWrite,
    PayloadIndexIoRead,
    PayloadIndexIoWrite,
    VectorIoRead,
    VectorIoWrite,
}

pub open spec fn counter_value(u: HardwareUsage, which: HardwareCounter) -> usize {
    match which {
        HardwareCounter::Cpu => u.cpu,
        HardwareCounter::PayloadIoRead => u.payload_io_read,
        HardwareCounter::PayloadIoWrite => u.payload_io_write,
        HardwareCounter::PayloadIndexIoRead => u.payload_index_io_read,
        HardwareCounter::PayloadIndexIoWrite => u.payload_index_io_write,
        HardwareCounter::VectorIoRead => u.vector_io_read,
        HardwareCounter::VectorIoWrite => u.vector_io_write,
    }
}

impl HardwareUsage {
    pub fn get(&self, which: HardwareCounter) -> (r: usize)
        ensures
            r == counter_value(*self, which),
    {
        match which {
            HardwareCounter::Cpu => self.cpu,
            HardwareCounter::PayloadIoRead => self.payload_io_read,
            HardwareCounter::PayloadIoWrite => self.payload_io_write,
            HardwareCounter::PayloadIndexIoRead => self.payload_index_io_read,
            HardwareCounter::PayloadIndexIoWrite => self.payload_index_io_write,
            HardwareCounter::VectorIoRead => self.vector_io_read,
            HardwareCounter::VectorIoWrite => self.vector_io_write,
        }
    }
}

/// Hardware usage per collection id (ids unique).
pub struct HardwareTelemetry {
    pub collection_data: Vec<(String, HardwareUsage)>,
}

/// One counter sample per collection, labelled by collection id.
pub open spec fn hardware_samples(data: Seq<(String, HardwareUsage)>, which: HardwareCounter) -> Seq<
    SampleView,
> {
    data.map_values(
        |p: (String, HardwareUsage)|
            counter_spec(whole(counter_value(p.1, which) as nat), seq![("id"@, p.0@)]),
    )
}

pub open spec fn hardware_family(
    data: Seq<(String, HardwareUsage)>,
    which: HardwareCounter,
    name: Seq<char>,
    help: Seq<char>,
    prefix: Seq<char>,
) -> FamilyView {
    family_spec(name, help, MetricKind::Counter, hardware_samples(data, which), prefix)
}

impl HardwareTelemetry {
    /// Nothing when no collection reported usage; else one counter family per usage kind.
    pub open spec fn families(&self, prefix: Seq<char>) -> Seq<FamilyView> {
        let d = self.collection_data@;
        if d.len() == 0 {
            Seq::empty()
        } else {
            seq![
                hardware_family(d, HardwareCounter::Cpu, "collection_hardware_metric_cpu"@,
                    "CPU measurements of a collection"@, prefix),
                hardware_family(d, HardwareCounter::PayloadIoRead,
                    "collection_hardware_metric_payload_io_read"@,
                    "Total IO payload read metrics of a collection"@, prefix),
                hardware_family(d, HardwareCounter::PayloadIndexIoRead,
                    "collection_hardware_metric_payload_index_io_read"@,
                    "Total IO payload index read metrics of a collection"@, prefix),
                hardware_family(d, HardwareCounter::PayloadIndexIoWrite,
                    "collection_hardware_metric_payload_index_io_write"@,
                    "Total IO payload index write metrics of a collection"@, prefix),
                hardware_family(d, HardwareCounter::PayloadIoWrite,
                    "collection_hardware_metric_payload_io_write"@,
                    "Total IO payload write metrics of a collection"@, prefix),
                hardware_family(d, HardwareCounter::VectorIoRead,
                    "collection_hardware_metric_vector_io_read"@,
                    "Total IO vector read metrics of a collection"@, prefix),
                hardware_family(d, HardwareCounter::VectorIoWrite,
                    "collection_hardware_metric_vector_io_write"@,
                    "Total IO vector write metrics of a collection"@, prefix),
            ]
        }
    }

    /// The samples of one usage kind.
    pub fn make_metric_counters(&self, which: HardwareCounter) -> (r: Vec<Sample>)
        ensures
            samples_view(r@) == hardware_samples(self.collection_data@, which),
    {
        let mut r: Vec<Sample> = Vec::new();
        let mut i: usize = 0;
        while i < self.collection_data.len()
            invariant
                i <= self.collection_data@.len(),
                samples_view(r@) == hardware_samples(self.collection_data@, which).subrange(
                    0,
                    i as int,
                ),
            decreases self.collection_data@.len() - i,
        {
            let (id, usage) = &self.collection_data[i];
            let labels = [("id", id.as_str())];
            let c = counter(Number::whole(usage.get(which) as u64), &labels);
            let ghost prev = r@;
            r.push(c);
            proof {
                assert(labels_view(labels@) =~= seq![("id"@, id@)]);
                assert(samples_view(r@) =~= samples_view(prev).push(c@));
                assert(hardware_samples(self.collection_data@, which).subrange(0, i + 1)
                    =~= hardware_samples(self.collection_data@, which).subrange(0, i as int).push(
                    c@,
                ));
            }
            i += 1;
        }
        assert(hardware_samples(self.collection_data@, which).subrange(
            0,
            self.collection_data@.len() as int,
        ) =~= hardware_samples(self.collection_data@, which));
        r
    }

    fn push_counter_family(
        &self,
        metrics: &mut Vec<MetricFamily>,
        which: HardwareCounter,
        name: &str,
        help: &str,
        prefix: Option<&str>,
    )
        ensures
            families_view(final(metrics)@) == families_view(old(metrics)@).push(
                hardware_family(self.collection_data@, which, name@, help@, prefix_of(prefix)),
            ),
    {
        let samples = self.make_metric_counters(which);
        let f = metric_family(name, help, MetricKind::Counter, samples, prefix);
        push_family(metrics, f);
    }

    /// Appends one counter family per usage kind, or nothing when no collection reported usage.
    pub fn add_metrics(&self, metrics: &mut Vec<MetricFamily>, prefix: Option<&str>)
        ensures
            families_view(final(metrics)@) == families_view(old(metrics)@) + self.families(
                prefix_of(prefix),
            ),
    {
        // A counter family needs at least one sample.
        if self.collection_data.len() == 0 {
            assert(families_view(metrics@) =~= families_view(old(metrics)@) + self.families(
                prefix_of(prefix),
            ));
            return;
        }
        self.push_counter_family(
            metrics,
            HardwareCounter::Cpu,
            "collection_hardware_metric_cpu",
            "CPU measurements of a collection",
            prefix,
        );
        self.push_counter_family(
            metrics,
            HardwareCounter::PayloadIoRead,
            "collection_hardware_metric_payload_io_read",
            "Total IO payload read metrics of a collection",
            prefix,
        );
        self.push_counter_family(
            metrics,
            HardwareCounter::PayloadIndexIoRead,
            "collection_hardware_metric_payload_index_io_read",
            "Total IO payload index read metrics of a collection",
            prefix,
        );
        self.push_counter_family(
            metrics,
            HardwareCounter::PayloadIndexIoWrite,
            "collection_hardware_metric_payload_index_io_write",
            "Total IO payload index write metrics of a collection",
            prefix,
        );
        self.push_counter_family(
            metrics,
            HardwareCounter::PayloadIoWrite,
            "collection_hardware_metric_payload_io_write",
            "Total IO payload write metrics of a collection",
            prefix,
        );
        self.push_counter_family(
            metrics,
            HardwareCounter::VectorIoRead,
            "collection_hardware_metric_vector_io_read",
            "Total IO vector read metrics of a collection",
            prefix,
        );
        self.push_counter_family(
            metrics,
            HardwareCounter::VectorIoWrite,
            "collection_hardware_metric_vector_io_write",
            "Total IO vector write metrics of a collection",
            prefix,
        );
        assert(families_view(metrics@) =~= families_view(old(metrics)@) + self.families(
            prefix_of(prefix),
        ));
    }
}

/// A resource limit as the OS reports it.
#[derive(Clone, Copy, PartialEq, Eq, Debug, Structural)]
pub enum LimitValue {
    Unlimited,
    Value(u64),
}

/// The limit as a number; unlimited reads as 0.
pub open spec fn limit_number(l: LimitValue) -> u64 {
    match l {
        LimitValue::Unlimited => 0,
        LimitValue::Value(v) => v,
    }
}

pub fn format_limit(l: LimitValue) -> (r: u64)
    ensures
        r == limit_number(l),
{
    match l {
        LimitValue::Unlimited => 0,
        LimitValue::Value(v) => v,
    }
}

/// Statistics of the running process, read from the OS.
pub struct ProcFsMetrics {
    pub mmap_count: usize,
    pub open_fds: usize,
    pub max_fds_soft: u64,
    pub max_fds_hard: u64,
    pub minor_page_faults: u64,
    pub major_page_faults: u64,
    pub minor_children_page_faults: u64,
    pub major_children_page_faults: u64,
}

impl ProcFsMetrics {
    /// Gathers the readings; an unlimited descriptor limit reads as 0.
    pub fn new(
        mmap_count: usize,
        open_fds: usize,
        max_fds_soft: LimitValue,
        max_fds_hard: LimitValue,
        minor_page_faults: u64,
        major_page_faults: u64,
        minor_children_page_faults: u64,
        major_children_page_faults: u64,
    ) -> (r: Self)
        ensures
            r == (ProcFsMetrics {
                mmap_count,
                open_fds,
                max_fds_soft: limit_number(max_fds_soft),
                max_fds_hard: limit_number(max_fds_hard),
                minor_page_faults,
                major_page_faults,
                minor_children_page_faults,
                major_children_page_faults,
            }),
    {
        ProcFsMetrics {
            mmap_count,
            open_fds,
            max_fds_soft: format_limit(max_fds_soft),
            max_fds_hard: format_limit(max_fds_hard),
            minor_page_faults,
            major_page_faults,
            minor_children_page_faults,
            major_children_page_faults,
        }
    }

    pub open spec fn families(&self, prefix: Seq<char>) -> Seq<FamilyView> {
        seq![
            family_spec("procfs_mmap_count"@, "count of open mmaps"@, MetricKind::Gauge,
                seq![plain_gauge(self.mmap_count as nat)], prefix),
            family_spec("procfs_current_fds"@, "count of currently open file descriptors"@,
                MetricKind::Gauge, seq![plain_gauge(self.open_fds as nat)], prefix),
            family_spec("procfs_soft_limit_fds"@, "soft limit for open file descriptors"@,
                MetricKind::Gauge, seq![plain_gauge(self.max_fds_soft as nat)], prefix),
            family_spec("procfs_hard_limit_fds"@, "hard limit for open file descriptors"@,
                MetricKind::Gauge, seq![plain_gauge(self.max_fds_hard as nat)], prefix),
            family_spec("procfs_minor_page_faults"@,
                "count of minor page faults which didn't cause a disk access"@, MetricKind::Gauge,
                seq![plain_gauge(self.minor_page_faults as nat)], prefix),
            family_spec("procfs_major_page_faults"@,
                "count of disk accesses caused by a mmap page fault"@, MetricKind::Gauge,
                seq![plain_gauge(self.major_page_faults as nat)], prefix),
            family_spec("procfs_children_minor_page_faults"@,
                "count of minor page faults caused by waited-for children"@, MetricKind::Gauge,
                seq![plain_gauge(self.minor_children_page_faults as nat)], prefix),
            family_spec("procfs_children_major_page_faults"@,
                "count of major page faults caused by waited-for children"@, MetricKind::Gauge,
                seq![plain_gauge(self.major_children_page_faults as nat)], prefix),
        ]
    }

    /// Appends the eight process gauges.
    pub fn add_metrics(&self, metrics: &mut Vec<MetricFamily>, prefix: Option<&str>)
        ensures
            families_view(final(metrics)@) == families_view(old(metrics)@) + self.families(
                prefix_of(prefix),
            ),
    {
        push_gauge(metrics, "procfs_mmap_count", "count of open mmaps", self.mmap_count as u64, prefix);
        push_gauge(
            metrics,
            "procfs_current_fds",
            "count of currently open file descriptors",
            self.open_fds as u64,
            prefix,
        );
        push_gauge(
            metrics,
            "procfs_soft_limit_fds",
            "soft limit for open file descriptors",
            self.max_fds_soft,
            prefix,
        );
        push_gauge(
            metrics,
            "procfs_hard_limit_fds",
            "hard limit for open file descriptors",
            self.max_fds_hard,
            prefix,
        );
        push_gauge(
            metrics,
            "procfs_minor_page_faults",
            "count of minor page faults which didn't cause a disk access",
            self.minor_page_faults,
            prefix,
        );
        push_gauge(
            metrics,
            "procfs_major_page_faults",
            "count of disk accesses caused by a mmap page fault",
            self.major_page_faults,
            prefix,
        );
        push_gauge(
            metrics,
            "procfs_children_minor_page_faults",
            "count of minor page faults caused by waited-for children",
            self.minor_children_page_faults,
            prefix,
        );
        push_gauge(
            metrics,
            "procfs_children_major_page_faults",
            "count of major page faults caused by waited-for children",
            self.major_children_page_faults,
            prefix,
        );
        assert(families_view(metrics@) =~= families_view(old(metrics)@) + self.families(
            prefix_of(prefix),
        ));
    }
}

/// Hardware telemetry without any collection yields no family at all.
pub proof fn lemma_empty_hardware_no_families(h: HardwareTelemetry, prefix: Seq<char>)
    requires
        h.collection_data@.len() == 0,
    ensures
        h.families(prefix) == Seq::<FamilyView>::empty(),
{
}

} // verus!
