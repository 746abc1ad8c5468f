//! The telemetry snapshot and its projection into the full list of families.
use vstd::prelude::*;

use crate::collections::CollectionsTelemetry;
use crate::domains::{
    AppBuildTelemetry, ClusterTelemetry, HardwareTelemetry, MemoryTelemetry, ProcFsMetrics,
};
use crate::metric::{families_view, prefix_of, FamilyView, MetricFamily};
use crate::requests::RequestsTelemetry;

verus! {

/// A snapshot of the service's telemetry; an absent subtree was disabled or not sampled.
pub struct TelemetryData {
    pub app: AppBuildTelemetry,
    pub collections: CollectionsTelemetry,
    pub cluster: Option<ClusterTelemetry>,
    pub requests: Option<RequestsTelemetry>,
    pub hardware: Option<HardwareTelemetry>,
    pub memory: Option<MemoryTelemetry>,
}

impl TelemetryData {
    pub open spec fn cluster_families(&self, p: Seq<char>) -> Seq<FamilyView> {
        match self.cluster {
            Some(c) => c.families(p),
            None => Seq::empty(),
        }
    }

    pub open spec fn requests_families(&self, prefix: Option<&str>) -> Seq<FamilyView> {
        match self.requests {
            Some(r) => r.families(prefix),
            None => Seq::empty(),
        }
    }

    pub open spec fn hardware_families(&self, p: Seq<char>) -> Seq<FamilyView> {
        match self.hardware {
            Some(h) => h.families(p),
            None => Seq::empty(),
        }
    }

    pub open spec fn memory_families(&self, p: Seq<char>) -> Seq<FamilyView> {
        match self.memory {
            Some(m) => m.families(p),
            None => Seq::empty(),
        }
    }

    /// The families of every present subtree, in a fixed order.
    pub open spec fn families(&self, prefix: Option<&str>) -> Seq<FamilyView> {
        let p = prefix_of(prefix);
        self.app.families(p) + self.collections.families(p) + self.cluster_families(p)
            + self.requests_families(prefix) + self.hardware_families(p) + self.memory_families(p)
    }

    /// Appends the families of every present subtree.
    #[verifier::spinoff_prover]
    #[verifier::rlimit(60)]
    pub fn add_metrics(&self, metrics: &mut Vec<MetricFamily>, prefix: Option<&str>)
        requires
            self.collections.within_limits(),
        ensures
            families_view(final(metrics)@) == families_view(old(metrics)@) + self.families(prefix),
    {
        let ghost p = prefix_of(prefix);
        let ghost m0 = families_view(metrics@);
        let ghost fa = self.app.families(p);
        let ghost fb = self.collections.families(p);
        let ghost fc = self.cluster_families(p);
        let ghost fd = self.requests_families(prefix);
        let ghost fe = self.hardware_families(p);
        let ghost ff = self.memory_families(p);
        self.app.add_metrics(metrics, prefix);
        self.collections.add_metrics(metrics, prefix);
        let ghost m2 = families_view(metrics@);
        assert(m2 =~= m0 + fa + fb);
        if let Some(cluster) = &self.cluster {
            cluster.add_metrics(metrics, prefix);
        } else {
            assert(families_view(metrics@) =~= m2 + fc);
        }
        let ghost m3 = families_view(metrics@);
        if let Some(requests) = &self.requests {
            requests.add_metrics(metrics, prefix);
        } else {
            assert(families_view(metrics@) =~= m3 + fd);
        }
        let ghost m4 = families_view(metrics@);
        if let Some(hardware) = &self.hardware {
            hardware.add_metrics(metrics, prefix);
        } else {
            assert(families_view(metrics@) =~= m4 + fe);
        }
        let ghost m5 = families_view(metrics@);
        if let Some(mem) = &self.memory {
            mem.add_metrics(metrics, prefix);
        } else {
            assert(families_view(metrics@) =~= m5 + ff);
        }
        assert(families_view(metrics@) =~= m0 + (fa + fb + fc + fd + fe + ff));
    }
}

/// The metric families of one snapshot.
pub struct MetricsData {
    pub metrics: Vec<MetricFamily>,
}

impl MetricsData {
    /// Projects a snapshot; family names start with `prefix`, when given.
    pub fn new_from_telemetry(telemetry_data: TelemetryData, prefix: Option<&str>) -> (r: Self)
        requires
            telemetry_data.collections.within_limits(),
        ensures
            families_view(r.metrics@) == telemetry_data.families(prefix),
    {
        let mut metrics: Vec<MetricFamily> = Vec::new();
        telemetry_data.add_metrics(&mut metrics, prefix);
        assert(families_view(metrics@) =~= telemetry_data.families(prefix));
        MetricsData { metrics }
    }

    /// Appends the process statistics, read from the OS by the caller.
    pub fn add_process_metrics(&mut self, procfs: &ProcFsMetrics, prefix: Option<&str>)
        ensures
            families_view(final(self).metrics@) == families_view(old(self).metrics@)
                + procfs.families(prefix_of(prefix)),
    {
        procfs.add_metrics(&mut self.metrics, prefix);
    }
}

} // verus!
