//! Operation duration statistics and their projection into response families.
use vstd::prelude::*;

use crate::metric::{
    counter, counter_spec, families_view, family_if_any, gauge, gauge_spec, histogram,
    labels_view, push_if_any, samples_view, FamilyView, MetricFamily, MetricKind, Number, Sample,
    SampleView, ValueView,
};

verus! {

/// An exact decimal duration in microseconds: `mantissa · 10^(−scale)` µs.
#[derive(Clone, Copy, PartialEq, Eq, Debug, Structural)]
pub struct Decimal {
    pub mantissa: u64,
    pub scale: u8,
}

/// The same duration in seconds: the decimal point moves six places.
pub open spec fn seconds_of(d: Decimal) -> Number {
    Number { mantissa: d.mantissa, scale: (d.scale + 6) as u16 }
}

/// A duration in seconds, zero when absent.
pub open spec fn seconds_or_zero(d: Option<Decimal>) -> Number {
    match d {
        Some(x) => seconds_of(x),
        None => seconds_of(Decimal { mantissa: 0, scale: 0 }),
    }
}

/// Converts microseconds to seconds.
pub fn micros_to_seconds(d: Decimal) -> (r: Number)
    ensures
        r == seconds_of(d),
{
    Number { mantissa: d.mantissa, scale: d.scale as u16 + 6 }
}

/// Converts microseconds to seconds; an absent duration counts as zero.
fn seconds_or_zero_exec(d: Option<Decimal>) -> (r: Number)
    ensures
        r == seconds_or_zero(d),
{
    match d {
        Some(x) => micros_to_seconds(x),
        None => micros_to_seconds(Decimal { mantissa: 0, scale: 0 }),
    }
}

/// Statistics of one kind of operation.
#[derive(Clone, Debug)]
pub struct OperationDurationStatistics {
    pub count: usize,
    pub fail_count: Option<usize>,
    pub avg_duration_micros: Option<Decimal>,
    pub min_duration_micros: Option<Decimal>,
    pub max_duration_micros: Option<Decimal>,
    pub total_duration_micros: Option<u64>,
    /// (upper bound in µs, cumulative count), ascending by bound.
    pub duration_micros_histogram: Vec<(Decimal, usize)>,
}

pub open spec fn whole(n: nat) -> Number {
    Number { mantissa: n as u64, scale: 0 }
}

/// The histogram buckets in seconds.
pub open spec fn buckets_in_seconds(b: Seq<(Decimal, usize)>) -> Seq<(Number, u64)> {
    b.map_values(|p: (Decimal, usize)| (seconds_of(p.0), p.1 as u64))
}

/// The histogram sample of a statistics record.
pub open spec fn histogram_spec(
    stat: OperationDurationStatistics,
    labels: Seq<(Seq<char>, Seq<char>)>,
) -> SampleView {
    SampleView {
        labels,
        value: ValueView::Histogram {
            sample_count: stat.count as u64,
            sample_sum: Number {
                mantissa: match stat.total_duration_micros {
                    Some(t) => t,
                    None => 0,
                },
                scale: 6,
            },
            buckets: buckets_in_seconds(stat.duration_micros_histogram@),
        },
    }
}

pub open spec fn fail_count_or_zero(stat: OperationDurationStatistics) -> nat {
    match stat.fail_count {
        Some(f) => f as nat,
        None => 0,
    }
}

/// Collects the samples of many statistics records, one family per metric at the end.
pub struct OperationDurationMetricsBuilder {
    pub total: Vec<Sample>,
    pub fail_total: Vec<Sample>,
    pub avg_secs: Vec<Sample>,
    pub min_secs: Vec<Sample>,
    pub max_secs: Vec<Sample>,
    pub duration_histogram_secs: Vec<Sample>,
}

/// What a builder holds: the samples of each family.
pub struct BuilderView {
    pub total: Seq<SampleView>,
    pub fail_total: Seq<SampleView>,
    pub avg_secs: Seq<SampleView>,
    pub min_secs: Seq<SampleView>,
    pub max_secs: Seq<SampleView>,
    pub duration_histogram_secs: Seq<SampleView>,
}

/// One statistics record handed to a builder, with its labels and whether timings go along.
pub struct Observation {
    pub stat: OperationDurationStatistics,
    pub labels: Seq<(Seq<char>, Seq<char>)>,
    pub timings: bool,
}

impl View for OperationDurationMetricsBuilder {
    type V = BuilderView;

    open spec fn view(&self) -> BuilderView {
        BuilderView {
            total: samples_view(self.total@),
            fail_total: samples_view(self.fail_total@),
            avg_secs: samples_view(self.avg_secs@),
            min_secs: samples_view(self.min_secs@),
            max_secs: samples_view(self.max_secs@),
            duration_histogram_secs: samples_view(self.duration_histogram_secs@),
        }
    }
}

/// The builder after one more record.
pub open spec fn added(b: BuilderView, o: Observation) -> BuilderView {
    let total = b.total.push(counter_spec(whole(o.stat.count as nat), o.labels));
    let fail_total = b.fail_total.push(counter_spec(whole(fail_count_or_zero(o.stat)), o.labels));
    if o.timings {
        BuilderView {
            total,
            fail_total,
            avg_secs: b.avg_secs.push(gauge_spec(seconds_or_zero(o.stat.avg_duration_micros), o.labels)),
            min_secs: b.min_secs.push(gauge_spec(seconds_or_zero(o.stat.min_duration_micros), o.labels)),
            max_secs: b.max_secs.push(gauge_spec(seconds_or_zero(o.stat.max_duration_micros), o.labels)),
            duration_histogram_secs: b.duration_histogram_secs.push(histogram_spec(o.stat, o.labels)),
        }
    } else {
        BuilderView { total, fail_total, ..b }
    }
}

pub open spec fn empty_builder() -> BuilderView {
    BuilderView {
        total: Seq::empty(),
        fail_total: Seq::empty(),
        avg_secs: Seq::empty(),
        min_secs: Seq::empty(),
        max_secs: Seq::empty(),
        duration_histogram_secs: Seq::empty(),
    }
}

/// A fresh builder after the records, in order.
pub open spec fn collected(obs: Seq<Observation>) -> BuilderView
    decreases obs.len(),
{
    if obs.len() == 0 {
        empty_builder()
    } else {
        added(collected(obs.drop_last()), obs.last())
    }
}

/// The families of a builder: those with samples, in a fixed order.
pub open spec fn builder_families(b: BuilderView, prefix: Seq<char>) -> Seq<FamilyView> {
    family_if_any(
        "responses_total"@,
        "total number of responses"@,
        MetricKind::Counter,
        b.total,
        prefix,
    ) + family_if_any(
        "responses_fail_total"@,
        "total number of failed responses"@,
        MetricKind::Counter,
        b.fail_total,
        prefix,
    ) + family_if_any(
        "responses_avg_duration_seconds"@,
        "average response duration"@,
        MetricKind::Gauge,
        b.avg_secs,
        prefix,
    ) + family_if_any(
        "responses_min_duration_seconds"@,
        "minimum response duration"@,
        MetricKind::Gauge,
        b.min_secs,
        prefix,
    ) + family_if_any(
        "responses_max_duration_seconds"@,
        "maximum response duration"@,
        MetricKind::Gauge,
        b.max_secs,
        prefix,
    ) + family_if_any(
        "responses_duration_seconds"@,
        "response duration histogram"@,
        MetricKind::Histogram,
        b.duration_histogram_secs,
        prefix,
    )
}

impl Default for OperationDurationMetricsBuilder {
    fn default() -> (r: Self)
        ensures
            r@ == empty_builder(),
    {
        OperationDurationMetricsBuilder::new()
    }
}

impl OperationDurationMetricsBuilder {
    pub fn new() -> (r: Self)
        ensures
            r@ == empty_builder(),
    {
        let r = OperationDurationMetricsBuilder {
            total: Vec::new(),
            fail_total: Vec::new(),
            avg_secs: Vec::new(),
            min_secs: Vec::new(),
            max_secs: Vec::new(),
            duration_histogram_secs: Vec::new(),
        };
        assert(samples_view(r.total@) =~= Seq::empty());
        assert(samples_view(r.fail_total@) =~= Seq::empty());
        assert(samples_view(r.avg_secs@) =~= Seq::empty());
        assert(samples_view(r.min_secs@) =~= Seq::empty());
        assert(samples_view(r.max_secs@) =~= Seq::empty());
        assert(samples_view(r.duration_histogram_secs@) =~= Seq::empty());
        r
    }

    /// Adds the samples of one statistics record. The count and fail count always; the
    /// average, minimum, maximum and histogram only when `add_timings` holds.
    pub fn add(
        &mut self,
        stat: &OperationDurationStatistics,
        labels: &[(&str, &str)],
        add_timings: bool,
    )
        ensures
            final(self)@ == added(
                old(self)@,
                Observation { stat: *stat, labels: labels_view(labels@), timings: add_timings },
            ),
    {
        let c = counter(Number::whole(stat.count as u64), labels);
        push_sample(&mut self.total, c);
        let fail = match stat.fail_count {
            Some(f) => f,
            None => 0,
        };
        let c = counter(Number::whole(fail as u64), labels);
        push_sample(&mut self.fail_total, c);
        if !add_timings {
            proof {
                let o = Observation { stat: *stat, labels: labels_view(labels@), timings: add_timings };
                assert(self@ =~= added(old(self)@, o));
            }
            return;
        }
        let g = gauge(seconds_or_zero_exec(stat.avg_duration_micros), labels);
        push_sample(&mut self.avg_secs, g);
        let g = gauge(seconds_or_zero_exec(stat.min_duration_micros), labels);
        push_sample(&mut self.min_secs, g);
        let g = gauge(seconds_or_zero_exec(stat.max_duration_micros), labels);
        push_sample(&mut self.max_secs, g);
        let total_micros = match stat.total_duration_micros {
            Some(t) => t,
            None => 0,
        };
        let buckets = buckets_to_seconds(&stat.duration_micros_histogram);
        let h = histogram(
            stat.count as u64,
            Number { mantissa: total_micros, scale: 6 },
            buckets,
            labels,
        );
        push_sample(&mut self.duration_histogram_secs, h);
        proof {
            let o = Observation { stat: *stat, labels: labels_view(labels@), timings: add_timings };
            assert(self@ =~= added(old(self)@, o));
        }
    }

    /// Appends the families, their names prefixed by `global_prefix`, then `prefix` and `_`;
    /// without a global prefix, by `prefix` alone.
    #[verifier::spinoff_prover]
    #[verifier::rlimit(40)]
    pub fn build(self, global_prefix: Option<&str>, prefix: &str, metrics: &mut Vec<MetricFamily>)
        ensures
            families_view(final(metrics)@) == families_view(old(metrics)@) + builder_families(
                self@,
                family_prefix(global_prefix, prefix@),
            ),
    {
        let full = match global_prefix {
            Some(g) => String::from_str(g).concat(prefix).concat("_"),
            None => String::from_str(prefix),
        };
        proof {
            assert(full@ == family_prefix(global_prefix, prefix@));
        }
        let p = Some(full.as_str());
        let ghost m0 = families_view(metrics@);
        let ghost v = self@;
        push_if_any(
            metrics,
            "responses_total",
            "total number of responses",
            MetricKind::Counter,
            self.total,
            p,
        );
        push_if_any(
            metrics,
            "responses_fail_total",
            "total number of failed responses",
            MetricKind::Counter,
            self.fail_total,
            p,
        );
        push_if_any(
            metrics,
            "responses_avg_duration_seconds",
            "average response duration",
            MetricKind::Gauge,
            self.avg_secs,
            p,
        );
        push_if_any(
            metrics,
            "responses_min_duration_seconds",
            "minimum response duration",
            MetricKind::Gauge,
            self.min_secs,
            p,
        );
        push_if_any(
            metrics,
            "responses_max_duration_seconds",
            "maximum response duration",
            MetricKind::Gauge,
            self.max_secs,
            p,
        );
        push_if_any(
            metrics,
            "responses_duration_seconds",
            "response duration histogram",
            MetricKind::Histogram,
            self.duration_histogram_secs,
            p,
        );
        assert(families_view(metrics@) =~= m0 + builder_families(v, full@));
    }
}

/// The prefix of the response families: the global prefix, the domain and `_`; or the domain.
pub open spec fn family_prefix(global_prefix: Option<&str>, prefix: Seq<char>) -> Seq<char> {
    match global_prefix {
        Some(g) => g@ + prefix + "_"@,
        None => prefix,
    }
}

fn push_sample(v: &mut Vec<Sample>, s: Sample)
    ensures
        samples_view(final(v)@) == samples_view(old(v)@).push(s@),
{
    v.push(s);
    assert(samples_view(v@) =~= samples_view(old(v)@).push(s@));
}

/// The histogram buckets with their bounds in seconds.
fn buckets_to_seconds(b: &Vec<(Decimal, usize)>) -> (r: Vec<(Number, u64)>)
    ensures
        r@ == buckets_in_seconds(b@),
{
    let mut r: Vec<(Number, u64)> = Vec::new();
    let mut i: usize = 0;
    while i < b.len()
        invariant
            i <= b@.len(),
            r@ == buckets_in_seconds(b@.subrange(0, i as int)),
        decreases b@.len() - i,
    {
        let (bound, count) = b[i];
        r.push((micros_to_seconds(bound), count as u64));
        assert(buckets_in_seconds(b@.subrange(0, i + 1)) =~= buckets_in_seconds(
            b@.subrange(0, i as int),
        ).push((seconds_of(bound), count as u64)));
        i += 1;
    }
    assert(b@.subrange(0, b@.len() as int) == b@);
    r
}

} // verus!
