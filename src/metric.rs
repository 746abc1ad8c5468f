//! The metric model: numbers, samples and families, and the primitives that build them.
use vstd::prelude::*;

verus! {

/// An exact decimal: `mantissa · 10^(−scale)`.
#[derive(Clone, Copy, PartialEq, Eq, Debug, Structural)]
pub struct Number {
    pub mantissa: u64,
    pub scale: u16,
}

impl Number {
    /// A whole number.
    pub fn whole(n: u64) -> (r: Number)
        ensures
            r == (Number { mantissa: n, scale: 0 }),
    {
        Number { mantissa: n, scale: 0 }
    }
}

/// The declared kind of a metric family.
#[derive(Clone, Copy, PartialEq, Eq, Debug, Structural)]
pub enum MetricKind {
    Counter,
    Gauge,
    Histogram,
}

/// The value that one sample carries.
#[derive(Clone, Debug)]
pub enum Value {
    Counter(Number),
    Gauge(Number),
    Histogram { sample_count: u64, sample_sum: Number, buckets: Vec<(Number, u64)> },
}

/// One labelled sample.
#[derive(Clone, Debug)]
pub struct Sample {
    pub labels: Vec<(String, String)>,
    pub value: Value,
}

/// A named, typed group of samples.
#[derive(Clone, Debug)]
pub struct MetricFamily {
    pub name: String,
    pub help: String,
    pub kind: MetricKind,
    pub samples: Vec<Sample>,
}

/// What a sample value stands for.
pub enum ValueView {
    Counter(Number),
    Gauge(Number),
    Histogram { sample_count: u64, sample_sum: Number, buckets: Seq<(Number, u64)> },
}

/// What a sample stands for: its labels as (name, value) pairs, and its value.
pub struct SampleView {
    pub labels: Seq<(Seq<char>, Seq<char>)>,
    pub value: ValueView,
}

/// What a family stands for.
pub struct FamilyView {
    pub name: Seq<char>,
    pub help: Seq<char>,
    pub kind: MetricKind,
    pub samples: Seq<SampleView>,
}

pub open spec fn owned_labels_view(ls: Seq<(String, String)>) -> Seq<(Seq<char>, Seq<char>)> {
    ls.map_values(|p: (String, String)| (p.0@, p.1@))
}

pub open spec fn labels_view(ls: Seq<(&str, &str)>) -> Seq<(Seq<char>, Seq<char>)> {
    ls.map_values(|p: (&str, &str)| (p.0@, p.1@))
}

impl View for Value {
    type V = ValueView;

    open spec fn view(&self) -> ValueView {
        match self {
            Value::Counter(n) => ValueView::Counter(*n),
            Value::Gauge(n) => ValueView::Gauge(*n),
            Value::Histogram { sample_count, sample_sum, buckets } => ValueView::Histogram {
                sample_count: *sample_count,
                sample_sum: *sample_sum,
                buckets: buckets@,
            },
        }
    }
}

impl View for Sample {
    type V = SampleView;

    open spec fn view(&self) -> SampleView {
        SampleView { labels: owned_labels_view(self.labels@), value: self.value@ }
    }
}

pub open spec fn samples_view(s: Seq<Sample>) -> Seq<SampleView> {
    s.map_values(|x: Sample| x@)
}

impl View for MetricFamily {
    type V = FamilyView;

    open spec fn view(&self) -> FamilyView {
        FamilyView {
            name: self.name@,
            help: self.help@,
            kind: self.kind,
            samples: samples_view(self.samples@),
        }
    }
}

pub open spec fn families_view(s: Seq<MetricFamily>) -> Seq<FamilyView> {
    s.map_values(|f: MetricFamily| f@)
}

/// The text that goes in front of every family name: the prefix, or nothing.
pub open spec fn prefix_of(prefix: Option<&str>) -> Seq<char> {
    match prefix {
        Some(p) => p@,
        None => Seq::empty(),
    }
}

/// The family that `metric_family` builds: the prefix glued to the base name, with no separator.
pub open spec fn family_spec(
    name: Seq<char>,
    help: Seq<char>,
    kind: MetricKind,
    samples: Seq<SampleView>,
    prefix: Seq<char>,
) -> FamilyView {
    FamilyView { name: prefix + name, help, kind, samples }
}

/// A family of the given samples, or nothing when there are none.
pub open spec fn family_if_any(
    name: Seq<char>,
    help: Seq<char>,
    kind: MetricKind,
    samples: Seq<SampleView>,
    prefix: Seq<char>,
) -> Seq<FamilyView> {
    if samples.len() == 0 {
        Seq::empty()
    } else {
        seq![family_spec(name, help, kind, samples, prefix)]
    }
}

pub open spec fn counter_spec(value: Number, labels: Seq<(Seq<char>, Seq<char>)>) -> SampleView {
    SampleView { labels, value: ValueView::Counter(value) }
}

pub open spec fn gauge_spec(value: Number, labels: Seq<(Seq<char>, Seq<char>)>) -> SampleView {
    SampleView { labels, value: ValueView::Gauge(value) }
}

/// A gauge of a whole number, without labels.
pub open spec fn plain_gauge(n: nat) -> SampleView {
    gauge_spec(Number { mantissa: n as u64, scale: 0 }, seq![])
}

/// A gauge holding 1 for `true` and 0 for `false`, without labels.
pub open spec fn flag_gauge(b: bool) -> SampleView {
    plain_gauge(if b { 1 } else { 0 })
}

/// Groups samples under one family.
pub fn metric_family(
    name: &str,
    help: &str,
    kind: MetricKind,
    samples: Vec<Sample>,
    prefix: Option<&str>,
) -> (r: MetricFamily)
    ensures
        r@ == family_spec(name@, help@, kind, samples_view(samples@), prefix_of(prefix)),
{
    let full_name = match prefix {
        Some(p) => String::from_str(p).concat(name),
        None => String::from_str(name),
    };
    assert(prefix_of(prefix) + name@ =~= full_name@);
    MetricFamily { name: full_name, help: String::from_str(help), kind, samples }
}

/// Owned copies of the labels, in the order given.
pub fn label_pairs(labels: &[(&str, &str)]) -> (r: Vec<(String, String)>)
    ensures
        owned_labels_view(r@) == labels_view(labels@),
{
    let mut r: Vec<(String, String)> = Vec::new();
    let mut i: usize = 0;
    while i < labels.len()
        invariant
            i <= labels@.len(),
            owned_labels_view(r@) == labels_view(labels@.subrange(0, i as int)),
        decreases labels@.len() - i,
    {
        let (n, v) = labels[i];
        let ghost prev = r@;
        r.push((String::from_str(n), String::from_str(v)));
        proof {
            assert(labels@.subrange(0, i + 1) == labels@.subrange(0, i as int).push(labels@[i as int]));
            assert(owned_labels_view(r@) =~= owned_labels_view(prev).push((n@, v@)));
            assert(labels_view(labels@.subrange(0, i + 1)) =~= labels_view(labels@.subrange(0, i as int)).push((n@, v@)));
        }
        i += 1;
    }
    proof {
        assert(labels@.subrange(0, labels@.len() as int) == labels@);
    }
    r
}

/// A counter sample.
pub fn counter(value: Number, labels: &[(&str, &str)]) -> (r: Sample)
    ensures
        r@ == counter_spec(value, labels_view(labels@)),
{
    Sample { labels: label_pairs(labels), value: Value::Counter(value) }
}

/// A gauge sample.
pub fn gauge(value: Number, labels: &[(&str, &str)]) -> (r: Sample)
    ensures
        r@ == gauge_spec(value, labels_view(labels@)),
{
    Sample { labels: label_pairs(labels), value: Value::Gauge(value) }
}

/// A histogram sample; each bucket is (upper bound, cumulative count).
pub fn histogram(
    sample_count: u64,
    sample_sum: Number,
    buckets: Vec<(Number, u64)>,
    labels: &[(&str, &str)],
) -> (r: Sample)
    ensures
        r@ == (SampleView {
            labels: labels_view(labels@),
            value: ValueView::Histogram { sample_count, sample_sum, buckets: buckets@ },
        }),
{
    Sample {
        labels: label_pairs(labels),
        value: Value::Histogram { sample_count, sample_sum, buckets },
    }
}

/// A gauge of a whole number without labels.
pub fn plain(n: u64) -> (r: Sample)
    ensures
        r@ == plain_gauge(n as nat),
{
    let r = gauge(Number::whole(n), &[]);
    assert(r@.labels =~= Seq::<(Seq<char>, Seq<char>)>::empty());
    r
}

/// Appends a family with one unlabelled gauge sample.
pub fn push_gauge(
    metrics: &mut Vec<MetricFamily>,
    name: &str,
    help: &str,
    n: u64,
    prefix: Option<&str>,
)
    ensures
        families_view(final(metrics)@) == families_view(old(metrics)@).push(
            family_spec(name@, help@, MetricKind::Gauge, seq![plain_gauge(n as nat)], prefix_of(prefix)),
        ),
{
    let samples = vec![plain(n)];
    assert(samples_view(samples@) =~= seq![plain_gauge(n as nat)]);
    let f = metric_family(name, help, MetricKind::Gauge, samples, prefix);
    push_family(metrics, f);
}

/// Appends one family.
pub fn push_family(metrics: &mut Vec<MetricFamily>, f: MetricFamily)
    ensures
        families_view(final(metrics)@) == families_view(old(metrics)@).push(f@),
{
    metrics.push(f);
    assert(families_view(metrics@) =~= families_view(old(metrics)@).push(f@));
}

/// Appends a family of the given samples, unless there are none.
pub fn push_if_any(
    metrics: &mut Vec<MetricFamily>,
    name: &str,
    help: &str,
    kind: MetricKind,
    samples: Vec<Sample>,
    prefix: Option<&str>,
)
    ensures
        families_view(final(metrics)@) == families_view(old(metrics)@) + family_if_any(
            name@,
            help@,
            kind,
            samples_view(samples@),
            prefix_of(prefix),
        ),
{
    if samples.len() == 0 {
        assert(families_view(old(metrics)@) + Seq::<FamilyView>::empty() =~= families_view(old(metrics)@));
    } else {
        let f = metric_family(name, help, kind, samples, prefix);
        push_family(metrics, f);
        assert(families_view(old(metrics)@).push(f@) =~= families_view(old(metrics)@) + seq![f@]);
    }
}

} // verus!
