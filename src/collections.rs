//! Collections telemetry and the cluster-wide rollups drawn from it.
use vstd::prelude::*;

use crate::metric::{
    families_view, family_if_any, family_spec, gauge, gauge_spec, labels_view, plain_gauge,
    prefix_of, push_gauge, push_if_any, samples_view, FamilyView, MetricFamily, MetricKind, Number,
    Sample, SampleView,
};

verus! {

/// The state of one shard replica on one peer.
#[derive(Clone, Copy, PartialEq, Eq, Debug, Structural)]
pub enum ReplicaState {
    Active,
    Dead,
    Partial,
    Initializing,
    Listener,
    PartialSnapshot,
    Recovery,
    Resharding,
    ReshardingScaleDown,
}

/// Replicas kept while resharding down count as active.
pub open spec fn state_is_active(s: ReplicaState) -> bool {
    s is Active || s is ReshardingScaleDown
}

impl ReplicaState {
    pub fn is_active(&self) -> (r: bool)
        ensures
            r == state_is_active(*self),
    {
        match self {
            ReplicaState::Active | ReplicaState::ReshardingScaleDown => true,
            _ => false,
        }
    }
}

/// Telemetry of the local part of a shard.
#[derive(Clone, Debug)]
pub struct LocalShardTelemetry {
    /// Per vector name, points left out of indexed-only requests.
    pub indexed_only_excluded_vectors: Option<Vec<(String, usize)>>,
}

/// Telemetry of one shard: the state of its replica on each peer (peer ids unique).
#[derive(Clone, Debug)]
pub struct ReplicaSetTelemetry {
    pub replicate_states: Vec<(u64, ReplicaState)>,
    pub local: Option<LocalShardTelemetry>,
}

/// Full telemetry of one collection.
#[derive(Clone, Debug)]
pub struct CollectionTelemetry {
    pub id: String,
    pub optimizers_running: usize,
    pub points: usize,
    /// Point counts per named vector.
    pub points_per_vector: Vec<(String, usize)>,
    pub shards: Vec<ReplicaSetTelemetry>,
}

/// Summary-only telemetry of one collection; it takes no part in the rollups.
#[derive(Clone, Debug)]
pub struct AggregatedCollectionTelemetry {
    pub id: String,
}

#[derive(Clone, Debug)]
pub enum CollectionTelemetryEnum {
    Full(CollectionTelemetry),
    Aggregated(AggregatedCollectionTelemetry),
}

/// Telemetry of all collections; a `None` entry is one that could not be gathered.
#[derive(Clone, Debug)]
pub struct CollectionsTelemetry {
    pub number_of_collections: usize,
    pub collections: Vec<Option<CollectionTelemetryEnum>>,
}

/// Number of active replicas.
pub open spec fn active_count(states: Seq<(u64, ReplicaState)>) -> nat
    decreases states.len(),
{
    if states.len() == 0 {
        0
    } else {
        active_count(states.drop_last()) + if state_is_active(states.last().1) {
            1nat
        } else {
            0nat
        }
    }
}

/// Some replica is still being filled while resharding up.
pub open spec fn in_upscale(states: Seq<(u64, ReplicaState)>) -> bool {
    exists|i: int| 0 <= i < states.len() && (#[trigger] states[i]).1 is Resharding
}

/// Some replica is not active.
pub open spec fn has_inactive(states: Seq<(u64, ReplicaState)>) -> bool {
    exists|i: int| 0 <= i < states.len() && !state_is_active((#[trigger] states[i]).1)
}

/// The active-replica counts of the shards that are not in an upscale, in order.
pub open spec fn eligible_counts(shards: Seq<ReplicaSetTelemetry>) -> Seq<nat>
    decreases shards.len(),
{
    if shards.len() == 0 {
        Seq::empty()
    } else {
        let prev = eligible_counts(shards.drop_last());
        let states = shards.last().replicate_states@;
        if in_upscale(states) {
            prev
        } else {
            prev.push(active_count(states))
        }
    }
}

/// Number of shards with an inactive replica.
pub open spec fn dead_count(shards: Seq<ReplicaSetTelemetry>) -> nat
    decreases shards.len(),
{
    if shards.len() == 0 {
        0
    } else {
        dead_count(shards.drop_last()) + if has_inactive(shards.last().replicate_states@) {
            1nat
        } else {
            0nat
        }
    }
}

/// The least element, or 0 for none.
pub open spec fn seq_min(s: Seq<nat>) -> nat
    decreases s.len(),
{
    if s.len() == 0 {
        0
    } else if s.len() == 1 {
        s[0]
    } else {
        let m = seq_min(s.drop_last());
        if s.last() < m {
            s.last()
        } else {
            m
        }
    }
}

/// The greatest element, or 0 for none.
pub open spec fn seq_max(s: Seq<nat>) -> nat
    decreases s.len(),
{
    if s.len() == 0 {
        0
    } else {
        let m = seq_max(s.drop_last());
        if s.last() > m {
            s.last()
        } else {
            m
        }
    }
}

pub open spec fn nats(s: Seq<usize>) -> Seq<nat> {
    s.map_values(|x: usize| x as nat)
}

proof fn lemma_min_is_least(s: Seq<nat>)
    requires
        s.len() > 0,
    ensures
        s.contains(seq_min(s)),
        forall|i: int| 0 <= i < s.len() ==> seq_min(s) <= s[i],
    decreases s.len(),
{
    if s.len() > 1 {
        lemma_min_is_least(s.drop_last());
        assert forall|i: int| 0 <= i < s.len() implies seq_min(s) <= s[i] by {
            if i < s.len() - 1 {
                assert(s.drop_last()[i] == s[i]);
            }
        }
        if s.last() >= seq_min(s.drop_last()) {
            let j = choose|j: int| 0 <= j < s.drop_last().len() && s.drop_last()[j] == seq_min(s.drop_last());
            assert(s[j] == seq_min(s));
        } else {
            assert(s[s.len() - 1] == seq_min(s));
        }
    } else {
        assert(s[0] == seq_min(s));
    }
}

proof fn lemma_max_is_greatest(s: Seq<nat>)
    requires
        s.len() > 0,
    ensures
        s.contains(seq_max(s)),
        forall|i: int| 0 <= i < s.len() ==> s[i] <= seq_max(s),
    decreases s.len(),
{
    if s.len() > 1 {
        lemma_max_is_greatest(s.drop_last());
        assert forall|i: int| 0 <= i < s.len() implies s[i] <= seq_max(s) by {
            if i < s.len() - 1 {
                assert(s.drop_last()[i] == s[i]);
            }
        }
        if s.last() <= seq_max(s.drop_last()) {
            let j = choose|j: int| 0 <= j < s.drop_last().len() && s.drop_last()[j] == seq_max(s.drop_last());
            assert(s[j] == seq_max(s));
        } else {
            assert(s[s.len() - 1] == seq_max(s));
        }
    } else {
        assert(seq_max(s.drop_last()) == 0);
        assert(s[0] == seq_max(s));
    }
}

/// The least element is the one element that belongs and bounds all from below.
proof fn lemma_min_unique(s: Seq<nat>, m: nat)
    requires
        s.contains(m),
        forall|i: int| 0 <= i < s.len() ==> m <= s[i],
    ensures
        m == seq_min(s),
{
    lemma_min_is_least(s);
    let j = choose|j: int| 0 <= j < s.len() && s[j] == seq_min(s);
    let k = choose|k: int| 0 <= k < s.len() && s[k] == m;
    assert(m <= s[j]);
    assert(seq_min(s) <= s[k]);
}

proof fn lemma_max_unique(s: Seq<nat>, m: nat)
    requires
        s.contains(m),
        forall|i: int| 0 <= i < s.len() ==> s[i] <= m,
    ensures
        m == seq_max(s),
{
    lemma_max_is_greatest(s);
    let j = choose|j: int| 0 <= j < s.len() && s[j] == seq_max(s);
    let k = choose|k: int| 0 <= k < s.len() && s[k] == m;
    assert(s[j] <= m);
    assert(s[k] <= seq_max(s));
}

/// Relies on itertools' `Itertools::minmax` and `MinMaxResult::into_option`: `None` for no
/// elements, else the least and the greatest element.
#[verifier::external_body]
fn min_max(counts: &Vec<usize>) -> (r: Option<(usize, usize)>)
    ensures
        r is None <==> counts@.len() == 0,
        r matches Some((lo, hi)) ==> {
            &&& counts@.contains(lo)
            &&& counts@.contains(hi)
            &&& forall|i: int| 0 <= i < counts@.len() ==> lo <= #[trigger] counts@[i] <= hi
        },
{
    itertools::Itertools::minmax(counts.iter().copied()).into_option()
}

/// The least and greatest active-replica counts over the shards that are not in an upscale.
fn shard_bounds(shards: &Vec<ReplicaSetTelemetry>) -> (r: Option<(usize, usize)>)
    ensures
        r is None <==> eligible_counts(shards@).len() == 0,
        r matches Some((lo, hi)) ==> lo == seq_min(eligible_counts(shards@)) && hi == seq_max(
            eligible_counts(shards@),
        ),
{
    let counts = eligible_active_counts(shards);
    let r = min_max(&counts);
    proof {
        let s = eligible_counts(shards@);
        if let Some((lo, hi)) = r {
            assert(s[0] == counts@[0] as nat);
            assert(s.contains(lo as nat)) by {
                let j = choose|j: int| 0 <= j < counts@.len() && counts@[j] == lo;
                assert(s[j] == lo);
            }
            assert(s.contains(hi as nat)) by {
                let j = choose|j: int| 0 <= j < counts@.len() && counts@[j] == hi;
                assert(s[j] == hi);
            }
            assert forall|i: int| 0 <= i < s.len() implies lo <= s[i] && s[i] <= hi by {
                assert(s[i] == counts@[i]);
            }
            lemma_min_unique(s, lo as nat);
            lemma_max_unique(s, hi as nat);
        }
    }
    r
}

/// Counts the active replicas of one shard.
fn count_active(states: &Vec<(u64, ReplicaState)>) -> (r: usize)
    ensures
        r == active_count(states@),
{
    let mut n: usize = 0;
    let mut i: usize = 0;
    while i < states.len()
        invariant
            i <= states@.len(),
            n == active_count(states@.subrange(0, i as int)),
            n <= i,
        decreases states@.len() - i,
    {
        proof {
            let t = states@.subrange(0, i + 1);
            assert(t.drop_last() == states@.subrange(0, i as int));
        }
        if states[i].1.is_active() {
            n += 1;
        }
        i += 1;
    }
    assert(states@.subrange(0, states@.len() as int) == states@);
    n
}

fn any_resharding(states: &Vec<(u64, ReplicaState)>) -> (r: bool)
    ensures
        r == in_upscale(states@),
{
    let mut i: usize = 0;
    while i < states.len()
        invariant
            i <= states@.len(),
            forall|j: int| 0 <= j < i ==> !(states@[j].1 is Resharding),
        decreases states@.len() - i,
    {
        if states[i].1 == ReplicaState::Resharding {
            return true;
        }
        i += 1;
    }
    false
}

fn any_inactive(states: &Vec<(u64, ReplicaState)>) -> (r: bool)
    ensures
        r == has_inactive(states@),
{
    let mut i: usize = 0;
    while i < states.len()
        invariant
            i <= states@.len(),
            forall|j: int| 0 <= j < i ==> state_is_active(states@[j].1),
        decreases states@.len() - i,
    {
        if !states[i].1.is_active() {
            return true;
        }
        i += 1;
    }
    false
}

/// The active-replica counts of the shards that are not in an upscale.
fn eligible_active_counts(shards: &Vec<ReplicaSetTelemetry>) -> (r: Vec<usize>)
    ensures
        nats(r@) == eligible_counts(shards@),
{
    let mut r: Vec<usize> = Vec::new();
    let mut i: usize = 0;
    while i < shards.len()
        invariant
            i <= shards@.len(),
            nats(r@) == eligible_counts(shards@.subrange(0, i as int)),
        decreases shards@.len() - i,
    {
        let ghost prev = r@;
        proof {
            assert(shards@.subrange(0, i + 1).drop_last() == shards@.subrange(0, i as int));
        }
        let states = &shards[i].replicate_states;
        if !any_resharding(states) {
            r.push(count_active(states));
            assert(nats(r@) =~= nats(prev).push(active_count(states@)));
        }
        i += 1;
    }
    assert(shards@.subrange(0, shards@.len() as int) == shards@);
    r
}

/// Counts the shards that have an inactive replica.
fn count_dead(shards: &Vec<ReplicaSetTelemetry>) -> (r: usize)
    ensures
        r == dead_count(shards@),
{
    let mut n: usize = 0;
    let mut i: usize = 0;
    while i < shards.len()
        invariant
            i <= shards@.len(),
            n == dead_count(shards@.subrange(0, i as int)),
            n <= i,
        decreases shards@.len() - i,
    {
        proof {
            assert(shards@.subrange(0, i + 1).drop_last() == shards@.subrange(0, i as int));
        }
        if any_inactive(&shards[i].replicate_states) {
            n += 1;
        }
        i += 1;
    }
    assert(shards@.subrange(0, shards@.len() as int) == shards@);
    n
}

/// A sum over a sequence, of a value given for each element.
pub open spec fn sum_of<T>(s: Seq<T>, f: spec_fn(T) -> nat) -> nat
    decreases s.len(),
{
    if s.len() == 0 {
        0
    } else {
        sum_of(s.drop_last(), f) + f(s.last())
    }
}

proof fn lemma_sum_prefix<T>(s: Seq<T>, f: spec_fn(T) -> nat, i: int)
    requires
        0 <= i <= s.len(),
    ensures
        sum_of(s.subrange(0, i), f) <= sum_of(s, f),
    decreases s.len(),
{
    if i < s.len() {
        assert(s.drop_last().subrange(0, i) == s.subrange(0, i));
        lemma_sum_prefix(s.drop_last(), f, i);
    } else {
        assert(s.subrange(0, i) == s);
    }
}

proof fn lemma_sum_step<T>(s: Seq<T>, f: spec_fn(T) -> nat, i: int)
    requires
        0 <= i < s.len(),
    ensures
        sum_of(s.subrange(0, i + 1), f) == sum_of(s.subrange(0, i), f) + f(s[i]),
{
    assert(s.subrange(0, i + 1).drop_last() == s.subrange(0, i));
}

/// Named counts, as (name, count) pairs.
pub open spec fn counts_view(v: Seq<(String, usize)>) -> Seq<(Seq<char>, nat)> {
    v.map_values(|p: (String, usize)| (p.0@, p.1 as nat))
}

pub open spec fn count_of(p: (Seq<char>, nat)) -> nat {
    p.1
}

/// The first position at or after `i` that holds `name`, or -1.
pub open spec fn find_from(acc: Seq<(Seq<char>, nat)>, name: Seq<char>, i: int) -> int
    decreases acc.len() - i,
{
    if i < 0 || i >= acc.len() {
        -1
    } else if acc[i].0 == name {
        i
    } else {
        find_from(acc, name, i + 1)
    }
}

/// Adds `n` to the count of `name`, appending the name if it is new.
pub open spec fn add_count(acc: Seq<(Seq<char>, nat)>, name: Seq<char>, n: nat) -> Seq<
    (Seq<char>, nat),
> {
    let k = find_from(acc, name, 0);
    if k < 0 {
        acc.push((name, n))
    } else {
        acc.update(k, (name, acc[k].1 + n))
    }
}

/// Adds each entry in turn.
pub open spec fn merge_entries(acc: Seq<(Seq<char>, nat)>, entries: Seq<(Seq<char>, nat)>) -> Seq<
    (Seq<char>, nat),
>
    decreases entries.len(),
{
    if entries.len() == 0 {
        acc
    } else {
        let e = entries.last();
        add_count(merge_entries(acc, entries.drop_last()), e.0, e.1)
    }
}

/// The excluded-point counts that a shard reports, if any.
pub open spec fn shard_excluded(s: ReplicaSetTelemetry) -> Seq<(Seq<char>, nat)> {
    match s.local {
        Some(l) => match l.indexed_only_excluded_vectors {
            Some(v) => counts_view(v@),
            None => Seq::empty(),
        },
        None => Seq::empty(),
    }
}

/// Per vector name, the excluded points summed over the shards, names in order of first report.
pub open spec fn merged_excluded(shards: Seq<ReplicaSetTelemetry>) -> Seq<(Seq<char>, nat)>
    decreases shards.len(),
{
    if shards.len() == 0 {
        Seq::empty()
    } else {
        merge_entries(merged_excluded(shards.drop_last()), shard_excluded(shards.last()))
    }
}

pub open spec fn shard_excluded_total(s: ReplicaSetTelemetry) -> nat {
    sum_of(shard_excluded(s), |p: (Seq<char>, nat)| count_of(p))
}

pub open spec fn shard_total_fn() -> spec_fn(ReplicaSetTelemetry) -> nat {
    |s: ReplicaSetTelemetry| shard_excluded_total(s)
}

/// All excluded points that the shards report.
pub open spec fn excluded_total(shards: Seq<ReplicaSetTelemetry>) -> nat {
    sum_of(shards, shard_total_fn())
}

proof fn lemma_count_le_total(acc: Seq<(Seq<char>, nat)>, j: int)
    requires
        0 <= j < acc.len(),
    ensures
        acc[j].1 <= sum_of(acc, |p: (Seq<char>, nat)| count_of(p)),
    decreases acc.len(),
{
    if j < acc.len() - 1 {
        assert(acc.drop_last()[j] == acc[j]);
        lemma_count_le_total(acc.drop_last(), j);
    }
}

proof fn lemma_total_update(acc: Seq<(Seq<char>, nat)>, j: int, e: (Seq<char>, nat))
    requires
        0 <= j < acc.len(),
    ensures
        sum_of(acc.update(j, e), |p: (Seq<char>, nat)| count_of(p)) + acc[j].1 == sum_of(
            acc,
            |p: (Seq<char>, nat)| count_of(p),
        ) + e.1,
    decreases acc.len(),
{
    let u = acc.update(j, e);
    if j == acc.len() - 1 {
        assert(u.drop_last() == acc.drop_last());
    } else {
        assert(u.drop_last() == acc.drop_last().update(j, e));
        lemma_total_update(acc.drop_last(), j, e);
    }
}

/// Adds `n` to the count of `name` in `acc`.
fn add_named_count(acc: &mut Vec<(String, usize)>, name: &String, n: usize)
    requires
        sum_of(counts_view(old(acc)@), |p: (Seq<char>, nat)| count_of(p)) + n <= usize::MAX,
    ensures
        counts_view(final(acc)@) == add_count(counts_view(old(acc)@), name@, n as nat),
        sum_of(counts_view(final(acc)@), |p: (Seq<char>, nat)| count_of(p)) == sum_of(
            counts_view(old(acc)@),
            |p: (Seq<char>, nat)| count_of(p),
        ) + n,
{
    let ghost v = counts_view(acc@);
    let mut j: usize = 0;
    while j < acc.len()
        invariant
            j <= acc@.len(),
            acc@ == old(acc)@,
            v == counts_view(acc@),
            find_from(v, name@, 0) == find_from(v, name@, j as int),
            sum_of(v, |p: (Seq<char>, nat)| count_of(p)) + n <= usize::MAX,
        decreases acc@.len() - j,
    {
        if acc[j].0 == *name {
            proof {
                assert(v[j as int].1 == acc@[j as int].1);
                lemma_count_le_total(v, j as int);
                lemma_total_update(v, j as int, (name@, (v[j as int].1 + n) as nat));
            }
            let total = acc[j].1 + n;
            acc.set(j, (name.clone(), total));
            assert(counts_view(acc@) =~= v.update(j as int, (name@, (v[j as int].1 + n) as nat)));
            return;
        }
        j += 1;
    }
    acc.push((name.clone(), n));
    proof {
        assert(counts_view(acc@) =~= v.push((name@, n as nat)));
        assert(counts_view(acc@).drop_last() == v);
    }
}

/// Per vector name, the excluded points of the shards summed, names in order of first report.
fn merge_excluded(shards: &Vec<ReplicaSetTelemetry>) -> (r: Vec<(String, usize)>)
    requires
        excluded_total(shards@) <= usize::MAX,
    ensures
        counts_view(r@) == merged_excluded(shards@),
{
    let mut acc: Vec<(String, usize)> = Vec::new();
    let mut i: usize = 0;
    while i < shards.len()
        invariant
            i <= shards@.len(),
            excluded_total(shards@) <= usize::MAX,
            counts_view(acc@) == merged_excluded(shards@.subrange(0, i as int)),
            sum_of(counts_view(acc@), |p: (Seq<char>, nat)| count_of(p)) == excluded_total(
                shards@.subrange(0, i as int),
            ),
        decreases shards@.len() - i,
    {
        proof {
            assert(shards@.subrange(0, i + 1).drop_last() == shards@.subrange(0, i as int));
            lemma_sum_prefix(shards@, shard_total_fn(), i + 1);
            lemma_sum_step(shards@, shard_total_fn(), i as int);
        }
        let shard = &shards[i];
        if let Some(local) = &shard.local {
            if let Some(entries) = &local.indexed_only_excluded_vectors {
                let ghost start = counts_view(acc@);
                let ghost base = sum_of(start, |p: (Seq<char>, nat)| count_of(p));
                let ghost ev = counts_view(entries@);
                let mut k: usize = 0;
                while k < entries.len()
                    invariant
                        k <= entries@.len(),
                        ev == counts_view(entries@),
                        ev == shard_excluded(shards@[i as int]),
                        base + sum_of(ev, |p: (Seq<char>, nat)| count_of(p)) <= usize::MAX,
                        counts_view(acc@) == merge_entries(start, ev.subrange(0, k as int)),
                        sum_of(counts_view(acc@), |p: (Seq<char>, nat)| count_of(p)) == base
                            + sum_of(ev.subrange(0, k as int), |p: (Seq<char>, nat)| count_of(p)),
                    decreases entries@.len() - k,
                {
                    proof {
                        assert(ev.subrange(0, k + 1).drop_last() == ev.subrange(0, k as int));
                        lemma_sum_prefix(ev, |p: (Seq<char>, nat)| count_of(p), k + 1);
                        lemma_sum_step(ev, |p: (Seq<char>, nat)| count_of(p), k as int);
                    }
                    add_named_count(&mut acc, &entries[k].0, entries[k].1);
                    k += 1;
                }
                assert(ev.subrange(0, ev.len() as int) == ev);
            }
        }
        i += 1;
    }
    assert(shards@.subrange(0, shards@.len() as int) == shards@);
    acc
}

/// The full telemetry in an entry, if it holds one.
pub open spec fn full_of(e: Option<CollectionTelemetryEnum>) -> Option<CollectionTelemetry> {
    match e {
        Some(CollectionTelemetryEnum::Full(c)) => Some(c),
        _ => None,
    }
}

pub open spec fn optimizers_of(e: Option<CollectionTelemetryEnum>) -> nat {
    match full_of(e) {
        Some(c) => c.optimizers_running as nat,
        None => 0,
    }
}

pub open spec fn dead_of(e: Option<CollectionTelemetryEnum>) -> nat {
    match full_of(e) {
        Some(c) => dead_count(c.shards@),
        None => 0,
    }
}

/// The active-replica counts of all shards that are not in an upscale, over all full entries.
pub open spec fn all_eligible(es: Seq<Option<CollectionTelemetryEnum>>) -> Seq<nat>
    decreases es.len(),
{
    if es.len() == 0 {
        Seq::empty()
    } else {
        let prev = all_eligible(es.drop_last());
        match full_of(es.last()) {
            Some(c) => prev + eligible_counts(c.shards@),
            None => prev,
        }
    }
}

pub open spec fn point_sample(c: CollectionTelemetry) -> SampleView {
    gauge_spec(Number { mantissa: c.points as u64, scale: 0 }, seq![("id"@, c.id@)])
}

pub open spec fn vector_samples_of(c: CollectionTelemetry) -> Seq<SampleView> {
    c.points_per_vector@.map_values(
        |p: (String, usize)|
            gauge_spec(
                Number { mantissa: p.1 as u64, scale: 0 },
                seq![("collection"@, c.id@), ("vector"@, p.0@)],
            ),
    )
}

pub open spec fn excluded_samples_of(c: CollectionTelemetry) -> Seq<SampleView> {
    merged_excluded(c.shards@).map_values(
        |p: (Seq<char>, nat)|
            gauge_spec(Number { mantissa: p.1 as u64, scale: 0 }, seq![("id"@, c.id@), ("vector"@, p.0)]),
    )
}

/// One points sample per full entry, labelled by collection id.
pub open spec fn point_samples(es: Seq<Option<CollectionTelemetryEnum>>) -> Seq<SampleView>
    decreases es.len(),
{
    if es.len() == 0 {
        Seq::empty()
    } else {
        let prev = point_samples(es.drop_last());
        match full_of(es.last()) {
            Some(c) => prev.push(point_sample(c)),
            None => prev,
        }
    }
}

pub open spec fn vector_samples(es: Seq<Option<CollectionTelemetryEnum>>) -> Seq<SampleView>
    decreases es.len(),
{
    if es.len() == 0 {
        Seq::empty()
    } else {
        let prev = vector_samples(es.drop_last());
        match full_of(es.last()) {
            Some(c) => prev + vector_samples_of(c),
            None => prev,
        }
    }
}

pub open spec fn excluded_samples(es: Seq<Option<CollectionTelemetryEnum>>) -> Seq<SampleView>
    decreases es.len(),
{
    if es.len() == 0 {
        Seq::empty()
    } else {
        let prev = excluded_samples(es.drop_last());
        match full_of(es.last()) {
            Some(c) => prev + excluded_samples_of(c),
            None => prev,
        }
    }
}

proof fn lemma_min_concat(a: Seq<nat>, b: Seq<nat>)
    requires
        a.len() > 0,
        b.len() > 0,
    ensures
        seq_min(a + b) == if seq_min(b) < seq_min(a) {
            seq_min(b)
        } else {
            seq_min(a)
        },
        seq_max(a + b) == if seq_max(b) > seq_max(a) {
            seq_max(b)
        } else {
            seq_max(a)
        },
{
    lemma_min_is_least(a);
    lemma_min_is_least(b);
    lemma_max_is_greatest(a);
    lemma_max_is_greatest(b);
    let s = a + b;
    let lo = if seq_min(b) < seq_min(a) { seq_min(b) } else { seq_min(a) };
    let hi = if seq_max(b) > seq_max(a) { seq_max(b) } else { seq_max(a) };
    assert forall|i: int| 0 <= i < s.len() implies lo <= s[i] && s[i] <= hi by {
        if i < a.len() {
            assert(s[i] == a[i]);
        } else {
            assert(s[i] == b[i - a.len()]);
        }
    }
    let ja = choose|j: int| 0 <= j < a.len() && a[j] == seq_min(a);
    let jb = choose|j: int| 0 <= j < b.len() && b[j] == seq_min(b);
    let ka = choose|j: int| 0 <= j < a.len() && a[j] == seq_max(a);
    let kb = choose|j: int| 0 <= j < b.len() && b[j] == seq_max(b);
    assert(s[ja] == a[ja]);
    assert(s[a.len() + jb] == b[jb]);
    assert(s[ka] == a[ka]);
    assert(s[a.len() + kb] == b[kb]);
    lemma_min_unique(s, lo);
    lemma_max_unique(s, hi);
}

/// Appends a gauge per named vector count of a collection.
fn push_vector_samples(out: &mut Vec<Sample>, c: &CollectionTelemetry)
    ensures
        samples_view(final(out)@) == samples_view(old(out)@) + vector_samples_of(*c),
{
    let mut k: usize = 0;
    while k < c.points_per_vector.len()
        invariant
            k <= c.points_per_vector@.len(),
            samples_view(out@) == samples_view(old(out)@) + vector_samples_of(*c).subrange(
                0,
                k as int,
            ),
        decreases c.points_per_vector@.len() - k,
    {
        let (name, count) = &c.points_per_vector[k];
        let labels = [("collection", c.id.as_str()), ("vector", name.as_str())];
        let g = gauge(Number::whole(*count as u64), &labels);
        let ghost prev = out@;
        out.push(g);
        proof {
            assert(labels_view(labels@) =~= seq![("collection"@, c.id@), ("vector"@, name@)]);
            assert(samples_view(out@) =~= samples_view(prev).push(g@));
            assert(vector_samples_of(*c).subrange(0, k + 1) =~= vector_samples_of(*c).subrange(
                0,
                k as int,
            ).push(g@));
        }
        k += 1;
    }
    assert(vector_samples_of(*c).subrange(0, c.points_per_vector@.len() as int) =~= vector_samples_of(*c));
}

/// Appends a gauge per vector name with points excluded from indexed-only requests.
fn push_excluded_samples(out: &mut Vec<Sample>, c: &CollectionTelemetry)
    requires
        excluded_total(c.shards@) <= usize::MAX,
    ensures
        samples_view(final(out)@) == samples_view(old(out)@) + excluded_samples_of(*c),
{
    let merged = merge_excluded(&c.shards);
    let mut k: usize = 0;
    while k < merged.len()
        invariant
            k <= merged@.len(),
            counts_view(merged@) == merged_excluded(c.shards@),
            samples_view(out@) == samples_view(old(out)@) + excluded_samples_of(*c).subrange(
                0,
                k as int,
            ),
        decreases merged@.len() - k,
    {
        let (name, count) = &merged[k];
        let labels = [("id", c.id.as_str()), ("vector", name.as_str())];
        let g = gauge(Number::whole(*count as u64), &labels);
        let ghost prev = out@;
        out.push(g);
        proof {
            assert(counts_view(merged@)[k as int] == (name@, *count as nat));
            assert(labels_view(labels@) =~= seq![("id"@, c.id@), ("vector"@, name@)]);
            assert(samples_view(out@) =~= samples_view(prev).push(g@));
            assert(excluded_samples_of(*c).subrange(0, k + 1) =~= excluded_samples_of(*c).subrange(
                0,
                k as int,
            ).push(g@));
        }
        k += 1;
    }
    assert(excluded_samples_of(*c).subrange(0, merged@.len() as int) =~= excluded_samples_of(*c));
}

impl CollectionsTelemetry {
    /// The sums that the rollups take fit in a `usize`.
    pub open spec fn within_limits(&self) -> bool {
        let es = self.collections@;
        &&& sum_of(es, |e: Option<CollectionTelemetryEnum>| optimizers_of(e)) <= usize::MAX
        &&& sum_of(es, |e: Option<CollectionTelemetryEnum>| dead_of(e)) <= usize::MAX
        &&& forall|i: int|
            0 <= i < es.len() ==> match full_of(#[trigger] es[i]) {
                Some(c) => excluded_total(c.shards@) <= usize::MAX,
                None => true,
            }
    }

    /// The families projected from this telemetry, in order.
    pub open spec fn families(&self, prefix: Seq<char>) -> Seq<FamilyView> {
        let es = self.collections@;
        let elig = all_eligible(es);
        seq![
            family_spec(
                "collections_total"@,
                "number of collections"@,
                MetricKind::Gauge,
                seq![plain_gauge(self.number_of_collections as nat)],
                prefix,
            ),
        ] + family_if_any(
            "collection_vectors_total"@,
            "amount of vectors grouped by vector name"@,
            MetricKind::Gauge,
            vector_samples(es),
            prefix,
        ) + family_if_any(
            "collection_indexed_only_excluded_points"@,
            "amount of points excluded in indexed_only requests"@,
            MetricKind::Gauge,
            excluded_samples(es),
            prefix,
        ) + seq![
            family_spec(
                "active_replicas_min"@,
                "minimum number of active replicas across all shards"@,
                MetricKind::Gauge,
                seq![plain_gauge(seq_min(elig))],
                prefix,
            ),
            family_spec(
                "active_replicas_max"@,
                "maximum number of active replicas across all shards"@,
                MetricKind::Gauge,
                seq![plain_gauge(seq_max(elig))],
                prefix,
            ),
            family_spec(
                "optimizer_running_processes"@,
                "number of currently running optimization processes"@,
                MetricKind::Gauge,
                seq![plain_gauge(sum_of(es, |e: Option<CollectionTelemetryEnum>| optimizers_of(e)))],
                prefix,
            ),
        ] + family_if_any(
            "collection_points"@,
            "approximate amount of points per collection"@,
            MetricKind::Gauge,
            point_samples(es),
            prefix,
        ) + seq![
            family_spec(
                "dead_shards_total"@,
                "total amount of shard replicas in non-active state"@,
                MetricKind::Gauge,
                seq![plain_gauge(sum_of(es, |e: Option<CollectionTelemetryEnum>| dead_of(e)))],
                prefix,
            ),
        ]
    }

    /// Appends the collection families: counts, replica bounds, optimizers, points, dead shards.
    #[verifier::spinoff_prover]
    #[verifier::rlimit(40)]
    pub fn add_metrics(&self, metrics: &mut Vec<MetricFamily>, prefix: Option<&str>)
        requires
            self.within_limits(),
        ensures
            families_view(final(metrics)@) == families_view(old(metrics)@) + self.families(
                prefix_of(prefix),
            ),
    {
        let ghost es = self.collections@;
        let ghost fo = |e: Option<CollectionTelemetryEnum>| optimizers_of(e);
        let ghost fd = |e: Option<CollectionTelemetryEnum>| dead_of(e);
        push_gauge(
            metrics,
            "collections_total",
            "number of collections",
            self.number_of_collections as u64,
            prefix,
        );
        let ghost m1 = metrics@;
        let mut total_optimizations_running: usize = 0;
        let mut bounds: Option<(usize, usize)> = None;
        let mut points_per_collection: Vec<Sample> = Vec::new();
        let mut indexed_only_excluded: Vec<Sample> = Vec::new();
        let mut total_dead_shards: usize = 0;
        let mut vector_count_by_name: Vec<Sample> = Vec::new();
        let mut i: usize = 0;
        while i < self.collections.len()
            invariant
                i <= es.len(),
                es == self.collections@,
                self.within_limits(),
                metrics@ == m1,
                fo == (|e: Option<CollectionTelemetryEnum>| optimizers_of(e)),
                fd == (|e: Option<CollectionTelemetryEnum>| dead_of(e)),
                total_optimizations_running == sum_of(es.subrange(0, i as int), fo),
                total_dead_shards == sum_of(es.subrange(0, i as int), fd),
                bounds is None <==> all_eligible(es.subrange(0, i as int)).len() == 0,
                bounds matches Some((lo, hi)) ==> lo == seq_min(all_eligible(es.subrange(0, i as int)))
                    && hi == seq_max(all_eligible(es.subrange(0, i as int))),
                samples_view(points_per_collection@) == point_samples(es.subrange(0, i as int)),
                samples_view(vector_count_by_name@) == vector_samples(es.subrange(0, i as int)),
                samples_view(indexed_only_excluded@) == excluded_samples(es.subrange(0, i as int)),
            decreases es.len() - i,
        {
            proof {
                assert(es.subrange(0, i + 1).drop_last() == es.subrange(0, i as int));
                assert(es.subrange(0, i + 1).last() == es[i as int]);
                lemma_sum_prefix(es, fo, i + 1);
                lemma_sum_prefix(es, fd, i + 1);
                lemma_sum_step(es, fo, i as int);
                lemma_sum_step(es, fd, i as int);
            }
            if let Some(CollectionTelemetryEnum::Full(collection)) = &self.collections[i] {
                proof {
                    assert(full_of(es[i as int]) == Some(*collection));
                }
                total_optimizations_running = total_optimizations_running
                    + collection.optimizers_running;
                let ghost prev_elig = all_eligible(es.subrange(0, i as int));
                let ghost cur = eligible_counts(collection.shards@);
                if let Some((lo, hi)) = shard_bounds(&collection.shards) {
                    bounds = match bounds {
                        None => Some((lo, hi)),
                        Some((tlo, thi)) => {
                            proof {
                                lemma_min_concat(prev_elig, cur);
                            }
                            Some(
                                (
                                    if lo < tlo {
                                        lo
                                    } else {
                                        tlo
                                    },
                                    if hi > thi {
                                        hi
                                    } else {
                                        thi
                                    },
                                ),
                            )
                        },
                    };
                    proof {
                        if prev_elig.len() == 0 {
                            assert(prev_elig + cur =~= cur);
                        }
                    }
                } else {
                    assert(prev_elig + cur =~= prev_elig);
                }
                let ghost pp = points_per_collection@;
                let labels = [("id", collection.id.as_str())];
                let g = gauge(Number::whole(collection.points as u64), &labels);
                points_per_collection.push(g);
                proof {
                    assert(labels_view(labels@) =~= seq![("id"@, collection.id@)]);
                    assert(samples_view(points_per_collection@) =~= samples_view(pp).push(g@));
                }
                push_vector_samples(&mut vector_count_by_name, collection);
                proof {
                    assert(es[i as int] == es.subrange(0, i + 1).last());
                }
                push_excluded_samples(&mut indexed_only_excluded, collection);
                total_dead_shards = total_dead_shards + count_dead(&collection.shards);
            } else {
                proof {
                    assert(full_of(es[i as int]) is None);
                }
            }
            i += 1;
        }
        proof {
            assert(es.subrange(0, es.len() as int) == es);
        }
        push_if_any(
            metrics,
            "collection_vectors_total",
            "amount of vectors grouped by vector name",
            MetricKind::Gauge,
            vector_count_by_name,
            prefix,
        );
        push_if_any(
            metrics,
            "collection_indexed_only_excluded_points",
            "amount of points excluded in indexed_only requests",
            MetricKind::Gauge,
            indexed_only_excluded,
            prefix,
        );
        let (min_active, max_active) = match bounds {
            Some((lo, hi)) => (lo, hi),
            None => (0, 0),
        };
        push_gauge(
            metrics,
            "active_replicas_min",
            "minimum number of active replicas across all shards",
            min_active as u64,
            prefix,
        );
        push_gauge(
            metrics,
            "active_replicas_max",
            "maximum number of active replicas across all shards",
            max_active as u64,
            prefix,
        );
        push_gauge(
            metrics,
            "optimizer_running_processes",
            "number of currently running optimization processes",
            total_optimizations_running as u64,
            prefix,
        );
        push_if_any(
            metrics,
            "collection_points",
            "approximate amount of points per collection",
            MetricKind::Gauge,
            points_per_collection,
            prefix,
        );
        push_gauge(
            metrics,
            "dead_shards_total",
            "total amount of shard replicas in non-active state",
            total_dead_shards as u64,
            prefix,
        );
        assert(families_view(metrics@) =~= families_view(old(metrics)@) + self.families(
            prefix_of(prefix),
        ));
    }
}

/// Whether the excluded points that the shards report sum to at most `usize::MAX`.
fn excluded_fits(shards: &Vec<ReplicaSetTelemetry>) -> (r: bool)
    ensures
        r == (excluded_total(shards@) <= usize::MAX),
{
    let ghost fs = shard_total_fn();
    let ghost fc = |p: (Seq<char>, nat)| count_of(p);
    let mut acc: usize = 0;
    let mut i: usize = 0;
    while i < shards.len()
        invariant
            i <= shards@.len(),
            fs == shard_total_fn(),
            fc == (|p: (Seq<char>, nat)| count_of(p)),
            acc == sum_of(shards@.subrange(0, i as int), fs),
        decreases shards@.len() - i,
    {
        proof {
            lemma_sum_prefix(shards@, fs, i + 1);
            lemma_sum_step(shards@, fs, i as int);
        }
        let ghost before = acc;
        if let Some(local) = &shards[i].local {
            if let Some(entries) = &local.indexed_only_excluded_vectors {
                let ghost ev = counts_view(entries@);
                assert(ev == shard_excluded(shards@[i as int]));
                let mut k: usize = 0;
                while k < entries.len()
                    invariant
                        k <= entries@.len(),
                        ev == counts_view(entries@),
                        ev == shard_excluded(shards@[i as int]),
                        fc == (|p: (Seq<char>, nat)| count_of(p)),
                        fs == shard_total_fn(),
                        sum_of(shards@.subrange(0, i + 1), fs) == before + sum_of(ev, fc),
                        sum_of(shards@.subrange(0, i + 1), fs) <= sum_of(shards@, fs),
                        acc == before + sum_of(ev.subrange(0, k as int), fc),
                    decreases entries@.len() - k,
                {
                    proof {
                        lemma_sum_prefix(ev, fc, k + 1);
                        lemma_sum_step(ev, fc, k as int);
                    }
                    let n = entries[k].1;
                    assert(fc(ev[k as int]) == n);
                    if acc > usize::MAX - n {
                        assert(sum_of(ev.subrange(0, k + 1), fc) <= sum_of(ev, fc));
                        assert(before + sum_of(ev.subrange(0, k + 1), fc) > usize::MAX);
                        assert(sum_of(shards@, fs) > usize::MAX);
                        return false;
                    }
                    acc = acc + n;
                    k += 1;
                }
                assert(ev.subrange(0, ev.len() as int) == ev);
            }
        }
        i += 1;
    }
    assert(shards@.subrange(0, shards@.len() as int) == shards@);
    true
}

impl CollectionsTelemetry {
    /// Whether the sums that the rollups take fit in a `usize`.
    pub fn sums_fit(&self) -> (r: bool)
        ensures
            r == self.within_limits(),
    {
        let ghost es = self.collections@;
        let ghost fo = |e: Option<CollectionTelemetryEnum>| optimizers_of(e);
        let ghost fd = |e: Option<CollectionTelemetryEnum>| dead_of(e);
        let mut opt: usize = 0;
        let mut dead: usize = 0;
        let mut i: usize = 0;
        while i < self.collections.len()
            invariant
                es == self.collections@,
                i <= es.len(),
                fo == (|e: Option<CollectionTelemetryEnum>| optimizers_of(e)),
                fd == (|e: Option<CollectionTelemetryEnum>| dead_of(e)),
                opt == sum_of(es.subrange(0, i as int), fo),
                dead == sum_of(es.subrange(0, i as int), fd),
                forall|j: int|
                    0 <= j < i ==> match full_of(#[trigger] es[j]) {
                        Some(c) => excluded_total(c.shards@) <= usize::MAX,
                        None => true,
                    },
            decreases es.len() - i,
        {
            proof {
                lemma_sum_prefix(es, fo, i + 1);
                lemma_sum_prefix(es, fd, i + 1);
                lemma_sum_step(es, fo, i as int);
                lemma_sum_step(es, fd, i as int);
            }
            if let Some(CollectionTelemetryEnum::Full(c)) = &self.collections[i] {
                assert(full_of(es[i as int]) == Some(*c));
                if opt > usize::MAX - c.optimizers_running {
                    return false;
                }
                opt = opt + c.optimizers_running;
                let d = count_dead(&c.shards);
                if dead > usize::MAX - d {
                    return false;
                }
                dead = dead + d;
                if !excluded_fits(&c.shards) {
                    return false;
                }
            }
            i += 1;
        }
        assert(es.subrange(0, es.len() as int) == es);
        true
    }
}

/// A shard with a replica in the `Resharding` state takes no part in the active-replica bounds:
/// adding it leaves the eligible counts, and so the minimum and the maximum, as they were.
pub proof fn lemma_upscale_shard_ignored(shards: Seq<ReplicaSetTelemetry>, shard: ReplicaSetTelemetry)
    requires
        in_upscale(shard.replicate_states@),
    ensures
        eligible_counts(shards.push(shard)) == eligible_counts(shards),
        seq_min(eligible_counts(shards.push(shard))) == seq_min(eligible_counts(shards)),
        seq_max(eligible_counts(shards.push(shard))) == seq_max(eligible_counts(shards)),
{
    assert(shards.push(shard).drop_last() == shards);
}

/// With no full collection entry (none at all, or only aggregated or missing ones), the
/// active-replica minimum and maximum are both 0.
pub proof fn lemma_no_full_collections_zero_bounds(es: Seq<Option<CollectionTelemetryEnum>>)
    requires
        forall|i: int| 0 <= i < es.len() ==> full_of(#[trigger] es[i]) is None,
    ensures
        seq_min(all_eligible(es)) == 0,
        seq_max(all_eligible(es)) == 0,
{
    lemma_no_full_empty(es);
}

proof fn lemma_no_full_empty(es: Seq<Option<CollectionTelemetryEnum>>)
    requires
        forall|i: int| 0 <= i < es.len() ==> full_of(#[trigger] es[i]) is None,
    ensures
        all_eligible(es).len() == 0,
    decreases es.len(),
{
    if es.len() > 0 {
        assert forall|i: int| 0 <= i < es.drop_last().len() implies full_of(
            #[trigger] es.drop_last()[i],
        ) is None by {
            assert(es.drop_last()[i] == es[i]);
        }
        lemma_no_full_empty(es.drop_last());
        assert(full_of(es[es.len() - 1]) is None);
    }
}

} // verus!
