//! A registry in memory.
//!
//! The registry holds one sample for each series that was ever touched. A
//! series comes into being with its first observation, and is found again by
//! its metric and labels from then on. Observations of a metric that is
//! switched off leave the registry as it is.

use crate::buckets::bucket_of;
use crate::buckets::Buckets;
use crate::metric::OptionalMetrics;
use crate::samples::all_fit;
use crate::samples::counter_at;
use crate::samples::fits;
use crate::samples::gauge_at;
use crate::samples::observed;
use crate::samples::recorded;
use crate::samples::sample_at;
use crate::samples::untouched;
use crate::samples::Observation;
use crate::samples::Sample;
use crate::series::Counter;
use crate::series::Gauge;
use crate::series::Histogram;
use crate::series::Series;
use crate::series::SeriesKey;
use crate::series::TimeHistogram;
use vstd::prelude::*;

verus! {

/// A sample as it is read from a registry.
#[derive(Debug, PartialEq, Eq)]
pub enum Reading {
    /// The total of a counter.
    Counter(u64),
    /// The value of a gauge.
    Gauge(u64),
    /// The observations of a histogram: how many fell into each bucket, and
    /// their sum.
    Histogram { counts: Vec<u64>, sum: u64 },
}

impl Clone for Reading {
    fn clone(&self) -> (r: Self)
        ensures
            r@ == self@,
    {
        match self {
            Reading::Counter(total) => Reading::Counter(*total),
            Reading::Gauge(value) => Reading::Gauge(*value),
            Reading::Histogram { counts, sum } => Reading::Histogram {
                counts: counts.clone(),
                sum: *sum,
            },
        }
    }
}

impl View for Reading {
    type V = Sample;

    open spec fn view(&self) -> Sample {
        match *self {
            Reading::Counter(total) => Sample::Counter(total),
            Reading::Gauge(value) => Sample::Gauge(value),
            Reading::Histogram { counts, sum } => Sample::Histogram { counts: counts@, sum },
        }
    }
}

/// The counts and the sum of one histogram series, with its boundaries.
struct Distribution {
    buckets: Buckets,
    counts: Vec<u64>,
    sum: u64,
}

enum Value {
    Counter(u64),
    Gauge(u64),
    Histogram(Distribution),
}

impl View for Value {
    type V = Sample;

    closed spec fn view(&self) -> Sample {
        match *self {
            Value::Counter(total) => Sample::Counter(total),
            Value::Gauge(value) => Sample::Gauge(value),
            Value::Histogram(distribution) => Sample::Histogram {
                counts: distribution.counts@,
                sum: distribution.sum,
            },
        }
    }
}

impl Distribution {
    spec fn wf(self) -> bool {
        self.counts@.len() == self.buckets.bounds_spec().len() + 1
    }

    /// Nothing observed yet: a zero for each bucket.
    fn new(buckets: Buckets) -> (r: Distribution)
        ensures
            r.wf(),
            r.buckets == buckets,
            r.counts@ == Seq::new(buckets.bounds_spec().len() + 1, |i: int| 0u64),
            r.sum == 0,
    {
        let mut counts: Vec<u64> = Vec::new();
        counts.push(0);
        let mut i: usize = 0;
        while i < buckets.len()
            invariant
                i <= buckets.bounds_spec().len(),
                counts@ == Seq::new(i as nat + 1, |k: int| 0u64),
            decreases buckets.bounds_spec().len() - i,
        {
            counts.push(0);
            i += 1;
            assert(counts@ =~= Seq::new(i as nat + 1, |k: int| 0u64));
        }
        Distribution { buckets, counts, sum: 0 }
    }

    /// Counts `value` in its bucket.
    fn observe(&mut self, value: u64)
        requires
            old(self).wf(),
        ensures
            final(self).wf(),
            final(self).buckets == old(self).buckets,
            final(self).counts@ == old(self).counts@.update(
                bucket_of(old(self).buckets.bounds_spec(), value) as int,
                old(self).counts@[bucket_of(
                    old(self).buckets.bounds_spec(),
                    value,
                ) as int].saturating_add(1),
            ),
            final(self).sum == old(self).sum.saturating_add(value),
    {
        let bucket = self.buckets.bucket_index(value);
        let count = self.counts[bucket];
        self.counts.set(bucket, count.saturating_add(1));
        self.sum = self.sum.saturating_add(value);
    }
}

impl Value {
    /// The value of a series that has seen nothing yet.
    fn untouched(series: &Series) -> (r: Value)
        ensures
            r@ == untouched(series@),
            r matches Value::Histogram(distribution) ==> distribution.wf()
                && distribution.buckets.bounds_spec() == series@.metric().bounds_spec(),
    {
        let metric = series.metric();
        match metric.buckets() {
            Some(buckets) => Value::Histogram(Distribution::new(buckets)),
            None => match series {
                Series::Counter(_) => Value::Counter(0),
                _ => Value::Gauge(0),
            },
        }
    }

    fn read(&self) -> (r: Reading)
        ensures
            r@ == self@,
    {
        match self {
            Value::Counter(total) => Reading::Counter(*total),
            Value::Gauge(value) => Reading::Gauge(*value),
            Value::Histogram(distribution) => Reading::Histogram {
                counts: distribution.counts.clone(),
                sum: distribution.sum,
            },
        }
    }

    /// Takes an observation of the series `key`.
    fn observe(&mut self, Ghost(key): Ghost<SeriesKey>, observation: Observation)
        requires
            fits(key, old(self)@),
            *old(self) matches Value::Histogram(distribution) ==> distribution.wf()
                && distribution.buckets.bounds_spec() == key.metric().bounds_spec(),
        ensures
            final(self)@ == observed(key, old(self)@, observation),
            fits(key, final(self)@),
            *final(self) matches Value::Histogram(distribution) ==> distribution.wf()
                && distribution.buckets.bounds_spec() == key.metric().bounds_spec(),
    {
        match (self, observation) {
            (Value::Counter(total), Observation::Increase(n)) => {
                *total = total.saturating_add(n);
            },
            (Value::Gauge(value), Observation::Increase(n)) => {
                *value = value.saturating_add(n);
            },
            (Value::Gauge(value), Observation::Decrease(n)) => {
                *value = value.saturating_sub(n);
            },
            (Value::Gauge(value), Observation::SetTo(n)) => {
                *value = n;
            },
            (Value::Histogram(distribution), Observation::Observe(value)) => {
                distribution.observe(value);
            },
            _ => {},
        }
    }
}

struct Entry {
    series: Series,
    value: Value,
}

impl Entry {
    /// The value is of the series' kind, and a histogram has the boundaries
    /// of its metric.
    spec fn wf(self) -> bool {
        &&& fits(self.series@, self.value@)
        &&& self.value matches Value::Histogram(distribution) ==> {
            &&& distribution.wf()
            &&& distribution.buckets.bounds_spec() == self.series@.metric().bounds_spec()
        }
    }
}

/// Whether some entry is of the series `key`.
spec fn any_of(entries: Seq<Entry>, key: SeriesKey) -> bool {
    exists|i: int| 0 <= i < entries.len() && #[trigger] entries[i].series@ == key
}

/// The place of the entry of the series `key`.
spec fn place_of(entries: Seq<Entry>, key: SeriesKey) -> int {
    choose|i: int| 0 <= i < entries.len() && #[trigger] entries[i].series@ == key
}

/// No two entries are of one series.
spec fn distinct(entries: Seq<Entry>) -> bool {
    forall|i: int, j: int|
        0 <= i < j < entries.len() ==> #[trigger] entries[i].series@
            != #[trigger] entries[j].series@
}

spec fn samples_of(entries: Seq<Entry>) -> Map<SeriesKey, Sample> {
    Map::new(
        |key: SeriesKey| any_of(entries, key),
        |key: SeriesKey| entries[place_of(entries, key)].value@,
    )
}

proof fn lemma_sample_of_entry(entries: Seq<Entry>, i: int)
    requires
        distinct(entries),
        0 <= i < entries.len(),
    ensures
        samples_of(entries).contains_key(entries[i].series@),
        samples_of(entries)[entries[i].series@] == entries[i].value@,
{
    let key = entries[i].series@;
    assert(any_of(entries, key));
    let j = place_of(entries, key);
    assert(entries[j].series@ == key);
    assert(i == j);
}

proof fn lemma_samples_after_push(entries: Seq<Entry>, entry: Entry)
    requires
        distinct(entries),
        !any_of(entries, entry.series@),
    ensures
        distinct(entries.push(entry)),
        samples_of(entries.push(entry)) == samples_of(entries).insert(entry.series@, entry.value@),
{
    let after = entries.push(entry);
    assert forall|i: int, j: int| 0 <= i < j < after.len() implies #[trigger] after[i].series@
        != #[trigger] after[j].series@ by {
        if j == entries.len() {
            assert(entries[i].series@ == after[i].series@);
        } else {
            assert(entries[i].series@ != entries[j].series@);
        }
    }
    assert forall|key: SeriesKey| #[trigger]
        any_of(after, key) == (any_of(entries, key) || key == entry.series@) by {
        if any_of(entries, key) {
            let i = place_of(entries, key);
            assert(after[i].series@ == key);
        }
        if key == entry.series@ {
            assert(after[entries.len() as int].series@ == key);
        }
        if any_of(after, key) {
            let i = place_of(after, key);
            if i < entries.len() {
                assert(entries[i].series@ == key);
            }
        }
    }
    assert forall|key: SeriesKey| #[trigger] any_of(after, key) implies samples_of(after)[key]
        == samples_of(entries).insert(entry.series@, entry.value@)[key] by {
        if key == entry.series@ {
            lemma_sample_of_entry(after, entries.len() as int);
        } else {
            let i = place_of(entries, key);
            assert(entries[i].series@ == key);
            lemma_sample_of_entry(entries, i);
            assert(after[i].series@ == key);
            lemma_sample_of_entry(after, i);
        }
    }
    assert(samples_of(after) =~= samples_of(entries).insert(entry.series@, entry.value@));
}

proof fn lemma_samples_after_update(entries: Seq<Entry>, i: int, entry: Entry)
    requires
        distinct(entries),
        0 <= i < entries.len(),
        entries[i].series@ == entry.series@,
    ensures
        distinct(entries.update(i, entry)),
        samples_of(entries.update(i, entry)) == samples_of(entries).insert(
            entry.series@,
            entry.value@,
        ),
{
    let after = entries.update(i, entry);
    assert forall|a: int, b: int| 0 <= a < b < after.len() implies #[trigger] after[a].series@
        != #[trigger] after[b].series@ by {
        assert(entries[a].series@ != entries[b].series@);
    }
    assert forall|key: SeriesKey| #[trigger] any_of(after, key) == any_of(entries, key) by {
        if any_of(entries, key) {
            let j = place_of(entries, key);
            assert(after[j].series@ == key);
        }
        if any_of(after, key) {
            let j = place_of(after, key);
            assert(entries[j].series@ == key);
        }
    }
    assert(any_of(entries, entry.series@));
    assert forall|key: SeriesKey| #[trigger] any_of(after, key) implies samples_of(after)[key]
        == samples_of(entries).insert(entry.series@, entry.value@)[key] by {
        let j = place_of(entries, key);
        assert(entries[j].series@ == key);
        assert(after[j].series@ == key);
        lemma_sample_of_entry(entries, j);
        lemma_sample_of_entry(after, j);
    }
    assert(samples_of(after) =~= samples_of(entries).insert(entry.series@, entry.value@));
}

proof fn lemma_as_many_samples_as_entries(entries: Seq<Entry>)
    requires
        distinct(entries),
    ensures
        samples_of(entries).dom().finite(),
        samples_of(entries).dom().len() == entries.len(),
    decreases entries.len(),
{
    if entries.len() == 0 {
        assert(samples_of(entries).dom() =~= Set::<SeriesKey>::empty());
    } else {
        let rest = entries.drop_last();
        let last = entries.last();
        assert(entries =~= rest.push(last));
        assert forall|i: int, j: int| 0 <= i < j < rest.len() implies #[trigger] rest[i].series@
            != #[trigger] rest[j].series@ by {
            assert(entries[i].series@ != entries[j].series@);
        }
        if any_of(rest, last.series@) {
            let i = place_of(rest, last.series@);
            assert(entries[i].series@ == entries[entries.len() - 1].series@);
        }
        lemma_as_many_samples_as_entries(rest);
        lemma_samples_after_push(rest, last);
        assert(samples_of(entries).dom() =~= samples_of(rest).dom().insert(last.series@));
    }
}

/// The place of the entry of a series, if it has one.
fn find(entries: &Vec<Entry>, series: &Series) -> (r: Option<usize>)
    ensures
        r matches Some(i) ==> i < entries@.len() && entries@[i as int].series@ == series@,
        r is None ==> !any_of(entries@, series@),
{
    let mut i: usize = 0;
    while i < entries.len()
        invariant
            i <= entries@.len(),
            forall|k: int| 0 <= k < i ==> (#[trigger] entries@[k]).series@ != series@,
        decreases entries@.len() - i,
    {
        if entries[i].series.same(series) {
            return Some(i);
        }
        i += 1;
    }
    None
}

/// A registry in memory: the samples of all series that were touched.
pub struct Registry {
    optional: OptionalMetrics,
    entries: Vec<Entry>,
}

impl View for Registry {
    type V = Map<SeriesKey, Sample>;

    /// The sample of each series that was touched.
    closed spec fn view(&self) -> Map<SeriesKey, Sample> {
        samples_of(self.entries@)
    }
}

impl Registry {
    #[verifier::type_invariant]
    spec fn valid(self) -> bool {
        self.wf()
    }

    /// Each series has one entry, whose sample is of the series' kind, and no
    /// series of a metric that is switched off has one. This holds of every
    /// registry.
    pub closed spec fn wf(&self) -> bool {
        &&& distinct(self.entries@)
        &&& forall|i: int| 0 <= i < self.entries@.len() ==> (#[trigger] self.entries@[i]).wf()
        &&& forall|i: int|
            0 <= i < self.entries@.len() ==> self.optional.enables(
                (#[trigger] self.entries@[i]).series@.metric(),
            )
    }

    /// The optional metrics that the registry was made with.
    pub closed spec fn optional_spec(&self) -> OptionalMetrics {
        self.optional
    }

    /// A registry without series.
    pub fn new(optional: OptionalMetrics) -> (r: Registry)
        ensures
            r.wf(),
            r@ == Map::<SeriesKey, Sample>::empty(),
            r.optional_spec() == optional,
    {
        let r = Registry { optional, entries: Vec::new() };
        assert(r@ =~= Map::<SeriesKey, Sample>::empty());
        r
    }

    /// The optional metrics that the registry was made with.
    pub fn optional(&self) -> (r: OptionalMetrics)
        ensures
            r == self.optional_spec(),
    {
        self.optional
    }

    /// The number of series that were touched.
    pub fn len(&self) -> (r: usize)
        ensures
            self.wf(),
            self@.dom().finite(),
            r == self@.dom().len(),
    {
        proof {
            use_type_invariant(self);
            lemma_as_many_samples_as_entries(self.entries@);
        }
        self.entries.len()
    }

    /// Records an observation of a series. The series comes into being with
    /// its first observation; later ones find it again.
    pub fn record(&mut self, series: Series, observation: Observation)
        ensures
            final(self).wf(),
            final(self).optional_spec() == old(self).optional_spec(),
            final(self)@ == recorded(old(self).optional_spec(), old(self)@, series@, observation),
    {
        proof {
            use_type_invariant(&*self);
        }
        let metric = series.metric();
        if !self.optional.is_enabled(metric) || !observation.can_apply_to(&series) {
            return;
        }
        // The entries are taken out while one of them changes, and put back.
        let mut entries: Vec<Entry> = Vec::new();
        std::mem::swap(&mut self.entries, &mut entries);
        let ghost before = entries@;
        match find(&entries, &series) {
            Some(i) => {
                proof {
                    lemma_sample_of_entry(before, i as int);
                }
                let entry = &mut entries[i];
                entry.value.observe(Ghost(series@), observation);
                proof {
                    lemma_samples_after_update(before, i as int, entries@[i as int]);
                }
            },
            None => {
                let mut value = Value::untouched(&series);
                value.observe(Ghost(series@), observation);
                let entry = Entry { series, value };
                proof {
                    lemma_samples_after_push(before, entry);
                }
                entries.push(entry);
            },
        }
        std::mem::swap(&mut self.entries, &mut entries);
    }

    /// Adds one to a counter.
    pub fn inc(&mut self, counter: Counter)
        ensures
            final(self).wf(),
            final(self).optional_spec() == old(self).optional_spec(),
            final(self)@ == recorded(
                old(self).optional_spec(),
                old(self)@,
                SeriesKey::Counter(counter@),
                Observation::Increase(1),
            ),
    {
        self.record(Series::Counter(counter), Observation::Increase(1));
    }

    /// Adds `n` to a counter.
    pub fn inc_by(&mut self, counter: Counter, n: u64)
        ensures
            final(self).wf(),
            final(self).optional_spec() == old(self).optional_spec(),
            final(self)@ == recorded(
                old(self).optional_spec(),
                old(self)@,
                SeriesKey::Counter(counter@),
                Observation::Increase(n),
            ),
    {
        self.record(Series::Counter(counter), Observation::Increase(n));
    }

    /// Adds one to a gauge.
    pub fn gauge_inc(&mut self, gauge: Gauge)
        ensures
            final(self).wf(),
            final(self).optional_spec() == old(self).optional_spec(),
            final(self)@ == recorded(
                old(self).optional_spec(),
                old(self)@,
                SeriesKey::Gauge(gauge),
                Observation::Increase(1),
            ),
    {
        self.record(Series::Gauge(gauge), Observation::Increase(1));
    }

    /// Takes one from a gauge.
    pub fn gauge_dec(&mut self, gauge: Gauge)
        ensures
            final(self).wf(),
            final(self).optional_spec() == old(self).optional_spec(),
            final(self)@ == recorded(
                old(self).optional_spec(),
                old(self)@,
                SeriesKey::Gauge(gauge),
                Observation::Decrease(1),
            ),
    {
        self.record(Series::Gauge(gauge), Observation::Decrease(1));
    }

    /// Sets a gauge.
    pub fn gauge_set(&mut self, gauge: Gauge, value: u64)
        ensures
            final(self).wf(),
            final(self).optional_spec() == old(self).optional_spec(),
            final(self)@ == recorded(
                old(self).optional_spec(),
                old(self)@,
                SeriesKey::Gauge(gauge),
                Observation::SetTo(value),
            ),
    {
        self.record(Series::Gauge(gauge), Observation::SetTo(value));
    }

    /// Counts a value in a histogram. The value is given in the parts in which
    /// the metric's boundaries are.
    pub fn observe(&mut self, histogram: Histogram, value: u64)
        ensures
            final(self).wf(),
            final(self).optional_spec() == old(self).optional_spec(),
            final(self)@ == recorded(
                old(self).optional_spec(),
                old(self)@,
                SeriesKey::Histogram(histogram),
                Observation::Observe(value),
            ),
    {
        self.record(Series::Histogram(histogram), Observation::Observe(value));
    }

    /// Counts a duration, given in nanoseconds, in a duration histogram.
    pub fn observe_duration(&mut self, histogram: TimeHistogram, nanos: u64)
        ensures
            final(self).wf(),
            final(self).optional_spec() == old(self).optional_spec(),
            final(self)@ == recorded(
                old(self).optional_spec(),
                old(self)@,
                SeriesKey::TimeHistogram(histogram@),
                Observation::Observe(nanos),
            ),
    {
        self.record(Series::TimeHistogram(histogram), Observation::Observe(nanos));
    }

    /// The sample of a series; that of a series which has seen nothing where
    /// the series was never touched.
    pub fn sample(&self, series: Series) -> (r: Reading)
        ensures
            self.wf(),
            r@ == sample_at(self@, series@),
            fits(series@, r@),
    {
        proof {
            use_type_invariant(self);
        }
        match find(&self.entries, &series) {
            Some(i) => {
                proof {
                    lemma_sample_of_entry(self.entries@, i as int);
                    assert(self.entries@[i as int].wf());
                }
                self.entries[i].value.read()
            },
            None => Value::untouched(&series).read(),
        }
    }

    /// The total of a counter; zero before its first increment.
    pub fn counter_value(&self, counter: Counter) -> (total: u64)
        ensures
            total == counter_at(self@, counter@),
    {
        match self.sample(Series::Counter(counter)) {
            Reading::Counter(total) => total,
            _ => 0,
        }
    }

    /// The value of a gauge; zero before it is first touched.
    pub fn gauge_value(&self, gauge: Gauge) -> (value: u64)
        ensures
            value == gauge_at(self@, gauge),
    {
        match self.sample(Series::Gauge(gauge)) {
            Reading::Gauge(value) => value,
            _ => 0,
        }
    }

    /// Whether a series was ever touched.
    pub fn contains(&self, series: Series) -> (r: bool)
        ensures
            r == self@.contains_key(series@),
    {
        find(&self.entries, &series).is_some()
    }

    /// In a registry, every sample is of the kind of its series, and no
    /// series belongs to a metric that is switched off.
    pub proof fn lemma_samples_fit(&self)
        requires
            self.wf(),
        ensures
            all_fit(self@),
            forall|key: SeriesKey| #[trigger]
                self@.contains_key(key) ==> self.optional_spec().enables(key.metric()),
            self@.dom().finite(),
    {
        lemma_as_many_samples_as_entries(self.entries@);
        assert forall|key: SeriesKey| #[trigger] self@.contains_key(key) implies fits(
            key,
            self@[key],
        ) && self.optional_spec().enables(key.metric()) by {
            let i = place_of(self.entries@, key);
            lemma_sample_of_entry(self.entries@, i);
            assert(self.entries@[i].wf());
        }
    }

}

} // verus!
