//! What a registry holds, and what an observation does to it.
//!
//! A registry is a map from series to samples. An observation of a series
//! changes the sample of that series and nothing else; where the series has
//! no sample yet, it starts from the sample of a series that has seen nothing.
//! What holds of every registry is stated here, of the map alone.

use crate::buckets::bucket_of;
use crate::buckets::lemma_bucket_of;
use crate::metric::OptionalMetrics;
use crate::series::CounterKey;
use crate::series::Gauge;
use crate::series::Series;
use crate::series::SeriesKey;
use vstd::prelude::*;

verus! {

/// What a series has accumulated.
pub enum Sample {
    /// The total of a counter.
    Counter(u64),
    /// The value of a gauge.
    Gauge(u64),
    /// The observations of a histogram: how many fell into each bucket, and
    /// their sum, in the parts in which the metric's boundaries are given.
    Histogram { counts: Seq<u64>, sum: u64 },
}

/// Whether a sample is of the kind of its series, with one count for each
/// bucket where the series is a histogram.
pub open spec fn fits(key: SeriesKey, sample: Sample) -> bool {
    match key {
        SeriesKey::Counter(_) => sample is Counter,
        SeriesKey::Gauge(_) => sample is Gauge,
        SeriesKey::Histogram(_) | SeriesKey::TimeHistogram(_) => {
            &&& sample matches Sample::Histogram { counts, .. }
            &&& counts.len() == key.metric().bounds_spec().len() + 1
        },
    }
}

/// The sample of a series that has seen nothing yet.
pub open spec fn untouched(key: SeriesKey) -> Sample {
    match key {
        SeriesKey::Counter(_) => Sample::Counter(0),
        SeriesKey::Gauge(_) => Sample::Gauge(0),
        SeriesKey::Histogram(_) | SeriesKey::TimeHistogram(_) => Sample::Histogram {
            counts: Seq::new(key.metric().bounds_spec().len() + 1, |i: int| 0u64),
            sum: 0,
        },
    }
}

/// The sample of a series in a registry, touched or not.
pub open spec fn sample_at(samples: Map<SeriesKey, Sample>, key: SeriesKey) -> Sample {
    if samples.contains_key(key) {
        samples[key]
    } else {
        untouched(key)
    }
}

/// What happens to a series.
#[derive(Clone, Copy, Debug, PartialEq, Eq, Structural)]
pub enum Observation {
    /// A counter or a gauge goes up.
    Increase(u64),
    /// A gauge goes down.
    Decrease(u64),
    /// A gauge takes a value.
    SetTo(u64),
    /// A histogram counts a value.
    Observe(u64),
}

impl Observation {
    /// Whether a series of this kind can take the observation: a counter only
    /// goes up, a gauge goes up and down and is set, a histogram observes.
    pub open spec fn applies_to(self, key: SeriesKey) -> bool {
        match (key, self) {
            (SeriesKey::Counter(_), Observation::Increase(_)) => true,
            (SeriesKey::Gauge(_), Observation::Increase(_)) => true,
            (SeriesKey::Gauge(_), Observation::Decrease(_)) => true,
            (SeriesKey::Gauge(_), Observation::SetTo(_)) => true,
            (SeriesKey::Histogram(_), Observation::Observe(_)) => true,
            (SeriesKey::TimeHistogram(_), Observation::Observe(_)) => true,
            _ => false,
        }
    }

    /// Whether a series of this kind can take the observation.
    pub fn can_apply_to(&self, series: &Series) -> (r: bool)
        ensures
            r == self.applies_to(series@),
    {
        match (series, self) {
            (Series::Counter(_), Observation::Increase(_)) => true,
            (Series::Gauge(_), Observation::Increase(_)) => true,
            (Series::Gauge(_), Observation::Decrease(_)) => true,
            (Series::Gauge(_), Observation::SetTo(_)) => true,
            (Series::Histogram(_), Observation::Observe(_)) => true,
            (Series::TimeHistogram(_), Observation::Observe(_)) => true,
            _ => false,
        }
    }
}

/// A sample after an observation of its series. Totals stop at the largest
/// number that can be held, and a gauge stops at zero.
pub open spec fn observed(key: SeriesKey, sample: Sample, observation: Observation) -> Sample {
    match (sample, observation) {
        (Sample::Counter(total), Observation::Increase(n)) => {
            Sample::Counter(total.saturating_add(n))
        },
        (Sample::Gauge(value), Observation::Increase(n)) => Sample::Gauge(value.saturating_add(n)),
        (Sample::Gauge(value), Observation::Decrease(n)) => Sample::Gauge(value.saturating_sub(n)),
        (Sample::Gauge(_), Observation::SetTo(value)) => Sample::Gauge(value),
        (Sample::Histogram { counts, sum }, Observation::Observe(value)) => {
            let bucket = bucket_of(key.metric().bounds_spec(), value) as int;
            Sample::Histogram {
                counts: counts.update(bucket, counts[bucket].saturating_add(1)),
                sum: sum.saturating_add(value),
            }
        },
        _ => sample,
    }
}

/// Whether an observation of the series `key` is recorded: its metric is
/// switched on, and the observation is one that a series of its kind takes.
pub open spec fn takes(
    optional: OptionalMetrics,
    key: SeriesKey,
    observation: Observation,
) -> bool {
    optional.enables(key.metric()) && observation.applies_to(key)
}

/// The samples of a registry after an observation of one series: that series
/// has its new sample, and every other series has the sample it had. Where
/// the observation is not recorded, nothing changes.
pub open spec fn recorded(
    optional: OptionalMetrics,
    samples: Map<SeriesKey, Sample>,
    key: SeriesKey,
    observation: Observation,
) -> Map<SeriesKey, Sample> {
    if takes(optional, key, observation) {
        samples.insert(key, observed(key, sample_at(samples, key), observation))
    } else {
        samples
    }
}

/// The total of a counter in a registry; zero before its first increment.
pub open spec fn counter_at(samples: Map<SeriesKey, Sample>, key: CounterKey) -> u64 {
    match sample_at(samples, SeriesKey::Counter(key)) {
        Sample::Counter(total) => total,
        _ => 0,
    }
}

/// The value of a gauge in a registry; zero before it is first touched.
pub open spec fn gauge_at(samples: Map<SeriesKey, Sample>, gauge: Gauge) -> u64 {
    match sample_at(samples, SeriesKey::Gauge(gauge)) {
        Sample::Gauge(value) => value,
        _ => 0,
    }
}

/// Every sample is of the kind of its series.
pub open spec fn all_fit(samples: Map<SeriesKey, Sample>) -> bool {
    forall|key: SeriesKey| samples.contains_key(key) ==> fits(key, #[trigger] samples[key])
}

/// The samples after the same observation was recorded `times` times.
pub open spec fn recorded_times(
    optional: OptionalMetrics,
    samples: Map<SeriesKey, Sample>,
    key: SeriesKey,
    observation: Observation,
    times: nat,
) -> Map<SeriesKey, Sample>
    decreases times,
{
    if times == 0 {
        samples
    } else {
        recorded(
            optional,
            recorded_times(optional, samples, key, observation, (times - 1) as nat),
            key,
            observation,
        )
    }
}

/// An observation leaves every sample of the kind of its series.
pub proof fn lemma_recorded_fits(
    optional: OptionalMetrics,
    samples: Map<SeriesKey, Sample>,
    key: SeriesKey,
    observation: Observation,
)
    requires
        all_fit(samples),
    ensures
        all_fit(recorded(optional, samples, key, observation)),
{
    let after = recorded(optional, samples, key, observation);
    assert forall|other: SeriesKey| after.contains_key(other) implies fits(
        other,
        #[trigger] after[other],
    ) by {
        if other != key || !takes(optional, key, observation) {
            assert(samples.contains_key(other));
            assert(fits(other, samples[other]));
            assert(after[other] == samples[other]);
        } else {
            let sample = sample_at(samples, key);
            if samples.contains_key(key) {
                assert(fits(key, samples[key]));
            }
            assert(fits(key, sample));
            assert(after[key] == observed(key, sample, observation));
            lemma_observed_fits(key, sample, observation);
        }
    }
}

/// An observation leaves a sample of the kind of its series.
pub proof fn lemma_observed_fits(key: SeriesKey, sample: Sample, observation: Observation)
    requires
        fits(key, sample),
    ensures
        fits(key, observed(key, sample, observation)),
{
    if let Observation::Observe(value) = observation {
        lemma_bucket_of(key.metric().bounds_spec(), value);
    }
}

/// A series is made once: however often it is observed, the registry holds it
/// once, beside the series that it held before.
pub proof fn lemma_series_is_made_once(
    optional: OptionalMetrics,
    samples: Map<SeriesKey, Sample>,
    key: SeriesKey,
    observation: Observation,
    times: nat,
)
    requires
        times > 0,
    ensures
        recorded_times(optional, samples, key, observation, times).dom() == if takes(
            optional,
            key,
            observation,
        ) {
            samples.dom().insert(key)
        } else {
            samples.dom()
        },
    decreases times,
{
    if times > 1 {
        lemma_series_is_made_once(optional, samples, key, observation, (times - 1) as nat);
    }
    let before = recorded_times(optional, samples, key, observation, (times - 1) as nat);
    assert(recorded(optional, before, key, observation).dom() =~= if takes(
        optional,
        key,
        observation,
    ) {
        samples.dom().insert(key)
    } else {
        samples.dom()
    });
}

/// Increments add up: after `times` increments a counter is `times` above
/// where it was, or at the largest number that it can hold.
pub proof fn lemma_increments_add_up(
    optional: OptionalMetrics,
    samples: Map<SeriesKey, Sample>,
    counter: CounterKey,
    times: nat,
)
    requires
        all_fit(samples),
        optional.enables(counter.metric()),
    ensures
        counter_at(
            recorded_times(
                optional,
                samples,
                SeriesKey::Counter(counter),
                Observation::Increase(1),
                times,
            ),
            counter,
        ) == if counter_at(samples, counter) + times > u64::MAX {
            u64::MAX as int
        } else {
            counter_at(samples, counter) + times
        },
        all_fit(
            recorded_times(
                optional,
                samples,
                SeriesKey::Counter(counter),
                Observation::Increase(1),
                times,
            ),
        ),
    decreases times,
{
    if times > 0 {
        let key = SeriesKey::Counter(counter);
        let before = recorded_times(
            optional,
            samples,
            key,
            Observation::Increase(1),
            (times - 1) as nat,
        );
        lemma_increments_add_up(optional, samples, counter, (times - 1) as nat);
        lemma_recorded_fits(optional, before, key, Observation::Increase(1));
        if before.contains_key(key) {
            assert(fits(key, before[key]));
        }
    }
}

/// Two increments of one counter give the same total in either order: the
/// sum of both above where it was, or the largest number that it can hold.
pub proof fn lemma_increments_commute(
    optional: OptionalMetrics,
    samples: Map<SeriesKey, Sample>,
    counter: CounterKey,
    a: u64,
    b: u64,
)
    requires
        all_fit(samples),
        optional.enables(counter.metric()),
    ensures
        recorded(
            optional,
            recorded(optional, samples, SeriesKey::Counter(counter), Observation::Increase(a)),
            SeriesKey::Counter(counter),
            Observation::Increase(b),
        ) == recorded(
            optional,
            recorded(optional, samples, SeriesKey::Counter(counter), Observation::Increase(b)),
            SeriesKey::Counter(counter),
            Observation::Increase(a),
        ),
        counter_at(
            recorded(
                optional,
                recorded(optional, samples, SeriesKey::Counter(counter), Observation::Increase(a)),
                SeriesKey::Counter(counter),
                Observation::Increase(b),
            ),
            counter,
        ) == if counter_at(samples, counter) + a + b > u64::MAX {
            u64::MAX as int
        } else {
            counter_at(samples, counter) + a + b
        },
{
    let key = SeriesKey::Counter(counter);
    if samples.contains_key(key) {
        assert(fits(key, samples[key]));
    }
    let ab = recorded(
        optional,
        recorded(optional, samples, key, Observation::Increase(a)),
        key,
        Observation::Increase(b),
    );
    let ba = recorded(
        optional,
        recorded(optional, samples, key, Observation::Increase(b)),
        key,
        Observation::Increase(a),
    );
    assert(ab =~= ba);
}

/// Observations of two series can be recorded in either order.
pub proof fn lemma_observations_of_two_series_commute(
    optional: OptionalMetrics,
    samples: Map<SeriesKey, Sample>,
    first: SeriesKey,
    first_observation: Observation,
    second: SeriesKey,
    second_observation: Observation,
)
    requires
        first != second,
    ensures
        recorded(
            optional,
            recorded(optional, samples, first, first_observation),
            second,
            second_observation,
        ) == recorded(
            optional,
            recorded(optional, samples, second, second_observation),
            first,
            first_observation,
        ),
{
    let one = recorded(
        optional,
        recorded(optional, samples, first, first_observation),
        second,
        second_observation,
    );
    let other = recorded(
        optional,
        recorded(optional, samples, second, second_observation),
        first,
        first_observation,
    );
    assert(one =~= other);
}

/// An observation of one series leaves every other series as it was: made
/// or not, and with the sample it had.
pub proof fn lemma_other_series_keep_their_sample(
    optional: OptionalMetrics,
    samples: Map<SeriesKey, Sample>,
    key: SeriesKey,
    observation: Observation,
    other: SeriesKey,
)
    requires
        other != key,
    ensures
        recorded(optional, samples, key, observation).contains_key(other) == samples.contains_key(
            other,
        ),
        sample_at(recorded(optional, samples, key, observation), other) == sample_at(
            samples,
            other,
        ),
{
}

/// An observation of a metric that is switched off changes nothing.
pub proof fn lemma_switched_off_records_nothing(
    optional: OptionalMetrics,
    samples: Map<SeriesKey, Sample>,
    key: SeriesKey,
    observation: Observation,
)
    requires
        !optional.enables(key.metric()),
    ensures
        recorded(optional, samples, key, observation) == samples,
{
}

/// What an observation of a series does depends on no switch but that of the
/// series' own metric.
pub proof fn lemma_other_switches_do_not_matter(
    one: OptionalMetrics,
    other: OptionalMetrics,
    samples: Map<SeriesKey, Sample>,
    key: SeriesKey,
    observation: Observation,
)
    requires
        one.enables(key.metric()) == other.enables(key.metric()),
    ensures
        recorded(one, samples, key, observation) == recorded(other, samples, key, observation),
{
}

/// A counter only grows.
pub proof fn lemma_counter_only_grows(
    optional: OptionalMetrics,
    samples: Map<SeriesKey, Sample>,
    key: SeriesKey,
    observation: Observation,
    counter: CounterKey,
)
    requires
        all_fit(samples),
    ensures
        counter_at(samples, counter) <= counter_at(
            recorded(optional, samples, key, observation),
            counter,
        ),
{
    if samples.contains_key(key) {
        assert(fits(key, samples[key]));
    }
}

} // verus!
