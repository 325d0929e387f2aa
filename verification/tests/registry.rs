use quic_metrics::ip::quic_expensive_metrics_ip_reduce;
use quic_metrics::ip::IpAddress;
use quic_metrics::labels::HandshakeError;
use quic_metrics::labels::QuicHandshakeStage;
use quic_metrics::labels::QuicInvalidInitialPacketError;
use quic_metrics::labels::QuicWriteError;
use quic_metrics::metric::OptionalMetrics;
use quic_metrics::quic;
use quic_metrics::samples::Observation;
use quic_metrics::registry::Reading;
use quic_metrics::registry::Registry;
use quic_metrics::series::Series;
use quic_metrics::tokio;
use quic_metrics::DefaultMetrics;
use std::sync::Arc;
use quic_metrics::Metrics;

fn task(name: &str) -> Arc<str> {
    Arc::from(name)
}

const REASONS: [HandshakeError; 5] = [
    HandshakeError::CryptoFail,
    HandshakeError::TlsFail,
    HandshakeError::Timeout,
    HandshakeError::Disconnect,
    HandshakeError::Other,
];

#[test]
fn a_new_registry_is_empty() {
    let registry = Registry::new(OptionalMetrics::none());
    assert_eq!(registry.len(), 0);
    assert_eq!(registry.optional(), OptionalMetrics::none());
    assert_eq!(registry.counter_value(quic::accepted_initial_packet_count()), 0);
    assert_eq!(registry.gauge_value(quic::connections_in_memory()), 0);
    assert!(!registry.contains(Series::Counter(quic::accepted_initial_packet_count())));
    assert_eq!(
        registry.sample(Series::Histogram(quic::max_loss_pct())),
        Reading::Histogram { counts: vec![0; 16], sum: 0 }
    );
    assert_eq!(
        registry.sample(Series::Counter(quic::udp_drop_count())),
        Reading::Counter(0)
    );
    assert_eq!(
        registry.sample(Series::Gauge(quic::utilized_bandwidth())),
        Reading::Gauge(0)
    );
}

#[test]
fn five_increments_from_three_callers_count_five() {
    let mut registry = Registry::new(OptionalMetrics::none());
    let first = DefaultMetrics::default();
    let second = first.clone();
    let third = first.clone();
    // Two, two and one, taking turns.
    registry.inc(first.accepted_initial_packet_count());
    registry.inc(second.accepted_initial_packet_count());
    registry.inc(third.accepted_initial_packet_count());
    registry.inc(second.accepted_initial_packet_count());
    registry.inc(first.accepted_initial_packet_count());
    assert_eq!(registry.counter_value(quic::accepted_initial_packet_count()), 5);
    assert_eq!(registry.len(), 1);
}

#[test]
fn five_increments_count_five_in_any_order_of_the_callers() {
    let orders: [[usize; 5]; 4] =
        [[0, 0, 1, 1, 2], [2, 1, 1, 0, 0], [0, 1, 2, 0, 1], [1, 0, 2, 1, 0]];
    for order in orders {
        let callers = [DefaultMetrics, DefaultMetrics, DefaultMetrics];
        let mut registry = Registry::new(OptionalMetrics::none());
        for caller in order {
            registry.inc(callers[caller].accepted_initial_packet_count());
        }
        assert_eq!(registry.counter_value(quic::accepted_initial_packet_count()), 5);
        assert_eq!(registry.len(), 1);
    }
}

#[test]
fn a_timeout_counts_only_as_a_timeout() {
    let mut registry = Registry::new(OptionalMetrics::none());
    let metrics = DefaultMetrics::default();
    registry.inc_by(metrics.failed_handshakes(HandshakeError::CryptoFail), 3);
    registry.inc_by(metrics.failed_handshakes(HandshakeError::Timeout), 7);
    registry.inc_by(metrics.failed_handshakes(HandshakeError::Other), 11);
    let before: Vec<u64> = REASONS
        .iter()
        .map(|reason| registry.counter_value(quic::failed_handshakes(*reason)))
        .collect();
    assert_eq!(before, vec![3, 0, 7, 0, 11]);

    registry.inc(metrics.failed_handshakes(HandshakeError::Timeout));

    let after: Vec<u64> = REASONS
        .iter()
        .map(|reason| registry.counter_value(quic::failed_handshakes(*reason)))
        .collect();
    assert_eq!(after, vec![3, 0, 8, 0, 11]);
    assert_eq!(registry.len(), 3);
    assert!(!registry.contains(Series::Counter(quic::failed_handshakes(HandshakeError::TlsFail))));
}

#[test]
fn a_series_is_made_by_its_first_observation_and_found_by_the_next() {
    let mut registry = Registry::new(OptionalMetrics::none());
    let series = || Series::Counter(quic::write_errors(QuicWriteError::Partial));
    assert!(!registry.contains(series()));
    registry.inc(quic::write_errors(QuicWriteError::Partial));
    assert!(registry.contains(series()));
    assert_eq!(registry.len(), 1);
    for _ in 0..10 {
        registry.inc(quic::write_errors(QuicWriteError::Partial));
    }
    assert_eq!(registry.len(), 1);
    assert_eq!(registry.counter_value(quic::write_errors(QuicWriteError::Partial)), 11);
    registry.inc(quic::write_errors(QuicWriteError::WouldBlock));
    assert_eq!(registry.len(), 2);
    assert_eq!(registry.counter_value(quic::write_errors(QuicWriteError::Partial)), 11);
    assert_eq!(registry.counter_value(quic::write_errors(QuicWriteError::WouldBlock)), 1);
    assert_eq!(registry.counter_value(quic::write_errors(QuicWriteError::Error)), 0);
}

#[test]
fn free_text_labels_name_their_own_series() {
    let mut registry = Registry::new(OptionalMetrics::none());
    registry.inc(quic::invalid_cid_packet_count("buffer too short".to_string()));
    registry.inc(quic::invalid_cid_packet_count("buffer too short".to_string()));
    registry.inc(quic::invalid_cid_packet_count("unknown version".to_string()));
    registry.inc(quic::invalid_cid_packet_count(String::new()));
    assert_eq!(
        registry.counter_value(quic::invalid_cid_packet_count("buffer too short".to_string())),
        2
    );
    assert_eq!(
        registry.counter_value(quic::invalid_cid_packet_count("unknown version".to_string())),
        1
    );
    assert_eq!(registry.counter_value(quic::invalid_cid_packet_count(String::new())), 1);
    assert_eq!(
        registry.counter_value(quic::invalid_cid_packet_count("Buffer too short".to_string())),
        0
    );
    assert_eq!(registry.len(), 3);

    registry.inc_by(tokio::runtime_task_total_poll_time_micros(&task("buffer too short")), 40);
    assert_eq!(
        registry
            .counter_value(tokio::runtime_task_total_poll_time_micros(&task("buffer too short"))),
        40
    );
    assert_eq!(
        registry.counter_value(quic::invalid_cid_packet_count("buffer too short".to_string())),
        2
    );
    assert_eq!(registry.len(), 4);
}

#[test]
fn a_switched_off_metric_records_nothing() {
    let network = quic_expensive_metrics_ip_reduce(IpAddress::V4(0xcb00_714d)).unwrap();
    let reason = QuicInvalidInitialPacketError::FailedToParse;
    let mut registry = Registry::new(OptionalMetrics::none());
    registry.inc(quic::accepted_initial_packet_count());
    registry.gauge_set(quic::utilized_bandwidth(), 12);

    registry.inc(quic::expensive_accepted_initial_packet_count(network));
    registry.inc_by(quic::expensive_rejected_initial_packet_count(reason, network), 9);
    registry.observe(quic::maximum_writable_streams(), 7);

    assert_eq!(registry.len(), 2);
    assert_eq!(
        registry.counter_value(quic::expensive_accepted_initial_packet_count(network)),
        0
    );
    assert_eq!(
        registry.counter_value(quic::expensive_rejected_initial_packet_count(reason, network)),
        0
    );
    assert_eq!(
        registry.sample(Series::Histogram(quic::maximum_writable_streams())),
        Reading::Histogram { counts: vec![0; 11], sum: 0 }
    );
    assert!(!registry.contains(Series::Histogram(quic::maximum_writable_streams())));
    assert_eq!(registry.counter_value(quic::accepted_initial_packet_count()), 1);
    assert_eq!(registry.gauge_value(quic::utilized_bandwidth()), 12);
}

#[test]
fn a_switch_changes_nothing_for_the_other_metrics() {
    let network = quic_expensive_metrics_ip_reduce(IpAddress::V4(0xcb00_714d)).unwrap();
    let switches = [
        OptionalMetrics::none(),
        OptionalMetrics::all(),
        OptionalMetrics {
            maximum_writable_streams: true,
            expensive_accepted_initial_packet_count: false,
            expensive_rejected_initial_packet_count: false,
        },
        OptionalMetrics {
            maximum_writable_streams: false,
            expensive_accepted_initial_packet_count: true,
            expensive_rejected_initial_packet_count: true,
        },
    ];
    for optional in switches {
        let mut registry = Registry::new(optional);
        assert_eq!(registry.optional(), optional);
        registry.inc(quic::accepted_initial_packet_count());
        registry.inc(quic::expensive_accepted_initial_packet_count(network));
        registry.inc(quic::accepted_initial_packet_count());
        registry.observe(quic::maximum_writable_streams(), 7);
        registry.inc(quic::rejected_initial_packet_count(
            QuicInvalidInitialPacketError::Unexpected,
        ));
        registry.observe(quic::max_loss_pct(), 3);
        registry.gauge_inc(quic::connections_in_memory());

        assert_eq!(registry.counter_value(quic::accepted_initial_packet_count()), 2);
        assert_eq!(
            registry.counter_value(quic::rejected_initial_packet_count(
                QuicInvalidInitialPacketError::Unexpected
            )),
            1
        );
        assert_eq!(registry.gauge_value(quic::connections_in_memory()), 1);
        assert_eq!(
            registry.sample(Series::Histogram(quic::max_loss_pct())),
            Reading::Histogram {
                counts: vec![0, 0, 0, 1, 0, 0, 0, 0, 0, 0, 0, 0, 0, 0, 0, 0],
                sum: 3
            }
        );
        assert_eq!(
            registry.counter_value(quic::expensive_accepted_initial_packet_count(network)),
            if optional.expensive_accepted_initial_packet_count { 1 } else { 0 }
        );
        let streams = if optional.maximum_writable_streams {
            Reading::Histogram { counts: vec![0, 0, 1, 0, 0, 0, 0, 0, 0, 0, 0], sum: 7 }
        } else {
            Reading::Histogram { counts: vec![0; 11], sum: 0 }
        };
        assert_eq!(registry.sample(Series::Histogram(quic::maximum_writable_streams())), streams);
        let optional_series = optional.maximum_writable_streams as usize
            + optional.expensive_accepted_initial_packet_count as usize;
        assert_eq!(registry.len(), 4 + optional_series);
    }
}

#[test]
fn expensive_counters_have_one_series_for_each_network() {
    let reduce = |bits: u32| quic_expensive_metrics_ip_reduce(IpAddress::V4(bits)).unwrap();
    let mut registry = Registry::new(OptionalMetrics::all());
    // Three clients of 203.0.112.0/20 and one of 203.0.128.0/20.
    for bits in [0xcb00_714d, 0xcb00_7001, 0xcb00_7fff, 0xcb00_8001] {
        registry.inc(quic::expensive_accepted_initial_packet_count(reduce(bits)));
    }
    assert_eq!(registry.len(), 2);
    assert_eq!(
        registry.counter_value(quic::expensive_accepted_initial_packet_count(reduce(0xcb00_7000))),
        3
    );
    assert_eq!(
        registry.counter_value(quic::expensive_accepted_initial_packet_count(reduce(0xcb00_8000))),
        1
    );
    let reason = QuicInvalidInitialPacketError::TokenValidationFail;
    registry.inc(quic::expensive_rejected_initial_packet_count(reason, reduce(0xcb00_714d)));
    assert_eq!(
        registry.counter_value(quic::expensive_rejected_initial_packet_count(
            reason,
            reduce(0xcb00_7abc)
        )),
        1
    );
    assert_eq!(
        registry.counter_value(quic::expensive_rejected_initial_packet_count(
            QuicInvalidInitialPacketError::Unexpected,
            reduce(0xcb00_7abc)
        )),
        0
    );
}

#[test]
fn a_counter_stops_at_the_largest_number() {
    let mut registry = Registry::new(OptionalMetrics::none());
    registry.inc_by(quic::udp_drop_count(), u64::MAX - 1);
    assert_eq!(registry.counter_value(quic::udp_drop_count()), u64::MAX - 1);
    registry.inc(quic::udp_drop_count());
    assert_eq!(registry.counter_value(quic::udp_drop_count()), u64::MAX);
    registry.inc(quic::udp_drop_count());
    registry.inc_by(quic::udp_drop_count(), 1000);
    assert_eq!(registry.counter_value(quic::udp_drop_count()), u64::MAX);
}

#[test]
fn an_increment_by_nothing_still_makes_the_series() {
    let mut registry = Registry::new(OptionalMetrics::none());
    registry.inc_by(quic::udp_drop_count(), 0);
    assert_eq!(registry.counter_value(quic::udp_drop_count()), 0);
    assert!(registry.contains(Series::Counter(quic::udp_drop_count())));
    assert_eq!(registry.len(), 1);
}

#[test]
fn a_gauge_goes_up_and_down_and_is_set() {
    let mut registry = Registry::new(OptionalMetrics::none());
    let metrics = DefaultMetrics::default();
    registry.gauge_inc(metrics.connections_in_memory());
    registry.gauge_inc(metrics.connections_in_memory());
    registry.gauge_inc(metrics.connections_in_memory());
    registry.gauge_dec(metrics.connections_in_memory());
    assert_eq!(registry.gauge_value(quic::connections_in_memory()), 2);
    assert_eq!(registry.gauge_value(quic::utilized_bandwidth()), 0);
    registry.gauge_set(metrics.utilized_bandwidth(), 940);
    registry.gauge_set(metrics.utilized_bandwidth(), 120);
    assert_eq!(registry.gauge_value(quic::utilized_bandwidth()), 120);
    assert_eq!(registry.gauge_value(quic::connections_in_memory()), 2);
    assert_eq!(registry.len(), 2);
}

#[test]
fn a_gauge_stops_at_zero_and_at_the_largest_number() {
    let mut registry = Registry::new(OptionalMetrics::none());
    registry.gauge_dec(quic::connections_in_memory());
    assert_eq!(registry.gauge_value(quic::connections_in_memory()), 0);
    registry.gauge_inc(quic::connections_in_memory());
    registry.gauge_dec(quic::connections_in_memory());
    registry.gauge_dec(quic::connections_in_memory());
    assert_eq!(registry.gauge_value(quic::connections_in_memory()), 0);
    registry.gauge_set(quic::connections_in_memory(), u64::MAX);
    registry.gauge_inc(quic::connections_in_memory());
    assert_eq!(registry.gauge_value(quic::connections_in_memory()), u64::MAX);
}

#[test]
fn a_histogram_counts_each_value_in_its_bucket() {
    let mut registry = Registry::new(OptionalMetrics::all());
    // Boundaries 0, 5, 10, 100, 1000, 2000, 3000, 10000, 20000, 50000.
    for value in [0, 1, 5, 6, 10, 99, 100, 101, 50000, 50001, u64::MAX] {
        registry.observe(quic::maximum_writable_streams(), value);
    }
    assert_eq!(
        registry.sample(Series::Histogram(quic::maximum_writable_streams())),
        Reading::Histogram { counts: vec![1, 2, 2, 2, 1, 0, 0, 0, 0, 1, 2], sum: u64::MAX }
    );
    assert_eq!(registry.len(), 1);
}

#[test]
fn a_histogram_sums_what_it_observes() {
    let mut registry = Registry::new(OptionalMetrics::none());
    // Loss in tenths of a percent: 0.4 %, 2.5 % and 100 %.
    registry.observe(quic::max_loss_pct(), 4);
    registry.observe(quic::max_loss_pct(), 25);
    registry.observe(quic::max_loss_pct(), 1000);
    assert_eq!(
        registry.sample(Series::Histogram(quic::max_loss_pct())),
        Reading::Histogram {
            counts: vec![0, 0, 0, 1, 0, 0, 1, 0, 0, 0, 0, 0, 0, 0, 1, 0],
            sum: 1029
        }
    );
    registry.observe(quic::max_bandwidth_mbps(), 800);
    assert_eq!(
        registry.sample(Series::Histogram(quic::max_bandwidth_mbps())),
        Reading::Histogram {
            counts: vec![
                0, 0, 0, 0, 0, 0, 0, 0, 0, 0, 0, 0, 1, 0, 0, 0, 0, 0, 0, 0, 0, 0, 0, 0, 0
            ],
            sum: 800
        }
    );
}

#[test]
fn durations_are_counted_by_stage() {
    let mut registry = Registry::new(OptionalMetrics::none());
    let metrics = DefaultMetrics::default();
    let parse = QuicHandshakeStage::ParseInitial;
    let derive = QuicHandshakeStage::DeriveKeys;
    // 10 µs is the first boundary, 5 s the last.
    registry.observe_duration(metrics.handshake_time_seconds(parse), 10_000);
    registry.observe_duration(metrics.handshake_time_seconds(parse), 10_001);
    registry.observe_duration(metrics.handshake_time_seconds(parse), 5_000_000_000);
    registry.observe_duration(metrics.handshake_time_seconds(parse), 5_000_000_001);
    registry.observe_duration(metrics.handshake_time_seconds(derive), 0);
    let mut expected = vec![0u64; 19];
    expected[0] = 1;
    expected[1] = 1;
    expected[17] = 1;
    expected[18] = 1;
    assert_eq!(
        registry.sample(Series::TimeHistogram(quic::handshake_time_seconds(parse))),
        Reading::Histogram { counts: expected, sum: 10_000_020_002 }
    );
    let mut expected = vec![0u64; 19];
    expected[0] = 1;
    assert_eq!(
        registry.sample(Series::TimeHistogram(quic::handshake_time_seconds(derive))),
        Reading::Histogram { counts: expected, sum: 0 }
    );
    assert_eq!(
        registry.sample(Series::TimeHistogram(quic::handshake_time_seconds(
            QuicHandshakeStage::ProcessFrames
        ))),
        Reading::Histogram { counts: vec![0; 19], sum: 0 }
    );
    assert_eq!(registry.len(), 2);
}

#[test]
fn task_durations_are_counted_by_task() {
    let mut registry = Registry::new(OptionalMetrics::none());
    let metrics = DefaultMetrics::default();
    let io = task("io");
    let accept = task("accept");
    registry.observe_duration(metrics.tokio_runtime_task_schedule_delay_histogram(&io), 150_000);
    registry.observe_duration(metrics.tokio_runtime_task_poll_duration_histogram(&io), 0);
    registry.observe_duration(metrics.tokio_runtime_task_schedule_delay_histogram(&accept), 1);
    let mut expected = vec![0u64; 18];
    expected[2] = 1;
    assert_eq!(
        registry.sample(Series::TimeHistogram(tokio::runtime_task_schedule_delay_histogram(&io))),
        Reading::Histogram { counts: expected, sum: 150_000 }
    );
    let mut expected = vec![0u64; 18];
    expected[0] = 1;
    assert_eq!(
        registry.sample(Series::TimeHistogram(tokio::runtime_task_poll_duration_histogram(&io))),
        Reading::Histogram { counts: expected, sum: 0 }
    );
    assert_eq!(registry.len(), 3);
}

#[test]
fn an_observation_of_the_wrong_kind_is_not_recorded() {
    let mut registry = Registry::new(OptionalMetrics::none());
    registry.record(Series::Counter(quic::udp_drop_count()), Observation::SetTo(5));
    registry.record(Series::Counter(quic::udp_drop_count()), Observation::Decrease(5));
    registry.record(Series::Counter(quic::udp_drop_count()), Observation::Observe(5));
    registry.record(Series::Gauge(quic::utilized_bandwidth()), Observation::Observe(5));
    registry.record(Series::Histogram(quic::max_loss_pct()), Observation::Increase(5));
    registry.record(
        Series::TimeHistogram(quic::handshake_time_seconds(QuicHandshakeStage::DeriveKeys)),
        Observation::SetTo(5),
    );
    assert_eq!(registry.len(), 0);

    registry.record(Series::Counter(quic::udp_drop_count()), Observation::Increase(5));
    registry.record(Series::Counter(quic::udp_drop_count()), Observation::SetTo(1));
    registry.record(Series::Gauge(quic::utilized_bandwidth()), Observation::SetTo(5));
    registry.record(Series::Gauge(quic::utilized_bandwidth()), Observation::Increase(2));
    registry.record(Series::Gauge(quic::utilized_bandwidth()), Observation::Decrease(4));
    registry.record(Series::Histogram(quic::max_loss_pct()), Observation::Observe(5));
    assert_eq!(registry.counter_value(quic::udp_drop_count()), 5);
    assert_eq!(registry.gauge_value(quic::utilized_bandwidth()), 3);
    assert_eq!(registry.len(), 3);
    assert!(Observation::Increase(1).can_apply_to(&Series::Counter(quic::udp_drop_count())));
    assert!(!Observation::SetTo(1).can_apply_to(&Series::Counter(quic::udp_drop_count())));
    assert!(Observation::Observe(1).can_apply_to(&Series::Histogram(quic::max_loss_pct())));
}

#[test]
fn observations_of_different_series_can_come_in_any_order() {
    let mut one = Registry::new(OptionalMetrics::none());
    one.inc(quic::udp_drop_count());
    one.gauge_set(quic::utilized_bandwidth(), 3);
    one.inc_by(quic::failed_handshakes(HandshakeError::Timeout), 2);
    let mut other = Registry::new(OptionalMetrics::none());
    other.inc_by(quic::failed_handshakes(HandshakeError::Timeout), 2);
    other.gauge_set(quic::utilized_bandwidth(), 3);
    other.inc(quic::udp_drop_count());
    for series in [
        Series::Counter(quic::udp_drop_count()),
        Series::Gauge(quic::utilized_bandwidth()),
        Series::Counter(quic::failed_handshakes(HandshakeError::Timeout)),
        Series::Counter(quic::failed_handshakes(HandshakeError::Other)),
    ] {
        assert_eq!(one.sample(series.clone()), other.sample(series));
    }
    assert_eq!(one.len(), other.len());
}

#[test]
fn a_reading_and_a_handle_can_be_copied() {
    let mut registry = Registry::new(OptionalMetrics::none());
    registry.observe(quic::max_loss_pct(), 4);
    let reading = registry.sample(Series::Histogram(quic::max_loss_pct()));
    assert_eq!(reading.clone(), reading);
    let counter = quic::invalid_cid_packet_count("short".to_string());
    assert_eq!(counter.clone(), counter);
    let histogram = tokio::runtime_task_poll_duration_histogram(&task("io"));
    assert_eq!(histogram.clone(), histogram);
    let series = Series::TimeHistogram(histogram);
    assert_eq!(series.clone(), series);
    assert!(series.clone().same(&series));
}
