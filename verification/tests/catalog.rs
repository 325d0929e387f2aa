use quic_metrics::buckets::Buckets;
use quic_metrics::buckets::BucketsError;
use quic_metrics::metric::Metric;
use quic_metrics::metric::MetricKind;
use quic_metrics::metric::OptionalMetrics;
use quic_metrics::metric::NANOS_PER_SECOND;

const ALL: [Metric; 21] = [
    Metric::ConnectionsInMemory,
    Metric::MaximumWritableStreams,
    Metric::HandshakeTimeSeconds,
    Metric::WriteErrors,
    Metric::InvalidCidPacketCount,
    Metric::AcceptedInitialPacketCount,
    Metric::ExpensiveAcceptedInitialPacketCount,
    Metric::RejectedInitialPacketCount,
    Metric::ExpensiveRejectedInitialPacketCount,
    Metric::UtilizedBandwidth,
    Metric::MaxBandwidthMbps,
    Metric::MaxLossPct,
    Metric::UdpDropCount,
    Metric::FailedHandshakes,
    Metric::LocalH3ConnCloseErrorCount,
    Metric::LocalQuicConnCloseErrorCount,
    Metric::PeerH3ConnCloseErrorCount,
    Metric::PeerQuicConnCloseErrorCount,
    Metric::TokioRuntimeTaskScheduleDelayHistogram,
    Metric::TokioRuntimeTaskPollDurationHistogram,
    Metric::TokioRuntimeTaskTotalPollTimeMicros,
];

#[test]
fn metrics_have_their_names() {
    let names: Vec<&str> = ALL.iter().map(|metric| metric.name()).collect();
    assert_eq!(
        names,
        vec![
            "quic_connections_in_memory",
            "quic_maximum_writable_streams",
            "quic_handshake_time_seconds",
            "quic_write_errors",
            "quic_invalid_cid_packet_count",
            "quic_accepted_initial_packet_count",
            "quic_expensive_accepted_initial_packet_count",
            "quic_rejected_initial_packet_count",
            "quic_expensive_rejected_initial_packet_count",
            "quic_utilized_bandwidth",
            "quic_max_bandwidth_mbps",
            "quic_max_loss_pct",
            "quic_udp_drop_count",
            "quic_failed_handshakes",
            "quic_local_h3_conn_close_error_count",
            "quic_local_quic_conn_close_error_count",
            "quic_peer_h3_conn_close_error_count",
            "quic_peer_quic_conn_close_error_count",
            "tokio_runtime_task_schedule_delay_histogram",
            "tokio_runtime_task_poll_duration_histogram",
            "tokio_runtime_task_total_poll_time_micros",
        ]
    );
}

#[test]
fn no_two_metrics_share_a_name() {
    for (i, a) in ALL.iter().enumerate() {
        for b in &ALL[i + 1..] {
            assert_ne!(a.name(), b.name());
        }
    }
}

#[test]
fn metrics_have_their_help() {
    assert_eq!(
        Metric::ConnectionsInMemory.help(),
        "Number of QUIC connections currently in memory"
    );
    assert_eq!(
        Metric::ExpensiveRejectedInitialPacketCount.help(),
        "Number of QUIC packets received but not associated with an active connection using \
         expensive label(s)"
    );
    assert_eq!(
        Metric::UtilizedBandwidth.help(),
        "Combined utilized bandwidth of all open connections (max over the past two minutes)"
    );
    assert_eq!(
        Metric::TokioRuntimeTaskPollDurationHistogram.help(),
        "Histogram of task poll durations"
    );
    for metric in ALL {
        assert!(!metric.help().is_empty());
    }
}

#[test]
fn metrics_have_their_kinds() {
    let kind_of = |metric: Metric| metric.kind();
    for metric in [Metric::ConnectionsInMemory, Metric::UtilizedBandwidth] {
        assert_eq!(kind_of(metric), MetricKind::Gauge);
    }
    for metric in [
        Metric::MaximumWritableStreams,
        Metric::MaxBandwidthMbps,
        Metric::MaxLossPct,
    ] {
        assert_eq!(kind_of(metric), MetricKind::Histogram);
    }
    for metric in [
        Metric::HandshakeTimeSeconds,
        Metric::TokioRuntimeTaskScheduleDelayHistogram,
        Metric::TokioRuntimeTaskPollDurationHistogram,
    ] {
        assert_eq!(kind_of(metric), MetricKind::TimeHistogram);
    }
    let counters = ALL.iter().filter(|metric| metric.kind() == MetricKind::Counter).count();
    assert_eq!(counters, 13);
}

#[test]
fn three_metrics_are_optional() {
    for metric in ALL {
        let expected = matches!(
            metric,
            Metric::MaximumWritableStreams
                | Metric::ExpensiveAcceptedInitialPacketCount
                | Metric::ExpensiveRejectedInitialPacketCount
        );
        assert_eq!(metric.is_optional(), expected);
    }
}

#[test]
fn only_optional_metrics_can_be_switched_off() {
    let none = OptionalMetrics::none();
    let all = OptionalMetrics::all();
    for metric in ALL {
        assert_eq!(none.is_enabled(metric), !metric.is_optional());
        assert!(all.is_enabled(metric));
    }
    let one = OptionalMetrics {
        maximum_writable_streams: false,
        expensive_accepted_initial_packet_count: true,
        expensive_rejected_initial_packet_count: false,
    };
    assert!(!one.is_enabled(Metric::MaximumWritableStreams));
    assert!(one.is_enabled(Metric::ExpensiveAcceptedInitialPacketCount));
    assert!(!one.is_enabled(Metric::ExpensiveRejectedInitialPacketCount));
    assert!(one.is_enabled(Metric::AcceptedInitialPacketCount));
}

#[test]
fn metrics_have_their_label_names() {
    assert_eq!(Metric::ConnectionsInMemory.label_names(), Vec::<&str>::new());
    assert_eq!(Metric::HandshakeTimeSeconds.label_names(), vec!["stage"]);
    assert_eq!(Metric::WriteErrors.label_names(), vec!["reason"]);
    assert_eq!(Metric::InvalidCidPacketCount.label_names(), vec!["reason"]);
    assert_eq!(Metric::AcceptedInitialPacketCount.label_names(), Vec::<&str>::new());
    assert_eq!(Metric::ExpensiveAcceptedInitialPacketCount.label_names(), vec!["peer_ip"]);
    assert_eq!(Metric::RejectedInitialPacketCount.label_names(), vec!["reason"]);
    assert_eq!(
        Metric::ExpensiveRejectedInitialPacketCount.label_names(),
        vec!["reason", "peer_ip"]
    );
    assert_eq!(Metric::FailedHandshakes.label_names(), vec!["reason"]);
    assert_eq!(Metric::PeerQuicConnCloseErrorCount.label_names(), vec!["reason"]);
    assert_eq!(Metric::TokioRuntimeTaskTotalPollTimeMicros.label_names(), vec!["task"]);
    assert_eq!(Metric::MaxLossPct.label_names(), Vec::<&str>::new());
}

#[test]
fn only_histograms_have_buckets() {
    for metric in ALL {
        let has_buckets =
            matches!(metric.kind(), MetricKind::Histogram | MetricKind::TimeHistogram);
        assert_eq!(metric.buckets().is_some(), has_buckets);
    }
}

#[test]
fn writable_streams_buckets() {
    let buckets = Metric::MaximumWritableStreams.buckets().unwrap();
    assert_eq!(
        *buckets.bounds(),
        vec![0, 5, 10, 100, 1000, 2000, 3000, 10000, 20000, 50000]
    );
    assert_eq!(buckets.per_unit(), 1);
    assert_eq!(buckets.len(), 10);
}

#[test]
fn handshake_time_buckets_run_from_ten_microseconds_to_five_seconds() {
    let buckets = Metric::HandshakeTimeSeconds.buckets().unwrap();
    assert_eq!(
        *buckets.bounds(),
        vec![
            10_000,
            20_000,
            50_000,
            100_000,
            200_000,
            500_000,
            1_000_000,
            2_000_000,
            5_000_000,
            10_000_000,
            20_000_000,
            50_000_000,
            100_000_000,
            200_000_000,
            500_000_000,
            1_000_000_000,
            2_000_000_000,
            5_000_000_000,
        ]
    );
    assert_eq!(buckets.per_unit(), 1_000_000_000);
    assert_eq!(NANOS_PER_SECOND, 1_000_000_000);
    // In seconds these are the 18 boundaries from 1e-5 to 5.
    let seconds: Vec<f64> =
        buckets.bounds().iter().map(|b| *b as f64 / buckets.per_unit() as f64).collect();
    assert_eq!(
        seconds,
        vec![
            1E-5, 2E-5, 5E-5, 1E-4, 2E-4, 5E-4, 1E-3, 2E-3, 5E-3, 1E-2, 2E-2, 5E-2, 0.1, 0.2,
            0.5, 1.0, 2.0, 5.0
        ]
    );
}

#[test]
fn bandwidth_buckets() {
    let buckets = Metric::MaxBandwidthMbps.buckets().unwrap();
    assert_eq!(
        *buckets.bounds(),
        vec![
            0, 1, 2, 5, 10, 20, 50, 100, 200, 300, 500, 750, 1000, 1500, 2000, 2500, 3000, 3500,
            4000, 4500, 5000, 6000, 7000, 10000
        ]
    );
    assert_eq!(buckets.per_unit(), 1);
}

#[test]
fn loss_buckets_are_in_tenths_of_a_percent() {
    let buckets = Metric::MaxLossPct.buckets().unwrap();
    assert_eq!(
        *buckets.bounds(),
        vec![0, 1, 2, 5, 10, 20, 30, 40, 50, 100, 150, 200, 250, 500, 1000]
    );
    assert_eq!(buckets.per_unit(), 10);
    let percent: Vec<f64> =
        buckets.bounds().iter().map(|b| *b as f64 / buckets.per_unit() as f64).collect();
    assert_eq!(
        percent,
        vec![0.0, 0.1, 0.2, 0.5, 1., 2., 3., 4., 5., 10., 15., 20., 25., 50., 100.]
    );
}

#[test]
fn task_histograms_share_their_buckets() {
    let expected: Vec<u64> = vec![
        0,
        100_000,
        200_000,
        300_000,
        400_000,
        500_000,
        600_000,
        700_000,
        800_000,
        900_000,
        1_000_000,
        10_000_000,
        20_000_000,
        40_000_000,
        80_000_000,
        100_000_000,
        1_000_000_000,
    ];
    for metric in [
        Metric::TokioRuntimeTaskScheduleDelayHistogram,
        Metric::TokioRuntimeTaskPollDurationHistogram,
    ] {
        let buckets = metric.buckets().unwrap();
        assert_eq!(*buckets.bounds(), expected);
        assert_eq!(buckets.per_unit(), 1_000_000_000);
        let seconds: Vec<f64> =
            buckets.bounds().iter().map(|b| *b as f64 / buckets.per_unit() as f64).collect();
        assert_eq!(
            seconds,
            vec![
                0.0, 1E-4, 2E-4, 3E-4, 4E-4, 5E-4, 6E-4, 7E-4, 8E-4, 9E-4, 1E-3, 1E-2, 2E-2,
                4E-2, 8E-2, 1E-1, 1.0
            ]
        );
    }
}

#[test]
fn every_table_of_boundaries_is_increasing() {
    for metric in ALL {
        if let Some(buckets) = metric.buckets() {
            let bounds = buckets.bounds();
            for pair in bounds.windows(2) {
                assert!(pair[0] < pair[1]);
            }
        }
    }
}

#[test]
fn buckets_take_increasing_boundaries() {
    let buckets = Buckets::new(vec![1, 2, 4, 8], 1).unwrap();
    assert_eq!(*buckets.bounds(), vec![1, 2, 4, 8]);
    assert_eq!(buckets.per_unit(), 1);
    assert_eq!(buckets.len(), 4);
    let single = Buckets::new(vec![u64::MAX], 1000).unwrap();
    assert_eq!(single.len(), 1);
    assert_eq!(single.per_unit(), 1000);
    let empty = Buckets::new(Vec::new(), 1).unwrap();
    assert_eq!(empty.len(), 0);
}

#[test]
fn buckets_refuse_boundaries_out_of_order() {
    assert_eq!(Buckets::new(vec![1, 1], 1).err(), Some(BucketsError::NotIncreasing));
    assert_eq!(Buckets::new(vec![2, 1], 1).err(), Some(BucketsError::NotIncreasing));
    assert_eq!(Buckets::new(vec![0, 1, 2, 3, 3], 1).err(), Some(BucketsError::NotIncreasing));
    assert_eq!(Buckets::new(vec![0, 5, 4, 6], 10).err(), Some(BucketsError::NotIncreasing));
}

#[test]
fn buckets_refuse_a_unit_of_no_parts() {
    assert_eq!(Buckets::new(vec![1, 2], 0).err(), Some(BucketsError::ZeroUnit));
    assert_eq!(Buckets::new(Vec::new(), 0).err(), Some(BucketsError::ZeroUnit));
    // The unit is looked at first.
    assert_eq!(Buckets::new(vec![2, 1], 0).err(), Some(BucketsError::ZeroUnit));
}

#[test]
fn a_value_falls_into_the_first_bucket_that_is_not_below_it() {
    let buckets = Buckets::new(vec![0, 5, 10, 100], 1).unwrap();
    assert_eq!(buckets.bucket_index(0), 0);
    assert_eq!(buckets.bucket_index(1), 1);
    assert_eq!(buckets.bucket_index(5), 1);
    assert_eq!(buckets.bucket_index(6), 2);
    assert_eq!(buckets.bucket_index(10), 2);
    assert_eq!(buckets.bucket_index(11), 3);
    assert_eq!(buckets.bucket_index(100), 3);
    assert_eq!(buckets.bucket_index(101), 4);
    assert_eq!(buckets.bucket_index(u64::MAX), 4);
    let empty = Buckets::new(Vec::new(), 1).unwrap();
    assert_eq!(empty.bucket_index(0), 0);
    assert_eq!(empty.bucket_index(7), 0);
}

#[test]
fn buckets_can_be_copied() {
    let buckets = Buckets::new(vec![1, 2, 4, 8], 10).unwrap();
    let copy = buckets.clone();
    assert_eq!(copy.bounds(), buckets.bounds());
    assert_eq!(copy.per_unit(), 10);
    assert_eq!(copy.bucket_index(3), 2);
}
