//! The metrics that the transport reports, and what is fixed about each of
//! them: its name, its help text, its kind, the names of its labels, the
//! boundaries of its buckets, and whether it can be switched off.

use crate::buckets::strictly_increasing;
use crate::buckets::Buckets;
use vstd::prelude::*;

verus! {

/// What a metric accumulates.
#[derive(Clone, Copy, Debug, PartialEq, Eq, Structural, Hash)]
pub enum MetricKind {
    /// A total that only grows.
    Counter,
    /// The latest value that was set.
    Gauge,
    /// A distribution of observed values over fixed buckets.
    Histogram,
    /// A distribution of observed durations over fixed buckets.
    TimeHistogram,
}

/// The metrics of the transport.
#[derive(Clone, Copy, Debug, PartialEq, Eq, Structural, Hash)]
pub enum Metric {
    /// Number of QUIC connections currently in memory
    ConnectionsInMemory,
    /// Maximum number of writable QUIC streams in a connection
    MaximumWritableStreams,
    /// Overhead of QUIC handshake processing stage
    HandshakeTimeSeconds,
    /// Number of error and partial writes while sending QUIC packets
    WriteErrors,
    /// Number of QUIC packets received where the CID could not be verified.
    InvalidCidPacketCount,
    /// Number of accepted QUIC Initial packets
    AcceptedInitialPacketCount,
    /// Number of accepted QUIC Initial packets using expensive label(s)
    ExpensiveAcceptedInitialPacketCount,
    /// Number of QUIC packets received but not associated with an active connection
    RejectedInitialPacketCount,
    /// Number of QUIC packets received but not associated with an active
    /// connection using expensive label(s)
    ExpensiveRejectedInitialPacketCount,
    /// Combined utilized bandwidth of all open connections (max over the past two minutes)
    UtilizedBandwidth,
    /// The highest utilized bandwidh reported during the lifetime of the connection
    MaxBandwidthMbps,
    /// The highest momentary loss reported during the lifetime of the connection
    MaxLossPct,
    /// Number of UDP packets dropped when receiving
    UdpDropCount,
    /// Number of failed quic handshakes
    FailedHandshakes,
    /// Number of HTTP/3 connection closures generated locally
    LocalH3ConnCloseErrorCount,
    /// Number of QUIC connection closures generated locally
    LocalQuicConnCloseErrorCount,
    /// Number of HTTP/3 connection closures generated by peer
    PeerH3ConnCloseErrorCount,
    /// Number of QUIC connection closures generated by peer
    PeerQuicConnCloseErrorCount,
    /// Histogram of task schedule delays
    TokioRuntimeTaskScheduleDelayHistogram,
    /// Histogram of task poll durations
    TokioRuntimeTaskPollDurationHistogram,
    /// Helps us get a rough idea of if our waker is causing issues.
    TokioRuntimeTaskTotalPollTimeMicros,
}

/// Nanoseconds in a second: the unit of the boundaries of a duration.
pub const NANOS_PER_SECOND: u64 = 1_000_000_000;

impl Metric {
    /// The name under which the metric is registered.
    pub open spec fn name_spec(self) -> Seq<char> {
        match self {
            Metric::ConnectionsInMemory => "quic_connections_in_memory"@,
            Metric::MaximumWritableStreams => "quic_maximum_writable_streams"@,
            Metric::HandshakeTimeSeconds => "quic_handshake_time_seconds"@,
            Metric::WriteErrors => "quic_write_errors"@,
            Metric::InvalidCidPacketCount => "quic_invalid_cid_packet_count"@,
            Metric::AcceptedInitialPacketCount => "quic_accepted_initial_packet_count"@,
            Metric::ExpensiveAcceptedInitialPacketCount => {
                "quic_expensive_accepted_initial_packet_count"@
            },
            Metric::RejectedInitialPacketCount => "quic_rejected_initial_packet_count"@,
            Metric::ExpensiveRejectedInitialPacketCount => {
                "quic_expensive_rejected_initial_packet_count"@
            },
            Metric::UtilizedBandwidth => "quic_utilized_bandwidth"@,
            Metric::MaxBandwidthMbps => "quic_max_bandwidth_mbps"@,
            Metric::MaxLossPct => "quic_max_loss_pct"@,
            Metric::UdpDropCount => "quic_udp_drop_count"@,
            Metric::FailedHandshakes => "quic_failed_handshakes"@,
            Metric::LocalH3ConnCloseErrorCount => "quic_local_h3_conn_close_error_count"@,
            Metric::LocalQuicConnCloseErrorCount => "quic_local_quic_conn_close_error_count"@,
            Metric::PeerH3ConnCloseErrorCount => "quic_peer_h3_conn_close_error_count"@,
            Metric::PeerQuicConnCloseErrorCount => "quic_peer_quic_conn_close_error_count"@,
            Metric::TokioRuntimeTaskScheduleDelayHistogram => {
                "tokio_runtime_task_schedule_delay_histogram"@
            },
            Metric::TokioRuntimeTaskPollDurationHistogram => {
                "tokio_runtime_task_poll_duration_histogram"@
            },
            Metric::TokioRuntimeTaskTotalPollTimeMicros => {
                "tokio_runtime_task_total_poll_time_micros"@
            },
        }
    }

    /// The description that is registered with the metric.
    pub open spec fn help_spec(self) -> Seq<char> {
        match self {
            Metric::ConnectionsInMemory => "Number of QUIC connections currently in memory"@,
            Metric::MaximumWritableStreams => {
                "Maximum number of writable QUIC streams in a connection"@
            },
            Metric::HandshakeTimeSeconds => "Overhead of QUIC handshake processing stage"@,
            Metric::WriteErrors => "Number of error and partial writes while sending QUIC packets"@,
            Metric::InvalidCidPacketCount => {
                "Number of QUIC packets received where the CID could not be verified."@
            },
            Metric::AcceptedInitialPacketCount => "Number of accepted QUIC Initial packets"@,
            Metric::ExpensiveAcceptedInitialPacketCount => {
                "Number of accepted QUIC Initial packets using expensive label(s)"@
            },
            Metric::RejectedInitialPacketCount => {
                "Number of QUIC packets received but not associated with an active connection"@
            },
            Metric::ExpensiveRejectedInitialPacketCount => {
                "Number of QUIC packets received but not associated with an active connection using expensive label(s)"@
            },
            Metric::UtilizedBandwidth => {
                "Combined utilized bandwidth of all open connections (max over the past two minutes)"@
            },
            Metric::MaxBandwidthMbps => {
                "The highest utilized bandwidh reported during the lifetime of the connection"@
            },
            Metric::MaxLossPct => {
                "The highest momentary loss reported during the lifetime of the connection"@
            },
            Metric::UdpDropCount => "Number of UDP packets dropped when receiving"@,
            Metric::FailedHandshakes => "Number of failed quic handshakes"@,
            Metric::LocalH3ConnCloseErrorCount => {
                "Number of HTTP/3 connection closures generated locally"@
            },
            Metric::LocalQuicConnCloseErrorCount => {
                "Number of QUIC connection closures generated locally"@
            },
            Metric::PeerH3ConnCloseErrorCount => {
                "Number of HTTP/3 connection closures generated by peer"@
            },
            Metric::PeerQuicConnCloseErrorCount => {
                "Number of QUIC connection closures generated by peer"@
            },
            Metric::TokioRuntimeTaskScheduleDelayHistogram => "Histogram of task schedule delays"@,
            Metric::TokioRuntimeTaskPollDurationHistogram => "Histogram of task poll durations"@,
            Metric::TokioRuntimeTaskTotalPollTimeMicros => {
                "Helps us get a rough idea of if our waker is causing issues."@
            },
        }
    }

    /// What the metric accumulates.
    pub open spec fn kind_spec(self) -> MetricKind {
        match self {
            Metric::ConnectionsInMemory => MetricKind::Gauge,
            Metric::MaximumWritableStreams => MetricKind::Histogram,
            Metric::HandshakeTimeSeconds => MetricKind::TimeHistogram,
            Metric::WriteErrors => MetricKind::Counter,
            Metric::InvalidCidPacketCount => MetricKind::Counter,
            Metric::AcceptedInitialPacketCount => MetricKind::Counter,
            Metric::ExpensiveAcceptedInitialPacketCount => MetricKind::Counter,
            Metric::RejectedInitialPacketCount => MetricKind::Counter,
            Metric::ExpensiveRejectedInitialPacketCount => MetricKind::Counter,
            Metric::UtilizedBandwidth => MetricKind::Gauge,
            Metric::MaxBandwidthMbps => MetricKind::Histogram,
            Metric::MaxLossPct => MetricKind::Histogram,
            Metric::UdpDropCount => MetricKind::Counter,
            Metric::FailedHandshakes => MetricKind::Counter,
            Metric::LocalH3ConnCloseErrorCount => MetricKind::Counter,
            Metric::LocalQuicConnCloseErrorCount => MetricKind::Counter,
            Metric::PeerH3ConnCloseErrorCount => MetricKind::Counter,
            Metric::PeerQuicConnCloseErrorCount => MetricKind::Counter,
            Metric::TokioRuntimeTaskScheduleDelayHistogram => MetricKind::TimeHistogram,
            Metric::TokioRuntimeTaskPollDurationHistogram => MetricKind::TimeHistogram,
            Metric::TokioRuntimeTaskTotalPollTimeMicros => MetricKind::Counter,
        }
    }

    /// Whether the metric is costly enough to be switched off by configuration.
    pub open spec fn is_optional_spec(self) -> bool {
        match self {
            Metric::MaximumWritableStreams
            | Metric::ExpensiveAcceptedInitialPacketCount
            | Metric::ExpensiveRejectedInitialPacketCount => true,
            _ => false,
        }
    }

    /// The names of the metric's labels, in the order of the parameters that
    /// give their values.
    pub open spec fn label_names_spec(self) -> Seq<Seq<char>> {
        match self {
            Metric::HandshakeTimeSeconds => seq!["stage"@],
            Metric::WriteErrors
            | Metric::InvalidCidPacketCount
            | Metric::RejectedInitialPacketCount
            | Metric::FailedHandshakes
            | Metric::LocalH3ConnCloseErrorCount
            | Metric::LocalQuicConnCloseErrorCount
            | Metric::PeerH3ConnCloseErrorCount
            | Metric::PeerQuicConnCloseErrorCount => seq!["reason"@],
            Metric::ExpensiveAcceptedInitialPacketCount => seq!["peer_ip"@],
            Metric::ExpensiveRejectedInitialPacketCount => seq!["reason"@, "peer_ip"@],
            Metric::TokioRuntimeTaskScheduleDelayHistogram
            | Metric::TokioRuntimeTaskPollDurationHistogram
            | Metric::TokioRuntimeTaskTotalPollTimeMicros => seq!["task"@],
            _ => seq![],
        }
    }

    /// The upper boundaries of a histogram's buckets, in parts of the metric's
    /// unit; empty for a metric that has no buckets.
    pub open spec fn bounds_spec(self) -> Seq<u64> {
        match self {
            Metric::MaximumWritableStreams => seq![
                0, 5, 10, 100, 1000, 2000, 3000, 10_000, 20_000, 50_000,
            ],
            Metric::HandshakeTimeSeconds => seq![
                10_000, 20_000, 50_000, 100_000, 200_000, 500_000, 1_000_000, 2_000_000, 5_000_000,
                10_000_000, 20_000_000, 50_000_000, 100_000_000, 200_000_000, 500_000_000,
                1_000_000_000, 2_000_000_000, 5_000_000_000,
            ],
            Metric::MaxBandwidthMbps => seq![
                0, 1, 2, 5, 10, 20, 50, 100, 200, 300, 500, 750, 1000, 1500, 2000, 2500, 3000, 3500,
                4000, 4500, 5000, 6000, 7000, 10_000,
            ],
            Metric::MaxLossPct => seq![
                0, 1, 2, 5, 10, 20, 30, 40, 50, 100, 150, 200, 250, 500, 1000,
            ],
            Metric::TokioRuntimeTaskScheduleDelayHistogram
            | Metric::TokioRuntimeTaskPollDurationHistogram => seq![
                0, 100_000, 200_000, 300_000, 400_000, 500_000, 600_000, 700_000, 800_000, 900_000,
                1_000_000, 10_000_000, 20_000_000, 40_000_000, 80_000_000, 100_000_000,
                1_000_000_000,
            ],
            _ => seq![],
        }
    }

    /// How many parts the boundaries count in one of the metric's unit:
    /// nanoseconds in a second, tenths in a percent.
    pub open spec fn per_unit_spec(self) -> u64 {
        match self {
            Metric::HandshakeTimeSeconds
            | Metric::TokioRuntimeTaskScheduleDelayHistogram
            | Metric::TokioRuntimeTaskPollDurationHistogram => NANOS_PER_SECOND,
            Metric::MaxLossPct => 10,
            _ => 1,
        }
    }

    /// Whether the metric has buckets.
    pub open spec fn has_buckets(self) -> bool {
        self.kind_spec() is Histogram || self.kind_spec() is TimeHistogram
    }

    /// The name under which the metric is registered.
    pub fn name(&self) -> (s: &'static str)
        ensures
            s@ == self.name_spec(),
    {
        match self {
            Metric::ConnectionsInMemory => "quic_connections_in_memory",
            Metric::MaximumWritableStreams => "quic_maximum_writable_streams",
            Metric::HandshakeTimeSeconds => "quic_handshake_time_seconds",
            Metric::WriteErrors => "quic_write_errors",
            Metric::InvalidCidPacketCount => "quic_invalid_cid_packet_count",
            Metric::AcceptedInitialPacketCount => "quic_accepted_initial_packet_count",
            Metric::ExpensiveAcceptedInitialPacketCount => {
                "quic_expensive_accepted_initial_packet_count"
            },
            Metric::RejectedInitialPacketCount => "quic_rejected_initial_packet_count",
            Metric::ExpensiveRejectedInitialPacketCount => {
                "quic_expensive_rejected_initial_packet_count"
            },
            Metric::UtilizedBandwidth => "quic_utilized_bandwidth",
            Metric::MaxBandwidthMbps => "quic_max_bandwidth_mbps",
            Metric::MaxLossPct => "quic_max_loss_pct",
            Metric::UdpDropCount => "quic_udp_drop_count",
            Metric::FailedHandshakes => "quic_failed_handshakes",
            Metric::LocalH3ConnCloseErrorCount => "quic_local_h3_conn_close_error_count",
            Metric::LocalQuicConnCloseErrorCount => "quic_local_quic_conn_close_error_count",
            Metric::PeerH3ConnCloseErrorCount => "quic_peer_h3_conn_close_error_count",
            Metric::PeerQuicConnCloseErrorCount => "quic_peer_quic_conn_close_error_count",
            Metric::TokioRuntimeTaskScheduleDelayHistogram => {
                "tokio_runtime_task_schedule_delay_histogram"
            },
            Metric::TokioRuntimeTaskPollDurationHistogram => {
                "tokio_runtime_task_poll_duration_histogram"
            },
            Metric::TokioRuntimeTaskTotalPollTimeMicros => {
                "tokio_runtime_task_total_poll_time_micros"
            },
        }
    }

    /// The description that is registered with the metric.
    pub fn help(&self) -> (s: &'static str)
        ensures
            s@ == self.help_spec(),
    {
        match self {
            Metric::ConnectionsInMemory => "Number of QUIC connections currently in memory",
            Metric::MaximumWritableStreams => {
                "Maximum number of writable QUIC streams in a connection"
            },
            Metric::HandshakeTimeSeconds => "Overhead of QUIC handshake processing stage",
            Metric::WriteErrors => "Number of error and partial writes while sending QUIC packets",
            Metric::InvalidCidPacketCount => {
                "Number of QUIC packets received where the CID could not be verified."
            },
            Metric::AcceptedInitialPacketCount => "Number of accepted QUIC Initial packets",
            Metric::ExpensiveAcceptedInitialPacketCount => {
                "Number of accepted QUIC Initial packets using expensive label(s)"
            },
            Metric::RejectedInitialPacketCount => {
                "Number of QUIC packets received but not associated with an active connection"
            },
            Metric::ExpensiveRejectedInitialPacketCount => {
                "Number of QUIC packets received but not associated with an active connection using expensive label(s)"
            },
            Metric::UtilizedBandwidth => {
                "Combined utilized bandwidth of all open connections (max over the past two minutes)"
            },
            Metric::MaxBandwidthMbps => {
                "The highest utilized bandwidh reported during the lifetime of the connection"
            },
            Metric::MaxLossPct => {
                "The highest momentary loss reported during the lifetime of the connection"
            },
            Metric::UdpDropCount => "Number of UDP packets dropped when receiving",
            Metric::FailedHandshakes => "Number of failed quic handshakes",
            Metric::LocalH3ConnCloseErrorCount => {
                "Number of HTTP/3 connection closures generated locally"
            },
            Metric::LocalQuicConnCloseErrorCount => {
                "Number of QUIC connection closures generated locally"
            },
            Metric::PeerH3ConnCloseErrorCount => {
                "Number of HTTP/3 connection closures generated by peer"
            },
            Metric::PeerQuicConnCloseErrorCount => {
                "Number of QUIC connection closures generated by peer"
            },
            Metric::TokioRuntimeTaskScheduleDelayHistogram => "Histogram of task schedule delays",
            Metric::TokioRuntimeTaskPollDurationHistogram => "Histogram of task poll durations",
            Metric::TokioRuntimeTaskTotalPollTimeMicros => {
                "Helps us get a rough idea of if our waker is causing issues."
            },
        }
    }

    /// What the metric accumulates.
    pub fn kind(&self) -> (k: MetricKind)
        ensures
            k == self.kind_spec(),
    {
        match self {
            Metric::ConnectionsInMemory => MetricKind::Gauge,
            Metric::MaximumWritableStreams => MetricKind::Histogram,
            Metric::HandshakeTimeSeconds => MetricKind::TimeHistogram,
            Metric::WriteErrors => MetricKind::Counter,
            Metric::InvalidCidPacketCount => MetricKind::Counter,
            Metric::AcceptedInitialPacketCount => MetricKind::Counter,
            Metric::ExpensiveAcceptedInitialPacketCount => MetricKind::Counter,
            Metric::RejectedInitialPacketCount => MetricKind::Counter,
            Metric::ExpensiveRejectedInitialPacketCount => MetricKind::Counter,
            Metric::UtilizedBandwidth => MetricKind::Gauge,
            Metric::MaxBandwidthMbps => MetricKind::Histogram,
            Metric::MaxLossPct => MetricKind::Histogram,
            Metric::UdpDropCount => MetricKind::Counter,
            Metric::FailedHandshakes => MetricKind::Counter,
            Metric::LocalH3ConnCloseErrorCount => MetricKind::Counter,
            Metric::LocalQuicConnCloseErrorCount => MetricKind::Counter,
            Metric::PeerH3ConnCloseErrorCount => MetricKind::Counter,
            Metric::PeerQuicConnCloseErrorCount => MetricKind::Counter,
            Metric::TokioRuntimeTaskScheduleDelayHistogram => MetricKind::TimeHistogram,
            Metric::TokioRuntimeTaskPollDurationHistogram => MetricKind::TimeHistogram,
            Metric::TokioRuntimeTaskTotalPollTimeMicros => MetricKind::Counter,
        }
    }

    /// Whether the metric is costly enough to be switched off by configuration.
    pub fn is_optional(&self) -> (r: bool)
        ensures
            r == self.is_optional_spec(),
    {
        match self {
            Metric::MaximumWritableStreams
            | Metric::ExpensiveAcceptedInitialPacketCount
            | Metric::ExpensiveRejectedInitialPacketCount => true,
            _ => false,
        }
    }

    /// No two metrics are registered under one name.
    pub proof fn lemma_name_identifies(a: Metric, b: Metric)
        requires
            a.name_spec() == b.name_spec(),
        ensures
            a == b,
    {
        reveal_strlit("quic_connections_in_memory");
        reveal_strlit("quic_maximum_writable_streams");
        reveal_strlit("quic_handshake_time_seconds");
        reveal_strlit("quic_write_errors");
        reveal_strlit("quic_invalid_cid_packet_count");
        reveal_strlit("quic_accepted_initial_packet_count");
        reveal_strlit("quic_expensive_accepted_initial_packet_count");
        reveal_strlit("quic_rejected_initial_packet_count");
        reveal_strlit("quic_expensive_rejected_initial_packet_count");
        reveal_strlit("quic_utilized_bandwidth");
        reveal_strlit("quic_max_bandwidth_mbps");
        reveal_strlit("quic_max_loss_pct");
        reveal_strlit("quic_udp_drop_count");
        reveal_strlit("quic_failed_handshakes");
        reveal_strlit("quic_local_h3_conn_close_error_count");
        reveal_strlit("quic_local_quic_conn_close_error_count");
        reveal_strlit("quic_peer_h3_conn_close_error_count");
        reveal_strlit("quic_peer_quic_conn_close_error_count");
        reveal_strlit("tokio_runtime_task_schedule_delay_histogram");
        reveal_strlit("tokio_runtime_task_poll_duration_histogram");
        reveal_strlit("tokio_runtime_task_total_poll_time_micros");
        assert("quic_connections_in_memory"@.len() == 26);
        assert("quic_maximum_writable_streams"@.len() == 29);
        assert("quic_handshake_time_seconds"@.len() == 27);
        assert("quic_write_errors"@.len() == 17);
        assert("quic_invalid_cid_packet_count"@.len() == 29);
        assert("quic_accepted_initial_packet_count"@.len() == 34);
        assert("quic_expensive_accepted_initial_packet_count"@.len() == 44);
        assert("quic_rejected_initial_packet_count"@.len() == 34);
        assert("quic_expensive_rejected_initial_packet_count"@.len() == 44);
        assert("quic_utilized_bandwidth"@.len() == 23);
        assert("quic_max_bandwidth_mbps"@.len() == 23);
        assert("quic_max_loss_pct"@.len() == 17);
        assert("quic_udp_drop_count"@.len() == 19);
        assert("quic_failed_handshakes"@.len() == 22);
        assert("quic_local_h3_conn_close_error_count"@.len() == 36);
        assert("quic_local_quic_conn_close_error_count"@.len() == 38);
        assert("quic_peer_h3_conn_close_error_count"@.len() == 35);
        assert("quic_peer_quic_conn_close_error_count"@.len() == 37);
        assert("tokio_runtime_task_schedule_delay_histogram"@.len() == 43);
        assert("tokio_runtime_task_poll_duration_histogram"@.len() == 42);
        assert("tokio_runtime_task_total_poll_time_micros"@.len() == 41);
        assert("quic_maximum_writable_streams"@[5] == 'm');
        assert("quic_invalid_cid_packet_count"@[5] == 'i');
        assert("quic_write_errors"@[5] == 'w');
        assert("quic_max_loss_pct"@[5] == 'm');
        assert("quic_accepted_initial_packet_count"@[5] == 'a');
        assert("quic_rejected_initial_packet_count"@[5] == 'r');
        assert("quic_expensive_accepted_initial_packet_count"@[15] == 'a');
        assert("quic_expensive_rejected_initial_packet_count"@[15] == 'r');
        assert("quic_utilized_bandwidth"@[5] == 'u');
        assert("quic_max_bandwidth_mbps"@[5] == 'm');
    }
    /// The names of the metric's labels, in the order of the parameters that
    /// give their values.
    pub fn label_names(&self) -> (names: Vec<&'static str>)
        ensures
            names@.map_values(|n: &'static str| n@) == self.label_names_spec(),
    {
        let names: Vec<&'static str> = match self {
            Metric::HandshakeTimeSeconds => vec!["stage"],
            Metric::WriteErrors
            | Metric::InvalidCidPacketCount
            | Metric::RejectedInitialPacketCount
            | Metric::FailedHandshakes
            | Metric::LocalH3ConnCloseErrorCount
            | Metric::LocalQuicConnCloseErrorCount
            | Metric::PeerH3ConnCloseErrorCount
            | Metric::PeerQuicConnCloseErrorCount => vec!["reason"],
            Metric::ExpensiveAcceptedInitialPacketCount => vec!["peer_ip"],
            Metric::ExpensiveRejectedInitialPacketCount => vec!["reason", "peer_ip"],
            Metric::TokioRuntimeTaskScheduleDelayHistogram
            | Metric::TokioRuntimeTaskPollDurationHistogram
            | Metric::TokioRuntimeTaskTotalPollTimeMicros => vec!["task"],
            _ => vec![],
        };
        assert(names@.map_values(|n: &'static str| n@) =~= self.label_names_spec());
        names
    }

    /// The boundaries of each histogram are in increasing order.
    pub proof fn lemma_bounds_increasing(self)
        ensures
            strictly_increasing(self.bounds_spec()),
    {
    }

    /// The buckets of a histogram; nothing for a metric of another kind.
    pub fn buckets(&self) -> (r: Option<Buckets>)
        ensures
            r is Some <==> self.has_buckets(),
            r matches Some(b) ==> b.bounds_spec() == self.bounds_spec() && b.per_unit_spec()
                == self.per_unit_spec(),
    {
        let (bounds, per_unit): (Vec<u64>, u64) = match self {
            Metric::MaximumWritableStreams => (
                vec![
                    0, 5, 10, 100, 1000, 2000, 3000, 10_000, 20_000, 50_000,
                ],
                1,
            ),
            Metric::HandshakeTimeSeconds => (
                vec![
                    10_000, 20_000, 50_000, 100_000, 200_000, 500_000, 1_000_000, 2_000_000,
                    5_000_000, 10_000_000, 20_000_000, 50_000_000, 100_000_000, 200_000_000,
                    500_000_000, 1_000_000_000, 2_000_000_000, 5_000_000_000,
                ],
                NANOS_PER_SECOND,
            ),
            Metric::MaxBandwidthMbps => (
                vec![
                    0, 1, 2, 5, 10, 20, 50, 100, 200, 300, 500, 750, 1000, 1500, 2000, 2500, 3000,
                    3500, 4000, 4500, 5000, 6000, 7000, 10_000,
                ],
                1,
            ),
            Metric::MaxLossPct => (
                vec![
                    0, 1, 2, 5, 10, 20, 30, 40, 50, 100, 150, 200, 250, 500, 1000,
                ],
                10,
            ),
            Metric::TokioRuntimeTaskScheduleDelayHistogram
            | Metric::TokioRuntimeTaskPollDurationHistogram => (
                vec![
                    0, 100_000, 200_000, 300_000, 400_000, 500_000, 600_000, 700_000, 800_000,
                    900_000, 1_000_000, 10_000_000, 20_000_000, 40_000_000, 80_000_000, 100_000_000,
                    1_000_000_000,
                ],
                NANOS_PER_SECOND,
            ),
            _ => {
                return None;
            },
        };
        proof {
            self.lemma_bounds_increasing();
            assert(bounds@ =~= self.bounds_spec());
        }
        match Buckets::new(bounds, per_unit) {
            Ok(buckets) => Some(buckets),
            Err(_) => None,
        }
    }
}

/// Which of the metrics that can be switched off are switched on. It is read
/// once, when a registry is made.
#[derive(Clone, Copy, Debug, PartialEq, Eq, Structural, Hash)]
pub struct OptionalMetrics {
    pub maximum_writable_streams: bool,
    pub expensive_accepted_initial_packet_count: bool,
    pub expensive_rejected_initial_packet_count: bool,
}

impl OptionalMetrics {
    /// Whether observations of `metric` are recorded. A metric that is not
    /// optional always is.
    pub open spec fn enables(self, metric: Metric) -> bool {
        match metric {
            Metric::MaximumWritableStreams => self.maximum_writable_streams,
            Metric::ExpensiveAcceptedInitialPacketCount => {
                self.expensive_accepted_initial_packet_count
            },
            Metric::ExpensiveRejectedInitialPacketCount => {
                self.expensive_rejected_initial_packet_count
            },
            _ => true,
        }
    }

    /// Every optional metric switched off.
    pub fn none() -> (r: OptionalMetrics)
        ensures
            r == (OptionalMetrics {
                maximum_writable_streams: false,
                expensive_accepted_initial_packet_count: false,
                expensive_rejected_initial_packet_count: false,
            }),
            forall|metric: Metric| #[trigger] r.enables(metric) == !metric.is_optional_spec(),
    {
        OptionalMetrics {
            maximum_writable_streams: false,
            expensive_accepted_initial_packet_count: false,
            expensive_rejected_initial_packet_count: false,
        }
    }

    /// Every optional metric switched on.
    pub fn all() -> (r: OptionalMetrics)
        ensures
            r == (OptionalMetrics {
                maximum_writable_streams: true,
                expensive_accepted_initial_packet_count: true,
                expensive_rejected_initial_packet_count: true,
            }),
            forall|metric: Metric| #[trigger] r.enables(metric),
    {
        OptionalMetrics {
            maximum_writable_streams: true,
            expensive_accepted_initial_packet_count: true,
            expensive_rejected_initial_packet_count: true,
        }
    }

    /// Whether observations of `metric` are recorded.
    pub fn is_enabled(&self, metric: Metric) -> (r: bool)
        ensures
            r == self.enables(metric),
    {
        match metric {
            Metric::MaximumWritableStreams => self.maximum_writable_streams,
            Metric::ExpensiveAcceptedInitialPacketCount => {
                self.expensive_accepted_initial_packet_count
            },
            Metric::ExpensiveRejectedInitialPacketCount => {
                self.expensive_rejected_initial_packet_count
            },
            _ => true,
        }
    }

    /// Only an optional metric can be switched off.
    pub proof fn lemma_only_optional_metrics_switch_off(self, metric: Metric)
        requires
            !self.enables(metric),
        ensures
            metric.is_optional_spec(),
    {
    }
}

} // verus!
