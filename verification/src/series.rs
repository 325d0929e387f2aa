//! Series and their handles.
//!
//! A series is a metric together with one value for each of its labels. Its
//! handle is that identity as a plain value, typed by the kind of the metric:
//! what is resolved twice from the same labels is the same handle, and only a
//! counter can be incremented, only a histogram observed.

use crate::ip::NetworkPrefix;
use crate::labels::H3Error;
use crate::labels::HandshakeError;
use crate::labels::QuicError;
use crate::labels::QuicHandshakeStage;
use crate::labels::QuicInvalidInitialPacketError;
use crate::labels::QuicWriteError;
use crate::metric::Metric;
use vstd::prelude::*;

verus! {

/// The handle of a counter: a series whose value is a total that only grows.
#[derive(Debug, PartialEq, Eq, Hash)]
pub enum Counter {
    /// Number of error and partial writes while sending QUIC packets
    WriteErrors(QuicWriteError),
    /// Number of QUIC packets received where the CID could not be verified.
    InvalidCidPacketCount(String),
    /// Number of accepted QUIC Initial packets
    AcceptedInitialPacketCount,
    /// Number of accepted QUIC Initial packets using expensive label(s)
    ExpensiveAcceptedInitialPacketCount(NetworkPrefix),
    /// Number of QUIC packets received but not associated with an active connection
    RejectedInitialPacketCount(QuicInvalidInitialPacketError),
    /// Number of QUIC packets received but not associated with an active
    /// connection using expensive label(s)
    ExpensiveRejectedInitialPacketCount(QuicInvalidInitialPacketError, NetworkPrefix),
    /// Number of UDP packets dropped when receiving
    UdpDropCount,
    /// Number of failed quic handshakes
    FailedHandshakes(HandshakeError),
    /// Number of HTTP/3 connection closures generated locally
    LocalH3ConnCloseErrorCount(H3Error),
    /// Number of QUIC connection closures generated locally
    LocalQuicConnCloseErrorCount(QuicError),
    /// Number of HTTP/3 connection closures generated by peer
    PeerH3ConnCloseErrorCount(H3Error),
    /// Number of QUIC connection closures generated by peer
    PeerQuicConnCloseErrorCount(QuicError),
    /// Helps us get a rough idea of if our waker is causing issues.
    TokioRuntimeTaskTotalPollTimeMicros(String),
}

/// What a [`Counter`] identifies: the metric, and the value of each label.
pub enum CounterKey {
    WriteErrors(QuicWriteError),
    InvalidCidPacketCount(Seq<char>),
    AcceptedInitialPacketCount,
    ExpensiveAcceptedInitialPacketCount(NetworkPrefix),
    RejectedInitialPacketCount(QuicInvalidInitialPacketError),
    ExpensiveRejectedInitialPacketCount(QuicInvalidInitialPacketError, NetworkPrefix),
    UdpDropCount,
    FailedHandshakes(HandshakeError),
    LocalH3ConnCloseErrorCount(H3Error),
    LocalQuicConnCloseErrorCount(QuicError),
    PeerH3ConnCloseErrorCount(H3Error),
    PeerQuicConnCloseErrorCount(QuicError),
    TokioRuntimeTaskTotalPollTimeMicros(Seq<char>),
}

impl Clone for Counter {
    fn clone(&self) -> (r: Self)
        ensures
            r@ == self@,
    {
        match self {
            Counter::WriteErrors(reason) => Counter::WriteErrors(*reason),
            Counter::InvalidCidPacketCount(reason) => {
                Counter::InvalidCidPacketCount(reason.clone())
            },
            Counter::AcceptedInitialPacketCount => Counter::AcceptedInitialPacketCount,
            Counter::ExpensiveAcceptedInitialPacketCount(peer_ip) => {
                Counter::ExpensiveAcceptedInitialPacketCount(*peer_ip)
            },
            Counter::RejectedInitialPacketCount(reason) => {
                Counter::RejectedInitialPacketCount(*reason)
            },
            Counter::ExpensiveRejectedInitialPacketCount(reason, peer_ip) => {
                Counter::ExpensiveRejectedInitialPacketCount(*reason, *peer_ip)
            },
            Counter::UdpDropCount => Counter::UdpDropCount,
            Counter::FailedHandshakes(reason) => Counter::FailedHandshakes(*reason),
            Counter::LocalH3ConnCloseErrorCount(reason) => {
                Counter::LocalH3ConnCloseErrorCount(*reason)
            },
            Counter::LocalQuicConnCloseErrorCount(reason) => {
                Counter::LocalQuicConnCloseErrorCount(*reason)
            },
            Counter::PeerH3ConnCloseErrorCount(reason) => {
                Counter::PeerH3ConnCloseErrorCount(*reason)
            },
            Counter::PeerQuicConnCloseErrorCount(reason) => {
                Counter::PeerQuicConnCloseErrorCount(*reason)
            },
            Counter::TokioRuntimeTaskTotalPollTimeMicros(task) => {
                Counter::TokioRuntimeTaskTotalPollTimeMicros(task.clone())
            },
        }
    }
}

impl View for Counter {
    type V = CounterKey;

    open spec fn view(&self) -> CounterKey {
        match *self {
            Counter::WriteErrors(reason) => CounterKey::WriteErrors(reason),
            Counter::InvalidCidPacketCount(reason) => CounterKey::InvalidCidPacketCount(reason@),
            Counter::AcceptedInitialPacketCount => CounterKey::AcceptedInitialPacketCount,
            Counter::ExpensiveAcceptedInitialPacketCount(peer_ip) => {
                CounterKey::ExpensiveAcceptedInitialPacketCount(peer_ip)
            },
            Counter::RejectedInitialPacketCount(reason) => {
                CounterKey::RejectedInitialPacketCount(reason)
            },
            Counter::ExpensiveRejectedInitialPacketCount(reason, peer_ip) => {
                CounterKey::ExpensiveRejectedInitialPacketCount(reason, peer_ip)
            },
            Counter::UdpDropCount => CounterKey::UdpDropCount,
            Counter::FailedHandshakes(reason) => CounterKey::FailedHandshakes(reason),
            Counter::LocalH3ConnCloseErrorCount(reason) => {
                CounterKey::LocalH3ConnCloseErrorCount(reason)
            },
            Counter::LocalQuicConnCloseErrorCount(reason) => {
                CounterKey::LocalQuicConnCloseErrorCount(reason)
            },
            Counter::PeerH3ConnCloseErrorCount(reason) => {
                CounterKey::PeerH3ConnCloseErrorCount(reason)
            },
            Counter::PeerQuicConnCloseErrorCount(reason) => {
                CounterKey::PeerQuicConnCloseErrorCount(reason)
            },
            Counter::TokioRuntimeTaskTotalPollTimeMicros(task) => {
                CounterKey::TokioRuntimeTaskTotalPollTimeMicros(task@)
            },
        }
    }
}

impl CounterKey {
    /// The metric that the series belongs to.
    pub open spec fn metric(self) -> Metric {
        match self {
            CounterKey::WriteErrors(_) => Metric::WriteErrors,
            CounterKey::InvalidCidPacketCount(_) => Metric::InvalidCidPacketCount,
            CounterKey::AcceptedInitialPacketCount => Metric::AcceptedInitialPacketCount,
            CounterKey::ExpensiveAcceptedInitialPacketCount(_) => {
                Metric::ExpensiveAcceptedInitialPacketCount
            },
            CounterKey::RejectedInitialPacketCount(_) => Metric::RejectedInitialPacketCount,
            CounterKey::ExpensiveRejectedInitialPacketCount(_, _) => {
                Metric::ExpensiveRejectedInitialPacketCount
            },
            CounterKey::UdpDropCount => Metric::UdpDropCount,
            CounterKey::FailedHandshakes(_) => Metric::FailedHandshakes,
            CounterKey::LocalH3ConnCloseErrorCount(_) => Metric::LocalH3ConnCloseErrorCount,
            CounterKey::LocalQuicConnCloseErrorCount(_) => Metric::LocalQuicConnCloseErrorCount,
            CounterKey::PeerH3ConnCloseErrorCount(_) => Metric::PeerH3ConnCloseErrorCount,
            CounterKey::PeerQuicConnCloseErrorCount(_) => Metric::PeerQuicConnCloseErrorCount,
            CounterKey::TokioRuntimeTaskTotalPollTimeMicros(_) => {
                Metric::TokioRuntimeTaskTotalPollTimeMicros
            },
        }
    }
}

impl Counter {
    /// The metric that the series belongs to.
    pub fn metric(&self) -> (m: Metric)
        ensures
            m == self@.metric(),
            m.kind_spec() is Counter,
    {
        match self {
            Counter::WriteErrors(..) => Metric::WriteErrors,
            Counter::InvalidCidPacketCount(..) => Metric::InvalidCidPacketCount,
            Counter::AcceptedInitialPacketCount => Metric::AcceptedInitialPacketCount,
            Counter::ExpensiveAcceptedInitialPacketCount(..) => {
                Metric::ExpensiveAcceptedInitialPacketCount
            },
            Counter::RejectedInitialPacketCount(..) => Metric::RejectedInitialPacketCount,
            Counter::ExpensiveRejectedInitialPacketCount(..) => {
                Metric::ExpensiveRejectedInitialPacketCount
            },
            Counter::UdpDropCount => Metric::UdpDropCount,
            Counter::FailedHandshakes(..) => Metric::FailedHandshakes,
            Counter::LocalH3ConnCloseErrorCount(..) => Metric::LocalH3ConnCloseErrorCount,
            Counter::LocalQuicConnCloseErrorCount(..) => Metric::LocalQuicConnCloseErrorCount,
            Counter::PeerH3ConnCloseErrorCount(..) => Metric::PeerH3ConnCloseErrorCount,
            Counter::PeerQuicConnCloseErrorCount(..) => Metric::PeerQuicConnCloseErrorCount,
            Counter::TokioRuntimeTaskTotalPollTimeMicros(..) => {
                Metric::TokioRuntimeTaskTotalPollTimeMicros
            },
        }
    }

    /// Whether two handles are of one series.
    pub fn same(&self, other: &Counter) -> (r: bool)
        ensures
            r == (self@ == other@),
    {
        match (self, other) {
            (Counter::WriteErrors(a_reason), Counter::WriteErrors(b_reason)) => {
                *a_reason == *b_reason
            },
            (
                Counter::InvalidCidPacketCount(a_reason),
                Counter::InvalidCidPacketCount(b_reason),
            ) => {
                *a_reason == *b_reason
            },
            (Counter::AcceptedInitialPacketCount, Counter::AcceptedInitialPacketCount) => true,
            (
                Counter::ExpensiveAcceptedInitialPacketCount(a_peer_ip),
                Counter::ExpensiveAcceptedInitialPacketCount(b_peer_ip),
            ) => {
                *a_peer_ip == *b_peer_ip
            },
            (
                Counter::RejectedInitialPacketCount(a_reason),
                Counter::RejectedInitialPacketCount(b_reason),
            ) => {
                *a_reason == *b_reason
            },
            (
                Counter::ExpensiveRejectedInitialPacketCount(a_reason, a_peer_ip),
                Counter::ExpensiveRejectedInitialPacketCount(b_reason, b_peer_ip),
            ) => {
                *a_reason == *b_reason && *a_peer_ip == *b_peer_ip
            },
            (Counter::UdpDropCount, Counter::UdpDropCount) => true,
            (Counter::FailedHandshakes(a_reason), Counter::FailedHandshakes(b_reason)) => {
                *a_reason == *b_reason
            },
            (
                Counter::LocalH3ConnCloseErrorCount(a_reason),
                Counter::LocalH3ConnCloseErrorCount(b_reason),
            ) => {
                *a_reason == *b_reason
            },
            (
                Counter::LocalQuicConnCloseErrorCount(a_reason),
                Counter::LocalQuicConnCloseErrorCount(b_reason),
            ) => {
                *a_reason == *b_reason
            },
            (
                Counter::PeerH3ConnCloseErrorCount(a_reason),
                Counter::PeerH3ConnCloseErrorCount(b_reason),
            ) => {
                *a_reason == *b_reason
            },
            (
                Counter::PeerQuicConnCloseErrorCount(a_reason),
                Counter::PeerQuicConnCloseErrorCount(b_reason),
            ) => {
                *a_reason == *b_reason
            },
            (
                Counter::TokioRuntimeTaskTotalPollTimeMicros(a_task),
                Counter::TokioRuntimeTaskTotalPollTimeMicros(b_task),
            ) => {
                *a_task == *b_task
            },
            _ => false,
        }
    }

}

/// The handle of a gauge: a series whose value is the latest that was set.
#[derive(Clone, Copy, Debug, PartialEq, Eq, Structural, Hash)]
pub enum Gauge {
    /// Number of QUIC connections currently in memory
    ConnectionsInMemory,
    /// Combined utilized bandwidth of all open connections (max over the past two minutes)
    UtilizedBandwidth,
}

impl View for Gauge {
    type V = Gauge;

    open spec fn view(&self) -> Gauge {
        *self
    }
}

impl Gauge {
    /// The metric that the series belongs to.
    pub open spec fn metric_spec(self) -> Metric {
        match self {
            Gauge::ConnectionsInMemory => Metric::ConnectionsInMemory,
            Gauge::UtilizedBandwidth => Metric::UtilizedBandwidth,
        }
    }

    /// The metric that the series belongs to.
    pub fn metric(&self) -> (m: Metric)
        ensures
            m == self.metric_spec(),
            m.kind_spec() is Gauge,
    {
        match self {
            Gauge::ConnectionsInMemory => Metric::ConnectionsInMemory,
            Gauge::UtilizedBandwidth => Metric::UtilizedBandwidth,
        }
    }

}

/// The handle of a histogram: a series that counts observed values in
/// buckets.
#[derive(Clone, Copy, Debug, PartialEq, Eq, Structural, Hash)]
pub enum Histogram {
    /// Maximum number of writable QUIC streams in a connection
    MaximumWritableStreams,
    /// The highest utilized bandwidh reported during the lifetime of the connection
    MaxBandwidthMbps,
    /// The highest momentary loss reported during the lifetime of the connection
    MaxLossPct,
}

impl View for Histogram {
    type V = Histogram;

    open spec fn view(&self) -> Histogram {
        *self
    }
}

impl Histogram {
    /// The metric that the series belongs to.
    pub open spec fn metric_spec(self) -> Metric {
        match self {
            Histogram::MaximumWritableStreams => Metric::MaximumWritableStreams,
            Histogram::MaxBandwidthMbps => Metric::MaxBandwidthMbps,
            Histogram::MaxLossPct => Metric::MaxLossPct,
        }
    }

    /// The metric that the series belongs to.
    pub fn metric(&self) -> (m: Metric)
        ensures
            m == self.metric_spec(),
            m.kind_spec() is Histogram,
    {
        match self {
            Histogram::MaximumWritableStreams => Metric::MaximumWritableStreams,
            Histogram::MaxBandwidthMbps => Metric::MaxBandwidthMbps,
            Histogram::MaxLossPct => Metric::MaxLossPct,
        }
    }

}

/// The handle of a duration histogram: a series that counts observed
/// durations in buckets.
#[derive(Debug, PartialEq, Eq, Hash)]
pub enum TimeHistogram {
    /// Overhead of QUIC handshake processing stage
    HandshakeTimeSeconds(QuicHandshakeStage),
    /// Histogram of task schedule delays
    TokioRuntimeTaskScheduleDelayHistogram(String),
    /// Histogram of task poll durations
    TokioRuntimeTaskPollDurationHistogram(String),
}

/// What a [`TimeHistogram`] identifies: the metric, and the value of each label.
pub enum TimeHistogramKey {
    HandshakeTimeSeconds(QuicHandshakeStage),
    TokioRuntimeTaskScheduleDelayHistogram(Seq<char>),
    TokioRuntimeTaskPollDurationHistogram(Seq<char>),
}

impl Clone for TimeHistogram {
    fn clone(&self) -> (r: Self)
        ensures
            r@ == self@,
    {
        match self {
            TimeHistogram::HandshakeTimeSeconds(stage) => {
                TimeHistogram::HandshakeTimeSeconds(*stage)
            },
            TimeHistogram::TokioRuntimeTaskScheduleDelayHistogram(task) => {
                TimeHistogram::TokioRuntimeTaskScheduleDelayHistogram(task.clone())
            },
            TimeHistogram::TokioRuntimeTaskPollDurationHistogram(task) => {
                TimeHistogram::TokioRuntimeTaskPollDurationHistogram(task.clone())
            },
        }
    }
}

impl View for TimeHistogram {
    type V = TimeHistogramKey;

    open spec fn view(&self) -> TimeHistogramKey {
        match *self {
            TimeHistogram::HandshakeTimeSeconds(stage) => {
                TimeHistogramKey::HandshakeTimeSeconds(stage)
            },
            TimeHistogram::TokioRuntimeTaskScheduleDelayHistogram(task) => {
                TimeHistogramKey::TokioRuntimeTaskScheduleDelayHistogram(task@)
            },
            TimeHistogram::TokioRuntimeTaskPollDurationHistogram(task) => {
                TimeHistogramKey::TokioRuntimeTaskPollDurationHistogram(task@)
            },
        }
    }
}

impl TimeHistogramKey {
    /// The metric that the series belongs to.
    pub open spec fn metric(self) -> Metric {
        match self {
            TimeHistogramKey::HandshakeTimeSeconds(_) => Metric::HandshakeTimeSeconds,
            TimeHistogramKey::TokioRuntimeTaskScheduleDelayHistogram(_) => {
                Metric::TokioRuntimeTaskScheduleDelayHistogram
            },
            TimeHistogramKey::TokioRuntimeTaskPollDurationHistogram(_) => {
                Metric::TokioRuntimeTaskPollDurationHistogram
            },
        }
    }
}

impl TimeHistogram {
    /// The metric that the series belongs to.
    pub fn metric(&self) -> (m: Metric)
        ensures
            m == self@.metric(),
            m.kind_spec() is TimeHistogram,
    {
        match self {
            TimeHistogram::HandshakeTimeSeconds(..) => Metric::HandshakeTimeSeconds,
            TimeHistogram::TokioRuntimeTaskScheduleDelayHistogram(..) => {
                Metric::TokioRuntimeTaskScheduleDelayHistogram
            },
            TimeHistogram::TokioRuntimeTaskPollDurationHistogram(..) => {
                Metric::TokioRuntimeTaskPollDurationHistogram
            },
        }
    }

    /// Whether two handles are of one series.
    pub fn same(&self, other: &TimeHistogram) -> (r: bool)
        ensures
            r == (self@ == other@),
    {
        match (self, other) {
            (
                TimeHistogram::HandshakeTimeSeconds(a_stage),
                TimeHistogram::HandshakeTimeSeconds(b_stage),
            ) => {
                *a_stage == *b_stage
            },
            (
                TimeHistogram::TokioRuntimeTaskScheduleDelayHistogram(a_task),
                TimeHistogram::TokioRuntimeTaskScheduleDelayHistogram(b_task),
            ) => {
                *a_task == *b_task
            },
            (
                TimeHistogram::TokioRuntimeTaskPollDurationHistogram(a_task),
                TimeHistogram::TokioRuntimeTaskPollDurationHistogram(b_task),
            ) => {
                *a_task == *b_task
            },
            _ => false,
        }
    }

}

/// The handle of a series of any kind.
#[derive(Debug, PartialEq, Eq, Hash)]
pub enum Series {
    Counter(Counter),
    Gauge(Gauge),
    Histogram(Histogram),
    TimeHistogram(TimeHistogram),
}

/// What a [`Series`] identifies: the metric, and the value of each label.
pub enum SeriesKey {
    Counter(CounterKey),
    Gauge(Gauge),
    Histogram(Histogram),
    TimeHistogram(TimeHistogramKey),
}

impl Clone for Series {
    fn clone(&self) -> (r: Self)
        ensures
            r@ == self@,
    {
        match self {
            Series::Counter(counter) => Series::Counter(counter.clone()),
            Series::Gauge(gauge) => Series::Gauge(*gauge),
            Series::Histogram(histogram) => Series::Histogram(*histogram),
            Series::TimeHistogram(histogram) => Series::TimeHistogram(histogram.clone()),
        }
    }
}

impl View for Series {
    type V = SeriesKey;

    open spec fn view(&self) -> SeriesKey {
        match *self {
            Series::Counter(counter) => SeriesKey::Counter(counter@),
            Series::Gauge(gauge) => SeriesKey::Gauge(gauge),
            Series::Histogram(histogram) => SeriesKey::Histogram(histogram),
            Series::TimeHistogram(histogram) => SeriesKey::TimeHistogram(histogram@),
        }
    }
}

impl SeriesKey {
    /// The metric that the series belongs to.
    pub open spec fn metric(self) -> Metric {
        match self {
            SeriesKey::Counter(key) => key.metric(),
            SeriesKey::Gauge(gauge) => gauge.metric_spec(),
            SeriesKey::Histogram(histogram) => histogram.metric_spec(),
            SeriesKey::TimeHistogram(key) => key.metric(),
        }
    }
}

impl Series {
    /// The metric that the series belongs to.
    pub fn metric(&self) -> (m: Metric)
        ensures
            m == self@.metric(),
    {
        match self {
            Series::Counter(counter) => counter.metric(),
            Series::Gauge(gauge) => gauge.metric(),
            Series::Histogram(histogram) => histogram.metric(),
            Series::TimeHistogram(histogram) => histogram.metric(),
        }
    }

    /// Whether two handles are of one series.
    pub fn same(&self, other: &Series) -> (r: bool)
        ensures
            r == (self@ == other@),
    {
        match (self, other) {
            (Series::Counter(a), Series::Counter(b)) => a.same(b),
            (Series::Gauge(a), Series::Gauge(b)) => *a == *b,
            (Series::Histogram(a), Series::Histogram(b)) => *a == *b,
            (Series::TimeHistogram(a), Series::TimeHistogram(b)) => a.same(b),
            _ => false,
        }
    }
}

/// A series belongs to one metric, and the kind of its handle is the kind of
/// that metric.
pub proof fn lemma_kind_of_series(key: SeriesKey)
    ensures
        key is Counter <==> key.metric().kind_spec() is Counter,
        key is Gauge <==> key.metric().kind_spec() is Gauge,
        key is Histogram <==> key.metric().kind_spec() is Histogram,
        key is TimeHistogram <==> key.metric().kind_spec() is TimeHistogram,
{
}

} // verus!
