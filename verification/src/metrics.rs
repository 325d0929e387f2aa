//! What the transport reports, and where it reports it.

use crate::ip::NetworkPrefix;
use crate::labels::H3Error;
use crate::labels::HandshakeError;
use crate::labels::QuicError;
use crate::labels::QuicHandshakeStage;
use crate::labels::QuicInvalidInitialPacketError;
use crate::labels::QuicWriteError;
use crate::series::Counter;
use crate::series::CounterKey;
use crate::series::Gauge;
use crate::series::Histogram;
use crate::series::TimeHistogram;
use crate::series::TimeHistogramKey;
use std::sync::Arc;
use vstd::prelude::*;

verus! {

/// What the transport reports: one method for each metric, which takes the
/// values of the metric's labels and gives the handle of the series that they
/// name. The transport is handed one implementation when it is made, and
/// reports through it and through nothing else.
///
/// An implementation decides where the series live. It does not decide which
/// series an event belongs to: that is fixed here, for all of them.
pub trait Metrics: Send + Sync + Clone + 'static {
    /// Number of QUIC connections currently in memory
    fn connections_in_memory(&self) -> (gauge: Gauge)
        ensures
            gauge == Gauge::ConnectionsInMemory,
    ;

    /// Maximum number of writable QUIC streams in a connection
    fn maximum_writable_streams(&self) -> (histogram: Histogram)
        ensures
            histogram == Histogram::MaximumWritableStreams,
    ;

    /// Overhead of QUIC handshake processing stage
    fn handshake_time_seconds(&self, stage: QuicHandshakeStage) -> (histogram: TimeHistogram)
        ensures
            histogram@ == TimeHistogramKey::HandshakeTimeSeconds(stage),
    ;

    /// Number of error and partial writes while sending QUIC packets
    fn write_errors(&self, reason: QuicWriteError) -> (counter: Counter)
        ensures
            counter@ == CounterKey::WriteErrors(reason),
    ;

    /// Number of QUIC packets received where the CID could not be verified.
    fn invalid_cid_packet_count(&self, reason: String) -> (counter: Counter)
        ensures
            counter@ == CounterKey::InvalidCidPacketCount(reason@),
    ;

    /// Number of accepted QUIC Initial packets
    fn accepted_initial_packet_count(&self) -> (counter: Counter)
        ensures
            counter@ == CounterKey::AcceptedInitialPacketCount,
    ;

    /// Number of accepted QUIC Initial packets using expensive label(s)
    fn expensive_accepted_initial_packet_count(&self, peer_ip: NetworkPrefix) -> (counter: Counter)
        ensures
            counter@ == CounterKey::ExpensiveAcceptedInitialPacketCount(peer_ip),
    ;

    /// Number of QUIC packets received but not associated with an active
    /// connection
    fn rejected_initial_packet_count(
        &self,
        reason: QuicInvalidInitialPacketError,
    ) -> (counter: Counter)
        ensures
            counter@ == CounterKey::RejectedInitialPacketCount(reason),
    ;

    /// Number of QUIC packets received but not associated with an active
    /// connection using expensive label(s)
    fn expensive_rejected_initial_packet_count(
        &self,
        reason: QuicInvalidInitialPacketError,
        peer_ip: NetworkPrefix,
    ) -> (counter: Counter)
        ensures
            counter@ == CounterKey::ExpensiveRejectedInitialPacketCount(reason, peer_ip),
    ;

    /// Combined utilized bandwidth of all open connections (max over the past
    /// two minutes)
    fn utilized_bandwidth(&self) -> (gauge: Gauge)
        ensures
            gauge == Gauge::UtilizedBandwidth,
    ;

    /// The highest utilized bandwidh reported during the lifetime of the
    /// connection
    fn max_bandwidth_mbps(&self) -> (histogram: Histogram)
        ensures
            histogram == Histogram::MaxBandwidthMbps,
    ;

    /// The highest momentary loss reported during the lifetime of the
    /// connection
    fn max_loss_pct(&self) -> (histogram: Histogram)
        ensures
            histogram == Histogram::MaxLossPct,
    ;

    /// Number of UDP packets dropped when receiving
    fn udp_drop_count(&self) -> (counter: Counter)
        ensures
            counter@ == CounterKey::UdpDropCount,
    ;

    /// Number of failed quic handshakes
    fn failed_handshakes(&self, reason: HandshakeError) -> (counter: Counter)
        ensures
            counter@ == CounterKey::FailedHandshakes(reason),
    ;

    /// Number of HTTP/3 connection closures generated locally
    fn local_h3_conn_close_error_count(&self, reason: H3Error) -> (counter: Counter)
        ensures
            counter@ == CounterKey::LocalH3ConnCloseErrorCount(reason),
    ;

    /// Number of QUIC connection closures generated locally
    fn local_quic_conn_close_error_count(&self, reason: QuicError) -> (counter: Counter)
        ensures
            counter@ == CounterKey::LocalQuicConnCloseErrorCount(reason),
    ;

    /// Number of HTTP/3 connection closures generated by peer
    fn peer_h3_conn_close_error_count(&self, reason: H3Error) -> (counter: Counter)
        ensures
            counter@ == CounterKey::PeerH3ConnCloseErrorCount(reason),
    ;

    /// Number of QUIC connection closures generated by peer
    fn peer_quic_conn_close_error_count(&self, reason: QuicError) -> (counter: Counter)
        ensures
            counter@ == CounterKey::PeerQuicConnCloseErrorCount(reason),
    ;

    // ==== tokio runtime metrics ====

    /// Histogram of task schedule delays
    fn tokio_runtime_task_schedule_delay_histogram(
        &self,
        task: &Arc<str>,
    ) -> (histogram: TimeHistogram)
        ensures
            histogram@ == TimeHistogramKey::TokioRuntimeTaskScheduleDelayHistogram((**task)@),
    ;

    /// Histogram of task poll durations
    fn tokio_runtime_task_poll_duration_histogram(
        &self,
        task: &Arc<str>,
    ) -> (histogram: TimeHistogram)
        ensures
            histogram@ == TimeHistogramKey::TokioRuntimeTaskPollDurationHistogram((**task)@),
    ;

    /// Helps us get a rough idea of if our waker is causing issues.
    fn tokio_runtime_task_total_poll_time_micros(&self, task: &Arc<str>) -> (counter: Counter)
        ensures
            counter@ == CounterKey::TokioRuntimeTaskTotalPollTimeMicros((**task)@),
    ;
}

/// The standard implementation of [`Metrics`], which resolves every event to
/// the series of the metric that is registered for it.
#[derive(Clone, Copy, Debug, Default)]
pub struct DefaultMetrics;

impl Metrics for DefaultMetrics {
    fn connections_in_memory(&self) -> (gauge: Gauge) {
        crate::quic::connections_in_memory()
    }

    fn maximum_writable_streams(&self) -> (histogram: Histogram) {
        crate::quic::maximum_writable_streams()
    }

    fn handshake_time_seconds(&self, stage: QuicHandshakeStage) -> (histogram: TimeHistogram) {
        crate::quic::handshake_time_seconds(stage)
    }

    fn write_errors(&self, reason: QuicWriteError) -> (counter: Counter) {
        crate::quic::write_errors(reason)
    }

    fn invalid_cid_packet_count(&self, reason: String) -> (counter: Counter) {
        crate::quic::invalid_cid_packet_count(reason)
    }

    fn accepted_initial_packet_count(&self) -> (counter: Counter) {
        crate::quic::accepted_initial_packet_count()
    }

    fn expensive_accepted_initial_packet_count(&self, peer_ip: NetworkPrefix) -> (counter: Counter) {
        crate::quic::expensive_accepted_initial_packet_count(peer_ip)
    }

    fn rejected_initial_packet_count(
        &self,
        reason: QuicInvalidInitialPacketError,
    ) -> (counter: Counter) {
        crate::quic::rejected_initial_packet_count(reason)
    }

    fn expensive_rejected_initial_packet_count(
        &self,
        reason: QuicInvalidInitialPacketError,
        peer_ip: NetworkPrefix,
    ) -> (counter: Counter) {
        crate::quic::expensive_rejected_initial_packet_count(reason, peer_ip)
    }

    fn utilized_bandwidth(&self) -> (gauge: Gauge) {
        crate::quic::utilized_bandwidth()
    }

    fn max_bandwidth_mbps(&self) -> (histogram: Histogram) {
        crate::quic::max_bandwidth_mbps()
    }

    fn max_loss_pct(&self) -> (histogram: Histogram) {
        crate::quic::max_loss_pct()
    }

    fn udp_drop_count(&self) -> (counter: Counter) {
        crate::quic::udp_drop_count()
    }

    fn failed_handshakes(&self, reason: HandshakeError) -> (counter: Counter) {
        crate::quic::failed_handshakes(reason)
    }

    fn local_h3_conn_close_error_count(&self, reason: H3Error) -> (counter: Counter) {
        crate::quic::local_h3_conn_close_error_count(reason)
    }

    fn local_quic_conn_close_error_count(&self, reason: QuicError) -> (counter: Counter) {
        crate::quic::local_quic_conn_close_error_count(reason)
    }

    fn peer_h3_conn_close_error_count(&self, reason: H3Error) -> (counter: Counter) {
        crate::quic::peer_h3_conn_close_error_count(reason)
    }

    fn peer_quic_conn_close_error_count(&self, reason: QuicError) -> (counter: Counter) {
        crate::quic::peer_quic_conn_close_error_count(reason)
    }

    // ==== tokio runtime metrics ====

    fn tokio_runtime_task_schedule_delay_histogram(
        &self,
        task: &Arc<str>,
    ) -> (histogram: TimeHistogram) {
        crate::tokio::runtime_task_schedule_delay_histogram(task)
    }

    fn tokio_runtime_task_poll_duration_histogram(
        &self,
        task: &Arc<str>,
    ) -> (histogram: TimeHistogram) {
        crate::tokio::runtime_task_poll_duration_histogram(task)
    }

    fn tokio_runtime_task_total_poll_time_micros(&self, task: &Arc<str>) -> (counter: Counter) {
        crate::tokio::runtime_task_total_poll_time_micros(task)
    }
}

} // verus!
