//! The series of the QUIC transport's metrics.
//!
//! Each function resolves one metric and one combination of label values to
//! the handle of their series. It has one answer for each combination: what
//! is resolved twice is the same series.

use crate::ip::NetworkPrefix;
use crate::labels::H3Error;
use crate::labels::HandshakeError;
use crate::labels::QuicError;
use crate::labels::QuicHandshakeStage;
use crate::labels::QuicInvalidInitialPacketError;
use crate::labels::QuicWriteError;
use crate::series::Counter;
use crate::series::CounterKey;
use crate::series::Gauge;
use crate::series::Histogram;
use crate::series::TimeHistogram;
use crate::series::TimeHistogramKey;
use vstd::prelude::*;

verus! {

/// Number of QUIC connections currently in memory
pub fn connections_in_memory() -> (gauge: Gauge)
    ensures
        gauge == Gauge::ConnectionsInMemory,
{
    Gauge::ConnectionsInMemory
}

/// Maximum number of writable QUIC streams in a connection
pub fn maximum_writable_streams() -> (histogram: Histogram)
    ensures
        histogram == Histogram::MaximumWritableStreams,
{
    Histogram::MaximumWritableStreams
}

/// Overhead of QUIC handshake processing stage
pub fn handshake_time_seconds(stage: QuicHandshakeStage) -> (histogram: TimeHistogram)
    ensures
        histogram@ == TimeHistogramKey::HandshakeTimeSeconds(stage),
{
    TimeHistogram::HandshakeTimeSeconds(stage)
}

/// Number of error and partial writes while sending QUIC packets
pub fn write_errors(reason: QuicWriteError) -> (counter: Counter)
    ensures
        counter@ == CounterKey::WriteErrors(reason),
{
    Counter::WriteErrors(reason)
}

/// Number of QUIC packets received where the CID could not be verified.
pub fn invalid_cid_packet_count(reason: String) -> (counter: Counter)
    ensures
        counter@ == CounterKey::InvalidCidPacketCount(reason@),
{
    Counter::InvalidCidPacketCount(reason)
}

/// Number of accepted QUIC Initial packets
pub fn accepted_initial_packet_count() -> (counter: Counter)
    ensures
        counter@ == CounterKey::AcceptedInitialPacketCount,
{
    Counter::AcceptedInitialPacketCount
}

/// Number of accepted QUIC Initial packets using expensive label(s)
pub fn expensive_accepted_initial_packet_count(peer_ip: NetworkPrefix) -> (counter: Counter)
    ensures
        counter@ == CounterKey::ExpensiveAcceptedInitialPacketCount(peer_ip),
{
    Counter::ExpensiveAcceptedInitialPacketCount(peer_ip)
}

/// Number of QUIC packets received but not associated with an active connection
pub fn rejected_initial_packet_count(reason: QuicInvalidInitialPacketError) -> (counter: Counter)
    ensures
        counter@ == CounterKey::RejectedInitialPacketCount(reason),
{
    Counter::RejectedInitialPacketCount(reason)
}

/// Number of QUIC packets received but not associated with an active connection
/// using expensive label(s)
pub fn expensive_rejected_initial_packet_count(
    reason: QuicInvalidInitialPacketError,
    peer_ip: NetworkPrefix,
) -> (counter: Counter)
    ensures
        counter@ == CounterKey::ExpensiveRejectedInitialPacketCount(reason, peer_ip),
{
    Counter::ExpensiveRejectedInitialPacketCount(reason, peer_ip)
}

/// Combined utilized bandwidth of all open connections (max over the past two
/// minutes)
pub fn utilized_bandwidth() -> (gauge: Gauge)
    ensures
        gauge == Gauge::UtilizedBandwidth,
{
    Gauge::UtilizedBandwidth
}

/// The highest utilized bandwidh reported during the lifetime of the connection
pub fn max_bandwidth_mbps() -> (histogram: Histogram)
    ensures
        histogram == Histogram::MaxBandwidthMbps,
{
    Histogram::MaxBandwidthMbps
}

/// The highest momentary loss reported during the lifetime of the connection
pub fn max_loss_pct() -> (histogram: Histogram)
    ensures
        histogram == Histogram::MaxLossPct,
{
    Histogram::MaxLossPct
}

/// Number of UDP packets dropped when receiving
pub fn udp_drop_count() -> (counter: Counter)
    ensures
        counter@ == CounterKey::UdpDropCount,
{
    Counter::UdpDropCount
}

/// Number of failed quic handshakes
pub fn failed_handshakes(reason: HandshakeError) -> (counter: Counter)
    ensures
        counter@ == CounterKey::FailedHandshakes(reason),
{
    Counter::FailedHandshakes(reason)
}

/// Number of HTTP/3 connection closures generated locally
pub fn local_h3_conn_close_error_count(reason: H3Error) -> (counter: Counter)
    ensures
        counter@ == CounterKey::LocalH3ConnCloseErrorCount(reason),
{
    Counter::LocalH3ConnCloseErrorCount(reason)
}

/// Number of QUIC connection closures generated locally
pub fn local_quic_conn_close_error_count(reason: QuicError) -> (counter: Counter)
    ensures
        counter@ == CounterKey::LocalQuicConnCloseErrorCount(reason),
{
    Counter::LocalQuicConnCloseErrorCount(reason)
}

/// Number of HTTP/3 connection closures generated by peer
pub fn peer_h3_conn_close_error_count(reason: H3Error) -> (counter: Counter)
    ensures
        counter@ == CounterKey::PeerH3ConnCloseErrorCount(reason),
{
    Counter::PeerH3ConnCloseErrorCount(reason)
}

/// Number of QUIC connection closures generated by peer
pub fn peer_quic_conn_close_error_count(reason: QuicError) -> (counter: Counter)
    ensures
        counter@ == CounterKey::PeerQuicConnCloseErrorCount(reason),
{
    Counter::PeerQuicConnCloseErrorCount(reason)
}

} // verus!
