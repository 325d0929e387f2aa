//! The reasons and stages by which metrics are labelled.
//!
//! Every label is a closed enumeration, and every variant has one identifier:
//! a short lower-case string, which is the label's value in the registry.
//! Dashboards and alerts are written against these identifiers. A variant may
//! be added; an identifier, once in use, is neither changed nor given to
//! another variant.

use vstd::prelude::*;

verus! {

/// Part of the handling of a handshake packet whose duration was measured, in
/// the order in which a packet passes through them.
#[derive(Clone, Copy, Debug, PartialEq, Eq, Structural, Hash)]
pub enum QuicHandshakeStage {
    /// In the kernel's receive queue, and waiting for the connection's task
    /// to be polled.
    QueueWaiting,
    /// Parsing the Initial packet's header.
    ParseInitial,
    /// Deriving the packet protection keys.
    DeriveKeys,
    /// Processing the frames that the packet carries.
    ProcessFrames,
    /// All protocol processing of one handshake packet, without the waiting
    /// before it and the sending after it.
    HandshakeProtocol,
    /// From receiving a handshake packet to flushing the response to the
    /// socket.
    HandshakeResponse,
}

impl QuicHandshakeStage {
    /// The identifier of each variant.
    pub open spec fn label_spec(self) -> Seq<char> {
        match self {
            QuicHandshakeStage::QueueWaiting => "queuewaiting"@,
            QuicHandshakeStage::ParseInitial => "parseinitial"@,
            QuicHandshakeStage::DeriveKeys => "derivekeys"@,
            QuicHandshakeStage::ProcessFrames => "processframes"@,
            QuicHandshakeStage::HandshakeProtocol => "handshakeprotocol"@,
            QuicHandshakeStage::HandshakeResponse => "handshakeresponse"@,
        }
    }

    /// The value under which this variant labels a series.
    pub fn label(&self) -> (s: &'static str)
        ensures
            s@ == self.label_spec(),
    {
        match self {
            QuicHandshakeStage::QueueWaiting => "queuewaiting",
            QuicHandshakeStage::ParseInitial => "parseinitial",
            QuicHandshakeStage::DeriveKeys => "derivekeys",
            QuicHandshakeStage::ProcessFrames => "processframes",
            QuicHandshakeStage::HandshakeProtocol => "handshakeprotocol",
            QuicHandshakeStage::HandshakeResponse => "handshakeresponse",
        }
    }

    /// No two variants share an identifier.
    pub proof fn lemma_label_identifies(a: Self, b: Self)
        requires
            a.label_spec() == b.label_spec(),
        ensures
            a == b,
    {
        reveal_strlit("queuewaiting");
        reveal_strlit("parseinitial");
        reveal_strlit("derivekeys");
        reveal_strlit("processframes");
        reveal_strlit("handshakeprotocol");
        reveal_strlit("handshakeresponse");
        assert("queuewaiting"@.len() == 12);
        assert("parseinitial"@.len() == 12);
        assert("derivekeys"@.len() == 10);
        assert("processframes"@.len() == 13);
        assert("handshakeprotocol"@.len() == 17);
        assert("handshakeresponse"@.len() == 17);
        assert("queuewaiting"@[0] == 'q');
        assert("parseinitial"@[0] == 'p');
        assert("handshakeprotocol"@[9] == 'p');
        assert("handshakeresponse"@[9] == 'r');
    }
}

/// What went wrong when a packet was written to the socket.
#[derive(Clone, Copy, Debug, PartialEq, Eq, Structural, Hash)]
pub enum QuicWriteError {
    /// The write failed.
    Error,
    /// Only part of the packet was written.
    Partial,
    /// The socket was not ready for writing.
    WouldBlock,
}

impl QuicWriteError {
    /// The identifier of each variant.
    pub open spec fn label_spec(self) -> Seq<char> {
        match self {
            QuicWriteError::Error => "err"@,
            QuicWriteError::Partial => "partial"@,
            QuicWriteError::WouldBlock => "wouldblock"@,
        }
    }

    /// The value under which this variant labels a series.
    pub fn label(&self) -> (s: &'static str)
        ensures
            s@ == self.label_spec(),
    {
        match self {
            QuicWriteError::Error => "err",
            QuicWriteError::Partial => "partial",
            QuicWriteError::WouldBlock => "wouldblock",
        }
    }

    /// No two variants share an identifier.
    pub proof fn lemma_label_identifies(a: Self, b: Self)
        requires
            a.label_spec() == b.label_spec(),
        ensures
            a == b,
    {
        reveal_strlit("err");
        reveal_strlit("partial");
        reveal_strlit("wouldblock");
        assert("err"@.len() == 3);
        assert("partial"@.len() == 7);
        assert("wouldblock"@.len() == 10);
    }
}

/// Why an Initial packet was rejected before a connection existed for it.
#[derive(Clone, Copy, Debug, PartialEq, Eq, Structural, Hash)]
pub enum QuicInvalidInitialPacketError {
    /// The address validation token did not verify.
    TokenValidationFail,
    /// The packet's header could not be parsed.
    FailedToParse,
    /// A packet of another type arrived where an Initial was expected.
    WrongType,
    /// The queue of connections waiting to be accepted was full.
    AcceptQueueOverflow,
    /// Any other reason.
    Unexpected,
}

impl QuicInvalidInitialPacketError {
    /// The identifier of each variant.
    pub open spec fn label_spec(self) -> Seq<char> {
        match self {
            QuicInvalidInitialPacketError::TokenValidationFail => "tokenvalidationfail"@,
            QuicInvalidInitialPacketError::FailedToParse => "failedtoparse"@,
            QuicInvalidInitialPacketError::WrongType => "wrongtype"@,
            QuicInvalidInitialPacketError::AcceptQueueOverflow => "acceptqueueoverflow"@,
            QuicInvalidInitialPacketError::Unexpected => "unexpected"@,
        }
    }

    /// The value under which this variant labels a series.
    pub fn label(&self) -> (s: &'static str)
        ensures
            s@ == self.label_spec(),
    {
        match self {
            QuicInvalidInitialPacketError::TokenValidationFail => "tokenvalidationfail",
            QuicInvalidInitialPacketError::FailedToParse => "failedtoparse",
            QuicInvalidInitialPacketError::WrongType => "wrongtype",
            QuicInvalidInitialPacketError::AcceptQueueOverflow => "acceptqueueoverflow",
            QuicInvalidInitialPacketError::Unexpected => "unexpected",
        }
    }

    /// No two variants share an identifier.
    pub proof fn lemma_label_identifies(a: Self, b: Self)
        requires
            a.label_spec() == b.label_spec(),
        ensures
            a == b,
    {
        reveal_strlit("tokenvalidationfail");
        reveal_strlit("failedtoparse");
        reveal_strlit("wrongtype");
        reveal_strlit("acceptqueueoverflow");
        reveal_strlit("unexpected");
        assert("tokenvalidationfail"@.len() == 19);
        assert("failedtoparse"@.len() == 13);
        assert("wrongtype"@.len() == 9);
        assert("acceptqueueoverflow"@.len() == 19);
        assert("unexpected"@.len() == 10);
        assert("tokenvalidationfail"@[0] == 't');
        assert("acceptqueueoverflow"@[0] == 'a');
    }
}

/// Why a handshake failed.
#[derive(Clone, Copy, Debug, PartialEq, Eq, Structural, Hash)]
pub enum HandshakeError {
    /// The cryptographic handshake failed.
    CryptoFail,
    /// TLS reported an error.
    TlsFail,
    /// The handshake did not finish in time.
    Timeout,
    /// The peer went away during the handshake.
    Disconnect,
    /// Any other reason.
    Other,
}

impl HandshakeError {
    /// The identifier of each variant.
    pub open spec fn label_spec(self) -> Seq<char> {
        match self {
            HandshakeError::CryptoFail => "cryptofail"@,
            HandshakeError::TlsFail => "tlsfail"@,
            HandshakeError::Timeout => "timeout"@,
            HandshakeError::Disconnect => "disconnect"@,
            HandshakeError::Other => "other"@,
        }
    }

    /// The value under which this variant labels a series.
    pub fn label(&self) -> (s: &'static str)
        ensures
            s@ == self.label_spec(),
    {
        match self {
            HandshakeError::CryptoFail => "cryptofail",
            HandshakeError::TlsFail => "tlsfail",
            HandshakeError::Timeout => "timeout",
            HandshakeError::Disconnect => "disconnect",
            HandshakeError::Other => "other",
        }
    }

    /// No two variants share an identifier.
    pub proof fn lemma_label_identifies(a: Self, b: Self)
        requires
            a.label_spec() == b.label_spec(),
        ensures
            a == b,
    {
        reveal_strlit("cryptofail");
        reveal_strlit("tlsfail");
        reveal_strlit("timeout");
        reveal_strlit("disconnect");
        reveal_strlit("other");
        assert("cryptofail"@.len() == 10);
        assert("tlsfail"@.len() == 7);
        assert("timeout"@.len() == 7);
        assert("disconnect"@.len() == 10);
        assert("other"@.len() == 5);
        assert("cryptofail"@[0] == 'c');
        assert("disconnect"@[0] == 'd');
        assert("tlsfail"@[1] == 'l');
        assert("timeout"@[1] == 'i');
    }
}

/// Why an HTTP/3 connection was closed: the error codes that HTTP/3, QPACK and
/// HTTP datagrams define, and one variant for every other code.
#[derive(Clone, Copy, Debug, PartialEq, Eq, Structural, Hash)]
pub enum H3Error {
    /// Code `0x33`.
    DatagramError,
    /// Code `0x100`.
    NoError,
    /// Code `0x101`.
    GeneralProtocolError,
    /// Code `0x102`.
    InternalError,
    /// Code `0x103`.
    StreamCreationError,
    /// Code `0x104`.
    ClosedCriticalStream,
    /// Code `0x105`.
    FrameUnexpected,
    /// Code `0x106`.
    FrameError,
    /// Code `0x107`.
    ExcessiveLoad,
    /// Code `0x108`.
    IdError,
    /// Code `0x109`.
    SettingsError,
    /// Code `0x10a`.
    MissingSettings,
    /// Code `0x10b`.
    RequestRejected,
    /// Code `0x10c`.
    RequestCancelled,
    /// Code `0x10d`.
    RequestIncomplete,
    /// Code `0x10e`.
    MessageError,
    /// Code `0x10f`.
    ConnectError,
    /// Code `0x110`.
    VersionFallback,
    /// Code `0x200`.
    QpackDecompressionFailed,
    /// Code `0x201`.
    QpackEncoderStreamError,
    /// Code `0x202`.
    QpackDecoderStreamError,
    /// A code that has no variant of its own.
    Unknown,
}

impl H3Error {
    /// The variant that stands for an error code on the wire.
    pub open spec fn from_code_spec(code: u64) -> Self {
        if code == 0x33 {
            H3Error::DatagramError
        } else if code == 0x100 {
            H3Error::NoError
        } else if code == 0x101 {
            H3Error::GeneralProtocolError
        } else if code == 0x102 {
            H3Error::InternalError
        } else if code == 0x103 {
            H3Error::StreamCreationError
        } else if code == 0x104 {
            H3Error::ClosedCriticalStream
        } else if code == 0x105 {
            H3Error::FrameUnexpected
        } else if code == 0x106 {
            H3Error::FrameError
        } else if code == 0x107 {
            H3Error::ExcessiveLoad
        } else if code == 0x108 {
            H3Error::IdError
        } else if code == 0x109 {
            H3Error::SettingsError
        } else if code == 0x10a {
            H3Error::MissingSettings
        } else if code == 0x10b {
            H3Error::RequestRejected
        } else if code == 0x10c {
            H3Error::RequestCancelled
        } else if code == 0x10d {
            H3Error::RequestIncomplete
        } else if code == 0x10e {
            H3Error::MessageError
        } else if code == 0x10f {
            H3Error::ConnectError
        } else if code == 0x110 {
            H3Error::VersionFallback
        } else if code == 0x200 {
            H3Error::QpackDecompressionFailed
        } else if code == 0x201 {
            H3Error::QpackEncoderStreamError
        } else if code == 0x202 {
            H3Error::QpackDecoderStreamError
        } else {
            H3Error::Unknown
        }
    }

    /// The variant that stands for an error code on the wire.
    pub fn from_code(code: u64) -> (e: Self)
        ensures
            e == Self::from_code_spec(code),
    {
        if code == 0x33 {
            H3Error::DatagramError
        } else if code == 0x100 {
            H3Error::NoError
        } else if code == 0x101 {
            H3Error::GeneralProtocolError
        } else if code == 0x102 {
            H3Error::InternalError
        } else if code == 0x103 {
            H3Error::StreamCreationError
        } else if code == 0x104 {
            H3Error::ClosedCriticalStream
        } else if code == 0x105 {
            H3Error::FrameUnexpected
        } else if code == 0x106 {
            H3Error::FrameError
        } else if code == 0x107 {
            H3Error::ExcessiveLoad
        } else if code == 0x108 {
            H3Error::IdError
        } else if code == 0x109 {
            H3Error::SettingsError
        } else if code == 0x10a {
            H3Error::MissingSettings
        } else if code == 0x10b {
            H3Error::RequestRejected
        } else if code == 0x10c {
            H3Error::RequestCancelled
        } else if code == 0x10d {
            H3Error::RequestIncomplete
        } else if code == 0x10e {
            H3Error::MessageError
        } else if code == 0x10f {
            H3Error::ConnectError
        } else if code == 0x110 {
            H3Error::VersionFallback
        } else if code == 0x200 {
            H3Error::QpackDecompressionFailed
        } else if code == 0x201 {
            H3Error::QpackEncoderStreamError
        } else if code == 0x202 {
            H3Error::QpackDecoderStreamError
        } else {
            H3Error::Unknown
        }
    }

    /// The identifier of each variant.
    pub open spec fn label_spec(self) -> Seq<char> {
        match self {
            H3Error::DatagramError => "h3_datagram_error"@,
            H3Error::NoError => "h3_no_error"@,
            H3Error::GeneralProtocolError => "h3_general_protocol_error"@,
            H3Error::InternalError => "h3_internal_error"@,
            H3Error::StreamCreationError => "h3_stream_creation_error"@,
            H3Error::ClosedCriticalStream => "h3_closed_critical_stream"@,
            H3Error::FrameUnexpected => "h3_frame_unexpected"@,
            H3Error::FrameError => "h3_frame_error"@,
            H3Error::ExcessiveLoad => "h3_excessive_load"@,
            H3Error::IdError => "h3_id_error"@,
            H3Error::SettingsError => "h3_settings_error"@,
            H3Error::MissingSettings => "h3_missing_settings"@,
            H3Error::RequestRejected => "h3_request_rejected"@,
            H3Error::RequestCancelled => "h3_request_cancelled"@,
            H3Error::RequestIncomplete => "h3_request_incomplete"@,
            H3Error::MessageError => "h3_message_error"@,
            H3Error::ConnectError => "h3_connect_error"@,
            H3Error::VersionFallback => "h3_version_fallback"@,
            H3Error::QpackDecompressionFailed => "qpack_decompression_failed"@,
            H3Error::QpackEncoderStreamError => "qpack_encoder_stream_error"@,
            H3Error::QpackDecoderStreamError => "qpack_decoder_stream_error"@,
            H3Error::Unknown => "unknown"@,
        }
    }

    /// The value under which this variant labels a series.
    pub fn label(&self) -> (s: &'static str)
        ensures
            s@ == self.label_spec(),
    {
        match self {
            H3Error::DatagramError => "h3_datagram_error",
            H3Error::NoError => "h3_no_error",
            H3Error::GeneralProtocolError => "h3_general_protocol_error",
            H3Error::InternalError => "h3_internal_error",
            H3Error::StreamCreationError => "h3_stream_creation_error",
            H3Error::ClosedCriticalStream => "h3_closed_critical_stream",
            H3Error::FrameUnexpected => "h3_frame_unexpected",
            H3Error::FrameError => "h3_frame_error",
            H3Error::ExcessiveLoad => "h3_excessive_load",
            H3Error::IdError => "h3_id_error",
            H3Error::SettingsError => "h3_settings_error",
            H3Error::MissingSettings => "h3_missing_settings",
            H3Error::RequestRejected => "h3_request_rejected",
            H3Error::RequestCancelled => "h3_request_cancelled",
            H3Error::RequestIncomplete => "h3_request_incomplete",
            H3Error::MessageError => "h3_message_error",
            H3Error::ConnectError => "h3_connect_error",
            H3Error::VersionFallback => "h3_version_fallback",
            H3Error::QpackDecompressionFailed => "qpack_decompression_failed",
            H3Error::QpackEncoderStreamError => "qpack_encoder_stream_error",
            H3Error::QpackDecoderStreamError => "qpack_decoder_stream_error",
            H3Error::Unknown => "unknown",
        }
    }

    /// No two variants share an identifier.
    pub proof fn lemma_label_identifies(a: Self, b: Self)
        requires
            a.label_spec() == b.label_spec(),
        ensures
            a == b,
    {
        reveal_strlit("h3_datagram_error");
        reveal_strlit("h3_no_error");
        reveal_strlit("h3_general_protocol_error");
        reveal_strlit("h3_internal_error");
        reveal_strlit("h3_stream_creation_error");
        reveal_strlit("h3_closed_critical_stream");
        reveal_strlit("h3_frame_unexpected");
        reveal_strlit("h3_frame_error");
        reveal_strlit("h3_excessive_load");
        reveal_strlit("h3_id_error");
        reveal_strlit("h3_settings_error");
        reveal_strlit("h3_missing_settings");
        reveal_strlit("h3_request_rejected");
        reveal_strlit("h3_request_cancelled");
        reveal_strlit("h3_request_incomplete");
        reveal_strlit("h3_message_error");
        reveal_strlit("h3_connect_error");
        reveal_strlit("h3_version_fallback");
        reveal_strlit("qpack_decompression_failed");
        reveal_strlit("qpack_encoder_stream_error");
        reveal_strlit("qpack_decoder_stream_error");
        reveal_strlit("unknown");
        assert("h3_datagram_error"@.len() == 17);
        assert("h3_no_error"@.len() == 11);
        assert("h3_general_protocol_error"@.len() == 25);
        assert("h3_internal_error"@.len() == 17);
        assert("h3_stream_creation_error"@.len() == 24);
        assert("h3_closed_critical_stream"@.len() == 25);
        assert("h3_frame_unexpected"@.len() == 19);
        assert("h3_frame_error"@.len() == 14);
        assert("h3_excessive_load"@.len() == 17);
        assert("h3_id_error"@.len() == 11);
        assert("h3_settings_error"@.len() == 17);
        assert("h3_missing_settings"@.len() == 19);
        assert("h3_request_rejected"@.len() == 19);
        assert("h3_request_cancelled"@.len() == 20);
        assert("h3_request_incomplete"@.len() == 21);
        assert("h3_message_error"@.len() == 16);
        assert("h3_connect_error"@.len() == 16);
        assert("h3_version_fallback"@.len() == 19);
        assert("qpack_decompression_failed"@.len() == 26);
        assert("qpack_encoder_stream_error"@.len() == 26);
        assert("qpack_decoder_stream_error"@.len() == 26);
        assert("unknown"@.len() == 7);
        assert("h3_datagram_error"@[3] == 'd');
        assert("h3_internal_error"@[3] == 'i');
        assert("h3_excessive_load"@[3] == 'e');
        assert("h3_settings_error"@[3] == 's');
        assert("h3_no_error"@[3] == 'n');
        assert("h3_id_error"@[3] == 'i');
        assert("h3_general_protocol_error"@[3] == 'g');
        assert("h3_closed_critical_stream"@[3] == 'c');
        assert("h3_frame_unexpected"@[3] == 'f');
        assert("h3_missing_settings"@[3] == 'm');
        assert("h3_request_rejected"@[3] == 'r');
        assert("h3_version_fallback"@[3] == 'v');
        assert("h3_message_error"@[3] == 'm');
        assert("h3_connect_error"@[3] == 'c');
        assert("qpack_decompression_failed"@[6] == 'd');
        assert("qpack_encoder_stream_error"@[6] == 'e');
        assert("qpack_decompression_failed"@[10] == 'm');
        assert("qpack_decoder_stream_error"@[10] == 'd');
        assert("qpack_decoder_stream_error"@[6] == 'd');
    }
}

/// Why a QUIC connection was closed: the transport error codes, one variant
/// for the whole range of TLS alerts, and one for every other code.
#[derive(Clone, Copy, Debug, PartialEq, Eq, Structural, Hash)]
pub enum QuicError {
    /// Code `0x0`.
    NoError,
    /// Code `0x1`.
    InternalError,
    /// Code `0x2`.
    ConnectionRefused,
    /// Code `0x3`.
    FlowControlError,
    /// Code `0x4`.
    StreamLimitError,
    /// Code `0x5`.
    StreamStateError,
    /// Code `0x6`.
    FinalSizeError,
    /// Code `0x7`.
    FrameEncodingError,
    /// Code `0x8`.
    TransportParameterError,
    /// Code `0x9`.
    ConnectionIdLimitError,
    /// Code `0xa`.
    ProtocolViolation,
    /// Code `0xb`.
    InvalidToken,
    /// Code `0xc`.
    ApplicationError,
    /// Code `0xd`.
    CryptoBufferExceeded,
    /// Code `0xe`.
    KeyUpdateError,
    /// Code `0xf`.
    AeadLimitReached,
    /// Code `0x10`.
    NoViablePath,
    /// Code `0x11`.
    VersionNegotiationError,
    /// Codes `0x100` to `0x1ff`: a TLS alert.
    CryptoError,
    /// A code that has no variant of its own.
    Unknown,
}

impl QuicError {
    /// The variant that stands for an error code on the wire.
    pub open spec fn from_code_spec(code: u64) -> Self {
        if code == 0x0 {
            QuicError::NoError
        } else if code == 0x1 {
            QuicError::InternalError
        } else if code == 0x2 {
            QuicError::ConnectionRefused
        } else if code == 0x3 {
            QuicError::FlowControlError
        } else if code == 0x4 {
            QuicError::StreamLimitError
        } else if code == 0x5 {
            QuicError::StreamStateError
        } else if code == 0x6 {
            QuicError::FinalSizeError
        } else if code == 0x7 {
            QuicError::FrameEncodingError
        } else if code == 0x8 {
            QuicError::TransportParameterError
        } else if code == 0x9 {
            QuicError::ConnectionIdLimitError
        } else if code == 0xa {
            QuicError::ProtocolViolation
        } else if code == 0xb {
            QuicError::InvalidToken
        } else if code == 0xc {
            QuicError::ApplicationError
        } else if code == 0xd {
            QuicError::CryptoBufferExceeded
        } else if code == 0xe {
            QuicError::KeyUpdateError
        } else if code == 0xf {
            QuicError::AeadLimitReached
        } else if code == 0x10 {
            QuicError::NoViablePath
        } else if code == 0x11 {
            QuicError::VersionNegotiationError
        } else if 0x100 <= code <= 0x1ff {
            QuicError::CryptoError
        } else {
            QuicError::Unknown
        }
    }

    /// The variant that stands for an error code on the wire.
    pub fn from_code(code: u64) -> (e: Self)
        ensures
            e == Self::from_code_spec(code),
    {
        if code == 0x0 {
            QuicError::NoError
        } else if code == 0x1 {
            QuicError::InternalError
        } else if code == 0x2 {
            QuicError::ConnectionRefused
        } else if code == 0x3 {
            QuicError::FlowControlError
        } else if code == 0x4 {
            QuicError::StreamLimitError
        } else if code == 0x5 {
            QuicError::StreamStateError
        } else if code == 0x6 {
            QuicError::FinalSizeError
        } else if code == 0x7 {
            QuicError::FrameEncodingError
        } else if code == 0x8 {
            QuicError::TransportParameterError
        } else if code == 0x9 {
            QuicError::ConnectionIdLimitError
        } else if code == 0xa {
            QuicError::ProtocolViolation
        } else if code == 0xb {
            QuicError::InvalidToken
        } else if code == 0xc {
            QuicError::ApplicationError
        } else if code == 0xd {
            QuicError::CryptoBufferExceeded
        } else if code == 0xe {
            QuicError::KeyUpdateError
        } else if code == 0xf {
            QuicError::AeadLimitReached
        } else if code == 0x10 {
            QuicError::NoViablePath
        } else if code == 0x11 {
            QuicError::VersionNegotiationError
        } else if 0x100 <= code && code <= 0x1ff {
            QuicError::CryptoError
        } else {
            QuicError::Unknown
        }
    }

    /// The identifier of each variant.
    pub open spec fn label_spec(self) -> Seq<char> {
        match self {
            QuicError::NoError => "no_error"@,
            QuicError::InternalError => "internal_error"@,
            QuicError::ConnectionRefused => "connection_refused"@,
            QuicError::FlowControlError => "flow_control_error"@,
            QuicError::StreamLimitError => "stream_limit_error"@,
            QuicError::StreamStateError => "stream_state_error"@,
            QuicError::FinalSizeError => "final_size_error"@,
            QuicError::FrameEncodingError => "frame_encoding_error"@,
            QuicError::TransportParameterError => "transport_parameter_error"@,
            QuicError::ConnectionIdLimitError => "connection_id_limit_error"@,
            QuicError::ProtocolViolation => "protocol_violation"@,
            QuicError::InvalidToken => "invalid_token"@,
            QuicError::ApplicationError => "application_error"@,
            QuicError::CryptoBufferExceeded => "crypto_buffer_exceeded"@,
            QuicError::KeyUpdateError => "key_update_error"@,
            QuicError::AeadLimitReached => "aead_limit_reached"@,
            QuicError::NoViablePath => "no_viable_path"@,
            QuicError::VersionNegotiationError => "version_negotiation_error"@,
            QuicError::CryptoError => "crypto_error"@,
            QuicError::Unknown => "unknown"@,
        }
    }

    /// The value under which this variant labels a series.
    pub fn label(&self) -> (s: &'static str)
        ensures
            s@ == self.label_spec(),
    {
        match self {
            QuicError::NoError => "no_error",
            QuicError::InternalError => "internal_error",
            QuicError::ConnectionRefused => "connection_refused",
            QuicError::FlowControlError => "flow_control_error",
            QuicError::StreamLimitError => "stream_limit_error",
            QuicError::StreamStateError => "stream_state_error",
            QuicError::FinalSizeError => "final_size_error",
            QuicError::FrameEncodingError => "frame_encoding_error",
            QuicError::TransportParameterError => "transport_parameter_error",
            QuicError::ConnectionIdLimitError => "connection_id_limit_error",
            QuicError::ProtocolViolation => "protocol_violation",
            QuicError::InvalidToken => "invalid_token",
            QuicError::ApplicationError => "application_error",
            QuicError::CryptoBufferExceeded => "crypto_buffer_exceeded",
            QuicError::KeyUpdateError => "key_update_error",
            QuicError::AeadLimitReached => "aead_limit_reached",
            QuicError::NoViablePath => "no_viable_path",
            QuicError::VersionNegotiationError => "version_negotiation_error",
            QuicError::CryptoError => "crypto_error",
            QuicError::Unknown => "unknown",
        }
    }

    /// No two variants share an identifier.
    pub proof fn lemma_label_identifies(a: Self, b: Self)
        requires
            a.label_spec() == b.label_spec(),
        ensures
            a == b,
    {
        reveal_strlit("no_error");
        reveal_strlit("internal_error");
        reveal_strlit("connection_refused");
        reveal_strlit("flow_control_error");
        reveal_strlit("stream_limit_error");
        reveal_strlit("stream_state_error");
        reveal_strlit("final_size_error");
        reveal_strlit("frame_encoding_error");
        reveal_strlit("transport_parameter_error");
        reveal_strlit("connection_id_limit_error");
        reveal_strlit("protocol_violation");
        reveal_strlit("invalid_token");
        reveal_strlit("application_error");
        reveal_strlit("crypto_buffer_exceeded");
        reveal_strlit("key_update_error");
        reveal_strlit("aead_limit_reached");
        reveal_strlit("no_viable_path");
        reveal_strlit("version_negotiation_error");
        reveal_strlit("crypto_error");
        reveal_strlit("unknown");
        assert("no_error"@.len() == 8);
        assert("internal_error"@.len() == 14);
        assert("connection_refused"@.len() == 18);
        assert("flow_control_error"@.len() == 18);
        assert("stream_limit_error"@.len() == 18);
        assert("stream_state_error"@.len() == 18);
        assert("final_size_error"@.len() == 16);
        assert("frame_encoding_error"@.len() == 20);
        assert("transport_parameter_error"@.len() == 25);
        assert("connection_id_limit_error"@.len() == 25);
        assert("protocol_violation"@.len() == 18);
        assert("invalid_token"@.len() == 13);
        assert("application_error"@.len() == 17);
        assert("crypto_buffer_exceeded"@.len() == 22);
        assert("key_update_error"@.len() == 16);
        assert("aead_limit_reached"@.len() == 18);
        assert("no_viable_path"@.len() == 14);
        assert("version_negotiation_error"@.len() == 25);
        assert("crypto_error"@.len() == 12);
        assert("unknown"@.len() == 7);
        assert("internal_error"@[0] == 'i');
        assert("no_viable_path"@[0] == 'n');
        assert("connection_refused"@[0] == 'c');
        assert("flow_control_error"@[0] == 'f');
        assert("stream_limit_error"@[0] == 's');
        assert("stream_state_error"@[0] == 's');
        assert("protocol_violation"@[0] == 'p');
        assert("aead_limit_reached"@[0] == 'a');
        assert("stream_limit_error"@[7] == 'l');
        assert("stream_state_error"@[7] == 's');
        assert("final_size_error"@[0] == 'f');
        assert("key_update_error"@[0] == 'k');
        assert("transport_parameter_error"@[0] == 't');
        assert("connection_id_limit_error"@[0] == 'c');
        assert("version_negotiation_error"@[0] == 'v');
    }
}

} // verus!
