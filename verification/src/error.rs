//! Error taxonomy for stream and producer operations, with the status-code
//! mapping and retryability rules of the protocol.

use vstd::prelude::*;
use vstd::string::*;
use crate::text::{spec_dec_string, u64_to_string};

verus! {

/// Error for invalid HTTP header configuration.
#[derive(Debug)]
pub enum InvalidHeaderError {
    InvalidName(String),
    InvalidValue(String),
}

/// Mathematical model of a [`StreamError`], with strings as character
/// sequences.
pub enum StreamErrorView {
    NotFound { url: Seq<char> },
    Conflict,
    SeqConflict,
    OffsetGone { offset: Seq<char> },
    Unauthorized,
    Forbidden,
    RateLimited { retry_after_ms: Option<u64> },
    BadRequest { message: Seq<char> },
    ServerError { status: u16, message: Seq<char> },
    Network { message: Seq<char> },
    Timeout,
    Json(Seq<char>),
    ParseError(Seq<char>),
    EmptyAppend,
    IteratorClosed,
}

/// Main error type for stream operations.
///
/// Transport failures are carried as their rendered message; the embedding
/// application maps its HTTP client's errors into `Network` or `Timeout`
/// before handing results to this crate.
#[derive(Debug)]
pub enum StreamError {
    /// The stream does not exist.
    NotFound { url: String },
    /// The stream already exists with a different configuration.
    Conflict,
    /// An append-sequence precondition failed.
    SeqConflict,
    /// The requested offset was trimmed by retention or compaction.
    OffsetGone { offset: String },
    Unauthorized,
    Forbidden,
    RateLimited { retry_after_ms: Option<u64> },
    BadRequest { message: String },
    ServerError { status: u16, message: String },
    /// A transport-level failure, described by its message.
    Network { message: String },
    Timeout,
    Json(String),
    ParseError(String),
    /// Empty append bodies are rejected locally; no request is sent.
    EmptyAppend,
    /// The iterator was closed before the call.
    IteratorClosed,
}

impl View for StreamError {
    type V = StreamErrorView;

    open spec fn view(&self) -> StreamErrorView {
        match self {
            StreamError::NotFound { url } => StreamErrorView::NotFound { url: url@ },
            StreamError::Conflict => StreamErrorView::Conflict,
            StreamError::SeqConflict => StreamErrorView::SeqConflict,
            StreamError::OffsetGone { offset } => StreamErrorView::OffsetGone { offset: offset@ },
            StreamError::Unauthorized => StreamErrorView::Unauthorized,
            StreamError::Forbidden => StreamErrorView::Forbidden,
            StreamError::RateLimited { retry_after_ms } => StreamErrorView::RateLimited {
                retry_after_ms: *retry_after_ms,
            },
            StreamError::BadRequest { message } => StreamErrorView::BadRequest { message: message@ },
            StreamError::ServerError { status, message } => StreamErrorView::ServerError {
                status: *status,
                message: message@,
            },
            StreamError::Network { message } => StreamErrorView::Network { message: message@ },
            StreamError::Timeout => StreamErrorView::Timeout,
            StreamError::Json(m) => StreamErrorView::Json(m@),
            StreamError::ParseError(m) => StreamErrorView::ParseError(m@),
            StreamError::EmptyAppend => StreamErrorView::EmptyAppend,
            StreamError::IteratorClosed => StreamErrorView::IteratorClosed,
        }
    }
}

/// The error an unexpected HTTP status maps to: the protocol's status
/// taxonomy, with everything at or above 500, and any unmapped status,
/// reported as a server error.
pub open spec fn spec_from_status(status: u16, url: Seq<char>) -> StreamErrorView {
    if status == 400 {
        StreamErrorView::BadRequest { message: "Bad request"@ }
    } else if status == 401 {
        StreamErrorView::Unauthorized
    } else if status == 403 {
        StreamErrorView::Forbidden
    } else if status == 404 {
        StreamErrorView::NotFound { url: url }
    } else if status == 409 {
        StreamErrorView::Conflict
    } else if status == 410 {
        StreamErrorView::OffsetGone { offset: Seq::<char>::empty() }
    } else if status == 429 {
        StreamErrorView::RateLimited { retry_after_ms: None }
    } else if status >= 500 {
        StreamErrorView::ServerError {
            status: status,
            message: "Server error "@ + spec_dec_string(status as nat),
        }
    } else {
        StreamErrorView::ServerError {
            status: status,
            message: "Unexpected status "@ + spec_dec_string(status as nat),
        }
    }
}

/// Whether an error is transient: rate limiting, server errors at or
/// above 500, network failures, and timeouts.
pub open spec fn spec_is_retryable(e: StreamErrorView) -> bool {
    match e {
        StreamErrorView::RateLimited { .. } => true,
        StreamErrorView::ServerError { status, .. } => status >= 500,
        StreamErrorView::Network { .. } => true,
        StreamErrorView::Timeout => true,
        _ => false,
    }
}

/// The HTTP status a mapped error corresponds to, if any.
pub open spec fn spec_status_code(e: StreamErrorView) -> Option<u16> {
    match e {
        StreamErrorView::NotFound { .. } => Some(404u16),
        StreamErrorView::Conflict => Some(409u16),
        StreamErrorView::Unauthorized => Some(401u16),
        StreamErrorView::Forbidden => Some(403u16),
        StreamErrorView::RateLimited { .. } => Some(429u16),
        StreamErrorView::BadRequest { .. } => Some(400u16),
        StreamErrorView::ServerError { status, .. } => Some(status),
        StreamErrorView::OffsetGone { .. } => Some(410u16),
        StreamErrorView::SeqConflict => Some(409u16),
        _ => None,
    }
}

/// The stable error-code string for an error.
pub open spec fn spec_error_code(e: StreamErrorView) -> Seq<char> {
    match e {
        StreamErrorView::NotFound { .. } => "NOT_FOUND"@,
        StreamErrorView::Conflict => "CONFLICT"@,
        StreamErrorView::SeqConflict => "SEQUENCE_CONFLICT"@,
        StreamErrorView::OffsetGone { .. } => "INVALID_OFFSET"@,
        StreamErrorView::BadRequest { .. } => "INVALID_OFFSET"@,
        StreamErrorView::Unauthorized => "UNAUTHORIZED"@,
        StreamErrorView::Forbidden => "FORBIDDEN"@,
        StreamErrorView::ParseError(_) => "PARSE_ERROR"@,
        _ => "UNEXPECTED_STATUS"@,
    }
}

/// The rendered description of an error.
pub open spec fn spec_stream_error_message(e: StreamErrorView) -> Seq<char> {
    match e {
        StreamErrorView::NotFound { url } => "stream not found: "@ + url,
        StreamErrorView::Conflict => "stream already exists with different configuration"@,
        StreamErrorView::SeqConflict => "sequence conflict"@,
        StreamErrorView::OffsetGone { offset } => "offset gone (retention/compaction): "@ + offset,
        StreamErrorView::Unauthorized => "unauthorized"@,
        StreamErrorView::Forbidden => "forbidden"@,
        StreamErrorView::RateLimited { .. } => "rate limited"@,
        StreamErrorView::BadRequest { message } => "invalid request: "@ + message,
        StreamErrorView::ServerError { status, message } => "server error: "@ + spec_dec_string(
            status as nat,
        ) + " - "@ + message,
        StreamErrorView::Network { message } => "network error: "@ + message,
        StreamErrorView::Timeout => "timeout"@,
        StreamErrorView::Json(m) => "json error: "@ + m,
        StreamErrorView::ParseError(m) => "parse error: "@ + m,
        StreamErrorView::EmptyAppend => "empty append not allowed"@,
        StreamErrorView::IteratorClosed => "iterator closed"@,
    }
}

impl StreamError {
    /// Create the error a given HTTP status maps to.
    pub fn from_status(status: u16, url: &str) -> (r: Self)
        ensures
            r@ == spec_from_status(status, url@),
    {
        if status == 400 {
            StreamError::BadRequest { message: String::from_str("Bad request") }
        } else if status == 401 {
            StreamError::Unauthorized
        } else if status == 403 {
            StreamError::Forbidden
        } else if status == 404 {
            StreamError::NotFound { url: url.to_owned() }
        } else if status == 409 {
            StreamError::Conflict
        } else if status == 410 {
            let empty = String::new();
            StreamError::OffsetGone { offset: empty }
        } else if status == 429 {
            StreamError::RateLimited { retry_after_ms: None }
        } else if status >= 500 {
            let mut message = String::from_str("Server error ");
            let digits = u64_to_string(status as u64);
            message.append(digits.as_str());
            StreamError::ServerError { status, message }
        } else {
            let mut message = String::from_str("Unexpected status ");
            let digits = u64_to_string(status as u64);
            message.append(digits.as_str());
            StreamError::ServerError { status, message }
        }
    }

    /// Whether this error is transient and worth retrying.
    pub fn is_retryable(&self) -> (r: bool)
        ensures
            r == spec_is_retryable(self@),
    {
        match self {
            StreamError::RateLimited { .. } => true,
            StreamError::ServerError { status, .. } => *status >= 500,
            StreamError::Network { .. } => true,
            StreamError::Timeout => true,
            _ => false,
        }
    }

    /// The HTTP status code this error corresponds to, if applicable.
    pub fn status_code(&self) -> (r: Option<u16>)
        ensures
            r == spec_status_code(self@),
    {
        match self {
            StreamError::NotFound { .. } => Some(404),
            StreamError::Conflict => Some(409),
            StreamError::Unauthorized => Some(401),
            StreamError::Forbidden => Some(403),
            StreamError::RateLimited { .. } => Some(429),
            StreamError::BadRequest { .. } => Some(400),
            StreamError::ServerError { status, .. } => Some(*status),
            StreamError::OffsetGone { .. } => Some(410),
            StreamError::SeqConflict => Some(409),
            _ => None,
        }
    }

    /// The stable error-code string for this error.
    pub fn to_error_code(&self) -> (r: &'static str)
        ensures
            r@ == spec_error_code(self@),
    {
        match self {
            StreamError::NotFound { .. } => "NOT_FOUND",
            StreamError::Conflict => "CONFLICT",
            StreamError::SeqConflict => "SEQUENCE_CONFLICT",
            StreamError::OffsetGone { .. } => "INVALID_OFFSET",
            StreamError::BadRequest { .. } => "INVALID_OFFSET",
            StreamError::Unauthorized => "UNAUTHORIZED",
            StreamError::Forbidden => "FORBIDDEN",
            StreamError::ParseError(_) => "PARSE_ERROR",
            _ => "UNEXPECTED_STATUS",
        }
    }

    /// The rendered description of this error.
    pub fn message(&self) -> (r: String)
        ensures
            r@ == spec_stream_error_message(self@),
    {
        match self {
            StreamError::NotFound { url } => {
                let mut m = String::from_str("stream not found: ");
                m.append(url.as_str());
                m
            },
            StreamError::Conflict => String::from_str(
                "stream already exists with different configuration",
            ),
            StreamError::SeqConflict => String::from_str("sequence conflict"),
            StreamError::OffsetGone { offset } => {
                let mut m = String::from_str("offset gone (retention/compaction): ");
                m.append(offset.as_str());
                m
            },
            StreamError::Unauthorized => String::from_str("unauthorized"),
            StreamError::Forbidden => String::from_str("forbidden"),
            StreamError::RateLimited { .. } => String::from_str("rate limited"),
            StreamError::BadRequest { message } => {
                let mut m = String::from_str("invalid request: ");
                m.append(message.as_str());
                m
            },
            StreamError::ServerError { status, message } => {
                let mut m = String::from_str("server error: ");
                let digits = u64_to_string(*status as u64);
                m.append(digits.as_str());
                m.append(" - ");
                m.append(message.as_str());
                m
            },
            StreamError::Network { message } => {
                let mut m = String::from_str("network error: ");
                m.append(message.as_str());
                m
            },
            StreamError::Timeout => String::from_str("timeout"),
            StreamError::Json(msg) => {
                let mut m = String::from_str("json error: ");
                m.append(msg.as_str());
                m
            },
            StreamError::ParseError(msg) => {
                let mut m = String::from_str("parse error: ");
                m.append(msg.as_str());
                m
            },
            StreamError::EmptyAppend => String::from_str("empty append not allowed"),
            StreamError::IteratorClosed => String::from_str("iterator closed"),
        }
    }

    /// Convert to the producer-side error that wraps this error's
    /// rendered message.
    pub fn to_producer_error(&self) -> (r: ProducerError)
        ensures
            r@ == (ProducerErrorView::Stream { message: spec_stream_error_message(self@) }),
    {
        ProducerError::Stream { message: self.message() }
    }
}

/// Mathematical model of a [`ProducerError`].
pub enum ProducerErrorView {
    Closed,
    StaleEpoch { server_epoch: u64, our_epoch: u64 },
    SequenceGap { expected: u64, received: u64 },
    Stream { message: Seq<char> },
    MixedAppendTypes,
}

/// Producer-specific errors, delivered through the producer's error
/// callback.
#[derive(Debug)]
pub enum ProducerError {
    /// The producer was closed.
    Closed,
    /// The server holds a newer epoch for this producer id.
    StaleEpoch { server_epoch: u64, our_epoch: u64 },
    /// The sequence-gap retries were exhausted.
    SequenceGap { expected: u64, received: u64 },
    /// A stream-level error, carried by its rendered message.
    Stream { message: String },
    /// One batch mixed JSON and raw entries in JSON mode.
    MixedAppendTypes,
}

impl View for ProducerError {
    type V = ProducerErrorView;

    open spec fn view(&self) -> ProducerErrorView {
        match self {
            ProducerError::Closed => ProducerErrorView::Closed,
            ProducerError::StaleEpoch { server_epoch, our_epoch } => ProducerErrorView::StaleEpoch {
                server_epoch: *server_epoch,
                our_epoch: *our_epoch,
            },
            ProducerError::SequenceGap { expected, received } => ProducerErrorView::SequenceGap {
                expected: *expected,
                received: *received,
            },
            ProducerError::Stream { message } => ProducerErrorView::Stream { message: message@ },
            ProducerError::MixedAppendTypes => ProducerErrorView::MixedAppendTypes,
        }
    }
}

impl Clone for ProducerError {
    fn clone(&self) -> (res: Self)
        ensures
            res@ == self@,
    {
        match self {
            ProducerError::Closed => ProducerError::Closed,
            ProducerError::StaleEpoch { server_epoch, our_epoch } => ProducerError::StaleEpoch {
                server_epoch: *server_epoch,
                our_epoch: *our_epoch,
            },
            ProducerError::SequenceGap { expected, received } => ProducerError::SequenceGap {
                expected: *expected,
                received: *received,
            },
            ProducerError::Stream { message } => ProducerError::Stream { message: message.clone() },
            ProducerError::MixedAppendTypes => ProducerError::MixedAppendTypes,
        }
    }
}

/// The rendered description of a producer error.
pub open spec fn spec_producer_error_message(e: ProducerErrorView) -> Seq<char> {
    match e {
        ProducerErrorView::Closed => "producer is closed"@,
        ProducerErrorView::StaleEpoch { server_epoch, our_epoch } => "stale epoch: server has epoch "@
            + spec_dec_string(server_epoch as nat) + ", we have "@ + spec_dec_string(
            our_epoch as nat,
        ),
        ProducerErrorView::SequenceGap { expected, received } => "sequence gap: expected "@
            + spec_dec_string(expected as nat) + ", received "@ + spec_dec_string(received as nat),
        ProducerErrorView::Stream { message } => "stream error: "@ + message,
        ProducerErrorView::MixedAppendTypes => "mixed append types in JSON mode"@,
    }
}

impl ProducerError {
    /// The rendered description of this error.
    pub fn message(&self) -> (r: String)
        ensures
            r@ == spec_producer_error_message(self@),
    {
        match self {
            ProducerError::Closed => String::from_str("producer is closed"),
            ProducerError::StaleEpoch { server_epoch, our_epoch } => {
                let mut m = String::from_str("stale epoch: server has epoch ");
                let digits = u64_to_string(*server_epoch);
                m.append(digits.as_str());
                m.append(", we have ");
                let digits2 = u64_to_string(*our_epoch);
                m.append(digits2.as_str());
                m
            },
            ProducerError::SequenceGap { expected, received } => {
                let mut m = String::from_str("sequence gap: expected ");
                let digits = u64_to_string(*expected);
                m.append(digits.as_str());
                m.append(", received ");
                let digits2 = u64_to_string(*received);
                m.append(digits2.as_str());
                m
            },
            ProducerError::Stream { message } => {
                let mut m = String::from_str("stream error: ");
                m.append(message.as_str());
                m
            },
            ProducerError::MixedAppendTypes => String::from_str("mixed append types in JSON mode"),
        }
    }
}

} // verus!
