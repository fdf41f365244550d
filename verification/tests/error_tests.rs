use durable_streams::{ProducerError, StreamError};

#[test]
fn from_status_maps_the_taxonomy() {
    assert!(matches!(
        StreamError::from_status(400, "u"),
        StreamError::BadRequest { .. }
    ));
    assert!(matches!(
        StreamError::from_status(401, "u"),
        StreamError::Unauthorized
    ));
    assert!(matches!(
        StreamError::from_status(403, "u"),
        StreamError::Forbidden
    ));
    match StreamError::from_status(404, "http://h/s") {
        StreamError::NotFound { url } => assert_eq!(url, "http://h/s"),
        other => panic!("wrong mapping: {:?}", other),
    }
    assert!(matches!(
        StreamError::from_status(409, "u"),
        StreamError::Conflict
    ));
    assert!(matches!(
        StreamError::from_status(410, "u"),
        StreamError::OffsetGone { .. }
    ));
    assert!(matches!(
        StreamError::from_status(429, "u"),
        StreamError::RateLimited { .. }
    ));
    match StreamError::from_status(503, "u") {
        StreamError::ServerError { status, message } => {
            assert_eq!(status, 503);
            assert_eq!(message, "Server error 503");
        }
        other => panic!("wrong mapping: {:?}", other),
    }
    match StreamError::from_status(418, "u") {
        StreamError::ServerError { status, message } => {
            assert_eq!(status, 418);
            assert_eq!(message, "Unexpected status 418");
        }
        other => panic!("wrong mapping: {:?}", other),
    }
}

#[test]
fn retryable_errors_are_the_transient_ones() {
    assert!(StreamError::from_status(429, "u").is_retryable());
    assert!(StreamError::from_status(500, "u").is_retryable());
    assert!(StreamError::Timeout.is_retryable());
    assert!(StreamError::Network {
        message: "x".to_string()
    }
    .is_retryable());
    assert!(!StreamError::from_status(404, "u").is_retryable());
    assert!(!StreamError::from_status(418, "u").is_retryable());
    assert!(!StreamError::EmptyAppend.is_retryable());
    assert!(!StreamError::IteratorClosed.is_retryable());
}

#[test]
fn status_codes_round_trip_where_applicable() {
    assert_eq!(StreamError::from_status(404, "u").status_code(), Some(404));
    assert_eq!(StreamError::from_status(409, "u").status_code(), Some(409));
    assert_eq!(StreamError::from_status(401, "u").status_code(), Some(401));
    assert_eq!(StreamError::from_status(403, "u").status_code(), Some(403));
    assert_eq!(StreamError::from_status(429, "u").status_code(), Some(429));
    assert_eq!(StreamError::from_status(400, "u").status_code(), Some(400));
    assert_eq!(StreamError::from_status(410, "u").status_code(), Some(410));
    assert_eq!(StreamError::from_status(502, "u").status_code(), Some(502));
    assert_eq!(StreamError::SeqConflict.status_code(), Some(409));
    assert_eq!(StreamError::Timeout.status_code(), None);
    assert_eq!(StreamError::EmptyAppend.status_code(), None);
}

#[test]
fn error_codes_are_stable() {
    assert_eq!(StreamError::from_status(404, "u").to_error_code(), "NOT_FOUND");
    assert_eq!(StreamError::from_status(409, "u").to_error_code(), "CONFLICT");
    assert_eq!(StreamError::SeqConflict.to_error_code(), "SEQUENCE_CONFLICT");
    assert_eq!(
        StreamError::from_status(410, "u").to_error_code(),
        "INVALID_OFFSET"
    );
    assert_eq!(
        StreamError::from_status(400, "u").to_error_code(),
        "INVALID_OFFSET"
    );
    assert_eq!(
        StreamError::from_status(401, "u").to_error_code(),
        "UNAUTHORIZED"
    );
    assert_eq!(
        StreamError::from_status(403, "u").to_error_code(),
        "FORBIDDEN"
    );
    assert_eq!(
        StreamError::ParseError("x".to_string()).to_error_code(),
        "PARSE_ERROR"
    );
    assert_eq!(StreamError::Timeout.to_error_code(), "UNEXPECTED_STATUS");
}

#[test]
fn messages_render_like_the_wire_reports() {
    assert_eq!(
        StreamError::from_status(404, "http://h/s").message(),
        "stream not found: http://h/s"
    );
    assert_eq!(
        StreamError::from_status(503, "u").message(),
        "server error: 503 - Server error 503"
    );
    assert_eq!(StreamError::Timeout.message(), "timeout");
    assert_eq!(StreamError::EmptyAppend.message(), "empty append not allowed");
    assert_eq!(StreamError::IteratorClosed.message(), "iterator closed");
    assert_eq!(
        StreamError::Network {
            message: "boom".to_string()
        }
        .message(),
        "network error: boom"
    );
}

#[test]
fn producer_error_messages_and_conversion() {
    assert_eq!(ProducerError::Closed.message(), "producer is closed");
    assert_eq!(
        ProducerError::StaleEpoch {
            server_epoch: 4,
            our_epoch: 0
        }
        .message(),
        "stale epoch: server has epoch 4, we have 0"
    );
    assert_eq!(
        ProducerError::SequenceGap {
            expected: 2,
            received: 5
        }
        .message(),
        "sequence gap: expected 2, received 5"
    );
    assert_eq!(
        ProducerError::MixedAppendTypes.message(),
        "mixed append types in JSON mode"
    );
    let e = StreamError::from_status(404, "http://h/s").to_producer_error();
    match &e {
        ProducerError::Stream { message } => {
            assert_eq!(message, "stream not found: http://h/s")
        }
        other => panic!("wrong conversion: {:?}", other),
    }
    assert_eq!(e.message(), "stream error: stream not found: http://h/s");
}
