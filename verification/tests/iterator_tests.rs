use durable_streams::iterator::{NextPlan, SseEstablishStep, WireMode};
use durable_streams::{DurableStream, LiveMode, Offset, ReadBuilder, StreamError};

fn builder() -> ReadBuilder {
    ReadBuilder::new(DurableStream::new("http://h/streams/s".to_string()))
}

#[test]
fn builder_defaults_and_settings() {
    let it = builder().build();
    assert!(it.offset().is_beginning());
    assert!(!it.is_up_to_date());
    assert_eq!(it.cursor(), None);
    assert_eq!(it.live, LiveMode::Off);
    assert_eq!(it.timeout_ms, 30000);

    let it = builder()
        .offset(Offset::at("abc"))
        .live(LiveMode::LongPoll)
        .timeout(1000)
        .cursor("c0")
        .header("x", "y")
        .build();
    assert_eq!(it.offset(), &Offset::at("abc"));
    assert_eq!(it.cursor(), Some("c0"));
    assert_eq!(it.live, LiveMode::LongPoll);
    assert_eq!(it.timeout_ms, 1000);
    assert_eq!(it.headers, vec![("x".to_string(), "y".to_string())]);
}

#[test]
fn plans_follow_the_live_mode() {
    let it = builder().build();
    match it.next_plan() {
        NextPlan::Request { mode, url } => {
            assert_eq!(mode, WireMode::CatchUp);
            assert_eq!(url, "http://h/streams/s?offset=-1");
        }
        other => panic!("expected a request, got {:?}", other),
    }
    let it = builder().live(LiveMode::LongPoll).build();
    match it.next_plan() {
        NextPlan::Request { mode, url } => {
            assert_eq!(mode, WireMode::LongPoll);
            assert_eq!(url, "http://h/streams/s?offset=-1&live=long-poll");
        }
        other => panic!("expected a request, got {:?}", other),
    }
    let it = builder().live(LiveMode::Sse).build();
    match it.next_plan() {
        NextPlan::Request { mode, url } => {
            assert_eq!(mode, WireMode::Sse);
            assert_eq!(url, "http://h/streams/s?offset=-1&live=sse");
        }
        other => panic!("expected a request, got {:?}", other),
    }
}

#[test]
fn auto_mode_catches_up_before_trying_sse() {
    let mut it = builder().live(LiveMode::Auto).build();
    match it.next_plan() {
        NextPlan::Request { mode, .. } => assert_eq!(mode, WireMode::CatchUp),
        other => panic!("expected a request, got {:?}", other),
    }
    let chunk = it
        .on_http_response(200, Some("o1"), None, Some("true"), b"d".to_vec())
        .unwrap()
        .unwrap();
    assert!(chunk.up_to_date);
    match it.next_plan() {
        NextPlan::Request { mode, .. } => assert_eq!(mode, WireMode::Sse),
        other => panic!("expected a request, got {:?}", other),
    }
}

#[test]
fn off_mode_finishes_on_a_caught_up_response() {
    let mut it = builder().build();
    let chunk = it
        .on_http_response(200, Some("o1"), Some("c1"), Some("true"), b"hello".to_vec())
        .unwrap()
        .unwrap();
    assert_eq!(chunk.data, b"hello");
    assert_eq!(chunk.next_offset, Offset::at("o1"));
    assert!(chunk.up_to_date);
    assert_eq!(chunk.cursor.as_deref(), Some("c1"));
    assert_eq!(chunk.status_code, Some(200));
    assert!(it.done);
    assert!(matches!(it.next_plan(), NextPlan::Finished));
}

#[test]
fn off_mode_continues_while_not_caught_up() {
    let mut it = builder().build();
    let chunk = it
        .on_http_response(200, Some("o1"), None, None, b"part".to_vec())
        .unwrap()
        .unwrap();
    assert!(!chunk.up_to_date);
    assert!(!it.done);
    assert_eq!(it.offset(), &Offset::at("o1"));
}

#[test]
fn no_content_ends_an_off_mode_read() {
    let mut it = builder().build();
    let r = it.on_http_response(204, Some("o2"), Some("c2"), None, Vec::new()).unwrap();
    assert!(r.is_none());
    assert!(it.done);
    assert!(it.is_up_to_date());
    assert_eq!(it.offset(), &Offset::at("o2"));
    assert_eq!(it.cursor(), Some("c2"));
}

#[test]
fn no_content_in_long_poll_emits_an_empty_chunk() {
    let mut it = builder().live(LiveMode::LongPoll).build();
    let chunk = it.on_http_response(204, None, None, None, Vec::new()).unwrap().unwrap();
    assert!(chunk.data.is_empty());
    assert_eq!(chunk.status_code, Some(204));
    assert!(chunk.up_to_date);
    assert!(!it.done);
}

#[test]
fn not_modified_only_refreshes_the_cursor() {
    let mut it = builder().live(LiveMode::LongPoll).cursor("c0").offset(Offset::at("o0")).build();
    let chunk = it.on_http_response(304, None, Some("c1"), None, Vec::new()).unwrap().unwrap();
    assert_eq!(chunk.status_code, Some(304));
    assert_eq!(chunk.cursor.as_deref(), Some("c1"));
    assert_eq!(it.cursor(), Some("c1"));
    assert_eq!(it.offset(), &Offset::at("o0"));
    assert!(!it.is_up_to_date());
}

#[test]
fn error_statuses_surface_as_mapped_errors() {
    let mut it = builder().offset(Offset::at("gone")).build();
    assert!(matches!(
        it.on_http_response(404, None, None, None, Vec::new()),
        Err(StreamError::NotFound { .. })
    ));
    match it.on_http_response(410, None, None, None, Vec::new()) {
        Err(StreamError::OffsetGone { offset }) => assert_eq!(offset, "gone"),
        other => panic!("expected offset-gone, got {:?}", other),
    }
    assert!(matches!(
        it.on_http_response(500, None, None, None, Vec::new()),
        Err(StreamError::ServerError { status: 500, .. })
    ));
    assert!(!it.done);
}

#[test]
fn long_poll_timeout_is_caught_up_not_an_error() {
    let mut it = builder().live(LiveMode::LongPoll).build();
    let chunk = it.on_long_poll_timeout().unwrap();
    assert_eq!(chunk.status_code, Some(204));
    assert!(chunk.up_to_date);
    assert!(!it.done);

    let mut it = builder().build();
    assert!(it.on_long_poll_timeout().is_none());
    assert!(it.done);
    assert!(matches!(it.next_plan(), NextPlan::Finished));
}

#[test]
fn sse_establishment_connects_on_an_event_stream() {
    let mut it = builder().live(LiveMode::Sse).build();
    let step = it.on_sse_establish(200, Some("text/event-stream; charset=utf-8"));
    assert!(matches!(step, SseEstablishStep::Connected));
    assert!(it.sse.is_some());
    assert!(matches!(it.next_plan(), NextPlan::ReadSse));
}

#[test]
fn sse_establishment_downgrades_on_wrong_content_type_or_400() {
    let mut it = builder().live(LiveMode::Sse).build();
    let step = it.on_sse_establish(200, Some("application/json"));
    assert!(matches!(step, SseEstablishStep::Downgraded));
    assert_eq!(it.live, LiveMode::LongPoll);
    assert!(it.sse.is_none());
    match it.next_plan() {
        NextPlan::Request { mode, .. } => assert_eq!(mode, WireMode::LongPoll),
        other => panic!("expected a request, got {:?}", other),
    }

    let mut it = builder().live(LiveMode::Auto).build();
    let _ = it.on_http_response(200, Some("o"), None, Some("true"), Vec::new());
    let step = it.on_sse_establish(400, None);
    assert!(matches!(step, SseEstablishStep::Downgraded));
    assert_eq!(it.live, LiveMode::LongPoll);
}

#[test]
fn sse_establishment_failures_surface() {
    let mut it = builder().live(LiveMode::Sse).build();
    assert!(matches!(
        it.on_sse_establish(404, None),
        SseEstablishStep::Fail(StreamError::NotFound { .. })
    ));
    assert!(matches!(
        it.on_sse_establish(503, None),
        SseEstablishStep::Fail(StreamError::ServerError { .. })
    ));
}

#[test]
fn sse_data_events_become_chunks() {
    let mut it = builder().live(LiveMode::Sse).build();
    let _ = it.on_sse_establish(200, Some("text/event-stream"));
    assert!(it.on_sse_bytes("data: hel").is_none());
    let chunk = it.on_sse_bytes("lo\n\n").unwrap();
    assert_eq!(chunk.data, b"hello");
    assert_eq!(chunk.status_code, Some(200));
    assert!(!chunk.up_to_date);
}

#[test]
fn sse_control_events_move_the_cursor_state() {
    let mut it = builder().live(LiveMode::Sse).build();
    let _ = it.on_sse_establish(200, Some("text/event-stream"));
    // A control frame that is not caught up updates silently.
    assert!(it
        .on_sse_bytes(
            "event: control\ndata: {\"streamNextOffset\":\"a1\",\"streamCursor\":\"c1\"}\n\n"
        )
        .is_none());
    assert_eq!(it.offset(), &Offset::at("a1"));
    assert_eq!(it.cursor(), Some("c1"));
    assert!(!it.is_up_to_date());
    // A caught-up control frame surfaces as an empty marker chunk.
    let chunk = it
        .on_sse_bytes("event: control\ndata: {\"streamNextOffset\":\"b2\",\"upToDate\":true}\n\n")
        .unwrap();
    assert!(chunk.data.is_empty());
    assert_eq!(chunk.next_offset, Offset::at("b2"));
    assert!(chunk.up_to_date);
    assert_eq!(chunk.status_code, Some(200));
    assert_eq!(it.offset(), &Offset::at("b2"));
    // The announced offsets never moved backwards, and neither did ours.
    assert!(Offset::at("b2") >= Offset::at("a1"));
}

#[test]
fn sse_data_after_control_carries_the_new_state() {
    let mut it = builder().live(LiveMode::Sse).build();
    let _ = it.on_sse_establish(200, Some("text/event-stream"));
    let chunk = it
        .on_sse_bytes(
            "event: control\ndata: {\"streamNextOffset\":\"o7\",\"streamCursor\":\"c7\"}\n\ndata: payload\n\n",
        )
        .unwrap();
    assert_eq!(chunk.data, b"payload");
    assert_eq!(chunk.next_offset, Offset::at("o7"));
    assert_eq!(chunk.cursor.as_deref(), Some("c7"));
}

#[test]
fn sse_close_signals_reconnect_in_live_modes() {
    let mut it = builder().live(LiveMode::Sse).build();
    let _ = it.on_sse_establish(200, Some("text/event-stream"));
    let chunk = it.on_sse_closed().unwrap();
    assert!(chunk.data.is_empty());
    assert_eq!(chunk.status_code, None);
    assert!(it.sse.is_none());
    assert!(!it.done);
}

#[test]
fn closing_the_iterator_is_final() {
    let mut it = builder().build();
    it.close();
    assert!(matches!(it.next_plan(), NextPlan::Failed));
    // Closing wins over done.
    let mut it = builder().build();
    let _ = it.on_http_response(204, None, None, None, Vec::new());
    it.close();
    assert!(matches!(it.next_plan(), NextPlan::Failed));
}
