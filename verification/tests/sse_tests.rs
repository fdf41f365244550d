use durable_streams::{SseEvent, SseParser};

#[test]
fn test_parse_data_event() {
    let input = "data: hello world\n\n";
    let mut parser = SseParser::new();
    parser.feed(input);

    let event = parser.next().unwrap();
    match event {
        SseEvent::Data(data) => assert_eq!(data, "hello world"),
        _ => panic!("Expected data event"),
    }
}

#[test]
fn test_parse_control_event() {
    let input = "event: control\ndata: {\"streamNextOffset\":\"123\",\"upToDate\":true}\n\n";
    let mut parser = SseParser::new();
    parser.feed(input);

    let event = parser.next().unwrap();
    match event {
        SseEvent::Control {
            stream_next_offset,
            up_to_date,
            ..
        } => {
            assert_eq!(stream_next_offset, "123");
            assert!(up_to_date);
        }
        _ => panic!("Expected control event"),
    }
}

#[test]
fn multiple_data_lines_join_with_newline() {
    let mut parser = SseParser::new();
    parser.feed("data: one\ndata: two\n\n");
    match parser.next().unwrap() {
        SseEvent::Data(data) => assert_eq!(data, "one\ntwo"),
        _ => panic!("Expected data event"),
    }
}

#[test]
fn incomplete_event_yields_nothing_until_blank_line() {
    let mut parser = SseParser::new();
    parser.feed("data: partial");
    assert!(parser.next().is_none());
    parser.feed(" line\n");
    assert!(parser.next().is_none());
    parser.feed("\n");
    match parser.next().unwrap() {
        SseEvent::Data(data) => assert_eq!(data, "partial line"),
        _ => panic!("Expected data event"),
    }
}

#[test]
fn unknown_fields_and_comments_are_ignored() {
    let mut parser = SseParser::new();
    parser.feed(": comment\nid: 7\nretry: 100\ndata: x\n\n");
    match parser.next().unwrap() {
        SseEvent::Data(data) => assert_eq!(data, "x"),
        _ => panic!("Expected data event"),
    }
}

#[test]
fn empty_dispatch_without_data_lines_yields_nothing() {
    let mut parser = SseParser::new();
    parser.feed("event: control\n\n");
    assert!(parser.next().is_none());
    // The event type does not leak into the next event.
    parser.feed("data: later\n\n");
    match parser.next().unwrap() {
        SseEvent::Data(data) => assert_eq!(data, "later"),
        _ => panic!("Expected data event"),
    }
}

#[test]
fn crlf_line_endings_are_accepted() {
    let mut parser = SseParser::new();
    parser.feed("data: windows\r\n\r\n");
    match parser.next().unwrap() {
        SseEvent::Data(data) => assert_eq!(data, "windows"),
        _ => panic!("Expected data event"),
    }
}

#[test]
fn control_event_with_cursor_and_defaults() {
    let mut parser = SseParser::new();
    parser.feed("event: control\ndata: {\"streamNextOffset\":\"42\",\"streamCursor\":\"c9\"}\n\n");
    match parser.next().unwrap() {
        SseEvent::Control {
            stream_next_offset,
            stream_cursor,
            up_to_date,
        } => {
            assert_eq!(stream_next_offset, "42");
            assert_eq!(stream_cursor.as_deref(), Some("c9"));
            assert!(!up_to_date);
        }
        _ => panic!("Expected control event"),
    }
}

#[test]
fn control_event_missing_fields_uses_defaults() {
    let mut parser = SseParser::new();
    parser.feed("event: control\ndata: {}\n\n");
    match parser.next().unwrap() {
        SseEvent::Control {
            stream_next_offset,
            stream_cursor,
            up_to_date,
        } => {
            assert_eq!(stream_next_offset, "");
            assert!(stream_cursor.is_none());
            assert!(!up_to_date);
        }
        _ => panic!("Expected control event"),
    }
}

#[test]
fn invalid_control_json_is_dropped_and_parsing_continues() {
    let mut parser = SseParser::new();
    parser.feed("event: control\ndata: not json\n\ndata: after\n\n");
    match parser.next().unwrap() {
        SseEvent::Data(data) => assert_eq!(data, "after"),
        _ => panic!("Expected data event"),
    }
}

#[test]
fn two_events_come_out_in_order() {
    let mut parser = SseParser::new();
    parser.feed("data: first\n\ndata: second\n\n");
    match parser.next().unwrap() {
        SseEvent::Data(data) => assert_eq!(data, "first"),
        _ => panic!("Expected data event"),
    }
    match parser.next().unwrap() {
        SseEvent::Data(data) => assert_eq!(data, "second"),
        _ => panic!("Expected data event"),
    }
    assert!(parser.next().is_none());
}
