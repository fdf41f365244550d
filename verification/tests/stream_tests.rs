use durable_streams::stream::{
    append_backoff_ms, resolve_stream_url, AppendStep, HttpMethod,
};
use durable_streams::{
    AppendOptions, CreateOptions, DurableStream, HeadOptions, Offset, StreamError,
};

fn stream() -> DurableStream {
    DurableStream::new("http://h/streams/s".to_string())
}

#[test]
fn resolve_passes_absolute_urls_through() {
    assert_eq!(
        resolve_stream_url(Some("http://base"), "http://h/s"),
        "http://h/s"
    );
    assert_eq!(
        resolve_stream_url(Some("http://base"), "https://h/s"),
        "https://h/s"
    );
    assert_eq!(resolve_stream_url(None, "/streams/s"), "/streams/s");
}

#[test]
fn resolve_joins_paths_to_the_base() {
    assert_eq!(
        resolve_stream_url(Some("http://base//"), "/streams/s"),
        "http://base/streams/s"
    );
    assert_eq!(
        resolve_stream_url(Some("http://base"), "/streams/s"),
        "http://base/streams/s"
    );
}

#[test]
fn content_type_is_settable() {
    let mut s = stream();
    assert_eq!(s.content_type(), None);
    s.set_content_type("application/json");
    assert_eq!(s.content_type(), Some("application/json"));
    assert_eq!(s.url(), "http://h/streams/s");
}

#[test]
fn create_plan_carries_the_configured_headers() {
    let s = stream();
    let options = CreateOptions::new()
        .content_type("text/plain")
        .ttl(3600)
        .expires_at("2030-01-01T00:00:00Z")
        .header("x-extra", "1");
    let plan = s.create_plan(options);
    assert_eq!(plan.method, HttpMethod::Put);
    assert_eq!(plan.url, "http://h/streams/s");
    assert_eq!(
        plan.headers,
        vec![
            ("content-type".to_string(), "text/plain".to_string()),
            ("stream-ttl".to_string(), "3600".to_string()),
            ("stream-expires-at".to_string(), "2030-01-01T00:00:00Z".to_string()),
            ("x-extra".to_string(), "1".to_string()),
        ]
    );
    assert!(plan.body.is_none());
}

#[test]
fn create_plan_defaults_the_content_type_and_takes_initial_data() {
    let s = stream();
    let plan = s.create_plan(CreateOptions::new().initial_data(b"seed".to_vec()));
    assert_eq!(
        plan.headers,
        vec![(
            "content-type".to_string(),
            "application/octet-stream".to_string()
        )]
    );
    assert_eq!(plan.body.as_deref(), Some(&b"seed"[..]));
}

#[test]
fn create_responses_interpret_success_conflict_and_errors() {
    let s = stream();
    assert!(s.interpret_create_response(200).is_ok());
    assert!(s.interpret_create_response(201).is_ok());
    assert!(s.interpret_create_response(204).is_ok());
    assert!(matches!(
        s.interpret_create_response(409),
        Err(StreamError::Conflict)
    ));
    assert!(matches!(
        s.interpret_create_response(500),
        Err(StreamError::ServerError { status: 500, .. })
    ));
}

#[test]
fn empty_append_is_rejected_locally() {
    let s = stream();
    match s.append_plan(Vec::new(), AppendOptions::new()) {
        Err(StreamError::EmptyAppend) => {}
        other => panic!("expected the local empty-append error, got {:?}", other),
    }
}

#[test]
fn append_plan_carries_sequence_and_precondition_headers() {
    let mut s = stream();
    s.set_content_type("text/plain");
    let options = AppendOptions::new().seq("s1").if_match("\"etag\"").header("x", "y");
    let plan = s.append_plan(b"hello".to_vec(), options).unwrap();
    assert_eq!(plan.method, HttpMethod::Post);
    assert_eq!(
        plan.headers,
        vec![
            ("content-type".to_string(), "text/plain".to_string()),
            ("stream-seq".to_string(), "s1".to_string()),
            ("if-match".to_string(), "\"etag\"".to_string()),
            ("x".to_string(), "y".to_string()),
        ]
    );
    assert_eq!(plan.body.as_deref(), Some(&b"hello"[..]));
}

#[test]
fn append_responses_split_done_retry_and_fail() {
    let s = stream();
    match s.interpret_append_response(200, Some("00042"), Some("\"e\"")) {
        AppendStep::Done(a) => {
            assert_eq!(a.next_offset, Offset::at("00042"));
            assert_eq!(a.etag.as_deref(), Some("\"e\""));
        }
        other => panic!("expected done, got {:?}", other),
    }
    match s.interpret_append_response(204, None, None) {
        AppendStep::Done(a) => assert!(a.next_offset.is_beginning()),
        other => panic!("expected done, got {:?}", other),
    }
    assert!(matches!(
        s.interpret_append_response(404, None, None),
        AppendStep::Fail(StreamError::NotFound { .. })
    ));
    assert!(matches!(
        s.interpret_append_response(409, None, None),
        AppendStep::Fail(StreamError::SeqConflict)
    ));
    for status in [429u16, 500, 502, 503, 504] {
        assert!(matches!(
            s.interpret_append_response(status, None, None),
            AppendStep::Retry(_)
        ));
    }
    // 501 is not in the transient set.
    assert!(matches!(
        s.interpret_append_response(501, None, None),
        AppendStep::Fail(StreamError::ServerError { status: 501, .. })
    ));
}

#[test]
fn append_backoff_doubles_from_100ms() {
    assert_eq!(append_backoff_ms(1), 100);
    assert_eq!(append_backoff_ms(2), 200);
    assert_eq!(append_backoff_ms(3), 400);
}

#[test]
fn head_response_parses_the_metadata_headers() {
    let s = stream();
    let h = s
        .interpret_head_response(
            200,
            Some("abc"),
            Some("text/plain"),
            Some("3600"),
            Some("2030-01-01T00:00:00Z"),
            Some("\"e\""),
        )
        .unwrap();
    assert_eq!(h.next_offset, Offset::at("abc"));
    assert_eq!(h.content_type.as_deref(), Some("text/plain"));
    assert_eq!(h.ttl_secs, Some(3600));
    assert_eq!(h.expires_at.as_deref(), Some("2030-01-01T00:00:00Z"));
    assert_eq!(h.etag.as_deref(), Some("\"e\""));
}

#[test]
fn head_response_defaults_and_bad_ttl() {
    let s = stream();
    let h = s
        .interpret_head_response(200, None, None, Some("not-a-number"), None, None)
        .unwrap();
    assert!(h.next_offset.is_beginning());
    assert_eq!(h.ttl_secs, None);
    // A value past the u64 range is rejected, not wrapped.
    let h2 = s
        .interpret_head_response(200, None, None, Some("18446744073709551616"), None, None)
        .unwrap();
    assert_eq!(h2.ttl_secs, None);
    let h3 = s
        .interpret_head_response(200, None, None, Some("18446744073709551615"), None, None)
        .unwrap();
    assert_eq!(h3.ttl_secs, Some(u64::MAX));
    assert!(matches!(
        s.interpret_head_response(404, None, None, None, None, None),
        Err(StreamError::NotFound { .. })
    ));
    let _ = HeadOptions::new().header("a", "b");
}

#[test]
fn delete_responses_interpret_success_and_not_found() {
    let s = stream();
    assert!(s.interpret_delete_response(200).is_ok());
    assert!(s.interpret_delete_response(204).is_ok());
    assert!(matches!(
        s.interpret_delete_response(404),
        Err(StreamError::NotFound { .. })
    ));
    assert!(matches!(
        s.interpret_delete_response(500),
        Err(StreamError::ServerError { .. })
    ));
}

#[test]
fn read_urls_respect_existing_query_strings() {
    let s = stream();
    assert_eq!(
        s.build_read_url(&Offset::Beginning, None, None),
        "http://h/streams/s?offset=-1"
    );
    assert_eq!(
        s.build_read_url(&Offset::at("abc"), Some("long-poll"), Some("c1")),
        "http://h/streams/s?offset=abc&live=long-poll&cursor=c1"
    );
    let q = DurableStream::new("http://h/s?tenant=1".to_string());
    assert_eq!(
        q.build_read_url(&Offset::Now, Some("sse"), None),
        "http://h/s?tenant=1&offset=now&live=sse"
    );
}
