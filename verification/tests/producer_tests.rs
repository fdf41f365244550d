use durable_streams::producer::{Batch, BatchDisposition, PendingEntry, seq_gap_backoff_ms};
use durable_streams::{DurableStream, Producer, ProducerBuilder, ProducerError};

fn producer() -> Producer {
    let stream = DurableStream::new("http://h/streams/s".to_string());
    ProducerBuilder::new(stream, "pid-1".to_string()).build()
}

fn take(p: &mut Producer) -> Batch {
    p.take_batch().expect("a batch should be dispatchable")
}

#[test]
fn builder_defaults_match_the_protocol() {
    let p = producer();
    assert_eq!(p.epoch(), 0);
    assert_eq!(p.next_seq(), 0);
    assert_eq!(p.max_batch_bytes, 1024 * 1024);
    assert_eq!(p.linger_ms, 5);
    assert_eq!(p.max_in_flight, 5);
    assert_eq!(p.content_type, "application/octet-stream");
    assert!(p.epoch_claimed);
    assert!(!p.closed);
}

#[test]
fn builder_settings_carry_into_the_producer() {
    let stream = DurableStream::new("http://h/s".to_string());
    let p = ProducerBuilder::new(stream, "pid".to_string())
        .epoch(7)
        .auto_claim(true)
        .max_batch_bytes(1024)
        .linger(0)
        .max_in_flight(2)
        .content_type("application/json")
        .build();
    assert_eq!(p.epoch(), 7);
    assert!(p.auto_claim);
    assert_eq!(p.max_batch_bytes, 1024);
    assert_eq!(p.linger_ms, 0);
    assert_eq!(p.max_in_flight, 2);
    assert!(!p.epoch_claimed);
    assert!(p.is_json_mode());
}

#[test]
fn content_type_falls_back_to_the_stream_handle() {
    let mut stream = DurableStream::new("http://h/s".to_string());
    stream.set_content_type("text/csv");
    let p = ProducerBuilder::new(stream, "pid".to_string()).build();
    assert_eq!(p.content_type, "text/csv");
}

#[test]
fn dispatched_batches_carry_contiguous_sequence_numbers() {
    let mut p = producer();
    for expected_seq in 0u64..3 {
        assert!(p.append(vec![b'x'; 1024], 0).is_none());
        let batch = take(&mut p);
        assert_eq!(batch.seq, expected_seq);
        assert_eq!(batch.epoch, 0);
        assert_eq!(batch.entries.len(), 1);
        let disp = p.on_batch_response(batch.seq, batch.epoch, 0, 200, Some("o1"), None, None);
        assert!(matches!(disp, BatchDisposition::Done(_)));
        p.complete_batch();
    }
    assert_eq!(p.next_seq(), 3);
    assert!(p.is_drained());
}

#[test]
fn appends_batch_together_until_taken() {
    let mut p = producer();
    assert!(p.append(b"aa".to_vec(), 10).is_none());
    assert!(p.append(b"bbb".to_vec(), 20).is_none());
    assert_eq!(p.batch_bytes, 5);
    assert_eq!(p.batch_started_at_ms, Some(10));
    let batch = take(&mut p);
    assert_eq!(batch.entries.len(), 2);
    assert_eq!(batch.entries[0].data, b"aa");
    assert_eq!(batch.entries[1].data, b"bbb");
    assert_eq!(p.batch_bytes, 0);
    assert_eq!(p.batch_started_at_ms, None);
}

#[test]
fn a_full_batch_dispatches_from_append() {
    let stream = DurableStream::new("http://h/s".to_string());
    let mut p = ProducerBuilder::new(stream, "pid".to_string())
        .max_batch_bytes(4)
        .build();
    assert!(p.append(b"ab".to_vec(), 0).is_none());
    let batch = p.append(b"cd".to_vec(), 1).expect("the batch is full");
    assert_eq!(batch.seq, 0);
    assert_eq!(batch.entries.len(), 2);
}

#[test]
fn in_flight_never_exceeds_the_limit() {
    let stream = DurableStream::new("http://h/s".to_string());
    let mut p = ProducerBuilder::new(stream, "pid".to_string())
        .max_in_flight(1)
        .build();
    assert!(p.append(b"a".to_vec(), 0).is_none());
    assert!(p.take_batch().is_some());
    assert_eq!(p.in_flight, 1);
    assert!(p.append(b"b".to_vec(), 1).is_none());
    // The slot is taken: nothing more may dispatch.
    assert!(p.take_batch().is_none());
    p.complete_batch();
    assert_eq!(p.in_flight, 0);
    assert!(p.take_batch().is_some());
}

#[test]
fn unconfirmed_auto_claim_serializes_the_first_batch() {
    let stream = DurableStream::new("http://h/s".to_string());
    let mut p = ProducerBuilder::new(stream, "pid".to_string())
        .auto_claim(true)
        .build();
    assert!(p.append(b"a".to_vec(), 0).is_none());
    assert!(p.take_batch().is_some());
    assert!(p.append(b"b".to_vec(), 1).is_none());
    // The epoch is not confirmed yet and a batch is in flight.
    assert!(p.take_batch().is_none());
    let disp = p.on_batch_response(0, 0, 0, 200, None, None, None);
    assert!(matches!(disp, BatchDisposition::Done(_)));
    p.complete_batch();
    assert!(p.epoch_claimed);
    assert!(p.take_batch().is_some());
}

#[test]
fn closed_producer_ignores_appends_and_drains_immediately() {
    let mut p = producer();
    p.close();
    assert!(p.closed);
    assert!(p.append(b"late".to_vec(), 0).is_none());
    assert_eq!(p.pending.len(), 0);
    assert_eq!(p.batch_bytes, 0);
    assert!(p.take_batch().is_none());
    assert!(p.is_drained());
}

#[test]
fn duplicate_batches_are_reported_as_such() {
    let mut p = producer();
    assert!(p.append(b"a".to_vec(), 0).is_none());
    let batch = take(&mut p);
    match p.on_batch_response(batch.seq, batch.epoch, 0, 204, None, None, None) {
        BatchDisposition::Done(receipt) => {
            assert!(receipt.duplicate);
            assert!(receipt.next_offset.is_beginning());
        }
        other => panic!("expected a duplicate receipt, got {:?}", other),
    }
}

#[test]
fn stale_epoch_with_auto_claim_reclaims_and_restarts_at_zero() {
    let stream = DurableStream::new("http://h/s".to_string());
    let mut p = ProducerBuilder::new(stream, "pid".to_string())
        .auto_claim(true)
        .build();
    assert!(p.append(b"a".to_vec(), 0).is_none());
    let batch = take(&mut p);
    assert_eq!(batch.seq, 0);
    match p.on_batch_response(batch.seq, batch.epoch, 0, 403, None, Some("4"), None) {
        BatchDisposition::RetryNewEpoch { seq, epoch } => {
            assert_eq!(seq, 0);
            assert_eq!(epoch, 5);
        }
        other => panic!("expected an epoch re-claim, got {:?}", other),
    }
    assert_eq!(p.epoch(), 5);
    assert_eq!(p.next_seq(), 1);
    assert!(!p.epoch_claimed);
}

#[test]
fn stale_epoch_without_auto_claim_fails() {
    let mut p = producer();
    assert!(p.append(b"a".to_vec(), 0).is_none());
    let batch = take(&mut p);
    match p.on_batch_response(batch.seq, batch.epoch, 0, 403, None, Some("9"), None) {
        BatchDisposition::Fail(ProducerError::StaleEpoch {
            server_epoch,
            our_epoch,
        }) => {
            assert_eq!(server_epoch, 9);
            assert_eq!(our_epoch, 0);
        }
        other => panic!("expected a stale-epoch failure, got {:?}", other),
    }
    assert_eq!(p.epoch(), 0);
}

#[test]
fn sequence_gaps_retry_with_doubling_backoff_then_fail() {
    let mut p = producer();
    assert!(p.append(b"a".to_vec(), 0).is_none());
    let batch = take(&mut p);
    let expected = [10u64, 20, 40, 80, 160, 320, 640, 640, 640, 640];
    for (retry, want) in expected.iter().enumerate() {
        match p.on_batch_response(batch.seq, batch.epoch, retry as u32, 409, None, None, None) {
            BatchDisposition::RetrySameSeq { delay_ms } => assert_eq!(delay_ms, *want),
            other => panic!("expected a retry, got {:?}", other),
        }
    }
    match p.on_batch_response(batch.seq, batch.epoch, 10, 409, None, None, Some("2")) {
        BatchDisposition::Fail(ProducerError::SequenceGap { expected, received }) => {
            assert_eq!(expected, 2);
            assert_eq!(received, 0);
        }
        other => panic!("expected a sequence-gap failure, got {:?}", other),
    }
    for (retry, want) in expected.iter().enumerate() {
        assert_eq!(seq_gap_backoff_ms(retry as u32), *want);
    }
}

#[test]
fn other_statuses_fail_with_the_mapped_stream_error() {
    let mut p = producer();
    assert!(p.append(b"a".to_vec(), 0).is_none());
    let batch = take(&mut p);
    match p.on_batch_response(batch.seq, batch.epoch, 0, 500, None, None, None) {
        BatchDisposition::Fail(ProducerError::Stream { message }) => {
            assert_eq!(message, "server error: 500 - Server error 500");
        }
        other => panic!("expected a stream failure, got {:?}", other),
    }
}

#[test]
fn raw_bodies_concatenate() {
    let entries = vec![
        PendingEntry {
            data: b"ab".to_vec(),
            json: false,
        },
        PendingEntry {
            data: b"cd".to_vec(),
            json: false,
        },
    ];
    assert_eq!(Producer::batch_body(&entries, false).unwrap(), b"abcd");
    // JSON mode with no JSON entries still concatenates.
    assert_eq!(Producer::batch_body(&entries, true).unwrap(), b"abcd");
}

#[test]
fn json_bodies_become_an_array() {
    let entries = vec![
        PendingEntry {
            data: b"{\"a\":1}".to_vec(),
            json: true,
        },
        PendingEntry {
            data: b"2".to_vec(),
            json: true,
        },
    ];
    assert_eq!(
        Producer::batch_body(&entries, true).unwrap(),
        b"[{\"a\":1},2]"
    );
    // Outside JSON mode the flag is irrelevant.
    assert_eq!(Producer::batch_body(&entries, false).unwrap(), b"{\"a\":1}2");
}

#[test]
fn mixed_batches_are_refused_in_json_mode() {
    let entries = vec![
        PendingEntry {
            data: b"{}".to_vec(),
            json: true,
        },
        PendingEntry {
            data: b"raw".to_vec(),
            json: false,
        },
    ];
    assert!(matches!(
        Producer::batch_body(&entries, true),
        Err(ProducerError::MixedAppendTypes)
    ));
}

#[test]
fn json_mode_detection_is_case_insensitive() {
    let stream = DurableStream::new("http://h/s".to_string());
    let p = ProducerBuilder::new(stream.clone(), "pid".to_string())
        .content_type("Application/JSON; charset=utf-8")
        .build();
    assert!(p.is_json_mode());
    let q = ProducerBuilder::new(stream, "pid".to_string())
        .content_type("text/plain")
        .build();
    assert!(!q.is_json_mode());
}

#[test]
fn batch_headers_carry_the_producer_triple() {
    let p = producer();
    assert_eq!(
        p.batch_headers(3, 7),
        vec![
            (
                "content-type".to_string(),
                "application/octet-stream".to_string()
            ),
            ("producer-id".to_string(), "pid-1".to_string()),
            ("producer-epoch".to_string(), "7".to_string()),
            ("producer-seq".to_string(), "3".to_string()),
        ]
    );
}

#[test]
fn linger_fires_only_after_the_wait() {
    let stream = DurableStream::new("http://h/s".to_string());
    let mut p = ProducerBuilder::new(stream, "pid".to_string()).linger(5).build();
    assert!(!p.linger_due(100));
    assert!(p.append(b"a".to_vec(), 100).is_none());
    assert!(!p.linger_due(104));
    assert!(p.linger_due(105));
    assert!(p.linger_due(200));
}
