//! Idempotent producer: the batching, sequencing and epoch rules of the
//! exactly-once append pipeline.
//!
//! The producer here is the full decision core, driven as a sequential
//! state machine: appends enqueue entries, dispatch decisions take a
//! batch and assign it the next sequence number, and each wire response
//! is interpreted into a state change plus an instruction for the
//! transport (done, retry after a delay, retry under a freshly claimed
//! epoch, or fail). The embedding application wraps it in a lock, sends
//! the planned batches over HTTP, and reports completions back.

use vstd::prelude::*;
use vstd::string::*;
use crate::error::{
    spec_from_status, spec_stream_error_message, ProducerError, ProducerErrorView, StreamError,
};
use crate::stream::{headers_view, DurableStream};
use crate::text::{
    spec_contains_ci, spec_dec_string, spec_digits_val, spec_u64_parsable, str_contains_ci,
    u64_to_string, view_opt_str, parse_u64,
};
use crate::types::{spec_parse_offset, Offset, OffsetView};

verus! {

/// Maximum retries for a sequence-gap (409) response.
pub const MAX_SEQ_RETRIES: u32 = 10;

/// Receipt from an acknowledged append operation.
#[derive(Debug)]
pub struct AppendReceipt {
    /// The offset after this batch was appended.
    pub next_offset: Offset,
    /// Whether this was a duplicate: the `(id, epoch, seq)` triple was
    /// already committed and the data was not appended again.
    pub duplicate: bool,
}

/// One entry waiting in the pending batch: its payload bytes, and
/// whether they are the serialization of a single JSON value.
#[derive(Debug)]
pub struct PendingEntry {
    pub data: Vec<u8>,
    pub json: bool,
}

/// A batch taken from the pending queue, ready for the wire: its entries
/// and the `(seq, epoch)` pair it was assigned.
#[derive(Debug)]
pub struct Batch {
    pub entries: Vec<PendingEntry>,
    pub seq: u64,
    pub epoch: u64,
}

/// The abstract producer state that the sequencing laws speak about.
pub struct ProducerModel {
    pub next_seq: int,
    pub pending_len: int,
    pub in_flight: int,
    pub closed: bool,
    pub epoch_claimed: bool,
    pub auto_claim: bool,
    pub max_in_flight: int,
}

/// One abstract producer step: an append enqueues, a dispatch attempt
/// may take the pending batch to the wire, and a completion returns an
/// in-flight slot.
pub enum ProducerOp {
    Append,
    TryDispatch,
    Complete,
}

/// Whether a dispatch attempt fires: there is something pending, an
/// in-flight slot is free, and — while an auto-claimed epoch is still
/// unconfirmed — nothing else is in flight.
pub open spec fn spec_can_dispatch(m: ProducerModel) -> bool {
    &&& m.pending_len > 0
    &&& m.in_flight < m.max_in_flight
    &&& !(m.auto_claim && !m.epoch_claimed && m.in_flight > 0)
}

/// The abstract transition relation: the state after one step, and the
/// sequence number put on the wire, if any.
pub open spec fn spec_step(m: ProducerModel, op: ProducerOp) -> (ProducerModel, Option<int>) {
    match op {
        ProducerOp::Append => {
            if m.closed {
                (m, None)
            } else {
                (ProducerModel { pending_len: m.pending_len + 1, ..m }, None)
            }
        },
        ProducerOp::TryDispatch => {
            if spec_can_dispatch(m) {
                (
                    ProducerModel {
                        next_seq: m.next_seq + 1,
                        pending_len: 0,
                        in_flight: m.in_flight + 1,
                        ..m
                    },
                    Some(m.next_seq),
                )
            } else {
                (m, None)
            }
        },
        ProducerOp::Complete => {
            if m.in_flight > 0 {
                (ProducerModel { in_flight: m.in_flight - 1, ..m }, None)
            } else {
                (m, None)
            }
        },
    }
}

/// A whole schedule of abstract steps: the final state and the sequence
/// numbers put on the wire, in order.
pub open spec fn spec_run(m: ProducerModel, ops: Seq<ProducerOp>) -> (ProducerModel, Seq<int>)
    decreases ops.len(),
{
    if ops.len() == 0 {
        (m, Seq::<int>::empty())
    } else {
        let (m1, e) = spec_step(m, ops[0]);
        let (m2, rest) = spec_run(m1, ops.skip(1));
        (
            m2,
            (match e {
                Some(s) => seq![s],
                None => Seq::<int>::empty(),
            }) + rest,
        )
    }
}

/// Across any schedule of appends, dispatch attempts and completions —
/// no epoch reset — the wire-observed sequence numbers are exactly the
/// contiguous, strictly increasing run starting at the state's next
/// sequence number. A fresh producer starts at 0, so its wire sequence
/// is 0, 1, 2, …
pub proof fn lemma_wire_seqs_contiguous(m: ProducerModel, ops: Seq<ProducerOp>)
    ensures
        ({
            let (mf, emitted) = spec_run(m, ops);
            &&& emitted =~= Seq::new(emitted.len(), |i: int| m.next_seq + i)
            &&& mf.next_seq == m.next_seq + emitted.len()
        }),
    decreases ops.len(),
{
    if ops.len() > 0 {
        let (m1, e) = spec_step(m, ops[0]);
        lemma_wire_seqs_contiguous(m1, ops.skip(1));
    }
}

/// After an auto-claimed epoch reset the retried batch carries sequence
/// 0 and the producer holds next sequence 1, so the new epoch's wire
/// sequence — the retried batch followed by whatever any schedule
/// dispatches — restarts at 0 and is again contiguous and strictly
/// increasing.
pub proof fn lemma_epoch_restart(m: ProducerModel, ops: Seq<ProducerOp>)
    requires
        m.next_seq == 1,
    ensures
        ({
            let (mf, emitted) = spec_run(m, ops);
            seq![0int] + emitted =~= Seq::new(emitted.len() + 1, |i: int| i)
        }),
{
    lemma_wire_seqs_contiguous(m, ops);
}

/// No step ever pushes the in-flight count above its limit.
pub proof fn lemma_in_flight_bounded(m: ProducerModel, ops: Seq<ProducerOp>)
    requires
        m.in_flight <= m.max_in_flight,
    ensures
        spec_run(m, ops).0.in_flight <= m.max_in_flight,
    decreases ops.len(),
{
    if ops.len() > 0 {
        let (m1, e) = spec_step(m, ops[0]);
        assert(m1.max_in_flight == m.max_in_flight);
        lemma_in_flight_bounded(m1, ops.skip(1));
    }
}

/// Once the producer is closed with its pending batch drained, no
/// schedule of appends, dispatch attempts and completions puts anything
/// on the wire or enqueues anything: closing is final.
pub proof fn lemma_closed_is_quiescent(m: ProducerModel, ops: Seq<ProducerOp>)
    requires
        m.closed,
        m.pending_len == 0,
    ensures
        ({
            let (mf, emitted) = spec_run(m, ops);
            &&& emitted.len() == 0
            &&& mf.closed
            &&& mf.pending_len == 0
        }),
    decreases ops.len(),
{
    if ops.len() > 0 {
        let (m1, e) = spec_step(m, ops[0]);
        lemma_closed_is_quiescent(m1, ops.skip(1));
    }
}

/// The total payload bytes of a queue of entries.
pub open spec fn entry_bytes_sum(es: Seq<PendingEntry>) -> int
    decreases es.len(),
{
    if es.len() == 0 {
        0int
    } else {
        entry_bytes_sum(es.drop_last()) + es.last().data@.len()
    }
}

/// Every entry carries a JSON value.
pub open spec fn all_json(es: Seq<PendingEntry>) -> bool {
    forall|i: int| 0 <= i < es.len() ==> (#[trigger] es[i]).json
}

/// No entry carries a JSON value.
pub open spec fn all_raw(es: Seq<PendingEntry>) -> bool {
    forall|i: int| 0 <= i < es.len() ==> !(#[trigger] es[i]).json
}

/// The payloads of a queue of entries, concatenated.
pub open spec fn spec_concat_entries(es: Seq<PendingEntry>) -> Seq<u8>
    decreases es.len(),
{
    if es.len() == 0 {
        Seq::<u8>::empty()
    } else {
        spec_concat_entries(es.drop_last()) + es.last().data@
    }
}

/// The payloads of a queue of entries joined with `','`.
pub open spec fn spec_join_entries(es: Seq<PendingEntry>) -> Seq<u8>
    decreases es.len(),
{
    if es.len() == 0 {
        Seq::<u8>::empty()
    } else if es.len() == 1 {
        es[0].data@
    } else {
        spec_join_entries(es.drop_last()) + seq![',' as u8] + es.last().data@
    }
}

/// The JSON-array body for a batch of serialized JSON values: the
/// payloads joined with commas, between brackets. When every entry is
/// the compact serialization of one value, this is the compact
/// serialization of the array of those values.
pub open spec fn spec_json_array_body(es: Seq<PendingEntry>) -> Seq<u8> {
    seq!['[' as u8] + spec_join_entries(es) + seq![']' as u8]
}

/// What the transport must do with one batch after one response.
#[derive(Debug)]
pub enum BatchDisposition {
    /// The batch is committed (or was a duplicate); report the receipt.
    Done(AppendReceipt),
    /// A sequence gap: send the same batch again, with the same triple,
    /// after the given delay.
    RetrySameSeq { delay_ms: u64 },
    /// A stale epoch was auto-claimed: send the batch again under the
    /// given sequence and epoch, with the retry budget reset.
    RetryNewEpoch { seq: u64, epoch: u64 },
    /// The batch failed for good; report the error.
    Fail(ProducerError),
}

/// The delay before sequence-gap retry number `retry_count`: doubling
/// from 10 ms, capped at 640 ms.
pub open spec fn spec_seq_gap_backoff(retry_count: u32) -> u64 {
    if retry_count == 0 {
        10u64
    } else if retry_count == 1 {
        20u64
    } else if retry_count == 2 {
        40u64
    } else if retry_count == 3 {
        80u64
    } else if retry_count == 4 {
        160u64
    } else if retry_count == 5 {
        320u64
    } else {
        640u64
    }
}

/// The delay before a sequence-gap retry.
pub fn seq_gap_backoff_ms(retry_count: u32) -> (r: u64)
    ensures
        r == spec_seq_gap_backoff(retry_count),
{
    if retry_count == 0 {
        10
    } else if retry_count == 1 {
        20
    } else if retry_count == 2 {
        40
    } else if retry_count == 3 {
        80
    } else if retry_count == 4 {
        160
    } else if retry_count == 5 {
        320
    } else {
        640
    }
}

/// Builder for configuring an idempotent producer.
#[derive(Debug)]
pub struct ProducerBuilder {
    pub stream: DurableStream,
    pub producer_id: String,
    pub epoch: u64,
    pub auto_claim: bool,
    pub max_batch_bytes: usize,
    pub linger_ms: u64,
    pub max_in_flight: usize,
    pub content_type: Option<String>,
}

impl ProducerBuilder {
    /// Start building a producer for a stream, with the defaults: epoch
    /// 0, no auto-claim, 1 MiB batches, 5 ms linger, 5 in flight.
    pub fn new(stream: DurableStream, producer_id: String) -> (r: Self)
        ensures
            r.stream@ == stream@,
            r.producer_id@ == producer_id@,
            r.epoch == 0,
            r.auto_claim == false,
            r.max_batch_bytes == 1048576,
            r.linger_ms == 5,
            r.max_in_flight == 5,
            r.content_type is None,
    {
        ProducerBuilder {
            stream,
            producer_id,
            epoch: 0,
            auto_claim: false,
            max_batch_bytes: 1048576,
            linger_ms: 5,
            max_in_flight: 5,
            content_type: None,
        }
    }

    /// Set the starting epoch.
    pub fn epoch(self, epoch: u64) -> (r: Self)
        ensures
            r == (ProducerBuilder { epoch, ..self }),
    {
        ProducerBuilder { epoch, ..self }
    }

    /// Enable auto-claim on stale epoch.
    pub fn auto_claim(self, enabled: bool) -> (r: Self)
        ensures
            r == (ProducerBuilder { auto_claim: enabled, ..self }),
    {
        ProducerBuilder { auto_claim: enabled, ..self }
    }

    /// Set the maximum batch size in bytes.
    pub fn max_batch_bytes(self, bytes: usize) -> (r: Self)
        ensures
            r == (ProducerBuilder { max_batch_bytes: bytes, ..self }),
    {
        ProducerBuilder { max_batch_bytes: bytes, ..self }
    }

    /// Set the linger time, in milliseconds, before a batch is sent.
    pub fn linger(self, linger_ms: u64) -> (r: Self)
        ensures
            r == (ProducerBuilder { linger_ms, ..self }),
    {
        ProducerBuilder { linger_ms, ..self }
    }

    /// Set the maximum number of in-flight batches.
    pub fn max_in_flight(self, count: usize) -> (r: Self)
        ensures
            r == (ProducerBuilder { max_in_flight: count, ..self }),
    {
        ProducerBuilder { max_in_flight: count, ..self }
    }

    /// Set the content type for appends.
    pub fn content_type(self, ct: &str) -> (r: Self)
        ensures
            view_opt_str(Some(ct)) == (match r.content_type {
                Some(c) => Some(c@),
                None => None,
            }),
            r.stream == self.stream,
            r.producer_id == self.producer_id,
            r.epoch == self.epoch,
            r.auto_claim == self.auto_claim,
            r.max_batch_bytes == self.max_batch_bytes,
            r.linger_ms == self.linger_ms,
            r.max_in_flight == self.max_in_flight,
    {
        ProducerBuilder { content_type: Some(ct.to_owned()), ..self }
    }

    /// Build the producer. The content type falls back to the stream
    /// handle's, then to the octet-stream default; the epoch counts as
    /// already claimed exactly when auto-claim is off. The caller starts
    /// the linger timer if the linger is positive.
    pub fn build(self) -> (r: Producer)
        ensures
            r.producer_id@ == self.producer_id@,
            r.auto_claim == self.auto_claim,
            r.max_batch_bytes == self.max_batch_bytes,
            r.linger_ms == self.linger_ms,
            r.max_in_flight == self.max_in_flight,
            r.content_type@ == (match self.content_type {
                Some(c) => c@,
                None => match self.stream@.content_type {
                    Some(c) => c,
                    None => crate::stream::spec_default_content_type(),
                },
            }),
            r.stream@ == self.stream@,
            r.epoch == self.epoch,
            r.next_seq == 0,
            r.pending@.len() == 0,
            r.batch_bytes == 0,
            r.closed == false,
            r.epoch_claimed == !self.auto_claim,
            r.batch_started_at_ms is None,
            r.in_flight == 0,
            r.wf(),
    {
        let content_type = match self.content_type {
            Some(c) => c,
            None => match self.stream.content_type() {
                Some(c) => c.to_owned(),
                None => String::from_str("application/octet-stream"),
            },
        };
        Producer {
            stream: self.stream,
            producer_id: self.producer_id,
            auto_claim: self.auto_claim,
            max_batch_bytes: self.max_batch_bytes,
            linger_ms: self.linger_ms,
            max_in_flight: self.max_in_flight,
            content_type,
            epoch: self.epoch,
            next_seq: 0,
            pending: Vec::new(),
            batch_bytes: 0,
            closed: false,
            epoch_claimed: !self.auto_claim,
            batch_started_at_ms: None,
            in_flight: 0,
        }
    }
}

/// Idempotent producer with exactly-once semantics: the decision core.
///
/// The embedding application guards one of these with a short sync lock,
/// never holding it across network calls; every wire effect is a `Batch`
/// this type handed out, and every response comes back through
/// [`Producer::on_batch_response`].
#[derive(Debug)]
pub struct Producer {
    /// The stream appended to.
    pub stream: DurableStream,
    /// The producer identity sent with every batch.
    pub producer_id: String,
    /// Whether a stale epoch is re-claimed automatically.
    pub auto_claim: bool,
    /// The batch-size threshold that triggers a dispatch.
    pub max_batch_bytes: usize,
    /// How long a batch may wait for company, in milliseconds.
    pub linger_ms: u64,
    /// The bound on concurrently outstanding batches.
    pub max_in_flight: usize,
    /// The content type sent with every batch.
    pub content_type: String,
    /// The current epoch.
    pub epoch: u64,
    /// The sequence number the next dispatched batch will carry.
    pub next_seq: u64,
    /// The entries waiting for the next batch.
    pub pending: Vec<PendingEntry>,
    /// The total payload bytes of `pending`.
    pub batch_bytes: usize,
    /// Whether the producer was closed; final once set.
    pub closed: bool,
    /// Whether the current epoch has been confirmed by a success.
    pub epoch_claimed: bool,
    /// When the oldest pending entry was enqueued, for the linger timer.
    pub batch_started_at_ms: Option<u64>,
    /// How many batches are outstanding on the wire.
    pub in_flight: usize,
}

/// The configuration half of a producer never changes after `build`:
/// every transition carries it over.
pub open spec fn config_unchanged(a: Producer, b: Producer) -> bool {
    &&& b.stream == a.stream
    &&& b.producer_id == a.producer_id
    &&& b.auto_claim == a.auto_claim
    &&& b.max_batch_bytes == a.max_batch_bytes
    &&& b.linger_ms == a.linger_ms
    &&& b.max_in_flight == a.max_in_flight
    &&& b.content_type == a.content_type
}

impl Producer {
    /// Well-formedness: the byte counter matches the queue, the linger
    /// timestamp is set exactly while entries are pending, and the
    /// in-flight count respects its bound.
    pub open spec fn wf(self) -> bool {
        &&& self.batch_bytes == entry_bytes_sum(self.pending@)
        &&& (self.pending@.len() > 0 <==> self.batch_started_at_ms is Some)
        &&& self.in_flight <= self.max_in_flight
    }

    /// The abstract state this producer refines.
    pub open spec fn model(self) -> ProducerModel {
        ProducerModel {
            next_seq: self.next_seq as int,
            pending_len: self.pending@.len() as int,
            in_flight: self.in_flight as int,
            closed: self.closed,
            epoch_claimed: self.epoch_claimed,
            auto_claim: self.auto_claim,
            max_in_flight: self.max_in_flight as int,
        }
    }

    /// Whether batches are built in JSON mode: the content type names
    /// `application/json`, in any case.
    pub fn is_json_mode(&self) -> (r: bool)
        ensures
            r == spec_contains_ci(self.content_type@, "application/json"@),
    {
        str_contains_ci(self.content_type.as_str(), "application/json")
    }

    /// Get the current epoch.
    pub fn epoch(&self) -> (r: u64)
        ensures
            r == self.epoch,
    {
        self.epoch
    }

    /// Get the sequence number the next batch will carry.
    pub fn next_seq(&self) -> (r: u64)
        ensures
            r == self.next_seq,
    {
        self.next_seq
    }

    /// Enqueue one entry and dispatch the batch if it reached the size
    /// threshold. On a closed producer this is a silent no-op.
    fn push_entry(&mut self, data: Vec<u8>, json: bool, now_ms: u64) -> (r: Option<Batch>)
        requires
            old(self).wf(),
            old(self).batch_bytes + data@.len() <= usize::MAX,
            old(self).next_seq < u64::MAX,
        ensures
            final(self).wf(),
            config_unchanged(*old(self), *final(self)),
            old(self).closed ==> *final(self) == *old(self) && r is None,
            !old(self).closed ==> ({
                let entry = PendingEntry { data: data, json: json };
                let started = match old(self).batch_started_at_ms {
                    Some(t) => t,
                    None => now_ms,
                };
                let full = old(self).batch_bytes + data@.len() >= old(self).max_batch_bytes;
                &&& final(self).stream == old(self).stream
                &&& final(self).epoch == old(self).epoch
                &&& final(self).closed == old(self).closed
                &&& if full && old(self).in_flight < old(self).max_in_flight && !(old(self).auto_claim
                    && !old(self).epoch_claimed && old(self).in_flight > 0) {
                    &&& r matches Some(b)
                    &&& b.entries@ =~= old(self).pending@.push(entry)
                    &&& b.seq == old(self).next_seq
                    &&& b.epoch == old(self).epoch
                    &&& final(self).pending@.len() == 0
                    &&& final(self).batch_bytes == 0
                    &&& final(self).batch_started_at_ms is None
                    &&& final(self).next_seq == old(self).next_seq + 1
                    &&& final(self).in_flight == old(self).in_flight + 1
                    &&& final(self).epoch_claimed == old(self).epoch_claimed
                } else {
                    &&& r is None
                    &&& final(self).pending@ =~= old(self).pending@.push(entry)
                    &&& final(self).batch_bytes == old(self).batch_bytes + data@.len()
                    &&& final(self).batch_started_at_ms == Some(started)
                    &&& final(self).next_seq == old(self).next_seq
                    &&& final(self).in_flight == old(self).in_flight
                    &&& final(self).epoch_claimed == old(self).epoch_claimed
                }
            }),
    {
        if self.closed {
            return None;
        }
        let len = data.len();
        if self.pending.len() == 0 {
            self.batch_started_at_ms = Some(now_ms);
        }
        let ghost pending_before = self.pending@;
        self.pending.push(PendingEntry { data, json });
        proof {
            assert(self.pending@.drop_last() =~= pending_before);
        }
        self.batch_bytes = self.batch_bytes + len;
        if self.batch_bytes >= self.max_batch_bytes {
            self.take_batch()
        } else {
            None
        }
    }

    /// Append raw bytes, fire and forget: the entry joins the pending
    /// batch, and the batch goes out when full. Silently ignored when
    /// the producer is closed.
    pub fn append(&mut self, data: Vec<u8>, now_ms: u64) -> (r: Option<Batch>)
        requires
            old(self).wf(),
            old(self).batch_bytes + data@.len() <= usize::MAX,
            old(self).next_seq < u64::MAX,
        ensures
            final(self).wf(),
            config_unchanged(*old(self), *final(self)),
            old(self).closed ==> *final(self) == *old(self) && r is None,
            !old(self).closed ==> ({
                let entry = PendingEntry { data: data, json: false };
                let started = match old(self).batch_started_at_ms {
                    Some(t) => t,
                    None => now_ms,
                };
                let full = old(self).batch_bytes + data@.len() >= old(self).max_batch_bytes;
                &&& final(self).stream == old(self).stream
                &&& final(self).epoch == old(self).epoch
                &&& final(self).closed == old(self).closed
                &&& if full && old(self).in_flight < old(self).max_in_flight && !(old(self).auto_claim
                    && !old(self).epoch_claimed && old(self).in_flight > 0) {
                    &&& r matches Some(b)
                    &&& b.entries@ =~= old(self).pending@.push(entry)
                    &&& b.seq == old(self).next_seq
                    &&& b.epoch == old(self).epoch
                    &&& final(self).pending@.len() == 0
                    &&& final(self).next_seq == old(self).next_seq + 1
                    &&& final(self).in_flight == old(self).in_flight + 1
                } else {
                    &&& r is None
                    &&& final(self).pending@ =~= old(self).pending@.push(entry)
                    &&& final(self).batch_bytes == old(self).batch_bytes + data@.len()
                    &&& final(self).batch_started_at_ms == Some(started)
                    &&& final(self).next_seq == old(self).next_seq
                    &&& final(self).in_flight == old(self).in_flight
                }
            }),
    {
        self.push_entry(data, false, now_ms)
    }

    /// Append the serialization of one JSON value, fire and forget. The
    /// bytes must be a single serialized JSON value; in JSON mode the
    /// batch body becomes the array of the batch's values. Silently
    /// ignored when the producer is closed.
    pub fn append_json(&mut self, json_bytes: Vec<u8>, now_ms: u64) -> (r: Option<Batch>)
        requires
            old(self).wf(),
            old(self).batch_bytes + json_bytes@.len() <= usize::MAX,
            old(self).next_seq < u64::MAX,
        ensures
            final(self).wf(),
            config_unchanged(*old(self), *final(self)),
            old(self).closed ==> *final(self) == *old(self) && r is None,
            !old(self).closed ==> ({
                let entry = PendingEntry { data: json_bytes, json: true };
                let full = old(self).batch_bytes + json_bytes@.len() >= old(self).max_batch_bytes;
                &&& final(self).closed == old(self).closed
                &&& if full && old(self).in_flight < old(self).max_in_flight && !(old(self).auto_claim
                    && !old(self).epoch_claimed && old(self).in_flight > 0) {
                    &&& r matches Some(b)
                    &&& b.entries@ =~= old(self).pending@.push(entry)
                    &&& b.seq == old(self).next_seq
                    &&& b.epoch == old(self).epoch
                    &&& final(self).pending@.len() == 0
                    &&& final(self).next_seq == old(self).next_seq + 1
                    &&& final(self).in_flight == old(self).in_flight + 1
                } else {
                    &&& r is None
                    &&& final(self).pending@ =~= old(self).pending@.push(entry)
                    &&& final(self).batch_bytes == old(self).batch_bytes + json_bytes@.len()
                    &&& final(self).next_seq == old(self).next_seq
                    &&& final(self).in_flight == old(self).in_flight
                }
            }),
    {
        self.push_entry(json_bytes, true, now_ms)
    }

    /// Take the pending batch for the wire if dispatch is allowed:
    /// something is pending, an in-flight slot is free, and — while an
    /// auto-claimed epoch is unconfirmed — nothing else is in flight.
    /// The batch is assigned the next sequence number and the in-flight
    /// count is charged for it.
    pub fn take_batch(&mut self) -> (r: Option<Batch>)
        requires
            old(self).wf(),
            old(self).next_seq < u64::MAX,
        ensures
            final(self).wf(),
            config_unchanged(*old(self), *final(self)),
            spec_step(old(self).model(), ProducerOp::TryDispatch) == (
                final(self).model(),
                match r {
                    Some(b) => Some(b.seq as int),
                    None => None,
                },
            ),
            match r {
                None => *final(self) == *old(self) && !spec_can_dispatch(old(self).model()),
                Some(b) => {
                    &&& spec_can_dispatch(old(self).model())
                    &&& b.entries@ == old(self).pending@
                    &&& b.seq == old(self).next_seq
                    &&& b.epoch == old(self).epoch
                    &&& final(self).pending@.len() == 0
                    &&& final(self).batch_bytes == 0
                    &&& final(self).batch_started_at_ms is None
                    &&& final(self).next_seq == old(self).next_seq + 1
                    &&& final(self).in_flight == old(self).in_flight + 1
                    &&& final(self).epoch == old(self).epoch
                    &&& final(self).epoch_claimed == old(self).epoch_claimed
                    &&& final(self).closed == old(self).closed
                    &&& final(self).stream == old(self).stream
                    &&& final(self).producer_id == old(self).producer_id
                    &&& final(self).content_type == old(self).content_type
                },
            },
    {
        if self.pending.len() == 0 {
            return None;
        }
        if self.in_flight >= self.max_in_flight {
            return None;
        }
        if self.auto_claim && !self.epoch_claimed && self.in_flight > 0 {
            return None;
        }
        let mut entries: Vec<PendingEntry> = Vec::new();
        core::mem::swap(&mut entries, &mut self.pending);
        let seq = self.next_seq;
        let epoch = self.epoch;
        self.next_seq = self.next_seq + 1;
        self.batch_bytes = 0;
        self.batch_started_at_ms = None;
        self.in_flight = self.in_flight + 1;
        Some(Batch { entries, seq, epoch })
    }

    /// Return one in-flight slot after a batch's task finished, whatever
    /// its outcome.
    pub fn complete_batch(&mut self)
        requires
            old(self).wf(),
            old(self).in_flight >= 1,
        ensures
            final(self).wf(),
            config_unchanged(*old(self), *final(self)),
            spec_step(old(self).model(), ProducerOp::Complete).0 == final(self).model(),
            final(self).in_flight == old(self).in_flight - 1,
            final(self).pending == old(self).pending,
            final(self).batch_bytes == old(self).batch_bytes,
            final(self).batch_started_at_ms == old(self).batch_started_at_ms,
            final(self).next_seq == old(self).next_seq,
            final(self).epoch == old(self).epoch,
            final(self).epoch_claimed == old(self).epoch_claimed,
            final(self).closed == old(self).closed,
            final(self).stream == old(self).stream,
    {
        self.in_flight = self.in_flight - 1;
    }

    /// Whether nothing is pending and nothing is in flight: the
    /// condition on which `flush` completes.
    pub fn is_drained(&self) -> (r: bool)
        ensures
            r == (self.pending@.len() == 0 && self.in_flight == 0),
    {
        self.pending.len() == 0 && self.in_flight == 0
    }

    /// Mark the producer closed. Called after a final flush; appends are
    /// silently ignored from here on, and the flag never reverts.
    pub fn close(&mut self)
        requires
            old(self).wf(),
        ensures
            final(self).wf(),
            config_unchanged(*old(self), *final(self)),
            final(self).closed,
            final(self).pending == old(self).pending,
            final(self).batch_bytes == old(self).batch_bytes,
            final(self).batch_started_at_ms == old(self).batch_started_at_ms,
            final(self).next_seq == old(self).next_seq,
            final(self).epoch == old(self).epoch,
            final(self).epoch_claimed == old(self).epoch_claimed,
            final(self).in_flight == old(self).in_flight,
            final(self).stream == old(self).stream,
    {
        self.closed = true;
    }

    /// Whether the linger timer has expired: a batch has been waiting at
    /// least the linger time.
    pub fn linger_due(&self, now_ms: u64) -> (r: bool)
        ensures
            r == (match self.batch_started_at_ms {
                Some(t) => now_ms >= t && now_ms - t >= self.linger_ms,
                None => false,
            }),
    {
        match self.batch_started_at_ms {
            Some(t) => now_ms >= t && now_ms - t >= self.linger_ms,
            None => false,
        }
    }

    /// The headers of a batch POST: the content type and the producer's
    /// `(id, epoch, seq)` triple.
    pub fn batch_headers(&self, seq: u64, epoch: u64) -> (r: Vec<(String, String)>)
        ensures
            headers_view(r@) =~= seq![
                ("content-type"@, self.content_type@),
                ("producer-id"@, self.producer_id@),
                ("producer-epoch"@, spec_dec_string(epoch as nat)),
                ("producer-seq"@, spec_dec_string(seq as nat)),
            ],
    {
        let mut headers: Vec<(String, String)> = Vec::new();
        headers.push((String::from_str("content-type"), self.content_type.clone()));
        headers.push((String::from_str("producer-id"), self.producer_id.clone()));
        headers.push((String::from_str("producer-epoch"), u64_to_string(epoch)));
        headers.push((String::from_str("producer-seq"), u64_to_string(seq)));
        headers
    }

    /// The body of a batch POST. Outside JSON mode, and in JSON mode
    /// when no entry is a JSON value, the payloads are concatenated; in
    /// JSON mode with every entry a JSON value, the body is the JSON
    /// array of those values; a mixed batch is refused rather than
    /// silently dropping entries.
    pub fn batch_body(entries: &Vec<PendingEntry>, json_mode: bool) -> (r: Result<
        Vec<u8>,
        ProducerError,
    >)
        ensures
            match r {
                Ok(body) => {
                    &&& if json_mode && entries@.len() > 0 && all_json(entries@) {
                        body@ == spec_json_array_body(entries@)
                    } else {
                        body@ == spec_concat_entries(entries@)
                    }
                    &&& (json_mode ==> all_json(entries@) || all_raw(entries@))
                },
                Err(e) => {
                    &&& e@ == ProducerErrorView::MixedAppendTypes
                    &&& json_mode
                    &&& !all_json(entries@)
                    &&& !all_raw(entries@)
                },
            },
    {
        if json_mode {
            let mut json_count: usize = 0;
            let mut i: usize = 0;
            while i < entries.len()
                invariant
                    i <= entries@.len(),
                    json_count <= i,
                    json_count == crate::producer::count_json(entries@.take(i as int)),
                decreases entries@.len() - i,
            {
                proof {
                    assert(entries@.take(i + 1).drop_last() =~= entries@.take(i as int));
                }
                if entries[i].json {
                    json_count = json_count + 1;
                }
                i = i + 1;
            }
            proof {
                assert(entries@.take(entries@.len() as int) =~= entries@);
                lemma_count_json_all(entries@);
            }
            if json_count > 0 && json_count < entries.len() {
                return Err(ProducerError::MixedAppendTypes);
            }
            if json_count > 0 {
                let mut body: Vec<u8> = Vec::new();
                body.push('[' as u8);
                let mut k: usize = 0;
                while k < entries.len()
                    invariant
                        k <= entries@.len(),
                        entries@.len() > 0,
                        body@ =~= seq!['[' as u8] + spec_join_entries(entries@.take(k as int)),
                    decreases entries@.len() - k,
                {
                    if k > 0 {
                        body.push(',' as u8);
                    }
                    let mut j: usize = 0;
                    let ghost body_at_entry = body@;
                    while j < entries[k].data.len()
                        invariant
                            k < entries@.len(),
                            j <= entries@[k as int].data@.len(),
                            body@ =~= body_at_entry + entries@[k as int].data@.take(j as int),
                        decreases entries@[k as int].data@.len() - j,
                    {
                        let b = entries[k].data[j];
                        body.push(b);
                        proof {
                            assert(entries@[k as int].data@.take(j + 1) =~= entries@[k as int].data@.take(
                                j as int,
                            ).push(entries@[k as int].data@[j as int]));
                        }
                        j = j + 1;
                    }
                    proof {
                        assert(entries@[k as int].data@.take(entries@[k as int].data@.len() as int)
                            =~= entries@[k as int].data@);
                        assert(entries@.take(k + 1).drop_last() =~= entries@.take(k as int));
                        assert(entries@.take(k + 1).last() == entries@[k as int]);
                        if k == 0 {
                            assert(entries@.take(1) =~= seq![entries@[0]]);
                        }
                    }
                    k = k + 1;
                }
                body.push(']' as u8);
                proof {
                    assert(entries@.take(entries@.len() as int) =~= entries@);
                    assert(body@ =~= spec_json_array_body(entries@));
                }
                return Ok(body);
            }
        }
        let mut body: Vec<u8> = Vec::new();
        let mut k: usize = 0;
        while k < entries.len()
            invariant
                k <= entries@.len(),
                body@ =~= spec_concat_entries(entries@.take(k as int)),
            decreases entries@.len() - k,
        {
            let mut j: usize = 0;
            let ghost body_at_entry = body@;
            while j < entries[k].data.len()
                invariant
                    k < entries@.len(),
                    j <= entries@[k as int].data@.len(),
                    body@ =~= body_at_entry + entries@[k as int].data@.take(j as int),
                decreases entries@[k as int].data@.len() - j,
            {
                let b = entries[k].data[j];
                body.push(b);
                proof {
                    assert(entries@[k as int].data@.take(j + 1) =~= entries@[k as int].data@.take(
                        j as int,
                    ).push(entries@[k as int].data@[j as int]));
                }
                j = j + 1;
            }
            proof {
                assert(entries@[k as int].data@.take(entries@[k as int].data@.len() as int)
                    =~= entries@[k as int].data@);
                assert(entries@.take(k + 1).drop_last() =~= entries@.take(k as int));
                assert(entries@.take(k + 1).last() == entries@[k as int]);
            }
            k = k + 1;
        }
        proof {
            assert(entries@.take(entries@.len() as int) =~= entries@);
        }
        Ok(body)
    }

    /// Interpret one batch response and decide what the transport does
    /// next. 200 commits the batch (confirming the epoch) and 204 is a
    /// duplicate, also a success; 403 is a stale epoch, re-claimed and
    /// retried at sequence 0 when auto-claim is on, fatal otherwise; 409
    /// is a sequence gap, retried with doubling backoff until the budget
    /// runs out; anything else fails through the status taxonomy.
    pub fn on_batch_response(
        &mut self,
        seq: u64,
        epoch: u64,
        retry_count: u32,
        status: u16,
        next_offset_hdr: Option<&str>,
        producer_epoch_hdr: Option<&str>,
        expected_seq_hdr: Option<&str>,
    ) -> (r: BatchDisposition)
        requires
            old(self).wf(),
        ensures
            final(self).wf(),
            config_unchanged(*old(self), *final(self)),
            final(self).in_flight == old(self).in_flight,
            final(self).pending == old(self).pending,
            final(self).batch_bytes == old(self).batch_bytes,
            final(self).batch_started_at_ms == old(self).batch_started_at_ms,
            final(self).closed == old(self).closed,
            final(self).stream == old(self).stream,
            (status == 200 || status == 204) ==> ({
                &&& final(self).epoch_claimed == true
                &&& final(self).epoch == old(self).epoch
                &&& final(self).next_seq == old(self).next_seq
                &&& (status == 200 ==> (r matches BatchDisposition::Done(a) && !a.duplicate
                    && a.next_offset@ == (match view_opt_str(next_offset_hdr) {
                    Some(h) => spec_parse_offset(h),
                    None => OffsetView::Beginning,
                })))
                &&& (status == 204 ==> (r matches BatchDisposition::Done(a) && a.duplicate
                    && a.next_offset@ == OffsetView::Beginning))
            }),
            status == 403 ==> ({
                let server_epoch = match view_opt_str(producer_epoch_hdr) {
                    Some(h) => if spec_u64_parsable(h) {
                        spec_digits_val(h) as u64
                    } else {
                        epoch
                    },
                    None => epoch,
                };
                if old(self).auto_claim && server_epoch < u64::MAX {
                    &&& final(self).epoch == server_epoch + 1
                    &&& final(self).next_seq == 1
                    &&& final(self).epoch_claimed == false
                    &&& r == (BatchDisposition::RetryNewEpoch { seq: 0u64, epoch: (server_epoch
                        + 1) as u64 })
                } else {
                    &&& *final(self) == *old(self)
                    &&& r matches BatchDisposition::Fail(e) && e@ == (ProducerErrorView::StaleEpoch {
                        server_epoch: server_epoch,
                        our_epoch: epoch,
                    })
                }
            }),
            status == 409 ==> ({
                &&& *final(self) == *old(self)
                &&& if retry_count < MAX_SEQ_RETRIES {
                    r == (BatchDisposition::RetrySameSeq {
                        delay_ms: spec_seq_gap_backoff(retry_count),
                    })
                } else {
                    let expected = match view_opt_str(expected_seq_hdr) {
                        Some(h) => if spec_u64_parsable(h) {
                            spec_digits_val(h) as u64
                        } else {
                            0u64
                        },
                        None => 0u64,
                    };
                    r matches BatchDisposition::Fail(e) && e@ == (ProducerErrorView::SequenceGap {
                        expected: expected,
                        received: seq,
                    })
                }
            }),
            !(status == 200 || status == 204 || status == 403 || status == 409) ==> ({
                &&& *final(self) == *old(self)
                &&& r matches BatchDisposition::Fail(e) && e@ == (ProducerErrorView::Stream {
                    message: spec_stream_error_message(
                        spec_from_status(status, old(self).stream@.url),
                    ),
                })
            }),
    {
        if status == 200 {
            let next_offset = match next_offset_hdr {
                Some(h) => Offset::parse(h),
                None => Offset::Beginning,
            };
            self.epoch_claimed = true;
            BatchDisposition::Done(AppendReceipt { next_offset, duplicate: false })
        } else if status == 204 {
            self.epoch_claimed = true;
            BatchDisposition::Done(AppendReceipt { next_offset: Offset::Beginning, duplicate: true })
        } else if status == 403 {
            let server_epoch = match producer_epoch_hdr {
                Some(h) => match parse_u64(h) {
                    Some(v) => v,
                    None => epoch,
                },
                None => epoch,
            };
            if self.auto_claim && server_epoch < u64::MAX {
                let new_epoch = server_epoch + 1;
                self.epoch = new_epoch;
                self.next_seq = 1;
                self.epoch_claimed = false;
                BatchDisposition::RetryNewEpoch { seq: 0, epoch: new_epoch }
            } else {
                BatchDisposition::Fail(
                    ProducerError::StaleEpoch { server_epoch, our_epoch: epoch },
                )
            }
        } else if status == 409 {
            if retry_count < MAX_SEQ_RETRIES {
                BatchDisposition::RetrySameSeq { delay_ms: seq_gap_backoff_ms(retry_count) }
            } else {
                let expected = match expected_seq_hdr {
                    Some(h) => match parse_u64(h) {
                        Some(v) => v,
                        None => 0,
                    },
                    None => 0,
                };
                BatchDisposition::Fail(ProducerError::SequenceGap { expected, received: seq })
            }
        } else {
            let stream_error = StreamError::from_status(status, self.stream.url());
            BatchDisposition::Fail(stream_error.to_producer_error())
        }
    }
}

/// How many entries of a queue carry a JSON value.
pub open spec fn count_json(es: Seq<PendingEntry>) -> int
    decreases es.len(),
{
    if es.len() == 0 {
        0int
    } else {
        count_json(es.drop_last()) + if es.last().json {
            1int
        } else {
            0int
        }
    }
}

/// The JSON count separates the all-JSON, all-raw and mixed batches.
proof fn lemma_count_json_all(es: Seq<PendingEntry>)
    ensures
        0 <= count_json(es) <= es.len(),
        count_json(es) == es.len() ==> all_json(es),
        count_json(es) == 0 ==> all_raw(es),
        all_json(es) ==> count_json(es) == es.len(),
        all_raw(es) ==> count_json(es) == 0,
    decreases es.len(),
{
    if es.len() > 0 {
        lemma_count_json_all(es.drop_last());
        assert forall|i: int| 0 <= i < es.len() && count_json(es) == es.len() implies (
        #[trigger] es[i]).json by {
            if i < es.len() - 1 {
                assert(es.drop_last()[i] == es[i]);
            }
        }
        assert forall|i: int| 0 <= i < es.len() && count_json(es) == 0 implies !(
        #[trigger] es[i]).json by {
            if i < es.len() - 1 {
                assert(es.drop_last()[i] == es[i]);
            }
        }
        if all_json(es) {
            assert(forall|i: int| 0 <= i < es.drop_last().len() ==> (
            #[trigger] es.drop_last()[i]).json);
        }
        if all_raw(es) {
            assert(forall|i: int| 0 <= i < es.drop_last().len() ==> !(
            #[trigger] es.drop_last()[i]).json);
        }
    }
}

} // verus!
