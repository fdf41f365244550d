//! Stream consumption: the read iterator's mode state machine.
//!
//! The iterator multiplexes three wire modes — catch-up reads, long-poll
//! and Server-Sent Events — behind one resumable cursor. The verified
//! core decides which request to make next, interprets every response
//! into a state change and an optional [`Chunk`], and digests SSE bytes
//! through the [`SseParser`]; the embedding application performs the
//! requests.

use vstd::prelude::*;
use vstd::string::*;
use crate::error::{spec_from_status, StreamError, StreamErrorView};
use crate::sse::{
    spec_parser_next, SseEvent, SseEventView, SseParser, SseParserView,
};
use crate::stream::{spec_read_url, DurableStream};
use crate::text::{
    spec_contains_seq, str_contains, str_eq, view_opt_str, view_opt_string,
};
use crate::types::{
    offset_ge, spec_parse_offset, LiveMode, Offset, OffsetView,
};

verus! {

/// Mathematical model of a [`Chunk`].
pub struct ChunkView {
    pub data: Seq<u8>,
    pub next_offset: OffsetView,
    pub up_to_date: bool,
    pub cursor: Option<Seq<char>>,
    pub status_code: Option<u16>,
}

/// One unit of data delivery from the stream: the payload, the offset to
/// resume from, the caught-up flag, the CDN cursor, and the HTTP status
/// it came from. A `status_code` of `None` signals that an SSE
/// connection closed and the next call will reconnect.
#[derive(Debug)]
pub struct Chunk {
    /// The raw data bytes for this chunk.
    pub data: Vec<u8>,
    /// Next offset to read from, for resumption and checkpointing.
    pub next_offset: Offset,
    /// Whether this chunk represents the current tail of the stream.
    pub up_to_date: bool,
    /// Cursor for CDN request collapsing.
    pub cursor: Option<String>,
    /// HTTP status code from the response, if applicable.
    pub status_code: Option<u16>,
}

impl View for Chunk {
    type V = ChunkView;

    open spec fn view(&self) -> ChunkView {
        ChunkView {
            data: self.data@,
            next_offset: self.next_offset@,
            up_to_date: self.up_to_date,
            cursor: view_opt_string(self.cursor),
            status_code: self.status_code,
        }
    }
}

/// Builder for configuring stream reads.
#[derive(Debug)]
pub struct ReadBuilder {
    pub stream: DurableStream,
    pub offset: Offset,
    pub live: LiveMode,
    pub timeout_ms: u64,
    pub headers: Vec<(String, String)>,
    pub cursor: Option<String>,
}

impl ReadBuilder {
    /// Start building a read over a stream: from the beginning, no live
    /// tailing, a 30-second long-poll timeout.
    pub fn new(stream: DurableStream) -> (r: Self)
        ensures
            r.stream@ == stream@,
            r.offset@ == OffsetView::Beginning,
            r.live == LiveMode::Off,
            r.timeout_ms == 30000,
            r.headers@.len() == 0,
            r.cursor is None,
    {
        ReadBuilder {
            stream,
            offset: Offset::Beginning,
            live: LiveMode::Off,
            timeout_ms: 30000,
            headers: Vec::new(),
            cursor: None,
        }
    }

    /// Set the starting offset.
    pub fn offset(self, offset: Offset) -> (r: Self)
        ensures
            r == (ReadBuilder { offset, ..self }),
    {
        ReadBuilder { offset, ..self }
    }

    /// Set the live mode.
    pub fn live(self, mode: LiveMode) -> (r: Self)
        ensures
            r == (ReadBuilder { live: mode, ..self }),
    {
        ReadBuilder { live: mode, ..self }
    }

    /// Set the timeout for long-poll requests, in milliseconds.
    pub fn timeout(self, timeout_ms: u64) -> (r: Self)
        ensures
            r == (ReadBuilder { timeout_ms, ..self }),
    {
        ReadBuilder { timeout_ms, ..self }
    }

    /// Add a custom header.
    pub fn header(self, key: &str, value: &str) -> (r: Self)
        ensures
            crate::stream::headers_view(r.headers@) == crate::stream::headers_view(
                self.headers@,
            ).push((key@, value@)),
            r.stream == self.stream,
            r.offset == self.offset,
            r.live == self.live,
            r.timeout_ms == self.timeout_ms,
            r.cursor == self.cursor,
    {
        let mut r = self;
        r.headers.push((key.to_owned(), value.to_owned()));
        proof {
            assert(crate::stream::headers_view(r.headers@) =~= crate::stream::headers_view(
                self.headers@,
            ).push((key@, value@)));
        }
        r
    }

    /// Set the initial cursor for CDN collapsing.
    pub fn cursor(self, cursor: &str) -> (r: Self)
        ensures
            view_opt_string(r.cursor) == Some(cursor@),
            r.stream == self.stream,
            r.offset == self.offset,
            r.live == self.live,
            r.timeout_ms == self.timeout_ms,
            r.headers == self.headers,
    {
        ReadBuilder { cursor: Some(cursor.to_owned()), ..self }
    }

    /// Build the iterator. No request is made until the iterator is
    /// driven.
    pub fn build(self) -> (r: ChunkIterator)
        ensures
            r.stream@ == self.stream@,
            r.offset == self.offset,
            r.live == self.live,
            r.timeout_ms == self.timeout_ms,
            r.headers == self.headers,
            r.cursor == self.cursor,
            r.up_to_date == false,
            r.closed == false,
            r.done == false,
            r.sse is None,
    {
        ChunkIterator {
            stream: self.stream,
            offset: self.offset,
            live: self.live,
            timeout_ms: self.timeout_ms,
            headers: self.headers,
            cursor: self.cursor,
            up_to_date: false,
            closed: false,
            done: false,
            sse: None,
        }
    }
}

/// The wire flavor of the next planned request.
#[derive(Clone, Copy, Debug, PartialEq, Eq, Structural)]
pub enum WireMode {
    /// A plain catch-up GET, no `live` parameter.
    CatchUp,
    /// A GET with `live=long-poll`, sent with the iterator's timeout.
    LongPoll,
    /// An SSE establishment: GET with `live=sse` and
    /// `Accept: text/event-stream`.
    Sse,
}

/// What the transport should do on the next iteration.
#[derive(Debug)]
pub enum NextPlan {
    /// The iterator was closed: fail with `IteratorClosed`.
    Failed,
    /// The stream is exhausted: yield end of stream.
    Finished,
    /// An SSE connection is live: read bytes from it and feed them in.
    ReadSse,
    /// Issue this request.
    Request { mode: WireMode, url: String },
}

/// The state an SSE read moves: the resumption offset, the cursor, and
/// the caught-up flag.
pub struct SseReadState {
    pub offset: OffsetView,
    pub cursor: Option<Seq<char>>,
    pub up_to_date: bool,
}

/// One SSE event applied to the read state. A `control` event moves the
/// offset, cursor and caught-up flag, and is surfaced as an empty chunk
/// exactly when it reports the stream caught up; a data event yields its
/// payload under the current state.
pub open spec fn spec_apply_event(st: SseReadState, ev: SseEventView) -> (
    SseReadState,
    Option<ChunkView>,
) {
    match ev {
        SseEventView::Control { stream_next_offset, stream_cursor, up_to_date } => {
            let st2 = SseReadState {
                offset: spec_parse_offset(stream_next_offset),
                cursor: match stream_cursor {
                    Some(c) => Some(c),
                    None => st.cursor,
                },
                up_to_date,
            };
            if up_to_date {
                (
                    st2,
                    Some(
                        ChunkView {
                            data: Seq::<u8>::empty(),
                            next_offset: st2.offset,
                            up_to_date: true,
                            cursor: st2.cursor,
                            status_code: Some(200u16),
                        },
                    ),
                )
            } else {
                (st2, None)
            }
        },
        SseEventView::Data(d) => {
            (
                st,
                Some(
                    ChunkView {
                        data: vstd::utf8::encode_utf8(d),
                        next_offset: st.offset,
                        up_to_date: st.up_to_date,
                        cursor: st.cursor,
                        status_code: Some(200u16),
                    },
                ),
            )
        },
    }
}

/// Events pulled from the parser and applied to the read state until one
/// yields a chunk or the buffered text runs out.
pub open spec fn spec_sse_drain(st: SseReadState, ps: SseParserView) -> (
    SseReadState,
    SseParserView,
    Option<ChunkView>,
)
    decreases ps.buffer.len(),
    via spec_sse_drain_decreases
{
    let (ps2, ev) = spec_parser_next(ps);
    match ev {
        None => (st, ps2, None),
        Some(e) => {
            let (st2, ch) = spec_apply_event(st, e);
            match ch {
                Some(c) => (st2, ps2, Some(c)),
                None => spec_sse_drain(st2, ps2),
            }
        },
    }
}

#[via_fn]
proof fn spec_sse_drain_decreases(st: SseReadState, ps: SseParserView) {
    lemma_parser_next_consumes(ps);
}

/// When the parser yields an event, it consumed at least one line of
/// its buffer.
proof fn lemma_parser_next_consumes(ps: SseParserView)
    ensures
        spec_parser_next(ps).1 is Some ==> spec_parser_next(ps).0.buffer.len() < ps.buffer.len(),
    decreases ps.buffer.len(),
{
    crate::text::lemma_find_char(ps.buffer, '\n');
    match crate::text::spec_find_char(ps.buffer, '\n') {
        None => {},
        Some(i) => {
            let line = crate::text::spec_strip_trailing(ps.buffer.take(i), '\r');
            let rest = ps.buffer.skip(i + 1);
            if line.len() == 0 {
                let st2 = SseParserView {
                    buffer: rest,
                    event_type: None,
                    data_lines: Seq::<Seq<char>>::empty(),
                };
                if !(crate::sse::spec_dispatch(ps.event_type, ps.data_lines) is Some) {
                    lemma_parser_next_consumes(st2);
                }
            } else {
                let st2 = crate::sse::spec_apply_field(
                    SseParserView { buffer: rest, ..ps },
                    line,
                );
                lemma_parser_next_consumes(st2);
            }
        },
    }
}

/// Whether, at each step of a run of control events, the offset the
/// server announces is at or after the offset held at that point.
pub open spec fn spec_controls_ascending(st: SseReadState, evs: Seq<SseEventView>) -> bool
    decreases evs.len(),
{
    if evs.len() == 0 {
        true
    } else {
        match evs[0] {
            SseEventView::Control { stream_next_offset, .. } => {
                &&& offset_ge(spec_parse_offset(stream_next_offset), st.offset)
                &&& spec_controls_ascending(spec_apply_event(st, evs[0]).0, evs.skip(1))
            },
            SseEventView::Data(_) => false,
        }
    }
}

/// The read state after a run of events.
pub open spec fn spec_apply_events(st: SseReadState, evs: Seq<SseEventView>) -> SseReadState
    decreases evs.len(),
{
    if evs.len() == 0 {
        st
    } else {
        spec_apply_events(spec_apply_event(st, evs[0]).0, evs.skip(1))
    }
}

/// Any run of `control` events whose announced offsets never move
/// backwards leaves the iterator's offset at or after where it started:
/// control frames can only carry the reader forward.
pub proof fn lemma_control_offsets_monotone(st: SseReadState, evs: Seq<SseEventView>)
    requires
        spec_controls_ascending(st, evs),
    ensures
        offset_ge(spec_apply_events(st, evs).offset, st.offset),
    decreases evs.len(),
{
    if evs.len() == 0 {
        crate::types::lemma_offset_ge_refl(st.offset);
    } else {
        let st1 = spec_apply_event(st, evs[0]).0;
        lemma_control_offsets_monotone(st1, evs.skip(1));
        crate::types::lemma_offset_ge_trans(
            st.offset,
            st1.offset,
            spec_apply_events(st, evs).offset,
        );
    }
}

/// The two terminal flags of a reader.
pub struct ReaderFlags {
    pub done: bool,
    pub closed: bool,
}

/// The response-level events a reader can observe, as far as the
/// terminal flags are concerned.
pub enum ReadEvent {
    /// A 200 catch-up or long-poll response, caught up or not.
    Data200 { up_to_date: bool },
    /// A 204 no-content response.
    NoContent204,
    /// A 304 not-modified response.
    NotModified304,
    /// A long-poll transport timeout.
    LongPollTimeout,
    /// The SSE connection closed.
    SseClose,
    /// An explicit close of the iterator.
    Close,
}

/// How one observed event moves the terminal flags, for a reader whose
/// live mode is off (`live_off`): caught-up responses, 204s, timeouts
/// and connection closes all finish an off-mode read, and an explicit
/// close closes any read.
pub open spec fn spec_flags_step(live_off: bool, f: ReaderFlags, ev: ReadEvent) -> ReaderFlags {
    match ev {
        ReadEvent::Data200 { up_to_date } => ReaderFlags {
            done: f.done || (up_to_date && live_off),
            ..f
        },
        ReadEvent::NoContent204 => ReaderFlags { done: f.done || live_off, ..f },
        ReadEvent::NotModified304 => f,
        ReadEvent::LongPollTimeout => ReaderFlags { done: f.done || live_off, ..f },
        ReadEvent::SseClose => ReaderFlags { done: f.done || live_off, ..f },
        ReadEvent::Close => ReaderFlags { closed: true, ..f },
    }
}

/// The terminal flags after a run of observed events.
pub open spec fn spec_flags_run(live_off: bool, f: ReaderFlags, evs: Seq<ReadEvent>) -> ReaderFlags
    decreases evs.len(),
{
    if evs.len() == 0 {
        f
    } else {
        spec_flags_run(live_off, spec_flags_step(live_off, f, evs[0]), evs.skip(1))
    }
}

/// The terminal flags are absorbing: once a read is done, or closed, no
/// later event revives it. With `next_plan` yielding end of stream for
/// every done reader and a failure for every closed one, a reader that
/// has yielded end of stream never issues another request.
pub proof fn lemma_terminal_flags_are_absorbing(
    live_off: bool,
    f: ReaderFlags,
    evs: Seq<ReadEvent>,
)
    ensures
        f.done ==> spec_flags_run(live_off, f, evs).done,
        f.closed ==> spec_flags_run(live_off, f, evs).closed,
    decreases evs.len(),
{
    if evs.len() > 0 {
        lemma_terminal_flags_are_absorbing(live_off, spec_flags_step(live_off, f, evs[0]), evs.skip(1));
    }
}

/// With live tailing off, every caught-up signal — a caught-up 200, a
/// 204, a timeout, or the connection closing — finishes the read: an
/// off-mode read never outlives the first caught-up signal it observes.
pub proof fn lemma_off_mode_stops_at_caught_up(f: ReaderFlags, ev: ReadEvent)
    requires
        match ev {
            ReadEvent::Data200 { up_to_date } => up_to_date,
            ReadEvent::NoContent204 => true,
            ReadEvent::LongPollTimeout => true,
            ReadEvent::SseClose => true,
            _ => false,
        },
    ensures
        spec_flags_step(true, f, ev).done,
{
}

/// What establishing an SSE connection came to.
#[derive(Debug)]
pub enum SseEstablishStep {
    /// The event stream is up; feed its bytes in.
    Connected,
    /// The server declined SSE; the iterator fell back to long-poll.
    /// Issue the next request.
    Downgraded,
    /// The establishment failed for good.
    Fail(StreamError),
}

/// Iterator for reading chunks from a stream.
///
/// The `done` and `closed` flags are monotonic: no transition ever
/// clears them.
#[derive(Debug)]
pub struct ChunkIterator {
    pub stream: DurableStream,
    pub offset: Offset,
    pub live: LiveMode,
    pub timeout_ms: u64,
    pub headers: Vec<(String, String)>,
    pub cursor: Option<String>,
    pub up_to_date: bool,
    pub closed: bool,
    pub done: bool,
    pub sse: Option<SseParser>,
}

/// The reader's configuration — the stream, the timeout and the extra
/// headers — never changes after `build`: every transition carries it
/// over.
pub open spec fn reader_config_unchanged(a: ChunkIterator, b: ChunkIterator) -> bool {
    &&& b.stream == a.stream
    &&& b.timeout_ms == a.timeout_ms
    &&& b.headers == a.headers
}

impl ChunkIterator {
    /// The read state an SSE exchange moves.
    pub open spec fn read_state(self) -> SseReadState {
        SseReadState {
            offset: self.offset@,
            cursor: view_opt_string(self.cursor),
            up_to_date: self.up_to_date,
        }
    }

    /// Get the current offset.
    pub fn offset(&self) -> (r: &Offset)
        ensures
            r == &self.offset,
    {
        &self.offset
    }

    /// Check if the iterator has caught up to the stream tail.
    pub fn is_up_to_date(&self) -> (r: bool)
        ensures
            r == self.up_to_date,
    {
        self.up_to_date
    }

    /// Get the current cursor.
    pub fn cursor(&self) -> (r: Option<&str>)
        ensures
            view_opt_str(r) == view_opt_string(self.cursor),
    {
        match &self.cursor {
            Some(c) => Some(c.as_str()),
            None => None,
        }
    }

    /// Close the iterator and release its connection. Closing is final.
    pub fn close(&mut self)
        ensures
            reader_config_unchanged(*old(self), *final(self)),
            final(self).closed,
            final(self).closed == spec_flags_step(
                old(self).live == LiveMode::Off,
                (ReaderFlags { done: old(self).done, closed: old(self).closed }),
                ReadEvent::Close,
            ).closed,
            final(self).sse is None,
            final(self).offset == old(self).offset,
            final(self).live == old(self).live,
            final(self).cursor == old(self).cursor,
            final(self).up_to_date == old(self).up_to_date,
            final(self).done == old(self).done,
    {
        self.closed = true;
        self.sse = None;
    }

    /// Decide the next step: fail when closed, finish when done, read
    /// the live SSE connection when one is up, and otherwise issue the
    /// request the live mode calls for — catch-up until caught up in
    /// `Auto`, then SSE.
    pub fn next_plan(&self) -> (r: NextPlan)
        ensures
            self.closed ==> r is Failed,
            !self.closed && self.done ==> r is Finished,
            !self.closed && !self.done && self.sse is Some ==> r is ReadSse,
            !self.closed && !self.done && self.sse is None ==> match self.live {
                LiveMode::Off => r matches NextPlan::Request { mode, url } && mode
                    == WireMode::CatchUp && url@ == spec_read_url(
                    self.stream@.url,
                    self.offset@,
                    None,
                    view_opt_string(self.cursor),
                ),
                LiveMode::LongPoll => r matches NextPlan::Request { mode, url } && mode
                    == WireMode::LongPoll && url@ == spec_read_url(
                    self.stream@.url,
                    self.offset@,
                    Some("long-poll"@),
                    view_opt_string(self.cursor),
                ),
                LiveMode::Sse => r matches NextPlan::Request { mode, url } && mode == WireMode::Sse
                    && url@ == spec_read_url(
                    self.stream@.url,
                    self.offset@,
                    Some("sse"@),
                    view_opt_string(self.cursor),
                ),
                LiveMode::Auto => r matches NextPlan::Request { mode, url } && if self.up_to_date {
                    mode == WireMode::Sse && url@ == spec_read_url(
                        self.stream@.url,
                        self.offset@,
                        Some("sse"@),
                        view_opt_string(self.cursor),
                    )
                } else {
                    mode == WireMode::CatchUp && url@ == spec_read_url(
                        self.stream@.url,
                        self.offset@,
                        None,
                        view_opt_string(self.cursor),
                    )
                },
            },
    {
        if self.closed {
            return NextPlan::Failed;
        }
        if self.done {
            return NextPlan::Finished;
        }
        if self.sse.is_some() {
            return NextPlan::ReadSse;
        }
        let cursor = match &self.cursor {
            Some(c) => Some(c.as_str()),
            None => None,
        };
        match &self.live {
            LiveMode::Off => NextPlan::Request {
                mode: WireMode::CatchUp,
                url: self.stream.build_read_url(&self.offset, None, cursor),
            },
            LiveMode::LongPoll => NextPlan::Request {
                mode: WireMode::LongPoll,
                url: self.stream.build_read_url(&self.offset, Some("long-poll"), cursor),
            },
            LiveMode::Sse => NextPlan::Request {
                mode: WireMode::Sse,
                url: self.stream.build_read_url(&self.offset, Some("sse"), cursor),
            },
            LiveMode::Auto => {
                if self.up_to_date {
                    NextPlan::Request {
                        mode: WireMode::Sse,
                        url: self.stream.build_read_url(&self.offset, Some("sse"), cursor),
                    }
                } else {
                    NextPlan::Request {
                        mode: WireMode::CatchUp,
                        url: self.stream.build_read_url(&self.offset, None, cursor),
                    }
                }
            },
        }
    }

    /// A long-poll transport timeout is not an error: the reader is up
    /// to date. In `Off` mode it also ends the stream; otherwise it
    /// surfaces as an empty chunk with status 204.
    pub fn on_long_poll_timeout(&mut self) -> (r: Option<Chunk>)
        ensures
            reader_config_unchanged(*old(self), *final(self)),
            final(self).done == spec_flags_step(
                old(self).live == LiveMode::Off,
                (ReaderFlags { done: old(self).done, closed: old(self).closed }),
                ReadEvent::LongPollTimeout,
            ).done,
            final(self).up_to_date == true,
            final(self).offset == old(self).offset,
            final(self).cursor == old(self).cursor,
            final(self).live == old(self).live,
            final(self).closed == old(self).closed,
            final(self).sse == old(self).sse,
            old(self).live == LiveMode::Off ==> final(self).done && r is None,
            old(self).live != LiveMode::Off ==> final(self).done == old(self).done && (
            r matches Some(c) && c@ == (ChunkView {
                data: Seq::<u8>::empty(),
                next_offset: old(self).offset@,
                up_to_date: true,
                cursor: view_opt_string(old(self).cursor),
                status_code: Some(204u16),
            })),
    {
        self.up_to_date = true;
        if self.live == LiveMode::Off {
            self.done = true;
            return None;
        }
        Some(
            Chunk {
                data: Vec::new(),
                next_offset: self.offset.clone(),
                up_to_date: true,
                cursor: clone_opt_string(&self.cursor),
                status_code: Some(204),
            },
        )
    }

    /// Interpret a catch-up or long-poll response. A 200 carries data
    /// and moves the offset, cursor and caught-up flag to what the
    /// headers say; a 204 means caught up with nothing new, still
    /// honouring any offset or cursor header; a 304 only refreshes the
    /// cursor; 404 and 410 fail; anything else maps through the status
    /// taxonomy. In `Off` mode a caught-up 200 or any 204 ends the
    /// stream.
    pub fn on_http_response(
        &mut self,
        status: u16,
        next_offset_hdr: Option<&str>,
        cursor_hdr: Option<&str>,
        up_to_date_hdr: Option<&str>,
        body: Vec<u8>,
    ) -> (r: Result<Option<Chunk>, StreamError>)
        ensures
            reader_config_unchanged(*old(self), *final(self)),
            final(self).live == old(self).live,
            final(self).closed == old(self).closed,
            final(self).sse == old(self).sse,
            (status == 200 || status == 204 || status == 304) ==> final(self).done
                == spec_flags_step(
                old(self).live == LiveMode::Off,
                (ReaderFlags { done: old(self).done, closed: old(self).closed }),
                if status == 200 {
                    (ReadEvent::Data200 {
                        up_to_date: view_opt_str(up_to_date_hdr) == Some("true"@),
                    })
                } else if status == 204 {
                    ReadEvent::NoContent204
                } else {
                    ReadEvent::NotModified304
                },
            ).done,
            status == 200 ==> ({
                let new_offset = match view_opt_str(next_offset_hdr) {
                    Some(h) => spec_parse_offset(h),
                    None => old(self).offset@,
                };
                let utd = view_opt_str(up_to_date_hdr) == Some("true"@);
                &&& final(self).offset@ == new_offset
                &&& view_opt_string(final(self).cursor) == view_opt_str(cursor_hdr)
                &&& final(self).up_to_date == utd
                &&& final(self).done == (old(self).done || (utd && old(self).live == LiveMode::Off))
                &&& r matches Ok(Some(c)) && c@ == (ChunkView {
                    data: body@,
                    next_offset: new_offset,
                    up_to_date: utd,
                    cursor: view_opt_str(cursor_hdr),
                    status_code: Some(200u16),
                })
            }),
            status == 204 ==> ({
                let new_offset = match view_opt_str(next_offset_hdr) {
                    Some(h) => spec_parse_offset(h),
                    None => old(self).offset@,
                };
                let new_cursor = match view_opt_str(cursor_hdr) {
                    Some(c) => Some(c),
                    None => view_opt_string(old(self).cursor),
                };
                &&& final(self).offset@ == new_offset
                &&& view_opt_string(final(self).cursor) == new_cursor
                &&& final(self).up_to_date == true
                &&& if old(self).live == LiveMode::Off {
                    final(self).done && r matches Ok(None)
                } else {
                    final(self).done == old(self).done && (r matches Ok(Some(c)) && c@ == (ChunkView {
                        data: Seq::<u8>::empty(),
                        next_offset: new_offset,
                        up_to_date: true,
                        cursor: new_cursor,
                        status_code: Some(204u16),
                    }))
                }
            }),
            status == 304 ==> ({
                let new_cursor = match view_opt_str(cursor_hdr) {
                    Some(c) => Some(c),
                    None => view_opt_string(old(self).cursor),
                };
                &&& final(self).offset == old(self).offset
                &&& view_opt_string(final(self).cursor) == new_cursor
                &&& final(self).up_to_date == old(self).up_to_date
                &&& final(self).done == old(self).done
                &&& r matches Ok(Some(c)) && c@ == (ChunkView {
                    data: Seq::<u8>::empty(),
                    next_offset: old(self).offset@,
                    up_to_date: old(self).up_to_date,
                    cursor: new_cursor,
                    status_code: Some(304u16),
                })
            }),
            !(status == 200 || status == 204 || status == 304) ==> ({
                &&& *final(self) == *old(self)
                &&& r matches Err(e) && e@ == (if status == 404 {
                    StreamErrorView::NotFound { url: old(self).stream@.url }
                } else if status == 410 {
                    StreamErrorView::OffsetGone { offset: old(self).offset@.wire() }
                } else {
                    spec_from_status(status, old(self).stream@.url)
                })
            }),
    {
        if status == 200 {
            let next_offset = match next_offset_hdr {
                Some(h) => Offset::parse(h),
                None => self.offset.clone(),
            };
            let cursor = match cursor_hdr {
                Some(c) => Some(c.to_owned()),
                None => None,
            };
            let up_to_date = match up_to_date_hdr {
                Some(v) => str_eq(v, "true"),
                None => false,
            };
            self.offset = next_offset;
            self.cursor = clone_opt_string(&cursor);
            self.up_to_date = up_to_date;
            if up_to_date && self.live == LiveMode::Off {
                self.done = true;
            }
            Ok(
                Some(
                    Chunk {
                        data: body,
                        next_offset: self.offset.clone(),
                        up_to_date,
                        cursor,
                        status_code: Some(200),
                    },
                ),
            )
        } else if status == 204 {
            match next_offset_hdr {
                Some(h) => {
                    self.offset = Offset::parse(h);
                },
                None => {},
            }
            match cursor_hdr {
                Some(c) => {
                    self.cursor = Some(c.to_owned());
                },
                None => {},
            }
            self.up_to_date = true;
            if self.live == LiveMode::Off {
                self.done = true;
                return Ok(None);
            }
            Ok(
                Some(
                    Chunk {
                        data: Vec::new(),
                        next_offset: self.offset.clone(),
                        up_to_date: true,
                        cursor: clone_opt_string(&self.cursor),
                        status_code: Some(204),
                    },
                ),
            )
        } else if status == 304 {
            match cursor_hdr {
                Some(c) => {
                    self.cursor = Some(c.to_owned());
                },
                None => {},
            }
            Ok(
                Some(
                    Chunk {
                        data: Vec::new(),
                        next_offset: self.offset.clone(),
                        up_to_date: self.up_to_date,
                        cursor: clone_opt_string(&self.cursor),
                        status_code: Some(304),
                    },
                ),
            )
        } else if status == 404 {
            Err(StreamError::NotFound { url: self.stream.url().to_owned() })
        } else if status == 410 {
            Err(StreamError::OffsetGone { offset: self.offset.as_str().to_owned() })
        } else {
            Err(StreamError::from_status(status, self.stream.url()))
        }
    }

    /// Interpret the response to an SSE establishment. A 200 whose
    /// content type is an event stream connects; a 200 with any other
    /// content type, or a 400, downgrades the iterator to long-poll
    /// transparently; 404 and other statuses fail.
    pub fn on_sse_establish(&mut self, status: u16, content_type_hdr: Option<&str>) -> (r:
        SseEstablishStep)
        ensures
            reader_config_unchanged(*old(self), *final(self)),
            final(self).offset == old(self).offset,
            final(self).cursor == old(self).cursor,
            final(self).up_to_date == old(self).up_to_date,
            final(self).done == old(self).done,
            final(self).closed == old(self).closed,
            ({
                let event_stream = match view_opt_str(content_type_hdr) {
                    Some(ct) => spec_contains_seq(ct, "text/event-stream"@),
                    None => false,
                };
                if status == 200 && event_stream {
                    &&& r is Connected
                    &&& final(self).live == old(self).live
                    &&& final(self).sse matches Some(p) && p@.buffer.len() == 0 && p@.event_type
                        is None && p@.data_lines.len() == 0
                } else if status == 200 || status == 400 {
                    &&& r is Downgraded
                    &&& final(self).live == LiveMode::LongPoll
                    &&& final(self).sse == old(self).sse
                } else {
                    &&& final(self).live == old(self).live
                    &&& final(self).sse == old(self).sse
                    &&& r matches SseEstablishStep::Fail(e) && e@ == (if status == 404 {
                        StreamErrorView::NotFound { url: old(self).stream@.url }
                    } else {
                        spec_from_status(status, old(self).stream@.url)
                    })
                }
            }),
    {
        if status == 200 {
            let event_stream = match content_type_hdr {
                Some(ct) => str_contains(ct, "text/event-stream"),
                None => false,
            };
            if event_stream {
                self.sse = Some(SseParser::new());
                SseEstablishStep::Connected
            } else {
                self.live = LiveMode::LongPoll;
                SseEstablishStep::Downgraded
            }
        } else if status == 400 {
            self.live = LiveMode::LongPoll;
            SseEstablishStep::Downgraded
        } else if status == 404 {
            SseEstablishStep::Fail(StreamError::NotFound { url: self.stream.url().to_owned() })
        } else {
            SseEstablishStep::Fail(StreamError::from_status(status, self.stream.url()))
        }
    }

    /// Feed text that arrived on the SSE connection and surface the
    /// first chunk it completes, if any: data events yield their
    /// payload, and a caught-up control frame yields an empty marker
    /// chunk. Returns `None` when more bytes are needed.
    pub fn on_sse_bytes(&mut self, text: &str) -> (r: Option<Chunk>)
        requires
            old(self).sse is Some,
        ensures
            reader_config_unchanged(*old(self), *final(self)),
            final(self).live == old(self).live,
            final(self).closed == old(self).closed,
            final(self).done == old(self).done,
            ({
                let ps0 = old(self).sse.unwrap()@;
                let fed = SseParserView { buffer: ps0.buffer + text@, ..ps0 };
                let (st1, ps1, ch) = spec_sse_drain(old(self).read_state(), fed);
                &&& final(self).read_state() == st1
                &&& final(self).sse matches Some(p) && p@ == ps1
                &&& match (r, ch) {
                    (Some(c), Some(cv)) => c@ == cv,
                    (None, None) => true,
                    _ => false,
                }
            }),
    {
        let parser = match &mut self.sse {
            Some(p) => p,
            None => {
                return None;
            },
        };
        parser.feed(text);
        loop
            invariant
                self.sse is Some,
                reader_config_unchanged(*old(self), *self),
                self.live == old(self).live,
                self.closed == old(self).closed,
                self.done == old(self).done,
                ({
                    let ps0 = old(self).sse.unwrap()@;
                    let fed = SseParserView { buffer: ps0.buffer + text@, ..ps0 };
                    spec_sse_drain(old(self).read_state(), fed) == spec_sse_drain(
                        self.read_state(),
                        self.sse.unwrap()@,
                    )
                }),
            decreases self.sse.unwrap()@.buffer.len(),
        {
            let ghost st_top = self.read_state();
            let ghost ps_top = self.sse.unwrap()@;
            let event = {
                let parser = match &mut self.sse {
                    Some(p) => p,
                    None => {
                        return None;
                    },
                };
                parser.next()
            };
            proof {
                lemma_parser_next_consumes(ps_top);
            }
            match event {
                None => {
                    return None;
                },
                Some(ev) => {
                    match self.apply_sse_event(ev) {
                        Some(c) => {
                            return Some(c);
                        },
                        None => {},
                    }
                },
            }
        }
    }

    /// Apply one SSE event to the iterator state, per
    /// [`spec_apply_event`].
    fn apply_sse_event(&mut self, ev: SseEvent) -> (r: Option<Chunk>)
        ensures
            reader_config_unchanged(*old(self), *final(self)),
            final(self).live == old(self).live,
            final(self).closed == old(self).closed,
            final(self).done == old(self).done,
            final(self).sse == old(self).sse,
            ({
                let (st2, ch) = spec_apply_event(old(self).read_state(), ev@);
                &&& final(self).read_state() == st2
                &&& match (r, ch) {
                    (Some(c), Some(cv)) => c@ == cv,
                    (None, None) => true,
                    _ => false,
                }
            }),
    {
        match ev {
            SseEvent::Control { stream_next_offset, stream_cursor, up_to_date } => {
                self.offset = Offset::parse(stream_next_offset.as_str());
                match stream_cursor {
                    Some(c) => {
                        self.cursor = Some(c);
                    },
                    None => {},
                }
                self.up_to_date = up_to_date;
                if up_to_date {
                    Some(
                        Chunk {
                            data: Vec::new(),
                            next_offset: self.offset.clone(),
                            up_to_date: true,
                            cursor: clone_opt_string(&self.cursor),
                            status_code: Some(200),
                        },
                    )
                } else {
                    None
                }
            },
            SseEvent::Data(d) => {
                let data = d.as_str().as_bytes_vec();
                Some(
                    Chunk {
                        data,
                        next_offset: self.offset.clone(),
                        up_to_date: self.up_to_date,
                        cursor: clone_opt_string(&self.cursor),
                        status_code: Some(200),
                    },
                )
            },
        }
    }

    /// The SSE connection closed. In a live mode the iterator drops the
    /// parser and yields an empty chunk with no status, the signal to
    /// reconnect on the next call; otherwise the stream ends.
    pub fn on_sse_closed(&mut self) -> (r: Option<Chunk>)
        ensures
            reader_config_unchanged(*old(self), *final(self)),
            final(self).done == spec_flags_step(
                old(self).live == LiveMode::Off,
                (ReaderFlags { done: old(self).done, closed: old(self).closed }),
                ReadEvent::SseClose,
            ).done,
            final(self).offset == old(self).offset,
            final(self).cursor == old(self).cursor,
            final(self).up_to_date == old(self).up_to_date,
            final(self).live == old(self).live,
            final(self).closed == old(self).closed,
            final(self).sse is None,
            old(self).live != LiveMode::Off ==> final(self).done == old(self).done && (
            r matches Some(c) && c@ == (ChunkView {
                data: Seq::<u8>::empty(),
                next_offset: old(self).offset@,
                up_to_date: old(self).up_to_date,
                cursor: view_opt_string(old(self).cursor),
                status_code: None,
            })),
            old(self).live == LiveMode::Off ==> final(self).done && r is None,
    {
        self.sse = None;
        if self.live.is_live() {
            return Some(
                Chunk {
                    data: Vec::new(),
                    next_offset: self.offset.clone(),
                    up_to_date: self.up_to_date,
                    cursor: clone_opt_string(&self.cursor),
                    status_code: None,
                },
            );
        }
        self.done = true;
        None
    }
}

/// Clone an optional owned string.
fn clone_opt_string(o: &Option<String>) -> (r: Option<String>)
    ensures
        view_opt_string(r) == view_opt_string(*o),
{
    match o {
        Some(s) => Some(s.clone()),
        None => None,
    }
}

} // verus!
