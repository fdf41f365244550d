//! Server-Sent Events (SSE) parser.
//!
//! The parser is a pure state machine over text: the embedding
//! application feeds it whatever bytes arrive from the connection, decoded
//! to text, and pulls complete events out. Reconnection is trivial —
//! discard the parser and start a fresh one.

use vstd::prelude::*;
use vstd::string::*;
use crate::text::{
    matches_at, spec_find_char, spec_strip_trailing, str_eq, str_find_char, str_starts_with,
    str_strip_trailing,
};

verus! {

/// The fields of a decoded `control` event body, before defaults are
/// applied: each is present only if the JSON object carries it with the
/// right type.
pub struct ControlFrame {
    pub offset: Option<String>,
    pub cursor: Option<String>,
    pub up_to_date: Option<bool>,
}

/// Mathematical model of a [`ControlFrame`].
pub struct ControlFrameView {
    pub offset: Option<Seq<char>>,
    pub cursor: Option<Seq<char>>,
    pub up_to_date: Option<bool>,
}

impl View for ControlFrame {
    type V = ControlFrameView;

    open spec fn view(&self) -> ControlFrameView {
        ControlFrameView {
            offset: match &self.offset {
                Some(s) => Some(s@),
                None => None,
            },
            cursor: match &self.cursor {
                Some(s) => Some(s@),
                None => None,
            },
            up_to_date: self.up_to_date,
        }
    }
}

/// What decoding a `control` event body yields: `None` when the text is
/// not valid JSON, otherwise the three recognised fields, each present
/// exactly when the JSON object holds it with a string (respectively
/// boolean) value.
pub uninterp spec fn spec_control_json(s: Seq<char>) -> Option<ControlFrameView>;

/// Relies on serde_json::from_str, and on serde_json::Value::get,
/// Value::as_str and Value::as_bool, to decode a control event body;
/// the result is a function of the input text alone.
#[verifier::external_body]
fn control_json_fields(s: &str) -> (r: Option<ControlFrame>)
    ensures
        r matches Some(f) ==> spec_control_json(s@) == Some(f@),
        r is None ==> spec_control_json(s@) is None,
{
    let v: serde_json::Value = match serde_json::from_str(s) {
        Ok(v) => v,
        Err(_) => return None,
    };
    Some(ControlFrame {
        offset: v.get("streamNextOffset").and_then(|x| x.as_str()).map(|x| x.to_string()),
        cursor: v.get("streamCursor").and_then(|x| x.as_str()).map(|x| x.to_string()),
        up_to_date: v.get("upToDate").and_then(|x| x.as_bool()),
    })
}

/// Mathematical model of an [`SseEvent`].
pub enum SseEventView {
    Data(Seq<char>),
    Control { stream_next_offset: Seq<char>, stream_cursor: Option<Seq<char>>, up_to_date: bool },
}

/// SSE event types.
#[derive(Debug)]
pub enum SseEvent {
    /// Data event with payload.
    Data(String),
    /// Control event with metadata.
    Control { stream_next_offset: String, stream_cursor: Option<String>, up_to_date: bool },
}

impl View for SseEvent {
    type V = SseEventView;

    open spec fn view(&self) -> SseEventView {
        match self {
            SseEvent::Data(s) => SseEventView::Data(s@),
            SseEvent::Control { stream_next_offset, stream_cursor, up_to_date } => {
                SseEventView::Control {
                    stream_next_offset: stream_next_offset@,
                    stream_cursor: match stream_cursor {
                        Some(s) => Some(s@),
                        None => None,
                    },
                    up_to_date: *up_to_date,
                }
            },
        }
    }
}

/// Mathematical model of the parser state.
#[verifier::ext_equal]
pub struct SseParserView {
    pub buffer: Seq<char>,
    pub event_type: Option<Seq<char>>,
    pub data_lines: Seq<Seq<char>>,
}

/// A field value with one leading space removed, per the event-stream
/// framing rules.
pub open spec fn spec_strip_one_space(s: Seq<char>) -> Seq<char> {
    if s.len() > 0 && s[0] == ' ' {
        s.skip(1)
    } else {
        s
    }
}

/// Data lines of one event joined with `'\n'`.
pub open spec fn spec_join_lines(ls: Seq<Seq<char>>) -> Seq<char>
    decreases ls.len(),
{
    if ls.len() == 0 {
        Seq::<char>::empty()
    } else if ls.len() == 1 {
        ls[0]
    } else {
        ls[0] + seq!['\n'] + spec_join_lines(ls.skip(1))
    }
}

/// The event dispatched when an empty line ends an event: nothing without
/// data lines; for a `control` event the decoded fields with their
/// defaults (empty offset, absent cursor, not up to date), or nothing if
/// the body is not JSON; a data event with the joined payload otherwise.
pub open spec fn spec_dispatch(
    event_type: Option<Seq<char>>,
    data_lines: Seq<Seq<char>>,
) -> Option<SseEventView> {
    if data_lines.len() == 0 {
        None
    } else {
        let data = spec_join_lines(data_lines);
        if event_type == Some("control"@) {
            match spec_control_json(data) {
                Some(f) => Some(
                    SseEventView::Control {
                        stream_next_offset: match f.offset {
                            Some(o) => o,
                            None => Seq::<char>::empty(),
                        },
                        stream_cursor: f.cursor,
                        up_to_date: match f.up_to_date {
                            Some(b) => b,
                            None => false,
                        },
                    },
                ),
                None => None,
            }
        } else {
            Some(SseEventView::Data(data))
        }
    }
}

/// The parser state after reading one non-empty line: `event:` sets the
/// event type, `data:` appends a data line, and any other field is
/// ignored.
pub open spec fn spec_apply_field(st: SseParserView, line: Seq<char>) -> SseParserView {
    if matches_at(line, "event:"@, 0) {
        SseParserView {
            event_type: Some(spec_strip_one_space(line.skip(6))),
            ..st
        }
    } else if matches_at(line, "data:"@, 0) {
        SseParserView {
            data_lines: st.data_lines.push(spec_strip_one_space(line.skip(5))),
            ..st
        }
    } else {
        st
    }
}

/// The reference semantics of [`SseParser::next`]: consume complete lines
/// from the buffer (terminated by `'\n'`, trailing `'\r'` stripped),
/// dispatching at each empty line, until an event is produced or no
/// complete line remains.
pub open spec fn spec_parser_next(st: SseParserView) -> (SseParserView, Option<SseEventView>)
    decreases st.buffer.len(),
    via spec_parser_next_decreases
{
    match spec_find_char(st.buffer, '\n') {
        None => (st, None),
        Some(i) => {
            let line = spec_strip_trailing(st.buffer.take(i), '\r');
            let rest = st.buffer.skip(i + 1);
            if line.len() == 0 {
                let ev = spec_dispatch(st.event_type, st.data_lines);
                let st2 = SseParserView {
                    buffer: rest,
                    event_type: None,
                    data_lines: Seq::<Seq<char>>::empty(),
                };
                if ev is Some {
                    (st2, ev)
                } else {
                    spec_parser_next(st2)
                }
            } else {
                let st2 = spec_apply_field(
                    SseParserView { buffer: rest, ..st },
                    line,
                );
                spec_parser_next(st2)
            }
        },
    }
}

#[via_fn]
proof fn spec_parser_next_decreases(st: SseParserView) {
    crate::text::lemma_find_char(st.buffer, '\n');
}

/// SSE parser for reading event streams.
///
/// Feed it the text arriving on the connection with [`SseParser::feed`]
/// and pull complete events with [`SseParser::next`].
#[derive(Debug)]
pub struct SseParser {
    buffer: String,
    event_type: Option<String>,
    data_lines: Vec<String>,
}

impl View for SseParser {
    type V = SseParserView;

    closed spec fn view(&self) -> SseParserView {
        SseParserView {
            buffer: self.buffer@,
            event_type: match &self.event_type {
                Some(s) => Some(s@),
                None => None,
            },
            data_lines: self.data_lines.deep_view(),
        }
    }
}

/// Joining after appending one more line appends a separator and the
/// line, except that the first line needs no separator.
proof fn lemma_join_lines_push(ls: Seq<Seq<char>>, x: Seq<char>)
    ensures
        spec_join_lines(ls.push(x)) == if ls.len() == 0 {
            x
        } else {
            spec_join_lines(ls) + seq!['\n'] + x
        },
    decreases ls.len(),
{
    if ls.len() == 0 {
        assert(ls.push(x)[0] =~= x);
        assert(ls.push(x).len() == 1);
    } else {
        assert(ls.push(x).skip(1) =~= ls.skip(1).push(x));
        lemma_join_lines_push(ls.skip(1), x);
        if ls.len() == 1 {
            assert(spec_join_lines(ls) == ls[0]);
            assert(ls.push(x)[0] == ls[0]);
        } else {
            assert(ls.push(x)[0] == ls[0]);
        }
    }
}

impl SseParser {
    /// Create a new SSE parser with nothing buffered.
    pub fn new() -> (r: Self)
        ensures
            r@.buffer.len() == 0,
            r@.event_type is None,
            r@.data_lines.len() == 0,
    {
        SseParser { buffer: String::new(), event_type: None, data_lines: Vec::new() }
    }

    /// Feed text that arrived on the connection into the parser.
    pub fn feed(&mut self, input: &str)
        ensures
            final(self)@ == (SseParserView {
                buffer: old(self)@.buffer + input@,
                ..old(self)@
            }),
    {
        self.buffer.append(input);
    }

    /// Read the next SSE event out of the buffered text, or return `None`
    /// when no complete event is buffered yet.
    pub fn next(&mut self) -> (r: Option<SseEvent>)
        ensures
            final(self)@ == spec_parser_next(old(self)@).0,
            match (r, spec_parser_next(old(self)@).1) {
                (Some(e), Some(v)) => e@ == v,
                (None, None) => true,
                _ => false,
            },
    {
        loop
            invariant
                spec_parser_next(old(self)@) == spec_parser_next(self@),
            decreases self@.buffer.len(),
        {
            let ghost st_top = self@;
            let nl = match str_find_char(self.buffer.as_str(), '\n') {
                Some(i) => i,
                None => {
                    return None;
                },
            };
            proof {
                crate::text::lemma_find_char(st_top.buffer, '\n');
            }
            let buffer_len = self.buffer.as_str().unicode_len();
            let line_raw = self.buffer.as_str().substring_char(0, nl);
            let line = str_strip_trailing(line_raw, '\r').to_owned();
            let rest = self.buffer.as_str().substring_char(nl + 1, buffer_len).to_owned();
            proof {
                assert(self@.buffer.skip(nl + 1) =~= self@.buffer.subrange(
                    nl + 1,
                    self@.buffer.len() as int,
                ));
                assert(self@.buffer.take(nl as int) =~= self@.buffer.subrange(0, nl as int));
            }
            self.buffer = rest;
            if line.as_str().unicode_len() == 0 {
                // An empty line dispatches the accumulated event.
                let had_data = self.data_lines.len() > 0;
                let is_control = match &self.event_type {
                    Some(t) => str_eq(t.as_str(), "control"),
                    None => false,
                };
                self.event_type = None;
                proof {
                    assert(spec_parser_next(st_top) == if spec_dispatch(
                        st_top.event_type,
                        st_top.data_lines,
                    ) is Some {
                        (
                            SseParserView {
                                buffer: st_top.buffer.skip(nl + 1),
                                event_type: None,
                                data_lines: Seq::<Seq<char>>::empty(),
                            },
                            spec_dispatch(st_top.event_type, st_top.data_lines),
                        )
                    } else {
                        spec_parser_next(
                            SseParserView {
                                buffer: st_top.buffer.skip(nl + 1),
                                event_type: None,
                                data_lines: Seq::<Seq<char>>::empty(),
                            },
                        )
                    });
                }
                if had_data {
                    let data = self.join_data();
                    self.data_lines = Vec::new();
                    proof {
                        assert(self@ =~= (SseParserView {
                            buffer: st_top.buffer.skip(nl + 1),
                            event_type: None,
                            data_lines: Seq::<Seq<char>>::empty(),
                        }));
                    }
                    if is_control {
                        match control_json_fields(data.as_str()) {
                            Some(frame) => {
                                let stream_next_offset = match frame.offset {
                                    Some(o) => o,
                                    None => String::new(),
                                };
                                let up_to_date = match frame.up_to_date {
                                    Some(b) => b,
                                    None => false,
                                };
                                return Some(
                                    SseEvent::Control {
                                        stream_next_offset,
                                        stream_cursor: frame.cursor,
                                        up_to_date,
                                    },
                                );
                            },
                            None => {
                                // Not valid JSON: drop the event and keep parsing.
                            },
                        }
                    } else {
                        return Some(SseEvent::Data(data));
                    }
                } else {
                    self.data_lines = Vec::new();
                    proof {
                        assert(self@ =~= (SseParserView {
                            buffer: st_top.buffer.skip(nl + 1),
                            event_type: None,
                            data_lines: Seq::<Seq<char>>::empty(),
                        }));
                    }
                }
            } else {
                // A field line updates the pending event.
                if str_starts_with(line.as_str(), "event:") {
                    proof {
                        reveal_strlit("event:");
                    }
                    let line_len = line.as_str().unicode_len();
                    let value = Self::strip_one_space(line.as_str().substring_char(6, line_len));
                    proof {
                        assert(line@.subrange(6, line@.len() as int) =~= line@.skip(6));
                    }
                    self.event_type = Some(value);
                } else if str_starts_with(line.as_str(), "data:") {
                    proof {
                        reveal_strlit("data:");
                    }
                    let line_len = line.as_str().unicode_len();
                    let value = Self::strip_one_space(line.as_str().substring_char(5, line_len));
                    proof {
                        assert(line@.subrange(5, line@.len() as int) =~= line@.skip(5));
                    }
                    self.data_lines.push(value);
                    proof {
                        assert(self@.data_lines =~= st_top.data_lines.push(value@));
                    }
                }
                // Other fields (id:, retry:, comments starting with ':')
                // are ignored.
                proof {
                    assert(self@ =~= spec_apply_field(
                        SseParserView { buffer: st_top.buffer.skip(nl + 1), ..st_top },
                        line@,
                    ));
                }
            }
        }
    }

    /// One leading space of a field value removed.
    fn strip_one_space(s: &str) -> (r: String)
        ensures
            r@ == spec_strip_one_space(s@),
    {
        let len = s.unicode_len();
        if len > 0 && s.get_char(0) == ' ' {
            proof {
                assert(s@.subrange(1, s@.len() as int) =~= s@.skip(1));
            }
            s.substring_char(1, len).to_owned()
        } else {
            s.to_owned()
        }
    }

    /// The pending data lines joined with `'\n'`.
    fn join_data(&self) -> (r: String)
        ensures
            r@ == spec_join_lines(self@.data_lines),
    {
        let mut out = String::new();
        let mut k: usize = 0;
        proof {
            assert(self@.data_lines.take(0) =~= Seq::<Seq<char>>::empty());
        }
        while k < self.data_lines.len()
            invariant
                k <= self.data_lines.len(),
                self@.data_lines.len() == self.data_lines.len(),
                out@ == spec_join_lines(self@.data_lines.take(k as int)),
            decreases self.data_lines.len() - k,
        {
            if k > 0 {
                out.append("\n");
                proof {
                    reveal_strlit("\n");
                }
            }
            out.append(self.data_lines[k].as_str());
            proof {
                assert(self@.data_lines.take(k + 1) =~= self@.data_lines.take(k as int).push(
                    self@.data_lines[k as int],
                ));
                lemma_join_lines_push(self@.data_lines.take(k as int), self@.data_lines[k as int]);
                if k == 0 {
                    assert(out@ =~= spec_join_lines(self@.data_lines.take(k + 1)));
                } else {
                    assert(out@ =~= spec_join_lines(self@.data_lines.take(k + 1)));
                }
            }
            k += 1;
        }
        proof {
            assert(self@.data_lines.take(self.data_lines.len() as int) =~= self@.data_lines);
        }
        out
    }
}

} // verus!
