//! Core value types: stream positions and live-tailing modes.

use vstd::prelude::*;
use vstd::string::*;
use crate::text::{lex_cmp_chars, str_cmp, str_eq};

verus! {

/// Mathematical model of a stream position: the sentinels, or an opaque
/// token given by its character sequence.
pub enum OffsetView {
    Beginning,
    Now,
    At(Seq<char>),
}

impl OffsetView {
    /// The wire form of this position, as sent in the `offset` query
    /// parameter: `"-1"` for the beginning, `"now"` for the tail, and the
    /// token itself otherwise.
    pub open spec fn wire(self) -> Seq<char> {
        match self {
            OffsetView::Beginning => "-1"@,
            OffsetView::Now => "now"@,
            OffsetView::At(s) => s,
        }
    }
}

/// What `Offset::parse` yields on a given wire string: `""` and `"-1"` map
/// to the beginning, `"now"` to the tail, and anything else is an opaque
/// token.
pub open spec fn spec_parse_offset(s: Seq<char>) -> OffsetView {
    if s == "-1"@ || s.len() == 0 {
        OffsetView::Beginning
    } else if s == "now"@ {
        OffsetView::Now
    } else {
        OffsetView::At(s)
    }
}

/// The partial order on positions: `At` tokens compare lexicographically,
/// `Beginning` precedes every `At`, and `Now` compares only with itself.
pub open spec fn spec_cmp_offset(a: OffsetView, b: OffsetView) -> Option<core::cmp::Ordering> {
    match (a, b) {
        (OffsetView::At(x), OffsetView::At(y)) => Some(lex_cmp_chars(x, y)),
        (OffsetView::Beginning, OffsetView::Beginning) => Some(core::cmp::Ordering::Equal),
        (OffsetView::Now, OffsetView::Now) => Some(core::cmp::Ordering::Equal),
        (OffsetView::Beginning, OffsetView::At(_)) => Some(core::cmp::Ordering::Less),
        (OffsetView::At(_), OffsetView::Beginning) => Some(core::cmp::Ordering::Greater),
        _ => None,
    }
}

/// `a` is at or after `b` in the offset order.
pub open spec fn offset_ge(a: OffsetView, b: OffsetView) -> bool {
    spec_cmp_offset(a, b) matches Some(core::cmp::Ordering::Greater | core::cmp::Ordering::Equal)
}

/// Stream position specification.
///
/// Offsets are opaque server-assigned tokens: the client never interprets
/// their structure beyond the two sentinels, and `At` tokens sort
/// lexicographically.
#[derive(Debug, Eq, Hash)]
pub enum Offset {
    /// Start from the beginning of the stream (wire form `"-1"`).
    Beginning,
    /// Start from the current tail, only future data (wire form `"now"`).
    Now,
    /// Start from a specific offset token.
    At(String),
}

impl View for Offset {
    type V = OffsetView;

    open spec fn view(&self) -> OffsetView {
        match self {
            Offset::Beginning => OffsetView::Beginning,
            Offset::Now => OffsetView::Now,
            Offset::At(s) => OffsetView::At(s@),
        }
    }
}

impl Clone for Offset {
    fn clone(&self) -> (res: Self)
        ensures
            res == *self,
    {
        match self {
            Offset::Beginning => Offset::Beginning,
            Offset::Now => Offset::Now,
            Offset::At(s) => Offset::At(s.clone()),
        }
    }
}

impl PartialEq for Offset {
    fn eq(&self, other: &Self) -> (r: bool) {
        match (self, other) {
            (Offset::Beginning, Offset::Beginning) => true,
            (Offset::Now, Offset::Now) => true,
            (Offset::At(a), Offset::At(b)) => str_eq(a.as_str(), b.as_str()),
            _ => false,
        }
    }
}

impl vstd::std_specs::cmp::PartialEqSpecImpl for Offset {
    open spec fn obeys_eq_spec() -> bool {
        true
    }

    open spec fn eq_spec(&self, other: &Self) -> bool {
        self@ == other@
    }
}

impl PartialOrd for Offset {
    fn partial_cmp(&self, other: &Self) -> (r: Option<core::cmp::Ordering>) {
        match (self, other) {
            (Offset::At(a), Offset::At(b)) => Some(str_cmp(a.as_str(), b.as_str())),
            (Offset::Beginning, Offset::Beginning) => Some(core::cmp::Ordering::Equal),
            (Offset::Now, Offset::Now) => Some(core::cmp::Ordering::Equal),
            (Offset::Beginning, Offset::At(_)) => Some(core::cmp::Ordering::Less),
            (Offset::At(_), Offset::Beginning) => Some(core::cmp::Ordering::Greater),
            _ => None,
        }
    }
}

impl vstd::std_specs::cmp::PartialOrdSpecImpl for Offset {
    open spec fn obeys_partial_cmp_spec() -> bool {
        true
    }

    open spec fn partial_cmp_spec(&self, other: &Self) -> Option<core::cmp::Ordering> {
        spec_cmp_offset(self@, other@)
    }
}

impl Offset {
    /// Create an offset at a specific position.
    pub fn at(s: &str) -> (r: Self)
        ensures
            r@ == OffsetView::At(s@),
    {
        Offset::At(s.to_owned())
    }

    /// Parse a position from its protocol string.
    pub fn parse(s: &str) -> (r: Self)
        ensures
            r@ == spec_parse_offset(s@),
    {
        if str_eq(s, "-1") {
            Offset::Beginning
        } else if s.unicode_len() == 0 {
            proof {
                assert(s@ =~= Seq::<char>::empty());
            }
            Offset::Beginning
        } else if str_eq(s, "now") {
            Offset::Now
        } else {
            Offset::At(s.to_owned())
        }
    }

    /// Convert to the `offset` query parameter value.
    pub fn to_query_value(&self) -> (r: &str)
        ensures
            r@ == self@.wire(),
    {
        match self {
            Offset::Beginning => "-1",
            Offset::Now => "now",
            Offset::At(s) => s.as_str(),
        }
    }

    /// Check if this is the beginning sentinel.
    pub fn is_beginning(&self) -> (r: bool)
        ensures
            r == (self@ is Beginning),
    {
        matches!(self, Offset::Beginning)
    }

    /// Check if this is the now sentinel.
    pub fn is_now(&self) -> (r: bool)
        ensures
            r == (self@ is Now),
    {
        matches!(self, Offset::Now)
    }

    /// The inner string value: the token for `At`, the sentinel text
    /// otherwise.
    pub fn as_str(&self) -> (r: &str)
        ensures
            r@ == self@.wire(),
    {
        match self {
            Offset::Beginning => "-1",
            Offset::Now => "now",
            Offset::At(s) => s.as_str(),
        }
    }
}

impl Default for Offset {
    fn default() -> (r: Self)
        ensures
            r@ == OffsetView::Beginning,
    {
        Offset::Beginning
    }
}

/// Parsing a wire string and rendering the result back to the wire is the
/// identity on every string the protocol produces: the two sentinels and
/// any non-empty, non-sentinel token. The empty string is the one
/// exception; it parses to `Beginning`, whose wire form is `"-1"`.
pub proof fn lemma_offset_parse_round_trip(s: Seq<char>)
    requires
        s == "-1"@ || s == "now"@ || (s.len() > 0 && s != "-1"@ && s != "now"@),
    ensures
        spec_parse_offset(s).wire() == s,
        spec_parse_offset(Seq::<char>::empty()) == OffsetView::Beginning,
{
    reveal_strlit("-1");
    reveal_strlit("now");
}

/// The offset order is reflexive: every position is at or after itself.
pub proof fn lemma_offset_ge_refl(a: OffsetView)
    ensures
        offset_ge(a, a),
{
    match a {
        OffsetView::At(x) => {
            lemma_lex_cmp_refl(x);
        },
        _ => {},
    }
}

/// The offset order is transitive on comparable positions: if `c` is at
/// or after `b`, and `b` at or after `a`, then `c` is at or after `a`.
pub proof fn lemma_offset_ge_trans(a: OffsetView, b: OffsetView, c: OffsetView)
    requires
        offset_ge(c, b),
        offset_ge(b, a),
    ensures
        offset_ge(c, a),
{
    match (a, b, c) {
        (OffsetView::At(x), OffsetView::At(y), OffsetView::At(z)) => {
            lemma_lex_cmp_trans(x, y, z);
        },
        _ => {},
    }
}

/// Lexicographic comparison of a sequence with itself is `Equal`.
proof fn lemma_lex_cmp_refl(a: Seq<char>)
    ensures
        lex_cmp_chars(a, a) == core::cmp::Ordering::Equal,
    decreases a.len(),
{
    if a.len() > 0 {
        lemma_lex_cmp_refl(a.skip(1));
    }
}

/// Lexicographic comparison is transitive in its at-or-after form.
proof fn lemma_lex_cmp_trans(x: Seq<char>, y: Seq<char>, z: Seq<char>)
    requires
        lex_cmp_chars(z, y) matches (core::cmp::Ordering::Greater | core::cmp::Ordering::Equal),
        lex_cmp_chars(y, x) matches (core::cmp::Ordering::Greater | core::cmp::Ordering::Equal),
    ensures
        lex_cmp_chars(z, x) matches (core::cmp::Ordering::Greater | core::cmp::Ordering::Equal),
    decreases x.len() + y.len() + z.len(),
{
    if y.len() == 0 {
        // x can only be empty, so z is at or after x trivially.
    } else if z.len() == 0 {
        // z at or after y forces y empty: contradiction handled above.
    } else if x.len() == 0 {
        // Nothing is below the empty sequence.
    } else {
        let cx = x[0] as u32;
        let cy = y[0] as u32;
        let cz = z[0] as u32;
        if cz == cy && cy == cx {
            lemma_lex_cmp_trans(x.skip(1), y.skip(1), z.skip(1));
        }
    }
}

/// Live tailing mode for stream consumption.
///
/// `Auto` catches up over plain reads first, then attempts SSE, falling
/// back to long-poll if the server declines the event stream.
#[derive(Debug, PartialEq, Eq, Structural)]
pub enum LiveMode {
    /// No live tailing: stop at the first caught-up signal.
    Off,
    /// Automatic selection: SSE preferred, long-poll on failure.
    Auto,
    /// Explicit long-polling for live updates.
    LongPoll,
    /// Explicit Server-Sent Events for live updates.
    Sse,
}

impl Clone for LiveMode {
    fn clone(&self) -> (res: Self)
        ensures
            res == *self,
    {
        match self {
            LiveMode::Off => LiveMode::Off,
            LiveMode::Auto => LiveMode::Auto,
            LiveMode::LongPoll => LiveMode::LongPoll,
            LiveMode::Sse => LiveMode::Sse,
        }
    }
}

/// The `live` query parameter sent for each mode: none when tailing is
/// off, `"sse"` when SSE is preferred or required, `"long-poll"` for
/// long-polling.
pub open spec fn spec_live_query(m: LiveMode) -> Option<Seq<char>> {
    match m {
        LiveMode::Off => None,
        LiveMode::Auto => Some("sse"@),
        LiveMode::LongPoll => Some("long-poll"@),
        LiveMode::Sse => Some("sse"@),
    }
}

impl LiveMode {
    /// Convert to the `live` query parameter value, if any.
    pub fn to_query_value(&self) -> (r: Option<&str>)
        ensures
            r is Some <==> spec_live_query(*self) is Some,
            r matches Some(s) ==> spec_live_query(*self) == Some(s@),
    {
        match self {
            LiveMode::Off => None,
            LiveMode::Auto => Some("sse"),
            LiveMode::LongPoll => Some("long-poll"),
            LiveMode::Sse => Some("sse"),
        }
    }

    /// Check if this mode involves live tailing.
    pub fn is_live(&self) -> (r: bool)
        ensures
            r == (*self != LiveMode::Off),
    {
        !matches!(self, LiveMode::Off)
    }
}

impl Default for LiveMode {
    fn default() -> (r: Self)
        ensures
            r == LiveMode::Off,
    {
        LiveMode::Off
    }
}

} // verus!
