//! Stream handle and operations: request planning, URL construction and
//! response interpretation for create, append, head and delete.
//!
//! The handle holds no connection. For each operation the verified code
//! produces an [`HttpRequestPlan`] saying exactly what to send, and
//! interprets the status code and headers that come back; the embedding
//! application only ferries those values over HTTP.

use vstd::prelude::*;
use vstd::string::*;
use crate::error::{spec_from_status, StreamError, StreamErrorView};
use crate::text::{
    spec_dec_string, spec_digits_val, spec_find_char, spec_strip_trailing, spec_u64_parsable,
    str_find_char, str_starts_with, str_strip_trailing, u64_to_string, view_opt_str,
    view_opt_string, parse_u64,
};
use crate::types::{spec_parse_offset, Offset, OffsetView};

verus! {

/// Wire name of the payload MIME type header.
pub const HEADER_CONTENT_TYPE: &'static str = "content-type";

/// Wire name of the next-readable-offset response header.
pub const HEADER_STREAM_OFFSET: &'static str = "stream-next-offset";

/// Wire name of the CDN collapsing cursor header.
pub const HEADER_STREAM_CURSOR: &'static str = "stream-cursor";

/// Wire name of the caught-up marker header.
pub const HEADER_STREAM_UP_TO_DATE: &'static str = "stream-up-to-date";

/// Wire name of the client-assigned append sequence header.
pub const HEADER_STREAM_SEQ: &'static str = "stream-seq";

/// Wire name of the stream time-to-live header.
pub const HEADER_STREAM_TTL: &'static str = "stream-ttl";

/// Wire name of the stream expiry timestamp header.
pub const HEADER_STREAM_EXPIRES: &'static str = "stream-expires-at";

/// Wire name of the entity-tag response header.
pub const HEADER_ETAG: &'static str = "etag";

/// Wire name of the entity-tag precondition header.
pub const HEADER_IF_MATCH: &'static str = "if-match";

/// Wire name of the producer identity header.
pub const HEADER_PRODUCER_ID: &'static str = "producer-id";

/// Wire name of the producer epoch header.
pub const HEADER_PRODUCER_EPOCH: &'static str = "producer-epoch";

/// Wire name of the producer sequence header.
pub const HEADER_PRODUCER_SEQ: &'static str = "producer-seq";

/// Wire name of the expected-sequence response header.
pub const HEADER_PRODUCER_EXPECTED_SEQ: &'static str = "producer-expected-seq";

/// Maximum retries for transient errors on one-shot append operations.
pub const MAX_APPEND_RETRIES: u32 = 3;

/// The content type assumed when none is configured.
pub open spec fn spec_default_content_type() -> Seq<char> {
    "application/octet-stream"@
}

/// The view of a header list: each name and value as character sequences.
pub open spec fn headers_view(h: Seq<(String, String)>) -> Seq<(Seq<char>, Seq<char>)> {
    h.map_values(|p: (String, String)| (p.0@, p.1@))
}

/// HTTP method of a planned request.
#[derive(Clone, Copy, Debug, PartialEq, Eq, Structural)]
pub enum HttpMethod {
    Put,
    Post,
    Get,
    Head,
    Delete,
}

/// One fully planned HTTP request: everything the transport needs to
/// send, computed and checked here. Client-level default headers are
/// appended by the transport.
#[derive(Debug)]
pub struct HttpRequestPlan {
    pub method: HttpMethod,
    pub url: String,
    pub headers: Vec<(String, String)>,
    pub body: Option<Vec<u8>>,
}

/// A handle to a durable stream: the fully qualified URL plus an optional
/// default content type. Lightweight and cloneable; holds no connection.
#[derive(Debug)]
pub struct DurableStream {
    url: String,
    content_type: Option<String>,
}

/// Mathematical model of a [`DurableStream`].
pub struct DurableStreamView {
    pub url: Seq<char>,
    pub content_type: Option<Seq<char>>,
}

impl View for DurableStream {
    type V = DurableStreamView;

    closed spec fn view(&self) -> DurableStreamView {
        DurableStreamView {
            url: self.url@,
            content_type: match &self.content_type {
                Some(c) => Some(c@),
                None => None,
            },
        }
    }
}

impl Clone for DurableStream {
    fn clone(&self) -> (res: Self)
        ensures
            res@ == self@,
    {
        DurableStream {
            url: self.url.clone(),
            content_type: match &self.content_type {
                Some(c) => Some(c.clone()),
                None => None,
            },
        }
    }
}

/// The URL a stream handle resolves to: absolute URLs pass through, and
/// a path is joined to the base URL with its trailing slashes removed.
pub open spec fn spec_resolve_stream_url(base: Option<Seq<char>>, url: Seq<char>) -> Seq<char> {
    if crate::text::matches_at(url, "http://"@, 0) || crate::text::matches_at(url, "https://"@, 0) {
        url
    } else {
        match base {
            Some(b) => spec_strip_trailing(b, '/') + url,
            None => url,
        }
    }
}

/// Resolve a stream URL against an optional base URL.
pub fn resolve_stream_url(base: Option<&str>, url: &str) -> (r: String)
    ensures
        r@ == spec_resolve_stream_url(view_opt_str(base), url@),
{
    if str_starts_with(url, "http://") || str_starts_with(url, "https://") {
        url.to_owned()
    } else {
        match base {
            Some(b) => {
                let mut out = str_strip_trailing(b, '/').to_owned();
                out.append(url);
                out
            },
            None => url.to_owned(),
        }
    }
}

/// The query-bearing read URL: `offset` always, then `live` and `cursor`
/// when present, joined to the stream URL with `?` or `&` according to
/// whether it already carries a query.
pub open spec fn spec_read_url(
    url: Seq<char>,
    offset: OffsetView,
    live: Option<Seq<char>>,
    cursor: Option<Seq<char>>,
) -> Seq<char> {
    url + (if spec_find_char(url, '?') is Some {
        "&"@
    } else {
        "?"@
    }) + "offset="@ + offset.wire() + (match live {
        Some(l) => "&live="@ + l,
        None => Seq::<char>::empty(),
    }) + (match cursor {
        Some(c) => "&cursor="@ + c,
        None => Seq::<char>::empty(),
    })
}

/// Options for creating a stream.
#[derive(Debug)]
pub struct CreateOptions {
    pub content_type: Option<String>,
    pub ttl_secs: Option<u64>,
    pub expires_at: Option<String>,
    pub headers: Vec<(String, String)>,
    pub initial_data: Option<Vec<u8>>,
}

impl CreateOptions {
    pub fn new() -> (r: Self)
        ensures
            r.content_type is None,
            r.ttl_secs is None,
            r.expires_at is None,
            r.headers@.len() == 0,
            r.initial_data is None,
    {
        CreateOptions {
            content_type: None,
            ttl_secs: None,
            expires_at: None,
            headers: Vec::new(),
            initial_data: None,
        }
    }

    pub fn content_type(self, ct: &str) -> (r: Self)
        ensures
            view_opt_string(r.content_type) == Some(ct@),
            r.ttl_secs == self.ttl_secs,
            r.expires_at == self.expires_at,
            r.headers == self.headers,
            r.initial_data == self.initial_data,
    {
        CreateOptions { content_type: Some(ct.to_owned()), ..self }
    }

    /// Set the stream's time to live, in whole seconds.
    pub fn ttl(self, ttl_secs: u64) -> (r: Self)
        ensures
            r.ttl_secs == Some(ttl_secs),
            r.content_type == self.content_type,
            r.expires_at == self.expires_at,
            r.headers == self.headers,
            r.initial_data == self.initial_data,
    {
        CreateOptions { ttl_secs: Some(ttl_secs), ..self }
    }

    pub fn expires_at(self, expires: &str) -> (r: Self)
        ensures
            view_opt_string(r.expires_at) == Some(expires@),
            r.content_type == self.content_type,
            r.ttl_secs == self.ttl_secs,
            r.headers == self.headers,
            r.initial_data == self.initial_data,
    {
        CreateOptions { expires_at: Some(expires.to_owned()), ..self }
    }

    pub fn header(self, key: &str, value: &str) -> (r: Self)
        ensures
            headers_view(r.headers@) == headers_view(self.headers@).push((key@, value@)),
            r.content_type == self.content_type,
            r.ttl_secs == self.ttl_secs,
            r.expires_at == self.expires_at,
            r.initial_data == self.initial_data,
    {
        let mut r = self;
        r.headers.push((key.to_owned(), value.to_owned()));
        proof {
            assert(headers_view(r.headers@) =~= headers_view(self.headers@).push((key@, value@)));
        }
        r
    }

    pub fn initial_data(self, data: Vec<u8>) -> (r: Self)
        ensures
            r.initial_data == Some(data),
            r.content_type == self.content_type,
            r.ttl_secs == self.ttl_secs,
            r.expires_at == self.expires_at,
            r.headers == self.headers,
    {
        CreateOptions { initial_data: Some(data), ..self }
    }
}

impl Default for CreateOptions {
    fn default() -> (r: Self)
        ensures
            r.content_type is None,
            r.ttl_secs is None,
            r.expires_at is None,
            r.headers@.len() == 0,
            r.initial_data is None,
    {
        CreateOptions::new()
    }
}

/// Options for appending to a stream.
#[derive(Debug)]
pub struct AppendOptions {
    pub seq: Option<String>,
    pub if_match: Option<String>,
    pub headers: Vec<(String, String)>,
}

impl AppendOptions {
    pub fn new() -> (r: Self)
        ensures
            r.seq is None,
            r.if_match is None,
            r.headers@.len() == 0,
    {
        AppendOptions { seq: None, if_match: None, headers: Vec::new() }
    }

    /// Set the client-assigned `stream-seq` token.
    pub fn seq(self, seq: &str) -> (r: Self)
        ensures
            view_opt_string(r.seq) == Some(seq@),
            r.if_match == self.if_match,
            r.headers == self.headers,
    {
        AppendOptions { seq: Some(seq.to_owned()), ..self }
    }

    /// Set the `if-match` entity-tag precondition.
    pub fn if_match(self, etag: &str) -> (r: Self)
        ensures
            view_opt_string(r.if_match) == Some(etag@),
            r.seq == self.seq,
            r.headers == self.headers,
    {
        AppendOptions { if_match: Some(etag.to_owned()), ..self }
    }

    pub fn header(self, key: &str, value: &str) -> (r: Self)
        ensures
            headers_view(r.headers@) == headers_view(self.headers@).push((key@, value@)),
            r.seq == self.seq,
            r.if_match == self.if_match,
    {
        let mut r = self;
        r.headers.push((key.to_owned(), value.to_owned()));
        proof {
            assert(headers_view(r.headers@) =~= headers_view(self.headers@).push((key@, value@)));
        }
        r
    }
}

impl Default for AppendOptions {
    fn default() -> (r: Self)
        ensures
            r.seq is None,
            r.if_match is None,
            r.headers@.len() == 0,
    {
        AppendOptions::new()
    }
}

/// Options for a HEAD request.
#[derive(Debug)]
pub struct HeadOptions {
    pub headers: Vec<(String, String)>,
}

impl HeadOptions {
    pub fn new() -> (r: Self)
        ensures
            r.headers@.len() == 0,
    {
        HeadOptions { headers: Vec::new() }
    }

    pub fn header(self, key: &str, value: &str) -> (r: Self)
        ensures
            headers_view(r.headers@) == headers_view(self.headers@).push((key@, value@)),
    {
        let mut r = self;
        r.headers.push((key.to_owned(), value.to_owned()));
        proof {
            assert(headers_view(r.headers@) =~= headers_view(self.headers@).push((key@, value@)));
        }
        r
    }
}

impl Default for HeadOptions {
    fn default() -> (r: Self)
        ensures
            r.headers@.len() == 0,
    {
        HeadOptions::new()
    }
}

/// Options for a DELETE request.
#[derive(Debug)]
pub struct DeleteOptions {
    pub headers: Vec<(String, String)>,
}

impl DeleteOptions {
    pub fn new() -> (r: Self)
        ensures
            r.headers@.len() == 0,
    {
        DeleteOptions { headers: Vec::new() }
    }

    pub fn header(self, key: &str, value: &str) -> (r: Self)
        ensures
            headers_view(r.headers@) == headers_view(self.headers@).push((key@, value@)),
    {
        let mut r = self;
        r.headers.push((key.to_owned(), value.to_owned()));
        proof {
            assert(headers_view(r.headers@) =~= headers_view(self.headers@).push((key@, value@)));
        }
        r
    }
}

impl Default for DeleteOptions {
    fn default() -> (r: Self)
        ensures
            r.headers@.len() == 0,
    {
        DeleteOptions::new()
    }
}

/// Response from an append operation.
#[derive(Debug)]
pub struct AppendResponse {
    pub next_offset: Offset,
    pub etag: Option<String>,
}

/// Response from a HEAD operation. The time to live is reported in whole
/// seconds, as the wire carries it.
#[derive(Debug)]
pub struct HeadResponse {
    pub next_offset: Offset,
    pub content_type: Option<String>,
    pub ttl_secs: Option<u64>,
    pub expires_at: Option<String>,
    pub etag: Option<String>,
}

/// What the bounded one-shot append retry loop should do after one
/// response: finish, retry a transient failure, or fail for good.
#[derive(Debug)]
pub enum AppendStep {
    Done(AppendResponse),
    Retry(StreamError),
    Fail(StreamError),
}

/// The headers of a planned create request: the resolved content type,
/// the optional expiry headers, then the caller's extra headers.
pub open spec fn spec_create_headers(
    content_type: Option<Seq<char>>,
    ttl_secs: Option<u64>,
    expires_at: Option<Seq<char>>,
    extra: Seq<(Seq<char>, Seq<char>)>,
) -> Seq<(Seq<char>, Seq<char>)> {
    seq![
        (
            "content-type"@,
            match content_type {
                Some(c) => c,
                None => spec_default_content_type(),
            },
        ),
    ] + (match ttl_secs {
        Some(t) => seq![("stream-ttl"@, spec_dec_string(t as nat))],
        None => Seq::<(Seq<char>, Seq<char>)>::empty(),
    }) + (match expires_at {
        Some(e) => seq![("stream-expires-at"@, e)],
        None => Seq::<(Seq<char>, Seq<char>)>::empty(),
    }) + extra
}

/// The headers of a planned append request: the resolved content type,
/// the optional sequence and precondition headers, then the caller's
/// extra headers.
pub open spec fn spec_append_headers(
    content_type: Option<Seq<char>>,
    seq_token: Option<Seq<char>>,
    if_match: Option<Seq<char>>,
    extra: Seq<(Seq<char>, Seq<char>)>,
) -> Seq<(Seq<char>, Seq<char>)> {
    seq![
        (
            "content-type"@,
            match content_type {
                Some(c) => c,
                None => spec_default_content_type(),
            },
        ),
    ] + (match seq_token {
        Some(t) => seq![("stream-seq"@, t)],
        None => Seq::<(Seq<char>, Seq<char>)>::empty(),
    }) + (match if_match {
        Some(e) => seq![("if-match"@, e)],
        None => Seq::<(Seq<char>, Seq<char>)>::empty(),
    }) + extra
}

impl DurableStream {
    /// Create a handle for a fully resolved stream URL, with no default
    /// content type.
    pub fn new(url: String) -> (r: Self)
        ensures
            r@.url == url@,
            r@.content_type is None,
    {
        DurableStream { url, content_type: None }
    }

    /// Get the stream URL.
    pub fn url(&self) -> (r: &str)
        ensures
            r@ == self@.url,
    {
        self.url.as_str()
    }

    /// Get the content type set on this stream handle. It is the default
    /// for append operations and drives the producer's JSON-mode
    /// detection; it is never populated from the server.
    pub fn content_type(&self) -> (r: Option<&str>)
        ensures
            view_opt_str(r) == self@.content_type,
    {
        match &self.content_type {
            Some(c) => Some(c.as_str()),
            None => None,
        }
    }

    /// Set the content type for this stream handle.
    pub fn set_content_type(&mut self, ct: &str)
        ensures
            final(self)@.url == old(self)@.url,
            final(self)@.content_type == Some(ct@),
    {
        self.content_type = Some(ct.to_owned());
    }

    /// Plan the idempotent PUT that creates the stream.
    pub fn create_plan(&self, options: CreateOptions) -> (r: HttpRequestPlan)
        ensures
            r.method == HttpMethod::Put,
            r.url@ == self@.url,
            headers_view(r.headers@) == spec_create_headers(
                view_opt_string(options.content_type),
                options.ttl_secs,
                view_opt_string(options.expires_at),
                headers_view(options.headers@),
            ),
            match (&r.body, &options.initial_data) {
                (Some(b), Some(d)) => b@ == d@,
                (None, None) => true,
                _ => false,
            },
    {
        let ghost opts = options;
        let mut headers: Vec<(String, String)> = Vec::new();
        let ct = match options.content_type {
            Some(c) => c,
            None => String::from_str("application/octet-stream"),
        };
        headers.push((String::from_str("content-type"), ct));
        match options.ttl_secs {
            Some(t) => {
                headers.push((String::from_str("stream-ttl"), u64_to_string(t)));
            },
            None => {},
        }
        match options.expires_at {
            Some(e) => {
                headers.push((String::from_str("stream-expires-at"), e));
            },
            None => {},
        }
        let mut extra = options.headers;
        headers.append(&mut extra);
        proof {
            assert(headers_view(headers@) =~= spec_create_headers(
                view_opt_string(opts.content_type),
                opts.ttl_secs,
                view_opt_string(opts.expires_at),
                headers_view(opts.headers@),
            ));
        }
        HttpRequestPlan {
            method: HttpMethod::Put,
            url: self.url.clone(),
            headers,
            body: options.initial_data,
        }
    }

    /// What a create response means: 200, 201 and 204 are success, 409 is
    /// a configuration conflict, anything else maps through the status
    /// taxonomy.
    pub fn interpret_create_response(&self, status: u16) -> (r: Result<(), StreamError>)
        ensures
            match r {
                Ok(()) => status == 200 || status == 201 || status == 204,
                Err(e) => if status == 409 {
                    e@ == StreamErrorView::Conflict
                } else {
                    status != 200 && status != 201 && status != 204 && e@ == spec_from_status(
                        status,
                        self@.url,
                    )
                },
            },
    {
        if status == 200 || status == 201 || status == 204 {
            Ok(())
        } else if status == 409 {
            Err(StreamError::Conflict)
        } else {
            Err(StreamError::from_status(status, self.url.as_str()))
        }
    }

    /// Plan the POST for a one-shot append. An empty body is rejected
    /// locally — no request is sent for it.
    pub fn append_plan(&self, data: Vec<u8>, options: AppendOptions) -> (r: Result<
        HttpRequestPlan,
        StreamError,
    >)
        ensures
            data@.len() == 0 ==> (r matches Err(e) && e@ == StreamErrorView::EmptyAppend),
            data@.len() > 0 ==> (r matches Ok(p) && {
                &&& p.method == HttpMethod::Post
                &&& p.url@ == self@.url
                &&& headers_view(p.headers@) == spec_append_headers(
                    self@.content_type,
                    view_opt_string(options.seq),
                    view_opt_string(options.if_match),
                    headers_view(options.headers@),
                )
                &&& p.body matches Some(b) && b@ == data@
            }),
    {
        if data.len() == 0 {
            return Err(StreamError::EmptyAppend);
        }
        let ghost opts = options;
        let mut headers: Vec<(String, String)> = Vec::new();
        let ct = match &self.content_type {
            Some(c) => c.clone(),
            None => String::from_str("application/octet-stream"),
        };
        headers.push((String::from_str("content-type"), ct));
        match options.seq {
            Some(t) => {
                headers.push((String::from_str("stream-seq"), t));
            },
            None => {},
        }
        match options.if_match {
            Some(e) => {
                headers.push((String::from_str("if-match"), e));
            },
            None => {},
        }
        let mut extra = options.headers;
        headers.append(&mut extra);
        proof {
            assert(headers_view(headers@) =~= spec_append_headers(
                self@.content_type,
                view_opt_string(opts.seq),
                view_opt_string(opts.if_match),
                headers_view(opts.headers@),
            ));
        }
        Ok(
            HttpRequestPlan {
                method: HttpMethod::Post,
                url: self.url.clone(),
                headers,
                body: Some(data),
            },
        )
    }

    /// What an append response means: 200 and 204 succeed, carrying the
    /// new offset (missing header means `Beginning`) and the entity tag;
    /// 404 and 409 fail for good; 429 and the transient 5xx statuses are
    /// retried; everything else fails through the status taxonomy.
    pub fn interpret_append_response(
        &self,
        status: u16,
        next_offset_hdr: Option<&str>,
        etag_hdr: Option<&str>,
    ) -> (r: AppendStep)
        ensures
            (status == 200 || status == 204) ==> (r matches AppendStep::Done(a) && {
                &&& a.next_offset@ == (match view_opt_str(next_offset_hdr) {
                    Some(h) => spec_parse_offset(h),
                    None => OffsetView::Beginning,
                })
                &&& view_opt_string(a.etag) == view_opt_str(etag_hdr)
            }),
            status == 404 ==> (r matches AppendStep::Fail(e) && e@ == (StreamErrorView::NotFound {
                url: self@.url,
            })),
            status == 409 ==> (r matches AppendStep::Fail(e) && e@ == StreamErrorView::SeqConflict),
            (status == 429 || status == 500 || status == 502 || status == 503 || status == 504)
                ==> (r matches AppendStep::Retry(e) && e@ == spec_from_status(status, self@.url)),
            !(status == 200 || status == 204 || status == 404 || status == 409 || status == 429
                || status == 500 || status == 502 || status == 503 || status == 504) ==> (
            r matches AppendStep::Fail(e) && e@ == spec_from_status(status, self@.url)),
    {
        if status == 200 || status == 204 {
            let next_offset = match next_offset_hdr {
                Some(h) => Offset::parse(h),
                None => Offset::Beginning,
            };
            let etag = match etag_hdr {
                Some(e) => Some(e.to_owned()),
                None => None,
            };
            AppendStep::Done(AppendResponse { next_offset, etag })
        } else if status == 404 {
            AppendStep::Fail(StreamError::NotFound { url: self.url.clone() })
        } else if status == 409 {
            AppendStep::Fail(StreamError::SeqConflict)
        } else if status == 429 || status == 500 || status == 502 || status == 503 || status == 504 {
            AppendStep::Retry(StreamError::from_status(status, self.url.as_str()))
        } else {
            AppendStep::Fail(StreamError::from_status(status, self.url.as_str()))
        }
    }

    /// What a head response means: 200 yields the stream metadata parsed
    /// from its headers, 404 is not-found, anything else maps through the
    /// status taxonomy.
    pub fn interpret_head_response(
        &self,
        status: u16,
        next_offset_hdr: Option<&str>,
        content_type_hdr: Option<&str>,
        ttl_hdr: Option<&str>,
        expires_hdr: Option<&str>,
        etag_hdr: Option<&str>,
    ) -> (r: Result<HeadResponse, StreamError>)
        ensures
            status == 200 ==> (r matches Ok(h) && {
                &&& h.next_offset@ == (match view_opt_str(next_offset_hdr) {
                    Some(v) => spec_parse_offset(v),
                    None => OffsetView::Beginning,
                })
                &&& view_opt_string(h.content_type) == view_opt_str(content_type_hdr)
                &&& h.ttl_secs == (match view_opt_str(ttl_hdr) {
                    Some(v) => if spec_u64_parsable(v) {
                        Some(spec_digits_val(v) as u64)
                    } else {
                        None
                    },
                    None => None,
                })
                &&& view_opt_string(h.expires_at) == view_opt_str(expires_hdr)
                &&& view_opt_string(h.etag) == view_opt_str(etag_hdr)
            }),
            status == 404 ==> (r matches Err(e) && e@ == (StreamErrorView::NotFound {
                url: self@.url,
            })),
            !(status == 200 || status == 404) ==> (r matches Err(e) && e@ == spec_from_status(
                status,
                self@.url,
            )),
    {
        if status == 200 {
            let next_offset = match next_offset_hdr {
                Some(h) => Offset::parse(h),
                None => Offset::Beginning,
            };
            let content_type = match content_type_hdr {
                Some(c) => Some(c.to_owned()),
                None => None,
            };
            let ttl_secs = match ttl_hdr {
                Some(t) => parse_u64(t),
                None => None,
            };
            let expires_at = match expires_hdr {
                Some(e) => Some(e.to_owned()),
                None => None,
            };
            let etag = match etag_hdr {
                Some(e) => Some(e.to_owned()),
                None => None,
            };
            Ok(HeadResponse { next_offset, content_type, ttl_secs, expires_at, etag })
        } else if status == 404 {
            Err(StreamError::NotFound { url: self.url.clone() })
        } else {
            Err(StreamError::from_status(status, self.url.as_str()))
        }
    }

    /// What a delete response means: 200 and 204 succeed, 404 is
    /// not-found, anything else maps through the status taxonomy.
    pub fn interpret_delete_response(&self, status: u16) -> (r: Result<(), StreamError>)
        ensures
            match r {
                Ok(()) => status == 200 || status == 204,
                Err(e) => if status == 404 {
                    &&& status != 200 && status != 204
                    &&& e@ == (StreamErrorView::NotFound { url: self@.url })
                } else {
                    status != 200 && status != 204 && e@ == spec_from_status(status, self@.url)
                },
            },
    {
        if status == 200 || status == 204 {
            Ok(())
        } else if status == 404 {
            Err(StreamError::NotFound { url: self.url.clone() })
        } else {
            Err(StreamError::from_status(status, self.url.as_str()))
        }
    }

    /// Build a read URL with `offset`, `live` and `cursor` query
    /// parameters.
    pub fn build_read_url(&self, offset: &Offset, live: Option<&str>, cursor: Option<&str>) -> (r:
        String)
        ensures
            r@ == spec_read_url(self@.url, offset@, view_opt_str(live), view_opt_str(cursor)),
    {
        let mut url = self.url.clone();
        if str_find_char(self.url.as_str(), '?').is_some() {
            url.append("&");
        } else {
            url.append("?");
        }
        url.append("offset=");
        url.append(offset.to_query_value());
        match live {
            Some(l) => {
                url.append("&live=");
                url.append(l);
            },
            None => {},
        }
        match cursor {
            Some(c) => {
                url.append("&cursor=");
                url.append(c);
            },
            None => {},
        }
        proof {
            assert(url@ =~= spec_read_url(
                self@.url,
                offset@,
                view_opt_str(live),
                view_opt_str(cursor),
            ));
        }
        url
    }
}

/// The delay before one-shot append retry `attempt` (1-based): 100, 200
/// then 400 milliseconds.
pub fn append_backoff_ms(attempt: u32) -> (r: u64)
    requires
        1 <= attempt <= MAX_APPEND_RETRIES,
    ensures
        attempt == 1 ==> r == 100,
        attempt == 2 ==> r == 200,
        attempt == 3 ==> r == 400,
{
    if attempt == 1 {
        100
    } else if attempt == 2 {
        200
    } else {
        400
    }
}

} // verus!
