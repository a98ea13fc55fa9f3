//! Responses: bodies, the future that waits for a response, and reading a
//! response's status, length and text.

use crate::headers::{header_map_entries, normalize_header_name, normalized_header_name, first_header_value, header_map_get};
use crate::request::{ClientConfig, Error, PlatformClient, unsupported_platform_message};
use vstd::prelude::*;
use vstd::string::*;

verus! {

broadcast use {vstd::seq::group_seq_axioms, vstd::seq_lib::group_seq_properties};

/// The abstract state of a [`ResponseBody`].
pub enum BodyView {
    /// A body with data, which is yielded once.
    Data(Option<Seq<u8>>),
    /// A body that fails, with an error that is yielded once.
    Failure(Option<Error>),
}

#[derive(Debug)]
enum ResponseBodyInner {
    Data { data: Option<Vec<u8>> },
    Failure { error: Option<Error> },
}

/// HTTP response body: a single chunk of data, or an error.
#[derive(Debug)]
pub struct ResponseBody {
    inner: ResponseBodyInner,
}

impl View for ResponseBody {
    type V = BodyView;

    closed spec fn view(&self) -> BodyView {
        match self.inner {
            ResponseBodyInner::Data { data } => BodyView::Data(
                match data {
                    Some(d) => Some(d@),
                    None => None,
                },
            ),
            ResponseBodyInner::Failure { error } => BodyView::Failure(error),
        }
    }
}

/// A poll for the next frame: the new state and the frame, `None` at the end.
pub open spec fn poll_frame_spec(v: BodyView) -> (BodyView, Option<Result<Seq<u8>, Error>>) {
    match v {
        BodyView::Data(Some(d)) => (BodyView::Data(None), Some(Ok(d))),
        BodyView::Data(None) => (v, None),
        BodyView::Failure(Some(e)) => (BodyView::Failure(None), Some(Err(e))),
        BodyView::Failure(None) => (v, None),
    }
}

/// The view of a polled frame.
pub open spec fn frame_view(f: Option<Result<Vec<u8>, Error>>) -> Option<Result<Seq<u8>, Error>> {
    match f {
        Some(Ok(d)) => Some(Ok(d@)),
        Some(Err(e)) => Some(Err(e)),
        None => None,
    }
}

impl ResponseBody {
    /// A body holding `data`.
    pub fn from_data(data: Vec<u8>) -> (b: Self)
        ensures
            b@ == BodyView::Data(Some(data@)),
    {
        ResponseBody { inner: ResponseBodyInner::Data { data: Some(data) } }
    }

    /// A body that fails with `error`.
    pub fn from_error(error: Error) -> (b: Self)
        ensures
            b@ == BodyView::Failure(Some(error)),
    {
        ResponseBody { inner: ResponseBodyInner::Failure { error: Some(error) } }
    }

    /// Yields the next frame: the data or the error once, then the end.
    pub fn poll_frame(&mut self) -> (f: Option<Result<Vec<u8>, Error>>)
        ensures
            (final(self)@, frame_view(f)) == poll_frame_spec(old(self)@),
    {
        match &mut self.inner {
            ResponseBodyInner::Data { data } => {
                let mut taken = None;
                core::mem::swap(&mut taken, data);
                match taken {
                    Some(bytes) => Some(Ok(bytes)),
                    None => None,
                }
            },
            ResponseBodyInner::Failure { error } => {
                let mut taken = None;
                core::mem::swap(&mut taken, error);
                match taken {
                    Some(e) => Some(Err(e)),
                    None => None,
                }
            },
        }
    }
}

/// A body yields its content in one frame and then ends for good.
pub proof fn lemma_body_yields_once(v: BodyView)
    ensures
        poll_frame_spec(poll_frame_spec(v).0).1 is None,
        poll_frame_spec(poll_frame_spec(poll_frame_spec(v).0).0).1 is None,
        v matches BodyView::Data(Some(d)) ==> poll_frame_spec(v).1 == Some(Ok::<Seq<u8>, Error>(d)),
        v matches BodyView::Failure(Some(e)) ==> poll_frame_spec(v).1 == Some(Err::<Seq<u8>, Error>(e)),
{
}

/// An HTTP response: status code, headers and body.
#[derive(Debug)]
pub struct Response {
    status: u16,
    headers: http::HeaderMap,
    body: ResponseBody,
}

impl Response {
    /// The response with the given parts.
    pub fn new(status: u16, headers: http::HeaderMap, body: ResponseBody) -> (r: Self)
        ensures
            r.spec_status() == status,
            r.spec_headers() == headers,
            r.spec_body() == body,
    {
        Response { status, headers, body }
    }

    /// The status code.
    pub closed spec fn spec_status(&self) -> u16 {
        self.status
    }

    /// The headers.
    pub closed spec fn spec_headers(&self) -> http::HeaderMap {
        self.headers
    }

    /// The body.
    pub closed spec fn spec_body(&self) -> ResponseBody {
        self.body
    }

    /// The status code.
    pub fn status(&self) -> (s: u16)
        ensures
            s == self.spec_status(),
    {
        self.status
    }

    /// The headers.
    pub fn headers(&self) -> (h: &http::HeaderMap)
        ensures
            *h == self.spec_headers(),
    {
        &self.headers
    }

    /// The body.
    pub fn into_body(self) -> (b: ResponseBody)
        ensures
            b == self.spec_body(),
    {
        self.body
    }
}

/// Where a pending response stands.
#[derive(Debug)]
pub enum ResponseState {
    /// No result yet; `waker` tells whether a task's waker is stored.
    Pending { waker: bool },
    /// The result has arrived and not been taken.
    Ready(Result<Response, Error>),
    /// The result has been returned by a poll.
    Taken,
}

/// A poll of a response that is not yet spent: the new state and the result,
/// `None` while pending.
pub open spec fn response_poll_spec(state: ResponseState) -> (ResponseState, Option<Result<Response, Error>>) {
    match state {
        ResponseState::Ready(res) => (ResponseState::Taken, Some(res)),
        _ => (ResponseState::Pending { waker: true }, None),
    }
}

/// The engine delivers `result`: the new state and whether the stored waker is woken.
pub open spec fn response_complete_spec(state: ResponseState, result: Result<Response, Error>) -> (
    ResponseState,
    bool,
) {
    (ResponseState::Ready(result), state == ResponseState::Pending { waker: true })
}

/// Future representing a pending HTTP response
#[derive(Debug)]
pub struct ResponseFuture {
    state: ResponseState,
}

impl View for ResponseFuture {
    type V = ResponseState;

    closed spec fn view(&self) -> ResponseState {
        self.state
    }
}

impl ResponseFuture {
    /// Starts `request` on the platform engine and waits for its result.
    pub(crate) fn new(
        request: http::Request<http_body_util::Full<bytes::Bytes>>,
        client: &PlatformClient,
        config: &ClientConfig,
    ) -> (f: Self)
        ensures
            f@ matches ResponseState::Ready(Err(Error::Platform(m))) && m@ == unsupported_platform_message(),
    {
        let mut future = ResponseFuture { state: ResponseState::Pending { waker: false } };
        let outcome = client.execute_request(request, config);
        if let Some(result) = outcome.delivered {
            future.complete(result);
        }
        if let Err(e) = outcome.started {
            future.state = ResponseState::Ready(Err(e));
        }
        future
    }

    /// Whether the result has already been returned; such a future must not be polled again.
    pub fn is_taken(&self) -> (b: bool)
        ensures
            b == (self@ is Taken),
    {
        match self.state {
            ResponseState::Taken => true,
            _ => false,
        }
    }

    /// Polls the future: the result once it has arrived, which is then taken;
    /// `None` while pending, and the caller stores the current waker.
    pub fn poll(&mut self) -> (r: Option<Result<Response, Error>>)
        requires
            !(old(self)@ is Taken),
        ensures
            (final(self)@, r) == response_poll_spec(old(self)@),
    {
        let mut state = ResponseState::Taken;
        core::mem::swap(&mut state, &mut self.state);
        match state {
            ResponseState::Ready(result) => Some(result),
            ResponseState::Pending { .. } => {
                self.state = ResponseState::Pending { waker: true };
                None
            },
            ResponseState::Taken => {
                proof {
                    assert(false);
                }
                None
            },
        }
    }

    /// The engine delivers `result`. Returns whether the stored waker is to be woken.
    pub fn complete(&mut self, result: Result<Response, Error>) -> (wake: bool)
        ensures
            (final(self)@, wake) == response_complete_spec(old(self)@, result),
    {
        let wake = match self.state {
            ResponseState::Pending { waker } => waker,
            _ => false,
        };
        self.state = ResponseState::Ready(result);
        wake
    }
}

/// A byte of a header value that can be read as text: visible ASCII, space or tab.
pub open spec fn visible_ascii(b: u8) -> bool {
    (32 <= b < 127) || b == 9
}

/// The number written by a sequence of decimal digits.
pub open spec fn decimal_value(digits: Seq<u8>) -> int
    decreases digits.len(),
{
    if digits.len() == 0 {
        0
    } else {
        decimal_value(digits.drop_last()) * 10 + (digits.last() - 48)
    }
}

/// Whether every byte is a decimal digit.
pub open spec fn all_digits(s: Seq<u8>) -> bool {
    forall|i: int| 0 <= i < s.len() ==> 48 <= #[trigger] s[i] <= 57
}

/// How a string parses as a `u64`: an optional `+`, then one or more decimal
/// digits whose number fits in a `u64`.
pub open spec fn parse_u64_spec(s: Seq<u8>) -> Option<u64> {
    let digits = if s.len() > 0 && s[0] == 43 { s.drop_first() } else { s };
    if digits.len() > 0 && all_digits(digits) && decimal_value(digits) <= u64::MAX {
        Some(decimal_value(digits) as u64)
    } else {
        None
    }
}

/// The content length a header value gives: its text parsed as a `u64`.
pub open spec fn content_length_spec(value: Option<Seq<u8>>) -> Option<u64> {
    match value {
        Some(v) => if forall|i: int| 0 <= i < v.len() ==> visible_ascii(#[trigger] v[i]) {
            parse_u64_spec(v)
        } else {
            None
        },
        None => None,
    }
}

proof fn lemma_decimal_value_nonneg(digits: Seq<u8>)
    requires
        all_digits(digits),
    ensures
        decimal_value(digits) >= 0,
    decreases digits.len(),
{
    if digits.len() > 0 {
        lemma_decimal_value_nonneg(digits.drop_last());
    }
}

/// A longer run of digits never writes a smaller number.
proof fn lemma_decimal_value_grows(digits: Seq<u8>, k: int)
    requires
        all_digits(digits),
        0 <= k <= digits.len(),
    ensures
        decimal_value(digits.take(k)) <= decimal_value(digits),
    decreases digits.len() - k,
{
    if k < digits.len() {
        lemma_decimal_value_grows(digits, k + 1);
        let next = digits.take(k + 1);
        assert(next.drop_last() =~= digits.take(k));
        lemma_decimal_value_nonneg(digits.take(k));
    } else {
        assert(digits.take(k) =~= digits);
    }
}

/// The content length a header value gives is the number it writes: a value
/// of one or more decimal digits, optionally after a `+`, whose number fits in
/// a `u64` gives exactly that number, zero included; an absent header, an
/// empty value or one with any other byte gives none.
pub proof fn lemma_content_length_is_the_written_number(value: Option<Seq<u8>>)
    ensures
        value is None ==> content_length_spec(value) is None,
        value matches Some(v) ==> {
            &&& v.len() > 0 && all_digits(v) && decimal_value(v) <= u64::MAX ==> content_length_spec(value)
                == Some(decimal_value(v) as u64)
            &&& v.len() > 1 && v[0] == 43 && all_digits(v.drop_first()) && decimal_value(v.drop_first())
                <= u64::MAX ==> content_length_spec(value) == Some(decimal_value(v.drop_first()) as u64)
            &&& content_length_spec(value) matches Some(n) ==> {
                let digits = if v[0] == 43 { v.drop_first() } else { v };
                &&& digits.len() > 0
                &&& all_digits(digits)
                &&& n == decimal_value(digits)
            }
        },
{
    if let Some(v) = value {
        if v.len() > 0 && all_digits(v) {
            assert(v[0] != 43);
            assert forall|i: int| 0 <= i < v.len() implies visible_ascii(#[trigger] v[i]) by {
                assert(48 <= v[i] <= 57);
            }
        }
        if v.len() > 1 && v[0] == 43 && all_digits(v.drop_first()) {
            assert forall|i: int| 0 <= i < v.len() implies visible_ascii(#[trigger] v[i]) by {
                if i > 0 {
                    assert(v[i] == v.drop_first()[i - 1]);
                }
            }
        }
        if content_length_spec(value) is Some {
            lemma_decimal_value_nonneg(if v[0] == 43 { v.drop_first() } else { v });
        }
    }
}

/// Parses a string of bytes as a `u64`, as `str::parse` does.
fn parse_u64(s: &[u8]) -> (r: Option<u64>)
    ensures
        r == parse_u64_spec(s@),
{
    let mut start: usize = 0;
    if s.len() > 0 && s[0] == 43u8 {
        start = 1;
    }
    let ghost digits = if s@.len() > 0 && s@[0] == 43 { s@.drop_first() } else { s@ };
    assert(digits =~= s@.subrange(start as int, s@.len() as int));
    if start == s.len() {
        assert(digits.len() == 0);
        assert(parse_u64_spec(s@) == None::<u64>);
        return None;
    }
    let mut value: u64 = 0;
    let mut i = start;
    while i < s.len()
        invariant
            start <= i <= s.len(),
            start < s.len(),
            digits == (if s@.len() > 0 && s@[0] == 43 { s@.drop_first() } else { s@ }),
            digits =~= s@.subrange(start as int, s@.len() as int),
            all_digits(digits.take(i - start)),
            value == decimal_value(digits.take(i - start)),
        decreases s.len() - i,
    {
        let b = s[i];
        let ghost k = i - start;
        assert(digits.take(k + 1).drop_last() =~= digits.take(k));
        assert(digits.take(k + 1).last() == b);
        if b < 48u8 || b > 57u8 {
            assert(digits[k as int] == b);
            assert(!all_digits(digits));
            assert(parse_u64_spec(s@) == None::<u64>);
            return None;
        }
        let next = match value.checked_mul(10) {
            Some(m) => m.checked_add((b - 48u8) as u64),
            None => None,
        };
        match next {
            Some(v) => {
                value = v;
            },
            None => {
                // The number does not fit: neither does the whole run of digits, if it is one
                proof {
                    assert(decimal_value(digits.take(k + 1)) > u64::MAX);
                    if all_digits(digits) {
                        lemma_decimal_value_grows(digits, k + 1);
                    }
                }
                return None;
            },
        }
        i = i + 1;
    }
    assert(digits.take(s.len() - start) =~= digits);
    Some(value)
}

/// Wrapper for HTTP response that provides reqwest-compatible methods
#[derive(Debug)]
pub struct ResponseWrapper {
    inner: Response,
}

impl ResponseWrapper {
    /// Wraps a response.
    pub fn new(response: Response) -> (w: Self)
        ensures
            w.response() == response,
    {
        ResponseWrapper { inner: response }
    }

    /// The wrapped response.
    pub closed spec fn response(&self) -> Response {
        self.inner
    }

    /// Get the status code
    pub fn status(&self) -> (s: u16)
        ensures
            s == self.response().spec_status(),
    {
        self.inner.status()
    }

    /// Get the headers
    pub fn headers(&self) -> (h: &http::HeaderMap)
        ensures
            *h == self.response().spec_headers(),
    {
        self.inner.headers()
    }

    /// Get the response URL, which this client does not track: always empty.
    pub fn url(&self) -> (u: &str)
        ensures
            u@ == ""@,
    {
        ""
    }

    /// Check if the response status indicates success: a status from 200 to 299.
    pub fn is_success(&self) -> (b: bool)
        ensures
            b == (200 <= self.response().spec_status() <= 299),
    {
        let status = self.inner.status();
        200 <= status && status <= 299
    }

    /// Get the content length: the first "content-length" header, read as text
    /// and parsed as a `u64`; `None` where it is absent or does not parse.
    pub fn content_length(&self) -> (n: Option<u64>)
        ensures
            n == content_length_spec(
                first_header_value(header_map_entries(self.response().spec_headers()), content_length_name()),
            ),
    {
        proof {
            lemma_content_length_name();
        }
        let value = match header_map_get(self.inner.headers(), "content-length") {
            Some(v) => v,
            None => return None,
        };
        let mut i: usize = 0;
        while i < value.len()
            invariant
                i <= value@.len(),
                forall|k: int| 0 <= k < i ==> visible_ascii(#[trigger] value@[k]),
                first_header_value(header_map_entries(self.response().spec_headers()), content_length_name())
                    == Some(value@),
            decreases value.len() - i,
        {
            let b = value[i];
            if !((32u8 <= b && b < 127u8) || b == 9u8) {
                assert(!visible_ascii(value@[i as int]));
                assert(!(forall|k: int| 0 <= k < value@.len() ==> visible_ascii(#[trigger] value@[k])));
                return None;
            }
            i = i + 1;
        }
        parse_u64(value.as_slice())
    }

    /// The response, to read its body.
    pub fn into_response(self) -> (r: Response)
        ensures
            r == self.response(),
    {
        self.inner
    }
}

/// The bytes of the header name "content-length".
pub open spec fn content_length_name() -> Seq<u8> {
    seq![99u8, 111u8, 110u8, 116u8, 101u8, 110u8, 116u8, 45u8, 108u8, 101u8, 110u8, 103u8, 116u8, 104u8]
}

proof fn lemma_content_length_name()
    ensures
        "content-length".spec_bytes() == content_length_name(),
        normalized_header_name(content_length_name()),
{
    reveal_strlit("content-length");
    broadcast use vstd::string::is_ascii_spec_bytes;

    assert(vstd::string::is_ascii("content-length"));
    assert("content-length".spec_bytes() =~= content_length_name());
    assert(normalize_header_name(content_length_name()) =~= content_length_name());
}

/// `String::from_utf8`: accepted exactly when the bytes are valid UTF-8.
#[verifier::external_body]
fn string_from_utf8(bytes: Vec<u8>) -> (r: Option<String>)
    ensures
        r is Some <==> vstd::utf8::valid_utf8(bytes@),
        r matches Some(s) ==> s@ == vstd::utf8::decode_utf8(bytes@),
{
    String::from_utf8(bytes).ok()
}

/// The text of a response body: its bytes decoded as UTF-8, or a platform
/// error where they are not valid UTF-8.
pub fn decode_text(bytes: Vec<u8>) -> (r: Result<String, Error>)
    ensures
        vstd::utf8::valid_utf8(bytes@) ==> (r matches Ok(s) && s@ == vstd::utf8::decode_utf8(bytes@)),
        !vstd::utf8::valid_utf8(bytes@) ==> (r matches Err(Error::Platform(m)) && m@
            == "Invalid UTF-8 in response body"@),
{
    match string_from_utf8(bytes) {
        Some(s) => Ok(s),
        None => Err(Error::Platform(String::from_str("Invalid UTF-8 in response body"))),
    }
}


/// The result the engine delivers is what the next poll returns: a task that
/// polled while the response was pending is woken by the delivery, and the
/// poll after the delivery returns the result and spends the future.
pub proof fn lemma_response_delivered_to_poll(state: ResponseState, result: Result<Response, Error>)
    requires
        state is Pending,
    ensures
        response_complete_spec(response_poll_spec(state).0, result).1,
        response_poll_spec(response_complete_spec(state, result).0) == (
            ResponseState::Taken,
            Some(result),
        ),
{
}

} // verus!
