//! An HTTP client front end: client configuration, request building, and the
//! headers a client adds to each request.
//!
//! Networking itself is platform work: the caller turns a prepared request
//! into an `http::Request`, hands it to [`Client::dispatch`], and drives the
//! returned [`ResponseFuture`].

use crate::headers::{HEADER_MAP_ROOM, header_char, header_map_entries, header_value_byte, valid_header_value, valid_header_name, normalize_header_name, normalized_header_name, header_pairs_view, has_header_name, header_map_new, header_map_clone, header_map_iter, header_map_contains_key, header_map_contains_key_of, header_map_try_insert_from, header_map_try_insert, header_value_from_str, header_name_from_bytes};
use crate::response::{Response, ResponseFuture, ResponseState};
use crate::time::Duration;
use vstd::prelude::*;
use vstd::string::*;

verus! {

broadcast use {vstd::seq::group_seq_axioms, vstd::seq_lib::group_seq_properties};

/// Policy for following redirects.
#[derive(Clone, Copy, Debug, PartialEq, Eq, Structural)]
pub enum RedirectPolicy {
    /// Never follow redirects.
    NoFollow,
    /// Follow at most the given number of redirects.
    Limited(usize),
    /// The platform's own policy.
    Default,
}

impl Default for RedirectPolicy {
    fn default() -> (p: Self)
        ensures
            p == RedirectPolicy::Limited(10),
    {
        RedirectPolicy::Limited(10)
    }
}

/// Error type for HTTP operations
#[derive(Debug)]
pub enum Error {
    /// HTTP protocol error
    Http(http::Error),
    /// Network/IO error
    Network(String),
    /// Invalid URI
    InvalidUri(http::uri::InvalidUri),
    /// Platform-specific error
    Platform(String),
    /// Request timeout
    Timeout,
    /// Invalid header value
    InvalidHeader(http::header::InvalidHeaderValue),
}

impl From<http::Error> for Error {
    fn from(err: http::Error) -> (e: Self) {
        Error::Http(err)
    }
}

impl vstd::std_specs::convert::FromSpecImpl<http::Error> for Error {
    open spec fn obeys_from_spec() -> bool {
        true
    }

    open spec fn from_spec(v: http::Error) -> Self {
        Error::Http(v)
    }
}

impl From<http::uri::InvalidUri> for Error {
    fn from(err: http::uri::InvalidUri) -> (e: Self) {
        Error::InvalidUri(err)
    }
}

impl vstd::std_specs::convert::FromSpecImpl<http::uri::InvalidUri> for Error {
    open spec fn obeys_from_spec() -> bool {
        true
    }

    open spec fn from_spec(v: http::uri::InvalidUri) -> Self {
        Error::InvalidUri(v)
    }
}

impl From<http::header::InvalidHeaderValue> for Error {
    fn from(err: http::header::InvalidHeaderValue) -> (e: Self) {
        Error::InvalidHeader(err)
    }
}

impl vstd::std_specs::convert::FromSpecImpl<http::header::InvalidHeaderValue> for Error {
    open spec fn obeys_from_spec() -> bool {
        true
    }

    open spec fn from_spec(v: http::header::InvalidHeaderValue) -> Self {
        Error::InvalidHeader(v)
    }
}

/// The text that `Display` writes for an `http::Error`: the text of the error
/// it wraps, a function of the error alone.
pub uninterp spec fn http_error_display(e: http::Error) -> Seq<char>;

/// The text that `Display` writes for an `http::uri::InvalidUri`: the
/// description of its kind, a function of the error alone.
pub uninterp spec fn invalid_uri_display(e: http::uri::InvalidUri) -> Seq<char>;

/// The text of an `http::Error`, as its `Display` writes it.
#[verifier::external_body]
fn http_error_text(e: &http::Error) -> (s: String)
    ensures
        s@ == http_error_display(*e),
{
    format!("{e}")
}

/// The text of an `http::uri::InvalidUri`, as its `Display` writes it.
#[verifier::external_body]
fn invalid_uri_text(e: &http::uri::InvalidUri) -> (s: String)
    ensures
        s@ == invalid_uri_display(*e),
{
    format!("{e}")
}

/// The text of an `http::header::InvalidHeaderValue`, as its `Display` writes
/// it: always "failed to parse header value".
#[verifier::external_body]
fn invalid_header_value_text(e: &http::header::InvalidHeaderValue) -> (s: String)
    ensures
        s@ == "failed to parse header value"@,
{
    format!("{e}")
}

impl Error {
    /// The error message: a prefix naming the kind of error, then its details.
    pub fn to_string(&self) -> (s: String)
        ensures
            self matches Error::Network(m) ==> s@ == "Network error: "@ + m@,
            self matches Error::Platform(m) ==> s@ == "Platform error: "@ + m@,
            self is Timeout ==> s@ == "Request timeout"@,
            self matches Error::Http(e) ==> s@ == "HTTP error: "@ + http_error_display(*e),
            self matches Error::InvalidUri(e) ==> s@ == "Invalid URI: "@ + invalid_uri_display(*e),
            self is InvalidHeader ==> s@ == "Invalid header: "@ + "failed to parse header value"@,
    {
        match self {
            Error::Http(e) => {
                let t = http_error_text(e);
                let s = String::from_str("HTTP error: ").concat(t.as_str());
                assert(s@ == "HTTP error: "@ + t@);
                s
            },
            Error::Network(m) => String::from_str("Network error: ").concat(m.as_str()),
            Error::InvalidUri(e) => {
                let t = invalid_uri_text(e);
                let s = String::from_str("Invalid URI: ").concat(t.as_str());
                assert(s@ == "Invalid URI: "@ + t@);
                s
            },
            Error::Platform(m) => String::from_str("Platform error: ").concat(m.as_str()),
            Error::Timeout => String::from_str("Request timeout"),
            Error::InvalidHeader(e) => {
                let t = invalid_header_value_text(e);
                let s = String::from_str("Invalid header: ").concat(t.as_str());
                assert(s@ == "Invalid header: "@ + t@);
                s
            },
        }
    }
}

/// The abstract state of a [`ClientConfig`].
pub struct ClientConfigView {
    /// The request timeout, in nanoseconds.
    pub timeout: Option<int>,
    /// The user agent sent with requests that carry none.
    pub user_agent: Option<Seq<char>>,
    /// The headers added to requests that lack them.
    pub default_headers: Seq<(Seq<u8>, Seq<u8>)>,
    /// The redirect policy.
    pub redirect_policy: RedirectPolicy,
    /// Whether cookies are stored.
    pub cookie_store: bool,
    /// The proxy URL.
    pub proxy: Option<Seq<char>>,
    /// Whether the system proxy is bypassed.
    pub no_proxy: bool,
}

/// Configuration of an HTTP client.
#[derive(Debug)]
pub struct ClientConfig {
    pub timeout: Option<Duration>,
    pub user_agent: Option<String>,
    pub default_headers: http::HeaderMap,
    pub redirect_policy: RedirectPolicy,
    pub cookie_store: bool,
    pub proxy: Option<String>,
    pub no_proxy: bool,
}

/// The view of an optional string.
pub open spec fn opt_string_view(s: Option<String>) -> Option<Seq<char>> {
    match s {
        Some(s) => Some(s@),
        None => None,
    }
}

impl View for ClientConfig {
    type V = ClientConfigView;

    open spec fn view(&self) -> ClientConfigView {
        ClientConfigView {
            timeout: match self.timeout {
                Some(d) => Some(d@),
                None => None,
            },
            user_agent: opt_string_view(self.user_agent),
            default_headers: header_map_entries(self.default_headers),
            redirect_policy: self.redirect_policy,
            cookie_store: self.cookie_store,
            proxy: opt_string_view(self.proxy),
            no_proxy: self.no_proxy,
        }
    }
}

/// The configuration a client starts with: a 30 second timeout, the user
/// agent "platform-http/1.0", no default headers, at most 10 redirects, no
/// cookie store and no proxy settings.
pub open spec fn default_config() -> ClientConfigView {
    ClientConfigView {
        timeout: Some(30_000_000_000),
        user_agent: Some("platform-http/1.0"@),
        default_headers: Seq::empty(),
        redirect_policy: RedirectPolicy::Limited(10),
        cookie_store: false,
        proxy: None,
        no_proxy: false,
    }
}

fn clone_opt_string(s: &Option<String>) -> (r: Option<String>)
    ensures
        opt_string_view(r) == opt_string_view(*s),
{
    match s {
        Some(s) => Some(s.clone()),
        None => None,
    }
}

impl Clone for ClientConfig {
    fn clone(&self) -> (r: Self)
        ensures
            r@ == self@,
    {
        ClientConfig {
            timeout: self.timeout,
            user_agent: clone_opt_string(&self.user_agent),
            default_headers: header_map_clone(&self.default_headers),
            redirect_policy: self.redirect_policy,
            cookie_store: self.cookie_store,
            proxy: clone_opt_string(&self.proxy),
            no_proxy: self.no_proxy,
        }
    }
}

impl Default for ClientConfig {
    fn default() -> (c: Self)
        ensures
            c@ == default_config(),
    {
        ClientConfig {
            timeout: Some(Duration::from_secs(30)),
            user_agent: Some(String::from_str("platform-http/1.0")),
            default_headers: header_map_new(),
            redirect_policy: RedirectPolicy::default(),
            cookie_store: false,
            proxy: None,
            no_proxy: false,
        }
    }
}


/// Builder for configuring HTTP client
pub struct ClientBuilder {
    config: ClientConfig,
}

impl View for ClientBuilder {
    type V = ClientConfigView;

    closed spec fn view(&self) -> ClientConfigView {
        self.config@
    }
}

impl ClientBuilder {
    /// A builder holding the default configuration.
    pub fn new() -> (b: Self)
        ensures
            b@ == default_config(),
    {
        ClientBuilder { config: ClientConfig::default() }
    }

    /// Set request timeout
    pub fn timeout(self, timeout: Duration) -> (b: Self)
        ensures
            b@ == (ClientConfigView { timeout: Some(timeout@), ..self@ }),
    {
        let mut b = self;
        b.config.timeout = Some(timeout);
        b
    }

    /// Disable request timeout
    pub fn no_timeout(self) -> (b: Self)
        ensures
            b@ == (ClientConfigView { timeout: None, ..self@ }),
    {
        let mut b = self;
        b.config.timeout = None;
        b
    }

    /// Set user agent header
    pub fn user_agent(self, value: &str) -> (b: Self)
        ensures
            b@ == (ClientConfigView { user_agent: Some(value@), ..self@ }),
    {
        let mut b = self;
        b.config.user_agent = Some(String::from_str(value));
        b
    }

    /// Set default headers for all requests
    pub fn default_headers(self, headers: http::HeaderMap) -> (b: Self)
        ensures
            b@ == (ClientConfigView { default_headers: header_map_entries(headers), ..self@ }),
    {
        let mut b = self;
        b.config.default_headers = headers;
        b
    }

    /// Enable automatic cookie storage and handling
    pub fn cookie_store(self, enable: bool) -> (b: Self)
        ensures
            b@ == (ClientConfigView { cookie_store: enable, ..self@ }),
    {
        let mut b = self;
        b.config.cookie_store = enable;
        b
    }

    /// Set HTTP proxy
    pub fn proxy(self, proxy_url: &str) -> (b: Self)
        ensures
            b@ == (ClientConfigView { proxy: Some(proxy_url@), ..self@ }),
    {
        let mut b = self;
        b.config.proxy = Some(String::from_str(proxy_url));
        b
    }

    /// Disable system proxy
    pub fn no_proxy(self) -> (b: Self)
        ensures
            b@ == (ClientConfigView { no_proxy: true, ..self@ }),
    {
        let mut b = self;
        b.config.no_proxy = true;
        b
    }

    /// Set redirect policy
    pub fn redirect(self, policy: RedirectPolicy) -> (b: Self)
        ensures
            b@ == (ClientConfigView { redirect_policy: policy, ..self@ }),
    {
        let mut b = self;
        b.config.redirect_policy = policy;
        b
    }

    /// Build the configured client
    pub fn build(self) -> (c: Client)
        ensures
            c@ == self@,
    {
        let inner = PlatformClient::new(&self.config);
        Client { inner, config: self.config }
    }
}

impl Default for ClientBuilder {
    fn default() -> (b: Self)
        ensures
            b@ == default_config(),
    {
        Self::new()
    }
}

/// The text of the error that this platform's client reports for every request.
pub open spec fn unsupported_platform_message() -> Seq<char> {
    "Linux implementation not yet available"@
}

/// What starting a request on the platform client yields: whether it started,
/// and the result delivered to the completion callback before it returned.
#[derive(Debug)]
pub struct ExecuteOutcome {
    /// `Err` where the request could not be started.
    pub started: Result<(), Error>,
    /// The result handed to the completion callback during the call, if any.
    pub delivered: Option<Result<Response, Error>>,
}

/// The platform's HTTP engine. This library carries no engine for any target:
/// every request completes at once with a platform error.
#[derive(Clone, Debug)]
pub struct PlatformClient {}

impl PlatformClient {
    /// The engine for the given configuration.
    pub fn new(config: &ClientConfig) -> (c: Self) {
        PlatformClient {  }
    }

    /// Starts `request`: the completion callback receives a platform error at once.
    pub fn execute_request(
        &self,
        request: http::Request<http_body_util::Full<bytes::Bytes>>,
        config: &ClientConfig,
    ) -> (r: ExecuteOutcome)
        ensures
            r.started is Ok,
            r.delivered matches Some(Err(Error::Platform(m))) && m@ == unsupported_platform_message(),
    {
        let message = String::from_str("Linux implementation not yet available");
        ExecuteOutcome { started: Ok(()), delivered: Some(Err(Error::Platform(message))) }
    }
}

/// The bytes of the header name "user-agent".
pub open spec fn user_agent_name() -> Seq<u8> {
    seq![117u8, 115u8, 101u8, 114u8, 45u8, 97u8, 103u8, 101u8, 110u8, 116u8]
}

/// The request headers after the client's defaults are applied: each default
/// pair whose name the headers lack so far is added in turn.
pub open spec fn with_default_headers(
    headers: Seq<(Seq<u8>, Seq<u8>)>,
    defaults: Seq<(Seq<u8>, Seq<u8>)>,
) -> Seq<(Seq<u8>, Seq<u8>)>
    decreases defaults.len(),
{
    if defaults.len() == 0 {
        headers
    } else {
        let before = with_default_headers(headers, defaults.drop_last());
        if has_header_name(before, defaults.last().0) {
            before
        } else {
            before.push(defaults.last())
        }
    }
}

/// The request headers after the client's configuration is applied: the
/// default headers, then the user agent where the request carries none and the
/// configured value is a valid header value.
pub open spec fn with_client_headers(
    headers: Seq<(Seq<u8>, Seq<u8>)>,
    config: ClientConfigView,
) -> Seq<(Seq<u8>, Seq<u8>)> {
    let merged = with_default_headers(headers, config.default_headers);
    match config.user_agent {
        Some(ua) => {
            let ua_bytes = vstd::utf8::encode_utf8(ua);
            if !has_header_name(merged, user_agent_name()) && valid_header_value(ua_bytes) {
                merged.push((user_agent_name(), ua_bytes))
            } else {
                merged
            }
        },
        None => merged,
    }
}

proof fn lemma_user_agent_name()
    ensures
        "user-agent".spec_bytes() == user_agent_name(),
        normalized_header_name(user_agent_name()),
{
    reveal_strlit("user-agent");
    broadcast use vstd::string::is_ascii_spec_bytes;

    assert(vstd::string::is_ascii("user-agent"));
    assert("user-agent".spec_bytes() =~= user_agent_name());
    assert(normalize_header_name(user_agent_name()) =~= user_agent_name());
}

/// Main HTTP client
#[derive(Debug)]
pub struct Client {
    inner: PlatformClient,
    config: ClientConfig,
}

impl View for Client {
    type V = ClientConfigView;

    closed spec fn view(&self) -> ClientConfigView {
        self.config@
    }
}

impl Clone for Client {
    fn clone(&self) -> (c: Self)
        ensures
            c@ == self@,
    {
        Client { inner: self.inner.clone(), config: self.config.clone() }
    }
}

impl Client {
    /// Create a new client with default configuration
    pub fn new() -> (c: Self)
        ensures
            c@ == default_config(),
    {
        Self::builder().build()
    }

    /// Create a client builder for configuration
    pub fn builder() -> (b: ClientBuilder)
        ensures
            b@ == default_config(),
    {
        ClientBuilder::new()
    }

    /// The client's configuration.
    pub fn config(&self) -> (c: &ClientConfig)
        ensures
            c@ == self@,
    {
        &self.config
    }

    /// Convenience method to make a GET request to a URL
    pub fn get(&self, url: http::Uri) -> (r: RequestBuilder)
        ensures
            r@ == new_request_view(self@, "GET"@, url),
    {
        RequestBuilder::new(self.clone(), String::from_str("GET"), url)
    }

    /// Convenience method to make a POST request to a URL
    pub fn post(&self, url: http::Uri) -> (r: RequestBuilder)
        ensures
            r@ == new_request_view(self@, "POST"@, url),
    {
        RequestBuilder::new(self.clone(), String::from_str("POST"), url)
    }

    /// Convenience method to make a PUT request to a URL
    pub fn put(&self, url: http::Uri) -> (r: RequestBuilder)
        ensures
            r@ == new_request_view(self@, "PUT"@, url),
    {
        RequestBuilder::new(self.clone(), String::from_str("PUT"), url)
    }

    /// Convenience method to make a DELETE request to a URL
    pub fn delete(&self, url: http::Uri) -> (r: RequestBuilder)
        ensures
            r@ == new_request_view(self@, "DELETE"@, url),
    {
        RequestBuilder::new(self.clone(), String::from_str("DELETE"), url)
    }

    /// Start building a request with the specified method, given by its name,
    /// and URL
    pub fn request(&self, method: &str, url: http::Uri) -> (r: RequestBuilder)
        ensures
            r@ == new_request_view(self@, method@, url),
    {
        RequestBuilder::new(self.clone(), String::from_str(method), url)
    }

    /// Adds the client's default headers and user agent to a request's headers,
    /// as a request passes through the client. Returns false where the header
    /// map could not grow, which leaves the request incomplete; a request with
    /// fewer than [`HEADER_MAP_ROOM`] headers and defaults together always
    /// has room.
    pub fn apply_default_headers(&self, headers: &mut http::HeaderMap) -> (ok: bool)
        ensures
            ok ==> header_map_entries(*final(headers)) == with_client_headers(
                header_map_entries(*old(headers)),
                self@,
            ),
            header_map_entries(*old(headers)).len() + self@.default_headers.len() < HEADER_MAP_ROOM
                ==> ok,
    {
        let defaults = &self.config.default_headers;
        let pairs = header_map_iter(defaults);
        let n = pairs.len();
        let ghost start = header_map_entries(*headers);
        let ghost dflt = header_map_entries(*defaults);
        assert(dflt.take(0) =~= Seq::<(Seq<u8>, Seq<u8>)>::empty());
        for i in 0..n
            invariant
                n == dflt.len(),
                dflt == header_map_entries(*defaults),
                header_map_entries(*headers) == with_default_headers(start, dflt.take(i as int)),
                start == header_map_entries(*old(headers)),
                dflt == self@.default_headers,
        {
            assert(dflt.take(i + 1).drop_last() =~= dflt.take(i as int));
            proof {
                lemma_default_headers_len(start, dflt.take(i as int));
            }
            if !header_map_contains_key_of(headers, defaults, i) {
                if !header_map_try_insert_from(headers, defaults, i) {
                    return false;
                }
            }
        }
        assert(dflt.take(n as int) =~= dflt);
        proof {
            lemma_default_headers_len(start, dflt);
        }
        // Add the user agent where the request carries none
        if let Some(user_agent) = &self.config.user_agent {
            proof {
                lemma_user_agent_name();
            }
            if !header_map_contains_key(headers, "user-agent") {
                if let Ok(value) = header_value_from_str(user_agent.as_str()) {
                    if !header_map_try_insert(headers, "user-agent", value.as_slice()) {
                        return false;
                    }
                }
            }
        }
        true
    }

    /// Passes a request to the platform engine: the remaining work of a request
    /// once [`Client::apply_default_headers`] has run.
    pub fn dispatch(&self, request: http::Request<http_body_util::Full<bytes::Bytes>>) -> (f: ResponseFuture)
        ensures
            f@ matches ResponseState::Ready(Err(Error::Platform(m))) && m@ == unsupported_platform_message(),
    {
        ResponseFuture::new(request, &self.inner, &self.config)
    }
}

impl Default for Client {
    fn default() -> (c: Self)
        ensures
            c@ == default_config(),
    {
        Self::new()
    }
}

/// The body of a request being built.
#[derive(Debug)]
pub enum RequestBody {
    /// No body.
    Empty,
    /// Raw bytes.
    Bytes(Vec<u8>),
    /// A JSON document, serialized when the request is sent.
    Json(serde_json::Value),
    /// Form fields.
    Form(Vec<(String, String)>),
}

/// A JSON document as form encoding reads it: the members of an object, in
/// order, or a document of another kind.
#[derive(Debug)]
pub enum FormDocument {
    /// An object and its members, in order.
    Object(Vec<(String, FormMember)>),
    /// Any other kind of document.
    NotObject,
}

/// A member value of a JSON object handed to form encoding.
#[derive(Debug)]
pub enum FormMember {
    /// A JSON string and its text.
    Str(String),
    /// Any other JSON value.
    Other(serde_json::Value),
}

/// Whether `field` is the form field made from the object member `member`:
/// the same name, and as the value the text of a string member or the JSON
/// rendering of any other member.
pub open spec fn form_field_of(member: (String, FormMember), field: (String, String)) -> bool {
    &&& field.0@ == member.0@
    &&& member.1 matches FormMember::Str(text) ==> field.1@ == text@
    &&& member.1 matches FormMember::Other(value) ==> field.1@ == json_rendering(value)
}

/// Whether `fields` are the form fields made from `members`, one per member, in order.
pub open spec fn form_fields_of(members: Seq<(String, FormMember)>, fields: Seq<(String, String)>) -> bool {
    &&& fields.len() == members.len()
    &&& forall|k: int| 0 <= k < members.len() ==> form_field_of(#[trigger] members[k], fields[k])
}

/// The UTF-8 bytes of each name and value.
pub open spec fn string_pairs_bytes(pairs: Seq<(String, String)>) -> Seq<(Seq<u8>, Seq<u8>)> {
    pairs.map_values(|p: (String, String)| (vstd::utf8::encode_utf8(p.0@), vstd::utf8::encode_utf8(p.1@)))
}

/// An upper-case hexadecimal digit for `n` below 16.
pub open spec fn hex_digit(n: u8) -> u8 {
    if n < 10 {
        (48 + n) as u8
    } else {
        (55 + n) as u8
    }
}

/// Whether a byte stands for itself in a form-urlencoded component: an ASCII
/// letter or digit, or one of `*`, `-`, `.` and `_`.
pub open spec fn form_unreserved(b: u8) -> bool {
    (48 <= b <= 57) || (65 <= b <= 90) || (97 <= b <= 122) || b == 42 || b == 45 || b == 46 || b == 95
}

/// The bytes a byte becomes in a form-urlencoded component: itself where it is
/// unreserved, `+` for a space, and otherwise `%` and two upper-case hex digits.
pub open spec fn form_urlencoded_byte(b: u8) -> Seq<u8> {
    if form_unreserved(b) {
        seq![b]
    } else if b == 32 {
        seq![43u8]
    } else {
        seq![37u8, hex_digit(b / 16), hex_digit(b % 16)]
    }
}

/// A byte string encoded as a form-urlencoded component.
pub open spec fn form_urlencoded(s: Seq<u8>) -> Seq<u8>
    decreases s.len(),
{
    if s.len() == 0 {
        Seq::empty()
    } else {
        form_urlencoded(s.drop_last()) + form_urlencoded_byte(s.last())
    }
}

/// One field as `name=value`, both encoded.
pub open spec fn form_urlencoded_pair(pair: (Seq<u8>, Seq<u8>)) -> Seq<u8> {
    form_urlencoded(pair.0) + seq![61u8] + form_urlencoded(pair.1)
}

/// An application/x-www-form-urlencoded body: the encoded fields joined by `&`.
pub open spec fn form_urlencoded_body(pairs: Seq<(Seq<u8>, Seq<u8>)>) -> Seq<u8>
    decreases pairs.len(),
{
    if pairs.len() == 0 {
        Seq::empty()
    } else if pairs.len() == 1 {
        form_urlencoded_pair(pairs[0])
    } else {
        form_urlencoded_body(pairs.drop_last()) + seq![38u8] + form_urlencoded_pair(pairs.last())
    }
}

/// The value of a hexadecimal digit, upper or lower case.
pub open spec fn hex_value(c: u8) -> int {
    if 48 <= c <= 57 {
        c - 48
    } else if 65 <= c <= 70 {
        c - 55
    } else if 97 <= c <= 102 {
        c - 87
    } else {
        0
    }
}

/// How an application/x-www-form-urlencoded reader decodes a component: `%`
/// and two hex digits give the byte they write, `+` gives a space, and every
/// other byte stands for itself.
pub open spec fn form_urldecode(s: Seq<u8>) -> Seq<u8>
    decreases s.len(),
{
    if s.len() == 0 {
        Seq::empty()
    } else if s[0] == 37 && s.len() >= 3 {
        seq![(hex_value(s[1]) * 16 + hex_value(s[2])) as u8] + form_urldecode(s.skip(3))
    } else if s[0] == 43 {
        seq![32u8] + form_urldecode(s.skip(1))
    } else {
        seq![s[0]] + form_urldecode(s.skip(1))
    }
}

proof fn lemma_form_urlencoded_front(s: Seq<u8>)
    requires
        s.len() > 0,
    ensures
        form_urlencoded(s) == form_urlencoded_byte(s[0]) + form_urlencoded(s.drop_first()),
    decreases s.len(),
{
    if s.len() == 1 {
        assert(s.drop_last() =~= Seq::<u8>::empty());
        assert(s.drop_first() =~= Seq::<u8>::empty());
        assert(form_urlencoded(s) =~= form_urlencoded_byte(s[0]));
        assert(form_urlencoded_byte(s[0]) + Seq::<u8>::empty() =~= form_urlencoded_byte(s[0]));
    } else {
        lemma_form_urlencoded_front(s.drop_last());
        assert(s.drop_last().drop_first() =~= s.drop_first().drop_last());
        assert(s.drop_first().last() == s.last());
        assert(s.drop_last()[0] == s[0]);
        assert(form_urlencoded(s) =~= form_urlencoded_byte(s[0]) + form_urlencoded(s.drop_first()));
    }
}

proof fn lemma_decode_one_byte(b: u8, rest: Seq<u8>)
    ensures
        form_urldecode(form_urlencoded_byte(b) + rest) == seq![b] + form_urldecode(rest),
{
    let x = form_urlencoded_byte(b) + rest;
    if form_unreserved(b) {
        assert(x.skip(1) =~= rest);
    } else if b == 32 {
        assert(x.skip(1) =~= rest);
    } else {
        assert(x.skip(3) =~= rest);
        let hi = b / 16;
        let lo = b % 16;
        assert(hex_value(hex_digit(hi)) == hi);
        assert(hex_value(hex_digit(lo)) == lo);
        assert(hi * 16 + lo == b);
        assert(x[1] == hex_digit(hi));
        assert(x[2] == hex_digit(lo));
    }
}

/// Form encoding loses nothing: a form reader decodes the encoding of any
/// bytes back to exactly those bytes. So `+` is written only for a space, and
/// every byte that could be read as something else is escaped.
pub proof fn lemma_form_urlencoding_is_reversible(s: Seq<u8>)
    ensures
        form_urldecode(form_urlencoded(s)) == s,
    decreases s.len(),
{
    if s.len() > 0 {
        lemma_form_urlencoded_front(s);
        lemma_decode_one_byte(s[0], form_urlencoded(s.drop_first()));
        lemma_form_urlencoding_is_reversible(s.drop_first());
        assert(seq![s[0]] + s.drop_first() =~= s);
    }
}

/// An encoded component holds only letters, digits, `*`, `-`, `.`, `_`, `+`
/// and `%` escapes: a reader splitting on `&` and `=` finds none in it.
pub proof fn lemma_form_urlencoded_has_no_separators(s: Seq<u8>)
    ensures
        forall|i: int| 0 <= i < form_urlencoded(s).len() ==> #[trigger] form_urlencoded(s)[i] != 38
            && form_urlencoded(s)[i] != 61,
    decreases s.len(),
{
    if s.len() > 0 {
        lemma_form_urlencoded_has_no_separators(s.drop_last());
        let b = s.last();
        let u = form_urlencoded_byte(b);
        assert forall|i: int| 0 <= i < u.len() implies #[trigger] u[i] != 38 && u[i] != 61 by {
            if !form_unreserved(b) && b != 32 {
                assert(hex_digit(b / 16) != 38 && hex_digit(b / 16) != 61);
                assert(hex_digit(b % 16) != 38 && hex_digit(b % 16) != 61);
            }
        }
        let e = form_urlencoded(s);
        let pre = form_urlencoded(s.drop_last());
        assert forall|i: int| 0 <= i < e.len() implies #[trigger] e[i] != 38 && e[i] != 61 by {
            if i < pre.len() {
                assert(e[i] == pre[i]);
            } else {
                assert(e[i] == u[i - pre.len()]);
            }
        }
    }
}

fn hex_digit_exec(n: u8) -> (d: u8)
    requires
        n < 16,
    ensures
        d == hex_digit(n),
{
    if n < 10 {
        48 + n
    } else {
        55 + n
    }
}

/// Appends `s` encoded as a form-urlencoded component to `out`.
fn push_form_urlencoded(out: &mut Vec<u8>, s: &[u8])
    ensures
        final(out)@ == old(out)@ + form_urlencoded(s@),
{
    let ghost start = out@;
    let n = s.len();
    assert(s@.take(0) =~= Seq::<u8>::empty());
    for i in 0..n
        invariant
            n == s@.len(),
            out@ == start + form_urlencoded(s@.take(i as int)),
    {
        let b = s[i];
        assert(s@.take(i + 1).drop_last() =~= s@.take(i as int));
        assert(s@.take(i + 1).last() == b);
        let ghost before = out@;
        if (48 <= b && b <= 57) || (65 <= b && b <= 90) || (97 <= b && b <= 122) || b == 42 || b == 45
            || b == 46 || b == 95 {
            out.push(b);
        } else if b == 32 {
            out.push(43);
        } else {
            out.push(37);
            out.push(hex_digit_exec(b / 16));
            out.push(hex_digit_exec(b % 16));
        }
        assert(out@ =~= before + form_urlencoded_byte(b));
        assert(out@ =~= start + form_urlencoded(s@.take(i + 1)));
    }
    assert(s@.take(n as int) =~= s@);
}

/// The application/x-www-form-urlencoded body of the given fields.
fn form_body(pairs: &Vec<(String, String)>) -> (r: Vec<u8>)
    ensures
        r@ == form_urlencoded_body(string_pairs_bytes(pairs@)),
{
    let ghost all = string_pairs_bytes(pairs@);
    let mut out: Vec<u8> = Vec::new();
    let n = pairs.len();
    assert(all.take(0) =~= Seq::<(Seq<u8>, Seq<u8>)>::empty());
    for i in 0..n
        invariant
            n == pairs@.len(),
            all == string_pairs_bytes(pairs@),
            out@ == form_urlencoded_body(all.take(i as int)),
    {
        let (name, value) = &pairs[i];
        let ghost prefix = all.take(i + 1);
        assert(prefix.drop_last() =~= all.take(i as int));
        assert(prefix.last() == all[i as int]);
        assert(all[i as int] == (vstd::utf8::encode_utf8(name@), vstd::utf8::encode_utf8(value@)));
        if i > 0 {
            out.push(38);
        }
        let name_bytes = name.as_str().as_bytes_vec();
        let value_bytes = value.as_str().as_bytes_vec();
        let ghost before = out@;
        push_form_urlencoded(&mut out, name_bytes.as_slice());
        out.push(61);
        push_form_urlencoded(&mut out, value_bytes.as_slice());
        if i == 0 {
            assert(prefix.len() == 1);
            assert(prefix[0] == all[0]);
            assert(out@ =~= form_urlencoded_pair(all[0]));
        } else {
            assert(out@ =~= before + form_urlencoded_pair(all[i as int]));
        }
    }
    assert(all.take(n as int) =~= all);
    out
}

/// The abstract state of a [`RequestBuilder`].
pub struct RequestBuilderView {
    /// The configuration of the client that sends the request.
    pub client: ClientConfigView,
    /// The request method.
    pub method: Seq<char>,
    /// The request URI.
    pub uri: http::Uri,
    /// The headers added so far, in order, or the error that stopped the building.
    pub request: Result<Seq<RecordedHeader>, Error>,
    /// The body.
    pub body: RequestBody,
}

/// A header recorded by a request builder: the name as given, the value, and
/// whether the name came from a header map, where it is already a header name.
pub type RecordedHeader = (Seq<u8>, Seq<u8>, bool);

/// The views of recorded headers.
pub open spec fn recorded_view(s: Seq<(Vec<u8>, Vec<u8>, bool)>) -> Seq<RecordedHeader> {
    s.map_values(|h: (Vec<u8>, Vec<u8>, bool)| (h.0@, h.1@, h.2))
}

/// The pairs of a header map, recorded as names that are already header names.
pub open spec fn from_header_map(entries: Seq<(Seq<u8>, Seq<u8>)>) -> Seq<RecordedHeader> {
    entries.map_values(|e: (Seq<u8>, Seq<u8>)| (e.0, e.1, true))
}

/// Whether a recorded header can be sent: a name from a header map always, a
/// name given as text where it is a valid header name.
pub open spec fn header_sendable(h: RecordedHeader) -> bool {
    h.2 || valid_header_name(h.0)
}

/// The name and value a recorded header is sent with: a name from a header map
/// as it is, a name given as text in its normalized form.
pub open spec fn sent_header(h: RecordedHeader) -> (Seq<u8>, Seq<u8>) {
    if h.2 {
        (h.0, h.1)
    } else {
        (normalize_header_name(h.0), h.1)
    }
}

/// A request that has just been started.
pub open spec fn new_request_view(client: ClientConfigView, method: Seq<char>, uri: http::Uri) -> RequestBuilderView {
    RequestBuilderView {
        client,
        method,
        uri,
        request: Ok(Seq::empty()),
        body: RequestBody::Empty,
    }
}

/// Request builder for constructing HTTP requests
#[derive(Debug)]
pub struct RequestBuilder {
    client: Client,
    method: String,
    uri: http::Uri,
    request: Result<Vec<(Vec<u8>, Vec<u8>, bool)>, Error>,
    body: RequestBody,
}

impl View for RequestBuilder {
    type V = RequestBuilderView;

    closed spec fn view(&self) -> RequestBuilderView {
        RequestBuilderView {
            client: self.client@,
            method: self.method@,
            uri: self.uri,
            request: match self.request {
                Ok(h) => Ok(recorded_view(h@)),
                Err(e) => Err(e),
            },
            body: self.body,
        }
    }
}

/// The "content-type" name and the given value, as a header given as text.
pub open spec fn content_type_header(value: &str) -> RecordedHeader {
    ("content-type".spec_bytes(), value.spec_bytes(), false)
}

impl RequestBuilder {
    fn new(client: Client, method: String, url: http::Uri) -> (r: Self)
        ensures
            r@ == new_request_view(client@, method@, url),
    {
        let r = RequestBuilder { client, method, uri: url, request: Ok(Vec::new()), body: RequestBody::Empty };
        assert(recorded_view(Seq::<(Vec<u8>, Vec<u8>, bool)>::empty()) =~= Seq::empty());
        r
    }

    /// Add a header to the request. An invalid value stops the building with
    /// [`Error::InvalidHeader`]; after an error, headers are ignored.
    pub fn header(self, key: &str, value: &str) -> (r: Self)
        ensures
            r@ == (RequestBuilderView { request: r@.request, ..self@ }),
            self@.request matches Ok(h) ==> if valid_header_value(value.spec_bytes()) {
                r@.request == Ok::<_, Error>(h.push((key.spec_bytes(), value.spec_bytes(), false)))
            } else {
                r@.request is Err && r@.request->Err_0 is InvalidHeader
            },
            self@.request is Err ==> r@.request == self@.request,
    {
        let mut b = self;
        if let Ok(headers) = &mut b.request {
            match header_value_from_str(value) {
                Ok(value_bytes) => {
                    let ghost before = headers@;
                    headers.push((key.as_bytes_vec(), value_bytes, false));
                    assert(recorded_view(headers@) =~= recorded_view(before).push(
                        (key.spec_bytes(), value.spec_bytes(), false),
                    ));
                },
                Err(e) => {
                    b.request = Err(Error::InvalidHeader(e));
                },
            }
        }
        b
    }

    /// Add multiple headers to the request: every (name, value) pair of the
    /// map, in the map's order, each later value of a name added under that
    /// name again; the names are kept as the header names they are. After an
    /// error, nothing is added.
    pub fn headers(self, headers: http::HeaderMap) -> (r: Self)
        ensures
            r@ == (RequestBuilderView { request: r@.request, ..self@ }),
            self@.request matches Ok(h) ==> r@.request == Ok::<_, Error>(
                h + from_header_map(header_map_entries(headers)),
            ),
            self@.request is Err ==> r@.request == self@.request,
    {
        let mut b = self;
        if let Ok(list) = &mut b.request {
            let ghost before = recorded_view(list@);
            let items = header_map_iter(&headers);
            let ghost entries = from_header_map(header_pairs_view(items@));
            let n = items.len();
            for i in 0..n
                invariant
                    n == items@.len(),
                    entries == from_header_map(header_pairs_view(items@)),
                    recorded_view(list@) =~= before + entries.take(i as int),
            {
                let (name, value) = &items[i];
                let ghost old_list = list@;
                list.push((name.clone(), value.clone(), true));
                assert(recorded_view(list@) =~= recorded_view(old_list).push((name@, value@, true)));
                assert(entries.take(i + 1) =~= entries.take(i as int).push(entries[i as int]));
            }
            assert(entries.take(n as int) =~= entries);
        }
        b
    }

    /// Set the request body from bytes
    pub fn body(self, body: Vec<u8>) -> (r: Self)
        ensures
            r@ == (RequestBuilderView { body: RequestBody::Bytes(body), ..self@ }),
    {
        let mut b = self;
        b.body = RequestBody::Bytes(body);
        b
    }

    /// Set the request body as JSON, given the result of serializing a value
    /// into a JSON document. The content type becomes "application/json". A
    /// failed serialization stops the building with a platform error.
    pub fn json(self, json: Result<serde_json::Value, serde_json::Error>) -> (r: Self)
        ensures
            r@.client == self@.client && r@.method == self@.method && r@.uri == self@.uri,
            json matches Ok(v) ==> r@.body == RequestBody::Json(v) && r@.request == (match self@.request {
                Ok(h) => Ok(h.push(content_type_header("application/json"))),
                Err(e) => Err(e),
            }),
            json is Err ==> r@.body == self@.body && (r@.request matches Err(Error::Platform(m)) && m@
                == "Failed to serialize JSON"@),
    {
        proof {
            reveal_strlit("application/json");
            lemma_header_value_literal("application/json");
        }
        let mut b = self;
        match json {
            Ok(value) => {
                b.body = RequestBody::Json(value);
                b.header("content-type", "application/json")
            },
            Err(_) => {
                b.request = Err(Error::Platform(String::from_str("Failed to serialize JSON")));
                b
            },
        }
    }

    /// Set the request body as form fields, given the result of serializing a
    /// value into a JSON document. The document must be an object: each member
    /// becomes a field, in order, string members with their text and other
    /// members with their JSON rendering, and the content type becomes
    /// "application/x-www-form-urlencoded". Any other result stops the building
    /// with a platform error and leaves the body as it was.
    pub fn form(self, form: Result<FormDocument, serde_json::Error>) -> (r: Self)
        ensures
            r@ == (RequestBuilderView { request: r@.request, body: r@.body, ..self@ }),
            form matches Ok(FormDocument::Object(members)) ==> {
                &&& r@.body matches RequestBody::Form(pairs) && form_fields_of(members@, pairs@)
                &&& r@.request == (match self@.request {
                    Ok(h) => Ok::<_, Error>(h.push(content_type_header("application/x-www-form-urlencoded"))),
                    Err(e) => Err(e),
                })
            },
            !(form matches Ok(FormDocument::Object(_))) ==> r@.body == self@.body && (
            r@.request matches Err(Error::Platform(m)) && m@ == "Failed to serialize form data"@),
    {
        proof {
            reveal_strlit("application/x-www-form-urlencoded");
            lemma_header_value_literal("application/x-www-form-urlencoded");
        }
        let mut b = self;
        let members = match form {
            Ok(FormDocument::Object(members)) => members,
            _ => {
                b.request = Err(Error::Platform(String::from_str("Failed to serialize form data")));
                return b;
            },
        };
        let mut pairs: Vec<(String, String)> = Vec::new();
        let n = members.len();
        for i in 0..n
            invariant
                n == members@.len(),
                pairs@.len() == i,
                forall|k: int| 0 <= k < i ==> form_field_of(#[trigger] members@[k], pairs@[k]),
        {
            let (key, value) = &members[i];
            let text = match value {
                FormMember::Str(s) => s.clone(),
                FormMember::Other(v) => json_text(v),
            };
            pairs.push((key.clone(), text));
        }
        b.body = RequestBody::Form(pairs);
        b.header("content-type", "application/x-www-form-urlencoded")
    }

    /// Turns the builder into the parts of a request, as sending it does
    /// before the request goes to the client: the first error recorded while
    /// building, else the first invalid header name; otherwise the client with
    /// the method, URI, headers under their normalized names, and the body
    /// bytes, form fields encoded as application/x-www-form-urlencoded.
    pub fn prepare(self) -> (r: Result<(Client, PreparedRequest), Error>)
        ensures
            self@.request matches Err(e) ==> r == Err::<(Client, PreparedRequest), Error>(e),
            self@.request is Ok && r is Err ==> (r->Err_0 is Http && (!valid_method_name(
                encode_utf8_of(self@.method),
            ) || exists|k: int|
                0 <= k < self@.request->Ok_0.len() && !header_sendable(
                    #[trigger] self@.request->Ok_0[k],
                ))),
            self@.request is Ok && valid_method_name(encode_utf8_of(self@.method)) && (forall|k: int|
                0 <= k < self@.request->Ok_0.len() ==> header_sendable(
                    #[trigger] self@.request->Ok_0[k],
                )) ==> r is Ok,
            r matches Ok(p) ==> {
                &&& self@.request is Ok
                &&& valid_method_name(encode_utf8_of(self@.method))
                &&& p.0@ == self@.client
                &&& p.1.method@ == self@.method
                &&& p.1.uri == self@.uri
                &&& header_pairs_view(p.1.headers@) == self@.request->Ok_0.map_values(
                    |q: RecordedHeader| sent_header(q),
                )
                &&& self@.body matches RequestBody::Bytes(bytes) ==> p.1.body@ == bytes@
                &&& self@.body is Empty ==> p.1.body@ == Seq::<u8>::empty()
                &&& self@.body matches RequestBody::Json(v) ==> p.1.body@ == json_serialized(v)
                &&& self@.body matches RequestBody::Form(pairs) ==> p.1.body@ == form_urlencoded_body(
                    string_pairs_bytes(pairs@),
                )
            },
    {
        let RequestBuilder { client, method, uri, request, body } = self;
        let headers = match request {
            Ok(h) => h,
            Err(e) => return Err(e),
        };
        assert(self@.request == Ok::<_, Error>(recorded_view(headers@)));
        // The method must be a token
        if let Err(e) = method_check(method.as_str()) {
            return Err(Error::Http(e));
        }
        // Convert the body to bytes
        let body_bytes = match body {
            RequestBody::Empty => Vec::new(),
            RequestBody::Bytes(bytes) => bytes,
            RequestBody::Json(value) => match json_to_vec(&value) {
                Ok(bytes) => bytes,
                Err(_) => return Err(Error::Platform(String::from_str("JSON serialization failed"))),
            },
            RequestBody::Form(pairs) => form_body(&pairs),
        };
        // Normalize the header names given as text
        let ghost h = recorded_view(headers@);
        let mut normalized: Vec<(Vec<u8>, Vec<u8>)> = Vec::new();
        let n = headers.len();
        for i in 0..n
            invariant
                n == headers@.len(),
                h == recorded_view(headers@),
                self@.request == Ok::<_, Error>(h),
                normalized@.len() == i,
                forall|k: int| 0 <= k < i ==> header_sendable(#[trigger] h[k]),
                header_pairs_view(normalized@) =~= h.take(i as int).map_values(
                    |q: RecordedHeader| sent_header(q),
                ),
        {
            let (name, value, from_map) = &headers[i];
            assert(h[i as int] == (name@, value@, *from_map));
            let ghost before = normalized@;
            if *from_map {
                normalized.push((name.clone(), value.clone()));
            } else {
                match header_name_from_bytes(name.as_slice()) {
                    Ok(norm) => {
                        normalized.push((norm, value.clone()));
                    },
                    Err(e) => {
                        assert(!header_sendable(self@.request->Ok_0[i as int]));
                        return Err(Error::Http(e));
                    },
                }
            }
            assert(header_pairs_view(normalized@) =~= header_pairs_view(before).push(
                sent_header(h[i as int]),
            ));
            assert(h.take(i + 1) =~= h.take(i as int).push(h[i as int]));
        }
        assert(h.take(n as int) =~= h);
        Ok((client, PreparedRequest { method, uri, headers: normalized, body: body_bytes }))
    }
}

/// A string of visible ASCII characters is a valid header value.
proof fn lemma_header_value_literal(s: &str)
    requires
        forall|i: int| 0 <= i < s@.len() ==> ' ' <= #[trigger] s@[i] <= '~',
    ensures
        valid_header_value(s.spec_bytes()),
{
    broadcast use vstd::string::is_ascii_spec_bytes;

    assert(vstd::string::is_ascii(s));
    assert(s.spec_bytes() =~= Seq::new(s@.len(), |i: int| s@[i] as u8));
    assert forall|i: int| 0 <= i < s.spec_bytes().len() implies header_value_byte(
        #[trigger] s.spec_bytes()[i],
    ) by {
        assert(' ' <= s@[i] <= '~');
    }
}

/// The parts of a request ready to be handed to the client.
#[derive(Debug)]
pub struct PreparedRequest {
    /// The method name.
    pub method: String,
    /// The URI.
    pub uri: http::Uri,
    /// The headers, in order: names given as text in their normalized form,
    /// names from a header map as they were.
    pub headers: Vec<(Vec<u8>, Vec<u8>)>,
    /// The body bytes.
    pub body: Vec<u8>,
}

/// The UTF-8 bytes of a string.
pub open spec fn encode_utf8_of(s: Seq<char>) -> Seq<u8> {
    vstd::utf8::encode_utf8(s)
}

/// Bytes that form a valid method name: one or more token characters.
pub open spec fn valid_method_name(s: Seq<u8>) -> bool {
    &&& s.len() > 0
    &&& forall|i: int| 0 <= i < s.len() ==> header_char(#[trigger] s[i]) != 0
}

/// `Method::from_bytes`: accepted exactly when the bytes are one or more
/// token characters. The error converts into `http::Error`.
#[verifier::external_body]
fn method_check(s: &str) -> (r: Result<(), http::Error>)
    ensures
        r is Ok <==> valid_method_name(s.spec_bytes()),
{
    http::Method::from_bytes(s.as_bytes()).map(|_| ()).map_err(http::Error::from)
}

/// The bytes `serde_json::to_vec` writes for a JSON document: its compact
/// serialization, a function of the document alone.
pub uninterp spec fn json_serialized(v: serde_json::Value) -> Seq<u8>;

/// The text `Display` writes for a JSON document: its compact rendering, a
/// function of the document alone.
pub uninterp spec fn json_rendering(v: serde_json::Value) -> Seq<char>;

/// `serde_json::to_vec` of a JSON document, which always succeeds: a document's
/// keys are strings and its numbers finite, and writing to a `Vec` cannot fail.
#[verifier::external_body]
fn json_to_vec(v: &serde_json::Value) -> (r: Result<Vec<u8>, serde_json::Error>)
    ensures
        r is Ok,
        r matches Ok(b) ==> b@ == json_serialized(*v),
{
    serde_json::to_vec(v)
}

/// The JSON rendering of a document, as its `Display` writes it.
#[verifier::external_body]
fn json_text(v: &serde_json::Value) -> (s: String)
    ensures
        s@ == json_rendering(*v),
{
    v.to_string()
}


/// Make a POST request to the specified URL with a body
pub fn post(url: http::Uri) -> (r: RequestBuilder)
    ensures
        r@ == new_request_view(default_config(), "POST"@, url),
{
    Client::new().post(url)
}

/// Applying the client's headers never touches the request's own headers:
/// they stay first and unchanged, and every added pair carries a name the
/// request did not have.
pub proof fn lemma_client_headers_keep_request_headers(
    headers: Seq<(Seq<u8>, Seq<u8>)>,
    config: ClientConfigView,
)
    ensures
        with_client_headers(headers, config).len() >= headers.len(),
        with_client_headers(headers, config).take(headers.len() as int) == headers,
        forall|k: int|
            headers.len() <= k < with_client_headers(headers, config).len() ==> !has_header_name(
                headers,
                (#[trigger] with_client_headers(headers, config)[k]).0,
            ),
{
    lemma_default_headers_keep_request_headers(headers, config.default_headers);
    let merged = with_default_headers(headers, config.default_headers);
    let full = with_client_headers(headers, config);
    if full != merged {
        assert(full.take(headers.len() as int) =~= merged.take(headers.len() as int));
        assert forall|k: int| headers.len() <= k < full.len() implies !has_header_name(
            headers,
            (#[trigger] full[k]).0,
        ) by {
            if k < merged.len() {
                assert(full[k] == merged[k]);
            } else {
                if has_header_name(headers, full[k].0) {
                    let j = choose|j: int| 0 <= j < headers.len() && #[trigger] headers[j].0 == full[k].0;
                    assert(merged[j] == headers[j]);
                }
            }
        }
    }
}

/// Applying default headers adds at most one pair per default.
proof fn lemma_default_headers_len(headers: Seq<(Seq<u8>, Seq<u8>)>, defaults: Seq<(Seq<u8>, Seq<u8>)>)
    ensures
        with_default_headers(headers, defaults).len() <= headers.len() + defaults.len(),
    decreases defaults.len(),
{
    if defaults.len() > 0 {
        lemma_default_headers_len(headers, defaults.drop_last());
    }
}

proof fn lemma_default_headers_keep_request_headers(
    headers: Seq<(Seq<u8>, Seq<u8>)>,
    defaults: Seq<(Seq<u8>, Seq<u8>)>,
)
    ensures
        with_default_headers(headers, defaults).len() >= headers.len(),
        with_default_headers(headers, defaults).take(headers.len() as int) == headers,
        forall|k: int|
            headers.len() <= k < with_default_headers(headers, defaults).len() ==> !has_header_name(
                headers,
                (#[trigger] with_default_headers(headers, defaults)[k]).0,
            ),
    decreases defaults.len(),
{
    if defaults.len() == 0 {
        assert(headers.take(headers.len() as int) =~= headers);
    } else {
        lemma_default_headers_keep_request_headers(headers, defaults.drop_last());
        let before = with_default_headers(headers, defaults.drop_last());
        let after = with_default_headers(headers, defaults);
        if !has_header_name(before, defaults.last().0) {
            assert(after.take(headers.len() as int) =~= before.take(headers.len() as int));
            assert forall|k: int| headers.len() <= k < after.len() implies !has_header_name(
                headers,
                (#[trigger] after[k]).0,
            ) by {
                if k < before.len() {
                    assert(after[k] == before[k]);
                } else {
                    if has_header_name(headers, after[k].0) {
                        let j = choose|j: int| 0 <= j < headers.len() && #[trigger] headers[j].0 == after[k].0;
                        assert(before[j] == headers[j]);
                    }
                }
            }
        }
    }
}

/// Applying default headers adds a name only where it is one of the defaults'
/// names.
proof fn lemma_default_headers_names(
    headers: Seq<(Seq<u8>, Seq<u8>)>,
    defaults: Seq<(Seq<u8>, Seq<u8>)>,
    name: Seq<u8>,
)
    requires
        !has_header_name(headers, name),
        !has_header_name(defaults, name),
    ensures
        !has_header_name(with_default_headers(headers, defaults), name),
    decreases defaults.len(),
{
    if defaults.len() > 0 {
        let init = defaults.drop_last();
        if has_header_name(init, name) {
            let j = choose|j: int| 0 <= j < init.len() && #[trigger] init[j].0 == name;
            assert(defaults[j] == init[j]);
        }
        lemma_default_headers_names(headers, init, name);
        let before = with_default_headers(headers, init);
        assert(defaults.last() == defaults[defaults.len() - 1]);
        let after = with_default_headers(headers, defaults);
        if has_header_name(after, name) {
            let j = choose|j: int| 0 <= j < after.len() && #[trigger] after[j].0 == name;
            if j < before.len() {
                assert(after[j] == before[j]);
            }
        }
    }
}

/// The configured user agent reaches a request that carries none: where
/// neither the request nor the default headers hold a "user-agent" header and
/// the configured user agent is a valid header value, the headers gain exactly
/// one "user-agent" pair, the last one, whose value is the UTF-8 of the
/// configured user agent. Where the client has no user agent, none is added.
pub proof fn lemma_configured_user_agent_is_sent(
    headers: Seq<(Seq<u8>, Seq<u8>)>,
    config: ClientConfigView,
)
    requires
        !has_header_name(headers, "user-agent".spec_bytes()),
        !has_header_name(config.default_headers, "user-agent".spec_bytes()),
    ensures
        ({
            let out = with_client_headers(headers, config);
            &&& config.user_agent matches Some(ua) ==> (valid_header_value(vstd::utf8::encode_utf8(ua))
                ==> {
                &&& out.len() > 0
                &&& out.last() == ("user-agent".spec_bytes(), vstd::utf8::encode_utf8(ua))
                &&& forall|k: int| 0 <= k < out.len() - 1 ==> #[trigger] out[k].0 != "user-agent".spec_bytes()
            })
            &&& config.user_agent is None ==> !has_header_name(out, "user-agent".spec_bytes())
        }),
{
    lemma_user_agent_name();
    let name = "user-agent".spec_bytes();
    lemma_default_headers_names(headers, config.default_headers, name);
    let merged = with_default_headers(headers, config.default_headers);
    let out = with_client_headers(headers, config);
    if let Some(ua) = config.user_agent {
        if valid_header_value(vstd::utf8::encode_utf8(ua)) {
            assert(out == merged.push((user_agent_name(), vstd::utf8::encode_utf8(ua))));
            assert forall|k: int| 0 <= k < out.len() - 1 implies #[trigger] out[k].0 != name by {
                assert(out[k] == merged[k]);
            }
        }
    }
}

/// After the client's default headers are applied, every default name is
/// present, and a name present before stays present.
pub proof fn lemma_default_headers_all_present(
    headers: Seq<(Seq<u8>, Seq<u8>)>,
    defaults: Seq<(Seq<u8>, Seq<u8>)>,
)
    ensures
        forall|k: int|
            0 <= k < defaults.len() ==> has_header_name(
                with_default_headers(headers, defaults),
                (#[trigger] defaults[k]).0,
            ),
        forall|name: Seq<u8>|
            has_header_name(headers, name) ==> #[trigger] has_header_name(
                with_default_headers(headers, defaults),
                name,
            ),
    decreases defaults.len(),
{
    if defaults.len() > 0 {
        lemma_default_headers_all_present(headers, defaults.drop_last());
        let before = with_default_headers(headers, defaults.drop_last());
        let after = with_default_headers(headers, defaults);
        assert forall|name: Seq<u8>| has_header_name(before, name) implies #[trigger] has_header_name(
            after,
            name,
        ) by {
            let j = choose|j: int| 0 <= j < before.len() && #[trigger] before[j].0 == name;
            if after != before {
                assert(after[j] == before[j]);
            }
        }
        assert forall|k: int| 0 <= k < defaults.len() implies has_header_name(
            after,
            (#[trigger] defaults[k]).0,
        ) by {
            if k < defaults.len() - 1 {
                assert(defaults[k] == defaults.drop_last()[k]);
                assert(has_header_name(before, defaults.drop_last()[k].0));
            } else if !has_header_name(before, defaults.last().0) {
                assert(after[after.len() - 1] == defaults.last());
            }
        }
        assert forall|name: Seq<u8>| has_header_name(headers, name) implies #[trigger] has_header_name(
            after,
            name,
        ) by {
            assert(has_header_name(before, name));
        }
    }
}

} // verus!
