use futures_native::request::{post, Client, ClientBuilder, Error, FormDocument, FormMember, RedirectPolicy};
use futures_native::response::{decode_text, Response, ResponseBody, ResponseWrapper};
use futures_native::time::Duration;

fn uri(s: &str) -> http::Uri {
    s.parse().unwrap()
}

fn header_pairs(map: &http::HeaderMap) -> Vec<(String, String)> {
    map.iter().map(|(n, v)| (n.as_str().to_string(), v.to_str().unwrap().to_string())).collect()
}

#[test]
fn redirect_policy_defaults_to_ten() {
    assert_eq!(RedirectPolicy::default(), RedirectPolicy::Limited(10));
}

#[test]
fn client_builder_sets_each_option() {
    let mut defaults = http::HeaderMap::new();
    defaults.insert("x-token", http::HeaderValue::from_static("abc"));
    let client = ClientBuilder::new()
        .timeout(Duration::from_secs(5))
        .user_agent("tester/2")
        .default_headers(defaults)
        .cookie_store(true)
        .proxy("http://proxy:8080")
        .no_proxy()
        .redirect(RedirectPolicy::NoFollow)
        .build();
    let config = client.config();
    assert_eq!(config.timeout, Some(Duration::from_secs(5)));
    assert_eq!(config.user_agent.as_deref(), Some("tester/2"));
    assert_eq!(header_pairs(&config.default_headers), vec![("x-token".to_string(), "abc".to_string())]);
    assert!(config.cookie_store);
    assert_eq!(config.proxy.as_deref(), Some("http://proxy:8080"));
    assert!(config.no_proxy);
    assert_eq!(config.redirect_policy, RedirectPolicy::NoFollow);
    let client = ClientBuilder::new().timeout(Duration::from_secs(5)).no_timeout().build();
    assert_eq!(client.config().timeout, None);
}

#[test]
fn default_client_configuration() {
    let client = Client::new();
    let config = client.config();
    assert_eq!(config.timeout, Some(Duration::from_secs(30)));
    assert_eq!(config.user_agent.as_deref(), Some("platform-http/1.0"));
    assert!(config.default_headers.is_empty());
    assert_eq!(config.redirect_policy, RedirectPolicy::Limited(10));
    assert!(!config.cookie_store);
    assert_eq!(config.proxy, None);
    assert!(!config.no_proxy);
}

#[test]
fn prepared_request_carries_method_uri_headers_and_body() {
    let client = Client::new();
    let (_, prepared) = client
        .put(uri("http://example.com/a"))
        .header("X-Trace", "on")
        .body(b"payload".to_vec())
        .prepare()
        .unwrap();
    assert_eq!(prepared.method, "PUT");
    assert_eq!(prepared.uri, uri("http://example.com/a"));
    assert_eq!(prepared.headers, vec![(b"x-trace".to_vec(), b"on".to_vec())]);
    assert_eq!(prepared.body, b"payload".to_vec());
    let (_, prepared) = client.get(uri("http://example.com/")).prepare().unwrap();
    assert_eq!(prepared.method, "GET");
    assert!(prepared.body.is_empty());
    let (_, prepared) = client.delete(uri("http://example.com/")).prepare().unwrap();
    assert_eq!(prepared.method, "DELETE");
    let (_, prepared) = post(uri("http://example.com/")).prepare().unwrap();
    assert_eq!(prepared.method, "POST");
    let (_, prepared) = client.request(http::Method::PATCH.as_str(), uri("http://example.com/")).prepare().unwrap();
    assert_eq!(prepared.method, "PATCH");
}

#[test]
fn invalid_header_value_stops_the_request() {
    let result = Client::new()
        .get(uri("http://example.com/"))
        .header("x-bad", "line\nbreak")
        .header("x-good", "fine")
        .prepare();
    assert!(matches!(result, Err(Error::InvalidHeader(_))));
}

#[test]
fn invalid_header_name_fails_when_prepared() {
    let result = Client::new().get(uri("http://example.com/")).header("bad name", "v").prepare();
    assert!(matches!(result, Err(Error::Http(_))));
}

#[test]
fn header_map_adds_every_value_of_each_name() {
    let mut map = http::HeaderMap::new();
    map.append("accept", http::HeaderValue::from_static("a"));
    map.append("accept", http::HeaderValue::from_static("b"));
    map.append("x-one", http::HeaderValue::from_static("1"));
    let (_, prepared) = Client::new().get(uri("http://example.com/")).headers(map).prepare().unwrap();
    assert_eq!(
        prepared.headers,
        vec![
            (b"accept".to_vec(), b"a".to_vec()),
            (b"accept".to_vec(), b"b".to_vec()),
            (b"x-one".to_vec(), b"1".to_vec())
        ]
    );
}

#[test]
fn json_body_sets_content_type_and_serializes_at_prepare() {
    let value = serde_json::to_value(vec![1, 2]);
    let (_, prepared) = Client::new().post(uri("http://example.com/")).json(value).prepare().unwrap();
    assert_eq!(prepared.headers, vec![(b"content-type".to_vec(), b"application/json".to_vec())]);
    assert_eq!(prepared.body, b"[1,2]".to_vec());
}

#[test]
fn form_body_pairs_members_and_sets_content_type() {
    let document = FormDocument::Object(vec![
        ("name".to_string(), FormMember::Str("ann lee".to_string())),
        ("age".to_string(), FormMember::Other(serde_json::Value::from(7))),
        ("tag&".to_string(), FormMember::Str("a=b/c*".to_string())),
    ]);
    let (_, prepared) = Client::new().post(uri("http://example.com/")).form(Ok(document)).prepare().unwrap();
    assert_eq!(
        prepared.headers,
        vec![(b"content-type".to_vec(), b"application/x-www-form-urlencoded".to_vec())]
    );
    assert_eq!(prepared.body, b"name=ann+lee&age=7&tag%26=a%3Db%2Fc*".to_vec());
}

#[test]
fn form_encodes_non_ascii_bytes_in_upper_case_hex() {
    let document = FormDocument::Object(vec![("k".to_string(), FormMember::Str("\u{e9}".to_string()))]);
    let (_, prepared) = Client::new().post(uri("http://example.com/")).form(Ok(document)).prepare().unwrap();
    assert_eq!(prepared.body, b"k=%C3%A9".to_vec());
}

#[test]
fn empty_form_has_an_empty_body() {
    let document = FormDocument::Object(Vec::new());
    let (_, prepared) = Client::new().post(uri("http://example.com/")).form(Ok(document)).prepare().unwrap();
    assert_eq!(prepared.body, Vec::<u8>::new());
}

#[test]
fn recorded_error_comes_before_a_form_body() {
    let document = FormDocument::Object(vec![("a".to_string(), FormMember::Str("1".to_string()))]);
    let result = Client::new()
        .post(uri("http://example.com/"))
        .header("x", "bad\nvalue")
        .form(Ok(document))
        .prepare();
    assert!(matches!(result, Err(Error::InvalidHeader(_))));
}

#[test]
fn form_of_a_non_object_is_an_error() {
    let builder = Client::new().post(uri("http://example.com/")).form(Ok(FormDocument::NotObject));
    match builder.prepare() {
        Err(Error::Platform(m)) => assert_eq!(m, "Failed to serialize form data"),
        other => panic!("unexpected: {:?}", other.map(|_| ())),
    }
}

#[test]
fn default_headers_and_user_agent_are_added_when_missing() {
    let mut defaults = http::HeaderMap::new();
    defaults.insert("accept", http::HeaderValue::from_static("*/*"));
    defaults.insert("x-token", http::HeaderValue::from_static("abc"));
    let client = ClientBuilder::new().default_headers(defaults).build();
    let mut headers = http::HeaderMap::new();
    headers.insert("accept", http::HeaderValue::from_static("text/plain"));
    assert!(client.apply_default_headers(&mut headers));
    assert_eq!(
        header_pairs(&headers),
        vec![
            ("accept".to_string(), "text/plain".to_string()),
            ("x-token".to_string(), "abc".to_string()),
            ("user-agent".to_string(), "platform-http/1.0".to_string()),
        ]
    );
}

#[test]
fn request_user_agent_is_kept() {
    let client = Client::new();
    let mut headers = http::HeaderMap::new();
    headers.insert("user-agent", http::HeaderValue::from_static("mine"));
    assert!(client.apply_default_headers(&mut headers));
    assert_eq!(header_pairs(&headers), vec![("user-agent".to_string(), "mine".to_string())]);
}

#[test]
fn dispatch_on_this_platform_reports_a_platform_error() {
    let client = Client::new();
    let request = http::Request::builder()
        .uri("http://example.com/")
        .body(http_body_util::Full::new(bytes::Bytes::new()))
        .unwrap();
    let mut future = client.dispatch(request);
    assert!(!future.is_taken());
    match future.poll() {
        Some(Err(Error::Platform(m))) => assert_eq!(m, "Linux implementation not yet available"),
        _ => panic!("expected a platform error"),
    }
    assert!(future.is_taken());
}

#[test]
fn response_body_yields_its_data_once() {
    let mut body = ResponseBody::from_data(b"hi".to_vec());
    assert!(matches!(body.poll_frame(), Some(Ok(d)) if d == b"hi".to_vec()));
    assert!(body.poll_frame().is_none());
    let mut failing = ResponseBody::from_error(Error::Timeout);
    assert!(matches!(failing.poll_frame(), Some(Err(Error::Timeout))));
    assert!(failing.poll_frame().is_none());
}

fn response_with(status: u16, headers: &[(&'static str, &'static str)]) -> ResponseWrapper {
    let mut map = http::HeaderMap::new();
    for (n, v) in headers {
        map.append(*n, http::HeaderValue::from_static(v));
    }
    ResponseWrapper::new(Response::new(status, map, ResponseBody::from_data(Vec::new())))
}

#[test]
fn status_success_is_two_hundreds() {
    assert!(response_with(200, &[]).is_success());
    assert!(response_with(299, &[]).is_success());
    assert!(!response_with(199, &[]).is_success());
    assert!(!response_with(300, &[]).is_success());
    assert!(!response_with(404, &[]).is_success());
    assert_eq!(response_with(404, &[]).status(), 404);
    assert_eq!(response_with(200, &[]).url(), "");
}

#[test]
fn content_length_parses_the_first_header() {
    assert_eq!(response_with(200, &[("content-length", "42")]).content_length(), Some(42));
    assert_eq!(response_with(200, &[("content-length", "+7")]).content_length(), Some(7));
    assert_eq!(response_with(200, &[("content-length", "3"), ("content-length", "9")]).content_length(), Some(3));
    assert_eq!(response_with(200, &[("content-length", "18446744073709551615")]).content_length(), Some(u64::MAX));
    assert_eq!(response_with(200, &[("content-length", "18446744073709551616")]).content_length(), None);
    assert_eq!(response_with(200, &[("content-length", "")]).content_length(), None);
    assert_eq!(response_with(200, &[("content-length", "+")]).content_length(), None);
    assert_eq!(response_with(200, &[("content-length", "-1")]).content_length(), None);
    assert_eq!(response_with(200, &[("content-length", " 4")]).content_length(), None);
    assert_eq!(response_with(200, &[]).content_length(), None);
}

#[test]
fn response_text_must_be_utf8() {
    assert_eq!(decode_text("héllo".as_bytes().to_vec()).unwrap(), "héllo");
    match decode_text(vec![0xff, 0xfe]) {
        Err(Error::Platform(m)) => assert_eq!(m, "Invalid UTF-8 in response body"),
        _ => panic!("expected an error"),
    }
}

#[test]
fn error_messages_name_their_kind() {
    assert_eq!(Error::Network("down".to_string()).to_string(), "Network error: down");
    assert_eq!(Error::Platform("x".to_string()).to_string(), "Platform error: x");
    assert_eq!(Error::Timeout.to_string(), "Request timeout");
    let invalid = http::HeaderValue::from_str("\n").unwrap_err();
    assert!(Error::InvalidHeader(invalid).to_string().starts_with("Invalid header: "));
}

#[test]
fn prepared_request_keeps_the_client_configuration() {
    let mut defaults = http::HeaderMap::new();
    defaults.insert("x-token", http::HeaderValue::from_static("abc"));
    let client = ClientBuilder::new().default_headers(defaults).user_agent("agent/3").build();
    let (sender, _) = client.get(uri("http://example.com/")).prepare().unwrap();
    assert_eq!(header_pairs(&sender.config().default_headers), vec![("x-token".to_string(), "abc".to_string())]);
    assert_eq!(sender.config().user_agent.as_deref(), Some("agent/3"));
}

#[test]
fn json_serialization_failure_is_a_platform_error() {
    let mut map = std::collections::BTreeMap::new();
    map.insert(vec![1u8], 2u8);
    let result = Client::new().post(uri("http://example.com/")).json(serde_json::to_value(&map)).prepare();
    match result {
        Err(Error::Platform(m)) => assert_eq!(m, "Failed to serialize JSON"),
        _ => panic!("expected a platform error"),
    }
}

#[test]
fn invalid_method_name_is_an_http_error() {
    let result = Client::new().request("GE T", uri("http://example.com/")).prepare();
    assert!(matches!(result, Err(Error::Http(_))));
    let result = Client::new().request("", uri("http://example.com/")).prepare();
    assert!(matches!(result, Err(Error::Http(_))));
    let (_, prepared) = Client::new().request("PURGE", uri("http://example.com/")).prepare().unwrap();
    assert_eq!(prepared.method, "PURGE");
}

#[test]
fn header_map_names_are_kept_as_given() {
    let mut map = http::HeaderMap::new();
    map.insert(http::HeaderName::from_static("x\"q"), http::HeaderValue::from_static("1"));
    let (_, prepared) = Client::new().get(uri("http://example.com/")).headers(map).prepare().unwrap();
    assert_eq!(prepared.headers, vec![(b"x\"q".to_vec(), b"1".to_vec())]);
}

#[test]
fn invalid_header_message_is_fixed() {
    let result = Client::new().get(uri("http://example.com/")).header("x", "a\nb").prepare();
    match result {
        Err(e) => assert_eq!(e.to_string(), "Invalid header: failed to parse header value"),
        Ok(_) => panic!("expected an error"),
    }
}

#[test]
fn form_renders_non_string_members_as_json() {
    let document = FormDocument::Object(vec![
        ("list".to_string(), FormMember::Other(serde_json::from_str("[1,true,null]").unwrap())),
        ("obj".to_string(), FormMember::Other(serde_json::from_str("{\"a\":\"b\"}").unwrap())),
    ]);
    let (_, prepared) = Client::new().post(uri("http://example.com/")).form(Ok(document)).prepare().unwrap();
    assert_eq!(
        prepared.body,
        b"list=%5B1%2Ctrue%2Cnull%5D&obj=%7B%22a%22%3A%22b%22%7D".to_vec()
    );
}
