use std::sync::Arc;

use azure_core::http::headers::{HeaderName, Headers};
use azure_transport::client::{AzurePolicyHttpClient, CredentialRequest, PreparedRequest};
use azure_transport::endpoint::{scheme_port, shown_url, UrlHost, UrlParts};
use azure_transport::error::{ErrorKind, TransportError};
use azure_transport::headers::{to_headers, undecodable_names};
use azure_transport::method::{from_method, Method};
use azure_transport::net::{IpAddr, Ipv4Addr, Ipv6Addr, SocketAddr, Target};
use azure_transport::policy::{
    system_trust, BackendTrafficPolicy, SimpleBackendReference, Tunnel, HTTP,
};
use azure_transport::request::build_request;
use azure_transport::time::Duration;

fn tunnel() -> BackendTrafficPolicy {
    BackendTrafficPolicy::Tunnel(Tunnel {
        proxy: SimpleBackendReference::Backend("proxy".to_owned()),
    })
}

fn client() -> AzurePolicyHttpClient {
    AzurePolicyHttpClient { policies: Arc::new(vec![tunnel(), BackendTrafficPolicy::Other(4)]) }
}

fn request(method: Method, url: &str) -> CredentialRequest {
    CredentialRequest { method, url: url.to_owned(), headers: Headers::new() }
}

fn get(url: &str) -> CredentialRequest {
    request(Method::Get, url)
}

fn prepare(request: &CredentialRequest) -> PreparedRequest {
    client().prepare_request(request).expect("a request that can be sent")
}

fn header<'a>(headers: &'a Headers, name: &'static str) -> Option<&'a str> {
    headers.get_optional_str(&HeaderName::from_static(name))
}

#[test]
fn methods_keep_their_text() {
    for (method, text) in [
        (Method::Get, "GET"),
        (Method::Head, "HEAD"),
        (Method::Post, "POST"),
        (Method::Put, "PUT"),
        (Method::Delete, "DELETE"),
        (Method::Patch, "PATCH"),
        (Method::Other("OPTIONS".to_owned()), "OPTIONS"),
        (Method::Other("get".to_owned()), "get"),
        (Method::Other("x-!#$%&'*+-.^_`|~9".to_owned()), "x-!#$%&'*+-.^_`|~9"),
    ] {
        assert_eq!(from_method(&method).unwrap(), text);
    }
    for text in ["", "GE T", "GET\r\n", "G(T", "G\u{c9}T", "a/b"] {
        assert!(from_method(&Method::Other(text.to_owned())).is_err(), "{text}");
    }
}

#[test]
fn https_request_is_prepared() {
    let mut asked = request(
        Method::Post,
        "https://login.microsoftonline.com/tenant/oauth2/v2.0/token?api-version=1#part",
    );
    asked.headers.insert("content-type", "application/x-www-form-urlencoded");
    asked.headers.insert("x-note", "caf\u{e9}\ttab");
    let prepared = prepare(&asked);
    assert_eq!(prepared.request.method(), http::Method::POST);
    assert_eq!(
        prepared.request.uri().to_string(),
        "https://login.microsoftonline.com/tenant/oauth2/v2.0/token?api-version=1"
    );
    assert_eq!(prepared.request.headers().len(), 2);
    assert_eq!(
        prepared.request.headers()["content-type"],
        "application/x-www-form-urlencoded"
    );
    assert_eq!(prepared.request.headers()["x-note"].as_bytes(), "caf\u{e9}\ttab".as_bytes());
    assert_eq!(prepared.timeout, Duration::from_secs(5));
    assert_eq!(
        prepared.route.target,
        Target::Hostname("login.microsoftonline.com".to_owned(), 443)
    );
    assert_eq!(
        prepared.route.policies,
        vec![
            tunnel(),
            BackendTrafficPolicy::Other(4),
            BackendTrafficPolicy::BackendTLS(system_trust()),
        ]
    );
}

#[test]
fn metadata_request_is_prepared() {
    let mut asked = get("http://169.254.169.254/metadata/identity/oauth2/token?resource=x");
    asked.headers.insert("metadata", "true");
    let prepared = prepare(&asked);
    assert_eq!(prepared.request.method(), http::Method::GET);
    assert_eq!(prepared.request.headers()["metadata"], "true");
    assert_eq!(
        prepared.route.target,
        Target::Address(SocketAddr {
            ip: IpAddr::V4(Ipv4Addr { octets: [169, 254, 169, 254] }),
            port: 80,
        })
    );
    assert_eq!(prepared.route.policies, vec![BackendTrafficPolicy::Other(4)]);
}

#[test]
fn loopback_requests_bypass_the_tunnel() {
    let prepared = prepare(&get("http://LOCALHOST:40342/metadata"));
    assert_eq!(prepared.route.target, Target::Hostname("localhost".to_owned(), 40342));
    assert_eq!(prepared.route.policies, vec![BackendTrafficPolicy::Other(4)]);
    let prepared = prepare(&get("http://[::1]:40342/metadata"));
    assert_eq!(
        prepared.route.target,
        Target::Address(SocketAddr {
            ip: IpAddr::V6(Ipv6Addr { segments: [0, 0, 0, 0, 0, 0, 0, 1] }),
            port: 40342,
        })
    );
    assert_eq!(prepared.route.policies, vec![BackendTrafficPolicy::Other(4)]);
}

#[test]
fn ports_of_urls() {
    for (url, port) in [
        ("http://token.test/a", 80),
        ("https://token.test/a", 443),
        ("https://token.test:80/a", 80),
        ("http://token.test:8080/a", 8080),
        ("https://token.test:443/a", 443),
        ("http://token.test:80/a", 80),
        ("http://token.test:443/a", 443),
        ("ws://token.test/a", 80),
        ("wss://token.test/a", 443),
        ("ftp://token.test/a", 21),
        ("other://token.test/a", 80),
        ("other://token.test:9/a", 9),
    ] {
        let prepared = prepare(&get(url));
        assert_eq!(prepared.route.target, Target::Hostname("token.test".to_owned(), port), "{url}");
    }
}

#[test]
fn ports_of_schemes() {
    for (scheme, port) in [
        ("http", Some(80)),
        ("ws", Some(80)),
        ("https", Some(443)),
        ("wss", Some(443)),
        ("ftp", Some(21)),
        ("file", None),
        ("HTTPS", None),
        ("", None),
    ] {
        assert_eq!(scheme_port(scheme), port, "{scheme}");
    }
}

#[test]
fn url_that_is_not_absolute_is_refused() {
    for url in ["", "/token", "token.test", "https://", "http://token.test:99999/"] {
        let error = client().prepare_request(&get(url)).unwrap_err();
        assert!(matches!(error, TransportError::InvalidUrl(_)), "{url}: {error:?}");
        assert_eq!(error.kind(), ErrorKind::DataConversion);
        assert_eq!(error.message(), None);
    }
}

#[test]
fn method_that_is_none_is_refused() {
    let asked = request(Method::Other("NO METHOD".to_owned()), "mailto:token");
    let error = client().prepare_request(&asked).unwrap_err();
    assert!(matches!(error, TransportError::InvalidMethod(_)), "{error:?}");
    assert_eq!(error.kind(), ErrorKind::DataConversion);
    assert_eq!(error.message(), None);
}

#[test]
fn request_that_cannot_be_built_is_refused() {
    let mut bad_name = get("https://token.test/");
    bad_name.headers.insert("bad name", "x");
    let mut bad_value = get("https://token.test/");
    bad_value.headers.insert("name", "a\nb");
    // A URL of a file has neither an authority nor a host.
    let bad_uri = get("file:///tmp/token");
    for asked in [bad_name, bad_value, bad_uri] {
        let error = client().prepare_request(&asked).unwrap_err();
        assert!(matches!(error, TransportError::Build(_)), "{error:?}");
        assert_eq!(error.kind(), ErrorKind::Other);
        assert_eq!(
            error.message().unwrap(),
            "failed to build `agentgateway` policy client request"
        );
    }
}

#[test]
fn url_without_host_is_refused() {
    let error = client().prepare_request(&get("mailto:token")).unwrap_err();
    assert!(matches!(error, TransportError::NoHost(_)), "{error:?}");
    assert_eq!(error.kind(), ErrorKind::DataConversion);
    assert_eq!(error.message().unwrap(), "credential request url 'mailto:token' has no host");
    // The URL is shown in its normal form.
    let error = client().prepare_request(&get("MailTo:Token")).unwrap_err();
    assert_eq!(error.message().unwrap(), "credential request url 'mailto:Token' has no host");
}

#[test]
fn shown_urls_are_redacted() {
    assert_eq!(
        shown_url("https://token.test/a?api-version=1&client_secret=s3").unwrap(),
        "https://token.test/a?api-version=1&client_secret=REDACTED"
    );
    assert_eq!(shown_url("HTTPS://token.test").unwrap(), "https://token.test/");
    assert_eq!(shown_url("token.test"), None);
    for (url, shown) in [
        ("https://token.test/a?", "https://token.test/a?"),
        ("https://token.test/a?&&", "https://token.test/a?"),
        ("https://token.test/a#b?c=d", "https://token.test/a#b?c=d"),
        ("https://token.test/a?b=c#d?e", "https://token.test/a?b=REDACTED#d?e"),
        ("https://token.test/a?b&b=1", "https://token.test/a?b=REDACTED&b=REDACTED"),
        ("https://token.test/a?b%20c=d", "https://token.test/a?b+c=REDACTED"),
        ("https://token.test/a?api-version=%7E%20", "https://token.test/a?api-version=%7E+"),
        ("https://token.test/a?Api-Version=1", "https://token.test/a?Api-Version=REDACTED"),
        ("https://u:p@token.test:1/a?b=c", "https://u:p@token.test:1/a?b=REDACTED"),
        ("mailto:token?b=c", "mailto:token?b=REDACTED"),
        ("other:///a?b=c#d", "other:///a?b=REDACTED#d"),
    ] {
        assert_eq!(shown_url(url).unwrap(), shown, "{url}");
    }
}

#[test]
fn urls_too_long_for_a_request_are_not_shown() {
    let url = |n: usize, end: &str| format!("https://token.test/?{}{end}", "~".repeat(n));
    let longest = url(65534 - 22, "#p");
    assert_eq!(longest.len(), 65534);
    let shown = shown_url(&longest).unwrap();
    assert_eq!(shown.len(), 65534 + 2 * (65534 - 22) + 9);
    assert!(shown.ends_with("%7E%7E=REDACTED#p"));
    assert!(client().prepare_request(&get(&longest)).is_ok());
    assert_eq!(shown_url(&url(65534 - 21, "#p")), None);
    // Without a fragment, or without a query, any length can be shown.
    assert!(shown_url(&url(65534, "")).unwrap().ends_with("%7E=REDACTED"));
    let path = format!("https://token.test/{}#p", "~".repeat(65534));
    assert_eq!(shown_url(&path), Some(path.clone()));
    for refused in [url(65534 - 21, "#p"), url(65534, ""), path] {
        let error = client().prepare_request(&get(&refused)).unwrap_err();
        assert!(matches!(error, TransportError::Build(_)), "{error:?}");
    }
}

#[test]
fn redacted_values_leave_no_trace() {
    let first = "https://token.test/a?x=1&api-version=2&client_secret=s3#part";
    let second = "https://token.test/a?x=&api-version=2&client_secret=another#part";
    assert_eq!(shown_url(first), shown_url(second));
    assert_ne!(shown_url(first), shown_url("https://token.test/a?x=1&api-version=3"));
}

#[test]
fn hostless_requests_are_refused_alike() {
    for (first, second) in [
        ("mailto:token?code=s3", "mailto:token?code=another"),
        ("mailto:?code=s3", "mailto:?code="),
        ("other:/a?code=s3", "other:/a?code=another"),
        ("other:/.//a?code=s3", "other:/.//a?code=another"),
        ("other:///a?code=s3", "other:///a?code=another"),
        ("other:///../a?code=s3", "other:///../a?code=another"),
        ("other://?code=s3", "other://?code=another"),
        ("file:///a?code=s3", "file:///a?code=another"),
        ("file://localhost/a?code=s3", "file:///a?code=another"),
        ("a:b@c?code=s3", "a:b@c?code=another"),
        ("a:1?code=s3", "a:1?code=another"),
    ] {
        let a = client().prepare_request(&get(first)).unwrap_err();
        let b = client().prepare_request(&get(second)).unwrap_err();
        assert!(matches!(a, TransportError::Build(_)), "{first}: {a:?}");
        assert_eq!(a.kind(), b.kind(), "{first}");
        assert_eq!(a.message(), b.message(), "{first}");
    }
    let method = || Method::Other("NO METHOD".to_owned());
    let a = client().prepare_request(&request(method(), "mailto:a?code=s3")).unwrap_err();
    let b = client().prepare_request(&request(method(), "mailto:a?code=another")).unwrap_err();
    assert!(matches!(a, TransportError::InvalidMethod(_)), "{a:?}");
    assert_eq!(a.kind(), b.kind());
    assert_eq!(a.message(), b.message());
}

#[test]
fn http_settings_are_handed_on() {
    let http = BackendTrafficPolicy::HTTP(HTTP { request_timeout: None, settings: Some(7) });
    let client = AzurePolicyHttpClient {
        policies: Arc::new(vec![http.clone(), BackendTrafficPolicy::HTTP(HTTP::default())]),
    };
    let prepared = client.prepare_request(&get("http://token.test/")).unwrap();
    assert_eq!(
        prepared.route.policies,
        vec![http, BackendTrafficPolicy::HTTP(HTTP { request_timeout: None, settings: None })]
    );
}

#[test]
fn routes_by_parts() {
    let mut url = UrlParts {
        text: "other:x".to_owned(),
        scheme: "other".to_owned(),
        host: None,
        port: Some(5),
        before_query: "other:x".to_owned(),
        query: None,
        fragment: None,
    };
    assert!(client().route(&url).is_none());
    assert_eq!(url.target(), None);
    url.host = Some(UrlHost::Domain("token.test".to_owned()));
    url.port = None;
    let route = client().route(&url).unwrap();
    assert_eq!(route.target, Target::Hostname("token.test".to_owned(), 80));
    assert_eq!(route.policies, vec![tunnel(), BackendTrafficPolicy::Other(4)]);
    url.host = Some(UrlHost::Ipv4(Ipv4Addr { octets: [127, 1, 2, 3] }));
    url.scheme = "https".to_owned();
    let route = client().route(&url).unwrap();
    assert_eq!(
        route.target,
        Target::Address(SocketAddr {
            ip: IpAddr::V4(Ipv4Addr { octets: [127, 1, 2, 3] }),
            port: 443,
        })
    );
    assert_eq!(
        route.policies,
        vec![BackendTrafficPolicy::Other(4), BackendTrafficPolicy::BackendTLS(system_trust())]
    );
}

#[test]
fn fields_add_up() {
    let fields = vec![
        ("X-One".to_owned(), "a".to_owned()),
        ("two".to_owned(), "".to_owned()),
        ("x-one".to_owned(), "b".to_owned()),
    ];
    let request = build_request("M-SEARCH", "https://token.test/p?q=1", &fields).unwrap();
    assert_eq!(request.method().as_str(), "M-SEARCH");
    assert_eq!(request.uri().to_string(), "https://token.test/p?q=1");
    let values: Vec<&[u8]> =
        request.headers().get_all("x-one").iter().map(|v| v.as_bytes()).collect();
    assert_eq!(values, vec![b"a", b"b"]);
    assert_eq!(request.headers()["two"], "");
    assert!(build_request("GET", "not a uri", &fields).is_err());
    assert!(build_request("no method", "/", &fields).is_err());
    assert!(build_request("GET", "/", &vec![("".to_owned(), "a".to_owned())]).is_err());
    assert!(build_request("GET", "/", &vec![("a".to_owned(), "\u{7f}".to_owned())]).is_err());
    assert!(build_request("GET", "/", &vec![("n".repeat(65535), "a".to_owned())]).is_ok());
    assert!(build_request("GET", "/", &vec![("n".repeat(65536), "a".to_owned())]).is_err());
}

#[test]
fn many_fields_add_up() {
    let fields: Vec<(String, String)> =
        (0..6554).map(|i| (format!("x-{i}"), format!("{i}"))).collect();
    let request = build_request("GET", "/", &fields).unwrap();
    assert_eq!(request.headers().keys_len(), 6554);
    assert_eq!(request.headers()["x-6553"], "6553");
    let fields: Vec<(String, String)> =
        (0..24577).map(|i| (format!("x-{i}"), format!("{i}"))).collect();
    assert!(build_request("GET", "/", &fields).is_err());
}

#[test]
fn many_values_of_one_name_add_up() {
    let fields: Vec<(String, String)> =
        (0..30000).map(|i| ("X-Many".to_owned(), format!("{i}"))).collect();
    let request = build_request("GET", "/", &fields).unwrap();
    assert_eq!(request.headers().keys_len(), 1);
    assert_eq!(request.headers().get_all("x-many").iter().count(), 30000);
}

#[test]
fn response_headers_keep_the_last_text() {
    let mut map = http::HeaderMap::new();
    map.append("Set-Cookie", http::HeaderValue::from_static("a=1"));
    map.append("set-cookie", http::HeaderValue::from_static("b=2"));
    map.append("set-cookie", http::HeaderValue::from_bytes(b"\xff").unwrap());
    map.append("x-binary", http::HeaderValue::from_bytes(b"caf\xc3\xa9").unwrap());
    map.append("x-empty", http::HeaderValue::from_static(""));
    map.append("x-tab", http::HeaderValue::from_static("~ \t"));
    let headers = to_headers(&map);
    assert_eq!(header(&headers, "set-cookie"), Some("b=2"));
    assert_eq!(header(&headers, "x-binary"), None);
    assert_eq!(header(&headers, "x-empty"), Some(""));
    assert_eq!(header(&headers, "x-tab"), Some("~ \t"));
    assert_eq!(headers.iter().count(), 3);
    assert_eq!(to_headers(&http::HeaderMap::new()).iter().count(), 0);
}

#[test]
fn undecodable_headers_are_reported() {
    let mut map = http::HeaderMap::new();
    map.append("x-text", http::HeaderValue::from_static("a"));
    map.append("X-Both", http::HeaderValue::from_static("a"));
    map.append("x-both", http::HeaderValue::from_bytes(b"\xff").unwrap());
    map.append("x-both", http::HeaderValue::from_bytes(b"\xfe").unwrap());
    map.append("x-binary", http::HeaderValue::from_bytes(b"caf\xc3\xa9").unwrap());
    let mut names = undecodable_names(&map);
    names.sort();
    assert_eq!(names, vec!["x-binary", "x-both", "x-both"]);
    assert!(undecodable_names(&http::HeaderMap::new()).is_empty());
}

#[test]
fn echoed_headers_come_back_to_the_sdk() {
    let mut asked = get("https://token.test/");
    asked.headers.insert("accept", "application/json");
    asked.headers.insert("x-ms-version", "2024-01-01");
    let prepared = prepare(&asked);
    assert_eq!(to_headers(prepared.request.headers()), asked.headers);
}
