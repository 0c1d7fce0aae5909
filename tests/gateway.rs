use origin_gateway::backend::{backend_name, decimal_string, provision_backend, sanitize_host};
use origin_gateway::pipeline::{plan_request, ForwardPlan};
use origin_gateway::response::{ErrorKind, ErrorResponse};
use origin_gateway::ssrf::{classify_host, is_private_host};
use origin_gateway::transform::{method_carries_body, rewrite_headers, IncomingRequest};
use origin_gateway::validate::{check_parsed_target, find_param, get_query_param, validate_request, UrlParts};

const SECRET: &str = "testing";

fn request(method: &str, query: &str, headers: &[(&str, &str)], body: Option<&[u8]>) -> IncomingRequest {
    IncomingRequest {
        method: method.to_string(),
        query: query.to_string(),
        headers: headers.iter().map(|(n, v)| (n.to_string(), v.to_string())).collect(),
        body: body.map(|b| b.to_vec()),
    }
}

fn plan(query: &str) -> Result<ForwardPlan, ErrorResponse> {
    plan_request(&request("GET", query, &[], None), SECRET)
}

fn rejection(query: &str) -> ErrorResponse {
    match plan(query) {
        Ok(_) => panic!("expected a rejection for {}", query),
        Err(e) => e,
    }
}

#[test]
fn localhost_names_are_private() {
    assert!(is_private_host("localhost"));
    assert!(is_private_host("LOCALHOST"));
    assert!(is_private_host("localhost.localdomain"));
    assert!(is_private_host("::1"));
    assert!(is_private_host("[::1]"));
}

#[test]
fn reserved_ipv4_blocks_are_private() {
    assert!(is_private_host("127.0.0.1"));
    assert!(is_private_host("10.1.2.3"));
    assert!(is_private_host("172.16.0.1"));
    assert!(is_private_host("172.31.255.255"));
    assert!(is_private_host("192.168.1.1"));
    assert!(is_private_host("169.254.169.254"));
    assert!(is_private_host("0.0.0.0"));
    assert!(is_private_host("+10.0.0.1"));
}

#[test]
fn public_ipv4_addresses_pass() {
    assert!(!is_private_host("8.8.8.8"));
    assert!(!is_private_host("172.15.0.1"));
    assert!(!is_private_host("172.32.0.1"));
    assert!(!is_private_host("192.169.0.1"));
    assert!(!is_private_host("169.253.1.1"));
    assert!(!is_private_host("256.0.0.1"));
    assert!(!is_private_host("10.0.0"));
}

#[test]
fn internal_prefixes_and_suffixes_are_private() {
    assert!(is_private_host("internal.example.com"));
    assert!(is_private_host("Intranet.example.com"));
    assert!(is_private_host("private.example.com"));
    assert!(is_private_host("corp.example.com"));
    assert!(is_private_host("lan.example.com"));
    assert!(is_private_host("db.internal"));
    assert!(is_private_host("printer.LOCAL"));
    assert!(is_private_host("app.localhost"));
    assert!(!is_private_host("example.com"));
    assert!(!is_private_host("corporate.example.com"));
    assert!(!is_private_host("local.example.com"));
}

#[test]
fn query_parameters_are_decoded() {
    assert_eq!(get_query_param("a=1&key=test%69ng", "key"), Some("testing".to_string()));
    assert_eq!(get_query_param("key=a+b&key=c", "key"), Some("a b".to_string()));
    assert_eq!(get_query_param("a=1", "key"), None);
}

#[test]
fn missing_key_is_unauthorized() {
    let e = rejection("url=https://example.com");
    assert_eq!(e.kind, ErrorKind::Unauthorized);
    assert_eq!(e.status(), 403);
    assert_eq!(e.body(), r#"{"error":"Unauthorized","message":"Invalid or missing API key"}"#);
    assert_eq!(e.content_type(), "application/json");
}

#[test]
fn wrong_key_is_unauthorized_before_url_checks() {
    assert_eq!(rejection("key=nope&url=https://example.com").kind, ErrorKind::Unauthorized);
    assert_eq!(rejection("key=nope").kind, ErrorKind::Unauthorized);
    assert_eq!(rejection("key=nope&url=not%20a%20url").kind, ErrorKind::Unauthorized);
    assert_eq!(rejection("").kind, ErrorKind::Unauthorized);
}

#[test]
fn missing_url_parameter() {
    let e = rejection("key=testing");
    assert_eq!(e.kind, ErrorKind::MissingParameter);
    assert_eq!(e.status(), 400);
    assert!(e.body().contains("\"usage\""));
}

#[test]
fn malformed_url_is_invalid() {
    let e = rejection("key=testing&url=not%20a%20url");
    assert_eq!(e.kind, ErrorKind::InvalidUrl);
    assert_eq!(e.status(), 400);
    assert!(!e.details.is_empty());
    assert!(e.body().starts_with(r#"{"error":"Invalid URL provided","details":""#));
}

#[test]
fn http_scheme_is_unsupported() {
    let e = rejection("key=testing&url=http://example.com");
    assert_eq!(e.kind, ErrorKind::UnsupportedScheme);
    assert_eq!(e.status(), 400);
    assert_eq!(rejection("key=testing&url=ftp://example.com/x").kind, ErrorKind::UnsupportedScheme);
}

#[test]
fn metadata_endpoint_is_forbidden() {
    let e = rejection("key=testing&url=https://169.254.169.254/latest/meta-data");
    assert_eq!(e.kind, ErrorKind::ForbiddenHost);
    assert_eq!(e.status(), 403);
    assert_eq!(
        e.body(),
        r#"{"error":"Forbidden","message":"Requests to private or internal hosts are not allowed"}"#
    );
}

#[test]
fn localhost_with_port_is_forbidden() {
    assert_eq!(rejection("key=testing&url=https://localhost:8080/x").kind, ErrorKind::ForbiddenHost);
    assert_eq!(rejection("key=testing&url=https://LOCALHOST/x").kind, ErrorKind::ForbiddenHost);
    assert_eq!(rejection("key=testing&url=https://[::1]/x").kind, ErrorKind::ForbiddenHost);
}

#[test]
fn validated_target_defaults_port() {
    let t = validate_request("key=testing&url=https://example.com/foo", SECRET).unwrap();
    assert_eq!(t.host, "example.com");
    assert_eq!(t.port, 443);
    assert_eq!(t.path, "/foo");
    assert_eq!(t.query, None);
    assert_eq!(t.url, "https://example.com/foo");
    let t = validate_request("key=testing&url=https://example.com:8443", SECRET).unwrap();
    assert_eq!(t.port, 8443);
    assert_eq!(t.path, "/");
}

#[test]
fn forwarded_request_for_example_com() {
    let req = request("GET", "key=testing&url=https://example.com/foo", &[("Accept", "*/*")], None);
    let p = plan_request(&req, SECRET).unwrap();
    assert_eq!(p.backend.address, "example.com:443");
    assert_eq!(p.backend.name, "dyn_example_com_443");
    assert_eq!(p.backend.sni_hostname, "example.com");
    assert_eq!(p.backend.cert_hostname, "example.com");
    assert_eq!(p.backend.override_host, "example.com");
    assert!(p.backend.use_tls);
    assert_eq!(p.backend.connect_timeout_ms, 10000);
    assert_eq!(p.backend.first_byte_timeout_ms, 30000);
    assert_eq!(p.backend.between_bytes_timeout_ms, 30000);
    assert_eq!(p.outbound.path, "/foo");
    assert_eq!(p.outbound.method, "GET");
    assert!(p.outbound.bypass_cache);
    assert_eq!(
        p.outbound.headers,
        vec![("Accept".to_string(), "*/*".to_string()), ("host".to_string(), "example.com".to_string())]
    );
}

#[test]
fn outbound_path_keeps_query() {
    let p = plan("key=testing&url=https%3A%2F%2Fexample.com%2Ffoo%3Fa%3Db").unwrap();
    assert_eq!(p.outbound.path, "/foo?a=b");
    assert_eq!(p.outbound.headers.last().unwrap(), &("host".to_string(), "example.com".to_string()));
    let p = plan("key=testing&url=https://example.com/foo?a=b").unwrap();
    assert_eq!(p.outbound.path, "/foo?a=b");
}

#[test]
fn backend_names_are_sanitized() {
    assert_eq!(backend_name("my-host.example", 8443), "dyn_my_host_example_8443");
    assert_eq!(backend_name("my-host.example", 8443), backend_name("my-host.example", 8443));
    assert_eq!(sanitize_host("a.b-c:d"), "a_b_c_d");
    assert_eq!(sanitize_host("exämple.com"), "exämple_com");
    assert_eq!(decimal_string(0), "0");
    assert_eq!(decimal_string(65535), "65535");
    let b = provision_backend("api.example.org", 8443);
    assert_eq!(b.address, "api.example.org:8443");
    assert_eq!(b.name, "dyn_api_example_org_8443");
}

#[test]
fn forwarding_headers_are_stripped() {
    let headers = vec![
        ("X-Forwarded-For".to_string(), "1.2.3.4".to_string()),
        ("Accept".to_string(), "text/html".to_string()),
        ("Host".to_string(), "evil.example".to_string()),
        ("x-forwarded-host".to_string(), "a".to_string()),
        ("X-FORWARDED-PROTO".to_string(), "http".to_string()),
        ("User-Agent".to_string(), "t".to_string()),
    ];
    let out = rewrite_headers(&headers, "example.com");
    assert_eq!(
        out,
        vec![
            ("Accept".to_string(), "text/html".to_string()),
            ("User-Agent".to_string(), "t".to_string()),
            ("host".to_string(), "example.com".to_string()),
        ]
    );
}

#[test]
fn body_follows_method() {
    let url = "key=testing&url=https://example.com/x";
    for m in ["GET", "DELETE", "HEAD"] {
        let p = plan_request(&request(m, url, &[], Some(b"data")), SECRET).unwrap();
        assert_eq!(p.outbound.body, None);
    }
    for m in ["POST", "PUT", "PATCH"] {
        let p = plan_request(&request(m, url, &[], Some(b"data")), SECRET).unwrap();
        assert_eq!(p.outbound.body, Some(b"data".to_vec()));
        assert_eq!(p.outbound.method, m);
    }
    assert!(method_carries_body("POST"));
    assert!(!method_carries_body("post"));
}

#[test]
fn transport_failure_reports_target() {
    let p = plan("key=testing&url=https://example.com/foo").unwrap();
    let e = p.transport_failure("connection refused");
    assert_eq!(e.kind, ErrorKind::UpstreamTransportFailure);
    assert_eq!(e.status(), 502);
    assert_eq!(
        e.body(),
        r#"{"error":"Failed to fetch from origin","details":"connection refused","target":"https://example.com/foo"}"#
    );
}

#[test]
fn provision_failure_reports_target() {
    let p = plan("key=testing&url=https://example.com/foo").unwrap();
    let e = p.provision_failure("bad \"name\"\n");
    assert_eq!(e.kind, ErrorKind::BackendProvisionFailure);
    assert_eq!(e.status(), 502);
    assert_eq!(
        e.body(),
        r#"{"error":"Failed to create backend","details":"bad \"name\"\n","target":"https://example.com/foo"}"#
    );
    let e = ErrorResponse::transport_failure("a\u{1}b\\", "t");
    assert_eq!(e.body(), r#"{"error":"Failed to fetch from origin","details":"a\u0001b\\","target":"t"}"#);
}

#[test]
fn missing_host_body() {
    let e = ErrorResponse::of(ErrorKind::MissingHost);
    assert_eq!(e.status(), 400);
    assert_eq!(e.body(), r#"{"error":"Invalid URL: missing hostname"}"#);
}

#[test]
fn classification_reads_the_lowered_name() {
    assert!(classify_host("localhost", "LocalHost"));
    assert!(!classify_host("example.com", "Example.com"));
    assert!(classify_host("x.corp", "10.0.0.1"));
    assert!(!classify_host("1.2.3.4", "1.2.3.4"));
}

#[test]
fn first_matching_pair_wins() {
    let pairs = vec![
        ("a".to_string(), "1".to_string()),
        ("key".to_string(), "first".to_string()),
        ("key".to_string(), "second".to_string()),
    ];
    assert_eq!(find_param(&pairs, "key"), Some("first".to_string()));
    assert_eq!(find_param(&pairs, "url"), None);
}

#[test]
fn parsed_target_checks() {
    let parts = |scheme: &str, host: Option<&str>, port: Option<u16>| UrlParts {
        scheme: scheme.to_string(),
        host: host.map(|h| h.to_string()),
        port,
        path: "/p".to_string(),
        query: Some("q=1".to_string()),
    };
    let e = check_parsed_target("u", parts("http", Some("a.com"), None)).unwrap_err();
    assert_eq!(e.kind, ErrorKind::UnsupportedScheme);
    let e = check_parsed_target("u", parts("https", None, None)).unwrap_err();
    assert_eq!(e.kind, ErrorKind::MissingHost);
    let e = check_parsed_target("u", parts("https", Some(""), None)).unwrap_err();
    assert_eq!(e.kind, ErrorKind::MissingHost);
    let t = check_parsed_target("u", parts("https", Some("a.com"), Some(8080))).unwrap();
    assert_eq!(t.port, 8080);
    assert_eq!(t.query, Some("q=1".to_string()));
    let t = check_parsed_target("u", parts("https", Some("a.com"), None)).unwrap();
    assert_eq!(t.port, 443);
}
