use imposter::error::{Error, Part};
use imposter::http::{Method, Version};
use imposter::reader::{complete_host, normalize_target, parse_request};

#[test]
fn connect_request_parses() {
    let raw = b"CONNECT example.com:443 HTTP/1.1\r\nHost: example.com:443\r\n\r\n";
    let req = parse_request(raw).unwrap();
    assert_eq!(req.method, Method::CONNECT);
    assert_eq!(req.path, b"https://example.com:443".to_vec());
    assert_eq!(req.host().as_slice(), b"example.com:443");
    assert_eq!(req.as_bytes(), raw.as_slice());
}

#[test]
fn absolute_target_kept_and_host_completed() {
    let raw = b"GET http://ads.example/x HTTP/1.1\r\nHost: ads.example\r\n\r\n";
    let req = parse_request(raw).unwrap();
    assert_eq!(req.method, Method::GET);
    assert_eq!(req.path, b"http://ads.example/x".to_vec());
    assert_eq!(req.host().as_slice(), b"ads.example:80");
    assert_eq!(req.as_bytes(), raw.as_slice());
    assert_eq!(req.as_bytes().len(), raw.len());
}

#[test]
fn origin_form_get() {
    let raw = b"GET / HTTP/1.1\r\nHost: example.org\r\n\r\n";
    let req = parse_request(raw).unwrap();
    assert_eq!(req.method, Method::GET);
    assert_eq!(req.path, b"http:///".to_vec());
    assert_eq!(req.host().as_slice(), b"example.org:80");
    assert_eq!(req.as_bytes(), raw.as_slice());
}

#[test]
fn parsing_twice_yields_identical_requests() {
    let raw = b"CONNECT example.com:443 HTTP/1.1\r\nHost: example.com:443\r\n\r\n";
    let a = parse_request(raw).unwrap();
    let b = parse_request(raw).unwrap();
    assert_eq!(a.method, b.method);
    assert_eq!(a.version, b.version);
    assert_eq!(a.path, b.path);
    assert_eq!(a.host(), b.host());
    assert_eq!(a.as_bytes(), b.as_bytes());
}

#[test]
fn missing_host_is_rejected() {
    let raw = b"GET / HTTP/1.1\r\n\r\n";
    let err = parse_request(raw).unwrap_err();
    assert!(matches!(err, Error::BadRequest(Part::Host)));
}

#[test]
fn unknown_method_is_rejected() {
    let raw = b"BREW / HTTP/1.1\r\nHost: a\r\n\r\n";
    let err = parse_request(raw).unwrap_err();
    assert!(matches!(err, Error::BadRequest(Part::Method)));
}

#[test]
fn incomplete_head_is_a_parse_error() {
    let raw = b"GET / HTTP/1.1\r\nHost: exam";
    let err = parse_request(raw).unwrap_err();
    assert!(matches!(err, Error::Parse));
}

#[test]
fn garbage_is_a_parse_error() {
    let raw = b"\x01\x02\x03\x04";
    let err = parse_request(raw).unwrap_err();
    assert!(matches!(err, Error::Parse));
}

#[test]
fn non_utf8_host_is_rejected() {
    let raw = b"GET / HTTP/1.1\r\nHost: \xff\xfe\r\n\r\n";
    let err = parse_request(raw).unwrap_err();
    assert!(matches!(err, Error::Utf8));
}

#[test]
fn version_tag_mapping() {
    // The head parser reports the minor version digit of an HTTP/1.x head.
    let req = parse_request(b"GET / HTTP/1.1\r\nHost: a\r\n\r\n").unwrap();
    assert_eq!(req.version, Version::HTTP_10);
    let req = parse_request(b"GET / HTTP/1.0\r\nHost: a\r\n\r\n").unwrap();
    assert_eq!(req.version, Version::HTTP_09);
}

#[test]
fn ftp_scheme_for_port_21() {
    let raw = b"GET ftp.example:21 HTTP/1.1\r\nHost: ftp.example:21\r\n\r\n";
    let req = parse_request(raw).unwrap();
    assert_eq!(req.path, b"ftp://ftp.example:21".to_vec());
    assert_eq!(req.host().as_slice(), b"ftp.example:21");
}

#[test]
fn normalize_target_port_rule() {
    assert_eq!(normalize_target(b"example.com:443".to_vec()), b"https://example.com:443".to_vec());
    assert_eq!(normalize_target(b"example.com:21".to_vec()), b"ftp://example.com:21".to_vec());
    assert_eq!(normalize_target(b"example.com:80".to_vec()), b"http://example.com:80".to_vec());
    assert_eq!(normalize_target(b"example.com:8443".to_vec()), b"http://example.com:8443".to_vec());
    assert_eq!(normalize_target(b"/".to_vec()), b"http:///".to_vec());
    assert_eq!(normalize_target(b"".to_vec()), b"http://".to_vec());
    assert_eq!(
        normalize_target(b"https://already.example/".to_vec()),
        b"https://already.example/".to_vec()
    );
}

#[test]
fn complete_host_appends_default_port() {
    assert_eq!(complete_host(b"example.org".to_vec()), b"example.org:80".to_vec());
    assert_eq!(complete_host(b"example.org:8080".to_vec()), b"example.org:8080".to_vec());
    assert_eq!(complete_host(b"".to_vec()), b":80".to_vec());
}
