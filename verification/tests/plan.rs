use imposter::agent::{plan_route, splice_step, Agent, AgentConfig, SpliceStep};
use imposter::connection::{ConnectionBuilder, Dial};
use imposter::engine::Engine;
use imposter::reader::parse_request;

fn connect_req() -> imposter::http::Request {
    parse_request(b"CONNECT example.com:443 HTTP/1.1\r\nHost: example.com:443\r\n\r\n").unwrap()
}

fn get_req() -> imposter::http::Request {
    parse_request(b"GET http://ads.example/x HTTP/1.1\r\nHost: ads.example\r\n\r\n").unwrap()
}

#[test]
fn connect_direct_gets_200_and_nothing_forwarded() {
    let builder = ConnectionBuilder::Http("127.0.0.1:8888".to_string());
    let req = connect_req();
    let plan = plan_route(&builder, &req, false);
    match plan.dial {
        Dial::Direct(h) => assert_eq!(h, b"example.com:443".to_vec()),
        other => panic!("expected a direct dial, got {:?}", other),
    }
    assert!(plan.upstream_write.is_none());
    assert_eq!(plan.client_write.unwrap(), b"HTTP/1.1 200 OK\r\n\r\n".to_vec());
}

#[test]
fn matched_request_is_forwarded_verbatim_to_http_proxy() {
    let builder = ConnectionBuilder::Http("127.0.0.1:8888".to_string());
    let req = get_req();
    let raw = req.as_bytes().to_vec();
    let plan = plan_route(&builder, &req, true);
    match plan.dial {
        Dial::Proxy(a) => assert_eq!(a, "127.0.0.1:8888"),
        other => panic!("expected a proxy dial, got {:?}", other),
    }
    assert_eq!(plan.upstream_write.unwrap(), raw);
    assert!(plan.client_write.is_none());
}

#[test]
fn matched_connect_goes_through_socks_and_forwards_head() {
    let builder = ConnectionBuilder::Socks5("127.0.0.1:1080".to_string());
    let req = connect_req();
    let raw = req.as_bytes().to_vec();
    let plan = plan_route(&builder, &req, true);
    match plan.dial {
        Dial::Socks(a, t) => {
            assert_eq!(a, "127.0.0.1:1080");
            assert_eq!(t, b"example.com:443".to_vec());
        },
        other => panic!("expected a socks dial, got {:?}", other),
    }
    assert_eq!(plan.upstream_write.unwrap(), raw);
    assert!(plan.client_write.is_none());
}

#[test]
fn unmatched_get_is_forwarded_verbatim_directly() {
    let builder = ConnectionBuilder::Socks5("127.0.0.1:1080".to_string());
    let req = parse_request(b"GET / HTTP/1.1\r\nHost: example.org\r\n\r\n").unwrap();
    let raw = req.as_bytes().to_vec();
    let plan = plan_route(&builder, &req, false);
    match plan.dial {
        Dial::Direct(h) => assert_eq!(h, b"example.org:80".to_vec()),
        other => panic!("expected a direct dial, got {:?}", other),
    }
    assert_eq!(plan.upstream_write.unwrap(), raw);
    assert!(plan.client_write.is_none());
}

#[test]
fn agent_without_rules_always_proxies() {
    let agent = Agent::new(
        ConnectionBuilder::Http("127.0.0.1:8888".to_string()),
        AgentConfig { bufsize: 1024, timeout: 15 },
        Engine::new(None),
    );
    let req = get_req();
    assert!(agent.classify(&req));
    let raw = req.as_bytes().to_vec();
    let plan = agent.plan(&req);
    assert_eq!(plan.upstream_write.unwrap(), raw);
    assert!(plan.client_write.is_none());
}

#[test]
fn splice_step_forwards_exactly_what_was_read() {
    let buf = [1u8, 2, 3, 4];
    match splice_step(&buf, 3) {
        SpliceStep::Forward(w) => assert_eq!(w, vec![1u8, 2, 3]),
        SpliceStep::Shut => panic!("expected a forward"),
    }
    assert!(matches!(splice_step(&buf, 0), SpliceStep::Shut));
}

#[test]
fn splice_steps_preserve_the_byte_stream() {
    let chunks: Vec<Vec<u8>> = vec![b"hel".to_vec(), b"lo ".to_vec(), b"world".to_vec()];
    let mut sent: Vec<u8> = Vec::new();
    let mut received: Vec<u8> = Vec::new();
    for c in &chunks {
        sent.extend_from_slice(c);
        match splice_step(c, c.len()) {
            SpliceStep::Forward(w) => received.extend_from_slice(&w),
            SpliceStep::Shut => panic!("expected a forward"),
        }
    }
    assert_eq!(received, sent);
}
