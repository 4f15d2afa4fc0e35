use dispatch::config::SeahornConfig;
use dispatch::primitives::Address;
use dispatch::seahorn::{
    forward_headers, forward_method, forward_target, start, step, Forward, Header, ProxyAction,
    ProxyEvent, ProxyRequest, ProxyState, RawHeader, Reply, MAX_BODY_BYTES,
};

fn config() -> SeahornConfig {
    SeahornConfig {
        endpoint: "https://solana.example.com/".to_string(),
        service_provider: Address { bytes: [2; 20] },
        data_service_address: Address { bytes: [3; 20] },
        price_grt_wei: 10_000_000_000_000,
    }
}

fn raw(name: &str, value: &[u8]) -> RawHeader {
    RawHeader { name: name.to_string(), value: value.to_vec() }
}

fn header(name: &str, value: &str) -> Header {
    Header { name: name.to_string(), value: value.to_string() }
}

fn request() -> ProxyRequest {
    ProxyRequest {
        method: "POST".to_string(),
        path: "/solana/transfers".to_string(),
        query: Some("limit=5".to_string()),
        headers: vec![raw("host", b"gw"), raw("accept", b"*/*")],
    }
}

fn forward() -> Forward {
    Forward {
        method: "POST".to_string(),
        target: "https://solana.example.com/transfers?limit=5".to_string(),
        headers: vec![header("accept", "*/*")],
    }
}

#[test]
fn targets() {
    assert_eq!(forward_target("http://a", "/solana/b", None), "http://a/b");
    assert_eq!(forward_target("http://a///", "/solana/b", Some("q=1")), "http://a/b?q=1");
    assert_eq!(forward_target("http://a", "/other", None), "http://a/other");
    assert_eq!(forward_target("http://a", "/solana", Some("")), "http://a?");
    assert_eq!(forward_target("", "/solana/solana/x", None), "/solana/x");
    assert_eq!(forward_target("http://a", "/sol", None), "http://a/sol");
}

#[test]
fn methods() {
    assert_eq!(forward_method("GET"), "GET");
    assert_eq!(forward_method("PATCH"), "PATCH");
    assert_eq!(forward_method("x-Custom.9~"), "x-Custom.9~");
    assert_eq!(forward_method("AVERYVERYLONGMETHODNAME"), "AVERYVERYLONGMETHODNAME");
    assert_eq!(forward_method(""), "GET");
    assert_eq!(forward_method("BAD METHOD"), "GET");
    assert_eq!(forward_method("B(D"), "GET");
    assert_eq!(forward_method("\u{e9}"), "GET");
}

#[test]
fn method_characters() {
    for b in 0u8..128 {
        let name = (b as char).to_string();
        let known = b.is_ascii_alphanumeric() || b"!#$%&'*+-.^_`|~".contains(&b);
        let expected = if known { name.clone() } else { "GET".to_string() };
        assert_eq!(forward_method(&name), expected);
    }
}

#[test]
fn only_safe_headers_pass() {
    let headers = vec![
        raw("content-type", b"application/json"),
        raw("connection", b"keep-alive"),
        raw("accept", b"*/*"),
        raw("authorization", b"secret"),
        raw("accept-encoding", b"gzip\t"),
        raw("prefer", b"count=exact"),
        raw("prefer", b"caf\xe9"),
        raw("accept", b"text/html"),
        raw("accept", b"\x7f"),
    ];
    assert_eq!(
        forward_headers(&headers),
        vec![
            header("content-type", "application/json"),
            header("accept", "*/*"),
            header("accept-encoding", "gzip\t"),
            header("prefer", "count=exact"),
            header("accept", "text/html"),
        ]
    );
}

#[test]
fn unconfigured_proxy_is_not_found() {
    let (s, a) = start(None, &request());
    assert_eq!(s, ProxyState::Finished);
    assert_eq!(
        a,
        ProxyAction::Answer(Reply::Text(404, "Seahorn not configured".to_string()))
    );
}

#[test]
fn whole_query() {
    let (s, a) = start(Some(&config()), &request());
    assert_eq!(s, ProxyState::Receipt(forward()));
    assert_eq!(
        a,
        ProxyAction::Sign {
            data_service: Address { bytes: [3; 20] },
            service_provider: Address { bytes: [2; 20] },
            value: 10_000_000_000_000,
        }
    );
    let (s, a) = step(s, ProxyEvent::Receipt(Some("{r}".to_string())));
    assert_eq!(a, ProxyAction::ReadBody);
    let (s, a) = step(s, ProxyEvent::Body(Some(b"hi".to_vec())));
    assert_eq!(
        a,
        ProxyAction::Send {
            forward: forward(),
            receipt: "{r}".to_string(),
            body: Some(b"hi".to_vec()),
        }
    );
    let (s, a) = step(s, ProxyEvent::Upstream(Some((206, Some(b"text/csv".to_vec())))));
    assert_eq!(a, ProxyAction::ReadUpstreamBody);
    let (s, a) = step(s, ProxyEvent::UpstreamBody(Some(b"a,b".to_vec())));
    assert_eq!(s, ProxyState::Finished);
    assert_eq!(
        a,
        ProxyAction::Answer(Reply::Proxied {
            status: 206,
            content_type: "text/csv".to_string(),
            body: b"a,b".to_vec(),
        })
    );
}

#[test]
fn empty_body_is_not_sent() {
    let s = ProxyState::Body(forward(), "{r}".to_string());
    match step(s, ProxyEvent::Body(Some(vec![]))) {
        (ProxyState::Upstream, ProxyAction::Send { body, .. }) => assert_eq!(body, None),
        other => panic!("{other:?}"),
    }
}

fn refused(s: ProxyState, e: ProxyEvent) -> u16 {
    match step(s, e) {
        (ProxyState::Finished, ProxyAction::Answer(Reply::Status(status))) => status,
        other => panic!("{other:?}"),
    }
}

#[test]
fn failures() {
    assert_eq!(refused(ProxyState::Receipt(forward()), ProxyEvent::Receipt(None)), 500);
    let body = ProxyState::Body(forward(), "{r}".to_string());
    assert_eq!(refused(body, ProxyEvent::Body(None)), 400);
    assert_eq!(refused(ProxyState::Upstream, ProxyEvent::Upstream(None)), 502);
    let reply = ProxyState::UpstreamBody { status: 200, content_type: "x".to_string() };
    assert_eq!(refused(reply, ProxyEvent::UpstreamBody(None)), 502);
}

fn head(status: u16, content_type: Option<Vec<u8>>) -> (u16, String) {
    match step(ProxyState::Upstream, ProxyEvent::Upstream(Some((status, content_type)))) {
        (ProxyState::UpstreamBody { status, content_type }, ProxyAction::ReadUpstreamBody) => {
            (status, content_type)
        }
        other => panic!("{other:?}"),
    }
}

#[test]
fn upstream_heads() {
    assert_eq!(head(100, None), (100, "application/json".to_string()));
    assert_eq!(head(999, Some(b"text/plain".to_vec())), (999, "text/plain".to_string()));
    assert_eq!(head(99, Some(b"\xff".to_vec())), (500, "application/json".to_string()));
    assert_eq!(head(1000, Some(vec![])), (500, "".to_string()));
}

#[test]
fn body_limit() {
    assert_eq!(MAX_BODY_BYTES, 4_194_304);
}
