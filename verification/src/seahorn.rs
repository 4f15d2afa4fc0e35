//! The proxy for Seahorn (Solana structured data) queries, `/solana/*path`.
//!
//! A query is forwarded to the configured provider with a signed receipt attached, and the
//! provider's answer goes back. The outside work (signing, reading bodies, sending) is asked
//! for by actions; its outcomes come back as events.
use vstd::prelude::*;

use crate::config::SeahornConfig;
use crate::primitives::Address;
use crate::text;

verus! {

/// The largest query body that is read.
pub const MAX_BODY_BYTES: usize = 4 * 1024 * 1024;

/// A header as it came in: its name in lower case, its value as bytes.
#[derive(Debug, Clone, PartialEq, Eq)]
pub struct RawHeader {
    pub name: String,
    pub value: Vec<u8>,
}

/// A header as it goes out.
#[derive(Debug, Clone, PartialEq, Eq)]
pub struct Header {
    pub name: String,
    pub value: String,
}

/// A query as it came in, but for its body.
#[derive(Debug, Clone)]
pub struct ProxyRequest {
    pub method: String,
    pub path: String,
    pub query: Option<String>,
    pub headers: Vec<RawHeader>,
}

/// What the provider is sent, but for receipt and body.
#[derive(Debug, Clone, PartialEq, Eq)]
pub struct Forward {
    pub method: String,
    pub target: String,
    /// The headers that are passed on.
    pub headers: Vec<Header>,
}

/// The answer to a query.
#[derive(Debug, Clone, PartialEq, Eq)]
pub enum Reply {
    /// A status with nothing to say.
    Status(u16),
    /// A status with a plain text.
    Text(u16, String),
    /// What the provider answered.
    Proxied { status: u16, content_type: String, body: Vec<u8> },
}

/// How far a query has come: what is waited for.
#[derive(Debug, Clone, PartialEq, Eq)]
pub enum ProxyState {
    /// The signed receipt.
    Receipt(Forward),
    /// The query's body. The receipt goes out in the header `TAP-Receipt`.
    Body(Forward, String),
    /// The provider's status and headers.
    Upstream,
    /// The provider's body.
    UpstreamBody { status: u16, content_type: String },
    /// Nothing.
    Finished,
}

/// What outside work has come to; `None` says that it failed.
#[derive(Debug, Clone)]
pub enum ProxyEvent {
    /// The signed receipt as a header value.
    Receipt(Option<String>),
    /// The query's body.
    Body(Option<Vec<u8>>),
    /// The provider's status and the value of its first `content-type` header.
    Upstream(Option<(u16, Option<Vec<u8>>)>),
    /// The provider's body.
    UpstreamBody(Option<Vec<u8>>),
}

/// What to do next.
#[derive(Debug, Clone, PartialEq, Eq)]
pub enum ProxyAction {
    /// Sign a receipt without metadata over `value` GRT wei.
    Sign { data_service: Address, service_provider: Address, value: u128 },
    /// Read the query's body, up to [`MAX_BODY_BYTES`].
    ReadBody,
    /// Send the query with the receipt in the header `TAP-Receipt`.
    Send { forward: Forward, receipt: String, body: Option<Vec<u8>> },
    /// Read the provider's body.
    ReadUpstreamBody,
    /// Answer.
    Answer(Reply),
}

/// The URL of the provider: the endpoint without slashes at its end, the path without
/// `/solana`, and the query after a question mark.
pub open spec fn target_of(endpoint: Seq<char>, path: Seq<char>, query: Option<Seq<char>>) -> Seq<
    char,
> {
    let base = text::trim_end(endpoint, '/') + text::without_prefix(path, "/solana"@);
    match query {
        Some(q) => base.push('?') + q,
        None => base,
    }
}

/// The characters of an HTTP method.
pub open spec fn is_method_char(c: char) -> bool {
    ||| 'a' <= c && c <= 'z'
    ||| 'A' <= c && c <= 'Z'
    ||| '0' <= c && c <= '9'
    ||| c == '!' || c == '#' || c == '$' || c == '%' || c == '&' || c == '\'' || c == '*' || c == '+'
    ||| c == '-' || c == '.' || c == '^' || c == '_' || c == '`' || c == '|' || c == '~'
}

/// Whether `s` names an HTTP method.
pub open spec fn is_method(s: Seq<char>) -> bool {
    s.len() > 0 && forall|i: int| 0 <= i < s.len() ==> is_method_char(#[trigger] s[i])
}

/// The method to send: the one that came in, else `GET`.
pub open spec fn method_of(s: Seq<char>) -> Seq<char> {
    if is_method(s) {
        s
    } else {
        "GET"@
    }
}

/// Whether a header is safe to pass on.
pub open spec fn is_forwarded(name: Seq<char>) -> bool {
    name == "content-type"@ || name == "accept"@ || name == "accept-encoding"@ || name == "prefer"@
}

/// Whether a header value is visible ASCII text.
pub open spec fn is_visible(value: Seq<u8>) -> bool {
    forall|i: int| 0 <= i < value.len() ==> (32 <= #[trigger] value[i] < 127 || value[i] == 9)
}

/// The text of visible ASCII bytes.
pub open spec fn ascii_text(value: Seq<u8>) -> Seq<char> {
    value.map_values(|b: u8| b as char)
}

/// The headers that are passed on, in order: those that are safe and whose value is text.
pub open spec fn forwarded(headers: Seq<RawHeader>) -> Seq<(Seq<char>, Seq<char>)>
    decreases headers.len(),
{
    if headers.len() == 0 {
        Seq::empty()
    } else {
        let before = forwarded(headers.drop_last());
        let h = headers.last();
        if is_forwarded(h.name@) && is_visible(h.value@) {
            before.push((h.name@, ascii_text(h.value@)))
        } else {
            before
        }
    }
}

/// What outgoing headers say.
pub open spec fn header_views(headers: Seq<Header>) -> Seq<(Seq<char>, Seq<char>)> {
    headers.map_values(|h: Header| (h.name@, h.value@))
}

/// The status to answer with: the provider's, where it is one.
pub open spec fn status_of(upstream: u16) -> u16 {
    if 100 <= upstream < 1000 {
        upstream
    } else {
        500
    }
}

/// The content type to answer with: the provider's, where it is text, else JSON.
pub open spec fn content_type_of(value: Option<Seq<u8>>) -> Seq<char> {
    match value {
        Some(v) => if is_visible(v) {
            ascii_text(v)
        } else {
            "application/json"@
        },
        None => "application/json"@,
    }
}

/// `Method::from_bytes` of reqwest: a name of at least one method character is taken as it
/// is, and anything else is refused.
#[verifier::external_body]
fn http_method(name: &str) -> (r: Option<String>)
    ensures
        r is Some <==> is_method(name@),
        r is Some ==> r->0@ == name@,
{
    reqwest::Method::from_bytes(name.as_bytes()).ok().map(|m| m.as_str().to_owned())
}

/// The method to send a query with.
pub fn forward_method(name: &str) -> (method: String)
    ensures
        method@ == method_of(name@),
{
    match http_method(name) {
        Some(m) => m,
        None => "GET".to_owned(),
    }
}

/// The URL to send a query to.
pub fn forward_target(endpoint: &str, path: &str, query: Option<&str>) -> (target: String)
    ensures
        target@ == target_of(
            endpoint@,
            path@,
            match query {
                Some(q) => Some(q@),
                None => None,
            },
        ),
{
    let mut target = text::trim_end_char(endpoint, '/');
    target.append(text::strip(path, "/solana").as_str());
    if let Some(q) = query {
        target.push('?');
        target.append(q);
    }
    target
}

/// A header value as text, where it is visible ASCII.
fn visible_text(value: &Vec<u8>) -> (r: Option<String>)
    ensures
        r is Some <==> is_visible(value@),
        r is Some ==> r->0@ == ascii_text(value@),
{
    let mut s = String::new();
    let mut i: usize = 0;
    while i < value.len()
        invariant
            i <= value.len(),
            is_visible(value@.take(i as int)),
            s@ == ascii_text(value@.take(i as int)),
        decreases value.len() - i,
    {
        let b = value[i];
        if !(32 <= b && b < 127 || b == 9) {
            return None;
        }
        proof {
            assert(value@.take(i + 1) =~= value@.take(i as int).push(b));
            assert forall|j: int| 0 <= j < i + 1 implies (32 <= #[trigger] value@.take(i + 1)[j]
                < 127 || value@.take(i + 1)[j] == 9) by {
                if j < i {
                    assert(value@.take(i as int)[j] == value@.take(i + 1)[j]);
                }
            }
        }
        s.push(b as char);
        proof {
            assert(s@ =~= ascii_text(value@.take(i + 1)));
        }
        i = i + 1;
    }
    assert(value@.take(i as int) =~= value@);
    Some(s)
}

/// The headers to pass on.
pub fn forward_headers(headers: &Vec<RawHeader>) -> (out: Vec<Header>)
    ensures
        header_views(out@) == forwarded(headers@),
{
    let mut out: Vec<Header> = Vec::new();
    let mut i: usize = 0;
    assert(header_views(out@) =~= Seq::empty());
    while i < headers.len()
        invariant
            i <= headers.len(),
            header_views(out@) == forwarded(headers@.take(i as int)),
        decreases headers.len() - i,
    {
        let h = &headers[i];
        proof {
            assert(headers@.take(i + 1).drop_last() =~= headers@.take(i as int));
        }
        let name = h.name.as_str();
        if text::same_text(name, "content-type") || text::same_text(name, "accept")
            || text::same_text(name, "accept-encoding") || text::same_text(name, "prefer") {
            if let Some(value) = visible_text(&h.value) {
                let ghost before = out@;
                let header = Header { name: h.name.clone(), value };
                out.push(header);
                proof {
                    assert(header_views(out@) =~= header_views(before).push(
                        (h.name@, ascii_text(h.value@)),
                    ));
                }
            }
        }
        i = i + 1;
    }
    assert(headers@.take(i as int) =~= headers@);
    out
}

/// Whether `f` is what a query is forwarded as.
pub open spec fn forwards(f: Forward, seahorn: SeahornConfig, request: ProxyRequest) -> bool {
    &&& f.method@ == method_of(request.method@)
    &&& f.target@ == target_of(
        seahorn.endpoint@,
        request.path@,
        match request.query {
            Some(q) => Some(q@),
            None => None,
        },
    )
    &&& header_views(f.headers@) == forwarded(request.headers@)
}

/// Takes up a query. Without a configured provider it is answered right away.
pub fn start(seahorn: Option<&SeahornConfig>, request: &ProxyRequest) -> (r: (
    ProxyState,
    ProxyAction,
))
    ensures
        match seahorn {
            None => {
                &&& r.0 == ProxyState::Finished
                &&& r.1 matches ProxyAction::Answer(Reply::Text(status, s))
                &&& status == 404
                &&& s@ == "Seahorn not configured"@
            },
            Some(config) => {
                &&& r.0 matches ProxyState::Receipt(f)
                &&& forwards(f, *config, *request)
                &&& r.1 == ProxyAction::Sign {
                    data_service: config.data_service_address,
                    service_provider: config.service_provider,
                    value: config.price_grt_wei,
                }
            },
        },
{
    let config = match seahorn {
        Some(config) => config,
        None => {
            let reply = Reply::Text(404, "Seahorn not configured".to_owned());
            return (ProxyState::Finished, ProxyAction::Answer(reply));
        },
    };
    let query: Option<&str> = match &request.query {
        Some(q) => Some(q.as_str()),
        None => None,
    };
    let forward = Forward {
        method: forward_method(request.method.as_str()),
        target: forward_target(config.endpoint.as_str(), request.path.as_str(), query),
        headers: forward_headers(&request.headers),
    };
    (
        ProxyState::Receipt(forward),
        ProxyAction::Sign {
            data_service: config.data_service_address,
            service_provider: config.service_provider,
            value: config.price_grt_wei,
        },
    )
}

/// Whether `event` is what `state` waits for.
pub open spec fn expects(state: ProxyState, event: ProxyEvent) -> bool {
    match state {
        ProxyState::Receipt(_) => event is Receipt,
        ProxyState::Body(_, _) => event is Body,
        ProxyState::Upstream => event is Upstream,
        ProxyState::UpstreamBody { .. } => event is UpstreamBody,
        ProxyState::Finished => false,
    }
}

/// What a query is answered where outside work failed: 500 where the receipt could not be
/// made, 400 where the query's body could not be read, 502 where the provider failed.
pub open spec fn failure_status(state: ProxyState) -> u16 {
    match state {
        ProxyState::Receipt(_) => 500,
        ProxyState::Body(_, _) => 400,
        _ => 502,
    }
}

/// Whether `event` reports a failure.
pub open spec fn failed(event: ProxyEvent) -> bool {
    match event {
        ProxyEvent::Receipt(r) => r is None,
        ProxyEvent::Body(r) => r is None,
        ProxyEvent::Upstream(r) => r is None,
        ProxyEvent::UpstreamBody(r) => r is None,
    }
}

/// Whether `(next, action)` is how a query goes on from `state` after `event`.
pub open spec fn follows(
    state: ProxyState,
    event: ProxyEvent,
    next: ProxyState,
    action: ProxyAction,
) -> bool {
    if failed(event) {
        &&& next == ProxyState::Finished
        &&& action == ProxyAction::Answer(Reply::Status(failure_status(state)))
    } else {
        match (state, event) {
            (ProxyState::Receipt(f), ProxyEvent::Receipt(Some(receipt))) => {
                &&& next == ProxyState::Body(f, receipt)
                &&& action == ProxyAction::ReadBody
            },
            (ProxyState::Body(f, receipt), ProxyEvent::Body(Some(bytes))) => {
                &&& next == ProxyState::Upstream
                &&& action == ProxyAction::Send {
                    forward: f,
                    receipt,
                    body: if bytes@.len() == 0 {
                        None
                    } else {
                        Some(bytes)
                    },
                }
            },
            (ProxyState::Upstream, ProxyEvent::Upstream(Some((status, content_type)))) => {
                &&& next matches ProxyState::UpstreamBody { status: s, content_type: c }
                &&& s == status_of(status)
                &&& c@ == content_type_of(
                    match content_type {
                        Some(v) => Some(v@),
                        None => None,
                    },
                )
                &&& action == ProxyAction::ReadUpstreamBody
            },
            (
                ProxyState::UpstreamBody { status, content_type },
                ProxyEvent::UpstreamBody(Some(body)),
            ) => {
                &&& next == ProxyState::Finished
                &&& action == ProxyAction::Answer(Reply::Proxied { status, content_type, body })
            },
            _ => false,
        }
    }
}

/// Goes on with a query after outside work.
pub fn step(state: ProxyState, event: ProxyEvent) -> (r: (ProxyState, ProxyAction))
    requires
        expects(state, event),
    ensures
        follows(state, event, r.0, r.1),
{
    match (state, event) {
        (ProxyState::Receipt(f), ProxyEvent::Receipt(Some(receipt))) => (
            ProxyState::Body(f, receipt),
            ProxyAction::ReadBody,
        ),
        (ProxyState::Body(f, receipt), ProxyEvent::Body(Some(bytes))) => {
            let body = if bytes.len() == 0 {
                None
            } else {
                Some(bytes)
            };
            (ProxyState::Upstream, ProxyAction::Send { forward: f, receipt, body })
        },
        (ProxyState::Upstream, ProxyEvent::Upstream(Some((status, content_type)))) => {
            let shown: Option<String> = match &content_type {
                Some(v) => visible_text(v),
                None => None,
            };
            let content_type: String = match shown {
                Some(s) => s,
                None => "application/json".to_owned(),
            };
            let status: u16 = if 100 <= status && status < 1000 {
                status
            } else {
                500
            };
            (ProxyState::UpstreamBody { status, content_type }, ProxyAction::ReadUpstreamBody)
        },
        (
            ProxyState::UpstreamBody { status, content_type },
            ProxyEvent::UpstreamBody(Some(body)),
        ) => (
            ProxyState::Finished,
            ProxyAction::Answer(Reply::Proxied { status, content_type, body }),
        ),
        (ProxyState::Receipt(_), _) => refuse(500),
        (ProxyState::Body(_, _), _) => refuse(400),
        _ => refuse(502),
    }
}

/// Answers a query with a bare status.
fn refuse(status: u16) -> (r: (ProxyState, ProxyAction))
    ensures
        r.0 == ProxyState::Finished,
        r.1 == ProxyAction::Answer(Reply::Status(status)),
{
    (ProxyState::Finished, ProxyAction::Answer(Reply::Status(status)))
}

} // verus!
