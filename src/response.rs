//! Turning a lookup into an HTTP response, and the request sent upstream.
use vstd::prelude::*;
use crate::document::{parse_spec, DocumentView, Error, LinkDocument};
use crate::json::{json_quoted, new_collation_id, quote};

verus! {

/// What resolving a key against a document gives.
#[derive(Debug, Clone, PartialEq, Eq)]
pub enum Outcome {
    Redirect { target: String },
    NotFound { key: String },
}

pub enum OutcomeView {
    Redirect { target: Seq<char> },
    NotFound { key: Seq<char> },
}

impl View for Outcome {
    type V = OutcomeView;

    open spec fn view(&self) -> OutcomeView {
        match self {
            Outcome::Redirect { target } => OutcomeView::Redirect { target: target@ },
            Outcome::NotFound { key } => OutcomeView::NotFound { key: key@ },
        }
    }
}

/// The outcome for `key`: a redirect to its href where the document has the
/// key, else not found, carrying the key.
pub open spec fn resolve_spec(d: DocumentView, key: Seq<char>) -> OutcomeView {
    if d.entries.contains_key(key) {
        OutcomeView::Redirect { target: d.entries[key] }
    } else {
        OutcomeView::NotFound { key }
    }
}

/// An HTTP response: status, headers in order, body.
#[derive(Debug, Clone)]
pub struct Response {
    pub status: u16,
    pub headers: Vec<(String, String)>,
    pub body: String,
}

pub struct ResponseView {
    pub status: u16,
    pub headers: Seq<(Seq<char>, Seq<char>)>,
    pub body: Seq<char>,
}

pub open spec fn headers_view(h: Seq<(String, String)>) -> Seq<(Seq<char>, Seq<char>)> {
    h.map_values(|p: (String, String)| (p.0@, p.1@))
}

impl View for Response {
    type V = ResponseView;

    open spec fn view(&self) -> ResponseView {
        ResponseView { status: self.status, headers: headers_view(self.headers@), body: self.body@ }
    }
}

/// The body of a not-found response: `{"key":<key as a JSON string>}`.
pub open spec fn not_found_body(key: Seq<char>) -> Seq<char> {
    seq!['{', '"', 'k', 'e', 'y', '"', ':'] + json_quoted(key) + seq!['}']
}

/// The response for an outcome; `id` is the redirect's correlation id.
pub open spec fn response_of(o: OutcomeView, id: Seq<char>) -> ResponseView {
    match o {
        OutcomeView::Redirect { target } => ResponseView {
            status: 302,
            headers: seq![
                ("Location"@, target),
                ("Access-Control-Allow-Origin"@, "*"@),
                ("X-Collation-Id"@, id),
            ],
            body: Seq::empty(),
        },
        OutcomeView::NotFound { key } => ResponseView {
            status: 404,
            headers: seq![("Content-Type"@, "application/problem+json"@)],
            body: not_found_body(key),
        },
    }
}

/// The uniform response for a failed fetch or a malformed document.
pub open spec fn error_response_spec() -> ResponseView {
    ResponseView {
        status: 500,
        headers: seq![("Content-Type"@, "text/plain; charset=utf-8"@)],
        body: "Error"@,
    }
}

fn pair(a: &str, b: &str) -> (r: (String, String))
    ensures
        r.0@ == a@,
        r.1@ == b@,
{
    (String::from_str(a), String::from_str(b))
}

impl LinkDocument {
    /// Looks `key` up, exactly: a redirect to its entry's href, or not found.
    pub fn resolve(&self, key: &String) -> (r: Outcome)
        ensures
            r@ == resolve_spec(self@, key@),
    {
        match self.get(key) {
            Some(e) => Outcome::Redirect { target: e.href.clone() },
            None => Outcome::NotFound { key: key.clone() },
        }
    }
}

/// Builds the response for an outcome; a redirect carries `collation_id`.
pub fn respond(outcome: Outcome, collation_id: String) -> (r: Response)
    ensures
        r@ == response_of(outcome@, collation_id@),
{
    match outcome {
        Outcome::Redirect { target } => {
            let mut headers: Vec<(String, String)> = Vec::new();
            headers.push((String::from_str("Location"), target));
            headers.push(pair("Access-Control-Allow-Origin", "*"));
            headers.push((String::from_str("X-Collation-Id"), collation_id));
            let r = Response { status: 302, headers, body: String::new() };
            assert(r@.headers =~= response_of(outcome@, collation_id@).headers);
            r
        },
        Outcome::NotFound { key } => {
            let mut headers: Vec<(String, String)> = Vec::new();
            headers.push(pair("Content-Type", "application/problem+json"));
            let mut body = String::from_str("{\"key\":");
            let q = quote(key.as_str());
            body.append(q.as_str());
            body.append("}");
            proof {
                reveal_strlit("{\"key\":");
                reveal_strlit("}");
            }
            let r = Response { status: 404, headers, body };
            assert(r@.headers =~= response_of(outcome@, collation_id@).headers);
            assert(r@.body =~= not_found_body(key@));
            r
        },
    }
}

/// The uniform response for any upstream failure, whatever its cause.
pub fn error_response(e: Error) -> (r: Response)
    ensures
        r@ == error_response_spec(),
{
    let mut headers: Vec<(String, String)> = Vec::new();
    headers.push(pair("Content-Type", "text/plain; charset=utf-8"));
    let r = Response { status: 500, headers, body: String::from_str("Error") };
    assert(r@.headers =~= error_response_spec().headers);
    r
}

/// The liveness response: 200 `OK`, whatever the state of the upstream.
pub fn healthz() -> (r: Response)
    ensures
        r.status == 200,
        r.body@ == "OK"@,
        headers_view(r.headers@) == seq![("Content-Type"@, "text/plain; charset=utf-8"@)],
{
    let mut headers: Vec<(String, String)> = Vec::new();
    headers.push(pair("Content-Type", "text/plain; charset=utf-8"));
    let r = Response { status: 200, headers, body: String::from_str("OK") };
    assert(headers_view(r.headers@) =~= seq![("Content-Type"@, "text/plain; charset=utf-8"@)]);
    r
}

/// Answers a request for `key` from what the upstream fetch gave: its body,
/// or the transport failure. A fetch failure or a malformed body is the
/// error; otherwise the response for the key's outcome, a redirect carrying
/// a fresh 36-character correlation id.
pub fn render_for_uri(fetched: Result<Vec<u8>, Error>, key: String) -> (r: Result<Response, Error>)
    ensures
        match fetched {
            Err(e) => r == Err::<Response, Error>(e),
            Ok(body) => match parse_spec(body@) {
                None => r == Err::<Response, Error>(Error::MalformedDocument),
                Some(d) => r is Ok && exists|id: Seq<char>|
                    id.len() == 36 && r->Ok_0@ == response_of(resolve_spec(d, key@), id),
            },
        },
{
    let body = match fetched {
        Ok(b) => b,
        Err(e) => return Err(e),
    };
    let doc = match LinkDocument::parse(body.as_slice()) {
        Ok(d) => d,
        Err(e) => return Err(e),
    };
    let outcome = doc.resolve(&key);
    let id = new_collation_id();
    let r = respond(outcome, id);
    assert(id@.len() == 36 && r@ == response_of(resolve_spec(doc@, key@), id@));
    Ok(r)
}

/// The outbound fetch: the configured URL and the headers sent with it.
#[derive(Debug, Clone)]
pub struct UpstreamRequest {
    pub url: String,
    pub headers: Vec<(String, String)>,
}

pub open spec fn upstream_headers_spec(token: Seq<char>) -> Seq<(Seq<char>, Seq<char>)> {
    seq![
        ("User-Agent"@, "golinks (+https://metacode.biz/@wiktor#golinks3)"@),
        ("Accept"@, "application/json"@),
        ("Cookie"@, "__Secure-Token="@ + token),
    ]
}

/// The request to send upstream: a GET of `url` that identifies the client,
/// asks for JSON, and carries `token` in the `__Secure-Token` cookie.
pub fn upstream_request(url: &String, token: &String) -> (r: UpstreamRequest)
    ensures
        r.url@ == url@,
        headers_view(r.headers@) == upstream_headers_spec(token@),
{
    let mut headers: Vec<(String, String)> = Vec::new();
    headers.push(pair("User-Agent", "golinks (+https://metacode.biz/@wiktor#golinks3)"));
    headers.push(pair("Accept", "application/json"));
    let mut cookie = String::from_str("__Secure-Token=");
    cookie.append(token.as_str());
    headers.push((String::from_str("Cookie"), cookie));
    let r = UpstreamRequest { url: url.clone(), headers };
    assert(headers_view(r.headers@) =~= upstream_headers_spec(token@));
    r
}

} // verus!
