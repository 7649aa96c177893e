use golinks::document::{Error, LinkDocument, LinkEntry};
use golinks::key::{path_key, query_key};
use golinks::response::{error_response, healthz, render_for_uri, respond, upstream_request, Outcome, Response};

const DOC: &str = r#"{"content":"c","order":1.0,"go.metacode.biz/1":{"href":"https://metacode.biz"}}"#;

fn header<'a>(r: &'a Response, name: &str) -> Option<&'a str> {
    r.headers.iter().find(|(k, _)| k == name).map(|(_, v)| v.as_str())
}

#[test]
fn test_fransform() {
    let json = r#"{
  "content": "Quick links\nUse https://go.metacode.biz/X where X is a link code from below.",
  "order": 1499010613401.3,
  "go.metacode.biz/1": {
    "href": "https://metacode.biz"
  },
  "go.metacode.biz/tlsc": {
    "href": "https://www.ssllabs.com/ssltest/viewMyClient.html"
  }}"#;
    let links = LinkDocument::parse(json.as_bytes()).unwrap();
    assert_eq!(links.entries.len(), 2);
    assert_eq!(
        links.get(&"go.metacode.biz/1".to_string()),
        Some(&LinkEntry {
            href: "https://metacode.biz".into()
        })
    );
}

#[test]
fn path_slug_redirects_to_href() {
    let key = path_key(Some("go.metacode.biz"), "1");
    assert_eq!(key, "go.metacode.biz/1");
    let r = render_for_uri(Ok(DOC.as_bytes().to_vec()), key).unwrap();
    assert_eq!(r.status, 302);
    assert_eq!(header(&r, "Location"), Some("https://metacode.biz"));
    assert_eq!(header(&r, "Access-Control-Allow-Origin"), Some("*"));
    assert_eq!(header(&r, "X-Collation-Id").map(|v| v.len()), Some(36));
    assert_eq!(r.body, "");
}

#[test]
fn unknown_slug_is_not_found() {
    let key = path_key(Some("go.metacode.biz"), "unknown");
    let r = render_for_uri(Ok(DOC.as_bytes().to_vec()), key).unwrap();
    assert_eq!(r.status, 404);
    assert_eq!(header(&r, "Content-Type"), Some("application/problem+json"));
    assert_eq!(r.body, r#"{"key":"go.metacode.biz/unknown"}"#);
}

#[test]
fn missing_content_is_generic_error() {
    let doc = r#"{"order":1.0,"go.metacode.biz/1":{"href":"https://metacode.biz"}}"#;
    let r = render_for_uri(Ok(doc.as_bytes().to_vec()), "go.metacode.biz/1".to_string());
    assert_eq!(r.as_ref().err(), Some(&Error::MalformedDocument));
    let e = error_response(r.err().unwrap());
    assert_eq!(e.status, 500);
    assert_eq!(e.body, "Error");
}

#[test]
fn query_key_redirects() {
    let doc = r#"{"content":"c","order":2,"foo=bar":{"href":"https://example.com/q"}}"#;
    let key = query_key("foo=bar");
    assert_eq!(key, "foo=bar");
    let r = render_for_uri(Ok(doc.as_bytes().to_vec()), key).unwrap();
    assert_eq!(r.status, 302);
    assert_eq!(header(&r, "Location"), Some("https://example.com/q"));
}

#[test]
fn liveness_ignores_upstream() {
    let failed = render_for_uri(Err(Error::UpstreamUnreachable), "x/y".to_string());
    assert_eq!(failed.err(), Some(Error::UpstreamUnreachable));
    let r = healthz();
    assert_eq!(r.status, 200);
    assert_eq!(r.body, "OK");
}

#[test]
fn parsing_twice_gives_equal_documents() {
    let a = LinkDocument::parse(DOC.as_bytes()).unwrap();
    let b = LinkDocument::parse(DOC.as_bytes()).unwrap();
    assert_eq!(a.content, b.content);
    assert_eq!(a.order, b.order);
    assert_eq!(a.entries, b.entries);
    assert_eq!(a.content, "c");
}

#[test]
fn key_derivation_is_repeatable() {
    assert_eq!(path_key(Some("h"), "s"), path_key(Some("h"), "s"));
    assert_eq!(path_key(None, "s"), "/s");
    assert_eq!(query_key("a=1&b=2"), query_key("a=1&b=2"));
    assert_eq!(query_key(""), "");
}

#[test]
fn malformed_documents_are_rejected() {
    let cases = [
        r#"not json"#,
        r#"[1,2]"#,
        r#"{"content":"c"}"#,
        r#"{"content":"c","order":"1"}"#,
        r#"{"content":3,"order":1}"#,
        r#"{"content":"c","order":1,"k":{"link":"x"}}"#,
        r#"{"content":"c","order":1,"k":{"href":5}}"#,
        r#"{"content":"c","order":1,"k":"https://x"}"#,
    ];
    for c in cases {
        assert_eq!(LinkDocument::parse(c.as_bytes()).err(), Some(Error::MalformedDocument), "{}", c);
    }
}

#[test]
fn empty_document_has_no_entries() {
    let d = LinkDocument::parse(br#"{"content":"","order":0}"#).unwrap();
    assert!(d.entries.is_empty());
    assert_eq!(d.order, "0");
    assert_eq!(d.resolve(&"k".to_string()), Outcome::NotFound { key: "k".to_string() });
}

#[test]
fn not_found_body_escapes_key() {
    let r = respond(Outcome::NotFound { key: "a\"b".to_string() }, String::new());
    assert_eq!(r.body, r#"{"key":"a\"b"}"#);
}

#[test]
fn redirect_carries_given_id() {
    let r = respond(Outcome::Redirect { target: "https://t".to_string() }, "id-1".to_string());
    assert_eq!(r.status, 302);
    assert_eq!(header(&r, "X-Collation-Id"), Some("id-1"));
    assert_eq!(header(&r, "Location"), Some("https://t"));
}

#[test]
fn upstream_request_carries_token() {
    let r = upstream_request(&"https://up/links".to_string(), &"tok".to_string());
    assert_eq!(r.url, "https://up/links");
    assert_eq!(header_of(&r.headers, "Cookie"), Some("__Secure-Token=tok"));
    assert_eq!(header_of(&r.headers, "Accept"), Some("application/json"));
    assert_eq!(
        header_of(&r.headers, "User-Agent"),
        Some("golinks (+https://metacode.biz/@wiktor#golinks3)")
    );
}

fn header_of<'a>(h: &'a [(String, String)], name: &str) -> Option<&'a str> {
    h.iter().find(|(k, _)| k == name).map(|(_, v)| v.as_str())
}

#[test]
fn inner_href_members_and_extra_fields() {
    let d = LinkDocument::parse(br#"{"content":"c","order":1,"k":{"href":"https://a","note":1}}"#).unwrap();
    assert_eq!(d.resolve(&"k".to_string()), Outcome::Redirect { target: "https://a".to_string() });
}
