//! Derivation of the lookup key from an inbound request.
use vstd::prelude::*;

verus! {

/// The key of a `/{slug}` request: the host, a slash, and the slug.
pub open spec fn path_key_spec(host: Seq<char>, slug: Seq<char>) -> Seq<char> {
    host + seq!['/'] + slug
}

/// The `Host` header's value, or the empty string where it is absent.
pub open spec fn host_or_empty(host: Option<&str>) -> Seq<char> {
    match host {
        Some(h) => h@,
        None => Seq::empty(),
    }
}

/// Builds the lookup key for a `/{slug}` request from its `Host` header
/// (absent: empty) and the slug.
pub fn path_key(host: Option<&str>, slug: &str) -> (r: String)
    ensures
        r@ == path_key_spec(host_or_empty(host), slug@),
{
    let mut r = match host {
        Some(h) => String::from_str(h),
        None => String::new(),
    };
    r.append("/");
    r.append(slug);
    proof {
        reveal_strlit("/");
    }
    r
}

/// Builds the lookup key for a request to `/`: the raw query string.
pub fn query_key(query: &str) -> (r: String)
    ensures
        r@ == query@,
{
    String::from_str(query)
}

/// The path-based key depends on the host and the slug alone: two
/// derivations from the same pair give the same key.
pub proof fn path_key_is_deterministic(host: Seq<char>, slug: Seq<char>, k1: Seq<char>, k2: Seq<char>)
    requires
        k1 == path_key_spec(host, slug),
        k2 == path_key_spec(host, slug),
    ensures
        k1 == k2,
{
}

/// The query-based key is the query string itself: two derivations from the
/// same query string give the same key.
pub proof fn query_key_is_deterministic(query: Seq<char>, k1: Seq<char>, k2: Seq<char>)
    requires
        k1 == query,
        k2 == query,
    ensures
        k1 == k2,
{
}

} // verus!
