//! A go-links resolver: derives a lookup key from a request, decodes the
//! link map document fetched from the upstream, looks the key up and builds
//! the HTTP response that answers the request.
use vstd::prelude::*;

pub mod document;
pub mod json;
pub mod key;
pub mod response;

verus! {

} // verus!
