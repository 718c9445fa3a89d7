use vstd::prelude::*;

use axum::body::Bytes;
use axum::http::{HeaderMap, HeaderValue, Method};

verus! {

#[verifier::external_type_specification]
#[verifier::external_body]
pub struct ExMethod(Method);

#[verifier::external_type_specification]
#[verifier::external_body]
pub struct ExBytes(Bytes);

/// An incoming request, as the gateway forwards it.
pub struct RequestContext {
    pub method: Method,
    pub path: String,
    pub headers: HeaderMap<HeaderValue>,
    pub body: Bytes,
}

impl RequestContext {
    pub fn new(method: Method, path: String, headers: HeaderMap<HeaderValue>, body: Bytes) -> (r: Self)
        ensures
            r.method == method,
            r.path == path,
            r.headers == headers,
            r.body == body,
    {
        Self { method, path, headers, body }
    }
}

} // verus!
