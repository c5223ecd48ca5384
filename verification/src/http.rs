//! The parts of HTTP requests and replies that the handlers decide on.

use vstd::prelude::*;

verus! {

/// The request methods the handlers tell apart.
#[derive(Clone, Copy, Debug, PartialEq, Eq, Structural)]
pub enum Method {
    Get,
    Post,
    Delete,
    Other,
}

/// What the handlers read of an incoming request.
pub struct ApiRequest {
    pub method: Method,
    /// The `x-api-key` header, when present and made of visible ASCII.
    pub api_key: Option<String>,
    /// The URI path.
    pub path: String,
    /// The `id` path parameter, when the gateway extracted one.
    pub path_id: Option<String>,
}

/// A reply: a status code and a body.
pub struct Reply<B> {
    pub status: u16,
    pub body: B,
}

/// Body text of a reply to a request without a valid API key.
pub const UNAUTHORIZED: &'static str = "Unauthorized";

/// Body text of a reply to a method the endpoint does not serve.
pub const METHOD_NOT_ALLOWED: &'static str = "Method Not Allowed";

/// Body text of a reply to a body that does not parse.
pub const INVALID_BODY: &'static str = "Invalid Request Body";

/// Body text of a reply to a failed storage or network call.
pub const INTERNAL_ERROR: &'static str = "Internal Server Error";

/// The optional text `s`, or the empty text.
pub open spec fn text_or_empty(s: Option<String>) -> Seq<char> {
    match s {
        Some(t) => t@,
        None => Seq::empty(),
    }
}

/// Returns the text held by `s`, or an empty string.
pub fn unwrap_text(s: Option<String>) -> (r: String)
    ensures
        r@ == text_or_empty(s),
{
    match s {
        Some(t) => t,
        None => String::new(),
    }
}

} // verus!
