//! Wire responses and the conversion of handler return values into them.
//!
//! A response is a status, headers and a body, all plain values. The
//! [`Responder`] capability is what a handler's return type must implement
//! to be convertible; values lacking it simply cannot be registered, so the
//! conversion can never fail at request time.

use vstd::prelude::*;

verus! {

/// A normalized wire response.
pub struct Response {
    pub status: u16,
    pub headers: Vec<(String, String)>,
    pub body: String,
}

/// The mathematical shape of a response.
pub struct ResponseShape {
    pub status: u16,
    pub headers: Seq<(Seq<char>, Seq<char>)>,
    pub body: Seq<char>,
}

impl View for Response {
    type V = ResponseShape;

    open spec fn view(&self) -> ResponseShape {
        ResponseShape {
            status: self.status,
            headers: self.headers.deep_view(),
            body: self.body@,
        }
    }
}

/// The headers every response built by this module carries.
pub open spec fn text_headers() -> Seq<(Seq<char>, Seq<char>)> {
    seq![("content-type"@, "text/plain"@)]
}

/// The shape of a plain-text response with the given status and body.
pub open spec fn text_shape(status: u16, body: Seq<char>) -> ResponseShape {
    ResponseShape { status, headers: text_headers(), body }
}

/// The deterministic body sent when no route's pattern accepts the path.
pub open spec fn not_found_shape() -> ResponseShape {
    text_shape(404, "no route matches this path"@)
}

/// The deterministic body sent when the path is known but not under the
/// request's method.
pub open spec fn method_not_allowed_shape() -> ResponseShape {
    text_shape(404, "this path does not accept this method"@)
}

/// The shape of the response standing in for a failed handler: a 5xx with
/// a fixed body that never leaks internal error text.
pub open spec fn internal_error_shape() -> ResponseShape {
    text_shape(500, "internal server error"@)
}

/// Build a plain-text response with the given status and body.
pub fn text_status_response(status: u16, body: String) -> (r: Response)
    ensures
        r@ == text_shape(status, body@),
{
    let mut headers: Vec<(String, String)> = Vec::new();
    headers.push((String::from_str("content-type"), String::from_str("text/plain")));
    let r = Response { status, headers, body };
    proof {
        assert(r@.headers =~= text_headers());
    }
    r
}

/// A 200 plain-text response carrying `body`.
pub fn text_response(body: String) -> (r: Response)
    ensures
        r@ == text_shape(200, body@),
{
    text_status_response(200, body)
}

/// The response for a path no pattern accepts.
pub fn not_found_response() -> (r: Response)
    ensures
        r@ == not_found_shape(),
{
    text_status_response(404, String::from_str("no route matches this path"))
}

/// The response for a known path under an unregistered method.
pub fn method_not_allowed_response() -> (r: Response)
    ensures
        r@ == method_not_allowed_shape(),
{
    text_status_response(404, String::from_str("this path does not accept this method"))
}

/// The response standing in for a handler that failed.
pub fn internal_error_response() -> (r: Response)
    ensures
        r@ == internal_error_shape(),
{
    text_status_response(500, String::from_str("internal server error"))
}

/// The capability a handler's return value must implement to become a wire
/// response. Each implementing type says, as a spec function, exactly what
/// response a value of it converts to.
pub trait Responder: Sized {
    /// The response this value converts to.
    spec fn spec_response(&self) -> ResponseShape;

    /// Convert this value into its wire response.
    fn to_response(self) -> (r: Response)
        ensures
            r@ == self.spec_response(),
    ;
}

impl Responder for String {
    open spec fn spec_response(&self) -> ResponseShape {
        text_shape(200, self@)
    }

    fn to_response(self) -> (r: Response) {
        text_response(self)
    }
}

} // verus!
