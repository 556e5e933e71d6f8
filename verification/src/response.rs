//! Turning handler outcomes into HTTP responses: the conversion capability
//! every response-producing type implements, a prepared response the
//! verified logic decides, and the fixed fallback taken when building an
//! error body fails.

use vstd::prelude::*;
use crate::envelope::ErrorResponse;
use crate::envelope::SerializeError;
use crate::envelope::envelope_wire;
use crate::envelope::envelope_wire_plain;
use crate::envelope::json_plain_text;
use crate::envelope::json_string_field_at;
use crate::envelope::message_key;

verus! {

#[verifier::external_type_specification]
#[verifier::external_body]
#[verifier::reject_recursive_types(T)]
pub struct ExResponse<T>(http::Response<T>);

#[verifier::external_type_specification]
#[verifier::external_body]
pub struct ExBody(hyper::Body);

/// The status code an HTTP response carries on its status line.
pub uninterp spec fn http_status_of(r: http::Response<hyper::Body>) -> int;

/// The text of the body an HTTP response carries.
pub uninterp spec fn http_body_text_of(r: http::Response<hyper::Body>) -> Seq<char>;

/// The value of the `Content-Type` header an HTTP response carries.
pub uninterp spec fn http_content_type_of(r: http::Response<hyper::Body>) -> Seq<char>;

/// An HTTP response the library has fully decided: a status code and a JSON
/// body, sent over the wire under a `Content-Type: application/json` header.
///
/// Its model (its view) is the pair of the status code and the body text.
#[derive(Debug)]
pub struct PreparedResponse {
    status: u16,
    body: String,
}

impl View for PreparedResponse {
    type V = (int, Seq<char>);

    closed spec fn view(&self) -> (int, Seq<char>) {
        (self.status as int, self.body@)
    }
}

/// The status of the fixed fallback response.
pub open spec fn fallback_status() -> int {
    500
}

/// The body of the fixed fallback response: a minimal static envelope.
pub open spec fn fallback_body() -> Seq<char> {
    "{\"message\":\"internal server error\"}"@
}

impl PreparedResponse {
    /// A prepared response is well formed when its status code is one the
    /// HTTP status line can carry.
    pub open spec fn wf(&self) -> bool {
        100 <= self@.0 <= 999
    }

    /// The status code of the response.
    pub fn status(&self) -> (r: u16)
        ensures
            r as int == self@.0,
    {
        self.status
    }

    /// The body text of the response.
    pub fn body_str(&self) -> (r: &str)
        ensures
            r@ == self@.1,
    {
        self.body.as_str()
    }
}

/// The fixed response substituted when building a response body fails:
/// `500 Internal Server Error` with a minimal static envelope body. Taking
/// this value locally, rather than propagating the failure, keeps every
/// request terminating in a syntactically valid HTTP response.
pub fn fallback_response() -> (r: PreparedResponse)
    ensures
        r@.0 == fallback_status(),
        r@.1 == fallback_body(),
        r.wf(),
{
    PreparedResponse { status: 500, body: "{\"message\":\"internal server error\"}".to_owned() }
}

/// Assemble the response for an outcome whose body construction may have
/// failed: a successfully built body is carried unchanged under the given
/// status, and a failed one degrades to the fixed fallback response.
pub fn assemble(status: u16, body: Result<String, SerializeError>) -> (r: PreparedResponse)
    requires
        100 <= status <= 999,
    ensures
        r.wf(),
        body matches Ok(b) ==> r@.0 == status && r@.1 == b@,
        body is Err ==> r@.0 == fallback_status() && r@.1 == fallback_body(),
{
    match body {
        Ok(b) => PreparedResponse { status, body: b },
        Err(_) => fallback_response(),
    }
}

/// Build the response for a domain failure: the given status code with the
/// serialized envelope for `message` as body. Serializing an envelope is
/// proved never to fail, so the requested response is always built; the
/// fixed fallback path stands ready in `assemble` for body constructions
/// that can fail.
pub fn error_response(status: u16, message: String) -> (r: PreparedResponse)
    requires
        100 <= status <= 999,
    ensures
        r.wf(),
        r@.0 == status,
        r@.1 == envelope_wire(message@),
        json_plain_text(message@) ==> r@.1 == envelope_wire_plain(message@),
        json_string_field_at(r@.1, message_key()) == Some(message@),
{
    let envelope = ErrorResponse::new(message);
    let body = envelope.to_json();
    assemble(status, body)
}

/// The response conversion capability: a type that can produce a concrete
/// HTTP response implements this single consuming operation, and the
/// dispatch layer invokes it uniformly on every handler outcome instead of
/// special-casing success and error types.
pub trait IntoResponse: Sized {
    /// What converting demands of the consumed value.
    spec fn into_response_requires(self) -> bool;

    /// What converting promises of the produced response.
    spec fn into_response_ensures(self, r: http::Response<hyper::Body>) -> bool;

    fn into_response(self) -> (r: http::Response<hyper::Body>)
        requires
            self.into_response_requires(),
        ensures
            self.into_response_ensures(r),
    ;
}

impl IntoResponse for http::Response<hyper::Body> {
    open spec fn into_response_requires(self) -> bool {
        true
    }

    /// Law: a value that already is a response converts to itself, unchanged.
    open spec fn into_response_ensures(self, r: http::Response<hyper::Body>) -> bool {
        r == self
    }

    fn into_response(self) -> (r: http::Response<hyper::Body>) {
        self
    }
}

impl IntoResponse for PreparedResponse {
    open spec fn into_response_requires(self) -> bool {
        self.wf()
    }

    /// The produced HTTP response carries exactly what was prepared: the
    /// status code, the body text, and a `Content-Type: application/json`
    /// header.
    open spec fn into_response_ensures(self, r: http::Response<hyper::Body>) -> bool {
        http_status_of(r) == self@.0
            && http_body_text_of(r) == self@.1
            && http_content_type_of(r) == "application/json"@
    }

    fn into_response(self) -> (r: http::Response<hyper::Body>) {
        into_http_response(self)
    }
}

/// Relies on http::Response::builder with its status, header and body
/// methods, and on hyper::Body::from on a String: assembles a response that
/// carries the given status unchanged (http::StatusCode::from_u16 accepts
/// exactly 100..=999 and keeps the number), the body text unchanged
/// (hyper::Body::from wraps the String's bytes as they are), and a
/// `Content-Type: application/json` header. The header name and value are
/// fixed valid constants, so the builder cannot fail on the inputs admitted
/// here.
#[verifier::external_body]
fn into_http_response(p: PreparedResponse) -> (r: http::Response<hyper::Body>)
    requires
        100 <= p@.0 <= 999,
    ensures
        http_status_of(r) == p@.0,
        http_body_text_of(r) == p@.1,
        http_content_type_of(r) == "application/json"@,
{
    http::Response::builder()
        .status(p.status)
        .header(http::header::CONTENT_TYPE, "application/json")
        .body(hyper::Body::from(p.body))
        .unwrap()
}

} // verus!
