//! HTTP-level vocabulary of the dispatch core: methods, responses, the
//! closed outcome taxonomy, and the pure mapping from outcomes to
//! well-formed responses.

use vstd::prelude::*;
use crate::strutil::string_from_chars;

verus! {

/// HTTP status code for a successful response.
pub const STATUS_OK: u16 = 200;

/// HTTP status code for a request lacking valid credentials.
pub const STATUS_UNAUTHORIZED: u16 = 401;

/// HTTP status code for a route that matched nothing.
pub const STATUS_NOT_FOUND: u16 = 404;

/// HTTP status code for an internal failure.
pub const STATUS_SERVER_ERROR: u16 = 500;

/// The request methods the dispatcher distinguishes; everything beyond
/// GET and POST falls together, since no route accepts it.
#[derive(PartialEq, Eq, Structural, Clone, Copy, Debug)]
pub enum Method {
    Get,
    Post,
    Other,
}

/// Content types this service ever sets on a response.
#[derive(PartialEq, Eq, Structural, Clone, Copy, Debug)]
pub enum ContentType {
    Json,
    Png,
}

/// A response body: empty, text (JSON or a diagnostic message), or raw
/// bytes (the static icon).
pub enum RespBody {
    Empty,
    Text(String),
    Bytes(Vec<u8>),
}

/// A complete HTTP response as the dispatch core describes it; the
/// transport layer only has to copy these three fields out.
pub struct HttpResponse {
    pub status: u16,
    pub content_type: Option<ContentType>,
    pub body: RespBody,
}

/// Every way a request can end, other than serving the static icon:
/// one success shape and the closed error taxonomy.
pub enum Outcome {
    /// 200 with a JSON payload.
    Payload(String),
    /// Protected route, no Authorization header.
    MissingAuth,
    /// The token validator said the credential is invalid.
    InvalidToken,
    /// The Authorization header could not be decoded or lacks the scheme
    /// prefix.
    MalformedHeader,
    /// Key-set fetch or validator internals failed.
    AuthFailure,
    /// The store has no row for the requested identifier.
    StoreNotFound,
    /// Any other store error.
    StoreFailure,
    /// A payload could not be serialized.
    SerializationFailure,
    /// The request body could not be parsed; carries the parser detail.
    ParseFailure(String),
    /// No route matched the request.
    NoRoute,
}

/// The status code owed to each outcome.
pub open spec fn outcome_status(o: Outcome) -> u16 {
    match o {
        Outcome::Payload(_) => STATUS_OK,
        Outcome::MissingAuth => STATUS_UNAUTHORIZED,
        Outcome::InvalidToken => STATUS_UNAUTHORIZED,
        Outcome::NoRoute => STATUS_NOT_FOUND,
        _ => STATUS_SERVER_ERROR,
    }
}

/// Outcomes answered with an empty body.
pub open spec fn outcome_is_empty(o: Outcome) -> bool {
    o is MissingAuth || o is InvalidToken || o is NoRoute
}

/// The body text owed to each non-empty outcome.
pub open spec fn outcome_body(o: Outcome) -> Seq<char> {
    match o {
        Outcome::Payload(s) => s@,
        Outcome::MalformedHeader => "Malformed header, unable to decode"@,
        Outcome::AuthFailure => "JWT token validation error"@,
        Outcome::StoreNotFound => "Database item not found"@,
        Outcome::StoreFailure => "Database query failed"@,
        Outcome::SerializationFailure => "Could not serialize JSON"@,
        Outcome::ParseFailure(d) => "Could not parse JSON, "@ + d@,
        _ => Seq::empty(),
    }
}

/// Only a successful payload is marked as JSON; diagnostics go out as
/// plain text and empty bodies carry no content type.
pub open spec fn outcome_content_type(o: Outcome) -> Option<ContentType> {
    match o {
        Outcome::Payload(_) => Some(ContentType::Json),
        _ => None,
    }
}

/// Exactly what `respond` returns for an outcome.
pub open spec fn spec_respond(o: Outcome, r: HttpResponse) -> bool {
    &&& r.status == outcome_status(o)
    &&& r.content_type == outcome_content_type(o)
    &&& (outcome_is_empty(o) ==> r.body is Empty)
    &&& (!outcome_is_empty(o) ==> (r.body matches RespBody::Text(t) && t@ == outcome_body(o)))
}

/// The response mapper: a pure function from an outcome to the status
/// code, content type and body the client is owed.
pub fn respond(o: Outcome) -> (r: HttpResponse)
    ensures
        spec_respond(o, r),
{
    match o {
        Outcome::Payload(s) => HttpResponse {
            status: STATUS_OK,
            content_type: Some(ContentType::Json),
            body: RespBody::Text(s),
        },
        Outcome::MissingAuth => HttpResponse {
            status: STATUS_UNAUTHORIZED,
            content_type: None,
            body: RespBody::Empty,
        },
        Outcome::InvalidToken => HttpResponse {
            status: STATUS_UNAUTHORIZED,
            content_type: None,
            body: RespBody::Empty,
        },
        Outcome::MalformedHeader => text_error("Malformed header, unable to decode"),
        Outcome::AuthFailure => text_error("JWT token validation error"),
        Outcome::StoreNotFound => text_error("Database item not found"),
        Outcome::StoreFailure => text_error("Database query failed"),
        Outcome::SerializationFailure => text_error("Could not serialize JSON"),
        Outcome::ParseFailure(d) => {
            let msg = String::from_str("Could not parse JSON, ").concat(d.as_str());
            HttpResponse {
                status: STATUS_SERVER_ERROR,
                content_type: None,
                body: RespBody::Text(msg),
            }
        },
        Outcome::NoRoute => HttpResponse {
            status: STATUS_NOT_FOUND,
            content_type: None,
            body: RespBody::Empty,
        },
    }
}

/// A 500 response with a fixed diagnostic message.
fn text_error(message: &str) -> (r: HttpResponse)
    ensures
        r.status == STATUS_SERVER_ERROR,
        r.content_type is None,
        r.body matches RespBody::Text(t) && t@ == message@,
{
    HttpResponse {
        status: STATUS_SERVER_ERROR,
        content_type: None,
        body: RespBody::Text(String::from_str(message)),
    }
}

} // verus!
