//! The request dispatcher: a state machine from plain request data to
//! either a finished response or the one outside action the caller must
//! perform next (fetch the signing keys, read the body, run a store
//! operation).

use vstd::prelude::*;
use crate::auth::{
    decode_key_set, jwks_url, jwt_valid, kid_of, spec_parse_key_set, validate_token, AuthError,
};
use crate::http::{
    ContentType, HttpResponse, Method, Outcome, RespBody, respond, spec_respond, STATUS_OK,
    STATUS_SERVER_ERROR,
};
use crate::json::{input_post_view, parse_input_post, spec_parse_input_post};
use crate::models::InputPost;
use crate::routes::{get_route, has_prefix, spec_route, Route};
use crate::strutil::string_from_chars;

verus! {

/// A read-only store operation.
#[derive(PartialEq, Eq, Structural, Clone, Copy, Debug)]
pub enum StoreQuery {
    /// Full-table scan.
    All,
    /// Point lookup by identifier.
    ById(i32),
}

/// What the dispatcher asks of its caller after routing: answer now,
/// authenticate a create request, or run a read against the store.
pub enum Step {
    /// The response is already decided; no collaborator is consulted.
    Done(HttpResponse),
    /// A create request with a well-formed bearer token: fetch the key
    /// set at `keys_url` and hand the bytes to `authenticate`.
    Authenticate { token: String, keys_url: String },
    /// A read route: run the query and hand the rows back.
    Load(StoreQuery),
}

/// What the dispatcher asks after judging the token: answer now, or read
/// the request body and hand it to `handle_create_body`.
pub enum AuthStep {
    /// The response is already decided.
    Done(HttpResponse),
    /// The token is valid: read the request body.
    ReadBody,
}

/// The bytes of a header value, read as characters.
pub open spec fn header_chars(h: Seq<u8>) -> Seq<char> {
    Seq::new(h.len(), |i: int| h[i] as char)
}

/// Whether every byte of a header value is visible ASCII (or a tab), the
/// condition under which the transport reads it as text at all.
pub open spec fn visible_ascii(h: Seq<u8>) -> bool {
    forall|i: int| 0 <= i < h.len() ==> (32 <= #[trigger] h[i] <= 126 || h[i] == 9)
}

/// The bearer token inside an Authorization header: the text after the
/// `Bearer ` scheme prefix. A header that is not visible ASCII or lacks
/// the prefix carries no token.
pub open spec fn spec_header_token(h: Seq<u8>) -> Option<Seq<char>> {
    if visible_ascii(h) && h.len() >= 7 && header_chars(h).subrange(0, 7) == "Bearer "@ {
        Some(header_chars(h).skip(7))
    } else {
        None
    }
}

/// A 200 with an empty body, as the liveness probe answers.
pub open spec fn spec_okay(r: HttpResponse) -> bool {
    &&& r.status == STATUS_OK
    &&& r.content_type is None
    &&& r.body is Empty
}

/// A 200 serving the fixed icon: PNG content type, non-empty bytes.
pub open spec fn spec_favicon(r: HttpResponse) -> bool {
    &&& r.status == STATUS_OK
    &&& r.content_type == Some(ContentType::Png)
    &&& (r.body matches RespBody::Bytes(b) && b@.len() > 0)
}

/// The view of an optional borrowed header value.
pub open spec fn spec_opt_bytes(a: Option<&Vec<u8>>) -> Option<Seq<u8>> {
    match a {
        Some(v) => Some(v@),
        None => None,
    }
}

/// Exactly what `route` decides for every method, path and Authorization
/// header: which requests are answered on the spot and with what, which
/// go to the store, and which enter authentication with which token.
pub open spec fn route_spec(
    m: Method,
    path: Seq<char>,
    auth: Option<Seq<u8>>,
    authority: Seq<char>,
    r: Step,
) -> bool {
    match (m, spec_route(path)) {
        (Method::Get, Route::Favicon) => r matches Step::Done(resp) && spec_favicon(resp),
        (Method::Get, Route::Okay) => r matches Step::Done(resp) && spec_okay(resp),
        (Method::Get, Route::Posts) => r == Step::Load(StoreQuery::All),
        (Method::Get, Route::Post(id)) => r == Step::Load(StoreQuery::ById(id)),
        (Method::Post, Route::Posts) => match auth {
            None => r matches Step::Done(resp) && spec_respond(Outcome::MissingAuth, resp),
            Some(h) => match spec_header_token(h) {
                None => r matches Step::Done(resp) && spec_respond(Outcome::MalformedHeader, resp),
                Some(t) => r matches Step::Authenticate { token, keys_url } && token@ == t
                    && keys_url@ == authority + ".well-known/jwks.json"@,
            },
        },
        _ => r matches Step::Done(resp) && spec_respond(Outcome::NoRoute, resp),
    }
}

/// Read the bearer token out of an Authorization header value.
fn header_token(h: &Vec<u8>) -> (r: Option<String>)
    ensures
        r is Some <==> spec_header_token(h@) is Some,
        r matches Some(t) ==> Some(t@) == spec_header_token(h@),
{
    let n = h.len();
    let mut cs: Vec<char> = Vec::new();
    let mut i: usize = 0;
    while i < n
        invariant
            n == h@.len(),
            i <= n,
            cs@.len() == i,
            forall|j: int| 0 <= j < i ==> (32 <= #[trigger] h@[j] <= 126 || h@[j] == 9),
            forall|j: int| 0 <= j < i ==> cs@[j] == (h@[j] as char),
        decreases n - i,
    {
        let b = h[i];
        if (b < 32 || b > 126) && b != 9 {
            proof {
                assert(!visible_ascii(h@));
            }
            return None;
        }
        cs.push(b as char);
        i += 1;
    }
    proof {
        assert(cs@ =~= header_chars(h@));
        assert(visible_ascii(h@));
        reveal_strlit("Bearer ");
    }
    if cs.len() < 7 || !has_prefix(&cs, "Bearer ") {
        return None;
    }
    let mut t: Vec<char> = Vec::new();
    let mut k: usize = 7;
    while k < n
        invariant
            n == cs@.len(),
            7 <= k <= n,
            cs@ == header_chars(h@),
            t@.len() == k - 7,
            forall|j: int| 0 <= j < k - 7 ==> t@[j] == cs@[j + 7],
        decreases n - k,
    {
        t.push(cs[k]);
        k += 1;
    }
    proof {
        assert(t@ =~= header_chars(h@).skip(7));
    }
    Some(string_from_chars(&t))
}

/// The fixed icon: a minimal PNG image, served as a byte passthrough.
fn favicon_bytes() -> (r: Vec<u8>)
    ensures
        r@.len() > 0,
{
    let v: Vec<u8> = vec![
        0x89u8, 0x50, 0x4e, 0x47, 0x0d, 0x0a, 0x1a, 0x0a, 0x00, 0x00, 0x00, 0x0d, 0x49, 0x48,
        0x44, 0x52, 0x00, 0x00, 0x00, 0x01, 0x00, 0x00, 0x00, 0x01, 0x08, 0x06, 0x00, 0x00, 0x00,
        0x1f, 0x15, 0xc4, 0x89, 0x00, 0x00, 0x00, 0x0d, 0x49, 0x44, 0x41, 0x54, 0x78, 0x9c, 0x63,
        0xfc, 0xcf, 0xc0, 0x50, 0x0f, 0x00, 0x04, 0x85, 0x01, 0x80, 0x84, 0xa9, 0x8c, 0x21, 0x00,
        0x00, 0x00, 0x00, 0x49, 0x45, 0x4e, 0x44, 0xae, 0x42, 0x60, 0x82,
    ];
    v
}

/// Classify a request and decide its first step: routes that need no
/// collaborator are answered here; reads go to the store; a create
/// request passes the authentication gate first, and only with a
/// well-formed `Bearer` header does it proceed at all.
pub fn route(method: &Method, path: &str, auth: Option<&Vec<u8>>, authority: &str) -> (r: Step)
    ensures
        route_spec(*method, path@, spec_opt_bytes(auth), authority@, r),
{
    let rt = get_route(path);
    match (*method, rt) {
        (Method::Get, Route::Favicon) => Step::Done(
            HttpResponse {
                status: STATUS_OK,
                content_type: Some(ContentType::Png),
                body: RespBody::Bytes(favicon_bytes()),
            },
        ),
        (Method::Get, Route::Okay) => Step::Done(
            HttpResponse { status: STATUS_OK, content_type: None, body: RespBody::Empty },
        ),
        (Method::Get, Route::Posts) => Step::Load(StoreQuery::All),
        (Method::Get, Route::Post(id)) => Step::Load(StoreQuery::ById(id)),
        (Method::Post, Route::Posts) => match auth {
            None => Step::Done(respond(Outcome::MissingAuth)),
            Some(h) => match header_token(h) {
                None => Step::Done(respond(Outcome::MalformedHeader)),
                Some(token) => Step::Authenticate { token, keys_url: jwks_url(authority) },
            },
        },
        _ => Step::Done(respond(Outcome::NoRoute)),
    }
}

/// The view of the optional fetched key-set bytes.
pub open spec fn spec_opt_owned_bytes(a: Option<Vec<u8>>) -> Option<Seq<u8>> {
    match a {
        Some(v) => Some(v@),
        None => None,
    }
}

/// Exactly what `authenticate` decides: infrastructure failures answer
/// 500, an invalid credential answers 401, and only a token judged valid
/// lets the create request proceed to its body.
pub open spec fn authenticate_spec(
    fetched: Option<Seq<u8>>,
    token: Seq<char>,
    issuer: Seq<char>,
    r: AuthStep,
) -> bool {
    match fetched {
        None => r matches AuthStep::Done(resp) && spec_respond(Outcome::AuthFailure, resp),
        Some(b) => match spec_parse_key_set(b) {
            None => r matches AuthStep::Done(resp) && spec_respond(Outcome::AuthFailure, resp),
            Some(keys) => match kid_of(token) {
                None => r matches AuthStep::Done(resp) && spec_respond(Outcome::AuthFailure, resp),
                Some(kid) => if !keys.dom().contains(kid) {
                    r matches AuthStep::Done(resp) && spec_respond(Outcome::AuthFailure, resp)
                } else if jwt_valid(token, keys[kid], issuer) {
                    r is ReadBody
                } else {
                    r matches AuthStep::Done(resp) && spec_respond(Outcome::InvalidToken, resp)
                },
            },
        },
    }
}

/// What the dispatcher asks after reading the create request's body:
/// answer the parse failure, or insert the parsed row.
pub enum CreateStep {
    /// The body was not a well-formed creation request.
    Done(HttpResponse),
    /// The body parsed: insert this row and answer with the stored row.
    Insert(InputPost),
}

/// Exactly what `handle_create_body` decides: a body that parses as a
/// creation request is inserted as parsed; any other body answers 500
/// with the parse diagnostic.
pub open spec fn handle_create_body_spec(body: Seq<char>, r: CreateStep) -> bool {
    match spec_parse_input_post(body) {
        Some(p) => r matches CreateStep::Insert(q) && input_post_view(q) == p,
        None => r matches CreateStep::Done(resp) && {
            &&& resp.status == STATUS_SERVER_ERROR
            &&& resp.content_type is None
            &&& (resp.body matches RespBody::Text(t) && t@ == "Could not parse JSON, "@
                + "invalid post object"@)
        },
    }
}

/// Parse the create request's body and decide whether to insert.
pub fn handle_create_body(body: &str) -> (r: CreateStep)
    ensures
        handle_create_body_spec(body@, r),
{
    match parse_input_post(body) {
        Some(p) => CreateStep::Insert(p),
        None => CreateStep::Done(
            respond(Outcome::ParseFailure(String::from_str("invalid post object"))),
        ),
    }
}

/// Judge the create request's token against the fetched key set, and
/// decide whether the request may proceed.
pub fn authenticate(fetched: &Option<Vec<u8>>, token: &str, authority: &str) -> (r: AuthStep)
    ensures
        authenticate_spec(spec_opt_owned_bytes(*fetched), token@, authority@, r),
{
    match decode_key_set(fetched) {
        Err(_) => AuthStep::Done(respond(Outcome::AuthFailure)),
        Ok(keys) => match validate_token(token, &keys, authority) {
            Err(_) => AuthStep::Done(respond(Outcome::AuthFailure)),
            Ok(false) => AuthStep::Done(respond(Outcome::InvalidToken)),
            Ok(true) => AuthStep::ReadBody,
        },
    }
}

} // verus!
