//! The properties the dispatch core guarantees, stated and proved over
//! the same specifications its functions carry.

use vstd::prelude::*;
use crate::dispatch::{
    authenticate_spec, route_spec, spec_okay, spec_favicon, spec_header_token, AuthStep, Step,
};
use crate::auth::{jwt_valid, kid_of, spec_parse_key_set};
use crate::http::{
    HttpResponse, Method, Outcome, RespBody, spec_respond, STATUS_NOT_FOUND, STATUS_OK,
    STATUS_SERVER_ERROR, STATUS_UNAUTHORIZED,
};
use crate::json::{spec_dec, spec_post_json};
use crate::models::{digit_char, digit_val, is_digit, Post};
use crate::routes::{
    all_digits, digits_val, spec_get_post_response, spec_route, Route, StoreError,
};

verus! {

/// A non-negative number renders as a non-empty digit string that
/// denotes the number itself.
pub proof fn lemma_dec_digits(n: int)
    requires
        n >= 0,
    ensures
        all_digits(spec_dec(n)),
        spec_dec(n).len() >= 1,
        digits_val(spec_dec(n)) == n,
    decreases n,
{
    if n < 10 {
        assert(digit_val(digit_char(n)) == n);
        assert(spec_dec(n) =~= seq![digit_char(n)]);
        assert(spec_dec(n).drop_last() =~= Seq::<char>::empty());
        assert(digits_val(spec_dec(n).drop_last()) == 0);
        assert(digits_val(spec_dec(n)) == digits_val(spec_dec(n).drop_last()) * 10 + digit_val(
            spec_dec(n).last(),
        ));
        assert(all_digits(spec_dec(n)));
    } else {
        lemma_dec_digits(n / 10);
        assert(spec_dec(n).drop_last() =~= spec_dec(n / 10));
        assert(spec_dec(n).last() == digit_char(n % 10));
        assert(digit_val(digit_char(n % 10)) == n % 10);
        assert(digits_val(spec_dec(n)) == digits_val(spec_dec(n).drop_last()) * 10 + digit_val(
            spec_dec(n).last(),
        ));
        assert(n / 10 * 10 + n % 10 == n);
        assert forall|i: int| 0 <= i < spec_dec(n).len() implies is_digit(
            #[trigger] spec_dec(n)[i],
        ) by {
            if i < spec_dec(n / 10).len() {
                assert(spec_dec(n)[i] == spec_dec(n / 10)[i]);
            } else {
                assert(spec_dec(n)[i] == digit_char(n % 10));
            }
        }
    }
}

/// The canonical path for a point lookup resolves to that lookup.
pub proof fn lemma_route_post_id(n: i32)
    requires
        n >= 0,
    ensures
        spec_route("/posts/"@ + spec_dec(n as int)) == Route::Post(n),
{
    reveal_strlit("/posts/");
    lemma_dec_digits(n as int);
    let path = "/posts/"@ + spec_dec(n as int);
    assert(path.subrange(0, 7) =~= "/posts/"@);
    assert(path.skip(7) =~= spec_dec(n as int));
}

/// For every identifier `n >= 0`, `GET /posts/{n}` resolves to the point
/// lookup of `n`, and its response is 200 carrying the row's JSON — an
/// object opening with an `id` field equal to `n` — or a 500; never a
/// 404, even when the store has no such row.
pub proof fn lemma_get_by_id_never_not_found(
    n: i32,
    result: Result<Post, StoreError>,
    resp: HttpResponse,
)
    requires
        n >= 0,
        (result matches Ok(p) ==> p.id == n),
        spec_get_post_response(result, resp),
    ensures
        spec_route("/posts/"@ + spec_dec(n as int)) == Route::Post(n),
        resp.status == STATUS_OK || resp.status == STATUS_SERVER_ERROR,
        resp.status != STATUS_NOT_FOUND,
        result is Ok ==> resp.status == STATUS_OK,
        (result matches Ok(p) ==> (resp.body matches RespBody::Text(t) && t@.subrange(
            0,
            ("{\"id\":"@ + spec_dec(n as int)).len() as int,
        ) == "{\"id\":"@ + spec_dec(n as int))),
        (result matches Err(e) && e == StoreError::NotFound) ==> (resp.body matches
            RespBody::Text(t) && t@ == "Database item not found"@),
{
    lemma_route_post_id(n);
    match result {
        Ok(p) => match resp.body {
            RespBody::Text(t) => {
                let prefix = "{\"id\":"@ + spec_dec(n as int);
                assert(t@ == spec_post_json(p));
                assert(t@.subrange(0, prefix.len() as int) =~= prefix);
            },
            _ => {},
        },
        _ => {},
    }
}

/// Any `/posts/` suffix that is not all digits resolves to no route, so
/// the request is answered 404 with an empty body, whatever the method
/// and whatever Authorization header came with it.
pub proof fn lemma_non_digit_segment_not_found(
    m: Method,
    seg: Seq<char>,
    auth: Option<Seq<u8>>,
    authority: Seq<char>,
    r: Step,
)
    requires
        !all_digits(seg),
        route_spec(m, "/posts/"@ + seg, auth, authority, r),
    ensures
        spec_route("/posts/"@ + seg) == Route::NotFound,
        r matches Step::Done(resp) && spec_respond(Outcome::NoRoute, resp),
        r matches Step::Done(resp) && resp.status == STATUS_NOT_FOUND && resp.body is Empty,
{
    reveal_strlit("/posts/");
    reveal_strlit("/favicon.ico");
    reveal_strlit("/posts");
    reveal_strlit("/isAlive");
    reveal_strlit("/isReady");
    let path = "/posts/"@ + seg;
    assert(seg.len() > 0);
    assert(path.skip(7) =~= seg);
    assert(path[1] == 'p');
    assert(path != "/favicon.ico"@);
    assert(path != "/posts"@);
    assert(path != "/posts/"@);
    assert(path != "/isAlive"@);
    assert(path != "/isReady"@);
}

/// `POST /posts` without an Authorization header is answered 401 with an
/// empty body at once: no key fetch, no token check, and no store
/// operation can follow.
pub proof fn lemma_create_without_header(path: Seq<char>, authority: Seq<char>, r: Step)
    requires
        spec_route(path) == Route::Posts,
        route_spec(Method::Post, path, None, authority, r),
    ensures
        r matches Step::Done(resp) && resp.status == STATUS_UNAUTHORIZED,
        r matches Step::Done(resp) && resp.body is Empty,
        !(r is Load),
        !(r is Authenticate),
{
}

/// A header that cannot be decoded or lacks the `Bearer ` prefix is
/// answered 500 with the fixed malformed-header message — distinct from
/// an invalid credential, which is a 401.
pub proof fn lemma_malformed_header(
    path: Seq<char>,
    h: Seq<u8>,
    authority: Seq<char>,
    r: Step,
)
    requires
        spec_route(path) == Route::Posts,
        spec_header_token(h) is None,
        route_spec(Method::Post, path, Some(h), authority, r),
    ensures
        r matches Step::Done(resp) && resp.status == STATUS_SERVER_ERROR,
        r matches Step::Done(resp) && (resp.body matches RespBody::Text(t) && t@
            == "Malformed header, unable to decode"@),
        !(r is Load),
        !(r is Authenticate),
{
}

/// A well-formed bearer token that the validator judges invalid — a key
/// was found, the signature or claims just do not hold up — is answered
/// 401 with an empty body, not an error.
pub proof fn lemma_invalid_credential_unauthorized(
    keys_bytes: Seq<u8>,
    token: Seq<char>,
    issuer: Seq<char>,
    kid: Seq<char>,
    r: AuthStep,
)
    requires
        spec_parse_key_set(keys_bytes) matches Some(keys) && {
            &&& kid_of(token) == Some(kid)
            &&& keys.dom().contains(kid)
            &&& !jwt_valid(token, keys[kid], issuer)
        },
        authenticate_spec(Some(keys_bytes), token, issuer, r),
    ensures
        r matches AuthStep::Done(resp) && resp.status == STATUS_UNAUTHORIZED && resp.body
            is Empty,
        !(r is ReadBody),
{
}

/// The liveness probes are answered 200 with an empty body on the spot:
/// the step is final, so neither the store nor the identity provider can
/// be consulted.
pub proof fn lemma_probes_answer_immediately(
    path: Seq<char>,
    auth: Option<Seq<u8>>,
    authority: Seq<char>,
    r: Step,
)
    requires
        path == "/isAlive"@ || path == "/isReady"@,
        route_spec(Method::Get, path, auth, authority, r),
    ensures
        r matches Step::Done(resp) && spec_okay(resp),
        r matches Step::Done(resp) && resp.status == STATUS_OK && resp.body is Empty,
        !(r is Load),
        !(r is Authenticate),
{
    reveal_strlit("/isAlive");
    reveal_strlit("/isReady");
    reveal_strlit("/posts/");
    reveal_strlit("/favicon.ico");
    reveal_strlit("/posts");
    if path == "/isAlive"@ {
        assert(path[1] == 'i');
    } else {
        assert(path[1] == 'i');
    }
    assert(spec_route(path) == Route::Okay);
}

/// The icon is served 200 with the PNG content type and a non-empty
/// body, decided without consulting any collaborator.
pub proof fn lemma_favicon(auth: Option<Seq<u8>>, authority: Seq<char>, r: Step)
    requires
        route_spec(Method::Get, "/favicon.ico"@, auth, authority, r),
    ensures
        r matches Step::Done(resp) && spec_favicon(resp),
        !(r is Load),
        !(r is Authenticate),
{
    reveal_strlit("/favicon.ico");
    reveal_strlit("/posts/");
    let path = "/favicon.ico"@;
    assert(path[1] == 'f');
    assert(spec_route(path) == Route::Favicon);
}

} // verus!
