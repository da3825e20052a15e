//! Route classification and the pure parts of each handler: mapping
//! store results to responses.

use vstd::prelude::*;
use crate::http::{
    ContentType, HttpResponse, Outcome, RespBody, respond, spec_respond, STATUS_OK,
};
use crate::json::{encode_post, encode_posts, spec_post_json, spec_posts_json};
use crate::models::{digit_val, is_digit, Post};
use crate::strutil::chars_of;

verus! {

/// The closed set of operations a request can resolve to.
#[derive(PartialEq, Eq, Structural, Clone, Copy, Debug)]
pub enum Route {
    /// `GET /posts/{id}`: point lookup of one post.
    Post(i32),
    /// `/posts` (or `/posts/`): list on GET, create on POST.
    Posts,
    /// `/isAlive` or `/isReady`: the liveness probe.
    Okay,
    /// `/favicon.ico`: the static icon.
    Favicon,
    /// Anything else.
    NotFound,
}

/// Whether every character of `s` is a decimal digit.
pub open spec fn all_digits(s: Seq<char>) -> bool {
    forall|i: int| 0 <= i < s.len() ==> is_digit(#[trigger] s[i])
}

/// The number a digit string denotes.
pub open spec fn digits_val(s: Seq<char>) -> int
    decreases s.len(),
{
    if s.len() == 0 {
        0
    } else {
        digits_val(s.drop_last()) * 10 + digit_val(s.last())
    }
}

/// Which route a path resolves to. The numeric pattern is checked first;
/// a `/posts/` suffix that is not all digits, or whose value does not fit
/// an identifier, matches no route.
pub open spec fn spec_route(path: Seq<char>) -> Route {
    if path.len() > 7 && path.subrange(0, 7) == "/posts/"@ && all_digits(path.skip(7)) {
        if digits_val(path.skip(7)) <= i32::MAX {
            Route::Post(digits_val(path.skip(7)) as i32)
        } else {
            Route::NotFound
        }
    } else if path == "/favicon.ico"@ {
        Route::Favicon
    } else if path == "/posts"@ || path == "/posts/"@ {
        Route::Posts
    } else if path == "/isAlive"@ || path == "/isReady"@ {
        Route::Okay
    } else {
        Route::NotFound
    }
}

/// A digit string's value never shrinks when more digits follow.
proof fn lemma_digits_val_nonneg(s: Seq<char>)
    requires
        all_digits(s),
    ensures
        digits_val(s) >= 0,
    decreases s.len(),
{
    if s.len() > 0 {
        let s1 = s.drop_last();
        assert(all_digits(s1));
        lemma_digits_val_nonneg(s1);
    }
}

/// A prefix of a digit string never denotes more than the whole string.
proof fn lemma_digits_val_prefix(s: Seq<char>, m: int)
    requires
        all_digits(s),
        0 <= m <= s.len(),
    ensures
        digits_val(s.subrange(0, m)) <= digits_val(s),
    decreases s.len(),
{
    if m == s.len() {
        assert(s.subrange(0, m) =~= s);
    } else {
        let s1 = s.drop_last();
        assert(all_digits(s1));
        lemma_digits_val_prefix(s1, m);
        assert(s.subrange(0, m) =~= s1.subrange(0, m));
        lemma_digits_val_nonneg(s1);
    }
}

/// Whether `cs` starts with the characters of `lit`.
pub(crate) fn has_prefix(cs: &Vec<char>, lit: &str) -> (r: bool)
    ensures
        r == (cs@.len() >= lit@.len() && cs@.subrange(0, lit@.len() as int) == lit@),
{
    let ls = chars_of(lit);
    let n = ls.len();
    if cs.len() < n {
        return false;
    }
    let mut i: usize = 0;
    while i < n
        invariant
            n == ls@.len(),
            ls@ == lit@,
            cs@.len() >= n,
            i <= n,
            forall|j: int| 0 <= j < i ==> cs@[j] == ls@[j],
        decreases n - i,
    {
        if cs[i] != ls[i] {
            proof {
                assert(cs@.subrange(0, lit@.len() as int)[i as int] != lit@[i as int]);
            }
            return false;
        }
        i += 1;
    }
    proof {
        assert(cs@.subrange(0, lit@.len() as int) =~= lit@);
    }
    true
}

/// Whether `cs` consists exactly of the characters of `lit`.
pub(crate) fn chars_eq(cs: &Vec<char>, lit: &str) -> (r: bool)
    ensures
        r == (cs@ == lit@),
{
    let lit_len = chars_of(lit).len();
    if cs.len() != lit_len {
        return false;
    }
    let r = has_prefix(cs, lit);
    proof {
        assert(cs@.subrange(0, lit@.len() as int) =~= cs@);
    }
    r
}

/// Whether every character of `cs` from `start` on is a digit.
fn all_digits_from(cs: &Vec<char>, start: usize) -> (r: bool)
    requires
        start <= cs@.len(),
    ensures
        r == all_digits(cs@.skip(start as int)),
{
    let n = cs.len();
    let mut i: usize = start;
    while i < n
        invariant
            start <= i <= n,
            n == cs@.len(),
            forall|j: int| start <= j < i ==> is_digit(#[trigger] cs@[j]),
        decreases n - i,
    {
        let c = cs[i];
        if c < '0' || c > '9' {
            proof {
                assert(cs@.skip(start as int)[i - start as int] == cs@[i as int]);
            }
            return false;
        }
        proof {
            assert(is_digit(cs@[i as int]));
        }
        i += 1;
    }
    proof {
        assert forall|j: int| 0 <= j < cs@.skip(start as int).len() implies is_digit(
            #[trigger] cs@.skip(start as int)[j],
        ) by {
            assert(cs@.skip(start as int)[j] == cs@[j + start as int]);
        }
    }
    true
}

/// Parse the digit string starting at `start` as an identifier, unless
/// its value does not fit.
fn parse_id(cs: &Vec<char>, start: usize) -> (r: Option<i32>)
    requires
        start < cs@.len(),
        all_digits(cs@.skip(start as int)),
    ensures
        digits_val(cs@.skip(start as int)) <= i32::MAX ==> (r matches Some(v) && v as int
            == digits_val(cs@.skip(start as int))),
        digits_val(cs@.skip(start as int)) > i32::MAX ==> r is None,
{
    let ghost whole = cs@.skip(start as int);
    let n = cs.len();
    let mut acc: i32 = 0;
    let mut i: usize = start;
    while i < n
        invariant
            start <= i <= n,
            n == cs@.len(),
            all_digits(whole),
            whole == cs@.skip(start as int),
            0 <= acc,
            acc as int == digits_val(cs@.subrange(start as int, i as int)),
        decreases n - i,
    {
        proof {
            assert(is_digit(whole[i - start as int]));
            assert(whole[i - start as int] == cs@[i as int]);
        }
        let d: u32 = cs[i] as u32 - 48;
        let next: i64 = acc as i64 * 10 + d as i64;
        proof {
            assert(cs@.subrange(start as int, i + 1 as int).drop_last() =~= cs@.subrange(
                start as int,
                i as int,
            ));
            assert(cs@.subrange(start as int, i + 1 as int).last() == cs@[i as int]);
        }
        if next > i32::MAX as i64 {
            proof {
                assert(cs@.subrange(start as int, i + 1 as int) =~= whole.subrange(
                    0,
                    i + 1 - start as int,
                ));
                lemma_digits_val_prefix(whole, i + 1 - start as int);
            }
            return None;
        }
        acc = next as i32;
        i += 1;
    }
    proof {
        assert(cs@.subrange(start as int, n as int) =~= whole);
    }
    Some(acc)
}

/// Classify a request path.
pub fn get_route(path: &str) -> (r: Route)
    ensures
        r == spec_route(path@),
{
    let cs = chars_of(path);
    if cs.len() > 7 && has_prefix(&cs, "/posts/") {
        proof {
            reveal_strlit("/posts/");
        }
        if all_digits_from(&cs, 7) {
            return match parse_id(&cs, 7) {
                Some(id) => Route::Post(id),
                None => Route::NotFound,
            };
        }
    }
    if chars_eq(&cs, "/favicon.ico") {
        Route::Favicon
    } else if chars_eq(&cs, "/posts") || chars_eq(&cs, "/posts/") {
        Route::Posts
    } else if chars_eq(&cs, "/isAlive") || chars_eq(&cs, "/isReady") {
        Route::Okay
    } else {
        Route::NotFound
    }
}

/// How a store operation can fail, as the dispatcher distinguishes it.
#[derive(PartialEq, Eq, Structural, Clone, Copy, Debug)]
pub enum StoreError {
    /// No row with the requested identifier.
    NotFound,
    /// Any other query failure.
    QueryFailed,
}

/// Exactly what `posts_response` returns.
pub open spec fn spec_posts_response(result: Result<Vec<Post>, StoreError>, r: HttpResponse) -> bool {
    match result {
        Ok(items) => {
            &&& r.status == STATUS_OK
            &&& r.content_type == Some(ContentType::Json)
            &&& (r.body matches RespBody::Text(t) && t@ == spec_posts_json(items@))
        },
        Err(_) => spec_respond(Outcome::StoreFailure, r),
    }
}

/// The list handler's pure tail: turn the full-scan result into the
/// response the client is owed.
pub fn posts_response(result: Result<Vec<Post>, StoreError>) -> (r: HttpResponse)
    requires
        result matches Ok(items) ==> forall|i: int|
            0 <= i < items@.len() ==> (#[trigger] items@[i]).postdate.wf(),
    ensures
        spec_posts_response(result, r),
{
    match result {
        Ok(items) => respond(Outcome::Payload(encode_posts(&items))),
        Err(_) => respond(Outcome::StoreFailure),
    }
}

/// Exactly what `get_post_response` returns: the quirk that an absent
/// row surfaces as a 500 with a fixed message, not as a 404, is part of
/// the contract.
pub open spec fn spec_get_post_response(result: Result<Post, StoreError>, r: HttpResponse) -> bool {
    match result {
        Ok(p) => {
            &&& r.status == STATUS_OK
            &&& r.content_type == Some(ContentType::Json)
            &&& (r.body matches RespBody::Text(t) && t@ == spec_post_json(p))
        },
        Err(StoreError::NotFound) => spec_respond(Outcome::StoreNotFound, r),
        Err(StoreError::QueryFailed) => spec_respond(Outcome::StoreFailure, r),
    }
}

/// The point-lookup handler's pure tail.
pub fn get_post_response(result: Result<Post, StoreError>) -> (r: HttpResponse)
    requires
        result matches Ok(p) ==> p.postdate.wf(),
    ensures
        spec_get_post_response(result, r),
{
    match result {
        Ok(p) => respond(Outcome::Payload(encode_post(&p))),
        Err(StoreError::NotFound) => respond(Outcome::StoreNotFound),
        Err(StoreError::QueryFailed) => respond(Outcome::StoreFailure),
    }
}

/// Exactly what `add_post_response` returns: on the create path every
/// store failure collapses to the generic query failure.
pub open spec fn spec_add_post_response(result: Result<Post, StoreError>, r: HttpResponse) -> bool {
    match result {
        Ok(p) => {
            &&& r.status == STATUS_OK
            &&& r.content_type == Some(ContentType::Json)
            &&& (r.body matches RespBody::Text(t) && t@ == spec_post_json(p))
        },
        Err(_) => spec_respond(Outcome::StoreFailure, r),
    }
}

/// The create handler's pure tail: answer with the row as stored.
pub fn add_post_response(result: Result<Post, StoreError>) -> (r: HttpResponse)
    requires
        result matches Ok(p) ==> p.postdate.wf(),
    ensures
        spec_add_post_response(result, r),
{
    match result {
        Ok(p) => respond(Outcome::Payload(encode_post(&p))),
        Err(_) => respond(Outcome::StoreFailure),
    }
}

/// Reduce the rows a point lookup returned to one row or a not-found
/// error: the last row wins, an empty result is absence.
pub fn query(rows: Vec<Post>) -> (r: Result<Post, StoreError>)
    ensures
        rows@.len() > 0 ==> (r matches Ok(p) && p == rows@.last()),
        rows@.len() == 0 ==> (r matches Err(e) && e == StoreError::NotFound),
{
    let mut remaining = rows;
    match remaining.pop() {
        Some(p) => Ok(p),
        None => Err(StoreError::NotFound),
    }
}

} // verus!
