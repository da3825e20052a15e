//! The authentication gate: deciding whether a bearer token is valid
//! against a fetched key set.
//!
//! The cryptographic work is done by `alcoholic_jwt`; each call into it
//! sits behind one trusted item whose contract names what the call
//! returns, and the decision logic around those calls is verified.

use vstd::prelude::*;
use alcoholic_jwt::{token_kid, validate, Validation, JWK, JWKS};

verus! {

#[verifier::external_type_specification]
#[verifier::external_body]
pub struct ExJwks(JWKS);

#[verifier::external_type_specification]
#[verifier::external_body]
pub struct ExJwk(JWK);

/// The material of one verification key, abstractly: everything the
/// signature check depends on.
pub uninterp spec fn jwk_material(k: JWK) -> Seq<char>;

/// The contents of a key set: each key id to the material of the first
/// key bearing it. Keys without an id are invisible to lookup.
pub uninterp spec fn key_set_map(ks: JWKS) -> Map<Seq<char>, Seq<char>>;

/// What a byte sequence decodes to as a key set, if it decodes at all.
pub uninterp spec fn spec_parse_key_set(bytes: Seq<u8>) -> Option<Map<Seq<char>, Seq<char>>>;

/// The key id named in a token's header, when one can be extracted.
pub uninterp spec fn kid_of(token: Seq<char>) -> Option<Seq<char>>;

/// Whether a token carries a valid signature for the given key material,
/// an issuer claim equal to `issuer`, and a subject claim.
pub uninterp spec fn jwt_valid(token: Seq<char>, key: Seq<char>, issuer: Seq<char>) -> bool;

/// Relies on deserializing `alcoholic_jwt::JWKS` with
/// `serde_json::from_slice`: whether the bytes decode, and which keys the
/// decoded set holds, are functions of the bytes alone.
#[verifier::external_body]
fn parse_key_set(bytes: &Vec<u8>) -> (r: Option<JWKS>)
    ensures
        r is Some <==> spec_parse_key_set(bytes@) is Some,
        r matches Some(ks) ==> Some(key_set_map(ks)) == spec_parse_key_set(bytes@),
{
    serde_json::from_slice(bytes).ok()
}

/// Relies on `alcoholic_jwt::token_kid`: the `kid` header claim it
/// extracts is a function of the token text alone; an undecodable token
/// or an absent claim yields nothing.
#[verifier::external_body]
fn extract_kid(token: &str) -> (r: Option<String>)
    ensures
        r is Some <==> kid_of(token@) is Some,
        r matches Some(k) ==> Some(k@) == kid_of(token@),
{
    match token_kid(token) {
        Ok(Some(kid)) => Some(kid),
        Ok(None) => None,
        Err(_) => None,
    }
}

/// Relies on `alcoholic_jwt::JWKS::find`: it returns the first key whose
/// id matches, and nothing exactly when no key in the set carries the id.
#[verifier::external_body]
fn find_key<'a>(keys: &'a JWKS, kid: &str) -> (r: Option<&'a JWK>)
    ensures
        r is Some <==> key_set_map(*keys).dom().contains(kid@),
        r matches Some(k) ==> jwk_material(*k) == key_set_map(*keys)[kid@],
{
    keys.find(kid)
}

/// Relies on `alcoholic_jwt::validate`, run with the issuer-equality and
/// subject-presence validations: its verdict is a function of the token
/// text, the key material and the expected issuer alone.
#[verifier::external_body]
fn check_token(token: &str, key: &JWK, issuer: &str) -> (r: bool)
    ensures
        r == jwt_valid(token@, jwk_material(*key), issuer@),
{
    let validations = vec![Validation::Issuer(issuer.to_string()), Validation::SubjectPresent];
    validate(token, key, validations).is_ok()
}

/// How authentication infrastructure can fail, as distinct from a token
/// merely being judged invalid.
#[derive(PartialEq, Eq, Structural, Clone, Copy, Debug)]
pub enum AuthError {
    /// The key set could not be fetched or its body did not decode.
    UpstreamUnavailable,
    /// No key identifier could be extracted from the token.
    MalformedToken,
    /// The key set holds no key with the token's key identifier.
    KeyNotFound,
}

/// The well-known discovery path, appended to the configured authority.
pub fn jwks_url(authority: &str) -> (r: String)
    ensures
        r@ == authority@ + ".well-known/jwks.json"@,
{
    String::from_str(authority).concat(".well-known/jwks.json")
}

/// Turn the outcome of the key-set fetch — the response bytes, or nothing
/// when the network call failed — into a usable key set, or the error
/// that fails this authentication attempt.
pub fn decode_key_set(fetched: &Option<Vec<u8>>) -> (r: Result<JWKS, AuthError>)
    ensures
        fetched is None ==> (r matches Err(e) && e == AuthError::UpstreamUnavailable),
        fetched matches Some(b) ==> match spec_parse_key_set(b@) {
            None => r matches Err(e) && e == AuthError::UpstreamUnavailable,
            Some(m) => r matches Ok(ks) && key_set_map(ks) == m,
        },
{
    match fetched {
        None => Err(AuthError::UpstreamUnavailable),
        Some(bytes) => match parse_key_set(bytes) {
            None => Err(AuthError::UpstreamUnavailable),
            Some(ks) => Ok(ks),
        },
    }
}

/// Exactly what `validate_token` returns: a malformed token and an
/// unknown key id are hard failures; otherwise the verdict is the
/// cryptographic judgement on the token under the matching key.
pub open spec fn spec_validate_token(
    token: Seq<char>,
    keys: Map<Seq<char>, Seq<char>>,
    issuer: Seq<char>,
    r: Result<bool, AuthError>,
) -> bool {
    match kid_of(token) {
        None => r == Result::<bool, AuthError>::Err(AuthError::MalformedToken),
        Some(kid) => if !keys.dom().contains(kid) {
            r == Result::<bool, AuthError>::Err(AuthError::KeyNotFound)
        } else {
            r == Result::<bool, AuthError>::Ok(jwt_valid(token, keys[kid], issuer))
        },
    }
}

/// Judge a bearer token against a key set: find the key the token names,
/// then check signature, issuer claim and subject presence.
pub fn validate_token(token: &str, keys: &JWKS, issuer: &str) -> (r: Result<bool, AuthError>)
    ensures
        spec_validate_token(token@, key_set_map(*keys), issuer@, r),
{
    match extract_kid(token) {
        None => Err(AuthError::MalformedToken),
        Some(kid) => match find_key(keys, kid.as_str()) {
            None => Err(AuthError::KeyNotFound),
            Some(key) => Ok(check_token(token, key, issuer)),
        },
    }
}

} // verus!
