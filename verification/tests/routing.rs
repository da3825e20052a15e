use blog_api::dispatch::{route, Step, StoreQuery};
use blog_api::http::{ContentType, HttpResponse, Method, RespBody};
use blog_api::routes::{get_route, Route};

fn body_text(r: &HttpResponse) -> Option<&str> {
    match &r.body {
        RespBody::Text(s) => Some(s.as_str()),
        _ => None,
    }
}

fn body_is_empty(r: &HttpResponse) -> bool {
    matches!(r.body, RespBody::Empty)
}

#[test]
fn numeric_post_path_resolves() {
    assert_eq!(get_route("/posts/5"), Route::Post(5));
    assert_eq!(get_route("/posts/0"), Route::Post(0));
    assert_eq!(get_route("/posts/0012"), Route::Post(12));
    assert_eq!(get_route("/posts/2147483647"), Route::Post(2147483647));
}

#[test]
fn oversized_identifier_resolves_to_not_found() {
    assert_eq!(get_route("/posts/2147483648"), Route::NotFound);
    assert_eq!(get_route("/posts/99999999999999999999"), Route::NotFound);
}

#[test]
fn non_digit_segment_resolves_to_not_found() {
    assert_eq!(get_route("/posts/abc"), Route::NotFound);
    assert_eq!(get_route("/posts/12x"), Route::NotFound);
    assert_eq!(get_route("/posts/-1"), Route::NotFound);
    assert_eq!(get_route("/posts/1/2"), Route::NotFound);
    assert_eq!(get_route("/posts/ 1"), Route::NotFound);
}

#[test]
fn literal_paths_resolve() {
    assert_eq!(get_route("/posts"), Route::Posts);
    assert_eq!(get_route("/posts/"), Route::Posts);
    assert_eq!(get_route("/isAlive"), Route::Okay);
    assert_eq!(get_route("/isReady"), Route::Okay);
    assert_eq!(get_route("/favicon.ico"), Route::Favicon);
    assert_eq!(get_route("/"), Route::NotFound);
    assert_eq!(get_route("/nope"), Route::NotFound);
    assert_eq!(get_route("/Posts"), Route::NotFound);
}

#[test]
fn get_posts_loads_all() {
    match route(&Method::Get, "/posts", None, "https://issuer/") {
        Step::Load(StoreQuery::All) => {},
        _ => panic!("expected a full-scan load"),
    }
}

#[test]
fn get_post_by_id_loads_point_lookup() {
    match route(&Method::Get, "/posts/7", None, "https://issuer/") {
        Step::Load(StoreQuery::ById(7)) => {},
        _ => panic!("expected a point lookup of 7"),
    }
}

#[test]
fn non_digit_segment_is_not_found_for_every_method() {
    for m in [Method::Get, Method::Post, Method::Other] {
        match route(&m, "/posts/abc", None, "https://issuer/") {
            Step::Done(resp) => {
                assert_eq!(resp.status, 404);
                assert!(body_is_empty(&resp));
            },
            _ => panic!("expected an immediate 404"),
        }
    }
}

#[test]
fn post_to_point_lookup_path_is_not_found() {
    match route(&Method::Post, "/posts/7", None, "https://issuer/") {
        Step::Done(resp) => assert_eq!(resp.status, 404),
        _ => panic!("expected an immediate 404"),
    }
}

#[test]
fn create_without_header_is_unauthorized_and_never_reaches_store() {
    match route(&Method::Post, "/posts", None, "https://issuer/") {
        Step::Done(resp) => {
            assert_eq!(resp.status, 401);
            assert!(body_is_empty(&resp));
        },
        Step::Load(_) => panic!("the store must not be consulted"),
        Step::Authenticate { .. } => panic!("the validator must not be consulted"),
    }
}

#[test]
fn create_with_wrong_scheme_is_malformed() {
    let header = b"Basic dXNlcjpwdw==".to_vec();
    match route(&Method::Post, "/posts", Some(&header), "https://issuer/") {
        Step::Done(resp) => {
            assert_eq!(resp.status, 500);
            assert_eq!(body_text(&resp), Some("Malformed header, unable to decode"));
        },
        _ => panic!("expected an immediate 500"),
    }
}

#[test]
fn create_with_undecodable_header_is_malformed() {
    let header = vec![0x42u8, 0x65, 0x61, 0x72, 0x65, 0x72, 0x20, 0xff, 0x01];
    match route(&Method::Post, "/posts", Some(&header), "https://issuer/") {
        Step::Done(resp) => {
            assert_eq!(resp.status, 500);
            assert_eq!(body_text(&resp), Some("Malformed header, unable to decode"));
        },
        _ => panic!("expected an immediate 500"),
    }
}

#[test]
fn create_with_bearer_header_asks_for_keys() {
    let header = b"Bearer tok.en.123".to_vec();
    match route(&Method::Post, "/posts", Some(&header), "https://issuer/") {
        Step::Authenticate { token, keys_url } => {
            assert_eq!(token, "tok.en.123");
            assert_eq!(keys_url, "https://issuer/.well-known/jwks.json");
        },
        _ => panic!("expected the authentication step"),
    }
}

#[test]
fn bearer_prefix_alone_yields_an_empty_token() {
    let header = b"Bearer ".to_vec();
    match route(&Method::Post, "/posts", Some(&header), "https://issuer/") {
        Step::Authenticate { token, .. } => assert_eq!(token, ""),
        _ => panic!("expected the authentication step"),
    }
}

#[test]
fn unhandled_methods_are_not_found() {
    match route(&Method::Other, "/posts", None, "https://issuer/") {
        Step::Done(resp) => {
            assert_eq!(resp.status, 404);
            assert!(body_is_empty(&resp));
        },
        _ => panic!("expected an immediate 404"),
    }
}

#[test]
fn trailing_slash_create_is_gated_too() {
    match route(&Method::Post, "/posts/", None, "https://issuer/") {
        Step::Done(resp) => assert_eq!(resp.status, 401),
        _ => panic!("expected an immediate 401"),
    }
}

#[test]
fn probes_answer_200_without_collaborators() {
    for path in ["/isAlive", "/isReady"] {
        let header = b"Bearer irrelevant".to_vec();
        match route(&Method::Get, path, Some(&header), "https://issuer/") {
            Step::Done(resp) => {
                assert_eq!(resp.status, 200);
                assert!(body_is_empty(&resp));
            },
            Step::Load(_) => panic!("the store must not be consulted"),
            Step::Authenticate { .. } => panic!("the validator must not be consulted"),
        }
    }
}

#[test]
fn probes_only_answer_get() {
    match route(&Method::Post, "/isAlive", None, "https://issuer/") {
        Step::Done(resp) => assert_eq!(resp.status, 404),
        _ => panic!("expected an immediate 404"),
    }
}

#[test]
fn favicon_is_png_with_nonempty_body() {
    match route(&Method::Get, "/favicon.ico", None, "https://issuer/") {
        Step::Done(resp) => {
            assert_eq!(resp.status, 200);
            assert_eq!(resp.content_type, Some(ContentType::Png));
            match resp.body {
                RespBody::Bytes(b) => assert!(!b.is_empty()),
                _ => panic!("expected the icon bytes"),
            }
        },
        _ => panic!("expected an immediate response"),
    }
}
