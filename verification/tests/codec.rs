use blog_api::dispatch::{handle_create_body, CreateStep};
use blog_api::http::{ContentType, HttpResponse, Outcome, RespBody, respond};
use blog_api::json::{encode_post, encode_posts, parse_input_post};
use blog_api::models::{deserialize, serialize, DateTime, InputPost, Post};
use blog_api::routes::{
    add_post_response, get_post_response, posts_response, query, StoreError,
};

fn sample_date() -> DateTime {
    DateTime { year: 2020, month: 1, day: 2, hour: 3, minute: 4, second: 5 }
}

fn sample_post(id: i32) -> Post {
    Post {
        id,
        title: "t".to_string(),
        category: "c".to_string(),
        content: "x".to_string(),
        postdate: sample_date(),
        hidden: false,
    }
}

fn body_text(r: &HttpResponse) -> Option<&str> {
    match &r.body {
        RespBody::Text(s) => Some(s.as_str()),
        _ => None,
    }
}

#[test]
fn encodes_one_post_exactly() {
    let json = encode_post(&sample_post(1));
    assert_eq!(
        json,
        "{\"id\":1,\"title\":\"t\",\"category\":\"c\",\"content\":\"x\",\
         \"postdate\":\"2020-01-02 03:04:05\",\"hidden\":false}"
    );
}

#[test]
fn encodes_negative_id_and_hidden_flag() {
    let mut p = sample_post(-5);
    p.hidden = true;
    let json = encode_post(&p);
    assert!(json.starts_with("{\"id\":-5,"));
    assert!(json.ends_with("\"hidden\":true}"));
}

#[test]
fn escapes_string_fields() {
    let mut p = sample_post(2);
    p.title = "a\"b\\c\nd\u{1}e/æ".to_string();
    let json = encode_post(&p);
    assert!(json.contains("\"title\":\"a\\\"b\\\\c\\nd\\u0001e/æ\""));
}

#[test]
fn encodes_lists() {
    let empty: Vec<Post> = Vec::new();
    assert_eq!(encode_posts(&empty), "[]");
    let two = vec![sample_post(1), sample_post(2)];
    let json = encode_posts(&two);
    assert!(json.starts_with("[{\"id\":1,"));
    assert!(json.contains("},{\"id\":2,"));
    assert!(json.ends_with("}]"));
}

#[test]
fn formats_and_parses_timestamps() {
    let d = DateTime { year: 1999, month: 12, day: 31, hour: 23, minute: 59, second: 59 };
    let s = serialize(&d);
    assert_eq!(s, "1999-12-31 23:59:59");
    assert_eq!(deserialize(&s), Some(d));
    assert_eq!(deserialize("2020-01-02 03:04:05"), Some(sample_date()));
    assert_eq!(deserialize("2020-13-01 00:00:00"), None);
    assert_eq!(deserialize("2020-00-01 00:00:00"), None);
    assert_eq!(deserialize("2020-01-02T03:04:05"), None);
    assert_eq!(deserialize("garbage"), None);
    assert_eq!(deserialize(""), None);
}

#[test]
fn parses_a_creation_request() {
    let p = parse_input_post("{\"title\":\"t\",\"category\":\"c\",\"content\":\"x\",\"hidden\":false}")
        .expect("expected the body to parse");
    assert_eq!(p.title, "t");
    assert_eq!(p.category, "c");
    assert_eq!(p.content, "x");
    assert!(!p.hidden);
}

#[test]
fn parses_any_field_order_and_whitespace() {
    let body = " {\n\t\"hidden\" : true ,\r\n \"content\" : \"body text\" , \
                \"title\" : \"T\" , \"category\" : \"k\" } ";
    let p = parse_input_post(body).expect("expected the body to parse");
    assert_eq!(p.title, "T");
    assert_eq!(p.category, "k");
    assert_eq!(p.content, "body text");
    assert!(p.hidden);
}

#[test]
fn decodes_string_escapes() {
    let body = "{\"title\":\"a\\u0041\\n\\\"\\\\/\\u00e6\",\"category\":\"c\",\
                \"content\":\"x\",\"hidden\":true}";
    let p = parse_input_post(body).expect("expected the body to parse");
    assert_eq!(p.title, "aA\n\"\\/æ");
}

#[test]
fn rejects_bad_creation_requests() {
    // Missing field.
    assert!(parse_input_post("{\"title\":\"t\",\"category\":\"c\",\"content\":\"x\"}").is_none());
    // Repeated field.
    assert!(parse_input_post(
        "{\"title\":\"t\",\"title\":\"u\",\"category\":\"c\",\"content\":\"x\",\"hidden\":false}"
    )
    .is_none());
    // Unknown field.
    assert!(parse_input_post(
        "{\"title\":\"t\",\"category\":\"c\",\"content\":\"x\",\"hidden\":false,\"id\":1}"
    )
    .is_none());
    // Wrong value type.
    assert!(parse_input_post(
        "{\"title\":1,\"category\":\"c\",\"content\":\"x\",\"hidden\":false}"
    )
    .is_none());
    // Trailing content.
    assert!(parse_input_post(
        "{\"title\":\"t\",\"category\":\"c\",\"content\":\"x\",\"hidden\":false} junk"
    )
    .is_none());
    // Raw control character inside a string.
    assert!(parse_input_post(
        "{\"title\":\"a\u{1}\",\"category\":\"c\",\"content\":\"x\",\"hidden\":false}"
    )
    .is_none());
    // Lone surrogate escape.
    assert!(parse_input_post(
        "{\"title\":\"\\ud800\",\"category\":\"c\",\"content\":\"x\",\"hidden\":false}"
    )
    .is_none());
    // Not an object at all.
    assert!(parse_input_post("").is_none());
    assert!(parse_input_post("{}").is_none());
    assert!(parse_input_post("[1]").is_none());
}

#[test]
fn create_body_step_inserts_or_reports() {
    match handle_create_body("{\"title\":\"t\",\"category\":\"c\",\"content\":\"x\",\"hidden\":false}") {
        CreateStep::Insert(p) => assert_eq!(p.title, "t"),
        _ => panic!("expected an insert"),
    }
    match handle_create_body("{nope") {
        CreateStep::Done(resp) => {
            assert_eq!(resp.status, 500);
            assert_eq!(body_text(&resp), Some("Could not parse JSON, invalid post object"));
        },
        _ => panic!("expected a parse-failure response"),
    }
}

#[test]
fn query_picks_last_row_or_reports_absence() {
    match query(Vec::new()) {
        Err(StoreError::NotFound) => {},
        _ => panic!("expected absence"),
    }
    match query(vec![sample_post(1), sample_post(2)]) {
        Ok(p) => assert_eq!(p.id, 2),
        _ => panic!("expected the last row"),
    }
}

#[test]
fn store_results_map_to_responses() {
    let r = get_post_response(Ok(sample_post(9)));
    assert_eq!(r.status, 200);
    assert_eq!(r.content_type, Some(ContentType::Json));
    assert!(body_text(&r).unwrap().starts_with("{\"id\":9,"));

    let r = get_post_response(Err(StoreError::NotFound));
    assert_eq!(r.status, 500);
    assert_eq!(body_text(&r), Some("Database item not found"));

    let r = get_post_response(Err(StoreError::QueryFailed));
    assert_eq!(r.status, 500);
    assert_eq!(body_text(&r), Some("Database query failed"));

    let r = posts_response(Ok(vec![sample_post(1)]));
    assert_eq!(r.status, 200);
    assert_eq!(r.content_type, Some(ContentType::Json));

    let r = posts_response(Err(StoreError::QueryFailed));
    assert_eq!(r.status, 500);
    assert_eq!(body_text(&r), Some("Database query failed"));

    // On the create path even an absent row collapses to the generic failure.
    let r = add_post_response(Err(StoreError::NotFound));
    assert_eq!(r.status, 500);
    assert_eq!(body_text(&r), Some("Database query failed"));
}

#[test]
fn response_mapper_covers_the_taxonomy() {
    let r = respond(Outcome::Payload("[]".to_string()));
    assert_eq!(r.status, 200);
    assert_eq!(r.content_type, Some(ContentType::Json));
    assert_eq!(body_text(&r), Some("[]"));

    let r = respond(Outcome::MissingAuth);
    assert_eq!(r.status, 401);
    assert!(matches!(r.body, RespBody::Empty));

    let r = respond(Outcome::InvalidToken);
    assert_eq!(r.status, 401);
    assert!(matches!(r.body, RespBody::Empty));

    let r = respond(Outcome::MalformedHeader);
    assert_eq!(r.status, 500);
    assert_eq!(body_text(&r), Some("Malformed header, unable to decode"));

    let r = respond(Outcome::AuthFailure);
    assert_eq!(r.status, 500);
    assert_eq!(body_text(&r), Some("JWT token validation error"));

    let r = respond(Outcome::StoreNotFound);
    assert_eq!(r.status, 500);
    assert_eq!(body_text(&r), Some("Database item not found"));

    let r = respond(Outcome::StoreFailure);
    assert_eq!(r.status, 500);
    assert_eq!(body_text(&r), Some("Database query failed"));

    let r = respond(Outcome::SerializationFailure);
    assert_eq!(r.status, 500);
    assert_eq!(body_text(&r), Some("Could not serialize JSON"));

    let r = respond(Outcome::ParseFailure("detail".to_string()));
    assert_eq!(r.status, 500);
    assert_eq!(body_text(&r), Some("Could not parse JSON, detail"));

    let r = respond(Outcome::NoRoute);
    assert_eq!(r.status, 404);
    assert!(matches!(r.body, RespBody::Empty));
}

#[test]
fn create_then_get_round_trip() {
    // The client's body parses into the row to insert.
    let input: InputPost = match handle_create_body(
        "{\"title\":\"t\",\"category\":\"c\",\"content\":\"x\",\"hidden\":false}",
    ) {
        CreateStep::Insert(p) => p,
        _ => panic!("expected an insert"),
    };

    // The store assigns identifier and timestamp to the inserted row.
    let stored = Post {
        id: 42,
        title: input.title.clone(),
        category: input.category.clone(),
        content: input.content.clone(),
        postdate: sample_date(),
        hidden: input.hidden,
    };
    let stored_again = Post {
        id: 42,
        title: input.title,
        category: input.category,
        content: input.content,
        postdate: sample_date(),
        hidden: input.hidden,
    };

    let created = add_post_response(Ok(stored));
    let fetched = get_post_response(Ok(stored_again));
    assert_eq!(created.status, 200);
    assert_eq!(fetched.status, 200);
    assert_eq!(body_text(&created), body_text(&fetched));
    assert!(body_text(&created).unwrap().starts_with("{\"id\":42,"));
}
