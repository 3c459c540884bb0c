use microservice::models::{Message, PersistenceFailure, TimeRange};
use microservice::response::{
    make_error_response, make_get_response, make_post_response, render_page, ContentType,
};
use microservice::service::{Action, Method, Microservice, Route, Step};

const EMPTY_PAGE: &str = "<head><title>microservice</title><style>body { font-family: monospace }</style></head><body><ul></ul></body>";

fn message(username: &str, text: &str, timestamp: i64) -> Message {
    Message { id: 1, username: username.to_string(), message: text.to_string(), timestamp }
}

#[test]
fn error_response_is_json_500() {
    let r = make_error_response("oops");
    assert_eq!(r.status, 500);
    assert_eq!(r.content_type, Some(ContentType::Json));
    assert_eq!(r.body, "{\"error\":\"oops\"}");
}

#[test]
fn error_response_escapes_text() {
    let r = make_error_response("say \"hi\"\n");
    assert_eq!(r.body, "{\"error\":\"say \\\"hi\\\"\\n\"}");
}

#[test]
fn post_response_carries_timestamp() {
    let r = make_post_response(Ok(1520000000));
    assert_eq!(r.status, 200);
    assert_eq!(r.content_type, Some(ContentType::Json));
    assert_eq!(r.body, "{\"timestamp\":1520000000}");
}

#[test]
fn post_response_hides_failure() {
    let r = make_post_response(Err(PersistenceFailure { diagnostic: "disk full".to_string() }));
    assert_eq!(r.status, 500);
    assert_eq!(r.body, "{\"error\":\"service error\"}");
}

#[test]
fn empty_page_has_empty_list() {
    assert_eq!(render_page(&vec![]), EMPTY_PAGE);
}

#[test]
fn page_lists_messages_escaped() {
    let page = render_page(&vec![message("bob", "a<b & \"c\">", 10), message("amy", "hi", -3)]);
    assert_eq!(
        page,
        "<head><title>microservice</title><style>body { font-family: monospace }</style></head><body><ul>\
         <li>bob (10): a&lt;b &amp; &quot;c&quot;&gt;</li><li>amy (-3): hi</li></ul></body>"
    );
}

#[test]
fn get_response_without_messages_is_bare_500() {
    let r = make_get_response(None);
    assert_eq!(r.status, 500);
    assert_eq!(r.content_type, None);
    assert!(r.body.is_empty());
}

#[test]
fn routes_root_by_method() {
    let s = Microservice;
    assert!(matches!(s.call(Method::Post, "/"), Action::Connect(Route::Submit)));
    assert!(matches!(s.call(Method::Get, "/"), Action::Connect(Route::List)));
    match s.call(Method::Other, "/") {
        Action::Respond(r) => assert_eq!(r.status, 404),
        Action::Connect(_) => panic!("routed an unknown method"),
    }
}

#[test]
fn unknown_path_is_bare_404() {
    match Microservice.call(Method::Get, "/nonexistent") {
        Action::Respond(r) => {
            assert_eq!(r.status, 404);
            assert_eq!(r.content_type, None);
            assert!(r.body.is_empty());
        }
        Action::Connect(_) => panic!("routed an unknown path"),
    }
}

#[test]
fn no_connection_is_bare_500() {
    match Microservice.after_connect(Route::Submit, false, b"message=hi", None) {
        Step::Respond(r) => {
            assert_eq!(r.status, 500);
            assert!(r.body.is_empty());
        }
        _ => panic!("went on without a connection"),
    }
}

#[test]
fn post_message_inserts_then_answers_timestamp() {
    match Microservice.after_connect(Route::Submit, true, b"message=hi", None) {
        Step::Insert(m) => {
            assert_eq!(m.message, "hi");
            assert_eq!(m.username, "anonymous");
        }
        _ => panic!("did not insert"),
    }
    let r = make_post_response(Ok(7));
    assert_eq!(r.status, 200);
    assert_eq!(r.body, "{\"timestamp\":7}");
}

#[test]
fn post_without_message_is_json_error() {
    match Microservice.after_connect(Route::Submit, true, b"username=bob", None) {
        Step::Respond(r) => {
            assert_eq!(r.status, 500);
            assert_eq!(r.content_type, Some(ContentType::Json));
            assert_eq!(r.body, "{\"error\":\"Missing field 'message\"}");
        }
        _ => panic!("accepted a post without a message"),
    }
}

#[test]
fn get_with_bad_before_is_json_error() {
    match Microservice.after_connect(Route::List, true, b"", Some("before=notanumber")) {
        Step::Respond(r) => {
            assert_eq!(r.status, 500);
            assert_eq!(r.content_type, Some(ContentType::Json));
            assert!(r.body.contains("before"));
            assert_eq!(
                r.body,
                "{\"error\":\"Error parsing 'before': invalid digit found in string\"}"
            );
        }
        _ => panic!("accepted a non-numeric bound"),
    }
}

#[test]
fn get_without_query_selects_all_and_lists_none() {
    match Microservice.after_connect(Route::List, true, b"", None) {
        Step::Select(t) => assert_eq!(t, TimeRange::unbounded()),
        _ => panic!("did not select"),
    }
    let r = make_get_response(Some(vec![]));
    assert_eq!(r.status, 200);
    assert_eq!(r.content_type, Some(ContentType::Html));
    assert_eq!(r.body, EMPTY_PAGE);
}

#[test]
fn get_with_range_selects_it() {
    match Microservice.after_connect(Route::List, true, b"", Some("after=15&before=25")) {
        Step::Select(t) => assert_eq!(t, TimeRange { before: Some(25), after: Some(15) }),
        _ => panic!("did not select"),
    }
}
