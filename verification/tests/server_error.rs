use predict_agent::client;
use predict_agent::cmd::server_error;

#[test]
fn the_answer_starts_at_the_first_brace() {
    assert_eq!(server_error::tail_from_brace("HTTP ä: {\"a\":{}}"), Some("{\"a\":{}}"));
    assert_eq!(server_error::tail_from_brace("none"), None);
    assert!(server_error::answer("x {\"a\":1}").is_some());
    assert!(server_error::answer("x {\"a\":1} y").is_none());
    assert!(server_error::answer("x").is_none());
}

#[test]
fn an_answer_that_is_quoted_is_found_again() {
    let err = client::parse_response(409, "409 Conflict", b"{\"error\":{\"message\":\"closed\"}}").unwrap_err().detail;
    let v = server_error::answer(&err).unwrap();
    assert_eq!(server_error::message(&v), Some("closed"));
}

#[test]
fn messages_in_answers() {
    let v = predict_agent::json::parse("{\"error\":{\"message\":5}}").unwrap();
    assert_eq!(server_error::message(&v), None);
    let v = predict_agent::json::parse("{\"message\":\"m\"}").unwrap();
    assert_eq!(server_error::message(&v), None);
}

#[test]
fn first_characters() {
    assert_eq!(server_error::first_chars("äöü", 2), "äö");
    assert_eq!(server_error::first_chars("äöü", 3), "äöü");
    assert_eq!(server_error::first_chars("", 3), "");
}
