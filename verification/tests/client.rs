use predict_agent::auth;
use predict_agent::client;
use predict_agent::client::ApiClient;
use predict_agent::failure::Failure;
use predict_agent::json;
use predict_agent::json::Json;

fn client_at(url: &str) -> ApiClient {
    ApiClient::new(url.to_string(), Ok("0xab".to_string())).unwrap()
}

fn plain<T>(detail: &str) -> Result<T, Failure> {
    Err(Failure { detail: detail.to_string(), chain: detail.to_string() })
}

fn caused<T>(detail: &str, cause: &str) -> Result<T, Failure> {
    Err(Failure { detail: detail.to_string(), chain: format!("{}: {}", detail, cause) })
}

#[test]
fn a_client_needs_an_address() {
    let c = client_at("https://x");
    assert_eq!(c.base_url, "https://x");
    assert_eq!(c.address, "0xab");
    assert_eq!(
        ApiClient::new("https://x".to_string(), caused("why", "cause")),
        caused(
            "Could not determine wallet address. Set AWP_ADDRESS, AWP_PRIVATE_KEY, or configure awp-wallet.",
            "why: cause"
        )
    );
}

#[test]
fn requests_that_fetch() {
    let r = client_at("https://x").get("/p");
    assert_eq!(r.url, "https://x/p");
    assert!(r.headers.is_empty());
    assert_eq!(r.body, None);
}

#[test]
fn requests_that_are_signed() {
    let auth = auth::wallet_headers("0xab", "t".to_string(), "s".to_string());
    let want = vec![
        ("X-AWP-Address".to_string(), "0xab".to_string()),
        ("X-AWP-Timestamp".to_string(), "t".to_string()),
        ("X-AWP-Signature".to_string(), "s".to_string()),
    ];
    let c = client_at("https://x");
    let r = c.get_auth("/p", &auth);
    assert_eq!((r.url.as_str(), &r.headers, &r.body), ("https://x/p", &want, &None));
    let r = c.post_auth("/q", &auth, Json::unsigned(1));
    assert_eq!((r.url.as_str(), &r.headers, &r.body), ("https://x/q", &want, &Some(Json::unsigned(1))));
}

#[test]
fn answers_count_with_two_statuses() {
    for status in [200u16, 201] {
        assert_eq!(client::parse_response(status, "x", b"[1]"), Ok(Json::Array(vec![Json::unsigned(1)])));
    }
    assert_eq!(
        client::parse_response(202, "202 Accepted", b"[ 1 ]"),
        plain("HTTP 202 Accepted: [1]")
    );
    assert_eq!(
        client::parse_response(409, "409 Conflict", b"{ \"error\" : {\"message\": \"no\"} }"),
        plain("HTTP 409 Conflict: {\"error\":{\"message\":\"no\"}}")
    );
}

#[test]
fn answers_have_to_be_json() {
    assert_eq!(
        client::parse_response(200, "200 OK", b"<html>"),
        caused(
            "Response was not valid JSON",
            "error decoding response body: expected value at line 1 column 1"
        )
    );
    assert_eq!(
        client::parse_response(502, "502 Bad Gateway", b""),
        caused(
            "Response was not valid JSON",
            "error decoding response body: EOF while parsing a value at line 1 column 0"
        )
    );
}

#[test]
fn judged_answers() {
    let v = json::parse("{}").unwrap();
    assert_eq!(client::judge(201, "201 Created", v, "ignored"), Ok(Json::object()));
    assert_eq!(client::judge(500, "500 Oops", Json::Null, "null"), plain("HTTP 500 Oops: null"));
}

#[test]
fn health_of_the_coordinator() {
    assert_eq!(client::check_server_url("https://x"), "https://x/api/v1/feed/stats");
    assert_eq!(client::check_server(204, "204 No Content"), Ok(()));
    assert_eq!(client::check_server(299, "299"), Ok(()));
    assert_eq!(
        client::check_server(300, "300 Multiple Choices"),
        plain("Coordinator returned HTTP 300 Multiple Choices")
    );
    assert_eq!(client::check_server(199, "199"), plain("Coordinator returned HTTP 199"));
}
