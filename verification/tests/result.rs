use predict_agent::cmd::result;
use predict_agent::cmd::result::Query;
use predict_agent::json;
use predict_agent::json::Json;

fn value(s: &str) -> Json {
    json::parse(s).unwrap()
}

fn resolved() -> Json {
    value("{\"status\":\"resolved\",\"outcome\":\"up\",\"open_price\":\"1\",\"resolve_price\":\"2\"}")
}

#[test]
fn paths_of_markets() {
    assert_eq!(result::market_path("m-1"), "/api/v1/markets/m-1");
}

#[test]
fn markets_that_are_not_there() {
    match result::run("m", Err("HTTP 404".to_string())) {
        Query::Print(o) => {
            assert!(!o.ok);
            assert_eq!(o.user_message, "Market m not found: HTTP 404");
            let e = o.error.unwrap();
            assert_eq!((e.code.as_str(), e.category.as_str(), e.retryable), ("MARKET_NOT_FOUND", "validation", false));
            assert_eq!(e.suggestion, "Check market ID. Use: predict-agent history");
            assert_eq!(o._internal.next_command.as_deref(), Some("predict-agent context"));
        }
        q => panic!("{:?}", q),
    }
}

#[test]
fn markets_that_are_still_open() {
    match result::run("m", Ok(value("{\"data\":{\"status\":\"open\",\"close_at\":\"noon\"}}"))) {
        Query::Print(o) => {
            assert!(o.ok);
            assert_eq!(o.user_message, "Market m is still open. Check back after it resolves (closes at noon).");
            assert_eq!(
                o.data.unwrap().to_text(),
                "{\"close_at\":\"noon\",\"market_id\":\"m\",\"outcome\":null,\"status\":\"open\"}"
            );
            assert_eq!(o._internal.next_action, "wait");
            assert_eq!(o._internal.wait_seconds, Some(60));
            assert_eq!(o._internal.next_command.as_deref(), Some("predict-agent result --market m"));
        }
        q => panic!("{:?}", q),
    }
    match result::run("m", Ok(Json::Null)) {
        Query::Print(o) => {
            assert_eq!(o.user_message, "Market m is still . Check back after it resolves (closes at ?).")
        }
        q => panic!("{:?}", q),
    }
}

#[test]
fn resolved_markets_ask_for_the_predictions() {
    let answer = Json::object().with("data", resolved());
    match result::run("m", Ok(answer)) {
        Query::Predictions { path, market } => {
            assert_eq!(path, "/api/v1/predictions/me?limit=500");
            assert_eq!(market, resolved());
        }
        q => panic!("{:?}", q),
    }
}

#[test]
fn correct_predictions() {
    let answer = value("{\"data\":[{\"market_id\":\"x\"},{\"market_id\":\"m\",\"direction\":\"up\",\"payout_chips\":\"9\",\"tickets_filled\":4},{\"market_id\":\"m\",\"direction\":\"down\"}]}");
    let o = result::finish("m", &resolved(), Ok(answer));
    assert!(o.ok);
    assert_eq!(
        o.user_message,
        "Market m resolved UP. You predicted UP — CORRECT! Payout: 9 chips (4 tickets filled)."
    );
    assert_eq!(
        o.data.unwrap().to_text(),
        "{\"correct\":true,\"market_id\":\"m\",\"open_price\":\"1\",\"outcome\":\"up\",\"payout_received\":\"9\",\"resolve_price\":\"2\",\"tickets_filled\":4,\"your_prediction\":\"up\"}"
    );
    assert_eq!(o._internal.next_action, "fetch_context");
}

#[test]
fn wrong_predictions() {
    let o = result::report("m", &resolved(), Some(&value("{\"direction\":\"down\"}")));
    assert_eq!(o.user_message, "Market m resolved UP. You predicted DOWN — WRONG. No payout (0 tickets filled).");
    assert!(!o.data.unwrap().flag("correct"));
}

#[test]
fn markets_without_a_prediction() {
    for answer in [
        Err("x".to_string()),
        Ok(value("{}")),
        Ok(value("{\"data\":[]}")),
        Ok(value("{\"data\":[{\"market_id\":\"x\"}]}")),
    ] {
        let o = result::finish("m", &resolved(), answer);
        assert!(o.ok);
        assert_eq!(o.user_message, "Market m resolved UP. You did not submit a prediction for this market.");
        assert_eq!(
            o.data.unwrap().to_text(),
            "{\"correct\":null,\"market_id\":\"m\",\"open_price\":\"1\",\"outcome\":\"up\",\"resolve_price\":\"2\",\"your_prediction\":null}"
        );
    }
}
