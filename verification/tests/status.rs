use predict_agent::cmd::status;
use predict_agent::json;

#[test]
fn chips_are_rounded_where_they_are_a_number() {
    assert_eq!(status::format_chips("12.345", Some("12.35".to_string())), "12.35");
    assert_eq!(status::format_chips("many", None), "many");
}

#[test]
fn the_state_of_the_agent() {
    let answer = || Ok(json::parse("{\"data\":{\"valid_submissions_today\":4,\"balance\":\"99.999\",\"persona\":\"p\"}}").unwrap());
    assert_eq!(status::STATUS_PATH, "/api/v1/agents/me/status");
    assert_eq!(status::raw_balance(&answer()), "99.999");
    let o = status::run(answer(), Some("100.00".to_string()));
    assert!(o.ok);
    assert_eq!(o.user_message, "Agent status: 4 submissions today, 100.00 chips balance, persona: p.");
    assert_eq!(o.data.unwrap().str_at("balance"), Some("99.999"));
    assert_eq!(o._internal.next_action, "fetch_context");
}

#[test]
fn a_state_with_nothing_in_it() {
    let answer = || Ok(json::parse("{}").unwrap());
    assert_eq!(status::raw_balance(&answer()), "0");
    let o = status::run(answer(), Some("0.00".to_string()));
    assert_eq!(o.user_message, "Agent status: 0 submissions today, 0.00 chips balance, persona: none.");
}

#[test]
fn a_state_that_cannot_be_fetched() {
    let o = status::run(Err("boom".to_string()), None);
    assert!(!o.ok);
    assert_eq!(o.user_message, "Failed to fetch status: boom");
    let e = o.error.unwrap();
    assert_eq!((e.code.as_str(), e.category.as_str(), e.retryable), ("STATUS_FAILED", "network", true));
    assert_eq!(e.suggestion, "Check coordinator connectivity.");
    assert_eq!(o._internal.next_action, "retry");
    assert_eq!(o._internal.next_command.as_deref(), Some("predict-agent status"));
    assert_eq!(status::raw_balance(&Err("boom".to_string())), "0");
}
