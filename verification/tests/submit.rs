use predict_agent::cmd::step::Step;
use predict_agent::cmd::submit;
use predict_agent::cmd::submit::{LimitPrice, ServerError, SubmitArgs};
use predict_agent::json;
use predict_agent::json::{Json, JsonNumber};
use predict_agent::output::Output;

fn args() -> SubmitArgs {
    SubmitArgs {
        market: "m".to_string(),
        prediction: "up".to_string(),
        tickets: 5,
        reasoning: "because".to_string(),
        limit_price: None,
        dry_run: false,
    }
}

fn price(x: f64) -> Option<LimitPrice> {
    Some(LimitPrice { bits: x.to_bits(), decimal: format!("{}", x) })
}

fn printed(s: Step) -> Output {
    match s {
        Step::Print(o) => o,
        s => panic!("{:?}", s),
    }
}

fn code(o: &Output) -> &str {
    o.error.as_ref().unwrap().code.as_str()
}

#[test]
fn the_limits_are_the_doubles_that_they_name() {
    assert_eq!(submit::LOWEST_PRICE, 0.01f64.to_bits());
    assert_eq!(submit::HIGHEST_PRICE, 0.99f64.to_bits());
}

#[test]
fn unknown_directions_are_refused() {
    for p in ["UP", "", "sideways", "up "] {
        let o = printed(submit::run(&SubmitArgs { prediction: p.to_string(), tickets: 0, ..args() }));
        assert!(!o.ok);
        assert_eq!(code(&o), "INVALID_DIRECTION");
        assert_eq!(o.user_message, "Prediction must be 'up' or 'down'.");
        let e = o.error.unwrap();
        assert_eq!((e.category.as_str(), e.retryable), ("validation", false));
        assert_eq!(e.suggestion, "Use --prediction up or --prediction down.");
        assert_eq!(o._internal.next_action, "fix_command");
        assert_eq!(o._internal.next_command, None);
    }
}

#[test]
fn no_tickets_are_refused() {
    let o = printed(submit::run(&SubmitArgs { tickets: 0, limit_price: price(2.0), ..args() }));
    assert_eq!(code(&o), "INVALID_TICKETS");
    assert_eq!(o.user_message, "Tickets must be greater than 0.");
    assert_eq!(o.error.unwrap().suggestion, "Use --tickets N where N >= 1.");
}

#[test]
fn limit_prices_out_of_range_are_refused() {
    for x in [0.0, 0.009, 0.991, 1.5, -0.5, f64::NAN, f64::INFINITY] {
        let o = printed(submit::run(&SubmitArgs { limit_price: price(x), ..args() }));
        assert_eq!(code(&o), "INVALID_LIMIT_PRICE");
        assert_eq!(o.user_message, format!("limit-price must be between 0.01 and 0.99, got {}", x));
        assert_eq!(o.error.unwrap().suggestion, "Use --limit-price 0.01 to 0.99.");
    }
    for x in [0.01, 0.5, 0.99] {
        assert!(matches!(submit::run(&SubmitArgs { limit_price: price(x), ..args() }), Step::Post { .. }));
    }
}

#[test]
fn valid_predictions_are_posted() {
    match submit::run(&args()) {
        Step::Post { path, body } => {
            assert_eq!(path, "/api/v1/predictions");
            assert_eq!(
                body.to_text(),
                "{\"market_id\":\"m\",\"prediction\":\"up\",\"reasoning\":\"because\",\"tickets\":5}"
            );
        }
        s => panic!("{:?}", s),
    }
    match submit::run(&SubmitArgs { limit_price: price(0.45), ..args() }) {
        Step::Post { body, .. } => {
            assert_eq!(body.number_at("limit_price"), Some(JsonNumber::Float(0.45f64.to_bits())))
        }
        s => panic!("{:?}", s),
    }
}

#[test]
fn dry_runs_post_nothing() {
    let long = "x".repeat(60);
    let a = SubmitArgs {
        prediction: "down".to_string(),
        reasoning: long.clone(),
        limit_price: price(0.45),
        dry_run: true,
        ..args()
    };
    let o = printed(submit::run(&a));
    assert!(o.ok);
    assert_eq!(o.user_message, "[dry-run] Would submit DOWN prediction for market m with 5 tickets.");
    assert_eq!(o._internal.next_action, "submit");
    assert_eq!(
        o._internal.next_command,
        Some(format!(
            "predict-agent submit --market m --prediction down --tickets 5 --reasoning \"{}\" --limit-price 0.45",
            "x".repeat(50)
        ))
    );
    let data = o.data.unwrap();
    assert!(data.flag("dry_run"));
    match submit::run(&SubmitArgs { dry_run: false, ..a }) {
        Step::Post { body, .. } => assert_eq!(data.get("would_submit"), Some(&body)),
        s => panic!("{:?}", s),
    }
    let o = printed(submit::run(&SubmitArgs { dry_run: true, ..args() }));
    assert_eq!(
        o._internal.next_command.unwrap(),
        "predict-agent submit --market m --prediction up --tickets 5 --reasoning \"because\""
    );
}

#[test]
fn orders_that_were_filled() {
    let v = json::parse("{\"data\":{\"direction\":\"up\",\"tickets_filled\":5,\"order_status\":\"filled\",\"payout_if_correct\":5}}").unwrap();
    let o = submit::finish(&args(), Ok(v));
    assert!(o.ok);
    assert_eq!(o.user_message, "Submitted UP for m. Filled 5/5 tickets. Payout if correct: 5 chips.");
    assert_eq!(o._internal.next_action, "fetch_context");
    assert_eq!(o._internal.next_command.as_deref(), Some("predict-agent context"));
    assert_eq!(o.data.unwrap().i64_or("tickets_filled", 0), 5);
}

#[test]
fn orders_that_were_not_filled() {
    let m = |s: &str| submit::accepted_message(&args(), &json::parse(s).unwrap());
    assert_eq!(
        m("{\"direction\":\"down\",\"order_status\":\"partial\",\"tickets_filled\":2}"),
        "Submitted DOWN for m. Partially filled 2/5 tickets. Unfilled tickets auto-refund at close."
    );
    assert_eq!(
        m("{}"),
        "Submitted UP for m. 5 tickets queued (no immediate fill). Chips locked until market close."
    );
    assert_eq!(
        m("{\"order_status\":\"filled\",\"payout_if_correct\":\"x\"}"),
        "Submitted UP for m. Filled 0/5 tickets. Payout if correct: 0 chips."
    );
}

#[test]
fn the_code_of_the_coordinator_is_passed_on() {
    let e = "HTTP 429 Too Many Requests: {\"error\":{\"code\":\"SLOW\",\"category\":\"c\",\"retryable\":true,\"suggestion\":\"s\",\"message\":\"m\"}}";
    let o = submit::finish(&args(), Err(e.to_string()));
    assert!(!o.ok);
    assert_eq!(o.user_message, "Submission failed: m");
    assert_eq!(o._internal.next_action, "retry");
    assert_eq!(o._internal.wait_seconds, Some(30));
    assert_eq!(o._internal.next_command.as_deref(), Some("predict-agent context"));
    let d = o.error.unwrap();
    assert_eq!((d.code.as_str(), d.category.as_str(), d.retryable, d.suggestion.as_str()), ("SLOW", "c", true, "s"));
}

#[test]
fn details_that_are_missing_have_defaults() {
    let d = submit::parse_server_error("{\"error\":{\"code\":\"X\"}}");
    assert_eq!(
        d,
        ServerError {
            code: "X".to_string(),
            category: "unknown".to_string(),
            retryable: false,
            suggestion: String::new(),
        }
    );
    assert!(submit::read_details(&json::parse("{\"error\":{\"code\":1}}").unwrap()).is_none());
    assert!(submit::read_details(&json::parse("{}").unwrap()).is_none());
}

#[test]
fn failures_without_a_code_are_guessed() {
    let c = |e: &str| {
        let d = submit::parse_server_error(e);
        (d.code, d.category, d.retryable, d.suggestion)
    };
    let four = |a: &str, b: &str, r: bool, s: &str| (a.to_string(), b.to_string(), r, s.to_string());
    assert_eq!(c("RATE_LIMIT"), four("RATE_LIMIT_EXCEEDED", "rate_limit", true, "Wait and retry."));
    assert_eq!(c("HTTP 429: {\"error\":{}}"), four("RATE_LIMIT_EXCEEDED", "rate_limit", true, "Wait and retry."));
    assert_eq!(c("x MARKET_CLOSED"), four("MARKET_CLOSED", "validation", false, "Choose an open market."));
    assert_eq!(c("?"), four("SUBMISSION_FAILED", "unknown", false, "Check the error details and retry."));
    let o = submit::finish(&args(), Err("?".to_string()));
    assert_eq!(o.user_message, "Submission failed: ?");
    assert_eq!(o._internal.next_action, "fix_command");
    assert_eq!(o._internal.wait_seconds, None);
}

#[test]
fn messages_of_failures() {
    assert_eq!(submit::extract_message("{\"error\":{\"message\":\"a\"},\"message\":\"b\"}"), "a");
    assert_eq!(submit::extract_message("{\"message\":\"b\"}"), "b");
    assert_eq!(submit::extract_message("HTTP 4: {\"error\":{\"message\":\"a\"}}"), "a");
    assert_eq!(submit::extract_message("HTTP 4: {\"message\":\"b\"}"), "HTTP 4: {\"message\":\"b\"}");
    assert_eq!(submit::extract_message("plain"), "plain");
    let whole = json::parse("{\"error\":{\"message\":\"w\"}}").unwrap();
    let tail = json::parse("{\"error\":{\"message\":\"t\"}}").unwrap();
    assert_eq!(submit::choose_message("e", Some(&whole), Some(&tail)), "w");
    assert_eq!(submit::choose_message("e", Some(&Json::Null), Some(&tail)), "t");
    assert_eq!(submit::choose_message("e", None, None), "e");
    assert_eq!(submit::choose_details("429", None, Some(&Json::Null)).code, "RATE_LIMIT_EXCEEDED");
}

#[test]
fn a_code_counts_behind_any_text_without_a_brace() {
    let answer = "{\"error\":{\"code\":\"X\",\"retryable\":true,\"suggestion\":\"429 MARKET_CLOSED\"}}";
    let want = submit::parse_server_error(answer);
    assert_eq!((want.code.as_str(), want.category.as_str(), want.retryable), ("X", "unknown", true));
    for front in ["", " ", "\n\t", "HTTP 429 Too Many Requests: ", "MARKET_CLOSED } ", "[", "\"", "\u{3000}", "1 "] {
        assert_eq!(submit::parse_server_error(&format!("{}{}", front, answer)), want, "{:?}", front);
    }
}
