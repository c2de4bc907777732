use predict_agent::cmd::loop_worker;
use predict_agent::cmd::loop_worker::{Action, Balance, Event, IterationResult, LoopArgs, Pace, Stage};
use predict_agent::cmd::prompt::Prices;
use predict_agent::cmd::reply::LlmReply;
use predict_agent::json;
use predict_agent::json::{Json, JsonNumber};

fn args(interval: u64, max: u64) -> LoopArgs {
    LoopArgs { interval, max_iterations: max, agent_id: "w".to_string() }
}

fn value(s: &str) -> Json {
    json::parse(s).unwrap()
}

fn ok(s: &str) -> Event {
    Event::Answered(Ok(value(s)))
}

fn err(s: &str) -> Event {
    Event::Answered(Err(s.to_string()))
}

fn end(turn: (Option<Stage>, Action)) -> IterationResult {
    assert!(turn.0.is_none());
    match turn.1 {
        Action::Finish(r) => r,
        a => panic!("{:?}", a),
    }
}

/// A round that has got as far as the recommendations.
fn recommend() -> Stage {
    let (next, action) = loop_worker::advance(Stage::Status, ok("{\"data\":{\"balance\":\"100\"}}"));
    assert_eq!(action, Action::GetAuth("/api/v1/markets/recommend".to_string()));
    next.unwrap()
}

/// A round that waits for the model, with its prompt.
fn model(markets: &str, twentieth: u32) -> (Stage, String) {
    let (next, _) = loop_worker::advance(recommend(), ok(markets));
    let (next, action) = loop_worker::advance(next.unwrap(), err("no klines"));
    assert_eq!(action, Action::Render);
    let event = Event::Rendered {
        balance: "100".to_string(),
        twentieth,
        prices: Prices { up: "0.50".to_string(), down: "0.50".to_string() },
        candles: vec![],
    };
    let (next, action) = loop_worker::advance(next.unwrap(), event);
    match action {
        Action::Ask(p) => (next.unwrap(), p),
        a => panic!("{:?}", a),
    }
}

#[test]
fn pauses_double_up_to_a_limit() {
    assert_eq!(loop_worker::calculate_backoff(10, 0, None), 10);
    assert_eq!(loop_worker::calculate_backoff(10, 1, None), 20);
    assert_eq!(loop_worker::calculate_backoff(10, 3, None), 80);
    assert_eq!(loop_worker::calculate_backoff(10, 4, None), 160);
    assert_eq!(loop_worker::calculate_backoff(10, 9, None), 160);
    assert_eq!(loop_worker::calculate_backoff(120, 3, None), 600);
    assert_eq!(loop_worker::calculate_backoff(120, 3, Some(7)), 7);
    assert_eq!(loop_worker::calculate_backoff(u64::MAX, 3, Some(9000)), 9000);
}

#[test]
fn rounds_up_to_the_limit() {
    let a = args(120, 2);
    let mut p = Pace::new();
    assert!(p.begin(&a));
    assert!(p.begin(&a));
    assert!(!p.begin(&a));
    assert_eq!(p.iteration, 3);
    let mut q = Pace::new();
    for _ in 0..5 {
        assert!(q.begin(&args(120, 0)));
    }
}

#[test]
fn pauses_after_rounds() {
    let a = args(50, 0);
    let mut p = Pace::new();
    assert_eq!(p.settle(&a, &IterationResult::Error { reason: String::new() }), 100);
    assert_eq!(p.settle(&a, &IterationResult::LlmFailed { reason: String::new() }), 200);
    assert_eq!(p.settle(&a, &IterationResult::NoMarkets { wait_seconds: 300 }), 300);
    assert_eq!((p.consecutive_empty, p.consecutive_errors), (1, 2));
    assert_eq!(p.settle(&a, &IterationResult::RateLimited { wait_seconds: 77 }), 77);
    assert_eq!((p.consecutive_empty, p.consecutive_errors), (1, 2));
    let done = IterationResult::Submitted { market: "m".to_string(), direction: "up".to_string() };
    assert_eq!(p.settle(&a, &done), 50);
    assert_eq!((p.consecutive_empty, p.consecutive_errors), (0, 0));
}

#[test]
fn how_the_agent_stands() {
    let a = loop_worker::read_agent(&value(
        "{\"balance\":12.5,\"persona\":\"p\",\"timeslot\":{\"submissions_remaining\":1,\"submissions_used\":2,\"slot_limit\":4,\"slot_resets_in_seconds\":9},\"open_orders\":[1],\"recent_results\":7}",
    ));
    assert_eq!(a.balance, Balance::Number(JsonNumber::Float(12.5f64.to_bits())));
    assert_eq!(a.persona, "p");
    assert_eq!((a.submissions_remaining, a.submissions_used, a.slot_limit, a.slot_resets_in), (1, 2, 4, 9));
    assert_eq!(a.open_orders, Some(vec![Json::unsigned(1)]));
    assert_eq!(a.recent_results, None);
    let b = loop_worker::read_agent(&value("{\"balance\":\"7\"}"));
    assert_eq!(b.balance, Balance::Text("7".to_string()));
    assert_eq!(b.persona, "none");
    assert_eq!((b.submissions_remaining, b.submissions_used, b.slot_limit, b.slot_resets_in), (3, 0, 3, 300));
    assert_eq!(loop_worker::read_agent(&value("{\"balance\":true}")).balance, Balance::Missing);
}

#[test]
fn a_round_begins_with_the_status() {
    let (stage, action) = loop_worker::begin_iteration();
    assert_eq!(stage, Stage::Status);
    assert_eq!(action, Action::GetAuth("/api/v1/agents/me/status".to_string()));
    assert_eq!(
        loop_worker::client_failed("x"),
        IterationResult::Error { reason: "API client init failed: x".to_string() }
    );
}

#[test]
fn a_status_that_fails_ends_the_round() {
    assert_eq!(
        end(loop_worker::advance(Stage::Status, err("boom"))),
        IterationResult::Error { reason: "status fetch failed: boom".to_string() }
    );
}

#[test]
fn a_used_up_slot_waits() {
    let s = |n: u64| format!("{{\"data\":{{\"timeslot\":{{\"submissions_remaining\":0,\"slot_resets_in_seconds\":{}}}}}}}", n);
    assert_eq!(
        end(loop_worker::advance(Stage::Status, ok(&s(3)))),
        IterationResult::RateLimited { wait_seconds: 10 }
    );
    assert_eq!(
        end(loop_worker::advance(Stage::Status, ok(&s(42)))),
        IterationResult::RateLimited { wait_seconds: 42 }
    );
}

#[test]
fn the_first_recommendation_that_is_no_skip_is_taken() {
    let markets = "{\"data\":[{\"market_id\":\"a\",\"action\":\"skip\"},{\"market_id\":\"b\",\"action\":\"submit\"},{\"market_id\":\"c\"}]}";
    let (next, action) = loop_worker::advance(recommend(), ok(markets));
    assert_eq!(action, Action::Get("/api/v1/markets/b/klines".to_string()));
    match next.unwrap() {
        Stage::Klines { market_id, markets, .. } => {
            assert_eq!(market_id, "b");
            assert_eq!(markets.len(), 3);
        }
        s => panic!("{:?}", s),
    }
    assert!(loop_worker::is_actionable(&value("{}")));
    assert!(!loop_worker::is_actionable(&value("{\"action\":\"skip\"}")));
}

#[test]
fn a_market_without_an_id_is_none() {
    assert_eq!(
        end(loop_worker::advance(recommend(), ok("{\"data\":[{\"action\":\"submit\"}]}"))),
        IterationResult::NoMarkets { wait_seconds: 300 }
    );
}

#[test]
fn without_recommendations_the_open_markets_are_asked_for() {
    for event in [err("down"), ok("{\"data\":[]}"), ok("{}"), ok("{\"data\":[{\"action\":\"skip\"}]}")] {
        let (next, action) = loop_worker::advance(recommend(), event);
        assert_eq!(action, Action::Get("/api/v1/markets/active".to_string()));
        assert!(matches!(next, Some(Stage::Active { .. })));
    }
}

#[test]
fn an_open_market_has_more_than_two_minutes_left() {
    let active = || loop_worker::advance(recommend(), err("down")).0.unwrap();
    let at = |s: &str, secs: i64, nanos: u32| Event::AnsweredAt { answer: Ok(value(s)), now_secs: secs, now_nanos: nanos };
    let markets = "{\"data\":[{\"id\":\"a\",\"close_at\":\"2025-01-01T00:02:00Z\"},{\"id\":\"b\"},{\"id\":\"c\",\"close_at\":\"soon\"},{\"id\":\"d\",\"close_at\":\"2025-01-01T00:02:01Z\"}]}";
    // The first moment of 2025.
    let now = 1735689600;
    assert_eq!(
        loop_worker::advance(active(), at(markets, now, 0)).1,
        Action::Get("/api/v1/markets/d/klines".to_string())
    );
    assert_eq!(
        loop_worker::advance(active(), at(markets, now - 2, 999_999_999)).1,
        Action::Get("/api/v1/markets/a/klines".to_string())
    );
    assert_eq!(
        end(loop_worker::advance(active(), at(markets, now, 1))),
        IterationResult::NoMarkets { wait_seconds: 300 }
    );
    assert_eq!(
        end(loop_worker::advance(active(), at("{\"data\":[]}", now, 0))),
        IterationResult::NoMarkets { wait_seconds: 300 }
    );
    let failed = Event::AnsweredAt { answer: Err("e".to_string()), now_secs: now, now_nanos: 0 };
    assert_eq!(
        end(loop_worker::advance(active(), failed)),
        IterationResult::Error { reason: "markets fetch failed: e".to_string() }
    );
    assert!(loop_worker::open_long_enough(Some(121)));
    assert!(!loop_worker::open_long_enough(Some(120)));
    assert!(!loop_worker::open_long_enough(None));
}

#[test]
fn times_with_a_zone() {
    let active = loop_worker::advance(recommend(), err("down")).0.unwrap();
    let markets = "{\"data\":[{\"id\":\"z\",\"close_at\":\"2025-01-01T02:10:00+02:00\"}]}";
    let event = Event::AnsweredAt { answer: Ok(value(markets)), now_secs: 1735689600, now_nanos: 0 };
    assert_eq!(
        loop_worker::advance(active, event).1,
        Action::Get("/api/v1/markets/z/klines".to_string())
    );
}

#[test]
fn the_price_history_goes_into_the_prompt() {
    let (next, _) = loop_worker::advance(recommend(), ok("{\"data\":[{\"market_id\":\"b\"}]}"));
    let (next, action) = loop_worker::advance(next.unwrap(), ok("{\"data\":{\"klines\":[{},{}]}}"));
    assert_eq!(action, Action::Render);
    match next.unwrap() {
        Stage::Render { briefing, balance } => {
            assert_eq!(briefing.klines.map(|k| k.len()), Some(2));
            assert_eq!(balance, Balance::Text("100".to_string()));
        }
        s => panic!("{:?}", s),
    }
}

#[test]
fn the_stake_is_at_least_one() {
    let (stage, prompt) = model("{\"data\":[{\"market_id\":\"b\"}]}", 0);
    assert!(prompt.contains("- ID: b\n"));
    match stage {
        Stage::Model { stake, market_id, .. } => {
            assert_eq!(stake, 1);
            assert_eq!(market_id, "b");
        }
        s => panic!("{:?}", s),
    }
    match model("{\"data\":[{\"market_id\":\"b\"}]}", 9).0 {
        Stage::Model { stake, .. } => assert_eq!(stake, 9),
        s => panic!("{:?}", s),
    }
}

#[test]
fn what_the_model_decides_is_posted() {
    let reasoning = "r".repeat(80);
    let wrote = format!("{{\"direction\":\"UP\",\"reasoning\":\"{}\",\"tickets\":4,\"market_id\":\"c\"}}", reasoning);
    let (stage, _) = model("{\"data\":[{\"market_id\":\"b\"},{\"id\":\"c\"}]}", 9);
    let (next, action) = loop_worker::advance(stage, Event::Wrote(Ok(wrote)));
    assert_eq!(next, Some(Stage::Submit { market_id: "c".to_string(), direction: "up".to_string() }));
    match action {
        Action::Post { path, body } => {
            assert_eq!(path, "/api/v1/predictions");
            assert_eq!(
                body.to_text(),
                format!("{{\"market_id\":\"c\",\"prediction\":\"up\",\"reasoning\":\"{}\",\"tickets\":4}}", reasoning)
            );
        }
        a => panic!("{:?}", a),
    }
}

#[test]
fn a_market_that_was_not_recommended_is_not_taken() {
    let d = LlmReply {
        direction: "down".to_string(),
        reasoning: "why".to_string(),
        tickets: None,
        market_id: Some("x".to_string()),
    };
    let (next, action) = loop_worker::take_decision(&vec![value("{\"market_id\":\"b\"}")], "b", 6, d);
    assert_eq!(next, Some(Stage::Submit { market_id: "b".to_string(), direction: "down".to_string() }));
    match action {
        Action::Post { body, .. } => assert_eq!(body, loop_worker::body("b", "down", 6, "why")),
        a => panic!("{:?}", a),
    }
}

#[test]
fn a_model_that_fails_ends_the_round() {
    let (stage, _) = model("{\"data\":[{\"market_id\":\"b\"}]}", 1);
    assert_eq!(
        end(loop_worker::advance(stage, Event::Wrote(Err("gone".to_string())))),
        IterationResult::LlmFailed { reason: "gone".to_string() }
    );
    let (stage, _) = model("{\"data\":[{\"market_id\":\"b\"}]}", 1);
    assert_eq!(
        end(loop_worker::advance(stage, Event::Wrote(Ok("hm".to_string())))),
        IterationResult::LlmFailed { reason: "parse failed: no JSON object found in LLM response".to_string() }
    );
}

#[test]
fn how_submissions_end() {
    let submit = || Stage::Submit { market_id: "m".to_string(), direction: "up".to_string() };
    assert_eq!(
        end(loop_worker::advance(submit(), ok("{}"))),
        IterationResult::Submitted { market: "m".to_string(), direction: "up".to_string() }
    );
    assert_eq!(
        end(loop_worker::advance(submit(), err("HTTP 429 Too Many Requests: {}"))),
        IterationResult::RateLimited { wait_seconds: 300 }
    );
    assert_eq!(
        end(loop_worker::advance(submit(), err("RATE_LIMIT_EXCEEDED"))),
        IterationResult::RateLimited { wait_seconds: 300 }
    );
    assert_eq!(
        end(loop_worker::advance(submit(), err("x INSUFFICIENT_BALANCE y"))),
        IterationResult::NoMarkets { wait_seconds: 600 }
    );
    assert_eq!(
        end(loop_worker::advance(submit(), err("HTTP 409: {\"error\":{\"message\":\"closed\"}}"))),
        IterationResult::Error { reason: "submit failed: closed".to_string() }
    );
}

#[test]
fn submissions_by_the_answer_that_is_quoted() {
    let quoted = value("{\"error\":{\"message\":\"late\"}}");
    let done = |e: &str, q: Option<&Json>| {
        loop_worker::end_submission("m".to_string(), "up".to_string(), Err(e.to_string()), q)
    };
    assert_eq!(done("x", Some(&quoted)), IterationResult::Error { reason: "submit failed: late".to_string() });
    assert_eq!(done("x", None), IterationResult::Error { reason: "submit failed: x".to_string() });
    assert_eq!(done("429", Some(&quoted)), IterationResult::RateLimited { wait_seconds: 300 });
    assert_eq!(loop_worker::shorten_error("x", Some(&quoted)), "late");
}

#[test]
fn short_errors() {
    assert_eq!(loop_worker::extract_short_error("plain"), "plain");
    assert_eq!(loop_worker::extract_short_error(&"ä".repeat(300)), "ä".repeat(200));
    assert_eq!(loop_worker::extract_short_error("x {\"error\":{\"message\":\"m\"}}"), "m");
    assert_eq!(loop_worker::extract_short_error("x {\"error\":{}}"), "x {\"error\":{}}");
}
