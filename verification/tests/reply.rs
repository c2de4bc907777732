use predict_agent::cmd::reply;
use predict_agent::cmd::reply::ReplyError;
use predict_agent::json;
use predict_agent::json::JsonNumber;

fn answer(direction: &str, reasoning: &str, rest: &str) -> String {
    format!("{{\"direction\":\"{}\",\"reasoning\":\"{}\"{}}}", direction, reasoning, rest)
}

#[test]
fn a_bare_object_is_taken_whole() {
    assert_eq!(reply::extract_json(" \n{\"a\": 1} "), Some("{\"a\": 1}".to_string()));
}

#[test]
fn fenced_objects_are_found() {
    assert_eq!(
        reply::extract_json("Sure!\n```json\n{\"a\":1}\n```\nBye {x}"),
        Some("{\"a\":1}".to_string())
    );
    assert_eq!(reply::extract_json("See\n```\n{\"a\":1}\n```"), Some("{\"a\":1}".to_string()));
    assert_eq!(reply::extract_json("```json\n[1,2]\n```"), None);
    assert_eq!(reply::extract_json("```\n[1]\n```"), None);
    assert_eq!(reply::extract_json("```json\n[1]\n```\n{\"a\":1}"), Some("{\"a\":1}".to_string()));
}

#[test]
fn objects_with_text_around_them_are_found() {
    assert_eq!(
        reply::extract_json("I think {\"a\":{\"b\":2}} is right."),
        Some("{\"a\":{\"b\":2}}".to_string())
    );
    assert_eq!(reply::extract_json("no object"), None);
    assert_eq!(reply::extract_json("} {"), None);
    assert_eq!(reply::extract_json("{a} and {b}"), None);
    assert_eq!(reply::extract_json(""), None);
}

#[test]
fn places_come_in_order() {
    let t = "{x} ```json {\"a\":1} ``` {y}";
    assert_eq!(
        reply::candidates(t),
        vec![t.to_string(), "{\"a\":1}".to_string(), t.to_string()]
    );
    assert_eq!(reply::extract_json(t), Some("{\"a\":1}".to_string()));
}

#[test]
fn decisions() {
    let reasoning = "r".repeat(80);
    let r = reply::parse_llm_response(&answer("UP", &reasoning, ",\"tickets\":7,\"market_id\":\"m\"")).unwrap();
    assert_eq!(r.direction, "up");
    assert_eq!(r.reasoning, reasoning);
    assert_eq!(r.tickets, Some(7));
    assert_eq!(r.market_id, Some("m".to_string()));
    let r = reply::parse_llm_response(&answer("Down", &reasoning, "")).unwrap();
    assert_eq!(r.direction, "down");
    assert_eq!(r.tickets, None);
    assert_eq!(r.market_id, None);
}

#[test]
fn reasoning_is_counted_in_characters() {
    let enough = "ä".repeat(80);
    let short = "ä".repeat(79);
    assert!(reply::parse_llm_response(&answer("up", &enough, "")).is_ok());
    assert_eq!(
        reply::parse_llm_response(&answer("up", &short, "")),
        Err(ReplyError::ShortReasoning)
    );
}

#[test]
fn answers_of_no_use() {
    let reasoning = "r".repeat(80);
    assert_eq!(reply::parse_llm_response("hm"), Err(ReplyError::NoJson));
    assert_eq!(
        reply::parse_llm_response(&answer("sideways", &reasoning, "")),
        Err(ReplyError::BadDirection)
    );
    assert_eq!(reply::parse_llm_response("{}"), Err(ReplyError::BadDirection));
    assert_eq!(
        reply::parse_llm_response("{\"direction\":\"up\"}"),
        Err(ReplyError::ShortReasoning)
    );
    assert_eq!(reply::parse_llm_response(&answer("x", "y", "")), Err(ReplyError::BadDirection));
    assert_eq!(ReplyError::NoJson.message(), "no JSON object found in LLM response");
    assert_eq!(
        ReplyError::BadDirection.message(),
        "missing or invalid 'direction' (must be 'up' or 'down')"
    );
    assert_eq!(
        ReplyError::ShortReasoning.message(),
        "missing or too short 'reasoning' (must be >= 80 chars)"
    );
}

#[test]
fn tickets_from_numbers() {
    assert_eq!(reply::tickets_from(JsonNumber::Unsigned(0)), 1);
    assert_eq!(reply::tickets_from(JsonNumber::Unsigned(500)), 500);
    assert_eq!(reply::tickets_from(JsonNumber::Negative(-4)), 1);
    assert_eq!(reply::tickets_from(JsonNumber::Float(12.9f64.to_bits())), 12);
    assert_eq!(reply::tickets_from(JsonNumber::Float((-2.5f64).to_bits())), 1);
    assert_eq!(reply::tickets_from(JsonNumber::Unsigned(4294967295)), u32::MAX);
    assert_eq!(reply::tickets_from(JsonNumber::Unsigned(4294967296)), u32::MAX);
    assert_eq!(reply::tickets_from(JsonNumber::Unsigned(u64::MAX)), u32::MAX);
    assert_eq!(reply::tickets_from(JsonNumber::Float(1e300f64.to_bits())), u32::MAX);
}

#[test]
fn tickets_in_answers() {
    let reasoning = "r".repeat(80);
    let t = |rest: &str| reply::parse_llm_response(&answer("up", &reasoning, rest)).unwrap().tickets;
    assert_eq!(t(",\"tickets\":\"5\""), None);
    assert_eq!(t(",\"tickets\":0"), Some(1));
    assert_eq!(t(",\"tickets\":3.7"), Some(3));
    assert_eq!(t(",\"tickets\":null"), None);
    assert_eq!(t(",\"tickets\":4294967296"), Some(u32::MAX));
}

#[test]
fn values_that_decide() {
    let v = json::parse(&answer("dOWN", &"x".repeat(90), ",\"market_id\":3")).unwrap();
    let r = reply::read_reply(&v).unwrap();
    assert_eq!(r.direction, "down");
    assert_eq!(r.market_id, None);
}

#[test]
fn text_around_an_object_makes_no_difference() {
    let object = "{\"a\":{\"b\":[1,\"}\"]}}";
    for before in ["", " ", "\u{3000}", "x ", "[ \"", "} "] {
        for after in ["", "\n", ".", " y ", "\u{a0}", "]", " { "] {
            let answer = format!("{}{}{}", before, object, after);
            assert_eq!(reply::extract_json(&answer), Some(object.to_string()), "{:?}", answer);
        }
    }
}
