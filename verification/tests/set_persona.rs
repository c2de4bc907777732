use predict_agent::cmd::set_persona;
use predict_agent::cmd::set_persona::VALID_PERSONAS;
use predict_agent::cmd::step::Step;
use predict_agent::json;

#[test]
fn personas_that_there_are() {
    for p in VALID_PERSONAS {
        assert!(set_persona::is_known(p));
        match set_persona::run(p) {
            Step::Post { path, body } => {
                assert_eq!(path, "/api/v1/agents/me/persona");
                assert_eq!(body.to_text(), format!("{{\"persona\":\"{}\"}}", p));
            }
            s => panic!("{:?}", s),
        }
    }
}

#[test]
fn personas_that_there_are_not() {
    let list = "quant_trader, macro_analyst, crypto_native, academic_economist, geopolitical_analyst, tech_industry, on_chain_analyst, retail_sentiment";
    match set_persona::run("Quant_Trader") {
        Step::Print(o) => {
            assert!(!o.ok);
            assert_eq!(o.user_message, format!("Invalid persona 'Quant_Trader'. Valid options: {}", list));
            let e = o.error.unwrap();
            assert_eq!((e.code.as_str(), e.category.as_str(), e.retryable), ("INVALID_PERSONA", "validation", false));
            assert_eq!(e.suggestion, format!("Use one of: {}", list));
            assert_eq!(o._internal.next_command.as_deref(), Some("predict-agent set-persona <persona>"));
        }
        s => panic!("{:?}", s),
    }
}

#[test]
fn personas_that_were_set() {
    let o = set_persona::finish("tech_industry", Ok(json::parse("{\"data\":{\"a\":1}}").unwrap()));
    assert!(o.ok);
    assert_eq!(o.user_message, "Persona updated to 'tech_industry'. 7-day cooldown started.");
    assert_eq!(o.data.unwrap().to_text(), "{\"a\":1}");
}

#[test]
fn personas_that_come_too_early() {
    for e in ["HTTP 409: {\"error\":{\"code\":\"PERSONA_COOLDOWN\",\"message\":\"wait\"}}", "cooldown {\"error\":{\"message\":\"wait\"}}"] {
        let o = set_persona::finish("tech_industry", Err(e.to_string()));
        assert_eq!(o.user_message, "Failed to set persona: wait");
        let d = o.error.unwrap();
        assert_eq!((d.code.as_str(), d.category.as_str(), d.retryable), ("SET_PERSONA_FAILED", "validation", false));
        assert_eq!(d.suggestion, "Persona can only be changed once every 7 days.");
    }
}

#[test]
fn personas_that_could_not_be_set() {
    let o = set_persona::finish("tech_industry", Err("Request failed".to_string()));
    assert_eq!(o.user_message, "Failed to set persona: Request failed");
    let d = o.error.unwrap();
    assert_eq!((d.category.as_str(), d.retryable), ("network", true));
    assert_eq!(d.suggestion, "Check coordinator connectivity and retry.");
    assert_eq!(o._internal.next_action, "fetch_context");
    assert_eq!(set_persona::extract_message("{\"message\":\"b\"}"), "{\"message\":\"b\"}");
    let quoted = json::parse("{\"error\":{\"message\":\"q\"}}").unwrap();
    assert_eq!(set_persona::choose_message("e", Some(&quoted)), "q");
    assert_eq!(set_persona::choose_message("e", None), "e");
    assert_eq!(set_persona::report_failure("cooldown", "m").user_message, "Failed to set persona: m");
}
