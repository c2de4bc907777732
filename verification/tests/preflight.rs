use predict_agent::awp_register::RegistrationResult;
use predict_agent::cmd::preflight;
use predict_agent::cmd::preflight::{Action, Event, Setup, Stage};
use predict_agent::cmd::set_persona::VALID_PERSONAS;
use predict_agent::failure::Failure;
use predict_agent::json;
use predict_agent::json::Json;
use predict_agent::output::Output;

const UNLOCK: &str = "export AWP_WALLET_TOKEN=$(awp-wallet unlock --duration 86400 --scope full --raw)";

fn setup() -> Setup {
    Setup {
        server_url: "https://x".to_string(),
        address_set: false,
        private_key_set: false,
        wallet_token: Some("tok".to_string()),
        dev_mode: None,
        session_id: None,
        agent_id: None,
    }
}

fn failure() -> Failure {
    Failure { detail: "d".to_string(), chain: "d: c".to_string() }
}

fn address() -> String {
    "0xab".to_string()
}

fn printed(turn: (Option<Stage>, Action)) -> Output {
    assert!(turn.0.is_none());
    match turn.1 {
        Action::Print(o) => o,
        a => panic!("{:?}", a),
    }
}

fn code(o: &Output) -> &str {
    o.error.as_ref().unwrap().code.as_str()
}

fn debug(o: &Output) -> String {
    o.error.as_ref().unwrap().debug.as_ref().unwrap().to_text()
}

fn coordinator_is_next(turn: (Option<Stage>, Action)) {
    assert_eq!(turn.0, Some(Stage::Coordinator { address: address() }));
    assert_eq!(turn.1, Action::CheckCoordinator { server_url: "https://x".to_string() });
}

#[test]
fn checks_begin_with_the_wallet() {
    assert_eq!(preflight::begin(), (Stage::Wallet, Action::FindAddress));
}

#[test]
fn without_a_wallet() {
    let s = Setup { dev_mode: Some("yes".to_string()), private_key_set: true, ..setup() };
    let o = printed(preflight::run(&s, Stage::Wallet, Event::Address(Err("none".to_string()))));
    assert!(!o.ok);
    assert_eq!(o.user_message, "Cannot determine wallet address: none");
    assert_eq!(code(&o), "WALLET_NOT_CONFIGURED");
    assert_eq!(
        debug(&o),
        "{\"env_AWP_ADDRESS\":false,\"env_AWP_DEV_MODE\":\"yes\",\"env_AWP_PRIVATE_KEY\":true,\"env_AWP_WALLET_TOKEN\":true,\"error_detail\":\"none\",\"step\":\"1_wallet_address\"}"
    );
    assert_eq!(o._internal.next_action, "configure_wallet");
    assert_eq!(
        o._internal.next_command,
        Some(format!("if ! awp-wallet receive 2>/dev/null; then awp-wallet init; fi && {}", UNLOCK))
    );
    assert_eq!(o._internal.progress.as_deref(), Some("0/4"));
    let e = o.error.unwrap();
    assert_eq!((e.category.as_str(), e.retryable), ("dependency", false));
    assert_eq!(
        e.suggestion,
        format!("Wallet not configured. Run: awp-wallet init (if no wallet), then: {}", UNLOCK)
    );
}

#[test]
fn registration_is_checked_unless_in_development_mode() {
    let turn = preflight::run(&setup(), Stage::Wallet, Event::Address(Ok(address())));
    assert_eq!(turn.0, Some(Stage::Registration { address: address() }));
    assert_eq!(turn.1, Action::CheckRegistration { address: address() });
    let s = Setup { dev_mode: Some("1".to_string()), ..setup() };
    coordinator_is_next(preflight::run(&s, Stage::Wallet, Event::Address(Ok(address()))));
}

#[test]
fn a_registered_address_goes_on_and_so_does_an_unknown_one() {
    for r in [Ok(true), Err("down".to_string())] {
        let stage = Stage::Registration { address: address() };
        coordinator_is_next(preflight::run(&setup(), stage, Event::Registered(r)));
    }
}

#[test]
fn an_address_that_is_not_registered_is_registered() {
    let stage = Stage::Registration { address: address() };
    let turn = preflight::run(&setup(), stage, Event::Registered(Ok(false)));
    assert_eq!(turn.0, Some(Stage::Register { address: address() }));
    assert_eq!(turn.1, Action::Register { address: address(), token: "tok".to_string() });
}

#[test]
fn registration_needs_a_token() {
    for token in [None, Some(String::new())] {
        let s = Setup { wallet_token: token, ..setup() };
        let stage = Stage::Registration { address: address() };
        let o = printed(preflight::run(&s, stage, Event::Registered(Ok(false))));
        assert_eq!(code(&o), "AWP_NOT_REGISTERED");
        assert_eq!(
            o.user_message,
            "Not registered on AWP network. Wallet token needed for auto-registration."
        );
        assert_eq!(
            debug(&o),
            "{\"address\":\"0xab\",\"has_wallet_token\":false,\"step\":\"2_awp_registration\"}"
        );
        assert_eq!(o._internal.next_command.as_deref(), Some(UNLOCK));
        assert_eq!(o._internal.progress.as_deref(), Some("1/4"));
        assert_eq!(o.error.unwrap().suggestion, format!("Run: {}", UNLOCK));
    }
}

#[test]
fn what_comes_of_a_registration() {
    let stage = || Stage::Register { address: address() };
    let done = |registered| {
        Event::Registration(Ok(RegistrationResult {
            registered,
            auto_registered: true,
            message: "msg".to_string(),
        }))
    };
    coordinator_is_next(preflight::run(&setup(), stage(), done(true)));
    let o = printed(preflight::run(&setup(), stage(), done(false)));
    assert_eq!(code(&o), "AWP_REGISTRATION_PENDING");
    assert_eq!(o.user_message, "AWP registration incomplete: msg");
    assert_eq!(
        debug(&o),
        "{\"address\":\"0xab\",\"auto_registered\":true,\"message\":\"msg\",\"step\":\"2_awp_registration\"}"
    );
    assert_eq!(o._internal.wait_seconds, Some(10));
    assert_eq!(o._internal.next_command.as_deref(), Some("predict-agent preflight"));
    let o = printed(preflight::run(&setup(), stage(), Event::Registration(Err(failure()))));
    assert_eq!(code(&o), "AWP_REGISTRATION_FAILED");
    assert_eq!(o.user_message, "AWP registration failed: d");
    assert_eq!(
        debug(&o),
        "{\"address\":\"0xab\",\"error_chain\":\"d: c\",\"error_detail\":\"d\",\"step\":\"2_awp_registration\"}"
    );
    assert_eq!(o._internal.wait_seconds, Some(30));
    assert!(o.error.unwrap().retryable);
}

#[test]
fn a_coordinator_that_cannot_be_reached() {
    let stage = Stage::Coordinator { address: address() };
    let o = printed(preflight::run(&setup(), stage, Event::Reached(Err(failure()))));
    assert_eq!(code(&o), "COORDINATOR_UNREACHABLE");
    assert_eq!(o.user_message, "Cannot reach coordinator at https://x: d");
    assert_eq!(
        debug(&o),
        "{\"error_chain\":\"d: c\",\"error_detail\":\"d\",\"server_url\":\"https://x\",\"step\":\"3_coordinator_check\"}"
    );
    assert_eq!(o._internal.next_action, "retry");
    assert_eq!(o._internal.wait_seconds, Some(30));
    assert_eq!(o._internal.next_command.as_deref(), Some("predict-agent preflight"));
    assert_eq!(o._internal.progress.as_deref(), Some("2/4"));
    assert_eq!(
        o.error.unwrap().suggestion,
        "Check PREDICT_SERVER_URL and network. Tried: https://x"
    );
}

#[test]
fn a_coordinator_that_is_reached_is_asked_for_the_status() {
    let stage = Stage::Coordinator { address: address() };
    let turn = preflight::run(&setup(), stage, Event::Reached(Ok(())));
    assert_eq!(turn.0, Some(Stage::Auth { address: address() }));
    assert_eq!(turn.1, Action::FetchStatus { path: "/api/v1/agents/me/status".to_string() });
}

#[test]
fn signatures_that_are_not_accepted() {
    let stage = || Stage::Auth { address: address() };
    let s = Setup { agent_id: Some("a".to_string()), ..setup() };
    let o = printed(preflight::run(&s, stage(), Event::Status(Err(failure()))));
    assert_eq!(code(&o), "AUTH_FAILED");
    assert_eq!(o.user_message, "Failed to fetch agent status: d");
    assert_eq!(
        debug(&o),
        "{\"address\":\"0xab\",\"env_AWP_AGENT_ID\":\"a\",\"env_AWP_SESSION_ID\":null,\"error_chain\":\"d: c\",\"error_detail\":\"d\",\"server_url\":\"https://x\",\"signing_mode\":\"awp_wallet\",\"step\":\"4_auth_check\",\"wallet_id\":\"a\"}"
    );
    assert_eq!(o._internal.next_command.as_deref(), Some("predict-agent preflight"));
    assert_eq!(o._internal.progress.as_deref(), Some("3/4"));
    assert_eq!(
        o.error.unwrap().suggestion,
        "Check your wallet configuration and ensure the timestamp is fresh."
    );
    let f = Failure { detail: "HTTP 401: Wallet address mismatch".to_string(), chain: String::new() };
    let o = printed(preflight::run(&s, stage(), Event::Status(Err(f))));
    assert_eq!(
        o.error.unwrap().suggestion,
        "AWP_AGENT_ID or AWP_SESSION_ID may have changed. Try: unset AWP_AGENT_ID AWP_SESSION_ID"
    );
}

#[test]
fn the_way_of_signing_is_shown() {
    let mode = |s: Setup| {
        let o = printed(preflight::run(&s, Stage::Auth { address: address() }, Event::Status(Err(failure()))));
        o.error.unwrap().debug.unwrap().str_or("signing_mode", "").to_string()
    };
    assert_eq!(mode(setup()), "awp_wallet");
    assert_eq!(mode(Setup { dev_mode: Some("true".to_string()), ..setup() }), "dev_mode");
    assert_eq!(
        mode(Setup { dev_mode: Some("true".to_string()), private_key_set: true, ..setup() }),
        "private_key"
    );
}

fn ready(status: &str, markets: Result<Json, String>, rounded: Option<&str>) -> Output {
    let s = Setup { session_id: Some("s".to_string()), agent_id: Some("a".to_string()), ..setup() };
    let stage = Stage::Auth { address: address() };
    let turn = preflight::run(&s, stage, Event::Status(Ok(json::parse(status).unwrap())));
    assert!(matches!(turn.1, Action::FetchMarkets { ref path, .. } if path == "/api/v1/markets/active"));
    let event = Event::Markets { answer: markets, rounded: rounded.map(|r| r.to_string()) };
    printed(preflight::run(&s, turn.0.unwrap(), event))
}

#[test]
fn an_agent_that_is_ready() {
    let o = ready(
        "{\"data\":{\"total_predictions\":3,\"balance\":\"9.999\",\"persona\":\"p\"}}",
        Ok(json::parse("{\"data\":[1,2]}").unwrap()),
        Some("10.00"),
    );
    assert!(o.ok);
    assert_eq!(o.user_message, "Ready. 2 open markets. 3 total predictions. Balance: 10.00 chips.");
    assert_eq!(
        o.data.unwrap().to_text(),
        "{\"address\":\"0xab\",\"balance\":\"10.00\",\"open_markets\":2,\"persona\":\"p\",\"status\":\"ready\",\"total_predictions\":3,\"wallet_id\":\"s\"}"
    );
    assert_eq!(o._internal.next_action, "fetch_context");
    assert_eq!(o._internal.next_command.as_deref(), Some("predict-agent context"));
    assert_eq!(o._internal.progress.as_deref(), Some("4/4"));
    assert_eq!(o._internal.options, None);
}

#[test]
fn a_new_agent_is_offered_the_personas() {
    let o = ready("{}", Err("down".to_string()), Some("0.00"));
    assert!(o.ok);
    assert_eq!(
        o.user_message,
        "Welcome to Predict WorkNet! Choose your analysis persona to get started. 0 open markets waiting."
    );
    assert_eq!(
        o.data.unwrap().to_text(),
        "{\"address\":\"0xab\",\"balance\":\"0.00\",\"first_run\":true,\"open_markets\":0,\"persona\":\"none\",\"status\":\"ready\",\"total_predictions\":0,\"wallet_id\":\"s\"}"
    );
    assert_eq!(o._internal.next_action, "select_persona");
    assert_eq!(o._internal.next_command.as_deref(), Some("predict-agent set-persona <PERSONA>"));
    let options = o._internal.options.unwrap();
    let keys: Vec<&str> = options.iter().map(|c| c.key.as_str()).collect();
    assert_eq!(keys, VALID_PERSONAS);
    assert_eq!(options[6].label, "on chain analyst");
    assert_eq!(options[6].description, "UTXO age, exchange netflows, active addresses, NVT ratio");
    assert_eq!(options[6].command.as_deref(), Some("predict-agent set-persona on_chain_analyst"));
}

#[test]
fn an_agent_with_a_persona_or_predictions_is_not_new() {
    let first = |s: &str| ready(s, Ok(Json::Null), None)._internal.next_action == "select_persona";
    assert!(first("{\"data\":{\"persona\":\"\"}}"));
    assert!(first("{\"data\":{\"persona\":\"none\"}}"));
    assert!(!first("{\"data\":{\"persona\":\"p\"}}"));
    assert!(!first("{\"data\":{\"total_predictions\":1}}"));
}

#[test]
fn a_balance_that_is_no_number_is_shown_as_it_is() {
    let o = ready("{\"data\":{\"balance\":\"lots\",\"total_predictions\":-1}}", Ok(Json::Null), None);
    assert_eq!(o.user_message, "Ready. 0 open markets. -1 total predictions. Balance: lots chips.");
}
