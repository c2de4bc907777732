use predict_agent::awp_register;
use predict_agent::awp_register::{Action, Event, RegistrationResult, Stage};
use predict_agent::failure::Failure;
use predict_agent::json;
use predict_agent::json::Json;

fn value(s: &str) -> Json {
    json::parse(s).unwrap()
}

fn called(s: &str) -> Event {
    Event::Called { result: Ok(value(s)), now_secs: 1000 }
}

fn failed(s: &str) -> Event {
    Event::Called { result: plain(s), now_secs: 1000 }
}

fn plain<T>(detail: &str) -> Result<T, Failure> {
    Err(Failure { detail: detail.to_string(), chain: detail.to_string() })
}

fn go(stage: Stage, event: Event) -> (Option<Stage>, Action) {
    awp_register::ensure_registered("0xab", stage, event)
}

fn end(turn: (Option<Stage>, Action)) -> Result<RegistrationResult, Failure> {
    assert!(turn.0.is_none());
    match turn.1 {
        Action::Finish(r) => r,
        a => panic!("{:?}", a),
    }
}

fn call(a: &Action) -> (String, String, u64) {
    match a {
        Action::Call { method, params, pause_secs } => (method.clone(), params.to_text(), *pause_secs),
        a => panic!("{:?}", a),
    }
}

const WHO: &str = "{\"address\":\"0xab\",\"chainId\":8453}";

#[test]
fn calls_to_the_network() {
    assert_eq!(
        awp_register::awp_jsonrpc("m", Json::object()).to_text(),
        "{\"id\":1,\"jsonrpc\":\"2.0\",\"method\":\"m\",\"params\":{}}"
    );
    assert_eq!(awp_register::AWP_API_BASE, "https://api.awp.sh/v2");
}

#[test]
fn results_of_calls() {
    let r = |s: &str| awp_register::take_result("m", s.as_bytes());
    assert_eq!(r("{\"result\":5}"), Ok(Json::unsigned(5)));
    assert_eq!(r("{\"result\":null}"), Ok(Json::Null));
    assert_eq!(r("{\"result\":5,\"error\":{\"message\":\"no\"}}"), plain("AWP API error (m): no"));
    assert_eq!(r("{\"result\":5,\"error\":null}"), plain("AWP API error (m): unknown error"));
    assert_eq!(r("{}"), plain("AWP API m returned no result"));
    assert_eq!(
        r("<html>"),
        Err(Failure {
            detail: "AWP API returned invalid JSON".to_string(),
            chain: "AWP API returned invalid JSON: error decoding response body: expected value at line 1 column 1"
                .to_string(),
        })
    );
    assert_eq!(awp_register::read_result("m", &value("{\"result\":1}")), Ok(Json::unsigned(1)));
}

#[test]
fn whether_an_address_is_registered() {
    assert!(awp_register::is_registered(&value("{\"isRegistered\":true}")));
    assert!(awp_register::is_registered(&value("{\"isRegistered\":false,\"isRegisteredUser\":true}")));
    assert!(!awp_register::is_registered(&value("{\"isRegistered\":\"true\"}")));
    assert!(!awp_register::is_registered(&Json::Null));
    assert_eq!(awp_register::check_registration(Ok(value("{\"isRegisteredUser\":true}"))), Ok(true));
    assert_eq!(awp_register::check_registration(Ok(Json::Null)), Ok(false));
    assert_eq!(awp_register::check_registration(plain("e")), plain("e"));
}

#[test]
fn nonces() {
    assert_eq!(awp_register::read_nonce(&value("{\"nonce\":7}")), 7);
    assert_eq!(awp_register::read_nonce(&value("{\"nonce\":\"12\"}")), 12);
    assert_eq!(awp_register::read_nonce(&value("{\"nonce\":\"x\"}")), 0);
    assert_eq!(awp_register::read_nonce(&value("{\"nonce\":-1}")), 0);
    assert_eq!(awp_register::read_nonce(&value("{\"nonce\":1.5}")), 0);
    assert_eq!(awp_register::read_nonce(&value("{}")), 0);
}

#[test]
fn a_registration_that_goes_all_the_way() {
    let (stage, action) = awp_register::begin_registration("0xab");
    assert_eq!(call(&action), ("address.check".to_string(), WHO.to_string(), 0));
    let (stage, action) = go(stage, called("{\"isRegistered\":false}"));
    assert_eq!(call(&action), ("registry.get".to_string(), "{\"chainId\":8453}".to_string(), 0));
    let (stage, action) = go(stage.unwrap(), called("{\"awpRegistry\":\"0xcc\"}"));
    assert_eq!(call(&action), ("nonce.get".to_string(), WHO.to_string(), 0));
    let (stage, action) = go(stage.unwrap(), called("{\"nonce\":\"3\"}"));
    match action {
        Action::Sign(data) => assert_eq!(
            data,
            "{\"domain\":{\"chainId\":8453,\"name\":\"AWPRegistry\",\"verifyingContract\":\"0xcc\",\"version\":\"1\"},\
\"message\":{\"deadline\":4600,\"nonce\":3,\"recipient\":\"0xab\",\"user\":\"0xab\"},\
\"primaryType\":\"SetRecipient\",\
\"types\":{\"EIP712Domain\":[{\"name\":\"name\",\"type\":\"string\"},{\"name\":\"version\",\"type\":\"string\"},{\"name\":\"chainId\",\"type\":\"uint256\"},{\"name\":\"verifyingContract\",\"type\":\"address\"}],\
\"SetRecipient\":[{\"name\":\"user\",\"type\":\"address\"},{\"name\":\"recipient\",\"type\":\"address\"},{\"name\":\"nonce\",\"type\":\"uint256\"},{\"name\":\"deadline\",\"type\":\"uint256\"}]}}"
        ),
        a => panic!("{:?}", a),
    }
    let (stage, action) = go(stage.unwrap(), Event::Signed(Ok("0x51".to_string())));
    match action {
        Action::Relay { url, body } => {
            assert_eq!(url, "https://api.awp.sh/api/relay/set-recipient");
            assert_eq!(
                body.to_text(),
                "{\"chainId\":8453,\"deadline\":4600,\"nonce\":3,\"recipient\":\"0xab\",\"signature\":\"0x51\",\"user\":\"0xab\"}"
            );
        }
        a => panic!("{:?}", a),
    }
    let relayed = Event::Relayed { status: 202, status_text: "202 Accepted".to_string(), body: String::new() };
    let (stage, action) = go(stage.unwrap(), relayed);
    assert_eq!(call(&action), ("address.check".to_string(), WHO.to_string(), 2));
    assert_eq!(
        end(go(stage.unwrap(), called("{\"isRegisteredUser\":true}"))),
        Ok(RegistrationResult {
            registered: true,
            auto_registered: true,
            message: "Auto-registered on AWP network (gasless).".to_string(),
        })
    );
}

#[test]
fn a_registered_address_is_left_alone() {
    let r = end(go(Stage::Check, called("{\"isRegistered\":true}"))).unwrap();
    assert!(r.registered);
    assert!(!r.auto_registered);
    assert_eq!(r.message, "Already registered on AWP network.");
}

#[test]
fn the_network_is_asked_five_times_at_most() {
    let mut stage = Stage::Poll { attempt: 0 };
    for i in 0..5u32 {
        let event = if i == 2 { failed("down") } else { called("{}") };
        let turn = go(stage, event);
        if i < 4 {
            assert_eq!(call(&turn.1).2, 2);
            stage = turn.0.unwrap();
            assert_eq!(stage, Stage::Poll { attempt: i + 1 });
        } else {
            let r = end(turn).unwrap();
            assert!(r.registered && r.auto_registered);
            assert_eq!(r.message, "Registration submitted. Confirmation pending.");
            return;
        }
    }
    unreachable!();
}

#[test]
fn steps_of_a_registration_that_fail() {
    assert_eq!(end(go(Stage::Check, failed("a"))), plain("a"));
    assert_eq!(end(go(Stage::Registry, failed("b"))), plain("b"));
    assert_eq!(
        end(go(Stage::Registry, called("{\"awpRegistry\":1}"))),
        plain("registry.get missing awpRegistry address")
    );
    let nonce = Stage::Nonce { contract: "0xcc".to_string() };
    assert_eq!(end(go(nonce, failed("c"))), plain("c"));
    let sign = Stage::Sign { nonce: 1, deadline: 2 };
    assert_eq!(end(go(sign, Event::Signed(plain("d")))), plain("d"));
    let cut = || Failure { detail: "e".to_string(), chain: "e: c".to_string() };
    assert_eq!(end(go(Stage::Relay, Event::RelayFailed(cut()))), Err(cut()));
    let refused = Event::Relayed {
        status: 500,
        status_text: "500 Internal Server Error".to_string(),
        body: "oops".to_string(),
    };
    assert_eq!(
        end(go(Stage::Relay, refused)),
        plain("Registration relay returned HTTP 500 Internal Server Error: oops")
    );
}

#[test]
fn deadlines_wrap_as_unsigned_seconds_do() {
    let nonce = Stage::Nonce { contract: "0xcc".to_string() };
    let event = Event::Called { result: Ok(Json::Null), now_secs: -10000 };
    match go(nonce, event).0 {
        Some(Stage::Sign { deadline, .. }) => assert_eq!(deadline, (-10000i64) as u64 + 3600),
        s => panic!("{:?}", s),
    }
    let nonce = Stage::Nonce { contract: "0xcc".to_string() };
    let event = Event::Called { result: Ok(Json::Null), now_secs: i64::MIN };
    match go(nonce, event).0 {
        Some(Stage::Sign { deadline, .. }) => assert_eq!(deadline, i64::MIN as u64 + 3600),
        s => panic!("{:?}", s),
    }
}

#[test]
fn typed_data_for_the_wallet() {
    assert_eq!(
        awp_register::sign_typed_data("tok", "{}"),
        vec!["sign-typed-data", "--token", "tok", "--data", "{}"]
    );
    assert_eq!(
        awp_register::take_typed_signature(true, "{\"signature\":\"0x1\"}", ""),
        Ok("0x1".to_string())
    );
    assert_eq!(
        awp_register::take_typed_signature(false, "", "locked"),
        plain("awp-wallet sign-typed-data failed: locked")
    );
    assert_eq!(awp_register::check_params("0xab").to_text(), WHO);
    assert_eq!(
        awp_register::build_typed_data("0xab", "0xcc", 1, 2).str_at("primaryType"),
        Some("SetRecipient")
    );
    assert_eq!(
        awp_register::build_relay_body("0xab", 1, 2, "s").get("signature").and_then(|s| s.as_str()),
        Some("s")
    );
}
