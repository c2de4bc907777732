//! Laws of `preflight`: what follows each check, and what is printed where one fails.

use vstd::prelude::*;

use crate::awp_register::{RegistrationResult, RegistrationView};
use crate::cmd::preflight;
use crate::cmd::preflight::{Action, ActionView, Event, EventView, Setup, SetupView, Stage, StageView};
use crate::failure::{Failure, FailureView};
use crate::json::{Json, JsonNumber, JsonView};
use crate::output::{ChoiceView, ErrorView, InternalView, Output, OutputView};
use crate::text;

verus! {

/// What to do next, and how many of the four checks have passed.
pub open spec fn hint_at(
    next_action: Seq<char>,
    next_command: Seq<char>,
    wait_seconds: Option<u64>,
    progress: Seq<char>,
    options: Option<Seq<ChoiceView>>,
) -> InternalView {
    InternalView {
        next_action,
        next_command: Some(next_command),
        wait_seconds,
        submittable_markets: None,
        context: None,
        progress: Some(progress),
        options,
    }
}

/// A check that failed, with what was known then.
pub open spec fn check_failed(
    user_message: Seq<char>,
    error: ErrorView,
    internal: InternalView,
) -> (Option<StageView>, ActionView) {
    (
        None,
        ActionView::Print(
            OutputView { ok: false, user_message, data: None, error: Some(error), internal },
        ),
    )
}

/// The third check, for an address.
pub open spec fn third_check(setup: SetupView, address: Seq<char>) -> (
    Option<StageView>,
    ActionView,
) {
    (
        Some(StageView::Coordinator { address }),
        ActionView::CheckCoordinator { server_url: setup.server_url },
    )
}

/// A text, or null where there is none.
pub open spec fn or_null(t: Option<Seq<char>>) -> JsonView {
    match t {
        Some(s) => JsonView::String(s),
        None => JsonView::Null,
    }
}

/// An address that is found is asked about on the network, except in development mode, where the
/// coordinator comes next.
pub proof fn lemma_address_found(setup: SetupView, address: Seq<char>)
    ensures
        setup.dev_mode == Some("true"@) || setup.dev_mode == Some("1"@) ==> preflight::step(
            setup,
            StageView::Wallet,
            EventView::Address(Ok(address)),
        ) == third_check(setup, address),
        setup.dev_mode != Some("true"@) && setup.dev_mode != Some("1"@) ==> preflight::step(
            setup,
            StageView::Wallet,
            EventView::Address(Ok(address)),
        ) == (
            Some(StageView::Registration { address }),
            ActionView::CheckRegistration { address },
        ),
{
}

/// Without an address it is printed why, with which of the settings are set.
pub proof fn lemma_no_address(setup: SetupView, e: Seq<char>)
    ensures
        preflight::step(setup, StageView::Wallet, EventView::Address(Err(e))) == check_failed(
            "Cannot determine wallet address: "@ + e,
            ErrorView {
                code: "WALLET_NOT_CONFIGURED"@,
                category: "dependency"@,
                retryable: false,
                suggestion: "Wallet not configured. Run: awp-wallet init (if no wallet), then: export AWP_WALLET_TOKEN=$(awp-wallet unlock --duration 86400 --scope full --raw)"@,
                debug: Some(
                    JsonView::Object(
                        map![
                            "step"@ => JsonView::String("1_wallet_address"@),
                            "error_detail"@ => JsonView::String(e),
                            "env_AWP_ADDRESS"@ => JsonView::Bool(setup.address_set),
                            "env_AWP_PRIVATE_KEY"@ => JsonView::Bool(setup.private_key_set),
                            "env_AWP_WALLET_TOKEN"@ => JsonView::Bool(setup.wallet_token is Some),
                            "env_AWP_DEV_MODE"@ => or_null(setup.dev_mode),
                        ],
                    ),
                ),
            },
            hint_at(
                "configure_wallet"@,
                "if ! awp-wallet receive 2>/dev/null; then awp-wallet init; fi && export AWP_WALLET_TOKEN=$(awp-wallet unlock --duration 86400 --scope full --raw)"@,
                None,
                "0/4"@,
                None,
            ),
        ),
{
}

/// A registered address goes on to the coordinator, and so does one that the network could not be
/// asked about. One that is not registered is registered with the wallet's token; where the token
/// is missing or empty, that is printed.
pub proof fn lemma_registration_checked(
    setup: SetupView,
    address: Seq<char>,
    e: Seq<char>,
    token: Seq<char>,
)
    ensures
        preflight::step(
            setup,
            StageView::Registration { address },
            EventView::Registered(Ok(true)),
        ) == third_check(setup, address),
        preflight::step(
            setup,
            StageView::Registration { address },
            EventView::Registered(Err(e)),
        ) == third_check(setup, address),
        setup.wallet_token == Some(token) && token.len() > 0 ==> preflight::step(
            setup,
            StageView::Registration { address },
            EventView::Registered(Ok(false)),
        ) == (Some(StageView::Register { address }), ActionView::Register { address, token }),
        setup.wallet_token is None || setup.wallet_token->0.len() == 0 ==> preflight::step(
            setup,
            StageView::Registration { address },
            EventView::Registered(Ok(false)),
        ) == check_failed(
            "Not registered on AWP network. Wallet token needed for auto-registration."@,
            ErrorView {
                code: "AWP_NOT_REGISTERED"@,
                category: "dependency"@,
                retryable: false,
                suggestion: "Run: export AWP_WALLET_TOKEN=$(awp-wallet unlock --duration 86400 --scope full --raw)"@,
                debug: Some(
                    JsonView::Object(
                        map![
                            "step"@ => JsonView::String("2_awp_registration"@),
                            "address"@ => JsonView::String(address),
                            "has_wallet_token"@ => JsonView::Bool(false),
                        ],
                    ),
                ),
            },
            hint_at(
                "configure_wallet"@,
                "export AWP_WALLET_TOKEN=$(awp-wallet unlock --duration 86400 --scope full --raw)"@,
                None,
                "1/4"@,
                None,
            ),
        ),
{
}

/// A registration that ends with the address registered goes on to the coordinator; one that does
/// not, and one that fails, is printed with what it said.
pub proof fn lemma_registration_taken(
    setup: SetupView,
    address: Seq<char>,
    r: RegistrationView,
    f: FailureView,
)
    ensures
        r.registered ==> preflight::step(
            setup,
            StageView::Register { address },
            EventView::Registration(Ok(r)),
        ) == third_check(setup, address),
        !r.registered ==> preflight::step(
            setup,
            StageView::Register { address },
            EventView::Registration(Ok(r)),
        ) == check_failed(
            "AWP registration incomplete: "@ + r.message,
            ErrorView {
                code: "AWP_REGISTRATION_PENDING"@,
                category: "dependency"@,
                retryable: true,
                suggestion: "Registration submitted. Wait a moment and retry."@,
                debug: Some(
                    JsonView::Object(
                        map![
                            "step"@ => JsonView::String("2_awp_registration"@),
                            "address"@ => JsonView::String(address),
                            "auto_registered"@ => JsonView::Bool(r.auto_registered),
                            "message"@ => JsonView::String(r.message),
                        ],
                    ),
                ),
            },
            hint_at("retry"@, "predict-agent preflight"@, Some(10), "1/4"@, None),
        ),
        preflight::step(
            setup,
            StageView::Register { address },
            EventView::Registration(Err(f)),
        ) == check_failed(
            "AWP registration failed: "@ + f.detail,
            ErrorView {
                code: "AWP_REGISTRATION_FAILED"@,
                category: "dependency"@,
                retryable: true,
                suggestion: "Check network connectivity to api.awp.sh and retry."@,
                debug: Some(
                    JsonView::Object(
                        map![
                            "step"@ => JsonView::String("2_awp_registration"@),
                            "address"@ => JsonView::String(address),
                            "error_detail"@ => JsonView::String(f.detail),
                            "error_chain"@ => JsonView::String(f.chain),
                        ],
                    ),
                ),
            },
            hint_at("retry"@, "predict-agent preflight"@, Some(30), "1/4"@, None),
        ),
{
}

/// A coordinator that is reached is asked how the agent stands; one that is not is printed.
pub proof fn lemma_coordinator_checked(setup: SetupView, address: Seq<char>, f: FailureView)
    ensures
        preflight::step(setup, StageView::Coordinator { address }, EventView::Reached(Ok(()))) == (
            Some(StageView::Auth { address }),
            ActionView::FetchStatus { path: "/api/v1/agents/me/status"@ },
        ),
        preflight::step(setup, StageView::Coordinator { address }, EventView::Reached(Err(f)))
            == check_failed(
            "Cannot reach coordinator at "@ + setup.server_url + ": "@ + f.detail,
            ErrorView {
                code: "COORDINATOR_UNREACHABLE"@,
                category: "network"@,
                retryable: true,
                suggestion: "Check PREDICT_SERVER_URL and network. Tried: "@ + setup.server_url,
                debug: Some(
                    JsonView::Object(
                        map![
                            "step"@ => JsonView::String("3_coordinator_check"@),
                            "server_url"@ => JsonView::String(setup.server_url),
                            "error_detail"@ => JsonView::String(f.detail),
                            "error_chain"@ => JsonView::String(f.chain),
                        ],
                    ),
                ),
            },
            hint_at("retry"@, "predict-agent preflight"@, Some(30), "2/4"@, None),
        ),
{
}

/// The wallet in use is named by the session, or else by the agent, or else it is the default one.
pub proof fn lemma_wallet_in_use(setup: SetupView, s: Seq<char>, a: Seq<char>)
    ensures
        setup.session_id == Some(s) ==> preflight::wallet_id(setup) == s,
        setup.session_id is None && setup.agent_id == Some(a) ==> preflight::wallet_id(setup) == a,
        setup.session_id is None && setup.agent_id is None ==> preflight::wallet_id(setup)
            == "default"@,
{
}

/// How requests are signed, in words: by the key, then by development mode, then by the wallet.
pub open spec fn signs_by(setup: SetupView) -> Seq<char> {
    if setup.private_key_set {
        "private_key"@
    } else if setup.dev_mode == Some("true"@) || setup.dev_mode == Some("1"@) {
        "dev_mode"@
    } else {
        "awp_wallet"@
    }
}

/// An agent that the coordinator accepts has the open markets counted; one that it does not accept
/// is printed, with how it signs and by which wallet. The suggestion speaks of the ids where the
/// coordinator says that the addresses do not match.
pub proof fn lemma_agent_checked(
    setup: SetupView,
    address: Seq<char>,
    answer: JsonView,
    f: FailureView,
)
    ensures
        preflight::step(setup, StageView::Auth { address }, EventView::Status(Ok(answer))) == (
            Some(StageView::Markets { address, data: answer.data() }),
            ActionView::FetchMarkets {
                path: "/api/v1/markets/active"@,
                balance: answer.data().str_or("balance"@, "0"@),
            },
        ),
        preflight::step(setup, StageView::Auth { address }, EventView::Status(Err(f)))
            == check_failed(
            "Failed to fetch agent status: "@ + f.detail,
            ErrorView {
                code: "AUTH_FAILED"@,
                category: "auth"@,
                retryable: false,
                suggestion: if text::contains(f.detail, "Wallet address mismatch"@) {
                    "AWP_AGENT_ID or AWP_SESSION_ID may have changed. Try: unset AWP_AGENT_ID AWP_SESSION_ID"@
                } else {
                    "Check your wallet configuration and ensure the timestamp is fresh."@
                },
                debug: Some(
                    JsonView::Object(
                        map![
                            "step"@ => JsonView::String("4_auth_check"@),
                            "address"@ => JsonView::String(address),
                            "server_url"@ => JsonView::String(setup.server_url),
                            "error_detail"@ => JsonView::String(f.detail),
                            "error_chain"@ => JsonView::String(f.chain),
                            "signing_mode"@ => JsonView::String(signs_by(setup)),
                            "wallet_id"@ => JsonView::String(preflight::wallet_id(setup)),
                            "env_AWP_SESSION_ID"@ => or_null(setup.session_id),
                            "env_AWP_AGENT_ID"@ => or_null(setup.agent_id),
                        ],
                    ),
                ),
            },
            hint_at("configure_wallet"@, "predict-agent preflight"@, None, "3/4"@, None),
        ),
{
}

/// The markets that the coordinator lists are counted, and none where it lists none.
pub proof fn lemma_markets_counted(m: Map<Seq<char>, JsonView>, list: Seq<JsonView>, e: Seq<char>)
    ensures
        m.contains_pair("data"@, JsonView::Array(list)) ==> preflight::market_count(
            Ok(JsonView::Object(m)),
        ) == list.len(),
        !m.contains_key("data"@) || !(m["data"@] is Array) ==> preflight::market_count(
            Ok(JsonView::Object(m)),
        ) == 0,
        preflight::market_count(Err(e)) == 0,
{
}

/// An agent has to choose a persona exactly where it has made no prediction and has none, or an
/// empty one.
pub proof fn lemma_first_run(data: JsonView)
    ensures
        preflight::first_run(data) <==> data.i64_or("total_predictions"@, 0) == 0 && (data.str_or(
            "persona"@,
            "none"@,
        ) == "none"@ || data.str_or("persona"@, "none"@) == Seq::<char>::empty()),
{
    if data.str_or("persona"@, "none"@).len() == 0 {
        assert(data.str_or("persona"@, "none"@) =~= Seq::<char>::empty());
    }
}

/// When all checks have passed it is printed how the agent stands, with the markets that were
/// counted and the balance, rounded where it is a number. An agent that has to choose a persona is
/// welcomed and offered the personas instead.
pub proof fn lemma_ready(
    setup: SetupView,
    address: Seq<char>,
    data: JsonView,
    answer: Result<JsonView, Seq<char>>,
    rounded: Option<Seq<char>>,
)
    ensures
        ({
            let n = preflight::market_count(answer);
            let balance = match rounded {
                Some(r) => r,
                None => data.str_or("balance"@, "0"@),
            };
            let total = data.i64_or("total_predictions"@, 0);
            let turn = preflight::step(
                setup,
                StageView::Markets { address, data },
                EventView::Markets { answer, rounded },
            );
            &&& !preflight::first_run(data) ==> turn == (
                None::<StageView>,
                ActionView::Print(
                    OutputView {
                        ok: true,
                        user_message: "Ready. "@ + text::decimal(n) + " open markets. "@
                            + text::signed_decimal(total as int) + " total predictions. Balance: "@
                            + balance + " chips."@,
                        data: Some(
                            JsonView::Object(
                                map![
                                    "status"@ => JsonView::String("ready"@),
                                    "address"@ => JsonView::String(address),
                                    "open_markets"@ => JsonView::Number(
                                        JsonNumber::Unsigned(n as u64),
                                    ),
                                    "total_predictions"@ => JsonView::signed(total),
                                    "balance"@ => JsonView::String(balance),
                                    "persona"@ => JsonView::String(
                                        data.str_or("persona"@, "none"@),
                                    ),
                                    "wallet_id"@ => JsonView::String(preflight::wallet_id(setup)),
                                ],
                            ),
                        ),
                        error: None,
                        internal: hint_at(
                            "fetch_context"@,
                            "predict-agent context"@,
                            None,
                            "4/4"@,
                            None,
                        ),
                    },
                ),
            )
            &&& preflight::first_run(data) ==> turn == (
                None::<StageView>,
                ActionView::Print(
                    OutputView {
                        ok: true,
                        user_message: "Welcome to Predict WorkNet! Choose your analysis persona to get started. "@
                            + text::decimal(n) + " open markets waiting."@,
                        data: Some(
                            JsonView::Object(
                                map![
                                    "status"@ => JsonView::String("ready"@),
                                    "first_run"@ => JsonView::Bool(true),
                                    "address"@ => JsonView::String(address),
                                    "open_markets"@ => JsonView::Number(
                                        JsonNumber::Unsigned(n as u64),
                                    ),
                                    "total_predictions"@ => JsonView::signed(total),
                                    "balance"@ => JsonView::String(balance),
                                    "persona"@ => JsonView::String(
                                        data.str_or("persona"@, "none"@),
                                    ),
                                    "wallet_id"@ => JsonView::String(preflight::wallet_id(setup)),
                                ],
                            ),
                        ),
                        error: None,
                        internal: hint_at(
                            "select_persona"@,
                            "predict-agent set-persona <PERSONA>"@,
                            None,
                            "4/4"@,
                            Some(preflight::choices()),
                        ),
                    },
                ),
            )
        }),
{
}

/// The label of a choice is its key with blanks for the underscores, letter by letter, and its
/// command sets the persona of that key.
pub proof fn lemma_choice(i: int, k: int)
    requires
        0 <= i < 8,
        0 <= k < preflight::choices()[i].key.len(),
    ensures
        preflight::choices().len() == 8,
        preflight::choices()[i].label.len() == preflight::choices()[i].key.len(),
        preflight::choices()[i].key[k] == '_' ==> preflight::choices()[i].label[k] == ' ',
        preflight::choices()[i].key[k] != '_' ==> preflight::choices()[i].label[k]
            == preflight::choices()[i].key[k],
        preflight::choices()[i].command == Some(
            "predict-agent set-persona "@ + preflight::choices()[i].key,
        ),
{
}

/// What each persona looks at.
pub proof fn lemma_descriptions()
    ensures
        preflight::choices()[0].key == "quant_trader"@,
        preflight::choices()[0].description
            == "Focus on technical indicators, chart patterns, volume-price confirmation"@,
        preflight::choices()[1].key == "macro_analyst"@,
        preflight::choices()[1].description
            == "Frame crypto in macro context: rates, DXY, equity correlations"@,
        preflight::choices()[2].key == "crypto_native"@,
        preflight::choices()[2].description
            == "On-chain dynamics: funding rates, exchange flows, whale movements"@,
        preflight::choices()[3].key == "academic_economist"@,
        preflight::choices()[3].description
            == "Economic frameworks, behavioral finance, historical analogues"@,
        preflight::choices()[4].key == "geopolitical_analyst"@,
        preflight::choices()[4].description
            == "Regulatory news, geopolitical tensions, CBDC developments"@,
        preflight::choices()[5].key == "tech_industry"@,
        preflight::choices()[5].description
            == "Network upgrades, scaling solutions, developer activity"@,
        preflight::choices()[6].key == "on_chain_analyst"@,
        preflight::choices()[6].description
            == "UTXO age, exchange netflows, active addresses, NVT ratio"@,
        preflight::choices()[7].key == "retail_sentiment"@,
        preflight::choices()[7].description
            == "Social media pulse, Fear & Greed index, crowded trade detection"@,
{
}

/// The checks take whatever comes of what they wait for.
pub proof fn lemma_whatever_comes(
    address: Seq<char>,
    data: JsonView,
    found: Result<Seq<char>, Seq<char>>,
    known: Result<bool, Seq<char>>,
    registered: Result<RegistrationView, FailureView>,
    reached: Result<(), FailureView>,
    answer: Result<JsonView, FailureView>,
    markets: Result<JsonView, Seq<char>>,
    rounded: Option<Seq<char>>,
)
    ensures
        preflight::awaits(StageView::Wallet, EventView::Address(found)),
        preflight::awaits(StageView::Registration { address }, EventView::Registered(known)),
        preflight::awaits(StageView::Register { address }, EventView::Registration(registered)),
        preflight::awaits(StageView::Coordinator { address }, EventView::Reached(reached)),
        preflight::awaits(StageView::Auth { address }, EventView::Status(answer)),
        preflight::awaits(
            StageView::Markets { address, data },
            EventView::Markets { answer: markets, rounded },
        ),
{
}

/// Settings, stages, events and actions stand for what they hold.
pub proof fn lemma_check_values(
    setup: Setup,
    s: String,
    t: String,
    v: Json,
    b: bool,
    r: RegistrationResult,
    f: Failure,
    o: Output,
)
    ensures
        setup@.server_url == setup.server_url@,
        setup@.address_set == setup.address_set,
        setup@.private_key_set == setup.private_key_set,
        setup.wallet_token is None ==> setup@.wallet_token is None,
        setup.wallet_token is Some ==> setup@.wallet_token == Some(setup.wallet_token->0@),
        setup.dev_mode is None ==> setup@.dev_mode is None,
        setup.dev_mode is Some ==> setup@.dev_mode == Some(setup.dev_mode->0@),
        setup.session_id is None ==> setup@.session_id is None,
        setup.session_id is Some ==> setup@.session_id == Some(setup.session_id->0@),
        setup.agent_id is None ==> setup@.agent_id is None,
        setup.agent_id is Some ==> setup@.agent_id == Some(setup.agent_id->0@),
        Stage::Wallet@ == StageView::Wallet,
        (Stage::Registration { address: s })@ == (StageView::Registration { address: s@ }),
        (Stage::Register { address: s })@ == (StageView::Register { address: s@ }),
        (Stage::Coordinator { address: s })@ == (StageView::Coordinator { address: s@ }),
        (Stage::Auth { address: s })@ == (StageView::Auth { address: s@ }),
        (Stage::Markets { address: s, data: v })@ == (StageView::Markets {
            address: s@,
            data: v@,
        }),
        Event::Address(Ok(s))@ == EventView::Address(Ok(s@)),
        Event::Address(Err(s))@ == EventView::Address(Err(s@)),
        Event::Registered(Ok(b))@ == EventView::Registered(Ok(b)),
        Event::Registered(Err(s))@ == EventView::Registered(Err(s@)),
        Event::Registration(Ok(r))@ == EventView::Registration(Ok(r@)),
        Event::Registration(Err(f))@ == EventView::Registration(Err(f@)),
        Event::Reached(Err(f))@ == EventView::Reached(Err(f@)),
        Event::Status(Ok(v))@ == EventView::Status(Ok(v@)),
        Event::Status(Err(f))@ == EventView::Status(Err(f@)),
        (Event::Markets { answer: Ok(v), rounded: Some(s) })@ == (EventView::Markets {
            answer: Ok(v@),
            rounded: Some(s@),
        }),
        (Event::Markets { answer: Err(t), rounded: None })@ == (EventView::Markets {
            answer: Err(t@),
            rounded: None,
        }),
        Action::FindAddress@ == ActionView::FindAddress,
        (Action::CheckRegistration { address: s })@ == (ActionView::CheckRegistration {
            address: s@,
        }),
        (Action::Register { address: s, token: t })@ == (ActionView::Register {
            address: s@,
            token: t@,
        }),
        (Action::CheckCoordinator { server_url: s })@ == (ActionView::CheckCoordinator {
            server_url: s@,
        }),
        (Action::FetchStatus { path: s })@ == (ActionView::FetchStatus { path: s@ }),
        (Action::FetchMarkets { path: s, balance: t })@ == (ActionView::FetchMarkets {
            path: s@,
            balance: t@,
        }),
        Action::Print(o)@ == ActionView::Print(o@),
{
}

} // verus!
