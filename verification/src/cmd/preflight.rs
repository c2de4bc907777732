//! `preflight`: checks what the other commands need.
//!
//! The checks, in their order:
//!   1. there is a wallet address;
//!   2. the address is registered on the AWP network; it is registered if need be, without a fee;
//!   3. the coordinator can be reached;
//!   4. the coordinator accepts the agent's signature.
//!
//! The first check that fails is reported, with a command that helps. An agent that has made no
//! prediction and has no persona is offered the personas.

use vstd::prelude::*;

use crate::auth;
use crate::auth::SigningMode;
use crate::awp_register;
use crate::awp_register::{RegistrationResult, RegistrationView};
use crate::cmd::set_persona;
use crate::cmd::status;
use crate::failure::{Failure, FailureView};
use crate::json;
use crate::json::{Json, JsonView};
use crate::output;
use crate::output::{Choice, ChoiceView, Internal, InternalView, Output, OutputView};
use crate::text;

verus! {

/// The personas, and what each of them looks at.
pub const PERSONAS: [(&'static str, &'static str); 8] = [
    ("quant_trader", "Focus on technical indicators, chart patterns, volume-price confirmation"),
    ("macro_analyst", "Frame crypto in macro context: rates, DXY, equity correlations"),
    ("crypto_native", "On-chain dynamics: funding rates, exchange flows, whale movements"),
    ("academic_economist", "Economic frameworks, behavioral finance, historical analogues"),
    ("geopolitical_analyst", "Regulatory news, geopolitical tensions, CBDC developments"),
    ("tech_industry", "Network upgrades, scaling solutions, developer activity"),
    ("on_chain_analyst", "UTXO age, exchange netflows, active addresses, NVT ratio"),
    ("retail_sentiment", "Social media pulse, Fear & Greed index, crowded trade detection"),
];

/// The settings that the checks depend on.
#[derive(Debug, PartialEq, Eq)]
pub struct Setup {
    pub server_url: String,
    /// Whether `AWP_ADDRESS` is set.
    pub address_set: bool,
    /// Whether `AWP_PRIVATE_KEY` is set.
    pub private_key_set: bool,
    /// `AWP_WALLET_TOKEN`.
    pub wallet_token: Option<String>,
    /// `AWP_DEV_MODE`.
    pub dev_mode: Option<String>,
    /// `AWP_SESSION_ID`.
    pub session_id: Option<String>,
    /// `AWP_AGENT_ID`.
    pub agent_id: Option<String>,
}

#[verifier::ext_equal]
pub struct SetupView {
    pub server_url: Seq<char>,
    pub address_set: bool,
    pub private_key_set: bool,
    pub wallet_token: Option<Seq<char>>,
    pub dev_mode: Option<Seq<char>>,
    pub session_id: Option<Seq<char>>,
    pub agent_id: Option<Seq<char>>,
}

impl Setup {
    pub open spec fn view(&self) -> SetupView {
        SetupView {
            server_url: self.server_url@,
            address_set: self.address_set,
            private_key_set: self.private_key_set,
            wallet_token: output::opt_text(self.wallet_token),
            dev_mode: output::opt_text(self.dev_mode),
            session_id: output::opt_text(self.session_id),
            agent_id: output::opt_text(self.agent_id),
        }
    }
}

/// Where the checks stand: what they are waiting for, and what they know.
#[derive(Debug, PartialEq, Eq)]
pub enum Stage {
    /// The wallet address.
    Wallet,
    /// Whether the address is registered.
    Registration { address: String },
    /// What came of registering the address.
    Register { address: String },
    /// Whether the coordinator can be reached.
    Coordinator { address: String },
    /// How the agent stands.
    Auth { address: String },
    /// The open markets.
    Markets { address: String, data: Json },
}

#[verifier::ext_equal]
pub enum StageView {
    Wallet,
    Registration { address: Seq<char> },
    Register { address: Seq<char> },
    Coordinator { address: Seq<char> },
    Auth { address: Seq<char> },
    Markets { address: Seq<char>, data: JsonView },
}

/// What the checks were waiting for.
#[derive(Debug, PartialEq, Eq)]
pub enum Event {
    Address(Result<String, String>),
    Registered(Result<bool, String>),
    Registration(Result<RegistrationResult, Failure>),
    Reached(Result<(), Failure>),
    Status(Result<Json, Failure>),
    /// The open markets, and the balance with two decimals where it is a number.
    Markets { answer: Result<Json, String>, rounded: Option<String> },
}

#[verifier::ext_equal]
pub enum EventView {
    Address(Result<Seq<char>, Seq<char>>),
    Registered(Result<bool, Seq<char>>),
    Registration(Result<RegistrationView, FailureView>),
    Reached(Result<(), FailureView>),
    Status(Result<JsonView, FailureView>),
    Markets { answer: Result<JsonView, Seq<char>>, rounded: Option<Seq<char>> },
}

/// What the checks do next.
#[derive(Debug, PartialEq, Eq)]
pub enum Action {
    /// Find out the wallet address.
    FindAddress,
    /// Ask the AWP network whether it knows the address.
    CheckRegistration { address: String },
    /// Register the address, with the wallet's token.
    Register { address: String, token: String },
    /// Ask whether the coordinator is there.
    CheckCoordinator { server_url: String },
    /// Fetch a path of the coordinator, signed.
    FetchStatus { path: String },
    /// Fetch a path of the coordinator, and round the balance.
    FetchMarkets { path: String, balance: String },
    /// Print and stop.
    Print(Output),
}

#[verifier::ext_equal]
pub enum ActionView {
    FindAddress,
    CheckRegistration { address: Seq<char> },
    Register { address: Seq<char>, token: Seq<char> },
    CheckCoordinator { server_url: Seq<char> },
    FetchStatus { path: Seq<char> },
    FetchMarkets { path: Seq<char>, balance: Seq<char> },
    Print(OutputView),
}

impl Stage {
    pub open spec fn view(&self) -> StageView {
        match self {
            Stage::Wallet => StageView::Wallet,
            Stage::Registration { address } => StageView::Registration { address: address@ },
            Stage::Register { address } => StageView::Register { address: address@ },
            Stage::Coordinator { address } => StageView::Coordinator { address: address@ },
            Stage::Auth { address } => StageView::Auth { address: address@ },
            Stage::Markets { address, data } => StageView::Markets {
                address: address@,
                data: data@,
            },
        }
    }
}

impl Event {
    pub open spec fn view(&self) -> EventView {
        match self {
            Event::Address(r) => EventView::Address(output::told(*r)),
            Event::Registered(r) => EventView::Registered(
                match r {
                    Ok(b) => Ok(*b),
                    Err(e) => Err(e@),
                },
            ),
            Event::Registration(r) => EventView::Registration(
                match r {
                    Ok(x) => Ok(x@),
                    Err(f) => Err(f@),
                },
            ),
            Event::Reached(r) => EventView::Reached(
                match r {
                    Ok(_) => Ok(()),
                    Err(f) => Err(f@),
                },
            ),
            Event::Status(r) => EventView::Status(
                match r {
                    Ok(v) => Ok(v@),
                    Err(f) => Err(f@),
                },
            ),
            Event::Markets { answer, rounded } => EventView::Markets {
                answer: output::answered(*answer),
                rounded: output::opt_text(*rounded),
            },
        }
    }
}

impl Action {
    pub open spec fn view(&self) -> ActionView {
        match self {
            Action::FindAddress => ActionView::FindAddress,
            Action::CheckRegistration { address } => ActionView::CheckRegistration {
                address: address@,
            },
            Action::Register { address, token } => ActionView::Register {
                address: address@,
                token: token@,
            },
            Action::CheckCoordinator { server_url } => ActionView::CheckCoordinator {
                server_url: server_url@,
            },
            Action::FetchStatus { path } => ActionView::FetchStatus { path: path@ },
            Action::FetchMarkets { path, balance } => ActionView::FetchMarkets {
                path: path@,
                balance: balance@,
            },
            Action::Print(o) => ActionView::Print(o@),
        }
    }
}

/// Whether an event is what a stage waits for.
pub open spec fn awaits(stage: StageView, event: EventView) -> bool {
    match (stage, event) {
        (StageView::Wallet, EventView::Address(_)) => true,
        (StageView::Registration { .. }, EventView::Registered(_)) => true,
        (StageView::Register { .. }, EventView::Registration(_)) => true,
        (StageView::Coordinator { .. }, EventView::Reached(_)) => true,
        (StageView::Auth { .. }, EventView::Status(_)) => true,
        (StageView::Markets { .. }, EventView::Markets { .. }) => true,
        _ => false,
    }
}

// What is printed.

/// A text as JSON, or null where there is none.
pub open spec fn text_or_null(t: Option<Seq<char>>) -> JsonView {
    match t {
        Some(s) => JsonView::String(s),
        None => JsonView::Null,
    }
}

/// The wallet that is in use.
pub open spec fn wallet_id(setup: SetupView) -> Seq<char> {
    match setup.session_id {
        Some(s) => s,
        None => match setup.agent_id {
            Some(a) => a,
            None => "default"@,
        },
    }
}

/// How requests are signed, in words.
pub open spec fn mode_text(mode: SigningMode) -> Seq<char> {
    match mode {
        SigningMode::PrivateKey => "private_key"@,
        SigningMode::DevMode => "dev_mode"@,
        SigningMode::Wallet => "awp_wallet"@,
    }
}

pub open spec fn no_wallet(setup: SetupView, e: Seq<char>) -> OutputView {
    OutputView::error_with_debug(
        "Cannot determine wallet address: "@ + e,
        "WALLET_NOT_CONFIGURED"@,
        "dependency"@,
        false,
        "Wallet not configured. Run: awp-wallet init (if no wallet), then: export AWP_WALLET_TOKEN=$(awp-wallet unlock --duration 86400 --scope full --raw)"@,
        JsonView::object().with("step"@, JsonView::String("1_wallet_address"@)).with(
            "error_detail"@,
            JsonView::String(e),
        ).with("env_AWP_ADDRESS"@, JsonView::Bool(setup.address_set)).with(
            "env_AWP_PRIVATE_KEY"@,
            JsonView::Bool(setup.private_key_set),
        ).with("env_AWP_WALLET_TOKEN"@, JsonView::Bool(setup.wallet_token is Some)).with(
            "env_AWP_DEV_MODE"@,
            text_or_null(setup.dev_mode),
        ),
        InternalView::act("configure_wallet"@).run(
            "if ! awp-wallet receive 2>/dev/null; then awp-wallet init; fi && export AWP_WALLET_TOKEN=$(awp-wallet unlock --duration 86400 --scope full --raw)"@,
        ).at("0/4"@),
    )
}

pub open spec fn no_token(address: Seq<char>) -> OutputView {
    OutputView::error_with_debug(
        "Not registered on AWP network. Wallet token needed for auto-registration."@,
        "AWP_NOT_REGISTERED"@,
        "dependency"@,
        false,
        "Run: export AWP_WALLET_TOKEN=$(awp-wallet unlock --duration 86400 --scope full --raw)"@,
        JsonView::object().with("step"@, JsonView::String("2_awp_registration"@)).with(
            "address"@,
            JsonView::String(address),
        ).with("has_wallet_token"@, JsonView::Bool(false)),
        InternalView::act("configure_wallet"@).run(
            "export AWP_WALLET_TOKEN=$(awp-wallet unlock --duration 86400 --scope full --raw)"@,
        ).at("1/4"@),
    )
}

pub open spec fn registration_pending(address: Seq<char>, r: RegistrationView) -> OutputView {
    OutputView::error_with_debug(
        "AWP registration incomplete: "@ + r.message,
        "AWP_REGISTRATION_PENDING"@,
        "dependency"@,
        true,
        "Registration submitted. Wait a moment and retry."@,
        JsonView::object().with("step"@, JsonView::String("2_awp_registration"@)).with(
            "address"@,
            JsonView::String(address),
        ).with("auto_registered"@, JsonView::Bool(r.auto_registered)).with(
            "message"@,
            JsonView::String(r.message),
        ),
        InternalView::act("retry"@).wait(10).run("predict-agent preflight"@).at("1/4"@),
    )
}

pub open spec fn registration_failed(address: Seq<char>, f: FailureView) -> OutputView {
    OutputView::error_with_debug(
        "AWP registration failed: "@ + f.detail,
        "AWP_REGISTRATION_FAILED"@,
        "dependency"@,
        true,
        "Check network connectivity to api.awp.sh and retry."@,
        JsonView::object().with("step"@, JsonView::String("2_awp_registration"@)).with(
            "address"@,
            JsonView::String(address),
        ).with("error_detail"@, JsonView::String(f.detail)).with(
            "error_chain"@,
            JsonView::String(f.chain),
        ),
        InternalView::act("retry"@).wait(30).run("predict-agent preflight"@).at("1/4"@),
    )
}

pub open spec fn unreachable(setup: SetupView, f: FailureView) -> OutputView {
    OutputView::error_with_debug(
        "Cannot reach coordinator at "@ + setup.server_url + ": "@ + f.detail,
        "COORDINATOR_UNREACHABLE"@,
        "network"@,
        true,
        "Check PREDICT_SERVER_URL and network. Tried: "@ + setup.server_url,
        JsonView::object().with("step"@, JsonView::String("3_coordinator_check"@)).with(
            "server_url"@,
            JsonView::String(setup.server_url),
        ).with("error_detail"@, JsonView::String(f.detail)).with(
            "error_chain"@,
            JsonView::String(f.chain),
        ),
        InternalView::act("retry"@).wait(30).run("predict-agent preflight"@).at("2/4"@),
    )
}

pub open spec fn not_accepted(setup: SetupView, address: Seq<char>, f: FailureView) -> OutputView {
    OutputView::error_with_debug(
        "Failed to fetch agent status: "@ + f.detail,
        "AUTH_FAILED"@,
        "auth"@,
        false,
        if text::contains(f.detail, "Wallet address mismatch"@) {
            "AWP_AGENT_ID or AWP_SESSION_ID may have changed. Try: unset AWP_AGENT_ID AWP_SESSION_ID"@
        } else {
            "Check your wallet configuration and ensure the timestamp is fresh."@
        },
        JsonView::object().with("step"@, JsonView::String("4_auth_check"@)).with(
            "address"@,
            JsonView::String(address),
        ).with("server_url"@, JsonView::String(setup.server_url)).with(
            "error_detail"@,
            JsonView::String(f.detail),
        ).with("error_chain"@, JsonView::String(f.chain)).with(
            "signing_mode"@,
            JsonView::String(mode_text(auth::mode_of(setup.private_key_set, setup.dev_mode))),
        ).with("wallet_id"@, JsonView::String(wallet_id(setup))).with(
            "env_AWP_SESSION_ID"@,
            text_or_null(setup.session_id),
        ).with("env_AWP_AGENT_ID"@, text_or_null(setup.agent_id)),
        InternalView::act("configure_wallet"@).run("predict-agent preflight"@).at("3/4"@),
    )
}

/// A text with blanks in place of underscores.
pub open spec fn spaced(key: Seq<char>) -> Seq<char> {
    key.map_values(
        |c: char|
            if c == '_' {
                ' '
            } else {
                c
            },
    )
}

/// One of the personas as a choice.
pub open spec fn persona_choice(i: int) -> ChoiceView {
    ChoiceView {
        key: PERSONAS@[i].0@,
        label: spaced(PERSONAS@[i].0@),
        description: PERSONAS@[i].1@,
        command: Some("predict-agent set-persona "@ + PERSONAS@[i].0@),
    }
}

/// The personas as choices.
pub open spec fn choices() -> Seq<ChoiceView> {
    Seq::new(8, |i: int| persona_choice(i))
}

/// How many markets an answer lists; none where it is an error.
pub open spec fn market_count(answer: Result<JsonView, Seq<char>>) -> nat {
    match answer {
        Ok(v) => match v.array_at("data"@) {
            Some(l) => l.len(),
            None => 0,
        },
        Err(_) => 0,
    }
}

/// Whether an agent still has to choose a persona.
pub open spec fn first_run(data: JsonView) -> bool {
    let persona = data.str_or("persona"@, "none"@);
    data.i64_or("total_predictions"@, 0) == 0 && (persona == "none"@ || persona.len() == 0)
}

/// What is found when all checks have passed.
pub open spec fn findings(
    base: JsonView,
    setup: SetupView,
    address: Seq<char>,
    data: JsonView,
    open_markets: nat,
    balance: Seq<char>,
) -> JsonView {
    base.with("address"@, JsonView::String(address)).with(
        "open_markets"@,
        JsonView::unsigned(open_markets as u64),
    ).with("total_predictions"@, JsonView::signed(data.i64_or("total_predictions"@, 0))).with(
        "balance"@,
        JsonView::String(balance),
    ).with("persona"@, JsonView::String(data.str_or("persona"@, "none"@))).with(
        "wallet_id"@,
        JsonView::String(wallet_id(setup)),
    )
}

/// What is printed when all checks have passed.
pub open spec fn ready(
    setup: SetupView,
    address: Seq<char>,
    data: JsonView,
    open_markets: nat,
    balance: Seq<char>,
) -> OutputView {
    let base = JsonView::object().with("status"@, JsonView::String("ready"@));
    if first_run(data) {
        OutputView::success(
            "Welcome to Predict WorkNet! Choose your analysis persona to get started. "@
                + text::decimal(open_markets) + " open markets waiting."@,
            findings(
                base.with("first_run"@, JsonView::Bool(true)),
                setup,
                address,
                data,
                open_markets,
                balance,
            ),
            InternalView::act("select_persona"@).run("predict-agent set-persona <PERSONA>"@).at(
                "4/4"@,
            ).offer(choices()),
        )
    } else {
        OutputView::success(
            "Ready. "@ + text::decimal(open_markets) + " open markets. "@ + text::signed_decimal(
                data.i64_or("total_predictions"@, 0) as int,
            ) + " total predictions. Balance: "@ + balance + " chips."@,
            findings(base, setup, address, data, open_markets, balance),
            InternalView::act("fetch_context"@).run("predict-agent context"@).at("4/4"@),
        )
    }
}

// The steps.

pub open spec fn stop(o: OutputView) -> (Option<StageView>, ActionView) {
    (None, ActionView::Print(o))
}

/// On to the third check.
pub open spec fn to_coordinator(setup: SetupView, address: Seq<char>) -> (
    Option<StageView>,
    ActionView,
) {
    (
        Some(StageView::Coordinator { address }),
        ActionView::CheckCoordinator { server_url: setup.server_url },
    )
}

/// What follows the wallet address. Development mode has no wallet that could register.
pub open spec fn after_address(setup: SetupView, r: Result<Seq<char>, Seq<char>>) -> (
    Option<StageView>,
    ActionView,
) {
    match r {
        Err(e) => stop(no_wallet(setup, e)),
        Ok(address) => if auth::dev_mode_on(setup.dev_mode) {
            to_coordinator(setup, address)
        } else {
            (
                Some(StageView::Registration { address }),
                ActionView::CheckRegistration { address },
            )
        },
    }
}

/// What follows the question whether the address is registered. A network that cannot be asked
/// does not stop the checks.
pub open spec fn after_check(
    setup: SetupView,
    address: Seq<char>,
    r: Result<bool, Seq<char>>,
) -> (Option<StageView>, ActionView) {
    match r {
        Err(_) => to_coordinator(setup, address),
        Ok(true) => to_coordinator(setup, address),
        Ok(false) => match setup.wallet_token {
            Some(token) => if token.len() == 0 {
                stop(no_token(address))
            } else {
                (
                    Some(StageView::Register { address }),
                    ActionView::Register { address, token },
                )
            },
            None => stop(no_token(address)),
        },
    }
}

/// What follows a registration.
pub open spec fn after_registration(
    setup: SetupView,
    address: Seq<char>,
    r: Result<RegistrationView, FailureView>,
) -> (Option<StageView>, ActionView) {
    match r {
        Err(f) => stop(registration_failed(address, f)),
        Ok(x) => if x.registered {
            to_coordinator(setup, address)
        } else {
            stop(registration_pending(address, x))
        },
    }
}

/// What the checks do next.
pub open spec fn step(setup: SetupView, stage: StageView, event: EventView) -> (
    Option<StageView>,
    ActionView,
) {
    match (stage, event) {
        (StageView::Wallet, EventView::Address(r)) => after_address(setup, r),
        (StageView::Registration { address }, EventView::Registered(r)) => after_check(
            setup,
            address,
            r,
        ),
        (StageView::Register { address }, EventView::Registration(r)) => after_registration(
            setup,
            address,
            r,
        ),
        (StageView::Coordinator { address }, EventView::Reached(r)) => match r {
            Err(f) => stop(unreachable(setup, f)),
            Ok(_) => (
                Some(StageView::Auth { address }),
                ActionView::FetchStatus { path: status::STATUS_PATH@ },
            ),
        },
        (StageView::Auth { address }, EventView::Status(r)) => match r {
            Err(f) => stop(not_accepted(setup, address, f)),
            Ok(v) => (
                Some(StageView::Markets { address, data: v.data() }),
                ActionView::FetchMarkets {
                    path: "/api/v1/markets/active"@,
                    balance: v.data().str_or("balance"@, "0"@),
                },
            ),
        },
        (StageView::Markets { address, data }, EventView::Markets { answer, rounded }) => stop(
            ready(
                setup,
                address,
                data,
                market_count(answer),
                status::chips(data.str_or("balance"@, "0"@), rounded),
            ),
        ),
        _ => (None, ActionView::FindAddress),
    }
}

/// The view of where the checks go.
pub open spec fn turn_view(t: (Option<Stage>, Action)) -> (Option<StageView>, ActionView) {
    (
        match t.0 {
            Some(s) => Some(s@),
            None => None,
        },
        t.1@,
    )
}

fn json_or_null(t: &Option<String>) -> (r: Json)
    ensures
        r@ == text_or_null(output::opt_text(*t)),
{
    match t {
        Some(s) => Json::text(s.as_str()),
        None => Json::Null,
    }
}

fn opt_str(t: &Option<String>) -> (r: Option<&str>)
    ensures
        json::maybe_text(r) == output::opt_text(*t),
{
    match t {
        Some(s) => Some(s.as_str()),
        None => None,
    }
}

fn plus(a: &str, b: &str) -> (r: String)
    ensures
        r@ == a@ + b@,
{
    let mut s = a.to_owned();
    s.append(b);
    s
}

fn current_wallet(setup: &Setup) -> (r: &str)
    ensures
        r@ == wallet_id(setup@),
{
    match &setup.session_id {
        Some(s) => s.as_str(),
        None => match &setup.agent_id {
            Some(a) => a.as_str(),
            None => "default",
        },
    }
}

fn report_no_wallet(setup: &Setup, e: &str) -> (r: Output)
    ensures
        r@ == no_wallet(setup@, e@),
{
    Output::error_with_debug(
        plus("Cannot determine wallet address: ", e),
        "WALLET_NOT_CONFIGURED",
        "dependency",
        false,
        "Wallet not configured. Run: awp-wallet init (if no wallet), then: export AWP_WALLET_TOKEN=$(awp-wallet unlock --duration 86400 --scope full --raw)",
        Json::object().with("step", Json::text("1_wallet_address")).with(
            "error_detail",
            Json::text(e),
        ).with("env_AWP_ADDRESS", Json::Bool(setup.address_set)).with(
            "env_AWP_PRIVATE_KEY",
            Json::Bool(setup.private_key_set),
        ).with("env_AWP_WALLET_TOKEN", Json::Bool(setup.wallet_token.is_some())).with(
            "env_AWP_DEV_MODE",
            json_or_null(&setup.dev_mode),
        ),
        Internal::act("configure_wallet").run(
            "if ! awp-wallet receive 2>/dev/null; then awp-wallet init; fi && export AWP_WALLET_TOKEN=$(awp-wallet unlock --duration 86400 --scope full --raw)",
        ).at("0/4"),
    )
}

fn report_no_token(address: &str) -> (r: Output)
    ensures
        r@ == no_token(address@),
{
    Output::error_with_debug(
        "Not registered on AWP network. Wallet token needed for auto-registration.".to_owned(),
        "AWP_NOT_REGISTERED",
        "dependency",
        false,
        "Run: export AWP_WALLET_TOKEN=$(awp-wallet unlock --duration 86400 --scope full --raw)",
        Json::object().with("step", Json::text("2_awp_registration")).with(
            "address",
            Json::text(address),
        ).with("has_wallet_token", Json::Bool(false)),
        Internal::act("configure_wallet").run(
            "export AWP_WALLET_TOKEN=$(awp-wallet unlock --duration 86400 --scope full --raw)",
        ).at("1/4"),
    )
}

fn report_pending(address: &str, result: &RegistrationResult) -> (r: Output)
    ensures
        r@ == registration_pending(address@, result@),
{
    Output::error_with_debug(
        plus("AWP registration incomplete: ", result.message.as_str()),
        "AWP_REGISTRATION_PENDING",
        "dependency",
        true,
        "Registration submitted. Wait a moment and retry.",
        Json::object().with("step", Json::text("2_awp_registration")).with(
            "address",
            Json::text(address),
        ).with("auto_registered", Json::Bool(result.auto_registered)).with(
            "message",
            Json::text(result.message.as_str()),
        ),
        Internal::act("retry").wait(10).run("predict-agent preflight").at("1/4"),
    )
}

fn report_registration_failed(address: &str, f: &Failure) -> (r: Output)
    ensures
        r@ == registration_failed(address@, f@),
{
    Output::error_with_debug(
        plus("AWP registration failed: ", f.detail.as_str()),
        "AWP_REGISTRATION_FAILED",
        "dependency",
        true,
        "Check network connectivity to api.awp.sh and retry.",
        Json::object().with("step", Json::text("2_awp_registration")).with(
            "address",
            Json::text(address),
        ).with("error_detail", Json::text(f.detail.as_str())).with(
            "error_chain",
            Json::text(f.chain.as_str()),
        ),
        Internal::act("retry").wait(30).run("predict-agent preflight").at("1/4"),
    )
}

fn report_unreachable(setup: &Setup, f: &Failure) -> (r: Output)
    ensures
        r@ == unreachable(setup@, f@),
{
    let mut message = plus("Cannot reach coordinator at ", setup.server_url.as_str());
    message.append(": ");
    message.append(f.detail.as_str());
    let suggestion = plus(
        "Check PREDICT_SERVER_URL and network. Tried: ",
        setup.server_url.as_str(),
    );
    Output::error_with_debug(
        message,
        "COORDINATOR_UNREACHABLE",
        "network",
        true,
        suggestion.as_str(),
        Json::object().with("step", Json::text("3_coordinator_check")).with(
            "server_url",
            Json::text(setup.server_url.as_str()),
        ).with("error_detail", Json::text(f.detail.as_str())).with(
            "error_chain",
            Json::text(f.chain.as_str()),
        ),
        Internal::act("retry").wait(30).run("predict-agent preflight").at("2/4"),
    )
}

fn report_not_accepted(setup: &Setup, address: &str, f: &Failure) -> (r: Output)
    ensures
        r@ == not_accepted(setup@, address@, f@),
{
    let hint = if text::contains_text(f.detail.as_str(), "Wallet address mismatch") {
        "AWP_AGENT_ID or AWP_SESSION_ID may have changed. Try: unset AWP_AGENT_ID AWP_SESSION_ID"
    } else {
        "Check your wallet configuration and ensure the timestamp is fresh."
    };
    let mode = match auth::signing_mode(setup.private_key_set, opt_str(&setup.dev_mode)) {
        SigningMode::PrivateKey => "private_key",
        SigningMode::DevMode => "dev_mode",
        SigningMode::Wallet => "awp_wallet",
    };
    Output::error_with_debug(
        plus("Failed to fetch agent status: ", f.detail.as_str()),
        "AUTH_FAILED",
        "auth",
        false,
        hint,
        Json::object().with("step", Json::text("4_auth_check")).with(
            "address",
            Json::text(address),
        ).with("server_url", Json::text(setup.server_url.as_str())).with(
            "error_detail",
            Json::text(f.detail.as_str()),
        ).with("error_chain", Json::text(f.chain.as_str())).with(
            "signing_mode",
            Json::text(mode),
        ).with("wallet_id", Json::text(current_wallet(setup))).with(
            "env_AWP_SESSION_ID",
            json_or_null(&setup.session_id),
        ).with("env_AWP_AGENT_ID", json_or_null(&setup.agent_id)),
        Internal::act("configure_wallet").run("predict-agent preflight").at("3/4"),
    )
}

fn with_blanks(key: &str) -> (r: String)
    ensures
        r@ == spaced(key@),
{
    let n = key.unicode_len();
    let mut s = String::new();
    let mut i: usize = 0;
    while i < n
        invariant
            n == key@.len(),
            i <= n,
            s@ == spaced(key@).take(i as int),
        decreases n - i,
    {
        let c = key.get_char(i);
        if c == '_' {
            s.push(' ');
        } else {
            s.push(c);
        }
        assert(spaced(key@).take(i + 1) =~= spaced(key@).take(i as int).push(spaced(key@)[i as int]));
        i += 1;
    }
    assert(spaced(key@).take(n as int) =~= spaced(key@));
    s
}

fn persona_options() -> (r: Vec<Choice>)
    ensures
        r@.map_values(|c: Choice| c@) == choices(),
{
    let mut list: Vec<Choice> = Vec::new();
    let mut i: usize = 0;
    while i < 8
        invariant
            i <= 8,
            list@.len() == i,
            forall|j: int| 0 <= j < i ==> (#[trigger] list@[j])@ == persona_choice(j),
        decreases 8 - i,
    {
        let (key, description) = PERSONAS[i];
        list.push(
            Choice {
                key: key.to_owned(),
                label: with_blanks(key),
                description: description.to_owned(),
                command: Some(plus("predict-agent set-persona ", key)),
            },
        );
        i += 1;
    }
    assert(list@.map_values(|c: Choice| c@) =~= choices());
    list
}

fn count_markets(answer: &Result<Json, String>) -> (r: usize)
    ensures
        r == market_count(output::answered(*answer)),
{
    match answer {
        Ok(v) => match v.array_at("data") {
            Some(l) => {
                proof {
                    json::lemma_items_view(l@);
                }
                l.len()
            },
            None => 0,
        },
        Err(_) => 0,
    }
}

fn build_findings(
    base: Json,
    setup: &Setup,
    address: &str,
    data: &Json,
    open_markets: usize,
    balance: &str,
) -> (r: Json)
    ensures
        r@ == findings(base@, setup@, address@, data@, open_markets as nat, balance@),
{
    base.with("address", Json::text(address)).with(
        "open_markets",
        Json::unsigned(open_markets as u64),
    ).with("total_predictions", Json::signed(data.i64_or("total_predictions", 0))).with(
        "balance",
        Json::text(balance),
    ).with("persona", Json::text(data.str_or("persona", "none"))).with(
        "wallet_id",
        Json::text(current_wallet(setup)),
    )
}

fn report_ready(setup: &Setup, address: &str, data: &Json, open_markets: usize, balance: &str) -> (r:
    Output)
    ensures
        r@ == ready(setup@, address@, data@, open_markets as nat, balance@),
{
    let total = data.i64_or("total_predictions", 0);
    let persona = data.str_or("persona", "none");
    let count = text::u64_text(open_markets as u64);
    let base = Json::object().with("status", Json::text("ready"));
    if total == 0 && (text::same(persona, "none") || persona.is_empty()) {
        let mut message = plus(
            "Welcome to Predict WorkNet! Choose your analysis persona to get started. ",
            count.as_str(),
        );
        message.append(" open markets waiting.");
        Output::success(
            message,
            build_findings(
                base.with("first_run", Json::Bool(true)),
                setup,
                address,
                data,
                open_markets,
                balance,
            ),
            Internal::act("select_persona").run("predict-agent set-persona <PERSONA>").at(
                "4/4",
            ).offer(persona_options()),
        )
    } else {
        let mut message = plus("Ready. ", count.as_str());
        message.append(" open markets. ");
        message.append(text::i64_text(total).as_str());
        message.append(" total predictions. Balance: ");
        message.append(balance);
        message.append(" chips.");
        Output::success(
            message,
            build_findings(base, setup, address, data, open_markets, balance),
            Internal::act("fetch_context").run("predict-agent context").at("4/4"),
        )
    }
}

fn check_coordinator(setup: &Setup, address: String) -> (r: (Option<Stage>, Action))
    ensures
        turn_view(r) == to_coordinator(setup@, address@),
{
    (
        Some(Stage::Coordinator { address }),
        Action::CheckCoordinator { server_url: setup.server_url.clone() },
    )
}

fn take_address(setup: &Setup, found: Result<String, String>) -> (r: (Option<Stage>, Action))
    ensures
        turn_view(r) == after_address(setup@, output::told(found)),
{
    match found {
        Err(e) => (None, Action::Print(report_no_wallet(setup, e.as_str()))),
        Ok(address) => if auth::is_dev_mode(opt_str(&setup.dev_mode)) {
            check_coordinator(setup, address)
        } else {
            let asked = address.clone();
            (Some(Stage::Registration { address }), Action::CheckRegistration { address: asked })
        },
    }
}

fn take_check(setup: &Setup, address: String, registered: Result<bool, String>) -> (r: (
    Option<Stage>,
    Action,
))
    ensures
        turn_view(r) == after_check(
            setup@,
            address@,
            match registered {
                Ok(b) => Ok(b),
                Err(e) => Err(e@),
            },
        ),
{
    let missing = match registered {
        Ok(b) => !b,
        Err(_) => false,
    };
    if !missing {
        return check_coordinator(setup, address);
    }
    match &setup.wallet_token {
        Some(token) => if token.as_str().is_empty() {
            (None, Action::Print(report_no_token(address.as_str())))
        } else {
            let asked = address.clone();
            (
                Some(Stage::Register { address }),
                Action::Register { address: asked, token: token.clone() },
            )
        },
        None => (None, Action::Print(report_no_token(address.as_str()))),
    }
}

/// Begins the checks.
pub fn begin() -> (r: (Stage, Action))
    ensures
        r.0@ == StageView::Wallet,
        r.1@ == ActionView::FindAddress,
{
    (Stage::Wallet, Action::FindAddress)
}

/// Moves the checks on: from what they were waiting for to what they do next.
pub fn run(setup: &Setup, stage: Stage, event: Event) -> (r: (Option<Stage>, Action))
    requires
        awaits(stage@, event@),
    ensures
        turn_view(r) == step(setup@, stage@, event@),
{
    match (stage, event) {
        (Stage::Wallet, Event::Address(found)) => take_address(setup, found),
        (Stage::Registration { address }, Event::Registered(registered)) => take_check(
            setup,
            address,
            registered,
        ),
        (Stage::Register { address }, Event::Registration(outcome)) => match outcome {
            Err(f) => (
                None,
                Action::Print(report_registration_failed(address.as_str(), &f)),
            ),
            Ok(result) => if result.registered {
                check_coordinator(setup, address)
            } else {
                (None, Action::Print(report_pending(address.as_str(), &result)))
            },
        },
        (Stage::Coordinator { address }, Event::Reached(reached)) => match reached {
            Err(f) => (None, Action::Print(report_unreachable(setup, &f))),
            Ok(_) => (
                Some(Stage::Auth { address }),
                Action::FetchStatus { path: status::STATUS_PATH.to_owned() },
            ),
        },
        (Stage::Auth { address }, Event::Status(answer)) => match answer {
            Err(f) => (None, Action::Print(report_not_accepted(setup, address.as_str(), &f))),
            Ok(v) => {
                let data = v.data();
                let balance = data.str_or("balance", "0").to_owned();
                (
                    Some(Stage::Markets { address, data }),
                    Action::FetchMarkets { path: "/api/v1/markets/active".to_owned(), balance },
                )
            },
        },
        (Stage::Markets { address, data }, Event::Markets { answer, rounded }) => {
            let open_markets = count_markets(&answer);
            let balance = status::format_chips(data.str_or("balance", "0"), rounded);
            let printed = report_ready(
                setup,
                address.as_str(),
                &data,
                open_markets,
                balance.as_str(),
            );
            (None, Action::Print(printed))
        },
        _ => (None, Action::FindAddress),
    }
}

// What holds of the checks as a whole.

/// How many more stages the checks can go through.
pub open spec fn stages_left(stage: StageView) -> nat {
    match stage {
        StageView::Wallet => 5,
        StageView::Registration { .. } => 4,
        StageView::Register { .. } => 3,
        StageView::Coordinator { .. } => 2,
        StageView::Auth { .. } => 1,
        StageView::Markets { .. } => 0,
    }
}

/// How many checks have passed at a stage, as it is printed.
pub open spec fn progress_at(stage: StageView) -> Seq<char> {
    match stage {
        StageView::Wallet => "0/4"@,
        StageView::Registration { .. } => "1/4"@,
        StageView::Register { .. } => "1/4"@,
        StageView::Coordinator { .. } => "2/4"@,
        StageView::Auth { .. } => "3/4"@,
        StageView::Markets { .. } => "4/4"@,
    }
}

/// The checks come to an end, and end by printing: every step either prints, and is the last, or
/// leaves fewer stages.
pub proof fn lemma_checks_end(setup: SetupView, stage: StageView, event: EventView)
    requires
        awaits(stage, event),
    ensures
        match step(setup, stage, event) {
            (Some(next), a) => stages_left(next) < stages_left(stage) && !(a is Print),
            (None, a) => a is Print,
        },
{
}

/// Whatever the checks print is consistent, names a command to run next, and says how many checks
/// have passed. It is a success exactly when all have.
pub proof fn lemma_outputs(setup: SetupView, stage: StageView, event: EventView)
    requires
        awaits(stage, event),
    ensures
        step(setup, stage, event).1 matches ActionView::Print(o) ==> {
            &&& o.consistent()
            &&& o.internal.next_command is Some
            &&& o.internal.progress == Some(progress_at(stage))
            &&& o.ok <==> stage is Markets
        },
{
    reveal_strlit("configure_wallet");
    reveal_strlit("retry");
    reveal_strlit("select_persona");
    reveal_strlit("fetch_context");
}

/// The checks come in their order: the coordinator is asked only for an address that is known,
/// the signature is tried only on a coordinator that was reached, and the markets are counted
/// only when the signature was accepted.
pub proof fn lemma_order_of_checks(setup: SetupView, stage: StageView, event: EventView)
    requires
        awaits(stage, event),
    ensures
        step(setup, stage, event).1 is Register <==> (event == EventView::Registered(Ok(false))
            && setup.wallet_token is Some && setup.wallet_token->0.len() > 0),
        step(setup, stage, event).1 is FetchStatus <==> (event is Reached && event->Reached_0
            is Ok),
        step(setup, stage, event).1 is FetchMarkets <==> (event is Status && event->Status_0 is Ok),
        step(setup, stage, event).1 is CheckCoordinator ==> match event {
            EventView::Address(r) => r is Ok && auth::dev_mode_on(setup.dev_mode),
            EventView::Registered(r) => r != Ok::<bool, Seq<char>>(false),
            EventView::Registration(r) => r is Ok && r->Ok_0.registered,
            _ => false,
        },
{
}

/// In development mode nothing is asked of the AWP network.
pub proof fn lemma_dev_mode(setup: SetupView, address: Seq<char>)
    requires
        auth::dev_mode_on(setup.dev_mode),
    ensures
        step(setup, StageView::Wallet, EventView::Address(Ok(address))) == to_coordinator(
            setup,
            address,
        ),
{
}

/// A network that cannot be asked counts as one that knows the address.
pub proof fn lemma_network_down(setup: SetupView, address: Seq<char>, e: Seq<char>)
    ensures
        step(
            setup,
            StageView::Registration { address },
            EventView::Registered(Err(e)),
        ) == step(setup, StageView::Registration { address }, EventView::Registered(Ok(true))),
{
}

/// A registration that came to an end without an error lets the checks go on.
pub proof fn lemma_registration_suffices(
    setup: SetupView,
    address: Seq<char>,
    stage: awp_register::StageView,
    event: awp_register::EventView,
    result: RegistrationView,
)
    requires
        awp_register::awaits(stage, event),
        awp_register::step(address, stage, event).1 == awp_register::ActionView::Finish(Ok(result)),
    ensures
        step(setup, StageView::Register { address }, EventView::Registration(Ok(result)))
            == to_coordinator(setup, address),
{
    awp_register::lemma_registration_ends(address, stage, event);
}

/// Nothing that is printed depends on what the wallet's token is, beyond whether it is set and
/// whether it is empty.
pub proof fn lemma_token_not_printed(
    setup: SetupView,
    other: SetupView,
    stage: StageView,
    event: EventView,
)
    requires
        awaits(stage, event),
        setup.wallet_token is Some,
        other.wallet_token is Some,
        setup.wallet_token->0.len() == 0 <==> other.wallet_token->0.len() == 0,
        other == (SetupView { wallet_token: other.wallet_token, ..setup }),
    ensures
        step(setup, stage, event).1 is Print ==> step(setup, stage, event) == step(
            other,
            stage,
            event,
        ),
{
}

/// The choices are the personas that can be set, each with the command that sets it.
pub proof fn lemma_choices(i: int)
    requires
        0 <= i < 8,
    ensures
        choices().len() == 8,
        choices()[i].key == set_persona::VALID_PERSONAS@[i]@,
        set_persona::known(choices()[i].key),
        choices()[i].command == Some("predict-agent set-persona "@ + choices()[i].key),
{
    assert(PERSONAS@[0].0@ == set_persona::VALID_PERSONAS@[0]@);
    assert(PERSONAS@[1].0@ == set_persona::VALID_PERSONAS@[1]@);
    assert(PERSONAS@[2].0@ == set_persona::VALID_PERSONAS@[2]@);
    assert(PERSONAS@[3].0@ == set_persona::VALID_PERSONAS@[3]@);
    assert(PERSONAS@[4].0@ == set_persona::VALID_PERSONAS@[4]@);
    assert(PERSONAS@[5].0@ == set_persona::VALID_PERSONAS@[5]@);
    assert(PERSONAS@[6].0@ == set_persona::VALID_PERSONAS@[6]@);
    assert(PERSONAS@[7].0@ == set_persona::VALID_PERSONAS@[7]@);
    assert(PERSONAS@[i].0@ == set_persona::VALID_PERSONAS@[i]@);
}

} // verus!
