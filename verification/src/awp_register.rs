//! Registration on the AWP network.
//!
//! An address that is not registered yet is registered through a relay, without a fee: the
//! wallet signs a `SetRecipient` message (EIP-712), the relay takes it, and the network is asked
//! until it knows the address. [`ensure_registered`] takes the decisions; whoever calls it makes
//! the requests.

use vstd::prelude::*;

use crate::auth;
use crate::client;
use crate::failure;
use crate::failure::{Failure, FailureView};
use crate::json;
use crate::json::{Json, JsonView};
use crate::text;

verus! {

/// Where calls to the network go.
pub const AWP_API_BASE: &'static str = "https://api.awp.sh/v2";

/// Where the relay is.
pub const AWP_RELAY_BASE: &'static str = "https://api.awp.sh/api";

/// The chain: Base mainnet.
pub const CHAIN_ID: u64 = 8453;

/// How often the network is asked whether it knows the address.
pub const POLL_ATTEMPTS: u32 = 5;

/// The seconds before each of these questions.
pub const POLL_INTERVAL_SECS: u64 = 2;

/// What came of a registration.
#[derive(Debug, PartialEq, Eq)]
pub struct RegistrationResult {
    pub registered: bool,
    pub auto_registered: bool,
    pub message: String,
}

#[verifier::ext_equal]
pub struct RegistrationView {
    pub registered: bool,
    pub auto_registered: bool,
    pub message: Seq<char>,
}

impl RegistrationResult {
    pub open spec fn view(&self) -> RegistrationView {
        RegistrationView {
            registered: self.registered,
            auto_registered: self.auto_registered,
            message: self.message@,
        }
    }
}

// Calls to the network (JSON-RPC).

/// The request for a call.
pub open spec fn call_body(method: Seq<char>, params: JsonView) -> JsonView {
    JsonView::object().with("jsonrpc"@, JsonView::String("2.0"@)).with(
        "method"@,
        JsonView::String(method),
    ).with("params"@, params).with("id"@, JsonView::unsigned(1))
}

/// The result in the answer to a call. An error in it counts, whatever else it holds.
pub open spec fn call_result(method: Seq<char>, answer: JsonView) -> Result<JsonView, FailureView> {
    match answer.get("error"@) {
        Some(e) => Err(
            FailureView::plain(
                "AWP API error ("@ + method + "): "@ + e.str_or("message"@, "unknown error"@),
            ),
        ),
        None => match answer.get("result"@) {
            Some(v) => Ok(v),
            None => Err(FailureView::plain("AWP API "@ + method + " returned no result"@)),
        },
    }
}

/// The result in the bytes of an answer to a call.
pub open spec fn call_result_in(method: Seq<char>, body: Seq<u8>) -> Result<JsonView, FailureView> {
    match json::bytes_read(body) {
        Err(cause) => Err(client::not_json("AWP API returned invalid JSON"@, cause)),
        Ok(v) => call_result(method, v),
    }
}

/// The request for a call.
pub fn awp_jsonrpc(method: &str, params: Json) -> (r: Json)
    ensures
        r@ == call_body(method@, params@),
{
    Json::object().with("jsonrpc", Json::text("2.0")).with("method", Json::text(method)).with(
        "params",
        params,
    ).with("id", Json::unsigned(1))
}

/// The result in the answer to a call.
pub fn read_result(method: &str, answer: &Json) -> (r: Result<Json, Failure>)
    ensures
        failure::answered(r) == call_result(method@, answer@),
{
    if let Some(err) = answer.get("error") {
        let mut e = "AWP API error (".to_owned();
        e.append(method);
        e.append("): ");
        e.append(err.str_or("message", "unknown error"));
        return Err(Failure::plain(e));
    }
    match answer.get("result") {
        Some(v) => Ok(v.clone()),
        None => {
            let mut e = "AWP API ".to_owned();
            e.append(method);
            e.append(" returned no result");
            Err(Failure::plain(e))
        },
    }
}

/// The result in the bytes of an answer to a call.
pub fn take_result(method: &str, body: &[u8]) -> (r: Result<Json, Failure>)
    ensures
        failure::answered(r) == call_result_in(method@, body@),
{
    match json::parse_bytes(body) {
        Ok(read) => read_result(method, &read.0),
        Err(cause) => Err(client::undecodable("AWP API returned invalid JSON", cause.as_str())),
    }
}

/// Whether the network's answer says that an address is registered, under either of the names
/// that it uses for this.
pub open spec fn registered_in(check: JsonView) -> bool {
    check.flag("isRegistered"@) || check.flag("isRegisteredUser"@)
}

/// Whether the network's answer says that an address is registered.
pub fn is_registered(check: &Json) -> (r: bool)
    ensures
        r == registered_in(check@),
{
    check.flag("isRegistered") || check.flag("isRegisteredUser")
}

/// Whether an address is registered, by the answer to a check.
pub fn check_registration(answer: Result<Json, Failure>) -> (r: Result<bool, Failure>)
    ensures
        match (answer, r) {
            (Ok(v), Ok(b)) => b == registered_in(v@),
            (Err(e), Err(f)) => f == e,
            _ => false,
        },
{
    match answer {
        Ok(v) => Ok(is_registered(&v)),
        Err(e) => Err(e),
    }
}

/// The parameters that name an address on the chain.
pub open spec fn address_params(address: Seq<char>) -> JsonView {
    JsonView::object().with("address"@, JsonView::String(address)).with(
        "chainId"@,
        JsonView::unsigned(CHAIN_ID),
    )
}

/// The parameters that name an address on the chain.
pub fn check_params(address: &str) -> (r: Json)
    ensures
        r@ == address_params(address@),
{
    Json::object().with("address", Json::text(address)).with("chainId", Json::unsigned(CHAIN_ID))
}

// What the wallet signs and the relay takes.

pub open spec fn field(name: Seq<char>, kind: Seq<char>) -> JsonView {
    JsonView::object().with("name"@, JsonView::String(name)).with("type"@, JsonView::String(kind))
}

pub open spec fn typed_domain(contract: Seq<char>) -> JsonView {
    JsonView::object().with("name"@, JsonView::String("AWPRegistry"@)).with(
        "version"@,
        JsonView::String("1"@),
    ).with("chainId"@, JsonView::unsigned(CHAIN_ID)).with(
        "verifyingContract"@,
        JsonView::String(contract),
    )
}

pub open spec fn typed_message(address: Seq<char>, nonce: u64, deadline: u64) -> JsonView {
    JsonView::object().with("user"@, JsonView::String(address)).with(
        "recipient"@,
        JsonView::String(address),
    ).with("nonce"@, JsonView::unsigned(nonce)).with("deadline"@, JsonView::unsigned(deadline))
}

pub open spec fn typed_types() -> JsonView {
    JsonView::object().with(
        "EIP712Domain"@,
        JsonView::Array(
            seq![
                field("name"@, "string"@),
                field("version"@, "string"@),
                field("chainId"@, "uint256"@),
                field("verifyingContract"@, "address"@),
            ],
        ),
    ).with(
        "SetRecipient"@,
        JsonView::Array(
            seq![
                field("user"@, "address"@),
                field("recipient"@, "address"@),
                field("nonce"@, "uint256"@),
                field("deadline"@, "uint256"@),
            ],
        ),
    )
}

/// The typed data that the wallet signs: the address becomes its own recipient.
pub open spec fn typed_data(
    address: Seq<char>,
    contract: Seq<char>,
    nonce: u64,
    deadline: u64,
) -> JsonView {
    JsonView::object().with("types"@, typed_types()).with(
        "primaryType"@,
        JsonView::String("SetRecipient"@),
    ).with("domain"@, typed_domain(contract)).with(
        "message"@,
        typed_message(address, nonce, deadline),
    )
}

/// What the relay takes.
pub open spec fn relay_body(
    address: Seq<char>,
    nonce: u64,
    deadline: u64,
    signature: Seq<char>,
) -> JsonView {
    typed_message(address, nonce, deadline).with("chainId"@, JsonView::unsigned(CHAIN_ID)).with(
        "signature"@,
        JsonView::String(signature),
    )
}

fn build_field(name: &str, kind: &str) -> (r: Json)
    ensures
        r@ == field(name@, kind@),
        r.whole_numbers(),
{
    Json::object().with("name", Json::text(name)).with("type", Json::text(kind))
}

fn four(a: Json, b: Json, c: Json, d: Json) -> (r: Json)
    ensures
        r@ == JsonView::Array(seq![a@, b@, c@, d@]),
        a.whole_numbers() && b.whole_numbers() && c.whole_numbers() && d.whole_numbers()
            ==> r.whole_numbers(),
{
    let mut v: Vec<Json> = Vec::new();
    v.push(a);
    v.push(b);
    v.push(c);
    v.push(d);
    proof {
        json::lemma_items_view(v@);
        assert(json::items_view(v@) =~= seq![a@, b@, c@, d@]);
    }
    Json::Array(v)
}

fn build_message(address: &str, nonce: u64, deadline: u64) -> (r: Json)
    ensures
        r@ == typed_message(address@, nonce, deadline),
        r.whole_numbers(),
{
    Json::object().with("user", Json::text(address)).with("recipient", Json::text(address)).with(
        "nonce",
        Json::unsigned(nonce),
    ).with("deadline", Json::unsigned(deadline))
}

/// The typed data that the wallet signs.
pub fn build_typed_data(address: &str, contract: &str, nonce: u64, deadline: u64) -> (r: Json)
    ensures
        r@ == typed_data(address@, contract@, nonce, deadline),
        r.whole_numbers(),
{
    let types = Json::object().with(
        "EIP712Domain",
        four(
            build_field("name", "string"),
            build_field("version", "string"),
            build_field("chainId", "uint256"),
            build_field("verifyingContract", "address"),
        ),
    ).with(
        "SetRecipient",
        four(
            build_field("user", "address"),
            build_field("recipient", "address"),
            build_field("nonce", "uint256"),
            build_field("deadline", "uint256"),
        ),
    );
    let domain = Json::object().with("name", Json::text("AWPRegistry")).with(
        "version",
        Json::text("1"),
    ).with("chainId", Json::unsigned(CHAIN_ID)).with("verifyingContract", Json::text(contract));
    Json::object().with("types", types).with("primaryType", Json::text("SetRecipient")).with(
        "domain",
        domain,
    ).with("message", build_message(address, nonce, deadline))
}

/// What the relay takes.
pub fn build_relay_body(address: &str, nonce: u64, deadline: u64, signature: &str) -> (r: Json)
    ensures
        r@ == relay_body(address@, nonce, deadline, signature@),
{
    build_message(address, nonce, deadline).with("chainId", Json::unsigned(CHAIN_ID)).with(
        "signature",
        Json::text(signature),
    )
}

/// The arguments that have the wallet sign typed data.
pub fn sign_typed_data(wallet_token: &str, data: &str) -> (r: Vec<String>)
    ensures
        r@.map_values(|s: String| s@) == seq![
            "sign-typed-data"@,
            "--token"@,
            wallet_token@,
            "--data"@,
            data@,
        ],
{
    let mut v: Vec<String> = Vec::new();
    v.push("sign-typed-data".to_owned());
    v.push("--token".to_owned());
    v.push(wallet_token.to_owned());
    v.push("--data".to_owned());
    v.push(data.to_owned());
    assert(v@.map_values(|s: String| s@) =~= seq![
        "sign-typed-data"@,
        "--token"@,
        wallet_token@,
        "--data"@,
        data@,
    ]);
    v
}

/// The signature of typed data that the wallet was asked to sign.
pub fn take_typed_signature(success: bool, stdout: &str, stderr: &str) -> (r: Result<
    String,
    Failure,
>)
    ensures
        failure::told(r) == auth::wallet_signature(
            success,
            stdout@,
            "awp-wallet sign-typed-data failed: "@ + stderr@,
        ),
{
    auth::take_signature(success, stdout, stderr, "awp-wallet sign-typed-data failed: ")
}

/// The nonce in the network's answer: a number, or a text that writes one; zero otherwise.
pub open spec fn nonce_in(v: JsonView) -> u64 {
    match v.get("nonce"@) {
        Some(n) => match n.as_u64() {
            Some(u) => u,
            None => match n.as_str() {
                Some(s) => match text::unsigned_value(s) {
                    Some(u) => u,
                    None => 0,
                },
                None => 0,
            },
        },
        None => 0,
    }
}

/// The nonce in the network's answer.
pub fn read_nonce(v: &Json) -> (r: u64)
    ensures
        r == nonce_in(v@),
{
    match v.get("nonce") {
        Some(n) => match n.as_u64() {
            Some(u) => u,
            None => match n.as_str() {
                Some(s) => match text::parse_u64(s) {
                    Some(u) => u,
                    None => 0,
                },
                None => 0,
            },
        },
        None => 0,
    }
}

// The registration.

/// Where a registration stands: what it is waiting for, and what it knows.
#[derive(Debug, PartialEq, Eq)]
pub enum Stage {
    /// Whether the address is registered.
    Check,
    /// The address of the registry contract.
    Registry,
    /// The nonce.
    Nonce { contract: String },
    /// The wallet's signature.
    Sign { nonce: u64, deadline: u64 },
    /// The relay's answer.
    Relay,
    /// Whether the address is registered by now.
    Poll { attempt: u32 },
}

#[verifier::ext_equal]
pub enum StageView {
    Check,
    Registry,
    Nonce { contract: Seq<char> },
    Sign { nonce: u64, deadline: u64 },
    Relay,
    Poll { attempt: u32 },
}

/// What a registration was waiting for.
#[derive(Debug, PartialEq, Eq)]
pub enum Event {
    /// The result of a call, and the seconds since the start of 1970.
    Called { result: Result<Json, Failure>, now_secs: i64 },
    /// The wallet's signature.
    Signed(Result<String, Failure>),
    /// The relay's answer: its status, the status in words, and its text.
    Relayed { status: u16, status_text: String, body: String },
    /// The relay could not be reached.
    RelayFailed(Failure),
}

#[verifier::ext_equal]
pub enum EventView {
    Called { result: Result<JsonView, FailureView>, now_secs: i64 },
    Signed(Result<Seq<char>, FailureView>),
    Relayed { status: u16, status_text: Seq<char>, body: Seq<char> },
    RelayFailed(FailureView),
}

/// What a registration does next.
#[derive(Debug, PartialEq, Eq)]
pub enum Action {
    /// Call the network, after a pause.
    Call { method: String, params: Json, pause_secs: u64 },
    /// Have the wallet sign typed data.
    Sign(String),
    /// Post to the relay.
    Relay { url: String, body: Json },
    /// Stop.
    Finish(Result<RegistrationResult, Failure>),
}

#[verifier::ext_equal]
pub enum ActionView {
    Call { method: Seq<char>, params: JsonView, pause_secs: u64 },
    Sign(Seq<char>),
    Relay { url: Seq<char>, body: JsonView },
    Finish(Result<RegistrationView, FailureView>),
}

impl Stage {
    pub open spec fn view(&self) -> StageView {
        match self {
            Stage::Check => StageView::Check,
            Stage::Registry => StageView::Registry,
            Stage::Nonce { contract } => StageView::Nonce { contract: contract@ },
            Stage::Sign { nonce, deadline } => StageView::Sign {
                nonce: *nonce,
                deadline: *deadline,
            },
            Stage::Relay => StageView::Relay,
            Stage::Poll { attempt } => StageView::Poll { attempt: *attempt },
        }
    }
}

impl Event {
    pub open spec fn view(&self) -> EventView {
        match self {
            Event::Called { result, now_secs } => EventView::Called {
                result: failure::answered(*result),
                now_secs: *now_secs,
            },
            Event::Signed(r) => EventView::Signed(failure::told(*r)),
            Event::Relayed { status, status_text, body } => EventView::Relayed {
                status: *status,
                status_text: status_text@,
                body: body@,
            },
            Event::RelayFailed(e) => EventView::RelayFailed(e@),
        }
    }
}

impl Action {
    pub open spec fn view(&self) -> ActionView {
        match self {
            Action::Call { method, params, pause_secs } => ActionView::Call {
                method: method@,
                params: params@,
                pause_secs: *pause_secs,
            },
            Action::Sign(d) => ActionView::Sign(d@),
            Action::Relay { url, body } => ActionView::Relay { url: url@, body: body@ },
            Action::Finish(r) => ActionView::Finish(
                match r {
                    Ok(x) => Ok(x@),
                    Err(e) => Err(e@),
                },
            ),
        }
    }
}

/// The seconds as an unsigned number, negative ones as two's complement has them.
pub open spec fn unsigned_seconds(now_secs: i64) -> int {
    if now_secs >= 0 {
        now_secs as int
    } else {
        now_secs + 0x1_0000_0000_0000_0000
    }
}

/// Whether an event is what a stage waits for. The deadline, an hour ahead, has to be within
/// range.
pub open spec fn awaits(stage: StageView, event: EventView) -> bool {
    match (stage, event) {
        (StageView::Check, EventView::Called { .. }) => true,
        (StageView::Registry, EventView::Called { .. }) => true,
        (StageView::Nonce { .. }, EventView::Called { now_secs, .. }) => unsigned_seconds(now_secs)
            + 3600 <= u64::MAX,
        (StageView::Sign { .. }, EventView::Signed(_)) => true,
        (StageView::Relay, EventView::Relayed { .. }) => true,
        (StageView::Relay, EventView::RelayFailed(_)) => true,
        (StageView::Poll { attempt }, EventView::Called { .. }) => attempt < POLL_ATTEMPTS,
        _ => false,
    }
}

pub open spec fn fail(e: FailureView) -> (Option<StageView>, ActionView) {
    (None, ActionView::Finish(Err(e)))
}

pub open spec fn done(registered: bool, auto_registered: bool, message: Seq<char>) -> (
    Option<StageView>,
    ActionView,
) {
    (
        None,
        ActionView::Finish(Ok(RegistrationView { registered, auto_registered, message })),
    )
}

/// The question whether the address is registered by now, after a pause.
pub open spec fn poll(address: Seq<char>, attempt: u32) -> (Option<StageView>, ActionView) {
    (
        Some(StageView::Poll { attempt }),
        ActionView::Call {
            method: "address.check"@,
            params: address_params(address),
            pause_secs: POLL_INTERVAL_SECS,
        },
    )
}

/// What a registration does next. Once the relay has taken the message, the registration counts
/// as done, even if the network does not confirm it in time.
pub open spec fn step(address: Seq<char>, stage: StageView, event: EventView) -> (
    Option<StageView>,
    ActionView,
) {
    match (stage, event) {
        (StageView::Check, EventView::Called { result, .. }) => match result {
            Err(e) => fail(e),
            Ok(v) => if registered_in(v) {
                done(true, false, "Already registered on AWP network."@)
            } else {
                (
                    Some(StageView::Registry),
                    ActionView::Call {
                        method: "registry.get"@,
                        params: JsonView::object().with("chainId"@, JsonView::unsigned(CHAIN_ID)),
                        pause_secs: 0,
                    },
                )
            },
        },
        (StageView::Registry, EventView::Called { result, .. }) => match result {
            Err(e) => fail(e),
            Ok(v) => match v.str_at("awpRegistry"@) {
                None => fail(
                    FailureView::plain("registry.get missing awpRegistry address"@),
                ),
                Some(contract) => (
                    Some(StageView::Nonce { contract }),
                    ActionView::Call {
                        method: "nonce.get"@,
                        params: address_params(address),
                        pause_secs: 0,
                    },
                ),
            },
        },
        (StageView::Nonce { contract }, EventView::Called { result, now_secs }) => match result {
            Err(e) => fail(e),
            Ok(v) => {
                let nonce = nonce_in(v);
                let deadline = (unsigned_seconds(now_secs) + 3600) as u64;
                (
                    Some(StageView::Sign { nonce, deadline }),
                    ActionView::Sign(
                        json::compact_text(typed_data(address, contract, nonce, deadline)),
                    ),
                )
            },
        },
        (StageView::Sign { nonce, deadline }, EventView::Signed(r)) => match r {
            Err(e) => fail(e),
            Ok(signature) => (
                Some(StageView::Relay),
                ActionView::Relay {
                    url: AWP_RELAY_BASE@ + "/relay/set-recipient"@,
                    body: relay_body(address, nonce, deadline, signature),
                },
            ),
        },
        (StageView::Relay, EventView::RelayFailed(e)) => fail(e),
        (StageView::Relay, EventView::Relayed { status, status_text, body }) => if 200 <= status
            < 300 {
            poll(address, 0)
        } else {
            fail(
                FailureView::plain(
                    "Registration relay returned HTTP "@ + status_text + ": "@ + body,
                ),
            )
        },
        (StageView::Poll { attempt }, EventView::Called { result, .. }) => if result is Ok
            && registered_in(result->Ok_0) {
            done(true, true, "Auto-registered on AWP network (gasless)."@)
        } else if attempt == POLL_ATTEMPTS - 1 {
            done(true, true, "Registration submitted. Confirmation pending."@)
        } else {
            poll(address, (attempt + 1) as u32)
        },
        _ => fail(FailureView::plain(Seq::empty())),
    }
}

/// The view of where a registration goes.
pub open spec fn turn_view(t: (Option<Stage>, Action)) -> (Option<StageView>, ActionView) {
    (
        match t.0 {
            Some(s) => Some(s@),
            None => None,
        },
        t.1@,
    )
}

fn call(stage: Stage, method: &str, params: Json, pause_secs: u64) -> (r: (Option<Stage>, Action))
    ensures
        turn_view(r) == (
            Some(stage@),
            ActionView::Call { method: method@, params: params@, pause_secs },
        ),
{
    (Some(stage), Action::Call { method: method.to_owned(), params, pause_secs })
}

fn finished(registered: bool, auto_registered: bool, message: &str) -> (r: (
    Option<Stage>,
    Action,
))
    ensures
        turn_view(r) == done(registered, auto_registered, message@),
{
    (
        None,
        Action::Finish(
            Ok(RegistrationResult { registered, auto_registered, message: message.to_owned() }),
        ),
    )
}

/// Begins a registration: is the address registered already?
pub fn begin_registration(address: &str) -> (r: (Stage, Action))
    ensures
        r.0@ == StageView::Check,
        r.1@ == (ActionView::Call {
            method: "address.check"@,
            params: address_params(address@),
            pause_secs: 0,
        }),
{
    (
        Stage::Check,
        Action::Call {
            method: "address.check".to_owned(),
            params: check_params(address),
            pause_secs: 0,
        },
    )
}

fn deadline_after(now_secs: i64) -> (r: u64)
    requires
        unsigned_seconds(now_secs) + 3600 <= u64::MAX,
    ensures
        r == unsigned_seconds(now_secs) + 3600,
{
    if now_secs >= 0 {
        now_secs as u64 + 3600
    } else {
        let back: u64 = if now_secs == i64::MIN {
            0x8000_0000_0000_0000
        } else {
            (-now_secs) as u64
        };
        (u64::MAX - back) + 3601
    }
}

/// Moves a registration on: from what it was waiting for to what it does next.
pub fn ensure_registered(address: &str, stage: Stage, event: Event) -> (r: (Option<Stage>, Action))
    requires
        awaits(stage@, event@),
    ensures
        turn_view(r) == step(address@, stage@, event@),
{
    match (stage, event) {
        (Stage::Check, Event::Called { result, .. }) => match result {
            Err(e) => (None, Action::Finish(Err(e))),
            Ok(v) => if is_registered(&v) {
                finished(true, false, "Already registered on AWP network.")
            } else {
                call(
                    Stage::Registry,
                    "registry.get",
                    Json::object().with("chainId", Json::unsigned(CHAIN_ID)),
                    0,
                )
            },
        },
        (Stage::Registry, Event::Called { result, .. }) => match result {
            Err(e) => (None, Action::Finish(Err(e))),
            Ok(v) => match v.str_at("awpRegistry") {
                None => (
                    None,
                    Action::Finish(
                        Err(
                            Failure::plain("registry.get missing awpRegistry address".to_owned()),
                        ),
                    ),
                ),
                Some(contract) => call(
                    Stage::Nonce { contract: contract.to_owned() },
                    "nonce.get",
                    check_params(address),
                    0,
                ),
            },
        },
        (Stage::Nonce { contract }, Event::Called { result, now_secs }) => match result {
            Err(e) => (None, Action::Finish(Err(e))),
            Ok(v) => {
                let nonce = read_nonce(&v);
                let deadline = deadline_after(now_secs);
                let data = build_typed_data(address, contract.as_str(), nonce, deadline);
                (Some(Stage::Sign { nonce, deadline }), Action::Sign(data.to_text()))
            },
        },
        (Stage::Sign { nonce, deadline }, Event::Signed(signed)) => match signed {
            Err(e) => (None, Action::Finish(Err(e))),
            Ok(signature) => {
                let mut url = AWP_RELAY_BASE.to_owned();
                url.append("/relay/set-recipient");
                let body = build_relay_body(address, nonce, deadline, signature.as_str());
                (Some(Stage::Relay), Action::Relay { url, body })
            },
        },
        (Stage::Relay, Event::RelayFailed(e)) => (None, Action::Finish(Err(e))),
        (Stage::Relay, Event::Relayed { status, status_text, body }) => if 200 <= status && status
            < 300 {
            call(
                Stage::Poll { attempt: 0 },
                "address.check",
                check_params(address),
                POLL_INTERVAL_SECS,
            )
        } else {
            let mut e = "Registration relay returned HTTP ".to_owned();
            e.append(status_text.as_str());
            e.append(": ");
            e.append(body.as_str());
            (None, Action::Finish(Err(Failure::plain(e))))
        },
        (Stage::Poll { attempt }, Event::Called { result, .. }) => {
            let confirmed = match result {
                Ok(v) => is_registered(&v),
                Err(_) => false,
            };
            if confirmed {
                finished(true, true, "Auto-registered on AWP network (gasless).")
            } else if attempt == POLL_ATTEMPTS - 1 {
                finished(true, true, "Registration submitted. Confirmation pending.")
            } else {
                call(
                    Stage::Poll { attempt: attempt + 1 },
                    "address.check",
                    check_params(address),
                    POLL_INTERVAL_SECS,
                )
            }
        },
        _ => (None, Action::Finish(Err(Failure::plain(String::new())))),
    }
}

/// How many more stages a registration can go through.
pub open spec fn stages_left(stage: StageView) -> int {
    match stage {
        StageView::Check => POLL_ATTEMPTS + 5,
        StageView::Registry => POLL_ATTEMPTS + 4,
        StageView::Nonce { .. } => POLL_ATTEMPTS + 3,
        StageView::Sign { .. } => POLL_ATTEMPTS + 2,
        StageView::Relay => POLL_ATTEMPTS + 1,
        StageView::Poll { attempt } => POLL_ATTEMPTS - attempt,
    }
}

/// A registration comes to an end, and one that succeeds has the address registered: it either
/// was so before, or the relay has taken the message.
pub proof fn lemma_registration_ends(address: Seq<char>, stage: StageView, event: EventView)
    requires
        awaits(stage, event),
    ensures
        match step(address, stage, event) {
            (Some(next), a) => 0 <= stages_left(next) < stages_left(stage) && !(a is Finish),
            (None, a) => a is Finish,
        },
        step(address, stage, event).1 matches ActionView::Finish(Ok(r)) ==> r.registered && (
        r.auto_registered <==> stage is Poll),
        step(address, stage, event).0 matches Some(StageView::Poll { attempt }) ==> attempt
            < POLL_ATTEMPTS,
{
}

/// An address that is registered already is not registered again: nothing is signed or relayed
/// for it.
pub proof fn lemma_registered_is_left_alone(address: Seq<char>, v: JsonView, now_secs: i64)
    requires
        registered_in(v),
    ensures
        step(
            address,
            StageView::Check,
            EventView::Called { result: Ok(v), now_secs },
        ) == done(true, false, "Already registered on AWP network."@),
{
}

/// What the relay takes is what the wallet signed: the same user, recipient, nonce and deadline.
pub proof fn lemma_relayed_as_signed(
    address: Seq<char>,
    contract: Seq<char>,
    nonce: u64,
    deadline: u64,
    signature: Seq<char>,
    key: Seq<char>,
)
    requires
        key == "user"@ || key == "recipient"@ || key == "nonce"@ || key == "deadline"@,
    ensures
        typed_data(address, contract, nonce, deadline).get("message"@) matches Some(m) && relay_body(
            address,
            nonce,
            deadline,
            signature,
        ).get(key) == m.get(key) && m.get(key) is Some,
{
    reveal_strlit("user");
    reveal_strlit("recipient");
    reveal_strlit("nonce");
    reveal_strlit("deadline");
    reveal_strlit("chainId");
    reveal_strlit("signature");
    assert("chainId"@[0] == 'c');
    assert("signature"@[0] == 's');
    assert("user"@[0] == 'u');
    assert("recipient"@[0] == 'r');
    assert("nonce"@[0] == 'n');
    assert("deadline"@[0] == 'd');
}

} // verus!
