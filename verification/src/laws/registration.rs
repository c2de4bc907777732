//! Laws of the registration on the network.

use vstd::prelude::*;

use crate::awp_register;
use crate::awp_register::{Action, ActionView, Event, EventView, RegistrationResult, RegistrationView,
    Stage, StageView};
use crate::failure::{Failure, FailureView};
use crate::json;
use crate::json::{Json, JsonNumber, JsonView};
use crate::text;

verus! {

/// An address on Base mainnet, as the network is asked about it.
pub open spec fn on_base(address: Seq<char>) -> JsonView {
    JsonView::Object(
        map![
            "address"@ => JsonView::String(address),
            "chainId"@ => JsonView::Number(JsonNumber::Unsigned(8453)),
        ],
    )
}

/// The relay has taken the message exactly with a status from 200 to 299. The network is then
/// asked for the first time, after two seconds, whether it knows the address; with any other
/// status the registration has failed, and the error quotes the relay.
pub proof fn lemma_relay_answer(
    address: Seq<char>,
    status: u16,
    status_text: Seq<char>,
    body: Seq<char>,
)
    ensures
        200 <= status <= 299 ==> awp_register::step(
            address,
            StageView::Relay,
            EventView::Relayed { status, status_text, body },
        ) == (
            Some(StageView::Poll { attempt: 0 }),
            ActionView::Call {
                method: "address.check"@,
                params: on_base(address),
                pause_secs: 2,
            },
        ),
        !(200 <= status <= 299) ==> {
            let turn = awp_register::step(
                address,
                StageView::Relay,
                EventView::Relayed { status, status_text, body },
            );
            let words = "Registration relay returned HTTP "@ + status_text + ": "@ + body;
            turn == (
                None::<StageView>,
                ActionView::Finish(Err(FailureView { detail: words, chain: words })),
            )
        },
{
    assert(awp_register::address_params(address) =~= on_base(address));
}

/// Every failure on the way, of a call, of the wallet or of the relay, ends the registration and
/// is passed on as it is, except that a question whether the address is known by now may fail.
pub proof fn lemma_failures_passed_on(
    address: Seq<char>,
    contract: Seq<char>,
    nonce: u64,
    deadline: u64,
    e: FailureView,
    now_secs: i64,
)
    ensures
        awp_register::step(
            address,
            StageView::Check,
            EventView::Called { result: Err(e), now_secs },
        ) == (None::<StageView>, ActionView::Finish(Err(e))),
        awp_register::step(
            address,
            StageView::Registry,
            EventView::Called { result: Err(e), now_secs },
        ) == (None::<StageView>, ActionView::Finish(Err(e))),
        awp_register::step(
            address,
            StageView::Nonce { contract },
            EventView::Called { result: Err(e), now_secs },
        ) == (None::<StageView>, ActionView::Finish(Err(e))),
        awp_register::step(
            address,
            StageView::Sign { nonce, deadline },
            EventView::Signed(Err(e)),
        ) == (None::<StageView>, ActionView::Finish(Err(e))),
        awp_register::step(address, StageView::Relay, EventView::RelayFailed(e)) == (
            None::<StageView>,
            ActionView::Finish(Err(e)),
        ),
{
}

/// Whether an answer to a check has a true "isRegistered" or a true "isRegisteredUser".
pub open spec fn says_registered(check: JsonView) -> bool {
    &&& check is Object
    &&& {
        ||| check->Object_0.contains_pair("isRegistered"@, JsonView::Bool(true))
        ||| check->Object_0.contains_pair("isRegisteredUser"@, JsonView::Bool(true))
    }
}

/// An address counts as registered exactly where the network says so under one of its two names
/// for it. Where it is registered at the start nothing more is done; where it is not, the registry
/// is asked for.
pub proof fn lemma_first_check(address: Seq<char>, check: JsonView, now_secs: i64)
    ensures
        awp_register::registered_in(check) <==> says_registered(check),
        says_registered(check) ==> awp_register::step(
            address,
            StageView::Check,
            EventView::Called { result: Ok(check), now_secs },
        ) == (
            None::<StageView>,
            ActionView::Finish(
                Ok(
                    RegistrationView {
                        registered: true,
                        auto_registered: false,
                        message: "Already registered on AWP network."@,
                    },
                ),
            ),
        ),
        !says_registered(check) ==> awp_register::step(
            address,
            StageView::Check,
            EventView::Called { result: Ok(check), now_secs },
        ) == (
            Some(StageView::Registry),
            ActionView::Call {
                method: "registry.get"@,
                params: JsonView::Object(
                    map!["chainId"@ => JsonView::Number(JsonNumber::Unsigned(8453))],
                ),
                pause_secs: 0,
            },
        ),
{
}

/// The contract is the text under "awpRegistry" of the registry, and the nonce of the address is
/// asked for next; a registry without it ends the registration.
pub proof fn lemma_contract(
    address: Seq<char>,
    registry: Map<Seq<char>, JsonView>,
    contract: Seq<char>,
    now_secs: i64,
)
    ensures
        registry.contains_pair("awpRegistry"@, JsonView::String(contract)) ==> awp_register::step(
            address,
            StageView::Registry,
            EventView::Called { result: Ok(JsonView::Object(registry)), now_secs },
        ) == (
            Some(StageView::Nonce { contract }),
            ActionView::Call { method: "nonce.get"@, params: on_base(address), pause_secs: 0 },
        ),
        !registry.contains_key("awpRegistry"@) ==> awp_register::step(
            address,
            StageView::Registry,
            EventView::Called { result: Ok(JsonView::Object(registry)), now_secs },
        ) == (
            None::<StageView>,
            ActionView::Finish(
                Err(
                    FailureView {
                        detail: "registry.get missing awpRegistry address"@,
                        chain: "registry.get missing awpRegistry address"@,
                    },
                ),
            ),
        ),
{
    assert(awp_register::address_params(address) =~= on_base(address));
}

/// The nonce is the number under "nonce", whether it is written as a number or as a text, and
/// zero where there is none.
pub proof fn lemma_nonce(m: Map<Seq<char>, JsonView>, u: u64)
    ensures
        m.contains_pair("nonce"@, JsonView::Number(JsonNumber::Unsigned(u)))
            ==> awp_register::nonce_in(JsonView::Object(m)) == u,
        m.contains_pair("nonce"@, JsonView::String(text::decimal(u as nat)))
            ==> awp_register::nonce_in(JsonView::Object(m)) == u,
        !m.contains_key("nonce"@) ==> awp_register::nonce_in(JsonView::Object(m)) == 0,
        m.contains_key("nonce"@) && !(m["nonce"@] is Number) && !(m["nonce"@] is String)
            ==> awp_register::nonce_in(JsonView::Object(m)) == 0,
        m.contains_key("nonce"@) && m["nonce"@] is Number && !(m["nonce"@]->Number_0 is Unsigned)
            ==> awp_register::nonce_in(JsonView::Object(m)) == 0,
        m.contains_key("nonce"@) && m["nonce"@] is String ==> (match text::unsigned_value(
            m["nonce"@]->String_0,
        ) {
            Some(n) => awp_register::nonce_in(JsonView::Object(m)) == n,
            None => awp_register::nonce_in(JsonView::Object(m)) == 0,
        }),
{
    text::lemma_numeral_read_back(u);
}

/// One entry of the description of a type.
pub open spec fn entry(name: Seq<char>, kind: Seq<char>) -> JsonView {
    JsonView::Object(
        map![
            "name"@ => JsonView::String(name),
            "type"@ => JsonView::String(kind),
        ],
    )
}

/// What the wallet is given to sign names the address as user and as recipient, the nonce that
/// the network gave, a deadline one hour ahead, and the contract of the registry on Base mainnet.
/// Seconds before 1970 count as in two's complement.
pub proof fn lemma_what_is_signed(
    address: Seq<char>,
    contract: Seq<char>,
    answer: JsonView,
    now_secs: i64,
)
    requires
        now_secs < -3600 || now_secs >= 0,
    ensures
        ({
            let nonce = awp_register::nonce_in(answer);
            let deadline = (if now_secs < 0 {
                0x1_0000_0000_0000_0000 + now_secs + 3600
            } else {
                now_secs + 3600
            }) as u64;
            let data = JsonView::Object(
                map![
                    "types"@ => JsonView::Object(
                        map![
                            "EIP712Domain"@ => JsonView::Array(
                                seq![
                                    entry("name"@, "string"@),
                                    entry("version"@, "string"@),
                                    entry("chainId"@, "uint256"@),
                                    entry("verifyingContract"@, "address"@),
                                ],
                            ),
                            "SetRecipient"@ => JsonView::Array(
                                seq![
                                    entry("user"@, "address"@),
                                    entry("recipient"@, "address"@),
                                    entry("nonce"@, "uint256"@),
                                    entry("deadline"@, "uint256"@),
                                ],
                            ),
                        ],
                    ),
                    "primaryType"@ => JsonView::String("SetRecipient"@),
                    "domain"@ => JsonView::Object(
                        map![
                            "name"@ => JsonView::String("AWPRegistry"@),
                            "version"@ => JsonView::String("1"@),
                            "chainId"@ => JsonView::Number(JsonNumber::Unsigned(8453)),
                            "verifyingContract"@ => JsonView::String(contract),
                        ],
                    ),
                    "message"@ => JsonView::Object(
                        map![
                            "user"@ => JsonView::String(address),
                            "recipient"@ => JsonView::String(address),
                            "nonce"@ => JsonView::Number(JsonNumber::Unsigned(nonce)),
                            "deadline"@ => JsonView::Number(JsonNumber::Unsigned(deadline)),
                        ],
                    ),
                ],
            );
            awp_register::step(
                address,
                StageView::Nonce { contract },
                EventView::Called { result: Ok(answer), now_secs },
            ) == (
                Some(StageView::Sign { nonce, deadline }),
                ActionView::Sign(json::compact_text(data)),
            )
        }),
{
}

/// The relay gets the address as user and as recipient, the nonce and the deadline that were
/// signed, the chain and the signature.
pub proof fn lemma_what_is_relayed(
    address: Seq<char>,
    nonce: u64,
    deadline: u64,
    signature: Seq<char>,
)
    ensures
        awp_register::step(
            address,
            StageView::Sign { nonce, deadline },
            EventView::Signed(Ok(signature)),
        ) == (
            Some(StageView::Relay),
            ActionView::Relay {
                url: "https://api.awp.sh/api/relay/set-recipient"@,
                body: JsonView::Object(
                    map![
                        "user"@ => JsonView::String(address),
                        "recipient"@ => JsonView::String(address),
                        "nonce"@ => JsonView::Number(JsonNumber::Unsigned(nonce)),
                        "deadline"@ => JsonView::Number(JsonNumber::Unsigned(deadline)),
                        "chainId"@ => JsonView::Number(JsonNumber::Unsigned(8453)),
                        "signature"@ => JsonView::String(signature),
                    ],
                ),
            },
        ),
{
    reveal_strlit("https://api.awp.sh/api");
    reveal_strlit("/relay/set-recipient");
    reveal_strlit("https://api.awp.sh/api/relay/set-recipient");
    assert("https://api.awp.sh/api"@ + "/relay/set-recipient"@
        =~= "https://api.awp.sh/api/relay/set-recipient"@);
}

/// The network is asked five times whether it knows the address. The first answer that says so
/// ends the registration as confirmed; where none of the five does, the registration ends as
/// submitted, since the relay has taken it. A question that fails counts as one that says no.
pub proof fn lemma_polls(
    address: Seq<char>,
    attempt: u32,
    result: Result<JsonView, FailureView>,
    now_secs: i64,
)
    requires
        attempt < 5,
    ensures
        ({
            let turn = awp_register::step(
                address,
                StageView::Poll { attempt },
                EventView::Called { result, now_secs },
            );
            if result is Ok && says_registered(result->Ok_0) {
                turn == (
                    None::<StageView>,
                    ActionView::Finish(
                        Ok(
                            RegistrationView {
                                registered: true,
                                auto_registered: true,
                                message: "Auto-registered on AWP network (gasless)."@,
                            },
                        ),
                    ),
                )
            } else if attempt < 4 {
                turn == (
                    Some(StageView::Poll { attempt: (attempt + 1) as u32 }),
                    ActionView::Call {
                        method: "address.check"@,
                        params: on_base(address),
                        pause_secs: 2,
                    },
                )
            } else {
                turn == (
                    None::<StageView>,
                    ActionView::Finish(
                        Ok(
                            RegistrationView {
                                registered: true,
                                auto_registered: true,
                                message: "Registration submitted. Confirmation pending."@,
                            },
                        ),
                    ),
                )
            }
        }),
        awp_register::awaits(
            StageView::Poll { attempt },
            EventView::Called { result, now_secs },
        ),
{
    assert(awp_register::address_params(address) =~= on_base(address));
}

/// A call carries its method and its parameters in a request of JSON-RPC 2.0.
pub proof fn lemma_call(method: Seq<char>, params: JsonView, address: Seq<char>)
    ensures
        awp_register::call_body(method, params) == JsonView::Object(
            map![
                "jsonrpc"@ => JsonView::String("2.0"@),
                "method"@ => JsonView::String(method),
                "params"@ => params,
                "id"@ => JsonView::Number(JsonNumber::Unsigned(1)),
            ],
        ),
        awp_register::address_params(address) == on_base(address),
{
}

/// A call gives what stands under "result", unless the answer has an "error": then it fails, with
/// the error's message.
pub proof fn lemma_call_result(
    method: Seq<char>,
    answer: Map<Seq<char>, JsonView>,
    message: Seq<char>,
)
    ensures
        answer.contains_key("result"@) && !answer.contains_key("error"@)
            ==> awp_register::call_result(method, JsonView::Object(answer)) == Ok::<
            JsonView,
            FailureView,
        >(answer["result"@]),
        answer.contains_key("error"@) && answer["error"@] is Object
            && answer["error"@]->Object_0.contains_pair("message"@, JsonView::String(message)) ==> {
            let words = "AWP API error ("@ + method + "): "@ + message;
            awp_register::call_result(method, JsonView::Object(answer)) == Err::<
                JsonView,
                FailureView,
            >(FailureView { detail: words, chain: words })
        },
        answer.contains_key("error"@) && !(answer["error"@] is Object) ==> {
            let words = "AWP API error ("@ + method + "): "@ + "unknown error"@;
            awp_register::call_result(method, JsonView::Object(answer)) == Err::<
                JsonView,
                FailureView,
            >(FailureView { detail: words, chain: words })
        },
        !answer.contains_key("result"@) && !answer.contains_key("error"@) ==> {
            let words = "AWP API "@ + method + " returned no result"@;
            awp_register::call_result(method, JsonView::Object(answer)) == Err::<
                JsonView,
                FailureView,
            >(FailureView { detail: words, chain: words })
        },
{
}

/// Bytes that are JSON are taken as the answer to a call; bytes that are not fail it.
pub proof fn lemma_call_bytes(method: Seq<char>, body: Seq<u8>, v: JsonView, cause: Seq<char>)
    ensures
        json::bytes_read(body) == Ok::<JsonView, Seq<char>>(v) ==> awp_register::call_result_in(
            method,
            body,
        ) == awp_register::call_result(method, v),
        json::bytes_read(body) == Err::<JsonView, Seq<char>>(cause)
            ==> awp_register::call_result_in(method, body) is Err
            && awp_register::call_result_in(method, body)->Err_0.detail
            == "AWP API returned invalid JSON"@,
{
}

/// A registration takes whatever comes of what it waits for, and asks where the network is.
pub proof fn lemma_whatever_comes(
    contract: Seq<char>,
    nonce: u64,
    deadline: u64,
    result: Result<JsonView, FailureView>,
    now_secs: i64,
    signed: Result<Seq<char>, FailureView>,
    status: u16,
    status_text: Seq<char>,
    body: Seq<char>,
    e: FailureView,
)
    ensures
        awp_register::awaits(StageView::Check, EventView::Called { result, now_secs }),
        awp_register::awaits(StageView::Registry, EventView::Called { result, now_secs }),
        now_secs >= 0 ==> awp_register::awaits(
            StageView::Nonce { contract },
            EventView::Called { result, now_secs },
        ),
        awp_register::awaits(StageView::Sign { nonce, deadline }, EventView::Signed(signed)),
        awp_register::awaits(StageView::Relay, EventView::Relayed { status, status_text, body }),
        awp_register::awaits(StageView::Relay, EventView::RelayFailed(e)),
        awp_register::AWP_API_BASE@ == "https://api.awp.sh/v2"@,
{
}

/// Stages, events and actions stand for what they hold.
pub proof fn lemma_registration_values(
    contract: String,
    nonce: u64,
    deadline: u64,
    attempt: u32,
    v: Json,
    e: Failure,
    status: u16,
    words: String,
    body: String,
    r: RegistrationResult,
    now_secs: i64,
)
    ensures
        Stage::Check@ == StageView::Check,
        Stage::Registry@ == StageView::Registry,
        (Stage::Nonce { contract })@ == (StageView::Nonce { contract: contract@ }),
        (Stage::Sign { nonce, deadline })@ == (StageView::Sign { nonce, deadline }),
        Stage::Relay@ == StageView::Relay,
        (Stage::Poll { attempt })@ == (StageView::Poll { attempt }),
        (Event::Called { result: Ok(v), now_secs })@ == (EventView::Called {
            result: Ok(v@),
            now_secs,
        }),
        (Event::Called { result: Err(e), now_secs })@ == (EventView::Called {
            result: Err(FailureView { detail: e.detail@, chain: e.chain@ }),
            now_secs,
        }),
        Event::Signed(Ok(words))@ == EventView::Signed(Ok(words@)),
        Event::Signed(Err(e))@ == EventView::Signed(
            Err(FailureView { detail: e.detail@, chain: e.chain@ }),
        ),
        (Event::Relayed { status, status_text: words, body })@ == (EventView::Relayed {
            status,
            status_text: words@,
            body: body@,
        }),
        Event::RelayFailed(e)@ == EventView::RelayFailed(
            FailureView { detail: e.detail@, chain: e.chain@ },
        ),
        (Action::Call { method: words, params: v, pause_secs: nonce })@ == (ActionView::Call {
            method: words@,
            params: v@,
            pause_secs: nonce,
        }),
        Action::Sign(words)@ == ActionView::Sign(words@),
        (Action::Relay { url: words, body: v })@ == (ActionView::Relay { url: words@, body: v@ }),
        Action::Finish(Ok(r))@ == ActionView::Finish(
            Ok(
                RegistrationView {
                    registered: r.registered,
                    auto_registered: r.auto_registered,
                    message: r.message@,
                },
            ),
        ),
        Action::Finish(Err(e))@ == ActionView::Finish(
            Err(FailureView { detail: e.detail@, chain: e.chain@ }),
        ),
{
}

} // verus!
