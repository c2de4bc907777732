//! Laws of calls: what the functions of the library give back for what they are given.

use vstd::arithmetic::power2::{lemma2_to64, pow2};
use vstd::prelude::*;

use crate::auth;
use crate::auth::{AddressSource, AuthHeaders, Headers, SigningMode};
use crate::awp_register;
use crate::client;
use crate::client::{ApiClient, HttpRequest};
use crate::cmd::loop_worker;
use crate::cmd::openclaw;
use crate::cmd::preflight;
use crate::cmd::prompt;
use crate::cmd::prompt::Candle;
use crate::cmd::reply;
use crate::cmd::reply::{LlmReply, ReplyError};
use crate::cmd::result;
use crate::cmd::server_error;
use crate::cmd::set_persona;
use crate::cmd::status;
use crate::cmd::step::Step;
use crate::cmd::submit;
use crate::cmd::submit::SubmitArgs;
use crate::double;
use crate::failure::Failure;
use crate::json;
use crate::json::{Json, JsonNumber, JsonView};
use crate::laws::prompts;
use crate::laws::registration;
use crate::laws::rounds;
use crate::laws::submissions;
use crate::laws::texts;
use crate::output::Output;
use crate::places;
use crate::places::Place;
use crate::text;
use crate::time;

verus! {

/// What a list of texts says.
pub open spec fn words(list: Seq<String>) -> Seq<Seq<char>> {
    list.map_values(|s: String| s@)
}

// The coordinator.

/// The coordinator is there exactly with a status from 200 to 299.
pub proof fn lemma_coordinator_there(status: u16, status_text: &str, r: Result<(), Failure>)
    requires
        call_ensures(client::check_server, (status, status_text), r),
    ensures
        r is Ok <==> 200 <= status <= 299,
        r matches Err(f) ==> f@.detail == "Coordinator returned HTTP "@ + status_text@ && f@.chain
            == f@.detail,
{
}

/// Whether the coordinator is there is asked below its own URL.
pub proof fn lemma_coordinator_url(base_url: &str, r: String)
    requires
        call_ensures(client::check_server_url, (base_url,), r),
    ensures
        r@ == base_url@ + "/api/v1/feed/stats"@,
{
}

/// A client has the URL and the address that it is made of; without an address there is none, and
/// the error tells why.
pub proof fn lemma_client_made(
    base_url: String,
    address: Result<String, Failure>,
    r: Result<ApiClient, Failure>,
)
    requires
        call_ensures(ApiClient::new, (base_url, address), r),
    ensures
        r is Ok <==> address is Ok,
        r matches Ok(c) ==> c.base_url == base_url && c.address == address->Ok_0,
        r matches Err(f) ==> f@.detail
            == "Could not determine wallet address. Set AWP_ADDRESS, AWP_PRIVATE_KEY, or configure awp-wallet."@
            && f@.chain == f@.detail + ": "@ + address->Err_0.chain@,
{
}

/// A request goes to the path below the client's URL. One that only fetches has no headers and no
/// body; a signed one has the three headers; only one that posts has a body, and it is the one
/// that was given.
pub proof fn lemma_requests_made(
    c: &ApiClient,
    path: &str,
    auth: &AuthHeaders,
    body: Json,
    fetch: HttpRequest,
    signed: HttpRequest,
    post: HttpRequest,
)
    requires
        call_ensures(ApiClient::get, (c, path), fetch),
        call_ensures(ApiClient::get_auth, (c, path, auth), signed),
        call_ensures(ApiClient::post_auth, (c, path, auth, body), post),
    ensures
        fetch@.url == c.base_url@ + path@,
        signed@.url == fetch@.url,
        post@.url == fetch@.url,
        fetch@.headers.len() == 0,
        signed@.headers == seq![
            ("X-AWP-Address"@, auth.address@),
            ("X-AWP-Timestamp"@, auth.timestamp@),
            ("X-AWP-Signature"@, auth.signature@),
        ],
        post@.headers == signed@.headers,
        fetch@.body is None,
        signed@.body is None,
        post@.body == Some(body@),
{
}

/// An answer counts where its bytes are JSON and its status is 200 or 201.
pub proof fn lemma_answer_taken(
    status: u16,
    status_text: &str,
    body: &[u8],
    r: Result<Json, Failure>,
)
    requires
        call_ensures(client::parse_response, (status, status_text, body), r),
    ensures
        r is Ok <==> json::bytes_read(body@) is Ok && (status == 200 || status == 201),
        r matches Ok(v) ==> json::bytes_read(body@) == Ok::<JsonView, Seq<char>>(v@),
{
}

// Registration.

/// From the relay's answer on: with any status from 200 to 299 the network is asked whether it
/// knows the address, and with any other the registration ends in an error.
pub proof fn lemma_relay_answered(
    address: &str,
    status: u16,
    status_text: String,
    body: String,
    r: (Option<awp_register::Stage>, awp_register::Action),
)
    requires
        call_ensures(
            awp_register::ensure_registered,
            (
                address,
                awp_register::Stage::Relay,
                awp_register::Event::Relayed { status, status_text, body },
            ),
            r,
        ),
    ensures
        200 <= status <= 299 ==> r.0 == Some(awp_register::Stage::Poll { attempt: 0 }) && r.1@ == (
        awp_register::ActionView::Call {
            method: "address.check"@,
            params: registration::on_base(address@),
            pause_secs: 2,
        }),
        !(200 <= status <= 299) ==> r.0 is None && r.1 is Finish && r.1->Finish_0 is Err,
{
    registration::lemma_relay_answer(address@, status, status_text@, body@);
    if 200 <= status <= 299 {
        assert(r.0->0@ == (awp_register::StageView::Poll { attempt: 0 }));
    }
}

/// A registration begins with the question whether the address is known, at once.
pub proof fn lemma_registration_begun(
    address: &str,
    r: (awp_register::Stage, awp_register::Action),
)
    requires
        call_ensures(awp_register::begin_registration, (address,), r),
    ensures
        r.0@ == awp_register::StageView::Check,
        r.1@ == (awp_register::ActionView::Call {
            method: "address.check"@,
            params: registration::on_base(address@),
            pause_secs: 0,
        }),
{
    registration::lemma_call("address.check"@, JsonView::Null, address@);
}

/// The wallet signs typed data with its token.
pub proof fn lemma_typed_data_args(token: &str, data: &str, r: Vec<String>)
    requires
        call_ensures(awp_register::sign_typed_data, (token, data), r),
    ensures
        words(r@) == seq!["sign-typed-data"@, "--token"@, token@, "--data"@, data@],
{
}

/// A check says what the network says, and fails where the network could not be asked.
pub proof fn lemma_registration_checked(answer: Result<Json, Failure>, r: Result<bool, Failure>)
    requires
        call_ensures(awp_register::check_registration, (answer,), r),
    ensures
        answer is Err ==> r is Err && r->Err_0 == answer->Err_0,
        answer is Ok ==> r == Ok::<bool, Failure>(
            registration::says_registered(answer->Ok_0@),
        ),
{
}

/// The wallet's signature of typed data is the text under "signature" of what it wrote.
pub proof fn lemma_typed_signature(
    stdout: &str,
    stderr: &str,
    m: Map<Seq<char>, JsonView>,
    taken: Result<String, Failure>,
    failed: Result<String, Failure>,
)
    requires
        json::text_read(stdout@) == Ok::<JsonView, Seq<char>>(JsonView::Object(m)),
        call_ensures(awp_register::take_typed_signature, (true, stdout, stderr), taken),
        call_ensures(awp_register::take_typed_signature, (false, stdout, stderr), failed),
    ensures
        taken is Ok <==> m.contains_key("signature"@) && m["signature"@] is String,
        taken matches Ok(s) ==> m["signature"@] == JsonView::String(s@),
        failed is Err,
        failed->Err_0@.detail == "awp-wallet sign-typed-data failed: "@ + stderr@,
{
}

// Signing.

/// The wallet's signature of a message is the text under "signature" of what it wrote.
pub proof fn lemma_message_signature(
    stdout: &str,
    stderr: &str,
    m: Map<Seq<char>, JsonView>,
    taken: Result<String, Failure>,
    failed: Result<String, Failure>,
)
    requires
        json::text_read(stdout@) == Ok::<JsonView, Seq<char>>(JsonView::Object(m)),
        call_ensures(auth::take_message_signature, (true, stdout, stderr), taken),
        call_ensures(auth::take_message_signature, (false, stdout, stderr), failed),
    ensures
        taken is Ok <==> m.contains_key("signature"@) && m["signature"@] is String,
        taken matches Ok(s) ==> m["signature"@] == JsonView::String(s@),
        failed is Err,
        failed->Err_0@.detail == "awp-wallet sign failed: "@ + stderr@,
{
}

/// The headers for a request that the wallet signed have the address, the time and the signature in
/// their places.
pub proof fn lemma_wallet_headers(
    address: &str,
    timestamp: String,
    signature: String,
    r: AuthHeaders,
)
    requires
        call_ensures(auth::wallet_headers, (address, timestamp, signature), r),
    ensures
        r.address@ == address@,
        r.timestamp@ == timestamp@,
        r.signature@ == signature@,
{
    assert(r@.address == r.address@);
}

/// Without a key the mode is told by the setting, and with one it is the key.
pub proof fn lemma_signing_mode(setting: &str, keyed: SigningMode, plain: SigningMode, unset: SigningMode)
    requires
        call_ensures(auth::signing_mode, (true, Some(setting)), keyed),
        call_ensures(auth::signing_mode, (false, Some(setting)), plain),
        call_ensures(auth::signing_mode, (false, None), unset),
    ensures
        keyed == SigningMode::PrivateKey,
        plain == (if setting@ == "true"@ || setting@ == "1"@ {
            SigningMode::DevMode
        } else {
            SigningMode::Wallet
        }),
        unset == SigningMode::Wallet,
{
}

/// The address that is given is the agent's, in lower case; without one and without a key the
/// wallet is asked.
pub proof fn lemma_address_given(address: &str, given: AddressSource, unset: AddressSource)
    requires
        call_ensures(auth::get_address, (Some(address), None), given),
        call_ensures(auth::get_address, (None, None), unset),
    ensures
        given is Known,
        given->Known_0@ == text::lower(address@),
        unset is AskWallet,
{
    assert(given@ == auth::AddressSourceView::Known(text::lower(address@)));
}

/// The time that is signed is the one of the request, in RFC 3339 form.
pub proof fn lemma_time_signed(address: &str, now_secs: i64, r: Headers)
    requires
        call_ensures(auth::build_auth_headers, (address, now_secs, None, None), r),
    ensures
        time::rfc3339(now_secs) is None ==> r is BadClock,
        time::rfc3339(now_secs) is Some ==> r is AskWallet && r->timestamp@ == time::rfc3339(
            now_secs,
        )->0 && r->message@ == "AWP Predict WorkNet\nAddress: "@ + text::lower(address@)
            + "\nTimestamp: "@ + r->timestamp@,
{
    match r {
        Headers::AskWallet { timestamp, message } => {
            assert(r@ == (auth::HeadersView::AskWallet {
                timestamp: timestamp@,
                message: message@,
            }));
        },
        _ => {},
    }
}

/// What is signed with a key is the address and the time, and a signature has 132 characters.
pub proof fn lemma_signature_is_of_the_address(
    pk_hex: &str,
    addr_lower: &str,
    timestamp: &str,
    r: Result<String, auth::KeyError>,
)
    requires
        call_ensures(auth::sign_with_key, (pk_hex, addr_lower, timestamp), r),
    ensures
        r matches Ok(s) ==> s@.len() == 132 && auth::signed_with_key(
            pk_hex@,
            addr_lower@,
            timestamp@,
        ) == Ok::<Seq<char>, auth::KeyErrorView>(s@),
        r is Err ==> auth::signed_with_key(pk_hex@, addr_lower@, timestamp@) is Err,
{
}

// The loop.

/// The market that the model names is posted to where a recommended one has it, under either key;
/// the direction, the reasoning and the tickets are those of the decision.
pub proof fn lemma_decision_taken(
    markets: &Vec<Json>,
    market_id: &str,
    stake: u32,
    d: LlmReply,
    r: (Option<loop_worker::Stage>, loop_worker::Action),
    i: int,
)
    requires
        call_ensures(loop_worker::take_decision, (markets, market_id, stake, d), r),
        0 <= i < markets@.len(),
        d.market_id is Some,
        markets@[i]@.get("market_id"@) == Some(JsonView::String(d.market_id->0@))
            || markets@[i]@.get("id"@) == Some(JsonView::String(d.market_id->0@)),
    ensures
        loop_worker::turn_view(r) == rounds::posting(
            d.market_id->0@,
            d.direction@,
            match d.tickets {
                Some(n) => n,
                None => stake,
            },
            d.reasoning@,
        ),
        r.1 is Post,
        r.1->Post_body@.get("market_id"@) == Some(JsonView::String(d.market_id->0@)),
{
    json::lemma_items_view(markets@);
    rounds::lemma_named_market_is_used(
        json::items_view(markets@),
        market_id@,
        stake,
        Seq::empty(),
        d@,
        d.market_id->0@,
        i,
    );
    loop_worker::lemma_keys_differ();
}

/// Pauses between rounds, in seconds.
pub proof fn lemma_pauses(base: u64, consecutive: u32, asked: u64, hinted: u64, plain: u64)
    requires
        call_ensures(loop_worker::calculate_backoff, (base, consecutive, Some(asked)), hinted),
        call_ensures(loop_worker::calculate_backoff, (base, consecutive, None), plain),
    ensures
        hinted == asked,
        ({
            let times = pow2(
                if consecutive < 4 {
                    consecutive as nat
                } else {
                    4
                },
            );
            plain == (if base * times < 600 {
                base * times
            } else {
                600
            })
        }),
{
    lemma2_to64();
}

/// A round begins with the question how the agent stands, and ends at once where there is no client.
pub proof fn lemma_round_begun(
    r: (loop_worker::Stage, loop_worker::Action),
    e: &str,
    failed: loop_worker::IterationResult,
)
    requires
        call_ensures(loop_worker::begin_iteration, (), r),
        call_ensures(loop_worker::client_failed, (e,), failed),
    ensures
        r.0@ == loop_worker::StageView::Status,
        r.1@ == loop_worker::ActionView::GetAuth("/api/v1/agents/me/status"@),
        failed@ == (loop_worker::IterationView::Error {
            reason: "API client init failed: "@ + e@,
        }),
{
}

/// A loop begins with nothing counted.
pub proof fn lemma_pace_begun(r: loop_worker::Pace)
    requires
        call_ensures(loop_worker::Pace::new, (), r),
    ensures
        r.iteration == 0,
        r.consecutive_empty == 0,
        r.consecutive_errors == 0,
{
}

/// A round is begun as long as the limit is not passed; no limit is set where it is zero. A round
/// that is begun counts one more, and leaves the failures as they are.
pub proof fn lemma_rounds_up_to_the_limit(args: &loop_worker::LoopArgs, go: bool)
    ensures
        forall|pace: &mut loop_worker::Pace| #[trigger]
            call_ensures(loop_worker::Pace::begin, (pace, args), go) && pace.iteration
                < 0xffff_ffff_ffff_ffff ==> {
                &&& go <==> args.max_iterations == 0 || pace.iteration + 1 <= args.max_iterations
                &&& final(pace).iteration == pace.iteration + 1
                &&& final(pace).consecutive_empty == pace.consecutive_empty
                &&& final(pace).consecutive_errors == pace.consecutive_errors
            },
{
}

/// A recommendation counts unless its action is "skip", and a market stays open long enough with
/// more than 120 seconds.
pub proof fn lemma_choice_of_markets(v: &Json, counts: bool, seconds: i64, long: bool, unknown: bool)
    requires
        call_ensures(loop_worker::is_actionable, (v,), counts),
        call_ensures(loop_worker::open_long_enough, (Some(seconds),), long),
        call_ensures(loop_worker::open_long_enough, (None,), unknown),
    ensures
        counts <==> v@.get("action"@) != Some(JsonView::String("skip"@)),
        long <==> seconds >= 121,
        !unknown,
{
}

// What the model wrote and is told.

/// An answer is taken exactly where its direction lowers to up or down and its reasoning has 80
/// characters or more; it is then taken with all of the reasoning.
pub proof fn lemma_reply_read(
    v: &Json,
    direction: Seq<char>,
    reasoning: Seq<char>,
    r: Result<LlmReply, ReplyError>,
)
    requires
        call_ensures(reply::read_reply, (v,), r),
        v@.get("direction"@) == Some(JsonView::String(direction)),
        v@.get("reasoning"@) == Some(JsonView::String(reasoning)),
    ensures
        r is Ok <==> (text::lower(direction) == "up"@ || text::lower(direction) == "down"@)
            && reasoning.len() >= 80,
        r matches Ok(d) ==> d.direction@ == text::lower(direction) && d.reasoning@ == reasoning,
{
    if let Ok(d) = r {
        assert(d@.direction == d.direction@);
        assert(d@.reasoning == d.reasoning@);
    }
}

/// The tickets of a whole number are that number, between one and what 32 bits can tell.
pub proof fn lemma_tickets_read(u: u64, i: i64, many: u32, negative: u32)
    requires
        call_ensures(reply::tickets_from, (JsonNumber::Unsigned(u),), many),
        call_ensures(reply::tickets_from, (JsonNumber::Negative(i),), negative),
    ensures
        many == (if u < 1 {
            1
        } else if u > 0xffff_ffff {
            0xffff_ffff
        } else {
            u as int
        }),
        negative == 1,
{
}

/// The candles of a price history of objects are the last twenty, in order, each with the numbers
/// that its object has under their names.
pub proof fn lemma_candles_read(klines: &Option<Vec<Json>>, r: Vec<Candle>, i: int)
    requires
        call_ensures(prompt::candles, (klines,), r),
        *klines is Some,
        forall|j: int| 0 <= j < klines->0@.len() ==> (#[trigger] klines->0@[j])@ is Object,
        0 <= i < r@.len(),
    ensures
        r@.len() == prompts::up_to(klines->0@.len(), 20),
        ({
            let v = klines->0@[klines->0@.len() - r@.len() + i]@;
            let c = r@[i];
            &&& c.open_time == v.i64_or("open_time"@, 0)
            &&& c.open == v.number_at("open"@)
            &&& c.high == v.number_at("high"@)
            &&& c.low == v.number_at("low"@)
            &&& c.close == v.number_at("close"@)
            &&& c.volume == v.number_at("volume"@)
        }),
{
    let list = json::items_view(klines->0@);
    json::lemma_items_view(klines->0@);
    assert forall|j: int| 0 <= j < list.len() implies (#[trigger] list[j]) is Object by {
        assert(klines->0@[j]@ is Object);
    }
    prompt::lemma_few_candles(Some(list));
    if list.len() > 0 {
        prompts::lemma_last_candles_shown(list, 0);
        prompts::lemma_last_candles_shown(list, i);
    } else {
        assert(prompt::candles_in(prompt::last_few(list, 20)).len() == 0);
    }
}

// The tool that runs the model.

/// The arguments for the tool: to list the agents, to clear the sessions of one, and to put a
/// prompt to it.
pub proof fn lemma_tool_args(
    agent_id: &str,
    asked: &str,
    list: Vec<String>,
    purge: Vec<String>,
    ask: Vec<String>,
)
    requires
        call_ensures(openclaw::list_agents_args, (), list),
        call_ensures(openclaw::purge_args, (agent_id,), purge),
        call_ensures(openclaw::ask_args, (agent_id, asked), ask),
    ensures
        words(list@) == seq!["agents"@, "list"@],
        words(purge@) == seq!["sessions"@, "purge"@, "--agent"@, agent_id@, "--yes"@],
        words(ask@) == seq!["agent"@, "--agent"@, agent_id@, "--message"@, asked@],
{
    assert(words(list@) == openclaw::args_view(list@));
    assert(words(purge@) == openclaw::args_view(purge@));
    assert(words(ask@) == openclaw::args_view(ask@));
}

// Commands.

/// A prediction is reported as correct exactly where its direction is the market's outcome.
pub proof fn lemma_report(
    market_id: &str,
    market: &Json,
    pred: &Json,
    outcome: Seq<char>,
    direction: Seq<char>,
    r: Output,
)
    requires
        call_ensures(result::report, (market_id, market, Some(pred)), r),
        market@.get("outcome"@) == Some(JsonView::String(outcome)),
        pred@.get("direction"@) == Some(JsonView::String(direction)),
    ensures
        r.ok,
        r.data is Some,
        r.data->0@.get("correct"@) == Some(JsonView::Bool(direction == outcome)),
        r.data->0@.get("your_prediction"@) == Some(JsonView::String(direction)),
        r.data->0@.get("outcome"@) == Some(JsonView::String(outcome)),
{
    crate::laws::outcomes::lemma_correct_is_direction_met(
        market_id@,
        market@->Object_0,
        pred@->Object_0,
        outcome,
        direction,
    );
    assert(r@.ok == r.ok);
}

/// The path of a market ends in its id.
pub proof fn lemma_market_path(market_id: &str, r: String)
    requires
        call_ensures(result::market_path, (market_id,), r),
    ensures
        r@ == "/api/v1/markets/"@ + market_id@,
{
}

/// A prediction is posted, and posted as it was given, exactly where it is good and no dry run.
pub proof fn lemma_submit(args: &SubmitArgs, r: Step)
    requires
        call_ensures(submit::run, (args,), r),
    ensures
        r is Post <==> (args.prediction@ == "up"@ || args.prediction@ == "down"@) && args.tickets
            >= 1 && (args.limit_price is Some ==> 0x3f84_7ae1_47ae_147b <= args.limit_price->0.bits
            <= 0x3fef_ae14_7ae1_47ae) && !args.dry_run,
        r is Post ==> r->path@ == "/api/v1/predictions"@ && r->body@ == submissions::body_of(args@),
{
    if let Some(p) = args.limit_price {
        double::lemma_between(p.bits, 0x3f84_7ae1_47ae_147b, 0x3fef_ae14_7ae1_47ae);
    }
    assert(r@ == submit::begun(args@));
}

/// A persona is posted exactly where it is one of the eight.
pub proof fn lemma_set_persona(persona: &str, r: Step)
    requires
        call_ensures(set_persona::run, (persona,), r),
    ensures
        r is Post <==> submissions::one_of_eight(persona@),
        r is Post ==> r->path@ == "/api/v1/agents/me/persona"@ && r->body@ == JsonView::Object(
            map!["persona"@ => JsonView::String(persona@)],
        ),
{
    submissions::lemma_personas(persona@);
    assert(r@ == set_persona::begun(persona@));
}

/// The balance is taken as the coordinator wrote it, and shown rounded where there is a rounded
/// form.
pub proof fn lemma_balance(v: Json, e: String, s: &str, rounded: String, raw: String, none: String, shown: String, plain: String)
    requires
        call_ensures(status::raw_balance, (&Ok(v),), raw),
        call_ensures(status::raw_balance, (&Err(e),), none),
        call_ensures(status::format_chips, (s, Some(rounded)), shown),
        call_ensures(status::format_chips, (s, None), plain),
    ensures
        raw@ == v@.data().str_or("balance"@, "0"@),
        none@ == "0"@,
        shown@ == rounded@,
        plain@ == s@,
{
}

/// The checks begin with the address.
pub proof fn lemma_checks_begun(r: (preflight::Stage, preflight::Action))
    requires
        call_ensures(preflight::begin, (), r),
    ensures
        r.0@ == preflight::StageView::Wallet,
        r.1@ == preflight::ActionView::FindAddress,
{
}

/// Each command goes on from what it was told by what its laws say: what the functions that move
/// it on give back is what the steps are.
pub proof fn lemma_steps(
    address: &str,
    rs: awp_register::Stage,
    re: awp_register::Event,
    rr: (Option<awp_register::Stage>, awp_register::Action),
    ls: loop_worker::Stage,
    le: loop_worker::Event,
    lr: (Option<loop_worker::Stage>, loop_worker::Action),
    setup: &preflight::Setup,
    ps: preflight::Stage,
    pe: preflight::Event,
    pr: (Option<preflight::Stage>, preflight::Action),
)
    requires
        call_ensures(awp_register::ensure_registered, (address, rs, re), rr),
        call_ensures(loop_worker::advance, (ls, le), lr),
        call_ensures(preflight::run, (setup, ps, pe), pr),
    ensures
        awp_register::step(address@, rs@, re@).1 == rr.1@,
        rr.0 is Some ==> awp_register::step(address@, rs@, re@).0 == Some(rr.0->0@),
        rr.0 is None ==> awp_register::step(address@, rs@, re@).0 is None,
        loop_worker::step(ls@, le@).1 == lr.1@,
        lr.0 is Some ==> loop_worker::step(ls@, le@).0 == Some(lr.0->0@),
        lr.0 is None ==> loop_worker::step(ls@, le@).0 is None,
        preflight::step(setup@, ps@, pe@).1 == pr.1@,
        pr.0 is Some ==> preflight::step(setup@, ps@, pe@).0 == Some(pr.0->0@),
        pr.0 is None ==> preflight::step(setup@, ps@, pe@).0 is None,
{
}

// Texts, numbers, places.

/// Two texts are the same exactly where they hold the same characters.
pub proof fn lemma_same(a: &str, b: &str, r: bool)
    requires
        call_ensures(text::same, (a, b), r),
    ensures
        r <==> a@ == b@,
{
}

/// A text is found where it stands in another, and a character is found at its last place.
pub proof fn lemma_found(hay: &str, needle: &str, c: char, first: Option<usize>, last: Option<usize>, any: bool)
    requires
        call_ensures(text::find_text, (hay, needle), first),
        call_ensures(text::rfind, (hay, c), last),
        call_ensures(text::contains_text, (hay, needle), any),
    ensures
        any <==> exists|before: Seq<char>, after: Seq<char>| #[trigger]
            (before + needle@ + after) == hay@,
        first is Some <==> any,
        first matches Some(p) ==> p + needle@.len() <= hay@.len() && hay@.subrange(
            p as int,
            p + needle@.len(),
        ) == needle@,
        last matches Some(p) ==> p < hay@.len() && hay@[p as int] == c,
        last is None <==> !hay@.contains(c),
{
    text::lemma_find(hay@, needle@);
    texts::lemma_last_place(hay@, c);
    if any {
        let parts = texts::lemma_contained_parts(hay@, needle@);
        assert(parts.0 + needle@ + parts.1 == hay@);
    }
    if exists|before: Seq<char>, after: Seq<char>| #[trigger]
        (before + needle@ + after) == hay@ {
        let (before, after) = choose|before: Seq<char>, after: Seq<char>| #[trigger]
            (before + needle@ + after) == hay@;
        texts::lemma_contained(before, needle@, after);
    }
    if last is Some {
        assert(hay@.contains(c));
    }
    if hay@.contains(c) {
        let i = choose|i: int| 0 <= i < hay@.len() && hay@[i] == c;
        assert(hay@[i] == c);
    }
}

/// Numbers are written as their numerals and read back from them.
pub proof fn lemma_numbers(n: u64, written: String, s: &str, read: Option<u64>)
    requires
        call_ensures(text::u64_text, (n,), written),
        call_ensures(text::parse_u64, (s,), read),
        s@ == written@,
    ensures
        texts::place_value(written@) == n,
        texts::all_digits(written@),
        read == Some(n),
{
    texts::lemma_numeral(n as nat);
    texts::lemma_number_read(s@);
}

/// The command that is located is that of the first place whose file is there.
pub proof fn lemma_located(list: &Vec<Place>, present: &Vec<bool>, r: Option<String>, i: int)
    requires
        call_ensures(places::locate, (list, present), r),
        list@.len() == present@.len(),
        0 <= i < list@.len(),
    ensures
        present@[i] && (forall|j: int| 0 <= j < i ==> !#[trigger] present@[j]) ==> r is Some
            && r->0@ == list@[i].command@,
        (forall|j: int| 0 <= j < list@.len() ==> !#[trigger] present@[j]) ==> r is None,
{
    let all = places::places_view(list@);
    places::lemma_first_present(all, present@);
    if present@[i] && (forall|j: int| 0 <= j < i ==> !#[trigger] present@[j]) {
        assert(present@[i]);
        let c = places::first_present(all, present@)->0;
        let k = choose|k: int|
            0 <= k < all.len() && #[trigger] present@[k] && all[k].command == c && (forall|j: int|
                0 <= j < k ==> !#[trigger] present@[j]);
        assert(k == i);
        assert(all[i].command == list@[i].command@);
    }
}

/// The coordinator's message is read from its answer, and a short text is a prefix.
pub proof fn lemma_message_read(answer: &Json, r: Option<&str>, s: &str, n: usize, short: String)
    requires
        call_ensures(server_error::message, (answer,), r),
        call_ensures(server_error::first_chars, (s, n), short),
    ensures
        answer@.get("error"@) is None ==> r is None,
        answer@.get("error"@) is Some && answer@.get("error"@)->0.get("message"@) is Some
            && answer@.get("error"@)->0.get("message"@)->0 is String ==> r is Some && r->0@
            == answer@.get("error"@)->0.get("message"@)->0->String_0,
        short@.is_prefix_of(s@),
        short@.len() == (if s@.len() < n {
            s@.len() as int
        } else {
            n as int
        }),
{
    texts::lemma_head(s@, n as nat);
}

/// A member is read from a value as the value holds it.
pub proof fn lemma_member_read(v: &Json, key: &str, r: Option<&Json>, s: Option<&str>)
    requires
        call_ensures(Json::get, (v, key), r),
        call_ensures(Json::str_at, (v, key), s),
    ensures
        r is Some ==> v@.get(key@) == Some(r->0@),
        r is None ==> v@.get(key@) is None,
        s is Some ==> v@.get(key@) == Some(JsonView::String(s->0@)),
        s is None ==> v@.get(key@) is None || !(v@.get(key@)->0 is String),
{
}

} // verus!
