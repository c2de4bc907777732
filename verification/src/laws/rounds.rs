//! Laws of the prediction loop: how a round goes on from what the coordinator and the model say,
//! and how long the loop pauses.

use vstd::arithmetic::power2::{lemma2_to64, pow2};
use vstd::prelude::*;

use crate::cmd::loop_worker;
use crate::cmd::loop_worker::{Action, ActionView, Agent, AgentView, Balance, BalanceView, Event,
    EventView, IterationResult, IterationView, LoopArgs, Pace, Stage, StageView};
use crate::cmd::prompt;
use crate::cmd::prompt::{Briefing, BriefingView, CandleText, CandleTextView, Prices};
use crate::cmd::reply;
use crate::cmd::reply::ReplyView;
use crate::cmd::server_error;
use crate::json;
use crate::json::{Json, JsonNumber, JsonView};
use crate::text;
use crate::time;

verus! {

// What the model decides is what is posted.

/// What is posted to the coordinator for a prediction, and what the round waits for then.
pub open spec fn posting(
    market: Seq<char>,
    direction: Seq<char>,
    tickets: u32,
    reasoning: Seq<char>,
) -> (Option<StageView>, ActionView) {
    (
        Some(StageView::Submit { market_id: market, direction }),
        ActionView::Post {
            path: "/api/v1/predictions"@,
            body: JsonView::Object(
                map![
                    "market_id"@ => JsonView::String(market),
                    "prediction"@ => JsonView::String(direction),
                    "tickets"@ => JsonView::Number(JsonNumber::Unsigned(tickets as u64)),
                    "reasoning"@ => JsonView::String(reasoning),
                ],
            ),
        },
    )
}

/// A market that the model names is submitted to where any recommended market has it under
/// "market_id", and equally where one has it under "id".
pub proof fn lemma_named_market_is_used(
    markets: Seq<JsonView>,
    market_id: Seq<char>,
    stake: u32,
    written: Seq<char>,
    d: ReplyView,
    named: Seq<char>,
    i: int,
)
    requires
        d.market_id == Some(named),
        0 <= i < markets.len(),
        markets[i].get("market_id"@) == Some(JsonView::String(named)) || markets[i].get("id"@)
            == Some(JsonView::String(named)),
    ensures
        loop_worker::after_decision(markets, market_id, stake, d) == posting(
            named,
            d.direction,
            match d.tickets {
                Some(n) => n,
                None => stake,
            },
            d.reasoning,
        ),
        reply::decision_in_text(written) == Ok::<ReplyView, reply::ReplyError>(d)
            ==> loop_worker::step(
            StageView::Model { markets, market_id, stake },
            EventView::Wrote(Ok(written)),
        ) == loop_worker::after_decision(markets, market_id, stake, d),
{
    assert(markets[i].str_at("market_id"@) == Some(named) || markets[i].str_at("id"@) == Some(
        named,
    ));
}

/// The chosen market is submitted to where the model names none, and where it names one that no
/// recommended market has under either key.
pub proof fn lemma_chosen_market_is_used(
    markets: Seq<JsonView>,
    market_id: Seq<char>,
    stake: u32,
    d: ReplyView,
)
    requires
        d.market_id is Some ==> forall|i: int|
            0 <= i < markets.len() ==> (#[trigger] markets[i]).get("market_id"@) != Some(
                JsonView::String(d.market_id->0),
            ) && markets[i].get("id"@) != Some(JsonView::String(d.market_id->0)),
    ensures
        loop_worker::after_decision(markets, market_id, stake, d) == posting(
            market_id,
            d.direction,
            match d.tickets {
                Some(n) => n,
                None => stake,
            },
            d.reasoning,
        ),
{
    if let Some(id) = d.market_id {
        assert forall|i: int| 0 <= i < markets.len() implies #[trigger] markets[i].str_at(
            "market_id"@,
        ) != Some(id) && markets[i].str_at("id"@) != Some(id) by {
            assert(markets[i].get("market_id"@) != Some(JsonView::String(id)));
        }
    }
}

/// A model that fails, and one whose answer cannot be used, end the round as a failure of the
/// model, with the reason.
pub proof fn lemma_model_failures(
    markets: Seq<JsonView>,
    market_id: Seq<char>,
    stake: u32,
    written: Seq<char>,
    e: Seq<char>,
)
    ensures
        loop_worker::step(
            StageView::Model { markets, market_id, stake },
            EventView::Wrote(Err(e)),
        ) == (None::<StageView>, ActionView::Finish(IterationView::LlmFailed { reason: e })),
        reply::decision_in_text(written) is Err ==> loop_worker::step(
            StageView::Model { markets, market_id, stake },
            EventView::Wrote(Ok(written)),
        ) == (
            None::<StageView>,
            ActionView::Finish(
                IterationView::LlmFailed {
                    reason: "parse failed: "@ + reply::decision_in_text(written)->Err_0.text(),
                },
            ),
        ),
{
}

// How the agent stands.

/// How the agent stands, member by member of what the coordinator says. The counts are those of
/// the time slot; without them three submissions of three are left, and the slot starts anew in
/// 300 seconds.
pub open spec fn standing(data: JsonView) -> AgentView {
    let slot = match data.get("timeslot"@) {
        Some(s) => s,
        None => JsonView::Null,
    };
    AgentView {
        balance: match data.get("balance"@) {
            Some(JsonView::String(t)) => BalanceView::Text(t),
            Some(JsonView::Number(n)) => BalanceView::Number(n),
            _ => BalanceView::Missing,
        },
        persona: data.str_or("persona"@, "none"@),
        submissions_remaining: slot.i64_or("submissions_remaining"@, 3),
        submissions_used: slot.i64_or("submissions_used"@, 0),
        slot_limit: slot.i64_or("slot_limit"@, 3),
        slot_resets_in: match slot.get("slot_resets_in_seconds"@) {
            Some(JsonView::Number(JsonNumber::Unsigned(n))) => n,
            _ => 300,
        },
        open_orders: data.array_at("open_orders"@),
        recent_results: data.array_at("recent_results"@),
    }
}

/// The agent is read from the coordinator's answer, and goes on as it stands.
pub proof fn lemma_agent_read(data: JsonView, answer: JsonView)
    ensures
        loop_worker::agent_in(data) == standing(data),
        ({
            let agent = standing(answer.data());
            let turn = loop_worker::step(StageView::Status, EventView::Answered(Ok(answer)));
            &&& agent.submissions_remaining >= 1 ==> turn == (
                Some(StageView::Recommend { agent }),
                ActionView::GetAuth("/api/v1/markets/recommend"@),
            )
            &&& agent.submissions_remaining < 1 ==> turn == (
                None::<StageView>,
                ActionView::Finish(
                    IterationView::RateLimited {
                        wait_seconds: if agent.slot_resets_in >= 10 {
                            agent.slot_resets_in
                        } else {
                            10
                        },
                    },
                ),
            )
        }),
{
}

/// A round goes on to the recommendations exactly where submissions remain in the time slot.
/// Where none remains it ends, with a wait until the slot starts anew that is no shorter than ten
/// seconds.
pub proof fn lemma_status_taken(
    answer: JsonView,
    slot: Map<Seq<char>, JsonView>,
    remaining: i64,
    resets: u64,
)
    requires
        answer.data().get("timeslot"@) == Some(JsonView::Object(slot)),
        slot.contains_key("submissions_remaining"@),
        slot["submissions_remaining"@] == JsonView::signed(remaining),
        slot.contains_pair("slot_resets_in_seconds"@, JsonView::Number(JsonNumber::Unsigned(resets))),
    ensures
        remaining > 0 ==> loop_worker::step(
            StageView::Status,
            EventView::Answered(Ok(answer)),
        ) == (
            Some(StageView::Recommend { agent: standing(answer.data()) }),
            ActionView::GetAuth("/api/v1/markets/recommend"@),
        ),
        remaining <= 0 && resets >= 10 ==> loop_worker::step(
            StageView::Status,
            EventView::Answered(Ok(answer)),
        ) == (
            None::<StageView>,
            ActionView::Finish(IterationView::RateLimited { wait_seconds: resets }),
        ),
        remaining <= 0 && resets < 10 ==> loop_worker::step(
            StageView::Status,
            EventView::Answered(Ok(answer)),
        ) == (
            None::<StageView>,
            ActionView::Finish(IterationView::RateLimited { wait_seconds: 10 }),
        ),
{
}

/// A coordinator that says nothing of time slots lets the round go on; one that cannot be asked
/// ends it.
pub proof fn lemma_status_without_slot(answer: JsonView, e: Seq<char>)
    requires
        answer.data().get("timeslot"@) is None,
    ensures
        loop_worker::step(StageView::Status, EventView::Answered(Ok(answer))) == (
            Some(StageView::Recommend { agent: standing(answer.data()) }),
            ActionView::GetAuth("/api/v1/markets/recommend"@),
        ),
        loop_worker::step(StageView::Status, EventView::Answered(Err(e))) == (
            None::<StageView>,
            ActionView::Finish(IterationView::Error { reason: "status fetch failed: "@ + e }),
        ),
{
}

// Which market is looked at.

/// What follows a market: its price history.
pub open spec fn looked_at(
    agent: AgentView,
    markets: Seq<JsonView>,
    id: Seq<char>,
    market: JsonView,
) -> (Option<StageView>, ActionView) {
    (
        Some(StageView::Klines { agent, markets, market_id: id, market }),
        ActionView::Get("/api/v1/markets/"@ + id + "/klines"@),
    )
}

/// The end of a round without a market.
pub open spec fn no_market() -> (Option<StageView>, ActionView) {
    (None, ActionView::Finish(IterationView::NoMarkets { wait_seconds: 300 }))
}

proof fn lemma_first_not_skipped(list: Seq<JsonView>, i: int, k: int)
    requires
        0 <= k <= i < list.len(),
        list[i].get("action"@) != Some(JsonView::String("skip"@)),
        forall|j: int|
            0 <= j < i ==> (#[trigger] list[j]).get("action"@) == Some(JsonView::String("skip"@)),
    ensures
        loop_worker::first_actionable(list, k) == Some(i),
    decreases i - k,
{
    if k < i {
        assert(list[k].get("action"@) == Some(JsonView::String("skip"@)));
        lemma_first_not_skipped(list, i, k + 1);
    }
}

proof fn lemma_all_skipped(list: Seq<JsonView>, k: int)
    requires
        0 <= k,
        forall|j: int|
            0 <= j < list.len() ==> (#[trigger] list[j]).get("action"@) == Some(
                JsonView::String("skip"@),
            ),
    ensures
        loop_worker::first_actionable(list, k) is None,
    decreases list.len() - k,
{
    if k < list.len() {
        assert(list[k].get("action"@) == Some(JsonView::String("skip"@)));
        lemma_all_skipped(list, k + 1);
    }
}

/// The market that is looked at is the first recommendation whose action is not "skip", under its
/// "market_id"; one without an id ends the round.
pub proof fn lemma_recommendation_taken(
    agent: AgentView,
    answer: Map<Seq<char>, JsonView>,
    list: Seq<JsonView>,
    i: int,
    id: Seq<char>,
)
    requires
        answer.contains_pair("data"@, JsonView::Array(list)),
        0 <= i < list.len(),
        list[i].get("action"@) != Some(JsonView::String("skip"@)),
        forall|j: int|
            0 <= j < i ==> (#[trigger] list[j]).get("action"@) == Some(JsonView::String("skip"@)),
    ensures
        list[i].get("market_id"@) == Some(JsonView::String(id)) && id.len() > 0
            ==> loop_worker::step(
            StageView::Recommend { agent },
            EventView::Answered(Ok(JsonView::Object(answer))),
        ) == looked_at(agent, list, id, list[i]),
        list[i].get("market_id"@) == Some(JsonView::String(Seq::empty())) || list[i].get(
            "market_id"@,
        ) is None || !(list[i].get("market_id"@)->0 is String) ==> loop_worker::step(
            StageView::Recommend { agent },
            EventView::Answered(Ok(JsonView::Object(answer))),
        ) == no_market(),
{
    lemma_first_not_skipped(list, i, 0);
}

/// Where every recommendation is to skip, where there is none, and where they could not be
/// fetched, the open markets are asked for, and the recommendations are kept.
pub proof fn lemma_nothing_recommended(
    agent: AgentView,
    answer: Map<Seq<char>, JsonView>,
    list: Seq<JsonView>,
    e: Seq<char>,
)
    requires
        forall|j: int|
            0 <= j < list.len() ==> (#[trigger] list[j]).get("action"@) == Some(
                JsonView::String("skip"@),
            ),
    ensures
        answer.contains_pair("data"@, JsonView::Array(list)) ==> loop_worker::step(
            StageView::Recommend { agent },
            EventView::Answered(Ok(JsonView::Object(answer))),
        ) == (
            Some(StageView::Active { agent, markets: list }),
            ActionView::Get("/api/v1/markets/active"@),
        ),
        !answer.contains_key("data"@) || !(answer["data"@] is Array) ==> loop_worker::step(
            StageView::Recommend { agent },
            EventView::Answered(Ok(JsonView::Object(answer))),
        ) == (
            Some(StageView::Active { agent, markets: Seq::empty() }),
            ActionView::Get("/api/v1/markets/active"@),
        ),
        loop_worker::step(StageView::Recommend { agent }, EventView::Answered(Err(e))) == (
            Some(StageView::Active { agent, markets: Seq::empty() }),
            ActionView::Get("/api/v1/markets/active"@),
        ),
{
    lemma_all_skipped(list, 0);
    lemma_all_skipped(Seq::empty(), 0);
}

/// Whether a market names a moment under "close_at" that is more than 120 seconds ahead.
pub open spec fn open_beyond(m: JsonView, now_secs: i64, now_nanos: u32) -> bool {
    &&& m.get("close_at"@) is Some
    &&& m.get("close_at"@)->0 is String
    &&& time::seconds_to(m.get("close_at"@)->0->String_0, now_secs, now_nanos) is Some
    &&& time::seconds_to(m.get("close_at"@)->0->String_0, now_secs, now_nanos)->0 > 120
}

proof fn lemma_first_open_beyond(
    list: Seq<JsonView>,
    now_secs: i64,
    now_nanos: u32,
    i: int,
    k: int,
)
    requires
        0 <= k <= i < list.len(),
        open_beyond(list[i], now_secs, now_nanos),
        forall|j: int| 0 <= j < i ==> !open_beyond(#[trigger] list[j], now_secs, now_nanos),
    ensures
        loop_worker::first_open(list, now_secs, now_nanos, k) == Some(i),
    decreases i - k,
{
    if k < i {
        assert(!open_beyond(list[k], now_secs, now_nanos));
        lemma_first_open_beyond(list, now_secs, now_nanos, i, k + 1);
    }
}

proof fn lemma_none_open_beyond(list: Seq<JsonView>, now_secs: i64, now_nanos: u32, k: int)
    requires
        0 <= k,
        forall|j: int|
            0 <= j < list.len() ==> !open_beyond(#[trigger] list[j], now_secs, now_nanos),
    ensures
        loop_worker::first_open(list, now_secs, now_nanos, k) is None,
    decreases list.len() - k,
{
    if k < list.len() {
        assert(!open_beyond(list[k], now_secs, now_nanos));
        lemma_none_open_beyond(list, now_secs, now_nanos, k + 1);
    }
}

/// Of the open markets the first that closes more than 120 seconds from now is looked at, under
/// its "id". What was recommended is kept.
pub proof fn lemma_open_market_taken(
    agent: AgentView,
    markets: Seq<JsonView>,
    answer: Map<Seq<char>, JsonView>,
    list: Seq<JsonView>,
    now_secs: i64,
    now_nanos: u32,
    i: int,
    id: Seq<char>,
)
    requires
        answer.contains_pair("data"@, JsonView::Array(list)),
        0 <= i < list.len(),
        open_beyond(list[i], now_secs, now_nanos),
        forall|j: int| 0 <= j < i ==> !open_beyond(#[trigger] list[j], now_secs, now_nanos),
    ensures
        list[i].get("id"@) == Some(JsonView::String(id)) && id.len() > 0 ==> loop_worker::step(
            StageView::Active { agent, markets },
            EventView::AnsweredAt {
                answer: Ok(JsonView::Object(answer)),
                now_secs,
                now_nanos,
            },
        ) == looked_at(agent, markets, id, list[i]),
        list[i].get("id"@) == Some(JsonView::String(Seq::empty())) || list[i].get("id"@) is None
            || !(list[i].get("id"@)->0 is String) ==> loop_worker::step(
            StageView::Active { agent, markets },
            EventView::AnsweredAt {
                answer: Ok(JsonView::Object(answer)),
                now_secs,
                now_nanos,
            },
        ) == no_market(),
{
    lemma_first_open_beyond(list, now_secs, now_nanos, i, 0);
}

/// Where no market stays open that long the round ends, with a wait of five minutes; where the
/// markets could not be fetched it ends as a failure.
pub proof fn lemma_no_open_market(
    agent: AgentView,
    markets: Seq<JsonView>,
    answer: Map<Seq<char>, JsonView>,
    list: Seq<JsonView>,
    now_secs: i64,
    now_nanos: u32,
    e: Seq<char>,
)
    requires
        forall|j: int|
            0 <= j < list.len() ==> !open_beyond(#[trigger] list[j], now_secs, now_nanos),
    ensures
        answer.contains_pair("data"@, JsonView::Array(list)) || !answer.contains_key("data"@)
            || !(answer["data"@] is Array) ==> loop_worker::step(
            StageView::Active { agent, markets },
            EventView::AnsweredAt {
                answer: Ok(JsonView::Object(answer)),
                now_secs,
                now_nanos,
            },
        ) == no_market(),
        loop_worker::step(
            StageView::Active { agent, markets },
            EventView::AnsweredAt { answer: Err(e), now_secs, now_nanos },
        ) == (
            None::<StageView>,
            ActionView::Finish(IterationView::Error { reason: "markets fetch failed: "@ + e }),
        ),
{
    lemma_none_open_beyond(list, now_secs, now_nanos, 0);
    lemma_none_open_beyond(Seq::empty(), now_secs, now_nanos, 0);
}

// What the model is told.

/// The model is briefed with the chosen market, the price history under "klines" of the answer's
/// payload where there is one, what was recommended, and how the agent stands.
pub proof fn lemma_briefing(
    agent: AgentView,
    markets: Seq<JsonView>,
    market_id: Seq<char>,
    market: JsonView,
    answer: Result<JsonView, Seq<char>>,
)
    ensures
        ({
            let history = match answer {
                Ok(v) => match v.get("data"@) {
                    Some(d) => match d.get("klines"@) {
                        Some(JsonView::Array(list)) => Some(list),
                        _ => None,
                    },
                    None => None,
                },
                Err(_) => None,
            };
            loop_worker::step(
                StageView::Klines { agent, markets, market_id, market },
                EventView::Answered(answer),
            ) == (
                Some(
                    StageView::Render {
                        balance: agent.balance,
                        briefing: BriefingView {
                            market_id,
                            market,
                            klines: history,
                            markets,
                            persona: agent.persona,
                            submissions_remaining: agent.submissions_remaining,
                            open_orders: agent.open_orders,
                            recent_results: agent.recent_results,
                        },
                    },
                ),
                ActionView::Render,
            )
        }),
{
}

/// The model is asked with the prompt for the briefing, and the usual stake is a twentieth of the
/// balance, at least one ticket.
pub proof fn lemma_asked(
    balance: BalanceView,
    briefing: BriefingView,
    shown: Seq<char>,
    twentieth: u32,
    up: Seq<char>,
    down: Seq<char>,
    candles: Seq<CandleTextView>,
)
    ensures
        ({
            let turn = loop_worker::step(
                StageView::Render { balance, briefing },
                EventView::Rendered { balance: shown, twentieth, up, down, candles },
            );
            &&& turn.1 == ActionView::Ask(prompt::prompt_text(briefing, shown, up, down, candles))
            &&& turn.0 is Some
            &&& turn.0->0 is Model
            &&& turn.0->0->Model_markets == briefing.markets
            &&& turn.0->0->Model_market_id == briefing.market_id
            &&& turn.0->0->stake >= 1
            &&& turn.0->0->stake >= twentieth
            &&& turn.0->0->stake == 1 || turn.0->0->stake == twentieth
        }),
{
}

// How a round ends.

/// An accepted prediction ends the round as submitted, for the market and the direction that were
/// posted.
pub proof fn lemma_accepted(market_id: Seq<char>, direction: Seq<char>, answer: JsonView)
    ensures
        loop_worker::step(
            StageView::Submit { market_id, direction },
            EventView::Answered(Ok(answer)),
        ) == (
            None::<StageView>,
            ActionView::Finish(IterationView::Submitted { market: market_id, direction }),
        ),
{
}

/// A refused prediction ends the round with a wait of five minutes where the refusal speaks of
/// RATE_LIMIT or 429, wherever in it; of ten minutes where it speaks of INSUFFICIENT_BALANCE and
/// of neither of those; and as a failure otherwise.
pub proof fn lemma_refused(
    market_id: Seq<char>,
    direction: Seq<char>,
    before: Seq<char>,
    after: Seq<char>,
    e: Seq<char>,
    quoted: Option<JsonView>,
)
    ensures
        e == before + "RATE_LIMIT"@ + after || e == before + "429"@ + after ==> loop_worker::step(
            StageView::Submit { market_id, direction },
            EventView::Answered(Err(e)),
        ) == (
            None::<StageView>,
            ActionView::Finish(IterationView::RateLimited { wait_seconds: 300 }),
        ),
        e == before + "INSUFFICIENT_BALANCE"@ + after && !text::contains(e, "RATE_LIMIT"@)
            && !text::contains(e, "429"@) ==> loop_worker::step(
            StageView::Submit { market_id, direction },
            EventView::Answered(Err(e)),
        ) == (
            None::<StageView>,
            ActionView::Finish(IterationView::NoMarkets { wait_seconds: 600 }),
        ),
        !text::contains(e, "INSUFFICIENT_BALANCE"@) && !text::contains(e, "RATE_LIMIT"@)
            && !text::contains(e, "429"@) ==> {
            let words = match server_error::answer_in(e) {
                Some(v) => match v.get("error"@) {
                    Some(error) => match error.get("message"@) {
                        Some(JsonView::String(m)) => m,
                        _ => server_error::head(e, 200),
                    },
                    None => server_error::head(e, 200),
                },
                None => server_error::head(e, 200),
            };
            loop_worker::step(
                StageView::Submit { market_id, direction },
                EventView::Answered(Err(e)),
            ) == (
                None::<StageView>,
                ActionView::Finish(IterationView::Error { reason: "submit failed: "@ + words }),
            )
        },
        ({
            let words = match quoted {
                Some(v) => match v.get("error"@) {
                    Some(error) => match error.get("message"@) {
                        Some(JsonView::String(m)) => m,
                        _ => server_error::head(e, 200),
                    },
                    None => server_error::head(e, 200),
                },
                None => server_error::head(e, 200),
            };
            loop_worker::short_error(e, quoted) == words
        }),
{
    crate::laws::texts::lemma_contained(before, "RATE_LIMIT"@, after);
    crate::laws::texts::lemma_contained(before, "429"@, after);
    crate::laws::texts::lemma_contained(before, "INSUFFICIENT_BALANCE"@, after);
}

/// How a round ends depends on the answer alone, or on the refusal and on what it quotes: the
/// function that is handed the quoted answer ends the round in the same way.
pub proof fn lemma_ended_with_quote(
    market: Seq<char>,
    direction: Seq<char>,
    answer: JsonView,
    e: Seq<char>,
    quoted: Option<JsonView>,
)
    ensures
        loop_worker::submission_ended(market, direction, Ok(answer), quoted)
            == (IterationView::Submitted { market, direction }),
        loop_worker::submission_ended(market, direction, Err(e), server_error::answer_in(e))
            == loop_worker::after_submission(market, direction, Err(e)),
        text::contains(e, "RATE_LIMIT"@) || text::contains(e, "429"@)
            ==> loop_worker::submission_ended(market, direction, Err(e), quoted)
            == (IterationView::RateLimited { wait_seconds: 300 }),
        !text::contains(e, "RATE_LIMIT"@) && !text::contains(e, "429"@) && text::contains(
            e,
            "INSUFFICIENT_BALANCE"@,
        ) ==> loop_worker::submission_ended(market, direction, Err(e), quoted)
            == (IterationView::NoMarkets { wait_seconds: 600 }),
        !text::contains(e, "RATE_LIMIT"@) && !text::contains(e, "429"@) && !text::contains(
            e,
            "INSUFFICIENT_BALANCE"@,
        ) ==> loop_worker::submission_ended(market, direction, Err(e), quoted)
            == (IterationView::Error {
            reason: "submit failed: "@ + loop_worker::short_error(e, quoted),
        }),
{
}

// Pauses.

/// A pause that the coordinator sets is kept. One that it does not set is the base times two to
/// the failures in a row, of which no more than four count, and never more than 600 seconds.
pub proof fn lemma_pause(base: u64, consecutive: u32, asked: u64)
    ensures
        loop_worker::backoff(base, consecutive, Some(asked)) == asked,
        ({
            let times = pow2(
                if consecutive < 4 {
                    consecutive as nat
                } else {
                    4
                },
            );
            &&& base * times <= 600 ==> loop_worker::backoff(base, consecutive, None) == base
                * times
            &&& base * times > 600 ==> loop_worker::backoff(base, consecutive, None) == 600
        }),
{
    lemma2_to64();
}

/// After a submission the loop pauses for its interval and forgets the failures. After a round
/// without a market or at its limit it pauses as long as the round says. After a failure it counts
/// one more in a row and pauses by that count. A round without a market counts as empty.
pub proof fn lemma_what_follows_a_round(
    args: LoopArgs,
    pace: Pace,
    market: Seq<char>,
    direction: Seq<char>,
    seconds: u64,
    reason: Seq<char>,
)
    requires
        pace.consecutive_empty < u32::MAX,
        pace.consecutive_errors < u32::MAX,
    ensures
        loop_worker::settled(args, pace, IterationView::Submitted { market, direction }) == (
            Pace { iteration: pace.iteration, consecutive_empty: 0, consecutive_errors: 0 },
            args.interval as int,
        ),
        loop_worker::settled(args, pace, IterationView::NoMarkets { wait_seconds: seconds }) == (
            Pace {
                iteration: pace.iteration,
                consecutive_empty: (pace.consecutive_empty + 1) as u32,
                consecutive_errors: pace.consecutive_errors,
            },
            seconds as int,
        ),
        loop_worker::settled(args, pace, IterationView::RateLimited { wait_seconds: seconds }) == (
            pace,
            seconds as int,
        ),
        loop_worker::settled(args, pace, IterationView::LlmFailed { reason }) == (
            Pace {
                iteration: pace.iteration,
                consecutive_empty: pace.consecutive_empty,
                consecutive_errors: (pace.consecutive_errors + 1) as u32,
            },
            loop_worker::backoff(args.interval, (pace.consecutive_errors + 1) as u32, None),
        ),
        loop_worker::settled(args, pace, IterationView::Error { reason }) == loop_worker::settled(
            args,
            pace,
            IterationView::LlmFailed { reason },
        ),
{
}

/// A round takes whatever comes of what it waits for: every answer, and every failure in its
/// place; and every round is counted as long as the counts are in range.
pub proof fn lemma_whatever_comes(
    agent: AgentView,
    markets: Seq<JsonView>,
    market_id: Seq<char>,
    market: JsonView,
    stake: u32,
    direction: Seq<char>,
    answer: Result<JsonView, Seq<char>>,
    written: Result<Seq<char>, Seq<char>>,
    now_secs: i64,
    now_nanos: u32,
    args: LoopArgs,
    pace: Pace,
    result: IterationView,
)
    ensures
        loop_worker::awaits(StageView::Status, EventView::Answered(answer)),
        loop_worker::awaits(StageView::Recommend { agent }, EventView::Answered(answer)),
        loop_worker::awaits(
            StageView::Active { agent, markets },
            EventView::AnsweredAt { answer, now_secs, now_nanos },
        ),
        loop_worker::awaits(
            StageView::Klines { agent, markets, market_id, market },
            EventView::Answered(answer),
        ),
        loop_worker::awaits(
            StageView::Model { markets, market_id, stake },
            EventView::Wrote(written),
        ),
        loop_worker::awaits(
            StageView::Submit { market_id, direction },
            EventView::Answered(answer),
        ),
        pace.consecutive_empty < 0xffff_ffff && pace.consecutive_errors < 0xffff_ffff
            && args.interval <= 0x0fff_ffff_ffff_ffff ==> loop_worker::countable(
            args,
            pace,
            result,
        ),
        result is Submitted || result is RateLimited ==> loop_worker::countable(args, pace, result),
{
    if args.interval <= 0x0fff_ffff_ffff_ffff {
        let times = loop_worker::growth((pace.consecutive_errors + 1) as u32);
        assert(args.interval * times <= 0x0fff_ffff_ffff_ffff * 16) by (nonlinear_arith)
            requires
                0 <= times <= 16,
                0 <= args.interval <= 0x0fff_ffff_ffff_ffff,
        ;
    }
}

// Values.

/// Results, stages, events and actions stand for what they hold.
pub proof fn lemma_round_values(
    s: String,
    t: String,
    n: u64,
    agent: Agent,
    markets: Vec<Json>,
    v: Json,
    balance: Balance,
    briefing: Briefing,
    stake: u32,
)
    ensures
        (IterationResult::Submitted { market: s, direction: t })@ == (IterationView::Submitted {
            market: s@,
            direction: t@,
        }),
        (IterationResult::NoMarkets { wait_seconds: n })@ == (IterationView::NoMarkets {
            wait_seconds: n,
        }),
        (IterationResult::RateLimited { wait_seconds: n })@ == (IterationView::RateLimited {
            wait_seconds: n,
        }),
        (IterationResult::LlmFailed { reason: s })@ == (IterationView::LlmFailed { reason: s@ }),
        (IterationResult::Error { reason: s })@ == (IterationView::Error { reason: s@ }),
        Stage::Status@ == StageView::Status,
        (Stage::Recommend { agent })@ == (StageView::Recommend { agent: agent@ }),
        (Stage::Active { agent, markets })@ == (StageView::Active {
            agent: agent@,
            markets: json::items_view(markets@),
        }),
        (Stage::Klines { agent, markets, market_id: s, market: v })@ == (StageView::Klines {
            agent: agent@,
            markets: json::items_view(markets@),
            market_id: s@,
            market: v@,
        }),
        (Stage::Render { balance, briefing })@ == (StageView::Render {
            balance: balance@,
            briefing: briefing@,
        }),
        (Stage::Model { markets, market_id: s, stake })@ == (StageView::Model {
            markets: json::items_view(markets@),
            market_id: s@,
            stake,
        }),
        (Stage::Submit { market_id: s, direction: t })@ == (StageView::Submit {
            market_id: s@,
            direction: t@,
        }),
        Action::Get(s)@ == ActionView::Get(s@),
        Action::GetAuth(s)@ == ActionView::GetAuth(s@),
        Action::Render@ == ActionView::Render,
        Action::Ask(s)@ == ActionView::Ask(s@),
        (Action::Post { path: s, body: v })@ == (ActionView::Post { path: s@, body: v@ }),
{
}

/// An answer, its moment, what was rendered and what the model wrote stand for what they hold.
pub proof fn lemma_event_values(
    v: Json,
    e: String,
    now_secs: i64,
    now_nanos: u32,
    twentieth: u32,
    prices: Prices,
    candles: Vec<CandleText>,
)
    ensures
        Event::Answered(Ok(v))@ == EventView::Answered(Ok(v@)),
        Event::Answered(Err(e))@ == EventView::Answered(Err(e@)),
        (Event::AnsweredAt { answer: Ok(v), now_secs, now_nanos })@ == (EventView::AnsweredAt {
            answer: Ok(v@),
            now_secs,
            now_nanos,
        }),
        (Event::AnsweredAt { answer: Err(e), now_secs, now_nanos })@ == (EventView::AnsweredAt {
            answer: Err(e@),
            now_secs,
            now_nanos,
        }),
        (Event::Rendered { balance: e, twentieth, prices, candles })@ == (EventView::Rendered {
            balance: e@,
            twentieth,
            up: prices.up@,
            down: prices.down@,
            candles: candles@.map_values(|c: CandleText| c@),
        }),
        Event::Wrote(Ok(e))@ == EventView::Wrote(Ok(e@)),
        Event::Wrote(Err(e))@ == EventView::Wrote(Err(e@)),
{
}

/// How the agent stands stands for its parts, each for what it holds.
pub proof fn lemma_agent_values(a: Agent, b: Briefing, s: String, n: JsonNumber)
    ensures
        a@.balance == a.balance@,
        a@.persona == a.persona@,
        a@.submissions_remaining == a.submissions_remaining,
        a@.submissions_used == a.submissions_used,
        a@.slot_limit == a.slot_limit,
        a@.slot_resets_in == a.slot_resets_in,
        a.open_orders is None ==> a@.open_orders is None,
        a.open_orders is Some ==> a@.open_orders == Some(json::items_view(a.open_orders->0@)),
        a.recent_results is None ==> a@.recent_results is None,
        a.recent_results is Some ==> a@.recent_results == Some(
            json::items_view(a.recent_results->0@),
        ),
        b@.market_id == b.market_id@,
        b@.market == b.market@,
        b@.markets == json::items_view(b.markets@),
        b@.persona == b.persona@,
        b@.submissions_remaining == b.submissions_remaining,
        b.klines is None ==> b@.klines is None,
        b.klines is Some ==> b@.klines == Some(json::items_view(b.klines->0@)),
        b.open_orders is None ==> b@.open_orders is None,
        b.open_orders is Some ==> b@.open_orders == Some(json::items_view(b.open_orders->0@)),
        b.recent_results is None ==> b@.recent_results is None,
        b.recent_results is Some ==> b@.recent_results == Some(
            json::items_view(b.recent_results->0@),
        ),
        Balance::Text(s)@ == BalanceView::Text(s@),
        Balance::Number(n)@ == BalanceView::Number(n),
        Balance::Missing@ == BalanceView::Missing,
{
}

} // verus!
