//! The prediction loop.
//!
//! Each round asks the coordinator how the agent stands and which market it recommends, lets a
//! model analyse the market, and submits what the model decides. This module takes the decisions:
//! a round is a [`Stage`] that [`advance`] moves on, and the pauses between rounds come from
//! [`Pace::settle`].

use vstd::prelude::*;

use crate::cmd::prompt;
use crate::cmd::prompt::{Briefing, BriefingView, CandleText, CandleTextView, Prices};
use crate::cmd::reply;
use crate::cmd::reply::ReplyView;
use crate::cmd::server_error;
use crate::json;
use crate::json::{Json, JsonNumber, JsonView};
use crate::output;
use crate::text;
use crate::time;

verus! {

/// The settings of the loop.
#[derive(Debug, PartialEq, Eq)]
pub struct LoopArgs {
    /// Seconds between rounds.
    pub interval: u64,
    /// How many rounds to run; without a limit where it is zero.
    pub max_iterations: u64,
    /// The agent that the model runs as.
    pub agent_id: String,
}

/// How a round ended.
#[derive(Debug, PartialEq, Eq)]
pub enum IterationResult {
    Submitted { market: String, direction: String },
    NoMarkets { wait_seconds: u64 },
    RateLimited { wait_seconds: u64 },
    LlmFailed { reason: String },
    Error { reason: String },
}

#[verifier::ext_equal]
pub enum IterationView {
    Submitted { market: Seq<char>, direction: Seq<char> },
    NoMarkets { wait_seconds: u64 },
    RateLimited { wait_seconds: u64 },
    LlmFailed { reason: Seq<char> },
    Error { reason: Seq<char> },
}

impl IterationResult {
    pub open spec fn view(&self) -> IterationView {
        match self {
            IterationResult::Submitted { market, direction } => IterationView::Submitted {
                market: market@,
                direction: direction@,
            },
            IterationResult::NoMarkets { wait_seconds } => IterationView::NoMarkets {
                wait_seconds: *wait_seconds,
            },
            IterationResult::RateLimited { wait_seconds } => IterationView::RateLimited {
                wait_seconds: *wait_seconds,
            },
            IterationResult::LlmFailed { reason } => IterationView::LlmFailed { reason: reason@ },
            IterationResult::Error { reason } => IterationView::Error { reason: reason@ },
        }
    }
}

// Pauses between rounds.

/// By how much a pause grows with failures in a row: it doubles with each, four times at most.
pub open spec fn growth(consecutive: u32) -> int {
    if consecutive == 0 {
        1
    } else if consecutive == 1 {
        2
    } else if consecutive == 2 {
        4
    } else if consecutive == 3 {
        8
    } else {
        16
    }
}

/// The seconds to pause: what the coordinator asks for, or else the base doubled with every
/// failure in a row, four times at most, and capped at 600.
pub open spec fn backoff(base: u64, consecutive: u32, server_hint: Option<u64>) -> int {
    match server_hint {
        Some(hint) => hint as int,
        None => {
            let pause = base * growth(consecutive);
            if pause < 600 {
                pause
            } else {
                600
            }
        },
    }
}

/// The seconds to pause after failures in a row.
pub fn calculate_backoff(base: u64, consecutive: u32, server_hint: Option<u64>) -> (r: u64)
    requires
        server_hint is None ==> base * growth(consecutive) <= u64::MAX,
    ensures
        r == backoff(base, consecutive, server_hint),
{
    if let Some(hint) = server_hint {
        return hint;
    }
    let multiplier: u64 = if consecutive == 0 {
        1
    } else if consecutive == 1 {
        2
    } else if consecutive == 2 {
        4
    } else if consecutive == 3 {
        8
    } else {
        16
    };
    let pause: u64 = base * multiplier;
    if pause < 600 {
        pause
    } else {
        600
    }
}

/// A pause that the coordinator does not set is at most 600 seconds. Up to that limit it doubles
/// with each of the first four failures in a row, and it never gets shorter with more failures.
pub proof fn lemma_backoff(base: u64, fewer: u32, more: u32)
    requires
        fewer <= more,
    ensures
        backoff(base, more, None) <= 600,
        backoff(base, fewer, None) <= backoff(base, more, None),
        base > 0 ==> backoff(base, fewer, None) > 0,
        growth(fewer) == vstd::arithmetic::power2::pow2(
            if fewer < 4 {
                fewer as nat
            } else {
                4
            },
        ),
{
    vstd::arithmetic::power2::lemma2_to64();
    let p = growth(fewer);
    let q = growth(more);
    assert(base * p <= base * q) by (nonlinear_arith)
        requires
            0 <= base,
            p <= q,
    ;
    assert(base > 0 ==> base * p > 0) by (nonlinear_arith)
        requires
            0 < p,
    ;
}

/// How the loop goes: rounds begun, and failures in a row.
#[derive(Clone, Copy, Debug, PartialEq, Eq)]
pub struct Pace {
    pub iteration: u64,
    pub consecutive_empty: u32,
    pub consecutive_errors: u32,
}

/// What follows a round: the new count of failures, and the seconds to pause.
pub open spec fn settled(args: LoopArgs, pace: Pace, result: IterationView) -> (Pace, int) {
    match result {
        IterationView::Submitted { .. } => (
            Pace { consecutive_empty: 0, consecutive_errors: 0, ..pace },
            args.interval as int,
        ),
        IterationView::NoMarkets { wait_seconds } => (
            Pace { consecutive_empty: (pace.consecutive_empty + 1) as u32, ..pace },
            wait_seconds as int,
        ),
        IterationView::RateLimited { wait_seconds } => (pace, wait_seconds as int),
        _ => (
            Pace { consecutive_errors: (pace.consecutive_errors + 1) as u32, ..pace },
            backoff(args.interval, (pace.consecutive_errors + 1) as u32, None),
        ),
    }
}

/// Whether the counts stay within their range.
pub open spec fn countable(args: LoopArgs, pace: Pace, result: IterationView) -> bool {
    match result {
        IterationView::NoMarkets { .. } => pace.consecutive_empty < u32::MAX,
        IterationView::LlmFailed { .. } | IterationView::Error { .. } => {
            &&& pace.consecutive_errors < u32::MAX
            &&& args.interval * growth((pace.consecutive_errors + 1) as u32) <= u64::MAX
        },
        _ => true,
    }
}

/// A submission wipes the failures out; a round without one leaves the failures of the other
/// kind as they are, and no round changes how many were begun.
pub proof fn lemma_settled(args: LoopArgs, pace: Pace, result: IterationView)
    requires
        countable(args, pace, result),
    ensures
        settled(args, pace, result).0.iteration == pace.iteration,
        result is Submitted ==> settled(args, pace, result).0.consecutive_empty == 0 && settled(
            args,
            pace,
            result,
        ).0.consecutive_errors == 0,
        result is NoMarkets ==> settled(args, pace, result).0.consecutive_errors
            == pace.consecutive_errors,
        result is LlmFailed || result is Error ==> settled(args, pace, result).0.consecutive_empty
            == pace.consecutive_empty && settled(args, pace, result).1 <= 600,
        result is RateLimited ==> settled(args, pace, result).0 == pace,
{
}

impl Pace {
    /// The pace of a loop that has not begun.
    pub fn new() -> (r: Pace)
        ensures
            r == (Pace { iteration: 0, consecutive_empty: 0, consecutive_errors: 0 }),
    {
        Pace { iteration: 0, consecutive_empty: 0, consecutive_errors: 0 }
    }

    /// Begins the next round; false where the limit is reached.
    pub fn begin(&mut self, args: &LoopArgs) -> (go: bool)
        requires
            old(self).iteration < u64::MAX,
        ensures
            *final(self) == (Pace { iteration: (old(self).iteration + 1) as u64, ..*old(self) }),
            go == !(args.max_iterations > 0 && final(self).iteration > args.max_iterations),
    {
        self.iteration = self.iteration + 1;
        !(args.max_iterations > 0 && self.iteration > args.max_iterations)
    }

    /// Takes in how a round ended, and gives the seconds to pause.
    pub fn settle(&mut self, args: &LoopArgs, result: &IterationResult) -> (pause: u64)
        requires
            countable(*args, *old(self), result@),
        ensures
            (*final(self), pause as int) == settled(*args, *old(self), result@),
    {
        match result {
            IterationResult::Submitted { .. } => {
                self.consecutive_empty = 0;
                self.consecutive_errors = 0;
                args.interval
            },
            IterationResult::NoMarkets { wait_seconds } => {
                self.consecutive_empty = self.consecutive_empty + 1;
                calculate_backoff(args.interval, self.consecutive_empty, Some(*wait_seconds))
            },
            IterationResult::RateLimited { wait_seconds } => *wait_seconds,
            IterationResult::LlmFailed { .. } => {
                self.consecutive_errors = self.consecutive_errors + 1;
                calculate_backoff(args.interval, self.consecutive_errors, None)
            },
            IterationResult::Error { .. } => {
                self.consecutive_errors = self.consecutive_errors + 1;
                calculate_backoff(args.interval, self.consecutive_errors, None)
            },
        }
    }
}

// How the agent stands.

/// The balance as the coordinator gives it.
#[derive(Debug, PartialEq, Eq)]
pub enum Balance {
    Text(String),
    Number(JsonNumber),
    Missing,
}

#[verifier::ext_equal]
pub enum BalanceView {
    Text(Seq<char>),
    Number(JsonNumber),
    Missing,
}

impl Balance {
    pub open spec fn view(&self) -> BalanceView {
        match self {
            Balance::Text(t) => BalanceView::Text(t@),
            Balance::Number(n) => BalanceView::Number(*n),
            Balance::Missing => BalanceView::Missing,
        }
    }
}

/// How the agent stands.
#[derive(Debug, PartialEq, Eq)]
pub struct Agent {
    pub balance: Balance,
    pub persona: String,
    pub submissions_remaining: i64,
    pub submissions_used: i64,
    pub slot_limit: i64,
    pub slot_resets_in: u64,
    pub open_orders: Option<Vec<Json>>,
    pub recent_results: Option<Vec<Json>>,
}

#[verifier::ext_equal]
pub struct AgentView {
    pub balance: BalanceView,
    pub persona: Seq<char>,
    pub submissions_remaining: i64,
    pub submissions_used: i64,
    pub slot_limit: i64,
    pub slot_resets_in: u64,
    pub open_orders: Option<Seq<JsonView>>,
    pub recent_results: Option<Seq<JsonView>>,
}

impl Agent {
    pub open spec fn view(&self) -> AgentView {
        AgentView {
            balance: self.balance@,
            persona: self.persona@,
            submissions_remaining: self.submissions_remaining,
            submissions_used: self.submissions_used,
            slot_limit: self.slot_limit,
            slot_resets_in: self.slot_resets_in,
            open_orders: prompt::opt_items(self.open_orders),
            recent_results: prompt::opt_items(self.recent_results),
        }
    }
}

pub open spec fn balance_in(data: JsonView) -> BalanceView {
    match data.get("balance"@) {
        Some(JsonView::String(t)) => BalanceView::Text(t),
        Some(JsonView::Number(n)) => BalanceView::Number(n),
        _ => BalanceView::Missing,
    }
}

/// A whole number in the agent's time slot, or a default.
pub open spec fn slot_i64(data: JsonView, key: Seq<char>, default: i64) -> i64 {
    match data.get("timeslot"@) {
        Some(slot) => slot.i64_or(key, default),
        None => default,
    }
}

/// The seconds until the agent's time slot starts anew; 300 where the coordinator does not say.
pub open spec fn slot_resets(data: JsonView) -> u64 {
    match data.get("timeslot"@) {
        Some(slot) => match slot.get("slot_resets_in_seconds"@) {
            Some(v) => match v.as_u64() {
                Some(n) => n,
                None => 300,
            },
            None => 300,
        },
        None => 300,
    }
}

/// How the agent stands, by the coordinator's answer. A coordinator that does not speak of time
/// slots leaves three submissions.
pub open spec fn agent_in(data: JsonView) -> AgentView {
    AgentView {
        balance: balance_in(data),
        persona: data.str_or("persona"@, "none"@),
        submissions_remaining: slot_i64(data, "submissions_remaining"@, 3),
        submissions_used: slot_i64(data, "submissions_used"@, 0),
        slot_limit: slot_i64(data, "slot_limit"@, 3),
        slot_resets_in: slot_resets(data),
        open_orders: data.array_at("open_orders"@),
        recent_results: data.array_at("recent_results"@),
    }
}

fn balance(data: &Json) -> (r: Balance)
    ensures
        r@ == balance_in(data@),
{
    match data.get("balance") {
        Some(Json::String(t)) => Balance::Text(t.clone()),
        Some(Json::Number(n)) => Balance::Number(*n),
        _ => Balance::Missing,
    }
}

fn slot_number(data: &Json, key: &str, default: i64) -> (r: i64)
    ensures
        r == slot_i64(data@, key@, default),
{
    match data.get("timeslot") {
        Some(slot) => slot.i64_or(key, default),
        None => default,
    }
}

fn slot_reset_seconds(data: &Json) -> (r: u64)
    ensures
        r == slot_resets(data@),
{
    match data.get("timeslot") {
        Some(slot) => match slot.get("slot_resets_in_seconds") {
            Some(v) => match v.as_u64() {
                Some(n) => n,
                None => 300,
            },
            None => 300,
        },
        None => 300,
    }
}

/// A copy of a list of values.
fn copy_items(l: &Vec<Json>) -> (r: Vec<Json>)
    ensures
        json::items_view(r@) == json::items_view(l@),
{
    let mut out: Vec<Json> = Vec::new();
    let mut i: usize = 0;
    assert(l@.take(0) =~= Seq::<Json>::empty());
    while i < l.len()
        invariant
            i <= l@.len(),
            json::items_view(out@) == json::items_view(l@.take(i as int)),
        decreases l@.len() - i,
    {
        let ghost before = out@;
        out.push(l[i].clone());
        assert(out@.drop_last() =~= before);
        assert(l@.take(i + 1).drop_last() =~= l@.take(i as int));
        i += 1;
    }
    assert(l@.take(i as int) =~= l@);
    out
}

/// A copy of the list under a key.
fn list_at(v: &Json, key: &str) -> (r: Option<Vec<Json>>)
    ensures
        prompt::opt_items(r) == v@.array_at(key@),
{
    match v.array_at(key) {
        Some(l) => Some(copy_items(l)),
        None => None,
    }
}

/// How the agent stands, by the coordinator's answer.
pub fn read_agent(data: &Json) -> (r: Agent)
    ensures
        r@ == agent_in(data@),
{
    Agent {
        balance: balance(data),
        persona: data.str_or("persona", "none").to_owned(),
        submissions_remaining: slot_number(data, "submissions_remaining", 3),
        submissions_used: slot_number(data, "submissions_used", 0),
        slot_limit: slot_number(data, "slot_limit", 3),
        slot_resets_in: slot_reset_seconds(data),
        open_orders: list_at(data, "open_orders"),
        recent_results: list_at(data, "recent_results"),
    }
}

// Which market to look at.

/// Whether a recommendation is more than advice to stay out.
pub open spec fn actionable(r: JsonView) -> bool {
    r.str_at("action"@) != Some("skip"@)
}

/// The first recommendation, from `i` on, that is more than advice to stay out.
pub open spec fn first_actionable(list: Seq<JsonView>, i: int) -> Option<int>
    decreases list.len() - i,
{
    if i < 0 || i >= list.len() {
        None
    } else if actionable(list[i]) {
        Some(i)
    } else {
        first_actionable(list, i + 1)
    }
}

/// Whether a market stays open for more than two minutes.
pub open spec fn stays_open(seconds: Option<i64>) -> bool {
    match seconds {
        Some(s) => s > 120,
        None => false,
    }
}

/// The seconds until a market closes.
pub open spec fn closes_in(m: JsonView, now_secs: i64, now_nanos: u32) -> Option<i64> {
    match m.str_at("close_at"@) {
        Some(t) => time::seconds_to(t, now_secs, now_nanos),
        None => None,
    }
}

/// The first market, from `i` on, that stays open for more than two minutes.
pub open spec fn first_open(
    list: Seq<JsonView>,
    now_secs: i64,
    now_nanos: u32,
    i: int,
) -> Option<int>
    decreases list.len() - i,
{
    if i < 0 || i >= list.len() {
        None
    } else if stays_open(closes_in(list[i], now_secs, now_nanos)) {
        Some(i)
    } else {
        first_open(list, now_secs, now_nanos, i + 1)
    }
}

/// The items of an answer's payload; none where it is no list.
pub open spec fn payload_items(v: JsonView) -> Seq<JsonView> {
    match v.array_at("data"@) {
        Some(l) => l,
        None => Seq::empty(),
    }
}

fn payload_list(v: &Json) -> (r: Vec<Json>)
    ensures
        json::items_view(r@) == payload_items(v@),
{
    match v.array_at("data") {
        Some(l) => copy_items(l),
        None => Vec::new(),
    }
}

/// Whether a recommendation is more than advice to stay out.
pub fn is_actionable(r: &Json) -> (b: bool)
    ensures
        b == actionable(r@),
{
    match r.str_at("action") {
        Some(a) => !text::same(a, "skip"),
        None => true,
    }
}

fn find_actionable(list: &Vec<Json>) -> (r: Option<usize>)
    ensures
        match r {
            Some(p) => first_actionable(json::items_view(list@), 0) == Some(p as int) && p
                < list@.len(),
            None => first_actionable(json::items_view(list@), 0) is None,
        },
{
    let ghost seen = json::items_view(list@);
    let mut i: usize = 0;
    proof {
        json::lemma_items_view(list@);
    }
    while i < list.len()
        invariant
            seen == json::items_view(list@),
            seen.len() == list@.len(),
            i <= list@.len(),
            first_actionable(seen, 0) == first_actionable(seen, i as int),
        decreases list@.len() - i,
    {
        proof {
            json::lemma_items_view(list@);
        }
        if is_actionable(&list[i]) {
            return Some(i);
        }
        i += 1;
    }
    None
}

/// Whether a market that closes after so many seconds stays open long enough.
pub fn open_long_enough(seconds: Option<i64>) -> (b: bool)
    ensures
        b == stays_open(seconds),
{
    match seconds {
        Some(s) => s > 120,
        None => false,
    }
}

fn seconds_open(m: &Json, now_secs: i64, now_nanos: u32) -> (r: Option<i64>)
    ensures
        r == closes_in(m@, now_secs, now_nanos),
{
    match m.str_at("close_at") {
        Some(t) => time::seconds_until(t, now_secs, now_nanos),
        None => None,
    }
}

fn find_open(list: &Vec<Json>, now_secs: i64, now_nanos: u32) -> (r: Option<usize>)
    ensures
        match r {
            Some(p) => first_open(json::items_view(list@), now_secs, now_nanos, 0) == Some(
                p as int,
            ) && p < list@.len(),
            None => first_open(json::items_view(list@), now_secs, now_nanos, 0) is None,
        },
{
    let ghost seen = json::items_view(list@);
    let mut i: usize = 0;
    proof {
        json::lemma_items_view(list@);
    }
    while i < list.len()
        invariant
            seen == json::items_view(list@),
            seen.len() == list@.len(),
            i <= list@.len(),
            first_open(seen, now_secs, now_nanos, 0) == first_open(
                seen,
                now_secs,
                now_nanos,
                i as int,
            ),
        decreases list@.len() - i,
    {
        proof {
            json::lemma_items_view(list@);
        }
        if open_long_enough(seconds_open(&list[i], now_secs, now_nanos)) {
            return Some(i);
        }
        i += 1;
    }
    None
}

// One round.

/// Where a round stands: what it is waiting for, and what it knows.
#[derive(Debug, PartialEq, Eq)]
pub enum Stage {
    /// How the agent stands.
    Status,
    /// The coordinator's recommendations.
    Recommend { agent: Agent },
    /// The open markets, as nothing was recommended.
    Active { agent: Agent, markets: Vec<Json> },
    /// The price history of the chosen market.
    Klines { agent: Agent, markets: Vec<Json>, market_id: String, market: Json },
    /// Prices and balance as decimals.
    Render { balance: Balance, briefing: Briefing },
    /// The model's answer.
    Model { markets: Vec<Json>, market_id: String, stake: u32 },
    /// Whether the prediction was accepted.
    Submit { market_id: String, direction: String },
}

#[verifier::ext_equal]
pub enum StageView {
    Status,
    Recommend { agent: AgentView },
    Active { agent: AgentView, markets: Seq<JsonView> },
    Klines { agent: AgentView, markets: Seq<JsonView>, market_id: Seq<char>, market: JsonView },
    Render { balance: BalanceView, briefing: BriefingView },
    Model { markets: Seq<JsonView>, market_id: Seq<char>, stake: u32 },
    Submit { market_id: Seq<char>, direction: Seq<char> },
}

/// What a round was waiting for. A request that failed comes as the text of its error.
#[derive(Debug, PartialEq, Eq)]
pub enum Event {
    /// The coordinator's answer.
    Answered(Result<Json, String>),
    /// The coordinator's answer, and when it came.
    AnsweredAt { answer: Result<Json, String>, now_secs: i64, now_nanos: u32 },
    /// The balance without decimals, a twentieth of it as whole tickets, and the prices.
    Rendered { balance: String, twentieth: u32, prices: Prices, candles: Vec<CandleText> },
    /// What the model wrote.
    Wrote(Result<String, String>),
}

#[verifier::ext_equal]
pub enum EventView {
    Answered(Result<JsonView, Seq<char>>),
    AnsweredAt { answer: Result<JsonView, Seq<char>>, now_secs: i64, now_nanos: u32 },
    Rendered {
        balance: Seq<char>,
        twentieth: u32,
        up: Seq<char>,
        down: Seq<char>,
        candles: Seq<CandleTextView>,
    },
    Wrote(Result<Seq<char>, Seq<char>>),
}

/// What a round does next.
#[derive(Debug, PartialEq, Eq)]
pub enum Action {
    /// Fetch a path of the coordinator.
    Get(String),
    /// Fetch a path of the coordinator, signed.
    GetAuth(String),
    /// Write prices and balance as decimals.
    Render,
    /// Put a prompt to the model.
    Ask(String),
    /// Post to a path of the coordinator, signed.
    Post { path: String, body: Json },
    /// End the round.
    Finish(IterationResult),
}

#[verifier::ext_equal]
pub enum ActionView {
    Get(Seq<char>),
    GetAuth(Seq<char>),
    Render,
    Ask(Seq<char>),
    Post { path: Seq<char>, body: JsonView },
    Finish(IterationView),
}

impl Stage {
    pub open spec fn view(&self) -> StageView {
        match self {
            Stage::Status => StageView::Status,
            Stage::Recommend { agent } => StageView::Recommend { agent: agent@ },
            Stage::Active { agent, markets } => StageView::Active {
                agent: agent@,
                markets: json::items_view(markets@),
            },
            Stage::Klines { agent, markets, market_id, market } => StageView::Klines {
                agent: agent@,
                markets: json::items_view(markets@),
                market_id: market_id@,
                market: market@,
            },
            Stage::Render { balance, briefing } => StageView::Render {
                balance: balance@,
                briefing: briefing@,
            },
            Stage::Model { markets, market_id, stake } => StageView::Model {
                markets: json::items_view(markets@),
                market_id: market_id@,
                stake: *stake,
            },
            Stage::Submit { market_id, direction } => StageView::Submit {
                market_id: market_id@,
                direction: direction@,
            },
        }
    }
}

impl Event {
    pub open spec fn view(&self) -> EventView {
        match self {
            Event::Answered(r) => EventView::Answered(output::answered(*r)),
            Event::AnsweredAt { answer, now_secs, now_nanos } => EventView::AnsweredAt {
                answer: output::answered(*answer),
                now_secs: *now_secs,
                now_nanos: *now_nanos,
            },
            Event::Rendered { balance, twentieth, prices, candles } => EventView::Rendered {
                balance: balance@,
                twentieth: *twentieth,
                up: prices.up@,
                down: prices.down@,
                candles: candles@.map_values(|t: CandleText| t@),
            },
            Event::Wrote(r) => EventView::Wrote(
                match r {
                    Ok(t) => Ok(t@),
                    Err(e) => Err(e@),
                },
            ),
        }
    }
}

impl Action {
    pub open spec fn view(&self) -> ActionView {
        match self {
            Action::Get(p) => ActionView::Get(p@),
            Action::GetAuth(p) => ActionView::GetAuth(p@),
            Action::Render => ActionView::Render,
            Action::Ask(p) => ActionView::Ask(p@),
            Action::Post { path, body } => ActionView::Post { path: path@, body: body@ },
            Action::Finish(r) => ActionView::Finish(r@),
        }
    }
}

/// Whether an event is what a stage waits for.
pub open spec fn awaits(stage: StageView, event: EventView) -> bool {
    match (stage, event) {
        (StageView::Status, EventView::Answered(_)) => true,
        (StageView::Recommend { .. }, EventView::Answered(_)) => true,
        (StageView::Active { .. }, EventView::AnsweredAt { .. }) => true,
        (StageView::Klines { .. }, EventView::Answered(_)) => true,
        (StageView::Render { briefing, .. }, EventView::Rendered { candles, .. }) => candles.len()
            == prompt::shown_candles(briefing.klines).len(),
        (StageView::Model { .. }, EventView::Wrote(_)) => true,
        (StageView::Submit { .. }, EventView::Answered(_)) => true,
        _ => false,
    }
}

/// The end of a round.
pub open spec fn finish(r: IterationView) -> (Option<StageView>, ActionView) {
    (None, ActionView::Finish(r))
}

/// What follows when it is known how the agent stands: where its time slot is used up, nothing
/// but a wait of at least ten seconds.
pub open spec fn after_status(
    answer: Result<JsonView, Seq<char>>,
) -> (Option<StageView>, ActionView) {
    match answer {
        Err(e) => finish(IterationView::Error { reason: "status fetch failed: "@ + e }),
        Ok(v) => {
            let agent = agent_in(v.data());
            if agent.submissions_remaining <= 0 {
                finish(
                    IterationView::RateLimited {
                        wait_seconds: if agent.slot_resets_in < 10 {
                            10
                        } else {
                            agent.slot_resets_in
                        },
                    },
                )
            } else {
                (
                    Some(StageView::Recommend { agent }),
                    ActionView::GetAuth("/api/v1/markets/recommend"@),
                )
            }
        },
    }
}

/// What follows when a market is chosen: its price history, unless it has no id.
pub open spec fn chosen(
    agent: AgentView,
    markets: Seq<JsonView>,
    market_id: Seq<char>,
    market: JsonView,
) -> (Option<StageView>, ActionView) {
    if market_id.len() == 0 {
        finish(IterationView::NoMarkets { wait_seconds: 300 })
    } else {
        (
            Some(StageView::Klines { agent, markets, market_id, market }),
            ActionView::Get("/api/v1/markets/"@ + market_id + "/klines"@),
        )
    }
}

/// What follows the recommendations. Where there are none, or they could not be fetched, the open
/// markets are asked for.
pub open spec fn after_recommendations(
    agent: AgentView,
    answer: Result<JsonView, Seq<char>>,
) -> (Option<StageView>, ActionView) {
    let markets = match answer {
        Ok(v) => payload_items(v),
        Err(_) => Seq::empty(),
    };
    match first_actionable(markets, 0) {
        Some(i) => chosen(
            agent,
            markets,
            markets[i].str_or("market_id"@, Seq::empty()),
            markets[i],
        ),
        None => (
            Some(StageView::Active { agent, markets }),
            ActionView::Get("/api/v1/markets/active"@),
        ),
    }
}

/// What follows the open markets: the first that stays open for more than two minutes.
pub open spec fn after_markets(
    agent: AgentView,
    markets: Seq<JsonView>,
    answer: Result<JsonView, Seq<char>>,
    now_secs: i64,
    now_nanos: u32,
) -> (Option<StageView>, ActionView) {
    match answer {
        Err(e) => finish(IterationView::Error { reason: "markets fetch failed: "@ + e }),
        Ok(v) => {
            let open = payload_items(v);
            match first_open(open, now_secs, now_nanos, 0) {
                Some(i) => chosen(agent, markets, open[i].str_or("id"@, Seq::empty()), open[i]),
                None => finish(IterationView::NoMarkets { wait_seconds: 300 }),
            }
        },
    }
}

/// The price history in an answer.
pub open spec fn klines_in(answer: Result<JsonView, Seq<char>>) -> Option<Seq<JsonView>> {
    match answer {
        Ok(v) => match v.get("data"@) {
            Some(d) => d.array_at("klines"@),
            None => None,
        },
        Err(_) => None,
    }
}

/// What follows the price history, which may be missing.
pub open spec fn after_klines(
    agent: AgentView,
    markets: Seq<JsonView>,
    market_id: Seq<char>,
    market: JsonView,
    answer: Result<JsonView, Seq<char>>,
) -> (Option<StageView>, ActionView) {
    (
        Some(
            StageView::Render {
                balance: agent.balance,
                briefing: BriefingView {
                    market_id,
                    market,
                    klines: klines_in(answer),
                    markets,
                    persona: agent.persona,
                    submissions_remaining: agent.submissions_remaining,
                    open_orders: agent.open_orders,
                    recent_results: agent.recent_results,
                },
            },
        ),
        ActionView::Render,
    )
}

/// The tickets to stake where the model names none: a twentieth of the balance, at least one.
pub open spec fn usual_stake(twentieth: u32) -> u32 {
    if twentieth < 1 {
        1
    } else {
        twentieth
    }
}

/// Whether a market is among the recommended ones, by either of its ids.
pub open spec fn recommended(markets: Seq<JsonView>, id: Seq<char>) -> bool {
    exists|i: int|
        0 <= i < markets.len() && (#[trigger] markets[i].str_at("market_id"@) == Some(id)
            || markets[i].str_at("id"@) == Some(id))
}

/// The market to submit to: the one that the model names, where it is among the recommended ones,
/// and otherwise the chosen one.
pub open spec fn final_market(
    markets: Seq<JsonView>,
    market_id: Seq<char>,
    named: Option<Seq<char>>,
) -> Seq<char> {
    match named {
        Some(id) => if recommended(markets, id) {
            id
        } else {
            market_id
        },
        None => market_id,
    }
}

/// What is posted for a prediction.
pub open spec fn submission_body(
    market: Seq<char>,
    prediction: Seq<char>,
    tickets: u32,
    reasoning: Seq<char>,
) -> JsonView {
    JsonView::object().with("market_id"@, JsonView::String(market)).with(
        "prediction"@,
        JsonView::String(prediction),
    ).with("tickets"@, JsonView::unsigned(tickets as u64)).with(
        "reasoning"@,
        JsonView::String(reasoning),
    )
}

/// What follows a decision of the model.
pub open spec fn after_decision(
    markets: Seq<JsonView>,
    market_id: Seq<char>,
    stake: u32,
    d: ReplyView,
) -> (Option<StageView>, ActionView) {
    let market = final_market(markets, market_id, d.market_id);
    let tickets = match d.tickets {
        Some(t) => t,
        None => stake,
    };
    (
        Some(StageView::Submit { market_id: market, direction: d.direction }),
        ActionView::Post {
            path: "/api/v1/predictions"@,
            body: submission_body(market, d.direction, tickets, d.reasoning),
        },
    )
}

/// What follows the model's answer.
pub open spec fn after_model(
    markets: Seq<JsonView>,
    market_id: Seq<char>,
    stake: u32,
    answer: Result<Seq<char>, Seq<char>>,
) -> (Option<StageView>, ActionView) {
    match answer {
        Err(e) => finish(IterationView::LlmFailed { reason: e }),
        Ok(t) => match reply::decision_in_text(t) {
            Err(e) => finish(IterationView::LlmFailed { reason: "parse failed: "@ + e.text() }),
            Ok(d) => after_decision(markets, market_id, stake, d),
        },
    }
}

/// A short text for an error: the message in the answer that it quotes, or the first 200
/// characters.
pub open spec fn short_error(err: Seq<char>, quoted: Option<JsonView>) -> Seq<char> {
    match server_error::message_in_opt(quoted) {
        Some(m) => m,
        None => server_error::head(err, 200),
    }
}

/// How a round ends, by the answer to its submission, or its error and the answer that this
/// quotes.
pub open spec fn submission_ended(
    market: Seq<char>,
    direction: Seq<char>,
    answer: Result<JsonView, Seq<char>>,
    quoted: Option<JsonView>,
) -> IterationView {
    match answer {
        Ok(_) => IterationView::Submitted { market, direction },
        Err(e) => if text::contains(e, "RATE_LIMIT"@) || text::contains(e, "429"@) {
            IterationView::RateLimited { wait_seconds: 300 }
        } else if text::contains(e, "INSUFFICIENT_BALANCE"@) {
            IterationView::NoMarkets { wait_seconds: 600 }
        } else {
            IterationView::Error { reason: "submit failed: "@ + short_error(e, quoted) }
        },
    }
}

/// How a round ends, by the answer to its submission.
pub open spec fn after_submission(
    market: Seq<char>,
    direction: Seq<char>,
    answer: Result<JsonView, Seq<char>>,
) -> IterationView {
    submission_ended(
        market,
        direction,
        answer,
        match answer {
            Ok(_) => None,
            Err(e) => server_error::answer_in(e),
        },
    )
}

/// What a round does next.
pub open spec fn step(stage: StageView, event: EventView) -> (Option<StageView>, ActionView) {
    match (stage, event) {
        (StageView::Status, EventView::Answered(r)) => after_status(r),
        (StageView::Recommend { agent }, EventView::Answered(r)) => after_recommendations(agent, r),
        (
            StageView::Active { agent, markets },
            EventView::AnsweredAt { answer, now_secs, now_nanos },
        ) => after_markets(agent, markets, answer, now_secs, now_nanos),
        (
            StageView::Klines { agent, markets, market_id, market },
            EventView::Answered(r),
        ) => after_klines(agent, markets, market_id, market, r),
        (
            StageView::Render { briefing, .. },
            EventView::Rendered { balance, twentieth, up, down, candles },
        ) => (
            Some(
                StageView::Model {
                    markets: briefing.markets,
                    market_id: briefing.market_id,
                    stake: usual_stake(twentieth),
                },
            ),
            ActionView::Ask(prompt::prompt_text(briefing, balance, up, down, candles)),
        ),
        (StageView::Model { markets, market_id, stake }, EventView::Wrote(r)) => after_model(
            markets,
            market_id,
            stake,
            r,
        ),
        (StageView::Submit { market_id, direction }, EventView::Answered(r)) => finish(
            after_submission(market_id, direction, r),
        ),
        _ => finish(IterationView::Error { reason: Seq::empty() }),
    }
}

/// The view of where a round goes.
pub open spec fn turn_view(t: (Option<Stage>, Action)) -> (Option<StageView>, ActionView) {
    (
        match t.0 {
            Some(s) => Some(s@),
            None => None,
        },
        t.1@,
    )
}

fn failed(prefix: &str, e: &str) -> (r: (Option<Stage>, Action))
    ensures
        turn_view(r) == finish(IterationView::Error { reason: prefix@ + e@ }),
{
    let mut reason = prefix.to_owned();
    reason.append(e);
    (None, Action::Finish(IterationResult::Error { reason }))
}

fn take_status(answer: Result<Json, String>) -> (r: (Option<Stage>, Action))
    ensures
        turn_view(r) == after_status(output::answered(answer)),
{
    match answer {
        Err(e) => failed("status fetch failed: ", e.as_str()),
        Ok(v) => {
            let agent = read_agent(&v.data());
            if agent.submissions_remaining <= 0 {
                let wait_seconds: u64 = if agent.slot_resets_in < 10 {
                    10
                } else {
                    agent.slot_resets_in
                };
                (None, Action::Finish(IterationResult::RateLimited { wait_seconds }))
            } else {
                (
                    Some(Stage::Recommend { agent }),
                    Action::GetAuth("/api/v1/markets/recommend".to_owned()),
                )
            }
        },
    }
}

fn choose_market(agent: Agent, markets: Vec<Json>, market_id: String, market: Json) -> (r: (
    Option<Stage>,
    Action,
))
    ensures
        turn_view(r) == chosen(agent@, json::items_view(markets@), market_id@, market@),
{
    if market_id.as_str().is_empty() {
        (None, Action::Finish(IterationResult::NoMarkets { wait_seconds: 300 }))
    } else {
        let mut path = "/api/v1/markets/".to_owned();
        path.append(market_id.as_str());
        path.append("/klines");
        (Some(Stage::Klines { agent, markets, market_id, market }), Action::Get(path))
    }
}

fn take_recommendations(agent: Agent, answer: Result<Json, String>) -> (r: (Option<Stage>, Action))
    ensures
        turn_view(r) == after_recommendations(agent@, output::answered(answer)),
{
    let markets = match answer {
        Ok(v) => payload_list(&v),
        Err(_) => Vec::new(),
    };
    match find_actionable(&markets) {
        Some(i) => {
            proof {
                json::lemma_items_view(markets@);
                reveal_strlit("");
                assert(""@ =~= Seq::<char>::empty());
            }
            let market = markets[i].clone();
            let market_id = market.str_or("market_id", "").to_owned();
            choose_market(agent, markets, market_id, market)
        },
        None => (
            Some(Stage::Active { agent, markets }),
            Action::Get("/api/v1/markets/active".to_owned()),
        ),
    }
}

fn take_markets(
    agent: Agent,
    markets: Vec<Json>,
    answer: Result<Json, String>,
    now_secs: i64,
    now_nanos: u32,
) -> (r: (Option<Stage>, Action))
    ensures
        turn_view(r) == after_markets(
            agent@,
            json::items_view(markets@),
            output::answered(answer),
            now_secs,
            now_nanos,
        ),
{
    match answer {
        Err(e) => failed("markets fetch failed: ", e.as_str()),
        Ok(v) => {
            let open = payload_list(&v);
            match find_open(&open, now_secs, now_nanos) {
                Some(i) => {
                    proof {
                        json::lemma_items_view(open@);
                        reveal_strlit("");
                        assert(""@ =~= Seq::<char>::empty());
                    }
                    let market = open[i].clone();
                    let market_id = market.str_or("id", "").to_owned();
                    choose_market(agent, markets, market_id, market)
                },
                None => (None, Action::Finish(IterationResult::NoMarkets { wait_seconds: 300 })),
            }
        },
    }
}

fn read_klines(answer: &Result<Json, String>) -> (r: Option<Vec<Json>>)
    ensures
        prompt::opt_items(r) == klines_in(output::answered(*answer)),
{
    match answer {
        Ok(v) => match v.get("data") {
            Some(d) => list_at(d, "klines"),
            None => None,
        },
        Err(_) => None,
    }
}

fn is_recommended(markets: &Vec<Json>, id: &str) -> (b: bool)
    ensures
        b == recommended(json::items_view(markets@), id@),
{
    let ghost seen = json::items_view(markets@);
    let mut i: usize = 0;
    proof {
        json::lemma_items_view(markets@);
    }
    while i < markets.len()
        invariant
            seen == json::items_view(markets@),
            seen.len() == markets@.len(),
            i <= markets@.len(),
            forall|j: int|
                0 <= j < i ==> #[trigger] seen[j].str_at("market_id"@) != Some(id@)
                    && seen[j].str_at("id"@) != Some(id@),
        decreases markets@.len() - i,
    {
        proof {
            json::lemma_items_view(markets@);
            assert(seen[i as int].str_at("market_id"@) == markets@[i as int]@.str_at(
                "market_id"@,
            ));
        }
        let by_market_id = match markets[i].str_at("market_id") {
            Some(m) => text::same(m, id),
            None => false,
        };
        let by_id = match markets[i].str_at("id") {
            Some(m) => text::same(m, id),
            None => false,
        };
        if by_market_id || by_id {
            return true;
        }
        i += 1;
    }
    false
}

/// What is posted for a prediction.
pub fn body(market: &str, prediction: &str, tickets: u32, reasoning: &str) -> (r: Json)
    ensures
        r@ == submission_body(market@, prediction@, tickets, reasoning@),
{
    Json::object().with("market_id", Json::text(market)).with(
        "prediction",
        Json::text(prediction),
    ).with("tickets", Json::unsigned(tickets as u64)).with("reasoning", Json::text(reasoning))
}

/// Takes in a decision of the model.
pub fn take_decision(
    markets: &Vec<Json>,
    market_id: &str,
    stake: u32,
    d: reply::LlmReply,
) -> (r: (Option<Stage>, Action))
    ensures
        turn_view(r) == after_decision(json::items_view(markets@), market_id@, stake, d@),
{
    let market = match d.market_id {
        Some(id) => if is_recommended(markets, id.as_str()) {
            id
        } else {
            market_id.to_owned()
        },
        None => market_id.to_owned(),
    };
    let tickets: u32 = match d.tickets {
        Some(t) => t,
        None => stake,
    };
    let posted = body(market.as_str(), d.direction.as_str(), tickets, d.reasoning.as_str());
    (
        Some(Stage::Submit { market_id: market, direction: d.direction }),
        Action::Post { path: "/api/v1/predictions".to_owned(), body: posted },
    )
}

fn take_answer(
    markets: Vec<Json>,
    market_id: String,
    stake: u32,
    answer: Result<String, String>,
) -> (r: (Option<Stage>, Action))
    ensures
        turn_view(r) == after_model(
            json::items_view(markets@),
            market_id@,
            stake,
            match answer {
                Ok(t) => Ok(t@),
                Err(e) => Err(e@),
            },
        ),
{
    match answer {
        Err(reason) => (None, Action::Finish(IterationResult::LlmFailed { reason })),
        Ok(t) => match reply::parse_llm_response(t.as_str()) {
            Err(e) => {
                let mut reason = "parse failed: ".to_owned();
                reason.append(e.message().as_str());
                (None, Action::Finish(IterationResult::LlmFailed { reason }))
            },
            Ok(d) => take_decision(&markets, market_id.as_str(), stake, d),
        },
    }
}

/// A short text for an error, which quotes an answer of the coordinator or does not.
pub fn shorten_error(err: &str, quoted: Option<&Json>) -> (r: String)
    ensures
        r@ == short_error(err@, json::maybe(quoted)),
{
    if let Some(v) = quoted {
        if let Some(m) = server_error::message(v) {
            return m.to_owned();
        }
    }
    server_error::first_chars(err, 200)
}

/// A short text for an error.
pub fn extract_short_error(err: &str) -> (r: String)
    ensures
        r@ == short_error(err@, server_error::answer_in(err@)),
{
    let quoted = server_error::answer(err);
    shorten_error(err, quoted.as_ref())
}

/// How a round ends, by the answer to its submission; `quoted` is the answer of the coordinator
/// that the error quotes.
pub fn end_submission(
    market: String,
    direction: String,
    answer: Result<Json, String>,
    quoted: Option<&Json>,
) -> (r: IterationResult)
    ensures
        r@ == submission_ended(
            market@,
            direction@,
            output::answered(answer),
            json::maybe(quoted),
        ),
{
    match answer {
        Ok(_) => IterationResult::Submitted { market, direction },
        Err(e) => {
            let err = e.as_str();
            if text::contains_text(err, "RATE_LIMIT") || text::contains_text(err, "429") {
                return IterationResult::RateLimited { wait_seconds: 300 };
            }
            if text::contains_text(err, "INSUFFICIENT_BALANCE") {
                return IterationResult::NoMarkets { wait_seconds: 600 };
            }
            let mut reason = "submit failed: ".to_owned();
            reason.append(shorten_error(err, quoted).as_str());
            IterationResult::Error { reason }
        },
    }
}

fn take_submission(market: String, direction: String, answer: Result<Json, String>) -> (r:
    IterationResult)
    ensures
        r@ == after_submission(market@, direction@, output::answered(answer)),
{
    let quoted = match &answer {
        Ok(_) => None,
        Err(e) => server_error::answer(e.as_str()),
    };
    end_submission(market, direction, answer, quoted.as_ref())
}

/// Begins a round.
pub fn begin_iteration() -> (r: (Stage, Action))
    ensures
        r.0@ == StageView::Status,
        r.1@ == ActionView::GetAuth("/api/v1/agents/me/status"@),
{
    (Stage::Status, Action::GetAuth("/api/v1/agents/me/status".to_owned()))
}

/// How a round ends where the client could not be set up.
pub fn client_failed(e: &str) -> (r: IterationResult)
    ensures
        r@ == (IterationView::Error { reason: "API client init failed: "@ + e@ }),
{
    let mut reason = "API client init failed: ".to_owned();
    reason.append(e);
    IterationResult::Error { reason }
}

/// Moves a round on: from what it was waiting for to what it does next.
pub fn advance(stage: Stage, event: Event) -> (r: (Option<Stage>, Action))
    requires
        awaits(stage@, event@),
    ensures
        turn_view(r) == step(stage@, event@),
{
    match (stage, event) {
        (Stage::Status, Event::Answered(answer)) => take_status(answer),
        (Stage::Recommend { agent }, Event::Answered(answer)) => take_recommendations(
            agent,
            answer,
        ),
        (
            Stage::Active { agent, markets },
            Event::AnsweredAt { answer, now_secs, now_nanos },
        ) => take_markets(agent, markets, answer, now_secs, now_nanos),
        (Stage::Klines { agent, markets, market_id, market }, Event::Answered(answer)) => {
            let klines = read_klines(&answer);
            let briefing = Briefing {
                market_id,
                market,
                klines,
                markets,
                persona: agent.persona,
                submissions_remaining: agent.submissions_remaining,
                open_orders: agent.open_orders,
                recent_results: agent.recent_results,
            };
            (Some(Stage::Render { balance: agent.balance, briefing }), Action::Render)
        },
        (
            Stage::Render { briefing, .. },
            Event::Rendered { balance, twentieth, prices, candles },
        ) => {
            let asked = prompt::build_prompt(&briefing, balance.as_str(), &prices, &candles);
            let stake: u32 = if twentieth < 1 {
                1
            } else {
                twentieth
            };
            (
                Some(
                    Stage::Model { markets: briefing.markets, market_id: briefing.market_id, stake },
                ),
                Action::Ask(asked),
            )
        },
        (Stage::Model { markets, market_id, stake }, Event::Wrote(answer)) => take_answer(
            markets,
            market_id,
            stake,
            answer,
        ),
        (Stage::Submit { market_id, direction }, Event::Answered(answer)) => (
            None,
            Action::Finish(take_submission(market_id, direction, answer)),
        ),
        _ => (None, Action::Finish(IterationResult::Error { reason: String::new() })),
    }
}

/// A prediction is posted to the chosen market or to a recommended one, for one of the two
/// directions, with at least 80 characters of reasoning; the stake is the model's, or else the one
/// that is given.
pub proof fn lemma_submission(
    markets: Seq<JsonView>,
    market_id: Seq<char>,
    stake: u32,
    answer: Result<Seq<char>, Seq<char>>,
)
    ensures
        match after_model(markets, market_id, stake, answer) {
            (Some(s), a) => {
                &&& s is Submit
                &&& s->Submit_market_id == market_id || recommended(markets, s->Submit_market_id)
                &&& s->Submit_direction == "up"@ || s->Submit_direction == "down"@
                &&& a is Post
                &&& a->Post_path == "/api/v1/predictions"@
                &&& a->body.str_at("market_id"@) == Some(s->Submit_market_id)
                &&& a->body.str_at("prediction"@) == Some(s->Submit_direction)
                &&& a->body.str_at("reasoning"@) is Some
                &&& a->body.str_at("reasoning"@)->0.len() >= 80
                &&& a->body.get("tickets"@) == Some(
                    JsonView::unsigned(
                        match reply::decision_in_text(answer->Ok_0)->Ok_0.tickets {
                            Some(t) => t as u64,
                            None => stake as u64,
                        },
                    ),
                )
            },
            (None, a) => a is Finish && a->Finish_0 is LlmFailed,
        },
{
    lemma_keys_differ();
}

/// The members of what is posted have different keys.
pub proof fn lemma_keys_differ()
    ensures
        "market_id"@ != "prediction"@,
        "market_id"@ != "tickets"@,
        "market_id"@ != "reasoning"@,
        "prediction"@ != "tickets"@,
        "prediction"@ != "reasoning"@,
        "tickets"@ != "reasoning"@,
{
    reveal_strlit("market_id");
    reveal_strlit("prediction");
    reveal_strlit("tickets");
    reveal_strlit("reasoning");
    assert("market_id"@[0] != "prediction"@[0]);
    assert("market_id"@[0] != "tickets"@[0]);
    assert("market_id"@[0] != "reasoning"@[0]);
    assert("prediction"@[0] != "tickets"@[0]);
    assert("prediction"@[0] != "reasoning"@[0]);
    assert("tickets"@[0] != "reasoning"@[0]);
}

/// An agent whose time slot is used up is told to wait, at least ten seconds, and nothing is
/// asked of the model or posted.
pub proof fn lemma_used_up_slot_waits(v: JsonView)
    requires
        agent_in(v.data()).submissions_remaining <= 0,
    ensures
        step(StageView::Status, EventView::Answered(Ok(v))).0 is None,
        step(StageView::Status, EventView::Answered(Ok(v))).1 matches ActionView::Finish(
            IterationView::RateLimited { wait_seconds },
        ) && wait_seconds >= 10 && wait_seconds >= agent_in(v.data()).slot_resets_in,
{
}

/// How many more stages a round can go through.
pub open spec fn stages_left(stage: StageView) -> nat {
    match stage {
        StageView::Status => 6,
        StageView::Recommend { .. } => 5,
        StageView::Active { .. } => 4,
        StageView::Klines { .. } => 3,
        StageView::Render { .. } => 2,
        StageView::Model { .. } => 1,
        StageView::Submit { .. } => 0,
    }
}

/// A round comes to an end: every step either ends it or leaves fewer stages. It ends exactly
/// where no stage is left.
pub proof fn lemma_round_ends(stage: StageView, event: EventView)
    requires
        awaits(stage, event),
    ensures
        match step(stage, event).0 {
            Some(next) => stages_left(next) < stages_left(stage) && !(step(stage, event).1
                is Finish),
            None => step(stage, event).1 is Finish,
        },
{
}

/// The model is asked only when a market was chosen, and a prediction is posted only on what the
/// model wrote.
pub proof fn lemma_order_of_steps(stage: StageView, event: EventView)
    requires
        awaits(stage, event),
    ensures
        step(stage, event).1 is Ask <==> stage is Render,
        step(stage, event).1 is Post ==> stage is Model && event is Wrote,
        step(stage, event).1 matches ActionView::Finish(r) ==> (r is Submitted ==> stage is Submit
            && event == EventView::Answered(Ok(event->Answered_0->Ok_0))),
{
}

/// The recommendation that is taken is the first that is more than advice to stay out.
pub proof fn lemma_first_actionable(list: Seq<JsonView>, i: int)
    requires
        0 <= i <= list.len(),
    ensures
        match first_actionable(list, i) {
            Some(p) => i <= p < list.len() && actionable(list[p]) && (forall|j: int|
                i <= j < p ==> !actionable(#[trigger] list[j])),
            None => forall|j: int| i <= j < list.len() ==> !actionable(#[trigger] list[j]),
        },
    decreases list.len() - i,
{
    if i < list.len() && !actionable(list[i]) {
        lemma_first_actionable(list, i + 1);
    }
}

/// The open market that is taken is the first that stays open for more than two minutes.
pub proof fn lemma_first_open(list: Seq<JsonView>, now_secs: i64, now_nanos: u32, i: int)
    requires
        0 <= i <= list.len(),
    ensures
        match first_open(list, now_secs, now_nanos, i) {
            Some(p) => {
                &&& i <= p < list.len()
                &&& closes_in(list[p], now_secs, now_nanos) matches Some(s) && s > 120
                &&& forall|j: int|
                    i <= j < p ==> !stays_open(closes_in(#[trigger] list[j], now_secs, now_nanos))
            },
            None => forall|j: int|
                i <= j < list.len() ==> !stays_open(
                    closes_in(#[trigger] list[j], now_secs, now_nanos),
                ),
        },
    decreases list.len() - i,
{
    if i < list.len() && !stays_open(closes_in(list[i], now_secs, now_nanos)) {
        lemma_first_open(list, now_secs, now_nanos, i + 1);
    }
}

/// Whatever the model writes, at least one ticket is staked: as many as the model asks for, or
/// where it names none the usual stake.
pub proof fn lemma_stake(
    markets: Seq<JsonView>,
    market_id: Seq<char>,
    twentieth: u32,
    answer: Result<Seq<char>, Seq<char>>,
)
    ensures
        after_model(markets, market_id, usual_stake(twentieth), answer).1 matches ActionView::Post {
            body,
            ..
        } ==> {
            &&& body.get("tickets"@) is Some
            &&& body.get("tickets"@)->0.as_u64() is Some
            &&& body.get("tickets"@)->0.as_u64()->0 >= 1
        },
{
    lemma_submission(markets, market_id, usual_stake(twentieth), answer);
}

} // verus!
