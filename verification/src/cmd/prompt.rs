//! The prompt that asks the model for a prediction.
//!
//! Prices are doubles. The caller writes them out as decimals (see [`Candle`] and
//! [`implied_up`]); everything else is put together here.

use vstd::prelude::*;

use crate::double;
use crate::json;
use crate::json::{Json, JsonNumber, JsonView};
use crate::text;

verus! {

/// The rules of the game, as the model is told them.
pub const GAME_RULES: &'static str = "## Game Rules\n\n\
You are playing a prediction market game against other AI agents. Understanding the rules is critical to making profitable decisions.\n\n\
**How markets work:**\n\
- Each market asks: will this asset's price go UP or DOWN within a time window (15m/30m/1h)?\n\
- You commit chips (virtual tokens) to your prediction. Winners get 1 chip per ticket. Losers get 0.\n\
- Chips come from Chip Feed: 10,000 chips every 4 hours. Your current balance is all you have until the next feed.\n\n\
**How pricing works (CLOB):**\n\
- `implied_up_prob` is the market price, NOT a forecast. It reflects what other agents have already committed.\n\
- When you buy UP at price 0.70, you pay 0.70 chips per ticket. If UP wins, you get 1.00 back (profit 0.30). If DOWN wins, you lose 0.70.\n\
- When you buy DOWN at price 0.70 (meaning implied_up=0.70), you pay 0.30 per ticket. If DOWN wins, you get 1.00 (profit 0.70). If UP wins, you lose 0.30.\n\
- The further the price is from 0.50, the worse the odds for the popular side and the better for the contrarian.\n\n\
**How you earn $PRED rewards:**\n\
- Participation Pool (20%): proportional to your number of submissions (capped at 300/day). More submissions = more participation reward.\n\
- Alpha Pool (80%): proportional to your excess_score = max(0, balance - total_chips_fed_today). You earn Alpha only if you grew your chip balance beyond what was given.\n\
- Implication: submit often for participation rewards, but be accurate and size well for Alpha rewards. Reckless large bets that lose destroy your Alpha score.\n\n\
**Constraints:**\n\
- 3 submissions per 15-minute timeslot. Use all 3 for participation, but pick the best opportunities.\n\
- You can choose ANY market from the available list, not just the recommended one.\n\n";

/// What the model is asked to write.
pub const ANSWER_FORM: &'static str = "## Your Response\n\n\
Output a JSON object with these fields:\n\
- \"direction\": \"up\" or \"down\" — your prediction\n\
- \"reasoning\": your analysis (80-2000 chars, ≥2 sentences, must mention the asset or a direction word like up/down/bullish/bearish). Must be original every time.\n\
- \"tickets\": how many chips to commit (integer, ≥1)\n";

/// What closes the form of the answer, with the heading that follows.
pub const ANSWER_TAIL: &'static str = "Output ONLY the JSON. No markdown fences, no text outside the JSON.\n\n\
## Your Current State\n\n";

/// The first `n` items of a list, or all of them where there are fewer.
pub open spec fn at_most(list: Seq<JsonView>, n: int) -> Seq<JsonView> {
    if list.len() <= n {
        list
    } else {
        list.take(n)
    }
}

/// The last `n` items of a list, or all of them where there are fewer.
pub open spec fn last_few(list: Seq<JsonView>, n: int) -> Seq<JsonView> {
    if list.len() <= n {
        list
    } else {
        list.skip(list.len() - n)
    }
}

/// The view of a list that may be missing.
pub open spec fn opt_items(list: Option<Vec<Json>>) -> Option<Seq<JsonView>> {
    match list {
        Some(l) => Some(json::items_view(l@)),
        None => None,
    }
}

// Who the model is.

pub open spec fn intro_text(persona: Seq<char>) -> Seq<char> {
    let who = if persona == "none"@ {
        Seq::<char>::empty()
    } else {
        " (persona: "@ + persona + ")"@
    };
    "You are a prediction agent competing in AWP Predict WorkNet"@ + who + ".\n\n"@
}

fn intro(persona: &str) -> (r: String)
    ensures
        r@ == intro_text(persona@),
{
    let mut who = String::new();
    if !text::same(persona, "none") {
        who = " (persona: ".to_owned();
        who.append(persona);
        who.append(")");
    }
    let mut s = "You are a prediction agent competing in AWP Predict WorkNet".to_owned();
    s.append(who.as_str());
    s.append(".\n\n");
    s
}

// What the answer looks like, and where the agent stands.

pub open spec fn state_text(
    market_id: Seq<char>,
    balance: Seq<char>,
    remaining: i64,
    markets: nat,
) -> Seq<char> {
    ANSWER_FORM@ + "- \"market_id\": which market (default: \""@ + market_id + "\")\n\n"@ + ANSWER_TAIL@
        + "- Balance: "@ + balance + " chips\n"@ + "- Submissions remaining this timeslot: "@
        + text::signed_decimal(remaining as int) + "/3\n"@ + "- Available markets: "@ + text::decimal(
        markets,
    ) + "\n"@
}

fn state(market_id: &str, balance: &str, remaining: i64, markets: usize) -> (r: String)
    ensures
        r@ == state_text(market_id@, balance@, remaining, markets as nat),
{
    let mut s = ANSWER_FORM.to_owned();
    s.append("- \"market_id\": which market (default: \"");
    s.append(market_id);
    s.append("\")\n\n");
    s.append(ANSWER_TAIL);
    s.append("- Balance: ");
    s.append(balance);
    s.append(" chips\n");
    s.append("- Submissions remaining this timeslot: ");
    s.append(text::i64_text(remaining).as_str());
    s.append("/3\n");
    s.append("- Available markets: ");
    s.append(text::u64_text(markets as u64).as_str());
    s.append("\n");
    s
}

// Open positions.

pub open spec fn order_line(o: JsonView) -> Seq<char> {
    "- "@ + o.str_or("asset"@, "?"@) + " "@ + o.str_or("window"@, "?"@) + " "@ + text::upper(
        o.str_or("direction"@, "?"@),
    ) + " — "@ + text::signed_decimal(o.i64_or("tickets"@, 0) as int) + " tickets (filled "@
        + text::signed_decimal(o.i64_or("tickets_filled"@, 0) as int) + "), closes "@ + o.str_or(
        "close_at"@,
        "?"@,
    ) + "\n"@
}

pub open spec fn order_lines(orders: Seq<JsonView>) -> Seq<char>
    decreases orders.len(),
{
    if orders.len() == 0 {
        Seq::empty()
    } else {
        order_lines(orders.drop_last()) + order_line(orders.last())
    }
}

/// The open positions: how many there are, and the first ten of them.
pub open spec fn orders_text(orders: Option<Seq<JsonView>>) -> Seq<char> {
    match orders {
        Some(list) => if list.len() == 0 {
            Seq::empty()
        } else {
            "\n**Your open positions ("@ + text::decimal(list.len()) + "):**\n"@ + order_lines(
                at_most(list, 10),
            )
        },
        None => Seq::empty(),
    }
}

fn order(o: &Json) -> (r: String)
    ensures
        r@ == order_line(o@),
{
    let mut s = "- ".to_owned();
    s.append(o.str_or("asset", "?"));
    s.append(" ");
    s.append(o.str_or("window", "?"));
    s.append(" ");
    s.append(text::to_upper(o.str_or("direction", "?")).as_str());
    s.append(" — ");
    s.append(text::i64_text(o.i64_or("tickets", 0)).as_str());
    s.append(" tickets (filled ");
    s.append(text::i64_text(o.i64_or("tickets_filled", 0)).as_str());
    s.append("), closes ");
    s.append(o.str_or("close_at", "?"));
    s.append("\n");
    s
}

fn orders(list: &Option<Vec<Json>>) -> (r: String)
    ensures
        r@ == orders_text(opt_items(*list)),
{
    match list {
        Some(l) => {
            let ghost seen = json::items_view(l@);
            proof {
                json::lemma_items_view(l@);
            }
            if l.len() == 0 {
                return String::new();
            }
            let mut s = "\n**Your open positions (".to_owned();
            s.append(text::u64_text(l.len() as u64).as_str());
            s.append("):**\n");
            let ghost head = s@;
            let n: usize = if l.len() > 10 {
                10
            } else {
                l.len()
            };
            let mut i: usize = 0;
            assert(s@ =~= head + order_lines(seen.take(0)));
            while i < n
                invariant
                    seen == json::items_view(l@),
                    seen.len() == l@.len(),
                    i <= n <= l@.len(),
                    s@ == head + order_lines(seen.take(i as int)),
                decreases n - i,
            {
                proof {
                    json::lemma_items_view(l@);
                    assert(seen.take(i + 1).drop_last() =~= seen.take(i as int));
                }
                let line = order(&l[i]);
                s.append(line.as_str());
                assert(s@ =~= head + (order_lines(seen.take(i as int)) + line@));
                i += 1;
            }
            assert(seen.take(n as int) =~= at_most(seen, 10));
            s
        },
        None => String::new(),
    }
}

// Recent results.

pub open spec fn wins(results: Seq<JsonView>) -> nat
    decreases results.len(),
{
    if results.len() == 0 {
        0
    } else {
        wins(results.drop_last()) + (if results.last().flag("won"@) {
            1nat
        } else {
            0nat
        })
    }
}

pub open spec fn result_line(r: JsonView) -> Seq<char> {
    "- "@ + r.str_or("asset"@, "?"@) + " "@ + r.str_or("window"@, "?"@) + " "@ + text::upper(
        r.str_or("direction"@, "?"@),
    ) + " — "@ + (if r.flag("won"@) {
        "WON"@
    } else {
        "LOST"@
    }) + " (payout: "@ + text::signed_decimal(r.i64_or("payout_chips"@, 0) as int) + ", spent: "@
        + text::signed_decimal(r.i64_or("chips_spent"@, 0) as int) + ")\n"@
}

pub open spec fn result_lines(results: Seq<JsonView>) -> Seq<char>
    decreases results.len(),
{
    if results.len() == 0 {
        Seq::empty()
    } else {
        result_lines(results.drop_last()) + result_line(results.last())
    }
}

/// The recent results: how many there are, how many of them were won, and the first five.
pub open spec fn results_text(results: Option<Seq<JsonView>>) -> Seq<char> {
    match results {
        Some(list) => if list.len() == 0 {
            Seq::empty()
        } else {
            "\n**Recent results (last "@ + text::decimal(list.len()) + ", "@ + text::decimal(
                wins(list),
            ) + " wins):**\n"@ + result_lines(at_most(list, 5))
        },
        None => Seq::empty(),
    }
}

fn result(r: &Json) -> (s: String)
    ensures
        s@ == result_line(r@),
{
    let mut s = "- ".to_owned();
    s.append(r.str_or("asset", "?"));
    s.append(" ");
    s.append(r.str_or("window", "?"));
    s.append(" ");
    s.append(text::to_upper(r.str_or("direction", "?")).as_str());
    s.append(" — ");
    if r.flag("won") {
        s.append("WON");
    } else {
        s.append("LOST");
    }
    s.append(" (payout: ");
    s.append(text::i64_text(r.i64_or("payout_chips", 0)).as_str());
    s.append(", spent: ");
    s.append(text::i64_text(r.i64_or("chips_spent", 0)).as_str());
    s.append(")\n");
    s
}

fn count_wins(l: &Vec<Json>) -> (r: u64)
    ensures
        r == wins(json::items_view(l@)),
{
    let ghost seen = json::items_view(l@);
    let mut won: u64 = 0;
    let mut i: usize = 0;
    assert(seen.take(0) =~= Seq::<JsonView>::empty());
    proof {
        json::lemma_items_view(l@);
    }
    while i < l.len()
        invariant
            seen == json::items_view(l@),
            seen.len() == l@.len(),
            i <= l@.len(),
            won <= i,
            won == wins(seen.take(i as int)),
        decreases l@.len() - i,
    {
        proof {
            json::lemma_items_view(l@);
            assert(seen.take(i + 1).drop_last() =~= seen.take(i as int));
        }
        if l[i].flag("won") {
            won += 1;
        }
        i += 1;
    }
    assert(seen.take(i as int) =~= seen);
    won
}

fn results(list: &Option<Vec<Json>>) -> (r: String)
    ensures
        r@ == results_text(opt_items(*list)),
{
    match list {
        Some(l) => {
            let ghost seen = json::items_view(l@);
            proof {
                json::lemma_items_view(l@);
            }
            if l.len() == 0 {
                return String::new();
            }
            let mut s = "\n**Recent results (last ".to_owned();
            s.append(text::u64_text(l.len() as u64).as_str());
            s.append(", ");
            s.append(text::u64_text(count_wins(l)).as_str());
            s.append(" wins):**\n");
            let ghost head = s@;
            let n: usize = if l.len() > 5 {
                5
            } else {
                l.len()
            };
            let mut i: usize = 0;
            assert(s@ =~= head + result_lines(seen.take(0)));
            while i < n
                invariant
                    seen == json::items_view(l@),
                    seen.len() == l@.len(),
                    i <= n <= l@.len(),
                    s@ == head + result_lines(seen.take(i as int)),
                decreases n - i,
            {
                proof {
                    json::lemma_items_view(l@);
                    assert(seen.take(i + 1).drop_last() =~= seen.take(i as int));
                }
                let line = result(&l[i]);
                s.append(line.as_str());
                assert(s@ =~= head + (result_lines(seen.take(i as int)) + line@));
                i += 1;
            }
            assert(seen.take(n as int) =~= at_most(seen, 5));
            s
        },
        None => String::new(),
    }
}

// The recommended market.

/// The market's own estimate that the price goes up: the market's field, or else that of its
/// order book. A field that is there but holds no number counts as missing.
pub open spec fn implied_up_in(m: JsonView) -> Option<JsonNumber> {
    match m.get("implied_up_prob"@) {
        Some(v) => v.as_number(),
        None => match m.get("orderbook"@) {
            Some(book) => book.number_at("implied_up_prob"@),
            None => None,
        },
    }
}

/// Whether the estimate is exactly one half, which it is where there is none.
pub open spec fn fair(n: Option<JsonNumber>) -> bool {
    match n {
        Some(JsonNumber::Float(b)) => double::half(b),
        Some(_) => false,
        None => true,
    }
}

/// The price of each side, written with two decimals.
#[derive(Debug, PartialEq, Eq)]
pub struct Prices {
    pub up: String,
    pub down: String,
}

pub open spec fn insight_text(m: JsonView) -> Seq<char> {
    match m.str_at("reason"@) {
        Some(r) => "- Server insight: "@ + r + "\n"@,
        None => Seq::empty(),
    }
}

pub open spec fn liquidity_text(m: JsonView) -> Seq<char> {
    match m.str_at("suggested_side"@) {
        Some(side) => if side == "skip"@ {
            Seq::empty()
        } else {
            "- Liquidity favors: "@ + text::upper(side) + " (counterparty orders waiting)\n"@
        },
        None => Seq::empty(),
    }
}

pub open spec fn orderbook_text(m: JsonView) -> Seq<char> {
    match m.get("orderbook"@) {
        Some(b) => "- Orderbook: UP filled="@ + text::signed_decimal(
            b.i64_or("up_filled"@, 0) as int,
        ) + " open="@ + text::signed_decimal(b.i64_or("up_open"@, 0) as int) + ", DOWN filled="@
            + text::signed_decimal(b.i64_or("down_filled"@, 0) as int) + " open="@
            + text::signed_decimal(b.i64_or("down_open"@, 0) as int) + "\n"@,
        None => Seq::empty(),
    }
}

pub open spec fn odds_text(m: JsonView, up: Seq<char>, down: Seq<char>) -> Seq<char> {
    if fair(implied_up_in(m)) {
        "  → Fair odds (0.50/0.50). Your edge comes purely from analysis.\n"@
    } else {
        "  → Buying UP costs "@ + up + ", profit if correct: "@ + down + ". Buying DOWN costs "@
            + down + ", profit if correct: "@ + up + ".\n"@
    }
}

pub open spec fn market_text(
    market_id: Seq<char>,
    m: JsonView,
    up: Seq<char>,
    down: Seq<char>,
) -> Seq<char> {
    "## Recommended Market\n\n- ID: "@ + market_id + "\n- Asset: "@ + m.str_or(
        "asset"@,
        "BTC/USDT"@,
    ) + "\n- Window: "@ + m.str_or("window"@, "15m"@) + "\n- Closes in: "@ + text::signed_decimal(
        m.i64_or("closes_in_seconds"@, 0) as int,
    ) + "s\n- implied_up_prob: "@ + up + "\n"@ + insight_text(m) + liquidity_text(m)
        + orderbook_text(m) + odds_text(m, up, down) + "\n"@
}

/// The market's own estimate that the price goes up.
pub fn implied_up(m: &Json) -> (r: Option<JsonNumber>)
    ensures
        r == implied_up_in(m@),
{
    match m.get("implied_up_prob") {
        Some(v) => v.as_number(),
        None => match m.get("orderbook") {
            Some(book) => book.number_at("implied_up_prob"),
            None => None,
        },
    }
}

fn insight(m: &Json) -> (s: String)
    ensures
        s@ == insight_text(m@),
{
    match m.str_at("reason") {
        Some(r) => {
            let mut s = "- Server insight: ".to_owned();
            s.append(r);
            s.append("\n");
            s
        },
        None => String::new(),
    }
}

fn liquidity(m: &Json) -> (s: String)
    ensures
        s@ == liquidity_text(m@),
{
    match m.str_at("suggested_side") {
        Some(side) => {
            if text::same(side, "skip") {
                return String::new();
            }
            let mut s = "- Liquidity favors: ".to_owned();
            s.append(text::to_upper(side).as_str());
            s.append(" (counterparty orders waiting)\n");
            s
        },
        None => String::new(),
    }
}

fn orderbook(m: &Json) -> (s: String)
    ensures
        s@ == orderbook_text(m@),
{
    match m.get("orderbook") {
        Some(b) => {
            let mut s = "- Orderbook: UP filled=".to_owned();
            s.append(text::i64_text(b.i64_or("up_filled", 0)).as_str());
            s.append(" open=");
            s.append(text::i64_text(b.i64_or("up_open", 0)).as_str());
            s.append(", DOWN filled=");
            s.append(text::i64_text(b.i64_or("down_filled", 0)).as_str());
            s.append(" open=");
            s.append(text::i64_text(b.i64_or("down_open", 0)).as_str());
            s.append("\n");
            s
        },
        None => String::new(),
    }
}

fn odds(m: &Json, prices: &Prices) -> (s: String)
    ensures
        s@ == odds_text(m@, prices.up@, prices.down@),
{
    let even = match implied_up(m) {
        Some(JsonNumber::Float(b)) => double::is_half(b),
        Some(_) => false,
        None => true,
    };
    if even {
        return "  → Fair odds (0.50/0.50). Your edge comes purely from analysis.\n".to_owned();
    }
    let mut s = "  → Buying UP costs ".to_owned();
    s.append(prices.up.as_str());
    s.append(", profit if correct: ");
    s.append(prices.down.as_str());
    s.append(". Buying DOWN costs ");
    s.append(prices.down.as_str());
    s.append(", profit if correct: ");
    s.append(prices.up.as_str());
    s.append(".\n");
    s
}

fn market(market_id: &str, m: &Json, prices: &Prices) -> (s: String)
    ensures
        s@ == market_text(market_id@, m@, prices.up@, prices.down@),
{
    let mut s = "## Recommended Market\n\n- ID: ".to_owned();
    s.append(market_id);
    s.append("\n- Asset: ");
    s.append(m.str_or("asset", "BTC/USDT"));
    s.append("\n- Window: ");
    s.append(m.str_or("window", "15m"));
    s.append("\n- Closes in: ");
    s.append(text::i64_text(m.i64_or("closes_in_seconds", 0)).as_str());
    s.append("s\n- implied_up_prob: ");
    s.append(prices.up.as_str());
    s.append("\n");
    s.append(insight(m).as_str());
    s.append(liquidity(m).as_str());
    s.append(orderbook(m).as_str());
    s.append(odds(m, prices).as_str());
    s.append("\n");
    s
}

// Candles.

/// One candle of the price history.
#[derive(Clone, Copy, Debug, PartialEq, Eq)]
pub struct Candle {
    pub open_time: i64,
    pub open: Option<JsonNumber>,
    pub high: Option<JsonNumber>,
    pub low: Option<JsonNumber>,
    pub close: Option<JsonNumber>,
    pub volume: Option<JsonNumber>,
}

/// The numbers of a candle as decimals: the prices with two places, the volume with none.
#[derive(Debug, PartialEq, Eq)]
pub struct CandleText {
    pub open: Option<String>,
    pub high: Option<String>,
    pub low: Option<String>,
    pub close: Option<String>,
    pub volume: Option<String>,
}

#[verifier::ext_equal]
pub struct CandleTextView {
    pub open: Seq<char>,
    pub high: Seq<char>,
    pub low: Seq<char>,
    pub close: Seq<char>,
    pub volume: Seq<char>,
}

/// A text, or none at all where it is missing.
pub open spec fn text_or_nothing(t: Option<String>) -> Seq<char> {
    match t {
        Some(s) => s@,
        None => Seq::empty(),
    }
}

impl CandleText {
    pub open spec fn view(&self) -> CandleTextView {
        CandleTextView {
            open: text_or_nothing(self.open),
            high: text_or_nothing(self.high),
            low: text_or_nothing(self.low),
            close: text_or_nothing(self.close),
            volume: text_or_nothing(self.volume),
        }
    }
}

/// The candle that a value holds, if it is an object.
pub open spec fn candle_in(v: JsonView) -> Option<Candle> {
    if v is Object {
        Some(
            Candle {
                open_time: v.i64_or("open_time"@, 0),
                open: v.number_at("open"@),
                high: v.number_at("high"@),
                low: v.number_at("low"@),
                close: v.number_at("close"@),
                volume: v.number_at("volume"@),
            },
        )
    } else {
        None
    }
}

/// The candles among some values.
pub open spec fn candles_in(list: Seq<JsonView>) -> Seq<Candle>
    decreases list.len(),
{
    if list.len() == 0 {
        Seq::empty()
    } else {
        match candle_in(list.last()) {
            Some(c) => candles_in(list.drop_last()).push(c),
            None => candles_in(list.drop_last()),
        }
    }
}

/// The candles that the prompt shows: those among the last twenty values.
pub open spec fn shown_candles(klines: Option<Seq<JsonView>>) -> Seq<Candle> {
    match klines {
        Some(list) => candles_in(last_few(list, 20)),
        None => Seq::empty(),
    }
}

pub open spec fn candle_line(c: Candle, t: CandleTextView) -> Seq<char> {
    text::signed_decimal(c.open_time as int) + " | "@ + t.open + " | "@ + t.high + " | "@ + t.low
        + " | "@ + t.close + " | "@ + t.volume + "\n"@
}

pub open spec fn candle_lines(cs: Seq<Candle>, ts: Seq<CandleTextView>) -> Seq<char>
    decreases cs.len(),
{
    if cs.len() == 0 || ts.len() == 0 {
        Seq::empty()
    } else {
        candle_lines(cs.drop_last(), ts.drop_last()) + candle_line(cs.last(), ts.last())
    }
}

pub open spec fn klines_text(
    klines: Option<Seq<JsonView>>,
    rendered: Seq<CandleTextView>,
) -> Seq<char> {
    match klines {
        Some(list) => if list.len() > 0 {
            "## Klines ("@ + text::decimal(list.len())
                + " candles)\n\ntime | open | high | low | close | volume\n--- | --- | --- | --- | --- | ---\n"@
                + candle_lines(shown_candles(klines), rendered) + "\n"@
        } else {
            "## Klines\n\nNo kline data available. Use market data and general market awareness.\n\n"@
        },
        None =>
            "## Klines\n\nNo kline data available. Use market data and general market awareness.\n\n"@,
    }
}

fn candle(v: &Json) -> (r: Option<Candle>)
    ensures
        r == candle_in(v@),
        r is Some <==> v@ is Object,
        r matches Some(c) ==> {
            &&& c.open == v@.number_at("open"@)
            &&& c.high == v@.number_at("high"@)
            &&& c.low == v@.number_at("low"@)
            &&& c.close == v@.number_at("close"@)
            &&& c.volume == v@.number_at("volume"@)
        },
{
    match v {
        Json::Object(_) => Some(
            Candle {
                open_time: v.i64_or("open_time", 0),
                open: v.number_at("open"),
                high: v.number_at("high"),
                low: v.number_at("low"),
                close: v.number_at("close"),
                volume: v.number_at("volume"),
            },
        ),
        _ => None,
    }
}

/// The candles that the prompt shows, for their numbers to be written out.
pub fn candles(klines: &Option<Vec<Json>>) -> (r: Vec<Candle>)
    ensures
        r@ == shown_candles(opt_items(*klines)),
{
    let mut out: Vec<Candle> = Vec::new();
    match klines {
        Some(l) => {
            let ghost seen = json::items_view(l@);
            let start: usize = if l.len() > 20 {
                l.len() - 20
            } else {
                0
            };
            let ghost few = last_few(seen, 20);
            proof {
                json::lemma_items_view(l@);
                assert(few =~= seen.skip(start as int));
                assert(few.take(0) =~= Seq::<JsonView>::empty());
            }
            let mut i: usize = start;
            while i < l.len()
                invariant
                    seen == json::items_view(l@),
                    seen.len() == l@.len(),
                    start <= i <= l@.len(),
                    few == seen.skip(start as int),
                    out@ == candles_in(few.take(i - start)),
                decreases l@.len() - i,
            {
                proof {
                    json::lemma_items_view(l@);
                    assert(few.take(i + 1 - start).drop_last() =~= few.take(i - start));
                }
                if let Some(c) = candle(&l[i]) {
                    out.push(c);
                }
                i += 1;
            }
            assert(few.take(i - start) =~= few);
        },
        None => {},
    }
    out
}

fn push_maybe(s: &mut String, t: &Option<String>)
    ensures
        final(s)@ == old(s)@ + text_or_nothing(*t),
{
    match t {
        Some(x) => s.append(x.as_str()),
        None => {
            assert(s@ =~= s@ + Seq::<char>::empty());
        },
    }
}

fn candle_row(c: &Candle, t: &CandleText) -> (s: String)
    ensures
        s@ == candle_line(*c, t@),
{
    let mut s = text::i64_text(c.open_time);
    s.append(" | ");
    push_maybe(&mut s, &t.open);
    s.append(" | ");
    push_maybe(&mut s, &t.high);
    s.append(" | ");
    push_maybe(&mut s, &t.low);
    s.append(" | ");
    push_maybe(&mut s, &t.close);
    s.append(" | ");
    push_maybe(&mut s, &t.volume);
    s.append("\n");
    s
}

fn klines_section(klines: &Option<Vec<Json>>, rendered: &Vec<CandleText>) -> (r: String)
    requires
        rendered@.len() == shown_candles(opt_items(*klines)).len(),
    ensures
        r@ == klines_text(opt_items(*klines), rendered@.map_values(|t: CandleText| t@)),
{
    let cs = candles(klines);
    let count: usize = match klines {
        Some(l) => {
            proof {
                json::lemma_items_view(l@);
            }
            l.len()
        },
        None => 0,
    };
    if count == 0 {
        return "## Klines\n\nNo kline data available. Use market data and general market awareness.\n\n".to_owned();
    }
    let ghost ts = rendered@.map_values(|t: CandleText| t@);
    let mut s = "## Klines (".to_owned();
    s.append(text::u64_text(count as u64).as_str());
    s.append(
        " candles)\n\ntime | open | high | low | close | volume\n--- | --- | --- | --- | --- | ---\n",
    );
    let ghost head = s@;
    let mut i: usize = 0;
    assert(s@ =~= head + candle_lines(cs@.take(0), ts.take(0)));
    while i < cs.len()
        invariant
            ts == rendered@.map_values(|t: CandleText| t@),
            cs@.len() == rendered@.len(),
            i <= cs@.len(),
            s@ == head + candle_lines(cs@.take(i as int), ts.take(i as int)),
        decreases cs@.len() - i,
    {
        proof {
            assert(cs@.take(i + 1).drop_last() =~= cs@.take(i as int));
            assert(ts.take(i + 1).drop_last() =~= ts.take(i as int));
        }
        let row = candle_row(&cs[i], &rendered[i]);
        s.append(row.as_str());
        assert(s@ =~= head + (candle_lines(cs@.take(i as int), ts.take(i as int)) + row@));
        i += 1;
    }
    proof {
        assert(cs@.take(i as int) =~= cs@);
        assert(ts.take(i as int) =~= ts);
    }
    s.append("\n");
    s
}

// The other markets.

/// The id of a market as the prompt shows it.
pub open spec fn listed_id(m: JsonView) -> Seq<char> {
    let field = match m.get("market_id"@) {
        Some(v) => Some(v),
        None => m.get("id"@),
    };
    match field {
        Some(v) => match v.as_str() {
            Some(s) => s,
            None => "?"@,
        },
        None => "?"@,
    }
}

pub open spec fn other_line(m: JsonView) -> Seq<char> {
    "- "@ + listed_id(m) + " ("@ + m.str_or("asset"@, "?"@) + " "@ + m.str_or("window"@, "?"@)
        + ") score="@ + text::signed_decimal(m.i64_or("score"@, 0) as int) + " suggested="@
        + m.str_or("suggested_side"@, "?"@) + " — "@ + m.str_or("reason"@, Seq::empty()) + "\n"@
}

pub open spec fn other_lines(ms: Seq<JsonView>) -> Seq<char>
    decreases ms.len(),
{
    if ms.len() == 0 {
        Seq::empty()
    } else {
        other_lines(ms.drop_last()) + other_line(ms.last())
    }
}

/// The markets behind the first: up to eight of them.
pub open spec fn others_text(markets: Seq<JsonView>) -> Seq<char> {
    if markets.len() > 1 {
        "## Other Markets (server-ranked)\n\n"@ + other_lines(at_most(markets.drop_first(), 8))
            + "\nYou may choose a different market by setting \"market_id\" in your response.\n\n"@
    } else {
        Seq::empty()
    }
}

fn shown_id(m: &Json) -> (r: &str)
    ensures
        r@ == listed_id(m@),
{
    let field = match m.get("market_id") {
        Some(v) => Some(v),
        None => m.get("id"),
    };
    match field {
        Some(v) => match v.as_str() {
            Some(s) => s,
            None => "?",
        },
        None => "?",
    }
}

fn other(m: &Json) -> (s: String)
    ensures
        s@ == other_line(m@),
{
    let mut s = "- ".to_owned();
    s.append(shown_id(m));
    s.append(" (");
    s.append(m.str_or("asset", "?"));
    s.append(" ");
    s.append(m.str_or("window", "?"));
    s.append(") score=");
    s.append(text::i64_text(m.i64_or("score", 0)).as_str());
    s.append(" suggested=");
    s.append(m.str_or("suggested_side", "?"));
    s.append(" — ");
    proof {
        reveal_strlit("");
        assert(""@ =~= Seq::<char>::empty());
    }
    s.append(m.str_or("reason", ""));
    s.append("\n");
    s
}

fn others(l: &Vec<Json>) -> (r: String)
    ensures
        r@ == others_text(json::items_view(l@)),
{
    let ghost seen = json::items_view(l@);
    proof {
        json::lemma_items_view(l@);
    }
    if l.len() <= 1 {
        return String::new();
    }
    let ghost rest = seen.drop_first();
    let mut s = "## Other Markets (server-ranked)\n\n".to_owned();
    let ghost head = s@;
    let n: usize = if l.len() > 9 {
        9
    } else {
        l.len()
    };
    let mut i: usize = 1;
    assert(s@ =~= head + other_lines(rest.take(0)));
    while i < n
        invariant
            seen == json::items_view(l@),
            seen.len() == l@.len(),
            rest == seen.drop_first(),
            1 <= i <= n <= l@.len(),
            s@ == head + other_lines(rest.take(i - 1)),
        decreases n - i,
    {
        proof {
            json::lemma_items_view(l@);
            assert(rest.take(i as int).drop_last() =~= rest.take(i - 1));
        }
        let line = other(&l[i]);
        s.append(line.as_str());
        assert(s@ =~= head + (other_lines(rest.take(i - 1)) + line@));
        i += 1;
    }
    assert(rest.take(n - 1) =~= at_most(rest, 8));
    s.append("\nYou may choose a different market by setting \"market_id\" in your response.\n\n");
    s
}

/// What is known when the prompt is written.
#[derive(Debug, PartialEq, Eq)]
pub struct Briefing {
    pub market_id: String,
    pub market: Json,
    pub klines: Option<Vec<Json>>,
    pub markets: Vec<Json>,
    pub persona: String,
    pub submissions_remaining: i64,
    pub open_orders: Option<Vec<Json>>,
    pub recent_results: Option<Vec<Json>>,
}

#[verifier::ext_equal]
pub struct BriefingView {
    pub market_id: Seq<char>,
    pub market: JsonView,
    pub klines: Option<Seq<JsonView>>,
    pub markets: Seq<JsonView>,
    pub persona: Seq<char>,
    pub submissions_remaining: i64,
    pub open_orders: Option<Seq<JsonView>>,
    pub recent_results: Option<Seq<JsonView>>,
}

impl Briefing {
    pub open spec fn view(&self) -> BriefingView {
        BriefingView {
            market_id: self.market_id@,
            market: self.market@,
            klines: opt_items(self.klines),
            markets: json::items_view(self.markets@),
            persona: self.persona@,
            submissions_remaining: self.submissions_remaining,
            open_orders: opt_items(self.open_orders),
            recent_results: opt_items(self.recent_results),
        }
    }
}

/// The whole prompt.
pub open spec fn prompt_text(
    b: BriefingView,
    balance: Seq<char>,
    up: Seq<char>,
    down: Seq<char>,
    rendered: Seq<CandleTextView>,
) -> Seq<char> {
    intro_text(b.persona) + GAME_RULES@ + state_text(
        b.market_id,
        balance,
        b.submissions_remaining,
        b.markets.len(),
    ) + orders_text(b.open_orders) + results_text(b.recent_results) + "\n"@ + market_text(
        b.market_id,
        b.market,
        up,
        down,
    ) + klines_text(b.klines, rendered) + others_text(b.markets)
}

/// Writes the prompt. `balance` is the balance without decimals, `prices` and `rendered` are the
/// market's prices and the numbers of its candles (see [`candles`]) as decimals.
pub fn build_prompt(
    b: &Briefing,
    balance: &str,
    prices: &Prices,
    rendered: &Vec<CandleText>,
) -> (r: String)
    requires
        rendered@.len() == shown_candles(b@.klines).len(),
    ensures
        r@ == prompt_text(
            b@,
            balance@,
            prices.up@,
            prices.down@,
            rendered@.map_values(|t: CandleText| t@),
        ),
{
    proof {
        json::lemma_items_view(b.markets@);
    }
    let mut s = intro(b.persona.as_str());
    s.append(GAME_RULES);
    s.append(
        state(
            b.market_id.as_str(),
            balance,
            b.submissions_remaining,
            b.markets.len(),
        ).as_str(),
    );
    s.append(orders(&b.open_orders).as_str());
    s.append(results(&b.recent_results).as_str());
    s.append("\n");
    s.append(market(b.market_id.as_str(), &b.market, prices).as_str());
    s.append(klines_section(&b.klines, rendered).as_str());
    s.append(others(&b.markets).as_str());
    s
}

/// The prompt shows no more than twenty candles, however long the price history is.
pub proof fn lemma_few_candles(klines: Option<Seq<JsonView>>)
    ensures
        shown_candles(klines).len() <= 20,
{
    if let Some(list) = klines {
        lemma_candles_in(last_few(list, 20));
    }
}

proof fn lemma_candles_in(list: Seq<JsonView>)
    ensures
        candles_in(list).len() <= list.len(),
    decreases list.len(),
{
    if list.len() > 0 {
        lemma_candles_in(list.drop_last());
    }
}

} // verus!
