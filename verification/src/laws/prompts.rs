//! Laws of the prompt: what the model is told is what the coordinator said.

use vstd::prelude::*;

use crate::cmd::prompt;
use crate::cmd::prompt::{BriefingView, Candle, CandleText, CandleTextView};
use crate::double;
use crate::json::{JsonNumber, JsonView};
use crate::text;

verus! {

/// Texts put behind one another.
pub open spec fn in_a_row(parts: Seq<Seq<char>>) -> Seq<char>
    decreases parts.len(),
{
    if parts.len() == 0 {
        Seq::empty()
    } else {
        in_a_row(parts.drop_last()) + parts.last()
    }
}

/// The smaller of two lengths.
pub open spec fn up_to(n: nat, limit: nat) -> nat {
    if n < limit {
        n
    } else {
        limit
    }
}

// Candles.

/// Whether a candle holds what an object of the price history says of it, each number under its
/// own name.
pub open spec fn candle_of(c: Candle, v: JsonView) -> bool {
    &&& v is Object
    &&& c.open_time == v.i64_or("open_time"@, 0)
    &&& c.open == v.number_at("open"@)
    &&& c.high == v.number_at("high"@)
    &&& c.low == v.number_at("low"@)
    &&& c.close == v.number_at("close"@)
    &&& c.volume == v.number_at("volume"@)
}

proof fn lemma_candles_of(list: Seq<JsonView>)
    requires
        forall|i: int| 0 <= i < list.len() ==> (#[trigger] list[i]) is Object,
    ensures
        prompt::candles_in(list).len() == list.len(),
        forall|i: int|
            0 <= i < list.len() ==> candle_of(#[trigger] prompt::candles_in(list)[i], list[i]),
    decreases list.len(),
{
    if list.len() > 0 {
        let front = list.drop_last();
        assert forall|i: int| 0 <= i < front.len() implies (#[trigger] front[i]) is Object by {
            assert(list[i] is Object);
        }
        lemma_candles_of(front);
        assert(list[list.len() - 1] is Object);
        assert forall|i: int| 0 <= i < list.len() implies candle_of(
            #[trigger] prompt::candles_in(list)[i],
            list[i],
        ) by {
            if i < front.len() {
                assert(front[i] == list[i]);
                assert(prompt::candles_in(list)[i] == prompt::candles_in(front)[i]);
            }
        }
    }
}

/// Of a price history of objects the last twenty are shown, in order, and each candle has the open,
/// the high, the low, the close and the volume that its object has under that name.
pub proof fn lemma_last_candles_shown(list: Seq<JsonView>, i: int)
    requires
        forall|j: int| 0 <= j < list.len() ==> (#[trigger] list[j]) is Object,
        0 <= i < up_to(list.len(), 20),
    ensures
        prompt::shown_candles(Some(list)).len() == up_to(list.len(), 20),
        candle_of(
            prompt::shown_candles(Some(list))[i],
            list[list.len() - up_to(list.len(), 20) + i],
        ),
        prompt::shown_candles(Some(list))[i].close == list[list.len() - up_to(list.len(), 20)
            + i].number_at("close"@),
{
    let few = prompt::last_few(list, 20);
    let cut = list.len() - up_to(list.len(), 20);
    assert forall|j: int| 0 <= j < few.len() implies (#[trigger] few[j]) is Object by {
        assert(few[j] == list[cut + j]);
        assert(list[cut + j] is Object);
    }
    lemma_candles_of(few);
    assert(few[i] == list[cut + i]);
}

proof fn lemma_skipped(front: Seq<JsonView>, other: JsonView, back: Seq<JsonView>)
    requires
        !(other is Object),
    ensures
        prompt::candles_in(front + seq![other] + back) == prompt::candles_in(front + back),
    decreases back.len(),
{
    let all = front + seq![other] + back;
    let kept = front + back;
    if back.len() == 0 {
        assert(all.drop_last() =~= front);
        assert(all.last() == other);
        assert(kept =~= front);
    } else {
        assert(all.drop_last() =~= front + seq![other] + back.drop_last());
        assert(kept.drop_last() =~= front + back.drop_last());
        assert(all.last() == back.last());
        assert(kept.last() == back.last());
        lemma_skipped(front, other, back.drop_last());
    }
}

/// What is no object in the price history is passed over.
pub proof fn lemma_only_candles_shown(
    front: Seq<JsonView>,
    other: JsonView,
    back: Seq<JsonView>,
)
    requires
        !(other is Object),
        front.len() + back.len() < 20,
    ensures
        prompt::shown_candles(Some(front + seq![other] + back)) == prompt::shown_candles(
            Some(front + back),
        ),
        prompt::shown_candles(None).len() == 0,
{
    lemma_skipped(front, other, back);
}

/// Only the last twenty values of the price history make a difference to the candles.
pub proof fn lemma_old_candles_left_out(front: Seq<JsonView>, back: Seq<JsonView>)
    requires
        back.len() == 20,
    ensures
        prompt::shown_candles(Some(front + back)) == prompt::shown_candles(Some(back)),
{
    assert(prompt::last_few(front + back, 20) =~= back);
}

/// The line of a candle: its time and its numbers, in the order of the heading.
pub open spec fn row(c: Candle, t: CandleTextView) -> Seq<char> {
    text::signed_decimal(c.open_time as int) + " | "@ + t.open + " | "@ + t.high + " | "@ + t.low
        + " | "@ + t.close + " | "@ + t.volume + "\n"@
}

proof fn lemma_rows(cs: Seq<Candle>, ts: Seq<CandleTextView>)
    requires
        cs.len() == ts.len(),
    ensures
        prompt::candle_lines(cs, ts) == in_a_row(Seq::new(cs.len(), |i: int| row(cs[i], ts[i]))),
    decreases cs.len(),
{
    let rows = Seq::new(cs.len(), |i: int| row(cs[i], ts[i]));
    if cs.len() > 0 {
        lemma_rows(cs.drop_last(), ts.drop_last());
        assert(rows.drop_last() =~= Seq::new(
            cs.drop_last().len(),
            |i: int| row(cs.drop_last()[i], ts.drop_last()[i]),
        ));
        assert(rows.last() == row(cs.last(), ts.last()));
    }
}

/// The price history is told with the number of its values and one line for each candle that is
/// shown, with the decimals that were made of that candle; an empty or missing one is told as such.
pub proof fn lemma_history_told(list: Seq<JsonView>, rendered: Seq<CandleTextView>)
    requires
        rendered.len() == prompt::shown_candles(Some(list)).len(),
    ensures
        list.len() > 0 ==> prompt::klines_text(Some(list), rendered) == "## Klines ("@
            + text::decimal(list.len())
            + " candles)\n\ntime | open | high | low | close | volume\n--- | --- | --- | --- | --- | ---\n"@
            + in_a_row(
            Seq::new(
                rendered.len(),
                |i: int| row(prompt::shown_candles(Some(list))[i], rendered[i]),
            ),
        ) + "\n"@,
        list.len() == 0 ==> prompt::klines_text(Some(list), rendered) == prompt::klines_text(
            None,
            rendered,
        ),
        prompt::klines_text(None, rendered)
            == "## Klines\n\nNo kline data available. Use market data and general market awareness.\n\n"@,
{
    lemma_rows(prompt::shown_candles(Some(list)), rendered);
}

// Positions and results.

/// The line of an open position.
pub open spec fn position(o: JsonView) -> Seq<char> {
    "- "@ + o.str_or("asset"@, "?"@) + " "@ + o.str_or("window"@, "?"@) + " "@ + text::upper(
        o.str_or("direction"@, "?"@),
    ) + " — "@ + text::signed_decimal(o.i64_or("tickets"@, 0) as int) + " tickets (filled "@
        + text::signed_decimal(o.i64_or("tickets_filled"@, 0) as int) + "), closes "@ + o.str_or(
        "close_at"@,
        "?"@,
    ) + "\n"@
}

proof fn lemma_position_lines(list: Seq<JsonView>)
    ensures
        prompt::order_lines(list) == in_a_row(Seq::new(list.len(), |i: int| position(list[i]))),
    decreases list.len(),
{
    let lines = Seq::new(list.len(), |i: int| position(list[i]));
    if list.len() > 0 {
        lemma_position_lines(list.drop_last());
        assert(lines.drop_last() =~= Seq::new(
            list.drop_last().len(),
            |i: int| position(list.drop_last()[i]),
        ));
        assert(lines.last() == position(list.last()));
    }
}

/// The open positions are told with how many there are and a line for each of the first ten, in
/// order; where there are none, nothing is told.
pub proof fn lemma_positions_told(list: Seq<JsonView>)
    ensures
        list.len() > 0 ==> prompt::orders_text(Some(list)) == "\n**Your open positions ("@
            + text::decimal(list.len()) + "):**\n"@ + in_a_row(
            Seq::new(up_to(list.len(), 10), |i: int| position(list[i])),
        ),
        list.len() == 0 ==> prompt::orders_text(Some(list)).len() == 0,
        prompt::orders_text(None).len() == 0,
{
    let shown = prompt::at_most(list, 10);
    lemma_position_lines(shown);
    assert(Seq::new(shown.len(), |i: int| position(shown[i])) =~= Seq::new(
        up_to(list.len(), 10),
        |i: int| position(list[i]),
    ));
}

/// The line of a recent result.
pub open spec fn past(r: JsonView) -> Seq<char> {
    "- "@ + r.str_or("asset"@, "?"@) + " "@ + r.str_or("window"@, "?"@) + " "@ + text::upper(
        r.str_or("direction"@, "?"@),
    ) + " — "@ + (if r.get("won"@) == Some(JsonView::Bool(true)) {
        "WON"@
    } else {
        "LOST"@
    }) + " (payout: "@ + text::signed_decimal(r.i64_or("payout_chips"@, 0) as int) + ", spent: "@
        + text::signed_decimal(r.i64_or("chips_spent"@, 0) as int) + ")\n"@
}

proof fn lemma_past_lines(list: Seq<JsonView>)
    ensures
        prompt::result_lines(list) == in_a_row(Seq::new(list.len(), |i: int| past(list[i]))),
    decreases list.len(),
{
    let lines = Seq::new(list.len(), |i: int| past(list[i]));
    if list.len() > 0 {
        lemma_past_lines(list.drop_last());
        assert(lines.drop_last() =~= Seq::new(
            list.drop_last().len(),
            |i: int| past(list.drop_last()[i]),
        ));
        assert(lines.last() == past(list.last()));
    }
}

/// The recent results are told with how many there are, how many of all of them were won, and a
/// line for each of the first five, in order; where there are none, nothing is told.
pub proof fn lemma_results_told(list: Seq<JsonView>)
    ensures
        list.len() > 0 ==> prompt::results_text(Some(list)) == "\n**Recent results (last "@
            + text::decimal(list.len()) + ", "@ + text::decimal(prompt::wins(list))
            + " wins):**\n"@ + in_a_row(Seq::new(up_to(list.len(), 5), |i: int| past(list[i]))),
        list.len() == 0 ==> prompt::results_text(Some(list)).len() == 0,
        prompt::results_text(None).len() == 0,
{
    let shown = prompt::at_most(list, 5);
    lemma_past_lines(shown);
    assert(Seq::new(shown.len(), |i: int| past(shown[i])) =~= Seq::new(
        up_to(list.len(), 5),
        |i: int| past(list[i]),
    ));
}

/// Wins add up: a result counts one where it has a true "won" and nothing otherwise, and two lists
/// together have the wins of both.
pub proof fn lemma_wins(front: Seq<JsonView>, back: Seq<JsonView>, r: JsonView)
    ensures
        prompt::wins(front + back) == prompt::wins(front) + prompt::wins(back),
        r.get("won"@) == Some(JsonView::Bool(true)) ==> prompt::wins(seq![r]) == 1,
        r.get("won"@) != Some(JsonView::Bool(true)) ==> prompt::wins(seq![r]) == 0,
        prompt::wins(front) <= front.len(),
    decreases back.len(), front.len(),
{
    assert(seq![r].drop_last() =~= Seq::<JsonView>::empty());
    assert(prompt::wins(seq![r].drop_last()) == 0);
    if back.len() > 0 {
        lemma_wins(front, back.drop_last(), r);
        assert((front + back).drop_last() =~= front + back.drop_last());
        assert((front + back).last() == back.last());
    } else {
        assert(front + back =~= front);
        if front.len() > 0 {
            lemma_wins(front.drop_last(), back, r);
        }
    }
}

// The market.

/// The market's estimate is its own number under "implied_up_prob", and without such a member that
/// of its order book. Only a double that is exactly one half, and a missing estimate, make the odds
/// fair.
pub proof fn lemma_estimate(m: Map<Seq<char>, JsonView>, book: Map<Seq<char>, JsonView>)
    ensures
        m.contains_key("implied_up_prob"@) && m["implied_up_prob"@] is Number
            ==> prompt::implied_up_in(JsonView::Object(m)) == Some(
            m["implied_up_prob"@]->Number_0,
        ),
        m.contains_key("implied_up_prob"@) && !(m["implied_up_prob"@] is Number)
            ==> prompt::implied_up_in(JsonView::Object(m)) is None,
        !m.contains_key("implied_up_prob"@) && m.contains_pair("orderbook"@, JsonView::Object(book))
            && book.contains_key("implied_up_prob"@) && book["implied_up_prob"@] is Number
            ==> prompt::implied_up_in(JsonView::Object(m)) == Some(
            book["implied_up_prob"@]->Number_0,
        ),
        !m.contains_key("implied_up_prob"@) && !m.contains_key("orderbook"@)
            ==> prompt::implied_up_in(JsonView::Object(m)) is None,
        prompt::fair(None),
        forall|bits: u64| #[trigger]
            prompt::fair(Some(JsonNumber::Float(bits))) <==> bits == 0x3fe0_0000_0000_0000,
        forall|u: u64| !(#[trigger] prompt::fair(Some(JsonNumber::Unsigned(u)))),
        forall|i: i64| !(#[trigger] prompt::fair(Some(JsonNumber::Negative(i)))),
{
    assert forall|bits: u64| #[trigger] prompt::fair(Some(JsonNumber::Float(bits))) <==> bits
        == 0x3fe0_0000_0000_0000 by {
        double::lemma_half(bits);
    }
}

/// Buying a side costs its own price and wins the price of the other side, for either side.
pub proof fn lemma_odds_told(m: JsonView, up: Seq<char>, down: Seq<char>)
    ensures
        prompt::fair(prompt::implied_up_in(m)) ==> prompt::odds_text(m, up, down)
            == "  → Fair odds (0.50/0.50). Your edge comes purely from analysis.\n"@,
        !prompt::fair(prompt::implied_up_in(m)) ==> prompt::odds_text(m, up, down)
            == "  → Buying UP costs "@ + up + ", profit if correct: "@ + down
            + ". Buying DOWN costs "@ + down + ", profit if correct: "@ + up + ".\n"@,
{
}

/// The coordinator's insight is told where it gives a reason, the side that liquidity favours
/// where it suggests one other than to skip, and the order book where it has one, each number in
/// its own place.
pub proof fn lemma_hints_told(m: Map<Seq<char>, JsonView>, reason: Seq<char>, side: Seq<char>)
    ensures
        m.contains_pair("reason"@, JsonView::String(reason)) ==> prompt::insight_text(
            JsonView::Object(m),
        ) == "- Server insight: "@ + reason + "\n"@,
        !m.contains_key("reason"@) ==> prompt::insight_text(JsonView::Object(m)).len() == 0,
        m.contains_pair("suggested_side"@, JsonView::String(side)) && side != "skip"@
            ==> prompt::liquidity_text(JsonView::Object(m)) == "- Liquidity favors: "@ + text::upper(
            side,
        ) + " (counterparty orders waiting)\n"@,
        m.contains_pair("suggested_side"@, JsonView::String("skip"@)) ==> prompt::liquidity_text(
            JsonView::Object(m),
        ).len() == 0,
        !m.contains_key("suggested_side"@) ==> prompt::liquidity_text(JsonView::Object(m)).len()
            == 0,
        !m.contains_key("orderbook"@) ==> prompt::orderbook_text(JsonView::Object(m)).len() == 0,
        m.contains_key("orderbook"@) ==> {
            let book = m["orderbook"@];
            prompt::orderbook_text(JsonView::Object(m)) == "- Orderbook: UP filled="@
                + text::signed_decimal(book.i64_or("up_filled"@, 0) as int) + " open="@
                + text::signed_decimal(book.i64_or("up_open"@, 0) as int) + ", DOWN filled="@
                + text::signed_decimal(book.i64_or("down_filled"@, 0) as int) + " open="@
                + text::signed_decimal(book.i64_or("down_open"@, 0) as int) + "\n"@
        },
{
}

/// The market is told with its id, asset, window, the seconds until it closes and the price of UP,
/// and then with the hints and the odds.
pub proof fn lemma_market_told(market_id: Seq<char>, m: JsonView, up: Seq<char>, down: Seq<char>)
    ensures
        prompt::market_text(market_id, m, up, down) == "## Recommended Market\n\n- ID: "@
            + market_id + "\n- Asset: "@ + m.str_or("asset"@, "BTC/USDT"@) + "\n- Window: "@
            + m.str_or("window"@, "15m"@) + "\n- Closes in: "@ + text::signed_decimal(
            m.i64_or("closes_in_seconds"@, 0) as int,
        ) + "s\n- implied_up_prob: "@ + up + "\n"@ + prompt::insight_text(m)
            + prompt::liquidity_text(m) + prompt::orderbook_text(m) + prompt::odds_text(m, up, down)
            + "\n"@,
{
}

// The other markets.

/// The line of another market. Its id is what it has under "market_id", or without such a member
/// what it has under "id".
pub open spec fn alternative(m: JsonView) -> Seq<char> {
    let id = if m.get("market_id"@) is Some {
        m.str_or("market_id"@, "?"@)
    } else {
        m.str_or("id"@, "?"@)
    };
    "- "@ + id + " ("@ + m.str_or("asset"@, "?"@) + " "@ + m.str_or("window"@, "?"@) + ") score="@
        + text::signed_decimal(m.i64_or("score"@, 0) as int) + " suggested="@ + m.str_or(
        "suggested_side"@,
        "?"@,
    ) + " — "@ + m.str_or("reason"@, Seq::empty()) + "\n"@
}

proof fn lemma_alternative_lines(list: Seq<JsonView>)
    ensures
        prompt::other_lines(list) == in_a_row(Seq::new(list.len(), |i: int| alternative(list[i]))),
    decreases list.len(),
{
    let lines = Seq::new(list.len(), |i: int| alternative(list[i]));
    if list.len() > 0 {
        lemma_alternative_lines(list.drop_last());
        assert(lines.drop_last() =~= Seq::new(
            list.drop_last().len(),
            |i: int| alternative(list.drop_last()[i]),
        ));
        assert(lines.last() == alternative(list.last()));
    }
}

/// The markets behind the first are told, up to eight of them, in order; a single market has none
/// beside it.
pub proof fn lemma_alternatives_told(markets: Seq<JsonView>)
    ensures
        markets.len() > 1 ==> prompt::others_text(markets)
            == "## Other Markets (server-ranked)\n\n"@ + in_a_row(
            Seq::new(
                up_to((markets.len() - 1) as nat, 8),
                |i: int| alternative(markets[i + 1]),
            ),
        ) + "\nYou may choose a different market by setting \"market_id\" in your response.\n\n"@,
        markets.len() <= 1 ==> prompt::others_text(markets).len() == 0,
{
    if markets.len() > 1 {
        let shown = prompt::at_most(markets.drop_first(), 8);
        lemma_alternative_lines(shown);
        assert(Seq::new(shown.len(), |i: int| alternative(shown[i])) =~= Seq::new(
            up_to((markets.len() - 1) as nat, 8),
            |i: int| alternative(markets[i + 1]),
        ));
    }
}

// The prompt as a whole.

/// The prompt is put together of the persona, the rules, the form of the answer with the chosen
/// market as default, the balance, the submissions that remain, the number of markets, the
/// positions, the results, the market, its price history and the other markets, in this order.
pub proof fn lemma_prompt(
    b: BriefingView,
    balance: Seq<char>,
    up: Seq<char>,
    down: Seq<char>,
    rendered: Seq<CandleTextView>,
)
    ensures
        prompt::prompt_text(b, balance, up, down, rendered) == prompt::intro_text(b.persona)
            + prompt::GAME_RULES@ + (prompt::ANSWER_FORM@
            + "- \"market_id\": which market (default: \""@ + b.market_id + "\")\n\n"@
            + prompt::ANSWER_TAIL@ + "- Balance: "@ + balance + " chips\n"@
            + "- Submissions remaining this timeslot: "@ + text::signed_decimal(
            b.submissions_remaining as int,
        ) + "/3\n"@ + "- Available markets: "@ + text::decimal(b.markets.len()) + "\n"@)
            + prompt::orders_text(b.open_orders) + prompt::results_text(b.recent_results) + "\n"@
            + prompt::market_text(b.market_id, b.market, up, down) + prompt::klines_text(
            b.klines,
            rendered,
        ) + prompt::others_text(b.markets),
        b.persona == "none"@ ==> prompt::intro_text(b.persona)
            == "You are a prediction agent competing in AWP Predict WorkNet.\n\n"@,
        b.persona != "none"@ ==> prompt::intro_text(b.persona)
            == "You are a prediction agent competing in AWP Predict WorkNet"@ + (" (persona: "@
            + b.persona + ")"@) + ".\n\n"@,
{
    reveal_strlit("You are a prediction agent competing in AWP Predict WorkNet");
    reveal_strlit(".\n\n");
    reveal_strlit("You are a prediction agent competing in AWP Predict WorkNet.\n\n");
    assert("You are a prediction agent competing in AWP Predict WorkNet"@ + Seq::<char>::empty()
        + ".\n\n"@ =~= "You are a prediction agent competing in AWP Predict WorkNet.\n\n"@);
}

/// The decimals of a candle stand for their texts, and a missing one for no text at all.
pub proof fn lemma_decimals(t: CandleText)
    ensures
        t.open is Some ==> t@.open == t.open->0@,
        t.high is Some ==> t@.high == t.high->0@,
        t.low is Some ==> t@.low == t.low->0@,
        t.close is Some ==> t@.close == t.close->0@,
        t.volume is Some ==> t@.volume == t.volume->0@,
        t.open is None ==> t@.open.len() == 0,
        t.high is None ==> t@.high.len() == 0,
        t.low is None ==> t@.low.len() == 0,
        t.close is None ==> t@.close.len() == 0,
        t.volume is None ==> t@.volume.len() == 0,
{
}

} // verus!
