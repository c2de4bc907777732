//! `result`: how a market came out, and the agent's prediction for it.

use vstd::prelude::*;

use crate::json;
use crate::json::{Json, JsonView};
use crate::output;
use crate::output::{Internal, InternalView, Output, OutputView};
use crate::text;

verus! {

/// What `result` does when it knows the market.
#[derive(Debug, PartialEq, Eq)]
pub enum Query {
    /// Print and stop.
    Print(Output),
    /// Fetch the agent's predictions, signed: the market is resolved.
    Predictions { path: String, market: Json },
}

#[verifier::ext_equal]
pub enum QueryView {
    Print(OutputView),
    Predictions { path: Seq<char>, market: JsonView },
}

impl Query {
    pub open spec fn view(&self) -> QueryView {
        match self {
            Query::Print(o) => QueryView::Print(o@),
            Query::Predictions { path, market } => QueryView::Predictions {
                path: path@,
                market: market@,
            },
        }
    }
}

/// The path of a market.
pub fn market_path(market_id: &str) -> (r: String)
    ensures
        r@ == "/api/v1/markets/"@ + market_id@,
{
    let mut path = "/api/v1/markets/".to_owned();
    path.append(market_id);
    path
}

/// What is printed where the market cannot be fetched.
pub open spec fn not_found(market_id: Seq<char>, e: Seq<char>) -> OutputView {
    OutputView::error(
        "Market "@ + market_id + " not found: "@ + e,
        "MARKET_NOT_FOUND"@,
        "validation"@,
        false,
        "Check market ID. Use: predict-agent history"@,
        InternalView::act("fetch_context"@).run("predict-agent context"@),
    )
}

/// What is printed of a market that is not resolved yet.
pub open spec fn pending(market_id: Seq<char>, market: JsonView) -> OutputView {
    let status = market.str_or("status"@, Seq::empty());
    let closes_at = market.str_or("close_at"@, "?"@);
    OutputView::success(
        "Market "@ + market_id + " is still "@ + status
            + ". Check back after it resolves (closes at "@ + closes_at + ")."@,
        JsonView::object().with("market_id"@, JsonView::String(market_id)).with(
            "status"@,
            JsonView::String(status),
        ).with("close_at"@, JsonView::String(closes_at)).with("outcome"@, JsonView::Null),
        InternalView::act("wait"@).run("predict-agent result --market "@ + market_id).wait(60),
    )
}

/// What `result` does when the coordinator has answered on the market.
pub open spec fn begun(market_id: Seq<char>, answer: Result<JsonView, Seq<char>>) -> QueryView {
    match answer {
        Err(e) => QueryView::Print(not_found(market_id, e)),
        Ok(v) => if v.data().str_or("status"@, Seq::empty()) != "resolved"@ {
            QueryView::Print(pending(market_id, v.data()))
        } else {
            QueryView::Predictions { path: "/api/v1/predictions/me?limit=500"@, market: v.data() }
        },
    }
}

fn report_pending(market_id: &str, market: &Json) -> (r: Output)
    ensures
        r@ == pending(market_id@, market@),
{
    proof {
        reveal_strlit("");
        assert(""@ =~= Seq::<char>::empty());
    }
    let status = market.str_or("status", "");
    let closes_at = market.str_or("close_at", "?");
    let mut message = "Market ".to_owned();
    message.append(market_id);
    message.append(" is still ");
    message.append(status);
    message.append(". Check back after it resolves (closes at ");
    message.append(closes_at);
    message.append(").");
    let data = Json::object().with("market_id", Json::text(market_id)).with(
        "status",
        Json::text(status),
    ).with("close_at", Json::text(closes_at)).with("outcome", Json::Null);
    let mut command = "predict-agent result --market ".to_owned();
    command.append(market_id);
    Output::success(message, data, Internal::act("wait").run(command.as_str()).wait(60))
}

/// What `result` does when the coordinator has answered on the market, or could not be asked.
pub fn run(market_id: &str, answer: Result<Json, String>) -> (r: Query)
    ensures
        r@ == begun(market_id@, output::answered(answer)),
{
    match answer {
        Err(e) => {
            let mut message = "Market ".to_owned();
            message.append(market_id);
            message.append(" not found: ");
            message.append(e.as_str());
            Query::Print(
                Output::error(
                    message,
                    "MARKET_NOT_FOUND",
                    "validation",
                    false,
                    "Check market ID. Use: predict-agent history",
                    Internal::act("fetch_context").run("predict-agent context"),
                ),
            )
        },
        Ok(v) => {
            proof {
                reveal_strlit("");
                assert(""@ =~= Seq::<char>::empty());
            }
            let market = v.data();
            if text::same(market.str_or("status", ""), "resolved") {
                Query::Predictions { path: "/api/v1/predictions/me?limit=500".to_owned(), market }
            } else {
                Query::Print(report_pending(market_id, &market))
            }
        },
    }
}

// A resolved market.

/// The first prediction for a market, from `i` on.
pub open spec fn first_for(list: Seq<JsonView>, market_id: Seq<char>, i: int) -> Option<int>
    decreases list.len() - i,
{
    if i < 0 || i >= list.len() {
        None
    } else if list[i].str_at("market_id"@) == Some(market_id) {
        Some(i)
    } else {
        first_for(list, market_id, i + 1)
    }
}

/// The agent's prediction for a market, among those that the coordinator lists. Where it lists
/// none, or could not be asked, there is none.
pub open spec fn mine(market_id: Seq<char>, answer: Result<JsonView, Seq<char>>) -> Option<JsonView> {
    match answer {
        Err(_) => None,
        Ok(v) => match v.array_at("data"@) {
            None => None,
            Some(list) => match first_for(list, market_id, 0) {
                Some(i) => Some(list[i]),
                None => None,
            },
        },
    }
}

pub open spec fn market_data(market_id: Seq<char>, market: JsonView) -> JsonView {
    JsonView::object().with("market_id"@, JsonView::String(market_id)).with(
        "outcome"@,
        JsonView::String(market.str_or("outcome"@, "?"@)),
    ).with("open_price"@, JsonView::String(market.str_or("open_price"@, "?"@))).with(
        "resolve_price"@,
        JsonView::String(market.str_or("resolve_price"@, "?"@)),
    )
}

/// Whether a prediction names the outcome of the market.
pub open spec fn correct(market: JsonView, pred: JsonView) -> bool {
    pred.str_or("direction"@, "?"@) == market.str_or("outcome"@, "?"@)
}

/// What is said of a resolved market.
pub open spec fn verdict(market_id: Seq<char>, market: JsonView, pred: Option<JsonView>) -> Seq<
    char,
> {
    let start = "Market "@ + market_id + " resolved "@ + text::upper(
        market.str_or("outcome"@, "?"@),
    );
    match pred {
        None => start + ". You did not submit a prediction for this market."@,
        Some(p) => {
            let named = start + ". You predicted "@ + text::upper(
                p.str_or("direction"@, "?"@),
            );
            let filled = text::signed_decimal(p.i64_or("tickets_filled"@, 0) as int);
            if correct(market, p) {
                named + " — CORRECT! Payout: "@ + p.str_or("payout_chips"@, "0"@) + " chips ("@
                    + filled + " tickets filled)."@
            } else {
                named + " — WRONG. No payout ("@ + filled + " tickets filled)."@
            }
        },
    }
}

/// What is printed of a resolved market.
pub open spec fn finding(market_id: Seq<char>, market: JsonView, pred: Option<JsonView>) -> OutputView {
    let base = market_data(market_id, market);
    OutputView::success(
        verdict(market_id, market, pred),
        match pred {
            None => base.with("your_prediction"@, JsonView::Null).with("correct"@, JsonView::Null),
            Some(p) => base.with(
                "your_prediction"@,
                JsonView::String(p.str_or("direction"@, "?"@)),
            ).with("correct"@, JsonView::Bool(correct(market, p))).with(
                "tickets_filled"@,
                JsonView::signed(p.i64_or("tickets_filled"@, 0)),
            ).with("payout_received"@, JsonView::String(p.str_or("payout_chips"@, "0"@))),
        },
        InternalView::act("fetch_context"@).run("predict-agent context"@),
    )
}

fn find_for(list: &Vec<Json>, market_id: &str) -> (r: Option<usize>)
    ensures
        match r {
            Some(p) => first_for(json::items_view(list@), market_id@, 0) == Some(p as int) && p
                < list@.len(),
            None => first_for(json::items_view(list@), market_id@, 0) is None,
        },
{
    let ghost seen = json::items_view(list@);
    let mut i: usize = 0;
    proof {
        json::lemma_items_view(list@);
    }
    while i < list.len()
        invariant
            seen == json::items_view(list@),
            seen.len() == list@.len(),
            i <= list@.len(),
            first_for(seen, market_id@, 0) == first_for(seen, market_id@, i as int),
        decreases list@.len() - i,
    {
        proof {
            json::lemma_items_view(list@);
        }
        if let Some(id) = list[i].str_at("market_id") {
            if text::same(id, market_id) {
                return Some(i);
            }
        }
        i += 1;
    }
    None
}

fn build_verdict(market_id: &str, market: &Json, pred: Option<&Json>) -> (r: String)
    ensures
        r@ == verdict(market_id@, market@, json::maybe(pred)),
{
    let outcome = market.str_or("outcome", "?");
    let mut m = "Market ".to_owned();
    m.append(market_id);
    m.append(" resolved ");
    m.append(text::to_upper(outcome).as_str());
    match pred {
        None => {
            m.append(". You did not submit a prediction for this market.");
        },
        Some(p) => {
            let direction = p.str_or("direction", "?");
            let filled = text::i64_text(p.i64_or("tickets_filled", 0));
            m.append(". You predicted ");
            m.append(text::to_upper(direction).as_str());
            if text::same(direction, outcome) {
                m.append(" — CORRECT! Payout: ");
                m.append(p.str_or("payout_chips", "0"));
                m.append(" chips (");
            } else {
                m.append(" — WRONG. No payout (");
            }
            m.append(filled.as_str());
            m.append(" tickets filled).");
        },
    }
    m
}

/// What is printed of a resolved market, for the agent's prediction if there is one.
pub fn report(market_id: &str, market: &Json, pred: Option<&Json>) -> (r: Output)
    ensures
        r@ == finding(market_id@, market@, json::maybe(pred)),
{
    let outcome = market.str_or("outcome", "?");
    let base = Json::object().with("market_id", Json::text(market_id)).with(
        "outcome",
        Json::text(outcome),
    ).with("open_price", Json::text(market.str_or("open_price", "?"))).with(
        "resolve_price",
        Json::text(market.str_or("resolve_price", "?")),
    );
    let data = match pred {
        None => base.with("your_prediction", Json::Null).with("correct", Json::Null),
        Some(p) => {
            let direction = p.str_or("direction", "?");
            base.with("your_prediction", Json::text(direction)).with(
                "correct",
                Json::Bool(text::same(direction, outcome)),
            ).with("tickets_filled", Json::signed(p.i64_or("tickets_filled", 0))).with(
                "payout_received",
                Json::text(p.str_or("payout_chips", "0")),
            )
        },
    };
    let message = build_verdict(market_id, market, pred);
    Output::success(message, data, Internal::act("fetch_context").run("predict-agent context"))
}

/// What `result` prints of a resolved market, when the coordinator has answered on the agent's
/// predictions, or could not be asked.
pub fn finish(market_id: &str, market: &Json, answer: Result<Json, String>) -> (r: Output)
    ensures
        r@ == finding(market_id@, market@, mine(market_id@, output::answered(answer))),
{
    match answer {
        Err(_) => report(market_id, market, None),
        Ok(v) => match v.array_at("data") {
            None => report(market_id, market, None),
            Some(list) => {
                proof {
                    json::lemma_items_view(list@);
                }
                match find_for(list, market_id) {
                    Some(i) => report(market_id, market, Some(&list[i])),
                    None => report(market_id, market, None),
                }
            },
        },
    }
}

/// Where a prediction is found, it is one for the market, and no earlier one is.
pub proof fn lemma_first_for(list: Seq<JsonView>, market_id: Seq<char>, i: int)
    requires
        0 <= i <= list.len(),
    ensures
        match first_for(list, market_id, i) {
            Some(p) => {
                &&& i <= p < list.len()
                &&& list[p].str_at("market_id"@) == Some(market_id)
                &&& forall|j: int|
                    i <= j < p ==> (#[trigger] list[j]).str_at("market_id"@) != Some(market_id)
            },
            None => forall|j: int|
                i <= j < list.len() ==> (#[trigger] list[j]).str_at("market_id"@) != Some(
                    market_id,
                ),
        },
    decreases list.len() - i,
{
    if i < list.len() && list[i].str_at("market_id"@) != Some(market_id) {
        lemma_first_for(list, market_id, i + 1);
    }
}

/// Whatever `result` prints is consistent and names a command to run next. Outcomes come only of
/// markets that are resolved: of another, the command says to wait a minute.
pub proof fn lemma_outputs(
    market_id: Seq<char>,
    answer: Result<JsonView, Seq<char>>,
    market: JsonView,
    pred: Option<JsonView>,
)
    ensures
        begun(market_id, answer) matches QueryView::Print(o) ==> o.consistent()
            && o.internal.next_command is Some && (o.ok <==> answer is Ok) && (o.ok
            ==> o.internal.wait_seconds == Some(60u64)),
        begun(market_id, answer) is Predictions <==> (answer is Ok && answer->Ok_0.data().str_at(
            "status"@,
        ) == Some("resolved"@)),
        finding(market_id, market, pred).consistent(),
        finding(market_id, market, pred).internal.next_command == Some("predict-agent context"@),
{
    reveal_strlit("fetch_context");
    reveal_strlit("wait");
    reveal_strlit("resolved");
    assert("resolved"@.len() == 8);
}

} // verus!
