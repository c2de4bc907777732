//! Laws of `result` and `status`: what is printed is what the coordinator said.

use vstd::prelude::*;

use crate::cmd::result;
use crate::cmd::result::QueryView;
use crate::cmd::status;
use crate::json::JsonView;
use crate::laws::outputs;
use crate::text;

verus! {

/// What a finding shows of a prediction: its data.
pub open spec fn judged(
    market_id: Seq<char>,
    market: JsonView,
    pred: JsonView,
) -> Option<JsonView> {
    result::finding(market_id, market, Some(pred)).data
}

/// A prediction is called correct exactly where its direction is the outcome of the market,
/// whichever of the two the outcome is. The data say so under "correct", and the message says
/// CORRECT and names the payout, or says WRONG and names none.
pub proof fn lemma_correct_is_direction_met(
    market_id: Seq<char>,
    market: Map<Seq<char>, JsonView>,
    pred: Map<Seq<char>, JsonView>,
    outcome: Seq<char>,
    direction: Seq<char>,
)
    requires
        market.contains_pair("outcome"@, JsonView::String(outcome)),
        pred.contains_pair("direction"@, JsonView::String(direction)),
    ensures
        judged(market_id, JsonView::Object(market), JsonView::Object(pred)) is Some,
        judged(market_id, JsonView::Object(market), JsonView::Object(pred))->0.get("correct"@)
            == Some(JsonView::Bool(direction == outcome)),
        judged(market_id, JsonView::Object(market), JsonView::Object(pred))->0.get(
            "your_prediction"@,
        ) == Some(JsonView::String(direction)),
        judged(market_id, JsonView::Object(market), JsonView::Object(pred))->0.get("outcome"@)
            == Some(JsonView::String(outcome)),
        ({
            let said = result::finding(
                market_id,
                JsonView::Object(market),
                Some(JsonView::Object(pred)),
            ).user_message;
            let front = "Market "@ + market_id + " resolved "@ + text::upper(outcome)
                + ". You predicted "@ + text::upper(direction);
            let filled = text::signed_decimal(
                JsonView::Object(pred).i64_or("tickets_filled"@, 0) as int,
            );
            if direction == outcome {
                said == front + " — CORRECT! Payout: "@ + JsonView::Object(pred).str_or(
                    "payout_chips"@,
                    "0"@,
                ) + " chips ("@ + filled + " tickets filled)."@
            } else {
                said == front + " — WRONG. No payout ("@ + filled + " tickets filled)."@
            }
        }),
{
    reveal_strlit("correct");
    reveal_strlit("tickets_filled");
    reveal_strlit("payout_received");
    reveal_strlit("your_prediction");
    reveal_strlit("outcome");
    reveal_strlit("open_price");
    reveal_strlit("resolve_price");
    assert("your_prediction"@[0] == 'y');
    assert("payout_received"@[0] == 'p');
    assert("correct"@[0] == 'c');
    assert("outcome"@[0] == 'o');
}

/// What is printed of a resolved market and a prediction, member by member. What the coordinator
/// does not say is shown as a question mark, and a payout or tickets that it does not give as
/// zero.
pub proof fn lemma_finding(market_id: Seq<char>, market: JsonView, pred: JsonView)
    ensures
        result::finding(market_id, market, Some(pred)).data == Some(
            JsonView::Object(
                map![
                    "market_id"@ => JsonView::String(market_id),
                    "outcome"@ => JsonView::String(market.str_or("outcome"@, "?"@)),
                    "open_price"@ => JsonView::String(market.str_or("open_price"@, "?"@)),
                    "resolve_price"@ => JsonView::String(market.str_or("resolve_price"@, "?"@)),
                    "your_prediction"@ => JsonView::String(pred.str_or("direction"@, "?"@)),
                    "correct"@ => JsonView::Bool(
                        pred.str_or("direction"@, "?"@) == market.str_or("outcome"@, "?"@),
                    ),
                    "tickets_filled"@ => JsonView::signed(pred.i64_or("tickets_filled"@, 0)),
                    "payout_received"@ => JsonView::String(pred.str_or("payout_chips"@, "0"@)),
                ],
            ),
        ),
        result::finding(market_id, market, Some(pred)).ok,
        result::finding(market_id, market, Some(pred)).error is None,
        result::finding(market_id, market, Some(pred)).internal == outputs::hint(
            "fetch_context"@,
            Some("predict-agent context"@),
            None,
        ),
{
}

/// What is printed of a resolved market without a prediction.
pub proof fn lemma_no_prediction(market_id: Seq<char>, market: JsonView)
    ensures
        result::finding(market_id, market, None) == outputs::went_well(
            "Market "@ + market_id + " resolved "@ + text::upper(market.str_or("outcome"@, "?"@))
                + ". You did not submit a prediction for this market."@,
            JsonView::Object(
                map![
                    "market_id"@ => JsonView::String(market_id),
                    "outcome"@ => JsonView::String(market.str_or("outcome"@, "?"@)),
                    "open_price"@ => JsonView::String(market.str_or("open_price"@, "?"@)),
                    "resolve_price"@ => JsonView::String(market.str_or("resolve_price"@, "?"@)),
                    "your_prediction"@ => JsonView::Null,
                    "correct"@ => JsonView::Null,
                ],
            ),
            outputs::hint("fetch_context"@, Some("predict-agent context"@), None),
        ),
{
}

proof fn lemma_first_found(list: Seq<JsonView>, market_id: Seq<char>, i: int, k: int)
    requires
        0 <= k <= i < list.len(),
        list[i].str_at("market_id"@) == Some(market_id),
        forall|j: int| 0 <= j < i ==> (#[trigger] list[j]).str_at("market_id"@) != Some(market_id),
    ensures
        result::first_for(list, market_id, k) == Some(i),
    decreases i - k,
{
    if k < i {
        assert(list[k].str_at("market_id"@) != Some(market_id));
        lemma_first_found(list, market_id, i, k + 1);
    }
}

/// The agent's prediction for a market is the first in the coordinator's list that names the
/// market.
pub proof fn lemma_own_prediction(
    market_id: Seq<char>,
    answer: Map<Seq<char>, JsonView>,
    list: Seq<JsonView>,
    i: int,
)
    requires
        answer.contains_pair("data"@, JsonView::Array(list)),
        0 <= i < list.len(),
        list[i].get("market_id"@) == Some(JsonView::String(market_id)),
        forall|j: int|
            0 <= j < i ==> (#[trigger] list[j]).get("market_id"@) != Some(
                JsonView::String(market_id),
            ),
    ensures
        result::mine(market_id, Ok(JsonView::Object(answer))) == Some(list[i]),
{
    assert forall|j: int| 0 <= j < i implies (#[trigger] list[j]).str_at("market_id"@) != Some(
        market_id,
    ) by {
        assert(list[j].get("market_id"@) != Some(JsonView::String(market_id)));
    }
    lemma_first_found(list, market_id, i, 0);
}

/// There is no prediction where none in the list names the market, where there is no list, and
/// where the coordinator could not be asked.
pub proof fn lemma_no_own_prediction(
    market_id: Seq<char>,
    answer: JsonView,
    e: Seq<char>,
)
    requires
        answer.get("data"@) is Some && answer.get("data"@)->0 is Array ==> forall|j: int|
            0 <= j < answer.get("data"@)->0->Array_0.len() ==> (#[trigger] answer.get(
                "data"@,
            )->0->Array_0[j]).get("market_id"@) != Some(JsonView::String(market_id)),
    ensures
        result::mine(market_id, Ok(answer)) is None,
        result::mine(market_id, Err(e)) is None,
{
    if let Some(list) = answer.array_at("data"@) {
        result::lemma_first_for(list, market_id, 0);
        if let Some(i) = result::first_for(list, market_id, 0) {
            assert(list[i].get("market_id"@) != Some(JsonView::String(market_id)));
        }
    }
}

/// A market that cannot be fetched is reported as not found, in the coordinator's words. One whose
/// status is not "resolved" is reported as it stands, to be asked for again in a minute. For one
/// that is resolved the agent's last 500 predictions are fetched.
pub proof fn lemma_market_asked(
    market_id: Seq<char>,
    e: Seq<char>,
    answer: Map<Seq<char>, JsonView>,
    market: Map<Seq<char>, JsonView>,
    status: Seq<char>,
)
    requires
        answer.contains_pair("data"@, JsonView::Object(market)),
    ensures
        result::begun(market_id, Err(e)) == QueryView::Print(
            outputs::went_wrong(
                "Market "@ + market_id + " not found: "@ + e,
                "MARKET_NOT_FOUND"@,
                "validation"@,
                false,
                "Check market ID. Use: predict-agent history"@,
                outputs::hint("fetch_context"@, Some("predict-agent context"@), None),
            ),
        ),
        market.contains_pair("status"@, JsonView::String("resolved"@)) ==> result::begun(
            market_id,
            Ok(JsonView::Object(answer)),
        ) == (QueryView::Predictions {
            path: "/api/v1/predictions/me?limit=500"@,
            market: JsonView::Object(market),
        }),
        market.contains_pair("status"@, JsonView::String(status)) && status != "resolved"@ ==> {
            let closes_at = JsonView::Object(market).str_or("close_at"@, "?"@);
            result::begun(market_id, Ok(JsonView::Object(answer))) == QueryView::Print(
                outputs::went_well(
                    "Market "@ + market_id + " is still "@ + status
                        + ". Check back after it resolves (closes at "@ + closes_at + ")."@,
                    JsonView::Object(
                        map![
                            "market_id"@ => JsonView::String(market_id),
                            "status"@ => JsonView::String(status),
                            "close_at"@ => JsonView::String(closes_at),
                            "outcome"@ => JsonView::Null,
                        ],
                    ),
                    outputs::hint(
                        "wait"@,
                        Some("predict-agent result --market "@ + market_id),
                        Some(60),
                    ),
                ),
            )
        },
        !market.contains_key("status"@) ==> result::begun(market_id, Ok(JsonView::Object(answer)))
            is Print,
{
    reveal_strlit("resolved");
    assert("resolved"@.len() == 8);
}

/// `status` shows the submissions, the balance and the persona that the coordinator gives, and
/// hands its data on; where it gives none, zero, zero and "none". The balance is shown rounded
/// where it is a number, and as it is otherwise.
pub proof fn lemma_status_shown(answer: JsonView, rounded: Seq<char>)
    ensures
        ({
            let data = answer.data();
            let front = "Agent status: "@ + text::signed_decimal(
                data.i64_or("valid_submissions_today"@, 0) as int,
            ) + " submissions today, "@;
            let back = data.str_or("persona"@, "none"@);
            let next = outputs::hint("fetch_context"@, Some("predict-agent context"@), None);
            &&& status::shown(Ok(answer), Some(rounded)) == outputs::went_well(
                front + rounded + " chips balance, persona: "@ + back + "."@,
                data,
                next,
            )
            &&& status::shown(Ok(answer), None) == outputs::went_well(
                front + data.str_or("balance"@, "0"@) + " chips balance, persona: "@ + back + "."@,
                data,
                next,
            )
        }),
        status::balance_in(Ok(answer)) == answer.data().str_or("balance"@, "0"@),
{
}

/// `status` reports a failure in the coordinator's words, to be tried again.
pub proof fn lemma_status_failed(e: Seq<char>, rounded: Option<Seq<char>>)
    ensures
        status::shown(Err(e), rounded) == outputs::went_wrong(
            "Failed to fetch status: "@ + e,
            "STATUS_FAILED"@,
            "network"@,
            true,
            "Check coordinator connectivity."@,
            outputs::hint("retry"@, Some("predict-agent status"@), None),
        ),
        status::balance_in(Err(e)) == "0"@,
        status::STATUS_PATH@ == "/api/v1/agents/me/status"@,
{
}

/// A balance is shown rounded where there is a rounded form, and unchanged where there is none.
pub proof fn lemma_chips(s: Seq<char>, rounded: Seq<char>)
    ensures
        status::chips(s, Some(rounded)) == rounded,
        status::chips(s, None) == s,
{
}

} // verus!
