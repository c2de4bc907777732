//! Laws of `submit` and `set-persona`.

use vstd::prelude::*;

use crate::cmd::server_error;
use crate::cmd::set_persona;
use crate::cmd::step::StepView;
use crate::cmd::submit;
use crate::cmd::submit::{LimitPrice, PriceView, ServerError, ServerErrorView, SubmitArgs, SubmitView};
use crate::double;
use crate::json;
use crate::json::{JsonNumber, JsonView};
use crate::laws::outputs;
use crate::laws::texts;
use crate::text;

verus! {

/// Whether a limit price lies from 0.01 to 0.99, by its bits.
pub open spec fn within_limits(p: PriceView) -> bool {
    0x3f84_7ae1_47ae_147b <= p.bits <= 0x3fef_ae14_7ae1_47ae
}

/// What is posted of some arguments: the market, the prediction, the tickets and the reasoning, and
/// the limit price where there is one.
pub open spec fn body_of(a: SubmitView) -> JsonView {
    let plain = map![
        "market_id"@ => JsonView::String(a.market),
        "prediction"@ => JsonView::String(a.prediction),
        "tickets"@ => JsonView::Number(JsonNumber::Unsigned(a.tickets as u64)),
        "reasoning"@ => JsonView::String(a.reasoning),
    ];
    JsonView::Object(
        match a.limit_price {
            Some(p) => plain.insert(
                "limit_price"@,
                JsonView::Number(JsonNumber::Float(p.bits)),
            ),
            None => plain,
        },
    )
}

/// What is said of arguments that are refused.
pub open spec fn not_taken(message: Seq<char>, code: Seq<char>, suggestion: Seq<char>) -> StepView {
    StepView::Print(
        outputs::went_wrong(
            message,
            code,
            "validation"@,
            false,
            suggestion,
            outputs::hint("fix_command"@, None, None),
        ),
    )
}

/// A prediction of up or down, for at least one ticket, at no limit or at a limit from 0.01 to
/// 0.99, is posted as it was given; every such prediction is.
pub proof fn lemma_good_arguments_are_posted(a: SubmitView)
    requires
        a.prediction == "up"@ || a.prediction == "down"@,
        a.tickets >= 1,
        a.limit_price is Some ==> within_limits(a.limit_price->0),
        !a.dry_run,
    ensures
        submit::begun(a) == (StepView::Post { path: "/api/v1/predictions"@, body: body_of(a) }),
{
    if let Some(p) = a.limit_price {
        double::lemma_between(p.bits, 0x3f84_7ae1_47ae_147b, 0x3fef_ae14_7ae1_47ae);
    }
}

/// A dry run of such a prediction shows what would be posted and the command that posts it, with
/// no more than fifty characters of the reasoning.
pub proof fn lemma_dry_run_shows_what_is_posted(a: SubmitView)
    requires
        a.prediction == "up"@ || a.prediction == "down"@,
        a.tickets >= 1,
        a.limit_price is Some ==> within_limits(a.limit_price->0),
        a.dry_run,
    ensures
        ({
            let shown = if a.reasoning.len() <= 50 {
                a.reasoning
            } else {
                a.reasoning.take(50)
            };
            let plain = "predict-agent submit --market "@ + a.market + " --prediction "@
                + a.prediction + " --tickets "@ + text::decimal(a.tickets as nat)
                + " --reasoning \""@ + shown + "\""@;
            let command = match a.limit_price {
                Some(p) => plain + " --limit-price "@ + p.decimal,
                None => plain,
            };
            submit::begun(a) == StepView::Print(
                outputs::went_well(
                    "[dry-run] Would submit "@ + text::upper(a.prediction)
                        + " prediction for market "@ + a.market + " with "@ + text::decimal(
                        a.tickets as nat,
                    ) + " tickets."@,
                    JsonView::Object(
                        map![
                            "dry_run"@ => JsonView::Bool(true),
                            "would_submit"@ => body_of(a),
                        ],
                    ),
                    outputs::hint("submit"@, Some(command), None),
                ),
            )
        }),
{
    if let Some(p) = a.limit_price {
        double::lemma_between(p.bits, 0x3f84_7ae1_47ae_147b, 0x3fef_ae14_7ae1_47ae);
    }
}

/// A direction that is neither of the two is refused first, then a count of no tickets, then a
/// limit price that is out of range; in a dry run as without.
pub proof fn lemma_bad_arguments_are_refused(a: SubmitView)
    ensures
        a.prediction != "up"@ && a.prediction != "down"@ ==> submit::begun(a) == not_taken(
            "Prediction must be 'up' or 'down'."@,
            "INVALID_DIRECTION"@,
            "Use --prediction up or --prediction down."@,
        ),
        (a.prediction == "up"@ || a.prediction == "down"@) && a.tickets == 0 ==> submit::begun(a)
            == not_taken(
            "Tickets must be greater than 0."@,
            "INVALID_TICKETS"@,
            "Use --tickets N where N >= 1."@,
        ),
        (a.prediction == "up"@ || a.prediction == "down"@) && a.tickets > 0 && a.limit_price is Some
            && !within_limits(a.limit_price->0) ==> submit::begun(a) == not_taken(
            "limit-price must be between 0.01 and 0.99, got "@ + a.limit_price->0.decimal,
            "INVALID_LIMIT_PRICE"@,
            "Use --limit-price 0.01 to 0.99."@,
        ),
{
    if let Some(p) = a.limit_price {
        double::lemma_between(p.bits, 0x3f84_7ae1_47ae_147b, 0x3fef_ae14_7ae1_47ae);
    }
}

/// What is said of an accepted prediction: the direction that the coordinator confirms, or else
/// the one that was given, and what became of the order. Filled and partly filled orders tell how
/// many of the tickets were filled, and only a filled one tells the payout.
pub proof fn lemma_acceptance(a: SubmitView, answer: JsonView)
    ensures
        ({
            let data = answer.data();
            let start = "Submitted "@ + text::upper(data.str_or("direction"@, a.prediction))
                + " for "@ + a.market;
            let filled = text::signed_decimal(data.i64_or("tickets_filled"@, 0) as int);
            let total = text::decimal(a.tickets as nat);
            let payout = text::signed_decimal(data.i64_or("payout_if_correct"@, 0) as int);
            let status = data.str_or("order_status"@, "open"@);
            let said = if status == "filled"@ {
                start + ". Filled "@ + filled + "/"@ + total + " tickets. Payout if correct: "@
                    + payout + " chips."@
            } else if status == "partial"@ {
                start + ". Partially filled "@ + filled + "/"@ + total
                    + " tickets. Unfilled tickets auto-refund at close."@
            } else {
                start + ". "@ + total
                    + " tickets queued (no immediate fill). Chips locked until market close."@
            };
            &&& submit::acceptance(a, data) == said
            &&& submit::finished(a, Ok(answer)) == outputs::went_well(
                said,
                data,
                outputs::hint("fetch_context"@, Some("predict-agent context"@), None),
            )
        }),
{
    reveal_strlit("0");
    assert("0"@ =~= text::decimal(0));
}

/// The details that an answer gives of a failure: those under "error", where it has a code there.
pub open spec fn given(answer: JsonView) -> Option<ServerErrorView> {
    match answer.get("error"@) {
        Some(e) => match e.get("code"@) {
            Some(JsonView::String(code)) => Some(
                ServerErrorView {
                    code,
                    category: e.str_or("category"@, "unknown"@),
                    retryable: e.get("retryable"@) == Some(JsonView::Bool(true)),
                    suggestion: e.str_or("suggestion"@, Seq::empty()),
                },
            ),
            _ => None,
        },
        None => None,
    }
}

/// The details of a failure are those that the text gives as JSON, or else those that its end
/// gives from the first brace on.
pub proof fn lemma_details_given(err: Seq<char>, whole: Option<JsonView>, tail: Option<JsonView>)
    ensures
        whole is Some && given(whole->0) is Some ==> submit::details(err, whole, tail) == given(
            whole->0,
        )->0,
        (whole is None || given(whole->0) is None) && tail is Some && given(tail->0) is Some
            ==> submit::details(err, whole, tail) == given(tail->0)->0,
        forall|v: JsonView| #[trigger] submit::details_in(v) == given(v),
{
}

/// Where no code is given, a failure that speaks of RATE_LIMIT or 429 is one to try again, one
/// that speaks of MARKET_CLOSED is for good, and so is any other.
pub proof fn lemma_details_guessed(
    err: Seq<char>,
    whole: Option<JsonView>,
    tail: Option<JsonView>,
    before: Seq<char>,
    after: Seq<char>,
)
    requires
        whole is None || given(whole->0) is None,
        tail is None || given(tail->0) is None,
    ensures
        err == before + "RATE_LIMIT"@ + after || err == before + "429"@ + after ==> submit::details(
            err,
            whole,
            tail,
        ) == (ServerErrorView {
            code: "RATE_LIMIT_EXCEEDED"@,
            category: "rate_limit"@,
            retryable: true,
            suggestion: "Wait and retry."@,
        }),
        err == before + "MARKET_CLOSED"@ + after && !text::contains(err, "RATE_LIMIT"@)
            && !text::contains(err, "429"@) ==> submit::details(err, whole, tail)
            == (ServerErrorView {
            code: "MARKET_CLOSED"@,
            category: "validation"@,
            retryable: false,
            suggestion: "Choose an open market."@,
        }),
        !text::contains(err, "MARKET_CLOSED"@) && !text::contains(err, "RATE_LIMIT"@)
            && !text::contains(err, "429"@) ==> submit::details(err, whole, tail)
            == (ServerErrorView {
            code: "SUBMISSION_FAILED"@,
            category: "unknown"@,
            retryable: false,
            suggestion: "Check the error details and retry."@,
        }),
{
    texts::lemma_contained(before, "RATE_LIMIT"@, after);
    texts::lemma_contained(before, "429"@, after);
    texts::lemma_contained(before, "MARKET_CLOSED"@, after);
}

/// The message of a failure is the one under "error" of the text as JSON, then the one at its top,
/// then the one under "error" of its end, and otherwise the text.
pub proof fn lemma_failure_message(
    err: Seq<char>,
    whole: JsonView,
    tail: JsonView,
    m: Seq<char>,
)
    ensures
        whole.get("error"@) is Some && whole.get("error"@)->0.get("message"@) == Some(
            JsonView::String(m),
        ) ==> submit::message_of(err, Some(whole), Some(tail)) == m,
        whole.get("error"@) is None && whole.get("message"@) == Some(JsonView::String(m))
            ==> submit::message_of(err, Some(whole), Some(tail)) == m,
        whole.get("error"@) is None && whole.get("message"@) is None && tail.get("error"@) is Some
            && tail.get("error"@)->0.get("message"@) == Some(JsonView::String(m))
            ==> submit::message_of(err, Some(whole), Some(tail)) == m,
        tail.get("error"@) is Some && tail.get("error"@)->0.get("message"@) == Some(
            JsonView::String(m),
        ) ==> submit::message_of(err, None, Some(tail)) == m,
        tail.get("error"@) is None ==> submit::message_of(err, None, Some(tail)) == err,
        submit::message_of(err, None, None) == err,
{
}

/// What is printed of a failure has its message and its details, and says to try again after half
/// a minute exactly where the details say that this helps.
pub proof fn lemma_failure_printed(a: SubmitView, err: Seq<char>)
    ensures
        ({
            let whole = json::json_of_text(err);
            let tail = server_error::answer_in(err);
            let d = submit::details(err, whole, tail);
            submit::finished(a, Err(err)) == outputs::went_wrong(
                "Submission failed: "@ + submit::message_of(err, whole, tail),
                d.code,
                d.category,
                d.retryable,
                d.suggestion,
                if d.retryable {
                    outputs::hint("retry"@, Some("predict-agent context"@), Some(30))
                } else {
                    outputs::hint("fix_command"@, Some("predict-agent context"@), None)
                },
            )
        }),
{
}

/// The same of a failure whose message and details are known.
pub proof fn lemma_failure_reported(message: Seq<char>, d: ServerErrorView)
    ensures
        submit::failure(message, d) == outputs::went_wrong(
            "Submission failed: "@ + message,
            d.code,
            d.category,
            d.retryable,
            d.suggestion,
            if d.retryable {
                outputs::hint("retry"@, Some("predict-agent context"@), Some(30))
            } else {
                outputs::hint("fix_command"@, Some("predict-agent context"@), None)
            },
        ),
{
}

/// Arguments and details stand for what they hold.
pub proof fn lemma_submission_values(a: SubmitArgs, p: LimitPrice, d: ServerError)
    ensures
        a@.market == a.market@,
        a@.prediction == a.prediction@,
        a@.tickets == a.tickets,
        a@.reasoning == a.reasoning@,
        a@.dry_run == a.dry_run,
        a.limit_price is None ==> a@.limit_price is None,
        a.limit_price is Some ==> a@.limit_price == Some(a.limit_price->0@),
        p@.bits == p.bits,
        p@.decimal == p.decimal@,
        d@.code == d.code@,
        d@.category == d.category@,
        d@.retryable == d.retryable,
        d@.suggestion == d.suggestion@,
{
}

// Personas.

/// Whether a persona is one of the eight.
pub open spec fn one_of_eight(persona: Seq<char>) -> bool {
    ||| persona == "quant_trader"@
    ||| persona == "macro_analyst"@
    ||| persona == "crypto_native"@
    ||| persona == "academic_economist"@
    ||| persona == "geopolitical_analyst"@
    ||| persona == "tech_industry"@
    ||| persona == "on_chain_analyst"@
    ||| persona == "retail_sentiment"@
}

/// The eight personas with commas between them.
pub open spec fn all_eight() -> Seq<char> {
    "quant_trader"@ + ", "@ + "macro_analyst"@ + ", "@ + "crypto_native"@ + ", "@
        + "academic_economist"@ + ", "@ + "geopolitical_analyst"@ + ", "@ + "tech_industry"@ + ", "@
        + "on_chain_analyst"@ + ", "@ + "retail_sentiment"@
}

/// Each of the eight personas is posted; any other is refused, with the list of the eight.
pub proof fn lemma_personas(persona: Seq<char>)
    ensures
        one_of_eight(persona) ==> set_persona::begun(persona) == (StepView::Post {
            path: "/api/v1/agents/me/persona"@,
            body: JsonView::Object(map!["persona"@ => JsonView::String(persona)]),
        }),
        !one_of_eight(persona) ==> set_persona::begun(persona) == StepView::Print(
            outputs::went_wrong(
                "Invalid persona '"@ + persona + "'. Valid options: "@ + all_eight(),
                "INVALID_PERSONA"@,
                "validation"@,
                false,
                "Use one of: "@ + all_eight(),
                outputs::hint("fix_command"@, Some("predict-agent set-persona <persona>"@), None),
            ),
        ),
{
    let names = set_persona::VALID_PERSONAS@;
    assert(names[0]@ == "quant_trader"@);
    assert(names[1]@ == "macro_analyst"@);
    assert(names[2]@ == "crypto_native"@);
    assert(names[3]@ == "academic_economist"@);
    assert(names[4]@ == "geopolitical_analyst"@);
    assert(names[5]@ == "tech_industry"@);
    assert(names[6]@ == "on_chain_analyst"@);
    assert(names[7]@ == "retail_sentiment"@);
    assert(set_persona::known(persona) <==> one_of_eight(persona)) by {
        if set_persona::known(persona) {
            let i = choose|i: int|
                0 <= i < 8 && #[trigger] set_persona::VALID_PERSONAS@[i]@ == persona;
            assert(i == 0 || i == 1 || i == 2 || i == 3 || i == 4 || i == 5 || i == 6 || i == 7);
        }
    }
    reveal_with_fuel(set_persona::listed, 9);
    assert(set_persona::listed(8) == all_eight());
}

/// A change that comes too early is refused for good, whichever of the two words the coordinator
/// uses for it; any other failure is one to try again.
pub proof fn lemma_persona_refused(persona: Seq<char>, err: Seq<char>, before: Seq<char>, after: Seq<char>)
    ensures
        ({
            let said = "Failed to set persona: "@ + set_persona::message_of(
                err,
                server_error::answer_in(err),
            );
            let next = outputs::hint("fetch_context"@, Some("predict-agent context"@), None);
            &&& err == before + "PERSONA_COOLDOWN"@ + after || err == before + "cooldown"@ + after
                ==> set_persona::finished(persona, Err(err)) == outputs::went_wrong(
                said,
                "SET_PERSONA_FAILED"@,
                "validation"@,
                false,
                "Persona can only be changed once every 7 days."@,
                next,
            )
            &&& !text::contains(err, "PERSONA_COOLDOWN"@) && !text::contains(err, "cooldown"@)
                ==> set_persona::finished(persona, Err(err)) == outputs::went_wrong(
                said,
                "SET_PERSONA_FAILED"@,
                "network"@,
                true,
                "Check coordinator connectivity and retry."@,
                next,
            )
        }),
{
    texts::lemma_contained(before, "PERSONA_COOLDOWN"@, after);
    texts::lemma_contained(before, "cooldown"@, after);
}

/// The message of a refused change is the coordinator's own, or else the whole text.
pub proof fn lemma_persona_message(err: Seq<char>, quoted: JsonView, m: Seq<char>)
    ensures
        quoted.get("error"@) is Some && quoted.get("error"@)->0.get("message"@) == Some(
            JsonView::String(m),
        ) ==> set_persona::message_of(err, Some(quoted)) == m,
        quoted.get("error"@) is None ==> set_persona::message_of(err, Some(quoted)) == err,
        set_persona::message_of(err, None) == err,
{
}

/// The same of a failure whose message is known.
pub proof fn lemma_persona_failure_reported(err: Seq<char>, message: Seq<char>)
    ensures
        ({
            let next = outputs::hint("fetch_context"@, Some("predict-agent context"@), None);
            let early = text::contains(err, "PERSONA_COOLDOWN"@) || text::contains(
                err,
                "cooldown"@,
            );
            &&& early ==> set_persona::failure(err, message) == outputs::went_wrong(
                "Failed to set persona: "@ + message,
                "SET_PERSONA_FAILED"@,
                "validation"@,
                false,
                "Persona can only be changed once every 7 days."@,
                next,
            )
            &&& !early ==> set_persona::failure(err, message) == outputs::went_wrong(
                "Failed to set persona: "@ + message,
                "SET_PERSONA_FAILED"@,
                "network"@,
                true,
                "Check coordinator connectivity and retry."@,
                next,
            )
        }),
{
}

/// A change that the coordinator takes is told with the persona.
pub proof fn lemma_persona_taken(persona: Seq<char>, answer: JsonView)
    ensures
        set_persona::finished(persona, Ok(answer)) == outputs::went_well(
            "Persona updated to '"@ + persona + "'. 7-day cooldown started."@,
            answer.data(),
            outputs::hint("fetch_context"@, Some("predict-agent context"@), None),
        ),
{
}

} // verus!
