//! `set-persona`: changes how the agent analyses markets, once in seven days.

use vstd::prelude::*;

use crate::cmd::server_error;
use crate::cmd::step::{Step, StepView};
use crate::json;
use crate::json::{Json, JsonView};
use crate::output;
use crate::output::{Internal, InternalView, Output, OutputView};
use crate::text;

verus! {

/// The personas that there are.
pub const VALID_PERSONAS: [&'static str; 8] = [
    "quant_trader",
    "macro_analyst",
    "crypto_native",
    "academic_economist",
    "geopolitical_analyst",
    "tech_industry",
    "on_chain_analyst",
    "retail_sentiment",
];

/// Whether there is such a persona.
pub open spec fn known(persona: Seq<char>) -> bool {
    exists|i: int| 0 <= i < 8 && #[trigger] VALID_PERSONAS@[i]@ == persona
}

/// The first `n` personas, with commas between them.
pub open spec fn listed(n: nat) -> Seq<char>
    decreases n,
{
    if n == 0 {
        Seq::empty()
    } else if n == 1 {
        VALID_PERSONAS@[0]@
    } else {
        listed((n - 1) as nat) + ", "@ + VALID_PERSONAS@[n - 1]@
    }
}

/// What is printed for a persona that there is not.
pub open spec fn refused(persona: Seq<char>) -> OutputView {
    OutputView::error(
        "Invalid persona '"@ + persona + "'. Valid options: "@ + listed(8),
        "INVALID_PERSONA"@,
        "validation"@,
        false,
        "Use one of: "@ + listed(8),
        InternalView::act("fix_command"@).run("predict-agent set-persona <persona>"@),
    )
}

/// What `set-persona` does.
pub open spec fn begun(persona: Seq<char>) -> StepView {
    if !known(persona) {
        StepView::Print(refused(persona))
    } else {
        StepView::Post {
            path: "/api/v1/agents/me/persona"@,
            body: JsonView::object().with("persona"@, JsonView::String(persona)),
        }
    }
}

/// Whether there is such a persona.
pub fn is_known(persona: &str) -> (r: bool)
    ensures
        r == known(persona@),
{
    let mut i: usize = 0;
    while i < 8
        invariant
            i <= 8,
            forall|j: int| 0 <= j < i ==> #[trigger] VALID_PERSONAS@[j]@ != persona@,
        decreases 8 - i,
    {
        if text::same(VALID_PERSONAS[i], persona) {
            return true;
        }
        i += 1;
    }
    false
}

fn list_personas() -> (r: String)
    ensures
        r@ == listed(8),
{
    let mut list = VALID_PERSONAS[0].to_owned();
    let mut i: usize = 1;
    while i < 8
        invariant
            1 <= i <= 8,
            list@ == listed(i as nat),
        decreases 8 - i,
    {
        list.append(", ");
        list.append(VALID_PERSONAS[i]);
        i += 1;
    }
    list
}

/// What `set-persona` does: it refuses the persona, or posts it.
pub fn run(persona: &str) -> (r: Step)
    ensures
        r@ == begun(persona@),
{
    if !is_known(persona) {
        let list = list_personas();
        let mut message = "Invalid persona '".to_owned();
        message.append(persona);
        message.append("'. Valid options: ");
        message.append(list.as_str());
        let mut suggestion = "Use one of: ".to_owned();
        suggestion.append(list.as_str());
        return Step::Print(
            Output::error(
                message,
                "INVALID_PERSONA",
                "validation",
                false,
                suggestion.as_str(),
                Internal::act("fix_command").run("predict-agent set-persona <persona>"),
            ),
        );
    }
    Step::Post {
        path: "/api/v1/agents/me/persona".to_owned(),
        body: Json::object().with("persona", Json::text(persona)),
    }
}

/// Whether a failure comes from the seven days between two changes.
pub open spec fn too_early(err: Seq<char>) -> bool {
    text::contains(err, "PERSONA_COOLDOWN"@) || text::contains(err, "cooldown"@)
}

/// What is printed for a persona that the coordinator did not take.
pub open spec fn failure(err: Seq<char>, message: Seq<char>) -> OutputView {
    OutputView::error(
        "Failed to set persona: "@ + message,
        "SET_PERSONA_FAILED"@,
        if too_early(err) {
            "validation"@
        } else {
            "network"@
        },
        !too_early(err),
        if too_early(err) {
            "Persona can only be changed once every 7 days."@
        } else {
            "Check coordinator connectivity and retry."@
        },
        InternalView::act("fetch_context"@).run("predict-agent context"@),
    )
}

/// The message to show for a failure: what the coordinator said in the answer that it quotes, or
/// else the whole text.
pub open spec fn message_of(err: Seq<char>, quoted: Option<JsonView>) -> Seq<char> {
    match server_error::message_in_opt(quoted) {
        Some(m) => m,
        None => err,
    }
}

/// What `set-persona` prints in the end.
pub open spec fn finished(persona: Seq<char>, answer: Result<JsonView, Seq<char>>) -> OutputView {
    match answer {
        Err(e) => failure(e, message_of(e, server_error::answer_in(e))),
        Ok(v) => OutputView::success(
            "Persona updated to '"@ + persona + "'. 7-day cooldown started."@,
            v.data(),
            InternalView::act("fetch_context"@).run("predict-agent context"@),
        ),
    }
}

/// The message of a failure, which quotes an answer of the coordinator or does not.
pub fn choose_message(err: &str, quoted: Option<&Json>) -> (r: String)
    ensures
        r@ == message_of(err@, json::maybe(quoted)),
{
    if let Some(v) = quoted {
        if let Some(m) = server_error::message(v) {
            return m.to_owned();
        }
    }
    err.to_owned()
}

/// The message of a failure.
pub fn extract_message(err: &str) -> (r: String)
    ensures
        r@ == message_of(err@, server_error::answer_in(err@)),
{
    let quoted = server_error::answer(err);
    choose_message(err, quoted.as_ref())
}

/// What is printed for a persona that the coordinator did not take.
pub fn report_failure(err: &str, message: &str) -> (r: Output)
    ensures
        r@ == failure(err@, message@),
{
    let early = text::contains_text(err, "PERSONA_COOLDOWN") || text::contains_text(
        err,
        "cooldown",
    );
    let mut user_message = "Failed to set persona: ".to_owned();
    user_message.append(message);
    let internal = Internal::act("fetch_context").run("predict-agent context");
    if early {
        Output::error(
            user_message,
            "SET_PERSONA_FAILED",
            "validation",
            false,
            "Persona can only be changed once every 7 days.",
            internal,
        )
    } else {
        Output::error(
            user_message,
            "SET_PERSONA_FAILED",
            "network",
            true,
            "Check coordinator connectivity and retry.",
            internal,
        )
    }
}

/// What `set-persona` prints when the coordinator has answered, or could not be asked.
pub fn finish(persona: &str, answer: Result<Json, String>) -> (r: Output)
    ensures
        r@ == finished(persona@, output::answered(answer)),
{
    match answer {
        Err(e) => {
            let message = extract_message(e.as_str());
            report_failure(e.as_str(), message.as_str())
        },
        Ok(v) => {
            let mut message = "Persona updated to '".to_owned();
            message.append(persona);
            message.append("'. 7-day cooldown started.");
            Output::success(
                message,
                v.data(),
                Internal::act("fetch_context").run("predict-agent context"),
            )
        },
    }
}

/// A persona is posted exactly where there is such a persona. Whatever `set-persona` prints is
/// consistent and names a command to run next.
pub proof fn lemma_outputs(persona: Seq<char>, answer: Result<JsonView, Seq<char>>)
    ensures
        begun(persona) is Post <==> known(persona),
        begun(persona) matches StepView::Print(o) ==> o.consistent() && !o.ok
            && o.internal.next_command is Some,
        finished(persona, answer).consistent(),
        finished(persona, answer).ok <==> answer is Ok,
        finished(persona, answer).internal.next_command == Some("predict-agent context"@),
{
    reveal_strlit("fix_command");
    reveal_strlit("fetch_context");
}

} // verus!
