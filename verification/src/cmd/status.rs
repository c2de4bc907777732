//! `status`: how the agent stands.

use vstd::prelude::*;

use crate::json::{Json, JsonView};
use crate::output;
use crate::output::{Internal, InternalView, Output, OutputView};
use crate::text;

verus! {

/// Where the coordinator says how the agent stands.
pub const STATUS_PATH: &'static str = "/api/v1/agents/me/status";

/// The balance as it is shown: rounded where it is a decimal, and as it is otherwise.
pub open spec fn chips(s: Seq<char>, rounded: Option<Seq<char>>) -> Seq<char> {
    match rounded {
        Some(r) => r,
        None => s,
    }
}

/// The balance as it is shown; `rounded` is the balance with two decimals, where it is a number.
pub fn format_chips(s: &str, rounded: Option<String>) -> (r: String)
    ensures
        r@ == chips(s@, output::opt_text(rounded)),
{
    match rounded {
        Some(r) => r,
        None => s.to_owned(),
    }
}

/// The balance in the coordinator's answer.
pub open spec fn balance_in(answer: Result<JsonView, Seq<char>>) -> Seq<char> {
    match answer {
        Ok(v) => v.data().str_or("balance"@, "0"@),
        Err(_) => "0"@,
    }
}

/// The balance in the coordinator's answer, as it was written there.
pub fn raw_balance(answer: &Result<Json, String>) -> (r: String)
    ensures
        r@ == balance_in(output::answered(*answer)),
{
    match answer {
        Ok(v) => v.data().str_or("balance", "0").to_owned(),
        Err(_) => "0".to_owned(),
    }
}

/// What `status` prints.
pub open spec fn shown(
    answer: Result<JsonView, Seq<char>>,
    rounded: Option<Seq<char>>,
) -> OutputView {
    match answer {
        Err(e) => OutputView::error(
            "Failed to fetch status: "@ + e,
            "STATUS_FAILED"@,
            "network"@,
            true,
            "Check coordinator connectivity."@,
            InternalView::act("retry"@).run("predict-agent status"@),
        ),
        Ok(v) => OutputView::success(
            "Agent status: "@ + text::signed_decimal(
                v.data().i64_or("valid_submissions_today"@, 0) as int,
            ) + " submissions today, "@ + chips(balance_in(answer), rounded)
                + " chips balance, persona: "@ + v.data().str_or("persona"@, "none"@) + "."@,
            v.data(),
            InternalView::act("fetch_context"@).run("predict-agent context"@),
        ),
    }
}

/// What `status` prints when the coordinator has answered, or could not be asked; `rounded` is the
/// [`raw_balance`] with two decimals, where it is a number.
pub fn run(answer: Result<Json, String>, rounded: Option<String>) -> (r: Output)
    ensures
        r@ == shown(output::answered(answer), output::opt_text(rounded)),
{
    match answer {
        Err(e) => {
            let mut message = "Failed to fetch status: ".to_owned();
            message.append(e.as_str());
            Output::error(
                message,
                "STATUS_FAILED",
                "network",
                true,
                "Check coordinator connectivity.",
                Internal::act("retry").run("predict-agent status"),
            )
        },
        Ok(v) => {
            let data = v.data();
            let mut message = "Agent status: ".to_owned();
            message.append(text::i64_text(data.i64_or("valid_submissions_today", 0)).as_str());
            message.append(" submissions today, ");
            message.append(format_chips(data.str_or("balance", "0"), rounded).as_str());
            message.append(" chips balance, persona: ");
            message.append(data.str_or("persona", "none"));
            message.append(".");
            Output::success(
                message,
                data,
                Internal::act("fetch_context").run("predict-agent context"),
            )
        },
    }
}

/// Whatever `status` prints is consistent and names a command to run next; it succeeds exactly
/// where the coordinator answered.
pub proof fn lemma_outputs(answer: Result<JsonView, Seq<char>>, rounded: Option<Seq<char>>)
    ensures
        shown(answer, rounded).consistent(),
        shown(answer, rounded).ok <==> answer is Ok,
        shown(answer, rounded).internal.next_command is Some,
{
    reveal_strlit("retry");
    reveal_strlit("fetch_context");
}

} // verus!
