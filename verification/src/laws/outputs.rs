//! Laws of what commands print.

use vstd::prelude::*;

use crate::cmd::result::{Query, QueryView};
use crate::cmd::step::{Step, StepView};
use crate::json::{Json, JsonView};
use crate::output;
use crate::output::{Choice, ChoiceView, ErrorDetail, ErrorView, Internal, InternalView, Output,
    OutputView};

verus! {

/// What to do next: an action, the command for it and the seconds to wait before, and nothing
/// else.
pub open spec fn hint(
    next_action: Seq<char>,
    next_command: Option<Seq<char>>,
    wait_seconds: Option<u64>,
) -> InternalView {
    InternalView {
        next_action,
        next_command,
        wait_seconds,
        submittable_markets: None,
        context: None,
        progress: None,
        options: None,
    }
}

/// A success: with data and without an error.
pub open spec fn went_well(
    user_message: Seq<char>,
    data: JsonView,
    internal: InternalView,
) -> OutputView {
    OutputView { ok: true, user_message, data: Some(data), error: None, internal }
}

/// A failure: with an error and without data.
pub open spec fn went_wrong(
    user_message: Seq<char>,
    code: Seq<char>,
    category: Seq<char>,
    retryable: bool,
    suggestion: Seq<char>,
    internal: InternalView,
) -> OutputView {
    OutputView {
        ok: false,
        user_message,
        data: None,
        error: Some(ErrorView { code, category, retryable, suggestion, debug: None }),
        internal,
    }
}

/// Each part of an output is the argument that it was made of, in its own place.
pub proof fn lemma_parts_of_an_output(
    message: Seq<char>,
    data: JsonView,
    code: Seq<char>,
    category: Seq<char>,
    retryable: bool,
    suggestion: Seq<char>,
    debug: JsonView,
    internal: InternalView,
)
    ensures
        OutputView::success(message, data, internal) == went_well(message, data, internal),
        OutputView::error(message, code, category, retryable, suggestion, internal) == went_wrong(
            message,
            code,
            category,
            retryable,
            suggestion,
            internal,
        ),
        ({
            let o = OutputView::error_with_debug(
                message,
                code,
                category,
                retryable,
                suggestion,
                debug,
                internal,
            );
            &&& !o.ok
            &&& o.user_message == message
            &&& o.data is None
            &&& o.internal == internal
            &&& o.error == Some(
                ErrorView { code, category, retryable, suggestion, debug: Some(debug) },
            )
        }),
{
}

/// A hint names its action; a command, a wait, a progress and choices are added to it without
/// touching the rest.
pub proof fn lemma_hints(
    action: Seq<char>,
    command: Seq<char>,
    seconds: u64,
    progress: Seq<char>,
    options: Seq<ChoiceView>,
    h: InternalView,
)
    ensures
        InternalView::act(action) == hint(action, None, None),
        InternalView::act(action).run(command) == hint(action, Some(command), None),
        InternalView::act(action).run(command).wait(seconds) == hint(
            action,
            Some(command),
            Some(seconds),
        ),
        h.run(command).next_command == Some(command),
        h.wait(seconds).wait_seconds == Some(seconds),
        h.at(progress).progress == Some(progress),
        h.offer(options).options == Some(options),
        h.at(progress).next_action == h.next_action && h.at(progress).next_command == h.next_command
            && h.at(progress).wait_seconds == h.wait_seconds && h.at(progress).options == h.options
            && h.at(progress).context == h.context && h.at(progress).submittable_markets
            == h.submittable_markets,
        h.offer(options).next_action == h.next_action && h.offer(options).next_command
            == h.next_command && h.offer(options).wait_seconds == h.wait_seconds && h.offer(
            options,
        ).progress == h.progress && h.offer(options).context == h.context && h.offer(
            options,
        ).submittable_markets == h.submittable_markets,
{
}

/// An output stands for its parts, each for what it holds.
pub proof fn lemma_output_values(o: Output, e: ErrorDetail, h: Internal, c: Choice, i: int)
    ensures
        o@.ok == o.ok,
        o@.user_message == o.user_message@,
        o@.internal == o._internal@,
        o.data is None ==> o@.data is None,
        o.data is Some ==> o@.data == Some(o.data->0@),
        o.error is None ==> o@.error is None,
        o.error is Some ==> o@.error == Some(o.error->0@),
        e@.code == e.code@,
        e@.category == e.category@,
        e@.retryable == e.retryable,
        e@.suggestion == e.suggestion@,
        e.debug is None ==> e@.debug is None,
        e.debug is Some ==> e@.debug == Some(e.debug->0@),
        h@.next_action == h.next_action@,
        h.next_command is None ==> h@.next_command is None,
        h.next_command is Some ==> h@.next_command == Some(h.next_command->0@),
        h@.wait_seconds == h.wait_seconds,
        h.progress is None ==> h@.progress is None,
        h.progress is Some ==> h@.progress == Some(h.progress->0@),
        h.context is None ==> h@.context is None,
        h.context is Some ==> h@.context == Some(h.context->0@),
        h.submittable_markets is None ==> h@.submittable_markets is None,
        h.submittable_markets is Some ==> h@.submittable_markets is Some
            && h@.submittable_markets->0.len() == h.submittable_markets->0@.len(),
        h.submittable_markets is Some && 0 <= i < h.submittable_markets->0@.len()
            ==> h@.submittable_markets->0[i] == h.submittable_markets->0@[i]@,
        h.options is None ==> h@.options is None,
        h.options is Some ==> h@.options is Some && h@.options->0.len() == h.options->0@.len(),
        h.options is Some && 0 <= i < h.options->0@.len() ==> h@.options->0[i]
            == h.options->0@[i]@,
        c@.key == c.key@,
        c@.label == c.label@,
        c@.description == c.description@,
        c.command is None ==> c@.command is None,
        c.command is Some ==> c@.command == Some(c.command->0@),
{
}

/// Answers and errors stand for what they hold, and so does what a command does next.
pub proof fn lemma_answer_values(o: Output, path: String, body: Json, e: String)
    ensures
        output::answered(Ok(body)) == Ok::<JsonView, Seq<char>>(body@),
        output::answered(Err(e)) == Err::<JsonView, Seq<char>>(e@),
        output::told(Ok(path)) == Ok::<Seq<char>, Seq<char>>(path@),
        output::told(Err(e)) == Err::<Seq<char>, Seq<char>>(e@),
        output::opt_text(Some(path)) == Some(path@),
        output::opt_text(None) == None::<Seq<char>>,
        output::opt_json(Some(body)) == Some(body@),
        output::opt_json(None) == None::<JsonView>,
        Step::Print(o)@ == StepView::Print(o@),
        (Step::Post { path, body })@ == (StepView::Post { path: path@, body: body@ }),
        Query::Print(o)@ == QueryView::Print(o@),
        (Query::Predictions { path, market: body })@ == (QueryView::Predictions {
            path: path@,
            market: body@,
        }),
{
}

} // verus!
