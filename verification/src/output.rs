//! The JSON object that every command prints.
//!
//!   - ok: whether the command succeeded
//!   - user_message: a summary for people
//!   - data: what the command found (null on failure)
//!   - error: what went wrong (null on success)
//!   - _internal: hints on what to do next

use vstd::prelude::*;

use crate::json::{Json, JsonView};

verus! {

/// What a command prints.
#[derive(Debug, PartialEq, Eq)]
pub struct Output {
    pub ok: bool,
    pub user_message: String,
    pub data: Option<Json>,
    pub error: Option<ErrorDetail>,
    pub _internal: Internal,
}

/// What went wrong.
#[derive(Debug, PartialEq, Eq)]
pub struct ErrorDetail {
    pub code: String,
    pub category: String,
    pub retryable: bool,
    pub suggestion: String,
    pub debug: Option<Json>,
}

/// What to do next.
#[derive(Debug, PartialEq, Eq)]
pub struct Internal {
    pub next_action: String,
    pub next_command: Option<String>,
    pub wait_seconds: Option<u64>,
    pub submittable_markets: Option<Vec<String>>,
    pub context: Option<Json>,
    pub progress: Option<String>,
    pub options: Option<Vec<Choice>>,
}

/// One of several ways to go on.
#[derive(Debug, PartialEq, Eq)]
pub struct Choice {
    pub key: String,
    pub label: String,
    pub description: String,
    pub command: Option<String>,
}

#[verifier::ext_equal]
pub struct OutputView {
    pub ok: bool,
    pub user_message: Seq<char>,
    pub data: Option<JsonView>,
    pub error: Option<ErrorView>,
    pub internal: InternalView,
}

#[verifier::ext_equal]
pub struct ErrorView {
    pub code: Seq<char>,
    pub category: Seq<char>,
    pub retryable: bool,
    pub suggestion: Seq<char>,
    pub debug: Option<JsonView>,
}

#[verifier::ext_equal]
pub struct InternalView {
    pub next_action: Seq<char>,
    pub next_command: Option<Seq<char>>,
    pub wait_seconds: Option<u64>,
    pub submittable_markets: Option<Seq<Seq<char>>>,
    pub context: Option<JsonView>,
    pub progress: Option<Seq<char>>,
    pub options: Option<Seq<ChoiceView>>,
}

#[verifier::ext_equal]
pub struct ChoiceView {
    pub key: Seq<char>,
    pub label: Seq<char>,
    pub description: Seq<char>,
    pub command: Option<Seq<char>>,
}

/// The view of a text that may be missing.
pub open spec fn opt_text(v: Option<String>) -> Option<Seq<char>> {
    match v {
        Some(t) => Some(t@),
        None => None,
    }
}

/// The view of a value that may be missing.
pub open spec fn opt_json(v: Option<Json>) -> Option<JsonView> {
    match v {
        Some(j) => Some(j@),
        None => None,
    }
}

/// The view of a text, or of the error in its place.
pub open spec fn told(r: Result<String, String>) -> Result<Seq<char>, Seq<char>> {
    match r {
        Ok(t) => Ok(t@),
        Err(e) => Err(e@),
    }
}

/// The view of an answer of the coordinator, or of the error in its place.
pub open spec fn answered(r: Result<Json, String>) -> Result<JsonView, Seq<char>> {
    match r {
        Ok(v) => Ok(v@),
        Err(e) => Err(e@),
    }
}

impl Choice {
    pub open spec fn view(&self) -> ChoiceView {
        ChoiceView {
            key: self.key@,
            label: self.label@,
            description: self.description@,
            command: opt_text(self.command),
        }
    }
}

impl ErrorDetail {
    pub open spec fn view(&self) -> ErrorView {
        ErrorView {
            code: self.code@,
            category: self.category@,
            retryable: self.retryable,
            suggestion: self.suggestion@,
            debug: opt_json(self.debug),
        }
    }
}

impl Internal {
    pub open spec fn view(&self) -> InternalView {
        InternalView {
            next_action: self.next_action@,
            next_command: opt_text(self.next_command),
            wait_seconds: self.wait_seconds,
            submittable_markets: match self.submittable_markets {
                Some(l) => Some(l@.map_values(|s: String| s@)),
                None => None,
            },
            context: opt_json(self.context),
            progress: opt_text(self.progress),
            options: match self.options {
                Some(l) => Some(l@.map_values(|c: Choice| c@)),
                None => None,
            },
        }
    }
}

impl Output {
    pub open spec fn view(&self) -> OutputView {
        OutputView {
            ok: self.ok,
            user_message: self.user_message@,
            data: opt_json(self.data),
            error: match self.error {
                Some(e) => Some(e@),
                None => None,
            },
            internal: self._internal@,
        }
    }
}

impl InternalView {
    /// The hint that names an action and nothing more.
    pub open spec fn act(next_action: Seq<char>) -> InternalView {
        InternalView {
            next_action,
            next_command: None,
            wait_seconds: None,
            submittable_markets: None,
            context: None,
            progress: None,
            options: None,
        }
    }

    /// The hint with the command to run next.
    pub open spec fn run(self, command: Seq<char>) -> InternalView {
        InternalView { next_command: Some(command), ..self }
    }

    /// The hint with the seconds to wait first.
    pub open spec fn wait(self, seconds: u64) -> InternalView {
        InternalView { wait_seconds: Some(seconds), ..self }
    }

    /// The hint with how far the command came.
    pub open spec fn at(self, progress: Seq<char>) -> InternalView {
        InternalView { progress: Some(progress), ..self }
    }

    /// The hint with choices.
    pub open spec fn offer(self, options: Seq<ChoiceView>) -> InternalView {
        InternalView { options: Some(options), ..self }
    }
}

impl OutputView {
    /// What a command prints that succeeded.
    pub open spec fn success(
        user_message: Seq<char>,
        data: JsonView,
        internal: InternalView,
    ) -> OutputView {
        OutputView { ok: true, user_message, data: Some(data), error: None, internal }
    }

    /// What a command prints that failed.
    pub open spec fn error(
        user_message: Seq<char>,
        code: Seq<char>,
        category: Seq<char>,
        retryable: bool,
        suggestion: Seq<char>,
        internal: InternalView,
    ) -> OutputView {
        OutputView {
            ok: false,
            user_message,
            data: None,
            error: Some(ErrorView { code, category, retryable, suggestion, debug: None }),
            internal,
        }
    }

    /// What a command prints that failed, with details for whoever looks into it.
    pub open spec fn error_with_debug(
        user_message: Seq<char>,
        code: Seq<char>,
        category: Seq<char>,
        retryable: bool,
        suggestion: Seq<char>,
        debug: JsonView,
        internal: InternalView,
    ) -> OutputView {
        OutputView {
            ok: false,
            user_message,
            data: None,
            error: Some(ErrorView { code, category, retryable, suggestion, debug: Some(debug) }),
            internal,
        }
    }

    /// Data come on success and only then; an error comes on failure and only then; and there is
    /// always a next action.
    pub open spec fn consistent(self) -> bool {
        &&& self.ok <==> self.data is Some
        &&& self.ok <==> self.error is None
        &&& self.internal.next_action.len() > 0
    }
}

impl Default for Internal {
    fn default() -> (r: Self)
        ensures
            r@ == InternalView::act(Seq::empty()),
    {
        Internal {
            next_action: String::new(),
            next_command: None,
            wait_seconds: None,
            submittable_markets: None,
            context: None,
            progress: None,
            options: None,
        }
    }
}

impl Internal {
    /// The hint that names an action and nothing more.
    pub fn act(next_action: &str) -> (r: Internal)
        ensures
            r@ == InternalView::act(next_action@),
    {
        Internal {
            next_action: next_action.to_owned(),
            next_command: None,
            wait_seconds: None,
            submittable_markets: None,
            context: None,
            progress: None,
            options: None,
        }
    }

    /// The hint with the command to run next.
    pub fn run(self, command: &str) -> (r: Internal)
        ensures
            r@ == self@.run(command@),
    {
        Internal { next_command: Some(command.to_owned()), ..self }
    }

    /// The hint with the seconds to wait first.
    pub fn wait(self, seconds: u64) -> (r: Internal)
        ensures
            r@ == self@.wait(seconds),
    {
        Internal { wait_seconds: Some(seconds), ..self }
    }

    /// The hint with how far the command came.
    pub fn at(self, progress: &str) -> (r: Internal)
        ensures
            r@ == self@.at(progress@),
    {
        Internal { progress: Some(progress.to_owned()), ..self }
    }

    /// The hint with choices.
    pub fn offer(self, options: Vec<Choice>) -> (r: Internal)
        ensures
            r@ == self@.offer(options@.map_values(|c: Choice| c@)),
    {
        Internal { options: Some(options), ..self }
    }
}

impl Output {
    /// What a command prints that succeeded.
    pub fn success(user_message: String, data: Json, internal: Internal) -> (r: Output)
        ensures
            r@ == OutputView::success(user_message@, data@, internal@),
    {
        Output { ok: true, user_message, data: Some(data), error: None, _internal: internal }
    }

    /// What a command prints that failed.
    pub fn error(
        user_message: String,
        code: &str,
        category: &str,
        retryable: bool,
        suggestion: &str,
        internal: Internal,
    ) -> (r: Output)
        ensures
            r@ == OutputView::error(
                user_message@,
                code@,
                category@,
                retryable,
                suggestion@,
                internal@,
            ),
    {
        Output {
            ok: false,
            user_message,
            data: None,
            error: Some(
                ErrorDetail {
                    code: code.to_owned(),
                    category: category.to_owned(),
                    retryable,
                    suggestion: suggestion.to_owned(),
                    debug: None,
                },
            ),
            _internal: internal,
        }
    }

    /// What a command prints that failed, with details for whoever looks into it.
    pub fn error_with_debug(
        user_message: String,
        code: &str,
        category: &str,
        retryable: bool,
        suggestion: &str,
        debug: Json,
        internal: Internal,
    ) -> (r: Output)
        ensures
            r@ == OutputView::error_with_debug(
                user_message@,
                code@,
                category@,
                retryable,
                suggestion@,
                debug@,
                internal@,
            ),
    {
        Output {
            ok: false,
            user_message,
            data: None,
            error: Some(
                ErrorDetail {
                    code: code.to_owned(),
                    category: category.to_owned(),
                    retryable,
                    suggestion: suggestion.to_owned(),
                    debug: Some(debug),
                },
            ),
            _internal: internal,
        }
    }
}

} // verus!
