//! What a command does once its arguments are checked.

use vstd::prelude::*;

use crate::json::{Json, JsonView};
use crate::output::{Output, OutputView};

verus! {

/// What a command does next.
#[derive(Debug, PartialEq, Eq)]
pub enum Step {
    /// Print and stop.
    Print(Output),
    /// Post to a path of the coordinator, signed.
    Post { path: String, body: Json },
}

#[verifier::ext_equal]
pub enum StepView {
    Print(OutputView),
    Post { path: Seq<char>, body: JsonView },
}

impl Step {
    pub open spec fn view(&self) -> StepView {
        match self {
            Step::Print(o) => StepView::Print(o@),
            Step::Post { path, body } => StepView::Post { path: path@, body: body@ },
        }
    }
}

} // verus!
