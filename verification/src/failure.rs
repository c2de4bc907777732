//! Errors in words.

use vstd::prelude::*;

use crate::json::{Json, JsonView};

verus! {

/// An error: what it says itself, and together with its causes.
#[derive(Debug, PartialEq, Eq)]
pub struct Failure {
    pub detail: String,
    pub chain: String,
}

#[verifier::ext_equal]
pub struct FailureView {
    pub detail: Seq<char>,
    pub chain: Seq<char>,
}

impl Failure {
    pub open spec fn view(&self) -> FailureView {
        FailureView { detail: self.detail@, chain: self.chain@ }
    }
}

impl FailureView {
    /// An error that has no cause.
    pub open spec fn plain(detail: Seq<char>) -> FailureView {
        FailureView { detail, chain: detail }
    }

    /// An error with its cause.
    pub open spec fn caused(detail: Seq<char>, cause: Seq<char>) -> FailureView {
        FailureView { detail, chain: detail + ": "@ + cause }
    }
}

impl Failure {
    /// An error that has no cause.
    pub fn plain(detail: String) -> (r: Failure)
        ensures
            r@ == FailureView::plain(detail@),
    {
        let chain = detail.clone();
        Failure { detail, chain }
    }

    /// An error with its cause.
    pub fn caused(detail: &str, cause: &str) -> (r: Failure)
        ensures
            r@ == FailureView::caused(detail@, cause@),
    {
        let mut chain = detail.to_owned();
        chain.append(": ");
        chain.append(cause);
        Failure { detail: detail.to_owned(), chain }
    }
}

/// The view of a text or an error.
pub open spec fn told(r: Result<String, Failure>) -> Result<Seq<char>, FailureView> {
    match r {
        Ok(t) => Ok(t@),
        Err(f) => Err(f@),
    }
}

/// The view of an answer or an error.
pub open spec fn answered(r: Result<Json, Failure>) -> Result<JsonView, FailureView> {
    match r {
        Ok(v) => Ok(v@),
        Err(f) => Err(f@),
    }
}

} // verus!
