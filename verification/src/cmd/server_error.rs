//! What the coordinator says went wrong.
//!
//! A failed request leaves a text such as `HTTP 409 Conflict: {"error":{"message":"..."}}`. The
//! part from the first brace on is the coordinator's own answer.

use vstd::prelude::*;

use crate::json;
use crate::json::{Json, JsonView};
use crate::text;

verus! {

/// The text from its first opening brace on.
pub open spec fn from_brace(err: Seq<char>) -> Option<Seq<char>> {
    match text::find(err, seq!['{']) {
        Some(p) => Some(err.skip(p)),
        None => None,
    }
}

/// The answer inside the text of a failed request, if there is one.
pub open spec fn answer_in(err: Seq<char>) -> Option<JsonView> {
    match from_brace(err) {
        Some(tail) => json::json_of_text(tail),
        None => None,
    }
}

/// The coordinator's message in its answer.
pub open spec fn message_in(answer: JsonView) -> Option<Seq<char>> {
    match answer.get("error"@) {
        Some(e) => e.str_at("message"@),
        None => None,
    }
}

/// The coordinator's message in an answer that may be missing.
pub open spec fn message_in_opt(answer: Option<JsonView>) -> Option<Seq<char>> {
    match answer {
        Some(v) => message_in(v),
        None => None,
    }
}

/// The text from its first opening brace on.
pub fn tail_from_brace(err: &str) -> (r: Option<&str>)
    ensures
        json::maybe_text(r) == from_brace(err@),
{
    proof {
        reveal_strlit("{");
        assert("{"@ =~= seq!['{']);
    }
    match text::find_text(err, "{") {
        Some(p) => {
            let n = err.unicode_len();
            assert(err@.subrange(p as int, n as int) =~= err@.skip(p as int));
            Some(err.substring_char(p, n))
        },
        None => None,
    }
}

/// The answer inside the text of a failed request, if there is one.
pub fn answer(err: &str) -> (r: Option<Json>)
    ensures
        answer_in(err@) == match r {
            Some(v) => Some(v@),
            None => None,
        },
{
    match tail_from_brace(err) {
        Some(tail) => json::parse(tail),
        None => None,
    }
}

/// The coordinator's message in its answer.
pub fn message(answer: &Json) -> (r: Option<&str>)
    ensures
        json::maybe_text(r) == message_in(answer@),
{
    match answer.get("error") {
        Some(e) => e.str_at("message"),
        None => None,
    }
}

/// The first `n` characters of a text.
pub open spec fn head(s: Seq<char>, n: int) -> Seq<char> {
    if s.len() <= n {
        s
    } else {
        s.take(n)
    }
}

/// The first `n` characters of a text.
pub fn first_chars(s: &str, n: usize) -> (r: String)
    ensures
        r@ == head(s@, n as int),
{
    let len = s.unicode_len();
    if len <= n {
        s.to_owned()
    } else {
        assert(s@.subrange(0, n as int) =~= s@.take(n as int));
        s.substring_char(0, n).to_owned()
    }
}

/// An answer behind a text without an opening brace is found again.
pub proof fn lemma_answer_behind(front: Seq<char>, written: Seq<char>)
    requires
        !front.contains('{'),
        json::opens_with_brace(written),
    ensures
        from_brace(front + written) == Some(written),
{
    let err = front + written;
    let open = seq!['{'];
    let p = front.len() as int;
    assert(err.subrange(p, p + 1) =~= open);
    assert(text::occurs_at(err, open, p));
    text::lemma_find(err, open);
    let q = text::find(err, open)->0;
    assert(q == p) by {
        if q < p {
            assert(err.subrange(q, q + 1)[0] == '{');
            assert(front[q] == '{');
        }
    }
    assert(err.skip(p) =~= written);
}

/// The coordinator's answer is found again in the text that quotes it, where it is an object and
/// the status has no brace in it.
pub proof fn lemma_answer_found(status_text: Seq<char>, written: Seq<char>)
    requires
        !status_text.contains('{'),
        json::opens_with_brace(written),
    ensures
        from_brace("HTTP "@ + status_text + ": "@ + written) == Some(written),
{
    let front = "HTTP "@ + status_text + ": "@;
    reveal_strlit("HTTP ");
    reveal_strlit(": ");
    assert(!front.contains('{')) by {
        if front.contains('{') {
            let i = choose|i: int| 0 <= i < front.len() && front[i] == '{';
            if 5 <= i < 5 + status_text.len() {
                assert(status_text[i - 5] == '{');
            }
        }
    }
    lemma_answer_behind(front, written);
}

} // verus!
