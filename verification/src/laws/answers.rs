//! Laws of reading what the model answered.

use vstd::prelude::*;

use crate::cmd::reply;
use crate::cmd::reply::{LlmReply, ReplyError, ReplyView};
use crate::double;
use crate::json;
use crate::json::{JsonNumber, JsonView};
use crate::laws::texts;
use crate::text;

verus! {

/// The tickets that an answer asks for: the whole part of the number under "tickets", no fewer
/// than one and no more than 32 bits can tell; none where there is no number.
pub open spec fn asked_for(m: Map<Seq<char>, JsonView>) -> Option<u32> {
    if m.contains_key("tickets"@) && m["tickets"@] is Number {
        let whole = match m["tickets"@]->Number_0 {
            JsonNumber::Unsigned(u) => u as int,
            JsonNumber::Negative(_) => 0,
            JsonNumber::Float(bits) => double::whole(bits),
        };
        Some(
            if whole <= 1 {
                1
            } else if whole >= 4294967295 {
                4294967295
            } else {
                whole as u32
            },
        )
    } else {
        None
    }
}

/// An answer with a direction that lowers to up or down and at least 80 characters of reasoning
/// is taken, however long the reasoning is and whatever else the answer holds: with that direction
/// in lower case, that reasoning in full, the tickets that it asks for and the market that it
/// names.
pub proof fn lemma_useful_answer_is_taken(
    m: Map<Seq<char>, JsonView>,
    direction: Seq<char>,
    reasoning: Seq<char>,
)
    requires
        m.contains_pair("direction"@, JsonView::String(direction)),
        text::lower(direction) == "up"@ || text::lower(direction) == "down"@,
        m.contains_pair("reasoning"@, JsonView::String(reasoning)),
        reasoning.len() >= 80,
    ensures
        reply::decision(JsonView::Object(m)) == Ok::<ReplyView, ReplyError>(
            ReplyView {
                direction: text::lower(direction),
                reasoning,
                tickets: asked_for(m),
                market_id: if m.contains_key("market_id"@) && m["market_id"@] is String {
                    Some(m["market_id"@]->String_0)
                } else {
                    None
                },
            },
        ),
{
}

/// An answer is refused for its direction where it has no text under "direction" or one that
/// lowers to neither of the two, whatever its reasoning.
pub proof fn lemma_bad_direction_is_refused(v: JsonView)
    requires
        v.get("direction"@) is None || !(v.get("direction"@)->0 is String) || (text::lower(
            v.get("direction"@)->0->String_0,
        ) != "up"@ && text::lower(v.get("direction"@)->0->String_0) != "down"@),
    ensures
        reply::decision(v) == Err::<ReplyView, ReplyError>(ReplyError::BadDirection),
{
}

/// An answer with a good direction is refused for its reasoning where it has no text under
/// "reasoning" or one of fewer than 80 characters.
pub proof fn lemma_short_reasoning_is_refused(v: JsonView, direction: Seq<char>)
    requires
        v.get("direction"@) == Some(JsonView::String(direction)),
        text::lower(direction) == "up"@ || text::lower(direction) == "down"@,
        v.get("reasoning"@) is None || !(v.get("reasoning"@)->0 is String) || v.get(
            "reasoning"@,
        )->0->String_0.len() < 80,
    ensures
        reply::decision(v) == Err::<ReplyView, ReplyError>(ReplyError::ShortReasoning),
{
}

/// A direction counts however its letters are cased.
pub proof fn lemma_direction_in_any_case(direction: Seq<char>)
    ensures
        direction.len() == 2 && (direction[0] == 'u' || direction[0] == 'U') && (direction[1] == 'p'
            || direction[1] == 'P') ==> text::lower(direction) == "up"@,
        direction.len() == 4 && (direction[0] == 'd' || direction[0] == 'D') && (direction[1] == 'o'
            || direction[1] == 'O') && (direction[2] == 'w' || direction[2] == 'W') && (direction[3]
            == 'n' || direction[3] == 'N') ==> text::lower(direction) == "down"@,
{
    reveal_strlit("up");
    reveal_strlit("down");
    if direction.len() == 2 && (direction[0] == 'u' || direction[0] == 'U') && (direction[1] == 'p'
        || direction[1] == 'P') {
        assert(vstd::utf8::is_ascii_chars(direction));
        texts::lemma_case(direction, 0);
        texts::lemma_case(direction, 1);
        assert(text::lower(direction) =~= "up"@);
    }
    if direction.len() == 4 && (direction[0] == 'd' || direction[0] == 'D') && (direction[1] == 'o'
        || direction[1] == 'O') && (direction[2] == 'w' || direction[2] == 'W') && (direction[3]
        == 'n' || direction[3] == 'N') {
        assert(vstd::utf8::is_ascii_chars(direction));
        texts::lemma_case(direction, 0);
        texts::lemma_case(direction, 1);
        texts::lemma_case(direction, 2);
        texts::lemma_case(direction, 3);
        assert(text::lower(direction) =~= "down"@);
    }
}

/// More tickets asked for are never fewer tickets staked, and a count that 32 bits can tell is
/// staked as it is.
pub proof fn lemma_tickets(u: u64, more: u64, i: i64)
    requires
        u <= more,
    ensures
        1 <= u <= 4294967295 ==> reply::tickets_of(JsonNumber::Unsigned(u)) == u,
        u == 0 ==> reply::tickets_of(JsonNumber::Unsigned(u)) == 1,
        u > 4294967295 ==> reply::tickets_of(JsonNumber::Unsigned(u)) == 4294967295,
        reply::tickets_of(JsonNumber::Negative(i)) == 1,
        reply::tickets_of(JsonNumber::Unsigned(u)) <= reply::tickets_of(
            JsonNumber::Unsigned(more),
        ),
{
}

/// What an answer decides is what the object in it decides.
pub proof fn lemma_decided_by_the_object(answer: Seq<char>, object: Seq<char>, v: JsonView)
    requires
        reply::first_json(reply::places(answer)) == Some(object),
        json::text_read(object) == Ok::<JsonView, Seq<char>>(v),
    ensures
        reply::decision_in_text(answer) == reply::decision(v),
{
}

/// An answer that is an object, but for white space around it, is taken as that object.
pub proof fn lemma_bare_object(answer: Seq<char>, v: JsonView)
    requires
        text::trimmed(answer).len() > 0,
        text::trimmed(answer)[0] == '{',
        json::text_read(text::trimmed(answer)) == Ok::<JsonView, Seq<char>>(v),
    ensures
        reply::decision_in_text(answer) == reply::decision(v),
{
    reply::lemma_bare_answer(answer);
}

/// An object in a fence marked as JSON is taken, where the answer is not an object as a whole.
pub proof fn lemma_object_in_marked_fence(
    answer: Seq<char>,
    before: Seq<char>,
    inner: Seq<char>,
    after: Seq<char>,
    v: JsonView,
)
    requires
        text::trimmed(answer) == before + "```json"@ + inner + "```"@ + after,
        forall|i: int| i < before.len() ==> !text::occurs_at(text::trimmed(answer), "```json"@, i),
        forall|i: int| i < inner.len() ==> !text::occurs_at(inner + "```"@ + after, "```"@, i),
        text::trimmed(answer)[0] != '{',
        text::trimmed(inner).len() > 0,
        text::trimmed(inner)[0] == '{',
        json::text_read(text::trimmed(inner)) == Ok::<JsonView, Seq<char>>(v),
    ensures
        reply::decision_in_text(answer) == reply::decision(v),
{
    reply::lemma_fenced_answer(answer, before, inner, after);
}

/// An object in a fence without a mark is taken, where the answer is not an object as a whole and
/// has no fence marked as JSON.
pub proof fn lemma_object_in_plain_fence(
    answer: Seq<char>,
    before: Seq<char>,
    inner: Seq<char>,
    after: Seq<char>,
    v: JsonView,
)
    requires
        text::trimmed(answer) == before + "```"@ + inner + "```"@ + after,
        !text::contains(text::trimmed(answer), "```json"@),
        forall|i: int| i < before.len() ==> !text::occurs_at(text::trimmed(answer), "```"@, i),
        forall|i: int| i < inner.len() ==> !text::occurs_at(inner + "```"@ + after, "```"@, i),
        text::trimmed(answer)[0] != '{',
        text::trimmed(inner).len() > 0,
        text::trimmed(inner)[0] == '{',
        json::text_read(text::trimmed(inner)) == Ok::<JsonView, Seq<char>>(v),
    ensures
        reply::decision_in_text(answer) == reply::decision(v),
{
    let t = text::trimmed(answer);
    let end = "```"@;
    let tail = inner + end + after;
    let p = before.len() as int;
    let e = inner.len() as int;
    assert(t.subrange(p, p + end.len()) =~= end);
    assert(text::occurs_at(t, end, p));
    text::lemma_find(t, end);
    assert(t.skip(p + end.len()) =~= tail);
    assert(tail.subrange(e, e + end.len()) =~= end);
    assert(text::occurs_at(tail, end, e));
    text::lemma_find(tail, end);
    assert(tail.take(e) =~= inner);
    text::lemma_find(t, "```json"@);
    let list = reply::places(answer);
    assert(reply::fenced(t, end) == Some(text::trimmed(inner)));
    assert(reply::fenced(t, "```json"@) is None);
    assert(list[0] == text::trimmed(inner));
}

/// An object with text around it is taken, where the text has no fence and no braces and the
/// answer does not open with a brace.
pub proof fn lemma_object_with_text_around(
    answer: Seq<char>,
    before: Seq<char>,
    object: Seq<char>,
    after: Seq<char>,
    v: JsonView,
)
    requires
        answer == before + object + after,
        !text::contains(answer, "```"@),
        !before.contains('{'),
        !after.contains('}'),
        object.len() >= 2,
        object[0] == '{',
        object.last() == '}',
        text::trimmed(answer)[0] != '{',
        json::text_read(object) == Ok::<JsonView, Seq<char>>(v),
    ensures
        reply::decision_in_text(answer) == reply::decision(v),
{
    assert(reply::surrounded(answer, before, object, after));
    reply::lemma_surrounded_answer(answer, before, object, after);
}

proof fn lemma_no_brace_in_part(s: Seq<char>, a: int, b: int)
    requires
        !s.contains('{'),
        0 <= a <= b <= s.len(),
    ensures
        !s.subrange(a, b).contains('{'),
{
    let part = s.subrange(a, b);
    if part.contains('{') {
        let i = choose|i: int| 0 <= i < part.len() && part[i] == '{';
        assert(s[a + i] == '{');
    }
}

proof fn lemma_no_brace_in_fence(t: Seq<char>, mark: Seq<char>)
    requires
        !t.contains('{'),
    ensures
        reply::if_braced(reply::fenced(t, mark)) == Seq::<Seq<char>>::empty(),
{
    text::lemma_find(t, mark);
    if let Some(p) = text::find(t, mark) {
        let after = t.skip(p + mark.len());
        lemma_no_brace_in_part(t, p + mark.len(), t.len() as int);
        assert(after =~= t.subrange(p + mark.len(), t.len() as int));
        text::lemma_find(after, "```"@);
        if let Some(e) = text::find(after, "```"@) {
            let inner = after.take(e);
            lemma_no_brace_in_part(after, 0, e);
            assert(inner =~= after.subrange(0, e));
            let bounds = texts::lemma_trimming(inner);
            lemma_no_brace_in_part(inner, bounds.0, bounds.1);
            let s = text::trimmed(inner);
            if s.len() > 0 {
                assert(s.contains(s[0]));
            }
        }
    }
}

/// An answer without an opening brace has no object in it and is refused.
pub proof fn lemma_no_object(answer: Seq<char>)
    requires
        !answer.contains('{'),
    ensures
        reply::decision_in_text(answer) == Err::<ReplyView, ReplyError>(ReplyError::NoJson),
{
    let t = text::trimmed(answer);
    let bounds = texts::lemma_trimming(answer);
    lemma_no_brace_in_part(answer, bounds.0, bounds.1);
    if t.len() > 0 {
        assert(t.contains(t[0]));
    }
    lemma_no_brace_in_fence(t, "```json"@);
    lemma_no_brace_in_fence(t, "```"@);
    text::lemma_find(t, seq!['{']);
    if let Some(p) = text::find(t, seq!['{']) {
        assert(t.subrange(p, p + 1)[0] == '{');
        assert(t[p] == '{');
    }
    assert(reply::places(answer) =~= Seq::<Seq<char>>::empty());
}

/// The errors in words, and a reply and its parts.
pub proof fn lemma_reply_values(r: LlmReply)
    ensures
        ReplyError::NoJson.text() == "no JSON object found in LLM response"@,
        ReplyError::BadDirection.text()
            == "missing or invalid 'direction' (must be 'up' or 'down')"@,
        ReplyError::ShortReasoning.text()
            == "missing or too short 'reasoning' (must be >= 80 chars)"@,
        r@.direction == r.direction@,
        r@.reasoning == r.reasoning@,
        r@.tickets == r.tickets,
        r.market_id is None ==> r@.market_id is None,
        r.market_id is Some ==> r@.market_id == Some(r.market_id->0@),
        reply::outcome(Ok(r)) == Ok::<ReplyView, ReplyError>(r@),
        forall|e: ReplyError| #[trigger]
            reply::outcome(Err(e)) == Err::<ReplyView, ReplyError>(e),
{
}

} // verus!
