//! Reading what the model answered.
//!
//! A model is asked for a bare JSON object. It may still put the object into a code fence or
//! write text around it.

use vstd::prelude::*;

use crate::double;
use crate::json;
use crate::json::{Json, JsonNumber, JsonView};
use crate::text;

verus! {

/// The text inside the first fence that opens with `mark`, trimmed.
pub open spec fn fenced(t: Seq<char>, mark: Seq<char>) -> Option<Seq<char>> {
    match text::find(t, mark) {
        Some(p) => {
            let after = t.skip(p + mark.len());
            match text::find(after, "```"@) {
                Some(e) => Some(text::trimmed(after.take(e))),
                None => None,
            }
        },
        None => None,
    }
}

/// The text from the first opening brace to the last closing one.
pub open spec fn braced(t: Seq<char>) -> Option<Seq<char>> {
    match (text::find(t, seq!['{']), text::rfind_char(t, '}')) {
        (Some(a), Some(b)) => if b > a {
            Some(t.subrange(a, b + 1))
        } else {
            None
        },
        _ => None,
    }
}

/// The text itself, where it opens with a brace.
pub open spec fn if_braced(t: Option<Seq<char>>) -> Seq<Seq<char>> {
    match t {
        Some(s) => if json::opens_with_brace(s) {
            seq![s]
        } else {
            Seq::empty()
        },
        None => Seq::empty(),
    }
}

/// A text that may be missing, as a list.
pub open spec fn if_any(t: Option<Seq<char>>) -> Seq<Seq<char>> {
    match t {
        Some(s) => seq![s],
        None => Seq::empty(),
    }
}

/// Where the object may stand in an answer, the likelier places first: the whole answer, a fence
/// marked as JSON, any fence, and what lies between the outermost braces. What does not open with
/// a brace is no object.
pub open spec fn places(answer: Seq<char>) -> Seq<Seq<char>> {
    let t = text::trimmed(answer);
    if_braced(Some(t)) + if_braced(fenced(t, "```json"@)) + if_braced(fenced(t, "```"@)) + if_any(
        braced(t),
    )
}

/// The first of some texts that is JSON.
pub open spec fn first_json(list: Seq<Seq<char>>) -> Option<Seq<char>>
    decreases list.len(),
{
    if list.len() == 0 {
        None
    } else if json::json_of_text(list[0]) is Some {
        Some(list[0])
    } else {
        first_json(list.drop_first())
    }
}

/// The views of a list of texts.
pub open spec fn texts(list: Seq<String>) -> Seq<Seq<char>> {
    list.map_values(|s: String| s@)
}

/// Whether a text opens with a brace.
fn starts_with_brace(t: &str) -> (r: bool)
    ensures
        r == json::opens_with_brace(t@),
{
    t.unicode_len() > 0 && t.get_char(0) == '{'
}

fn fence<'a>(t: &'a str, mark: &str) -> (r: Option<&'a str>)
    ensures
        json::maybe_text(r) == fenced(t@, mark@),
{
    match text::find_text(t, mark) {
        Some(p) => {
            let n = t.unicode_len();
            let m = mark.unicode_len();
            let after = t.substring_char(p + m, n);
            assert(after@ =~= t@.skip(p + m));
            match text::find_text(after, "```") {
                Some(e) => {
                    let inner = after.substring_char(0, e);
                    assert(inner@ =~= after@.take(e as int));
                    Some(text::trim(inner))
                },
                None => None,
            }
        },
        None => None,
    }
}

/// Where the object may stand in an answer, the likelier places first.
pub fn candidates(answer: &str) -> (r: Vec<String>)
    ensures
        texts(r@) == places(answer@),
{
    let t = text::trim(answer);
    let mut list: Vec<String> = Vec::new();
    assert(texts(list@) =~= Seq::<Seq<char>>::empty());
    if starts_with_brace(t) {
        list.push(t.to_owned());
    }
    assert(texts(list@) =~= if_braced(Some(t@)));
    let ghost one = texts(list@);
    let marked = fence(t, "```json");
    if let Some(inner) = marked {
        if starts_with_brace(inner) {
            list.push(inner.to_owned());
        }
    }
    assert(texts(list@) =~= one + if_braced(fenced(t@, "```json"@)));
    let ghost two = texts(list@);
    let plain = fence(t, "```");
    if let Some(inner) = plain {
        if starts_with_brace(inner) {
            list.push(inner.to_owned());
        }
    }
    assert(texts(list@) =~= two + if_braced(fenced(t@, "```"@)));
    let ghost three = texts(list@);
    proof {
        reveal_strlit("{");
        assert("{"@ =~= seq!['{']);
    }
    let count = t.unicode_len();
    let open = text::find_text(t, "{");
    let close = text::rfind(t, '}');
    if let Some(a) = open {
        if let Some(b) = close {
            if b > a {
                list.push(t.substring_char(a, b + 1).to_owned());
            }
        }
    }
    assert(texts(list@) =~= three + if_any(braced(t@)));
    list
}

/// Whether an answer is an object with text around it, none of which holds a fence, an opening
/// brace before the object or a closing one behind it.
pub open spec fn surrounded(
    answer: Seq<char>,
    before: Seq<char>,
    object: Seq<char>,
    after: Seq<char>,
) -> bool {
    &&& answer == before + object + after
    &&& !text::contains(answer, "```"@)
    &&& !before.contains('{')
    &&& !after.contains('}')
    &&& object.len() >= 2
    &&& object[0] == '{'
    &&& object.last() == '}'
    &&& json::json_of_text(object) is Some
}

/// The JSON object in an answer that may have fences or other text around it. Text around an
/// object makes no difference, as long as it has no fence and no braces.
pub fn extract_json(answer: &str) -> (r: Option<String>)
    ensures
        match r {
            Some(s) => first_json(places(answer@)) == Some(s@),
            None => first_json(places(answer@)) is None,
        },
        r matches Some(s) ==> json::json_of_text(s@) is Some && json::json_of_text(s@)->0 is Object,
        forall|before: Seq<char>, object: Seq<char>, after: Seq<char>| #[trigger]
            surrounded(answer@, before, object, after) ==> r is Some && r->0@ == object,
{
    let list = candidates(answer);
    let ghost all = texts(list@);
    let mut i: usize = 0;
    assert(all.skip(0) =~= all);
    while i < list.len()
        invariant
            all == texts(list@),
            all == places(answer@),
            i <= list@.len(),
            first_json(all) == first_json(all.skip(i as int)),
            forall|j: int|
                0 <= j < i ==> json::braces_tell(#[trigger] all[j], json::json_of_text(all[j])),
        decreases list@.len() - i,
    {
        assert(all.skip(i as int)[0] == list@[i as int]@);
        assert(all.skip(i as int).drop_first() =~= all.skip(i + 1));
        if json::is_json(list[i].as_str()) {
            proof {
                assert(all[i as int] == list@[i as int]@);
                lemma_braced_places(answer@, i as int);
                lemma_surrounded_all(answer@, i + 1);
            }
            return Some(list[i].clone());
        }
        i += 1;
    }
    proof {
        lemma_surrounded_all(answer@, i as int);
    }
    None
}

/// What the model decided.
#[derive(Debug, PartialEq, Eq)]
pub struct LlmReply {
    pub direction: String,
    pub reasoning: String,
    pub tickets: Option<u32>,
    pub market_id: Option<String>,
}

#[verifier::ext_equal]
pub struct ReplyView {
    pub direction: Seq<char>,
    pub reasoning: Seq<char>,
    pub tickets: Option<u32>,
    pub market_id: Option<Seq<char>>,
}

/// Why an answer is of no use.
#[derive(Clone, Copy, Debug, PartialEq, Eq, Structural)]
pub enum ReplyError {
    /// There is no JSON in it.
    NoJson,
    /// It names no direction, or one that is neither up nor down.
    BadDirection,
    /// It gives no reasoning, or fewer than 80 characters of it.
    ShortReasoning,
}

impl LlmReply {
    pub open spec fn view(&self) -> ReplyView {
        ReplyView {
            direction: self.direction@,
            reasoning: self.reasoning@,
            tickets: self.tickets,
            market_id: crate::output::opt_text(self.market_id),
        }
    }
}

impl ReplyError {
    /// The error in words.
    pub open spec fn text(self) -> Seq<char> {
        match self {
            ReplyError::NoJson => "no JSON object found in LLM response"@,
            ReplyError::BadDirection => "missing or invalid 'direction' (must be 'up' or 'down')"@,
            ReplyError::ShortReasoning => "missing or too short 'reasoning' (must be >= 80 chars)"@,
        }
    }

    /// The error in words.
    pub fn message(self) -> (r: String)
        ensures
            r@ == self.text(),
    {
        match self {
            ReplyError::NoJson => "no JSON object found in LLM response".to_owned(),
            ReplyError::BadDirection => "missing or invalid 'direction' (must be 'up' or 'down')"
                .to_owned(),
            ReplyError::ShortReasoning => "missing or too short 'reasoning' (must be >= 80 chars)"
                .to_owned(),
        }
    }
}

/// The direction that an answer names, in lower case, if it is one of the two.
pub open spec fn direction_in(v: JsonView) -> Option<Seq<char>> {
    match v.str_at("direction"@) {
        Some(s) => {
            let d = text::lower(s);
            if d == "up"@ || d == "down"@ {
                Some(d)
            } else {
                None
            }
        },
        None => None,
    }
}

/// The reasoning that an answer gives, if it is long enough.
pub open spec fn reasoning_in(v: JsonView) -> Option<Seq<char>> {
    match v.str_at("reasoning"@) {
        Some(s) => if s.len() >= 80 {
            Some(s)
        } else {
            None
        },
        None => None,
    }
}

/// The whole part of a number that is not negative; zero for a negative one.
pub open spec fn whole_number(n: JsonNumber) -> int {
    match n {
        JsonNumber::Unsigned(u) => u as int,
        JsonNumber::Negative(_) => 0,
        JsonNumber::Float(b) => double::whole(b),
    }
}

/// The tickets that a number stands for: its whole part, but at least one, and at most as many as
/// 32 bits can tell.
pub open spec fn tickets_of(n: JsonNumber) -> u32 {
    let w = whole_number(n);
    if w < 1 {
        1
    } else if w > u32::MAX {
        u32::MAX
    } else {
        w as u32
    }
}

/// The tickets that an answer asks for.
pub open spec fn tickets_in(v: JsonView) -> Option<u32> {
    match v.number_at("tickets"@) {
        Some(n) => Some(tickets_of(n)),
        None => None,
    }
}

/// What an answer decides, or why it is of no use. A bad direction is reported before a missing
/// reasoning.
pub open spec fn decision(v: JsonView) -> Result<ReplyView, ReplyError> {
    match direction_in(v) {
        None => Err(ReplyError::BadDirection),
        Some(direction) => match reasoning_in(v) {
            None => Err(ReplyError::ShortReasoning),
            Some(reasoning) => Ok(
                ReplyView {
                    direction,
                    reasoning,
                    tickets: tickets_in(v),
                    market_id: v.str_at("market_id"@),
                },
            ),
        },
    }
}

/// What the text of an answer decides.
pub open spec fn decision_in_text(answer: Seq<char>) -> Result<ReplyView, ReplyError> {
    match first_json(places(answer)) {
        None => Err(ReplyError::NoJson),
        Some(s) => match json::json_of_text(s) {
            None => Err(ReplyError::NoJson),
            Some(v) => decision(v),
        },
    }
}

/// The view of a decision or its error.
pub open spec fn outcome(r: Result<LlmReply, ReplyError>) -> Result<ReplyView, ReplyError> {
    match r {
        Ok(d) => Ok(d@),
        Err(e) => Err(e),
    }
}

/// The tickets that a number stands for.
pub fn tickets_from(n: JsonNumber) -> (r: u32)
    ensures
        r == tickets_of(n),
{
    let w: u64 = match n {
        JsonNumber::Unsigned(u) => u,
        JsonNumber::Negative(_) => 0,
        JsonNumber::Float(b) => double::to_u64(b),
    };
    if w < 1 {
        1
    } else if w > u32::MAX as u64 {
        u32::MAX
    } else {
        w as u32
    }
}

/// What an answer decides.
pub fn read_reply(v: &Json) -> (r: Result<LlmReply, ReplyError>)
    ensures
        outcome(r) == decision(v@),
        r is Ok <==> {
            &&& v@.str_at("direction"@) is Some
            &&& text::lower(v@.str_at("direction"@)->0) == "up"@ || text::lower(
                v@.str_at("direction"@)->0,
            ) == "down"@
            &&& v@.str_at("reasoning"@) is Some
            &&& v@.str_at("reasoning"@)->0.len() >= 80
        },
        r matches Ok(d) ==> v@.str_at("reasoning"@) == Some(d.reasoning@),
        r matches Ok(d) ==> (d.tickets matches Some(t) ==> t >= 1),
{
    let direction = match v.str_at("direction") {
        Some(s) => text::to_lower(s),
        None => return Err(ReplyError::BadDirection),
    };
    if !text::same(direction.as_str(), "up") && !text::same(direction.as_str(), "down") {
        return Err(ReplyError::BadDirection);
    }
    let reasoning = match v.str_at("reasoning") {
        Some(s) => s,
        None => return Err(ReplyError::ShortReasoning),
    };
    if reasoning.unicode_len() < 80 {
        return Err(ReplyError::ShortReasoning);
    }
    let tickets = match v.number_at("tickets") {
        Some(n) => Some(tickets_from(n)),
        None => None,
    };
    let market_id = match v.str_at("market_id") {
        Some(s) => Some(s.to_owned()),
        None => None,
    };
    Ok(LlmReply { direction, reasoning: reasoning.to_owned(), tickets, market_id })
}

proof fn lemma_first_json(list: Seq<Seq<char>>)
    ensures
        first_json(list) matches Some(s) ==> json::json_of_text(s) is Some && list.contains(s),
    decreases list.len(),
{
    if list.len() > 0 && json::json_of_text(list[0]) is None {
        lemma_first_json(list.drop_first());
        if first_json(list) is Some {
            let s = first_json(list)->0;
            let i = choose|i: int| 0 <= i < list.drop_first().len() && list.drop_first()[i] == s;
            assert(list[i + 1] == s);
        }
    }
}

/// What is extracted from an answer is JSON, and stands in the answer at one of the places where
/// it is looked for.
pub proof fn lemma_extracted_is_json(answer: Seq<char>)
    ensures
        first_json(places(answer)) matches Some(s) ==> json::json_of_text(s) is Some && places(
            answer,
        ).contains(s),
{
    lemma_first_json(places(answer));
}

/// Reads the answer of a model.
pub fn parse_llm_response(answer: &str) -> (r: Result<LlmReply, ReplyError>)
    ensures
        outcome(r) == decision_in_text(answer@),
        r matches Ok(d) ==> (d.tickets matches Some(t) ==> t >= 1),
{
    let found = match extract_json(answer) {
        Some(s) => s,
        None => return Err(ReplyError::NoJson),
    };
    match json::parse(found.as_str()) {
        Some(v) => read_reply(&v),
        None => Err(ReplyError::NoJson),
    }
}

/// A decision names one of the two directions and gives at least 80 characters of reasoning; it
/// asks for at least one ticket, if it asks for any, and for as many as the answer says where
/// that fits.
pub proof fn lemma_decision(v: JsonView)
    ensures
        decision(v) matches Ok(d) ==> {
            &&& d.direction == "up"@ || d.direction == "down"@
            &&& d.reasoning.len() >= 80
            &&& v.str_at("reasoning"@) == Some(d.reasoning)
            &&& d.tickets matches Some(t) ==> t >= 1
            &&& d.tickets is Some <==> v.number_at("tickets"@) is Some
            &&& v.number_at("tickets"@) matches Some(n) ==> (1 <= whole_number(n) <= u32::MAX
                ==> d.tickets->0 == whole_number(n))
        },
        direction_in(v) is None <==> decision(v) == Err::<ReplyView, ReplyError>(
            ReplyError::BadDirection,
        ),
{
}

/// Where the likelier place holds JSON, it is what is extracted.
proof fn lemma_first_place(list: Seq<Seq<char>>, rest: Seq<Seq<char>>, s: Seq<char>)
    requires
        json::json_of_text(s) is Some,
        forall|i: int| 0 <= i < list.len() ==> json::json_of_text(#[trigger] list[i]) is None,
    ensures
        first_json(list + seq![s] + rest) == Some(s),
    decreases list.len(),
{
    let all = list + seq![s] + rest;
    if list.len() == 0 {
        assert(all[0] == s);
    } else {
        assert(all[0] == list[0]);
        assert forall|i: int| 0 <= i < list.drop_first().len() implies json::json_of_text(
            #[trigger] list.drop_first()[i],
        ) is None by {
            assert(list.drop_first()[i] == list[i + 1]);
        }
        lemma_first_place(list.drop_first(), rest, s);
        assert(all.drop_first() =~= list.drop_first() + seq![s] + rest);
    }
}

/// An answer that is a bare JSON object, but for blanks around it, is extracted as it is.
pub proof fn lemma_bare_answer(answer: Seq<char>)
    requires
        json::opens_with_brace(text::trimmed(answer)),
        json::json_of_text(text::trimmed(answer)) is Some,
    ensures
        first_json(places(answer)) == Some(text::trimmed(answer)),
{
    let t = text::trimmed(answer);
    let rest = if_braced(fenced(t, "```json"@)) + if_braced(fenced(t, "```"@)) + if_any(braced(t));
    lemma_first_place(Seq::empty(), rest, t);
    assert(places(answer) =~= Seq::<Seq<char>>::empty() + seq![t] + rest);
}

/// An object in a fence that is marked as JSON is extracted, whatever stands around the fence, as long
/// as the answer is not JSON itself.
pub proof fn lemma_fenced_answer(
    answer: Seq<char>,
    before: Seq<char>,
    inner: Seq<char>,
    after: Seq<char>,
)
    requires
        text::trimmed(answer) == before + "```json"@ + inner + "```"@ + after,
        forall|i: int| i < before.len() ==> !text::occurs_at(text::trimmed(answer), "```json"@, i),
        forall|i: int| i < inner.len() ==> !text::occurs_at(inner + "```"@ + after, "```"@, i),
        json::opens_with_brace(text::trimmed(answer)) ==> json::json_of_text(text::trimmed(answer))
            is None,
        json::opens_with_brace(text::trimmed(inner)),
        json::json_of_text(text::trimmed(inner)) is Some,
    ensures
        first_json(places(answer)) == Some(text::trimmed(inner)),
{
    let t = text::trimmed(answer);
    let mark = "```json"@;
    let end = "```"@;
    let tail = inner + end + after;
    let p = before.len() as int;
    let e = inner.len() as int;
    assert(t.subrange(p, p + mark.len()) =~= mark);
    assert(text::occurs_at(t, mark, p));
    text::lemma_find(t, mark);
    assert(t.skip(p + mark.len()) =~= tail);
    assert(tail.subrange(e, e + end.len()) =~= end);
    assert(text::occurs_at(tail, end, e));
    text::lemma_find(tail, end);
    assert(tail.take(e) =~= inner);
    assert(fenced(t, mark) == Some(text::trimmed(inner)));
    let rest = if_braced(fenced(t, end)) + if_any(braced(t));
    lemma_first_place(if_braced(Some(t)), rest, text::trimmed(inner));
    assert(places(answer) =~= if_braced(Some(t)) + seq![text::trimmed(inner)] + rest);
}

proof fn lemma_last_brace(front: Seq<char>, after: Seq<char>)
    requires
        front.len() > 0,
        front.last() == '}',
        !after.contains('}'),
    ensures
        text::rfind_char(front + after, '}') == Some(front.len() - 1),
    decreases after.len(),
{
    let t = front + after;
    if after.len() == 0 {
        assert(t =~= front);
    } else {
        assert(t.last() == after.last());
        assert(after.contains(after.last()));
        assert(t.drop_last() =~= front + after.drop_last());
        assert(!after.drop_last().contains('}')) by {
            if after.drop_last().contains('}') {
                let i = choose|i: int|
                    0 <= i < after.drop_last().len() && after.drop_last()[i] == '}';
                assert(after[i] == '}');
            }
        }
        lemma_last_brace(front, after.drop_last());
    }
}

proof fn lemma_object_inside(
    answer: Seq<char>,
    before: Seq<char>,
    object: Seq<char>,
    after: Seq<char>,
)
    requires
        text::trimmed(answer) == before + object + after,
        !text::contains(text::trimmed(answer), "```"@),
        !before.contains('{'),
        !after.contains('}'),
        object.len() >= 2,
        object[0] == '{',
        object.last() == '}',
        json::json_of_text(object) is Some,
        json::opens_with_brace(text::trimmed(answer)) ==> json::json_of_text(text::trimmed(answer))
            is None,
    ensures
        first_json(places(answer)) == Some(object),
{
    let t = text::trimmed(answer);
    let open = seq!['{'];
    text::lemma_find(t, "```"@);
    text::lemma_find(t, "```json"@);
    assert(fenced(t, "```json"@) is None) by {
        reveal_strlit("```");
        reveal_strlit("```json");
        if text::find(t, "```json"@) is Some {
            let p = text::find(t, "```json"@)->0;
            assert(t.subrange(p, p + 3) =~= "```"@) by {
                assert forall|k: int| 0 <= k < 3 implies #[trigger] t.subrange(p, p + 3)[k]
                    == "```"@[k] by {
                    assert(t.subrange(p, p + 7)[k] == "```json"@[k]);
                }
            }
            assert(text::occurs_at(t, "```"@, p));
        }
    }
    let a = before.len() as int;
    assert(t.subrange(a, a + 1) =~= open);
    assert(text::occurs_at(t, open, a));
    text::lemma_find(t, open);
    let p = text::find(t, open)->0;
    assert(p == a) by {
        if p < a {
            assert(t.subrange(p, p + 1)[0] == '{');
            assert(before[p] == '{');
        }
    }
    assert(t =~= (before + object) + after);
    assert((before + object).last() == '}');
    lemma_last_brace(before + object, after);
    assert(t.subrange(a, a + object.len()) =~= object);
    lemma_first_place(if_braced(Some(t)), Seq::empty(), object);
    assert(places(answer) =~= if_braced(Some(t)) + seq![object] + Seq::<Seq<char>>::empty());
}

/// A JSON object with text around it is extracted, as long as the text holds no fence, no opening
/// brace stands before the object and no closing one behind it. That the answer as a whole is
/// not JSON is known once it has been read.
pub proof fn lemma_surrounded_answer(
    answer: Seq<char>,
    before: Seq<char>,
    object: Seq<char>,
    after: Seq<char>,
)
    requires
        surrounded(answer, before, object, after),
        json::opens_with_brace(text::trimmed(answer)) ==> json::braces_tell(
            text::trimmed(answer),
            json::json_of_text(text::trimmed(answer)),
        ),
    ensures
        first_json(places(answer)) == Some(object),
{
    let t = text::trimmed(answer);
    text::lemma_trimmed_around(before, object, after);
    let p = text::trim_start(before);
    let q = text::trim_end(after);
    let cut = before.len() - p.len();
    assert(t == p + object + q);
    assert(!p.contains('{')) by {
        if p.contains('{') {
            let i = choose|i: int| 0 <= i < p.len() && p[i] == '{';
            assert(before[i + cut] == '{');
        }
    }
    assert(!q.contains('}')) by {
        if q.contains('}') {
            let i = choose|i: int| 0 <= i < q.len() && q[i] == '}';
            assert(after[i] == '}');
        }
    }
    assert(!text::contains(t, "```"@)) by {
        if text::contains(t, "```"@) {
            let n = "```"@.len() as int;
            let i = choose|i: int| text::occurs_at(t, "```"@, i);
            assert(answer.subrange(cut + i, cut + i + n) =~= t.subrange(i, i + n));
            assert(text::occurs_at(answer, "```"@, cut + i));
        }
    }
    if p.len() == 0 && q.len() == 0 {
        assert(t =~= object);
        lemma_bare_answer(answer);
    } else {
        if p.len() == 0 {
            let k = object.len() as int;
            assert(t.take(k) =~= object);
            assert(t.skip(k) =~= q);
            assert(!json::blank(q)) by {
                assert(text::white(' ') && text::white('\n') && text::white('\t') && text::white(
                    '\r',
                ));
                assert(q[q.len() - 1] == q.last());
            }
        } else {
            assert(t[0] == p[0]);
        }
        lemma_object_inside(answer, p, object, q);
    }
}

/// Every place where an object may stand opens with a brace.
proof fn lemma_braced_places(answer: Seq<char>, i: int)
    requires
        0 <= i < places(answer).len(),
    ensures
        json::opens_with_brace(places(answer)[i]),
{
    let t = text::trimmed(answer);
    if braced(t) is Some {
        text::lemma_find(t, seq!['{']);
        let a = text::find(t, seq!['{'])->0;
        assert(t.subrange(a, a + 1)[0] == '{');
        lemma_rfind(t, '}');
        assert(braced(t)->0[0] == t[a]);
    }
}

proof fn lemma_rfind(s: Seq<char>, c: char)
    ensures
        text::rfind_char(s, c) matches Some(p) ==> 0 <= p < s.len(),
    decreases s.len(),
{
    if s.len() > 0 && s.last() != c {
        lemma_rfind(s.drop_last(), c);
    }
}

/// Once the first place has been read, an object with text around it is known to be extracted.
proof fn lemma_surrounded_all(answer: Seq<char>, tried: int)
    requires
        0 <= tried <= places(answer).len(),
        tried >= 1 || places(answer).len() == 0,
        forall|j: int|
            0 <= j < tried ==> json::braces_tell(
                #[trigger] places(answer)[j],
                json::json_of_text(places(answer)[j]),
            ),
    ensures
        forall|before: Seq<char>, object: Seq<char>, after: Seq<char>| #[trigger]
            surrounded(answer, before, object, after) ==> first_json(places(answer)) == Some(
                object,
            ),
{
    assert forall|before: Seq<char>, object: Seq<char>, after: Seq<char>| #[trigger]
        surrounded(answer, before, object, after) implies first_json(places(answer)) == Some(
        object,
    ) by {
        let t = text::trimmed(answer);
        if json::opens_with_brace(t) {
            assert(places(answer)[0] == t);
        }
        lemma_surrounded_answer(answer, before, object, after);
    }
}

} // verus!
