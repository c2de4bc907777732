//! Laws of JSON values: what is read of a value is what its members hold, and nothing else.

use vstd::prelude::*;

use crate::json;
use crate::json::{Json, JsonNumber, JsonView};

verus! {

/// What is read under a key of an object is what the object holds under exactly that key: a text
/// only where a text is, a list only where a list is, and so on; a default is taken where the
/// member is missing or of another kind, and never otherwise.
pub proof fn lemma_members_read(
    m: Map<Seq<char>, JsonView>,
    key: Seq<char>,
    default: Seq<char>,
    number: i64,
)
    ensures
        m.contains_key(key) ==> JsonView::Object(m).get(key) == Some(m[key]),
        !m.contains_key(key) ==> JsonView::Object(m).get(key) == None::<JsonView>,
        m.contains_key(key) && m[key] is String ==> JsonView::Object(m).str_at(key) == Some(
            m[key]->String_0,
        ) && JsonView::Object(m).str_or(key, default) == m[key]->String_0,
        !(m.contains_key(key) && m[key] is String) ==> JsonView::Object(m).str_at(key) == None::<
            Seq<char>,
        > && JsonView::Object(m).str_or(key, default) == default,
        JsonView::Object(m).flag(key) <==> m.contains_key(key) && m[key] == JsonView::Bool(true),
        m.contains_key(key) && m[key] is Array ==> JsonView::Object(m).array_at(key) == Some(
            m[key]->Array_0,
        ),
        !(m.contains_key(key) && m[key] is Array) ==> JsonView::Object(m).array_at(key) == None::<
            Seq<JsonView>,
        >,
        m.contains_key(key) && m[key] is Number ==> JsonView::Object(m).number_at(key) == Some(
            m[key]->Number_0,
        ),
        !(m.contains_key(key) && m[key] is Number) ==> JsonView::Object(m).number_at(key) == None::<
            JsonNumber,
        >,
        m.contains_key(key) && m[key] is Number ==> (match m[key]->Number_0 {
            JsonNumber::Unsigned(u) => JsonView::Object(m).i64_or(key, number) == (if u
                <= 0x7fff_ffff_ffff_ffff {
                u as int
            } else {
                number as int
            }),
            JsonNumber::Negative(i) => JsonView::Object(m).i64_or(key, number) == i,
            JsonNumber::Float(_) => JsonView::Object(m).i64_or(key, number) == number,
        }),
        !(m.contains_key(key) && m[key] is Number) ==> JsonView::Object(m).i64_or(key, number)
            == number,
{
}

/// A value that is no object has no members: every reading by key misses.
pub proof fn lemma_no_members(v: JsonView, key: Seq<char>, default: Seq<char>, number: i64)
    requires
        !(v is Object),
    ensures
        v.get(key) == None::<JsonView>,
        v.str_at(key) == None::<Seq<char>>,
        v.str_or(key, default) == default,
        v.i64_or(key, number) == number,
        !v.flag(key),
        v.array_at(key) == None::<Seq<JsonView>>,
        v.number_at(key) == None::<JsonNumber>,
        v.data() == JsonView::Object(Map::empty()),
{
}

/// A value is read as what it is: as a text exactly where it is one, and so on. A whole number
/// is read as an unsigned one where it is not negative, and as a signed one where it fits.
pub proof fn lemma_kinds(v: JsonView, s: Seq<char>, b: bool, items: Seq<JsonView>, u: u64, i: i64)
    ensures
        v.as_str() == Some(s) <==> v == JsonView::String(s),
        v.as_bool() == Some(b) <==> v == JsonView::Bool(b),
        v.as_array() == Some(items) <==> v == JsonView::Array(items),
        v.as_u64() == Some(u) <==> v == JsonView::Number(JsonNumber::Unsigned(u)),
        v.as_i64() == Some(i) <==> {
            ||| v == JsonView::Number(JsonNumber::Negative(i))
            ||| i >= 0 && v == JsonView::Number(JsonNumber::Unsigned(i as u64))
        },
{
}

/// A whole number that is written into a value is read back from it.
pub proof fn lemma_number_read_back(u: u64, i: i64)
    ensures
        JsonView::unsigned(u).as_u64() == Some(u),
        JsonView::signed(i).as_i64() == Some(i),
        i >= 0 ==> JsonView::signed(i) == JsonView::unsigned(i as u64),
{
}

/// The payload of an answer is what stands under "data".
pub proof fn lemma_payload(m: Map<Seq<char>, JsonView>)
    ensures
        m.contains_key("data"@) ==> JsonView::Object(m).data() == m["data"@],
        !m.contains_key("data"@) ==> JsonView::Object(m).data() == JsonView::Object(Map::empty()),
{
}

/// An added member is read back, and the other members stay as they were.
pub proof fn lemma_member_added(
    m: Map<Seq<char>, JsonView>,
    key: Seq<char>,
    value: JsonView,
    other: Seq<char>,
)
    ensures
        JsonView::Object(m).with(key, value) == JsonView::Object(m.insert(key, value)),
        JsonView::Object(m).with(key, value).get(key) == Some(value),
        other != key ==> JsonView::Object(m).with(key, value).get(other) == JsonView::Object(m).get(
            other,
        ),
        JsonView::object() == JsonView::Object(Map::empty()),
{
}

/// A value stands for what it holds; a list for its items, one for one and in order.
pub proof fn lemma_what_a_value_is(b: bool, n: JsonNumber, s: String, items: Vec<Json>, i: int)
    requires
        0 <= i < items@.len(),
    ensures
        Json::Null@ == JsonView::Null,
        Json::Bool(b)@ == JsonView::Bool(b),
        Json::Number(n)@ == JsonView::Number(n),
        Json::String(s)@ == JsonView::String(s@),
        Json::Array(items)@ is Array,
        Json::Array(items)@->Array_0.len() == items@.len(),
        Json::Array(items)@->Array_0[i] == items@[i]@,
        json::maybe(Some(&items@[i])) == Some(items@[i]@),
        json::maybe(None) == None::<JsonView>,
        json::maybe_text(None) == None::<Seq<char>>,
{
    json::lemma_items_view(items@);
}

/// A text that is there stands for its characters.
pub proof fn lemma_text_there(s: &str)
    ensures
        json::maybe_text(Some(s)) == Some(s@),
{
}

proof fn lemma_last_entry(list: Seq<(String, Json)>, i: int)
    requires
        0 <= i < list.len(),
        forall|j: int| i < j < list.len() ==> #[trigger] list[j].0@ != list[i].0@,
    ensures
        json::members_view(list).contains_key(list[i].0@),
        json::members_view(list)[list[i].0@] == list[i].1@,
    decreases list.len(),
{
    if i < list.len() - 1 {
        assert(list.drop_last()[i] == list[i]);
        assert(list[list.len() - 1].0@ != list[i].0@);
        assert forall|j: int| i < j < list.drop_last().len() implies #[trigger] list.drop_last()[j].0@
            != list.drop_last()[i].0@ by {
            assert(list[j].0@ != list[i].0@);
        }
        lemma_last_entry(list.drop_last(), i);
    }
}

proof fn lemma_only_entries(list: Seq<(String, Json)>, key: Seq<char>)
    requires
        json::members_view(list).contains_key(key),
    ensures
        exists|j: int| 0 <= j < list.len() && #[trigger] list[j].0@ == key,
    decreases list.len(),
{
    if list.last().0@ == key && list.len() > 0 {
        assert(list[list.len() - 1].0@ == key);
    } else if list.len() > 0 {
        lemma_only_entries(list.drop_last(), key);
        let j = choose|j: int| 0 <= j < list.drop_last().len() && #[trigger] list.drop_last()[j].0@
            == key;
        assert(list[j].0@ == key);
    }
}

/// Of an object that lists a key twice the last entry counts, and an object has no member but
/// those that it lists.
pub proof fn lemma_last_entry_counts(list: Vec<(String, Json)>, i: int, key: Seq<char>)
    requires
        0 <= i < list@.len(),
        forall|j: int| i < j < list@.len() ==> #[trigger] list@[j].0@ != list@[i].0@,
        forall|j: int| 0 <= j < list@.len() ==> #[trigger] list@[j].0@ != key,
    ensures
        Json::Object(list)@.get(list@[i].0@) == Some(list@[i].1@),
        Json::Object(list)@.get(key) == None::<JsonView>,
{
    lemma_last_entry(list@, i);
    if json::members_view(list@).contains_key(key) {
        lemma_only_entries(list@, key);
    }
}

} // verus!
