//! JSON values and how they are read from text.

use vstd::prelude::*;

use crate::text;

verus! {

#[verifier::external_type_specification]
#[verifier::external_body]
pub struct ExValue(serde_json::Value);

#[verifier::external_type_specification]
#[verifier::external_body]
pub struct ExNumber(serde_json::Number);

#[verifier::external_type_specification]
#[verifier::external_body]
#[verifier::reject_recursive_types(K)]
#[verifier::reject_recursive_types(V)]
pub struct ExMap<K, V>(serde_json::Map<K, V>);

/// A JSON number: a whole number, or the bit pattern of a double.
#[derive(Clone, Copy, Debug, PartialEq, Eq, Structural)]
pub enum JsonNumber {
    /// A whole number that is not negative.
    Unsigned(u64),
    /// A negative whole number.
    Negative(i64),
    /// The bits of an IEEE 754 double.
    Float(u64),
}

/// What a JSON value is, with objects as maps from their keys.
#[verifier::ext_equal]
pub enum JsonView {
    Null,
    Bool(bool),
    Number(JsonNumber),
    String(Seq<char>),
    Array(Seq<JsonView>),
    Object(Map<Seq<char>, JsonView>),
}

/// A JSON value. Where an object lists a key twice, the last entry counts.
#[derive(Debug, PartialEq, Eq)]
pub enum Json {
    Null,
    Bool(bool),
    Number(JsonNumber),
    String(String),
    Array(Vec<Json>),
    Object(Vec<(String, Json)>),
}

impl JsonNumber {
    /// The number as an unsigned one, if it is a whole number that is not negative.
    pub open spec fn unsigned(self) -> Option<u64> {
        match self {
            JsonNumber::Unsigned(u) => Some(u),
            _ => None,
        }
    }

    /// The number as a signed one, if it is a whole number in that range.
    pub open spec fn signed(self) -> Option<i64> {
        match self {
            JsonNumber::Unsigned(u) => if u <= i64::MAX {
                Some(u as i64)
            } else {
                None
            },
            JsonNumber::Negative(i) => Some(i),
            JsonNumber::Float(_) => None,
        }
    }
}

impl JsonView {
    /// The member of an object under a key.
    pub open spec fn get(self, key: Seq<char>) -> Option<JsonView> {
        match self {
            JsonView::Object(m) => if m.contains_key(key) {
                Some(m[key])
            } else {
                None
            },
            _ => None,
        }
    }

    pub open spec fn as_str(self) -> Option<Seq<char>> {
        match self {
            JsonView::String(s) => Some(s),
            _ => None,
        }
    }

    pub open spec fn as_bool(self) -> Option<bool> {
        match self {
            JsonView::Bool(b) => Some(b),
            _ => None,
        }
    }

    pub open spec fn as_number(self) -> Option<JsonNumber> {
        match self {
            JsonView::Number(n) => Some(n),
            _ => None,
        }
    }

    pub open spec fn as_u64(self) -> Option<u64> {
        match self {
            JsonView::Number(n) => n.unsigned(),
            _ => None,
        }
    }

    pub open spec fn as_i64(self) -> Option<i64> {
        match self {
            JsonView::Number(n) => n.signed(),
            _ => None,
        }
    }

    pub open spec fn as_array(self) -> Option<Seq<JsonView>> {
        match self {
            JsonView::Array(a) => Some(a),
            _ => None,
        }
    }

    /// The text under a key, if the member is there and is a text.
    pub open spec fn str_at(self, key: Seq<char>) -> Option<Seq<char>> {
        match self.get(key) {
            Some(v) => v.as_str(),
            None => None,
        }
    }

    /// The text under a key, or a default.
    pub open spec fn str_or(self, key: Seq<char>, default: Seq<char>) -> Seq<char> {
        match self.str_at(key) {
            Some(s) => s,
            None => default,
        }
    }

    /// The whole number under a key, or a default.
    pub open spec fn i64_or(self, key: Seq<char>, default: i64) -> i64 {
        match self.get(key) {
            Some(v) => match v.as_i64() {
                Some(i) => i,
                None => default,
            },
            None => default,
        }
    }

    /// The truth value under a key; false where there is none.
    pub open spec fn flag(self, key: Seq<char>) -> bool {
        match self.get(key) {
            Some(v) => v.as_bool() == Some(true),
            None => false,
        }
    }

    /// The items of the array under a key.
    pub open spec fn array_at(self, key: Seq<char>) -> Option<Seq<JsonView>> {
        match self.get(key) {
            Some(v) => v.as_array(),
            None => None,
        }
    }

    /// The number under a key.
    pub open spec fn number_at(self, key: Seq<char>) -> Option<JsonNumber> {
        match self.get(key) {
            Some(v) => v.as_number(),
            None => None,
        }
    }

    /// The payload of an answer: its `data` member, or an object without members.
    pub open spec fn data(self) -> JsonView {
        match self.get("data"@) {
            Some(v) => v,
            None => JsonView::object(),
        }
    }

    /// An object without members.
    pub open spec fn object() -> JsonView {
        JsonView::Object(Map::empty())
    }

    /// The object with a member added or replaced.
    pub open spec fn with(self, key: Seq<char>, value: JsonView) -> JsonView {
        match self {
            JsonView::Object(m) => JsonView::Object(m.insert(key, value)),
            _ => self,
        }
    }

    /// The whole number that is not negative, as a JSON number.
    pub open spec fn unsigned(n: u64) -> JsonView {
        JsonView::Number(JsonNumber::Unsigned(n))
    }

    /// The whole number as a JSON number.
    pub open spec fn signed(n: i64) -> JsonView {
        if n >= 0 {
            JsonView::Number(JsonNumber::Unsigned(n as u64))
        } else {
            JsonView::Number(JsonNumber::Negative(n))
        }
    }
}

/// The views of the items of a list.
pub open spec fn items_view(items: Seq<Json>) -> Seq<JsonView>
    decreases items,
{
    if items.len() == 0 {
        Seq::empty()
    } else {
        items_view(items.drop_last()).push(items.last().view())
    }
}

/// The map that a list of members makes; of two with the same key, the later counts.
pub open spec fn members_view(members: Seq<(String, Json)>) -> Map<Seq<char>, JsonView>
    decreases members,
{
    if members.len() == 0 {
        Map::empty()
    } else {
        members_view(members.drop_last()).insert(members.last().0@, members.last().1.view())
    }
}

impl Json {
    pub open spec fn view(&self) -> JsonView
        decreases self,
    {
        match self {
            Json::Null => JsonView::Null,
            Json::Bool(b) => JsonView::Bool(*b),
            Json::Number(n) => JsonView::Number(*n),
            Json::String(s) => JsonView::String(s@),
            Json::Array(a) => JsonView::Array(items_view(a@)),
            Json::Object(m) => JsonView::Object(members_view(m@)),
        }
    }
}

impl Json {
    /// Whether every number in it is a whole number.
    pub open spec fn whole_numbers(&self) -> bool
        decreases self,
    {
        match self {
            Json::Number(JsonNumber::Negative(i)) => *i < 0,
            Json::Number(JsonNumber::Float(_)) => false,
            Json::Array(a) => forall|i: int|
                0 <= i < a@.len() ==> (#[trigger] a@[i]).whole_numbers(),
            Json::Object(m) => forall|i: int|
                0 <= i < m@.len() ==> (#[trigger] m@[i]).1.whole_numbers(),
            _ => true,
        }
    }
}

/// The view of a list has one item for each item of the list.
pub proof fn lemma_items_view(items: Seq<Json>)
    ensures
        items_view(items).len() == items.len(),
        forall|i: int| 0 <= i < items.len() ==> #[trigger] items_view(items)[i] == items[i].view(),
    decreases items.len(),
{
    if items.len() > 0 {
        lemma_items_view(items.drop_last());
        assert forall|i: int| 0 <= i < items.len() implies #[trigger] items_view(items)[i]
            == items[i].view() by {
            if i < items.len() - 1 {
                assert(items.drop_last()[i] == items[i]);
            }
        }
    }
}

/// What a `serde_json::Value` holds.
pub uninterp spec fn value_tree(v: serde_json::Value) -> JsonView;

/// What a `serde_json::Map` holds.
pub uninterp spec fn map_tree(m: serde_json::Map<String, serde_json::Value>) -> Map<
    Seq<char>,
    JsonView,
>;

/// What a `serde_json::Number` holds.
pub uninterp spec fn number_of(n: serde_json::Number) -> JsonNumber;

/// What `serde_json::from_str` makes of a text: a value, or what it says is wrong.
pub uninterp spec fn text_read(s: Seq<char>) -> Result<JsonView, Seq<char>>;

/// What `serde_json::from_slice` makes of bytes: a value, or what it says is wrong.
pub uninterp spec fn bytes_read(b: Seq<u8>) -> Result<JsonView, Seq<char>>;

/// The value that a text writes; `None` where the text is not JSON.
pub open spec fn json_of_text(s: Seq<char>) -> Option<JsonView> {
    match text_read(s) {
        Ok(v) => Some(v),
        Err(_) => None,
    }
}

/// Whether a text opens with a brace.
pub open spec fn opens_with_brace(t: Seq<char>) -> bool {
    t.len() > 0 && t[0] == '{'
}

/// Whether a text is blank to JSON.
pub open spec fn blank(s: Seq<char>) -> bool {
    forall|i: int|
        0 <= i < s.len() ==> (#[trigger] s[i] == ' ' || s[i] == '\n' || s[i] == '\t' || s[i]
            == '\r')
}

/// What the grammar of JSON says of the braces of a text, for what is read from it:
///   - a text that opens with a brace writes an object;
///   - where an object ends and more than blanks follow, the whole is not JSON;
///   - where a text without an opening brace stands before an object, the whole is not JSON, or
///     is that object.
pub open spec fn braces_tell(s: Seq<char>, v: Option<JsonView>) -> bool {
    &&& opens_with_brace(s) && v is Some ==> v->0 is Object
    &&& forall|k: int|
        0 < k < s.len() && opens_with_brace(s) && json_of_text(#[trigger] s.take(k)) is Some
            && !blank(s.skip(k)) ==> v is None
    &&& forall|k: int|
        0 <= k < s.len() && !s.take(k).contains('{') && opens_with_brace(#[trigger] s.skip(k))
            && json_of_text(s.skip(k)) is Some ==> v is None || v == json_of_text(s.skip(k))
}

/// What `serde_json::to_string` writes for a value.
pub uninterp spec fn compact_text(v: JsonView) -> Seq<char>;

/// What the value that was read holds, if one was.
spec fn tree_of(r: Result<serde_json::Value, String>) -> Option<JsonView> {
    match r {
        Ok(v) => Some(value_tree(v)),
        Err(_) => None,
    }
}

/// Calls `serde_json::from_str`: the result is the value that the text writes, or what is wrong
/// with the text, in the words of `serde_json::Error`. The parser takes a value by its first
/// character that is not blank, stops where the value ends, and refuses whatever follows but
/// blanks; what [`braces_tell`] says follows from that, as only an object ends in a brace.
#[verifier::external_body]
fn read_text(s: &str) -> (r: Result<serde_json::Value, String>)
    ensures
        text_read(s@) == match r {
            Ok(v) => Ok(value_tree(v)),
            Err(e) => Err(e@),
        },
        braces_tell(s@, tree_of(r)),
{
    serde_json::from_str::<serde_json::Value>(s).map_err(|e| e.to_string())
}

/// Calls `serde_json::from_slice`: the result is the value that the bytes write, or what is wrong
/// with them, in the words of `serde_json::Error`.
#[verifier::external_body]
fn read_bytes(b: &[u8]) -> (r: Result<serde_json::Value, String>)
    ensures
        bytes_read(b@) == match r {
            Ok(v) => Ok(value_tree(v)),
            Err(e) => Err(e@),
        },
{
    serde_json::from_slice::<serde_json::Value>(b).map_err(|e| e.to_string())
}

/// Calls `serde_json::to_string` on a value. It writes every value that there is, and what it
/// writes depends on nothing but what the value holds.
#[verifier::external_body]
fn write_text(v: &serde_json::Value) -> (r: String)
    ensures
        r@ == compact_text(value_tree(*v)),
{
    serde_json::to_string(v).unwrap_or_default()
}

/// The cases of a `serde_json::Value`.
enum Parts {
    Null,
    Bool(bool),
    Number(serde_json::Number),
    Text(String),
    Array(Vec<serde_json::Value>),
    Object(serde_json::Map<String, serde_json::Value>),
}

impl Parts {
    /// What a value of this case holds.
    spec fn tree(self) -> JsonView {
        match self {
            Parts::Null => JsonView::Null,
            Parts::Bool(b) => JsonView::Bool(b),
            Parts::Number(n) => JsonView::Number(number_of(n)),
            Parts::Text(t) => JsonView::String(t@),
            Parts::Array(a) => JsonView::Array(a@.map_values(|v: serde_json::Value| value_tree(v))),
            Parts::Object(m) => JsonView::Object(map_tree(m)),
        }
    }
}

/// Tells the variants of `serde_json::Value` apart: each holds what its own field holds.
#[verifier::external_body]
fn split(v: serde_json::Value) -> (r: Parts)
    ensures
        r.tree() == value_tree(v),
{
    match v {
        serde_json::Value::Null => Parts::Null,
        serde_json::Value::Bool(b) => Parts::Bool(b),
        serde_json::Value::Number(n) => Parts::Number(n),
        serde_json::Value::String(t) => Parts::Text(t),
        serde_json::Value::Array(a) => Parts::Array(a),
        serde_json::Value::Object(m) => Parts::Object(m),
    }
}

/// Calls `serde_json::Map::into_iter`: it hands out each key once, with its value.
#[verifier::external_body]
fn members(m: serde_json::Map<String, serde_json::Value>) -> (r: Vec<(String, serde_json::Value)>)
    ensures
        forall|k: Seq<char>| #[trigger]
            map_tree(m).contains_key(k) <==> exists|i: int| 0 <= i < r@.len() && r@[i].0@ == k,
        forall|i: int|
            0 <= i < r@.len() ==> map_tree(m)[(#[trigger] r@[i]).0@] == value_tree(r@[i].1),
        forall|i: int, j: int| 0 <= i < j < r@.len() ==> r@[i].0@ != r@[j].0@,
{
    m.into_iter().collect()
}

/// Calls `serde_json::Number::as_u64`: it gives the whole numbers that are not negative.
#[verifier::external_body]
fn number_u64(n: &serde_json::Number) -> (r: Option<u64>)
    ensures
        r == number_of(*n).unsigned(),
{
    n.as_u64()
}

/// Calls `serde_json::Number::as_i64`: it gives the whole numbers in its range.
#[verifier::external_body]
fn number_i64(n: &serde_json::Number) -> (r: Option<i64>)
    ensures
        r == number_of(*n).signed(),
{
    n.as_i64()
}

/// Calls `serde_json::Number::as_f64` and takes the bits of the result: of a number that is not
/// whole, these are its bits.
#[verifier::external_body]
fn number_bits(n: &serde_json::Number) -> (r: u64)
    ensures
        number_of(*n) matches JsonNumber::Float(b) ==> r == b,
{
    n.as_f64().unwrap_or_default().to_bits()
}

/// Puts a variant of `serde_json::Value` together: it holds what its own field holds.
#[verifier::external_body]
fn join(p: Parts) -> (r: serde_json::Value)
    ensures
        value_tree(r) == p.tree(),
{
    match p {
        Parts::Null => serde_json::Value::Null,
        Parts::Bool(b) => serde_json::Value::Bool(b),
        Parts::Number(n) => serde_json::Value::Number(n),
        Parts::Text(t) => serde_json::Value::String(t),
        Parts::Array(a) => serde_json::Value::Array(a),
        Parts::Object(m) => serde_json::Value::Object(m),
    }
}

/// Calls `serde_json::Map::new`: the map holds nothing.
#[verifier::external_body]
fn no_members() -> (r: serde_json::Map<String, serde_json::Value>)
    ensures
        JsonView::Object(map_tree(r)) == JsonView::object(),
{
    serde_json::Map::new()
}

/// Calls `serde_json::Map::insert`: it sets the value under the key, and leaves the others.
#[verifier::external_body]
fn add_member(m: &mut serde_json::Map<String, serde_json::Value>, k: String, v: serde_json::Value)
    ensures
        map_tree(*final(m)) == map_tree(*old(m)).insert(k@, value_tree(v)),
{
    m.insert(k, v);
}

/// Calls `serde_json::Number::from` on an unsigned number: it holds that number.
#[verifier::external_body]
fn unsigned_number(u: u64) -> (r: serde_json::Number)
    ensures
        number_of(r) == JsonNumber::Unsigned(u),
{
    serde_json::Number::from(u)
}

/// Calls `serde_json::Number::from` on a signed number: it holds that number, as an unsigned one
/// where it is not negative.
#[verifier::external_body]
fn signed_number(i: i64) -> (r: serde_json::Number)
    ensures
        i < 0 ==> number_of(r) == JsonNumber::Negative(i),
        i >= 0 ==> number_of(r) == JsonNumber::Unsigned(i as u64),
{
    serde_json::Number::from(i)
}

fn number(n: &serde_json::Number) -> (r: JsonNumber)
    ensures
        r == number_of(*n),
{
    match number_u64(n) {
        Some(u) => JsonNumber::Unsigned(u),
        None => match number_i64(n) {
            Some(i) => JsonNumber::Negative(i),
            None => JsonNumber::Float(number_bits(n)),
        },
    }
}

/// The value that a `serde_json::Value` holds.
fn tree(v: serde_json::Value) -> (r: Json)
    ensures
        r@ == value_tree(v),
    decreases value_tree(v),
{
    match split(v) {
        Parts::Null => Json::Null,
        Parts::Bool(b) => Json::Bool(b),
        Parts::Number(n) => Json::Number(number(&n)),
        Parts::Text(t) => Json::String(t),
        Parts::Array(a) => {
            let ghost whole = value_tree(v)->Array_0;
            let mut items: Vec<Json> = Vec::new();
            for x in it: a
                invariant
                    value_tree(v) == JsonView::Array(whole),
                    whole == it.seq().map_values(|w: serde_json::Value| value_tree(w)),
                    items_view(items@) == whole.take(it.index() as int),
            {
                assert(value_tree(x) == whole[it.index() as int]);
                assert(decreases_to!(value_tree(v) => value_tree(v)->Array_0));
                assert(decreases_to!(whole => whole[it.index() as int]));
                let ghost before = items@;
                items.push(tree(x));
                assert(items@.drop_last() =~= before);
                assert(whole.take(it.index() + 1) =~= whole.take(it.index() as int).push(
                    whole[it.index() as int],
                ));
            }
            assert(whole.take(whole.len() as int) =~= whole);
            Json::Array(items)
        },
        Parts::Object(m) => {
            let ghost whole = map_tree(m);
            let list = members(m);
            let ghost listed = list@;
            let mut done: Vec<(String, Json)> = Vec::new();
            proof {
                lemma_keys_finite(whole, listed);
            }
            for x in it: list
                invariant
                    value_tree(v) == JsonView::Object(whole),
                    whole.dom().finite(),
                    it.seq() == listed,
                    forall|i: int|
                        0 <= i < listed.len() ==> whole.contains_key((#[trigger] listed[i]).0@)
                            && whole[listed[i].0@] == value_tree(listed[i].1),
                    forall|i: int, j: int|
                        0 <= i < j < listed.len() ==> listed[i].0@ != listed[j].0@,
                    done@.len() == it.index(),
                    forall|i: int|
                        0 <= i < done@.len() ==> (#[trigger] done@[i]).0@ == listed[i].0@
                            && done@[i].1@ == value_tree(listed[i].1),
            {
                let ghost k = x.0@;
                assert(x == listed[it.index() as int]);
                assert(decreases_to!(value_tree(v) => value_tree(v)->Object_0));
                assert(decreases_to!(whole => whole[k]));
                let (key, inner) = x;
                done.push((key, tree(inner)));
            }
            proof {
                lemma_distinct_members(done@);
                assert forall|k: Seq<char>| #[trigger] whole.contains_key(k) implies members_view(
                    done@,
                ).contains_key(k) && members_view(done@)[k] == whole[k] by {
                    let i = choose|i: int| 0 <= i < listed.len() && listed[i].0@ == k;
                    assert(done@[i].0@ == k);
                }
                assert forall|k: Seq<char>| #[trigger]
                    members_view(done@).contains_key(k) implies whole.contains_key(k) by {
                    let i = choose|i: int| 0 <= i < done@.len() && done@[i].0@ == k;
                    assert(listed[i].0@ == k);
                }
                assert(members_view(done@) =~= whole);
            }
            Json::Object(done)
        },
    }
}

proof fn lemma_keys_finite(
    whole: Map<Seq<char>, JsonView>,
    listed: Seq<(String, serde_json::Value)>,
)
    requires
        forall|k: Seq<char>| #[trigger]
            whole.contains_key(k) <==> exists|i: int| 0 <= i < listed.len() && listed[i].0@ == k,
    ensures
        whole.dom().finite(),
{
    let keys = listed.map_values(|e: (String, serde_json::Value)| e.0@);
    vstd::seq_lib::seq_to_set_is_finite(keys);
    assert(whole.dom() =~= keys.to_set()) by {
        assert forall|k: Seq<char>| whole.dom().contains(k) <==> keys.to_set().contains(k) by {
            if whole.contains_key(k) {
                let i = choose|i: int| 0 <= i < listed.len() && listed[i].0@ == k;
                assert(keys[i] == k);
            }
            if keys.contains(k) {
                let i = choose|i: int| 0 <= i < keys.len() && keys[i] == k;
                assert(listed[i].0@ == k);
            }
        }
    }
}

/// Where no key comes twice, every listed member is in the map, and nothing else is.
proof fn lemma_distinct_members(list: Seq<(String, Json)>)
    requires
        forall|i: int, j: int| 0 <= i < j < list.len() ==> list[i].0@ != list[j].0@,
    ensures
        forall|i: int|
            0 <= i < list.len() ==> members_view(list).contains_key((#[trigger] list[i]).0@)
                && members_view(list)[list[i].0@] == list[i].1@,
        forall|k: Seq<char>| #[trigger]
            members_view(list).contains_key(k) ==> exists|i: int|
                0 <= i < list.len() && list[i].0@ == k,
    decreases list.len(),
{
    if list.len() > 0 {
        let shorter = list.drop_last();
        lemma_distinct_members(shorter);
        assert forall|i: int| 0 <= i < list.len() implies members_view(list).contains_key(
            (#[trigger] list[i]).0@,
        ) && members_view(list)[list[i].0@] == list[i].1@ by {
            if i < list.len() - 1 {
                assert(shorter[i] == list[i]);
            }
        }
        assert forall|k: Seq<char>| #[trigger] members_view(list).contains_key(k) implies exists|
            i: int,
        |
            0 <= i < list.len() && list[i].0@ == k by {
            if k != list.last().0@ {
                assert(members_view(shorter).contains_key(k));
                let i = choose|i: int| 0 <= i < shorter.len() && shorter[i].0@ == k;
                assert(list[i].0@ == k);
            } else {
                assert(list[list.len() - 1].0@ == k);
            }
        }
    }
}

/// The `serde_json::Value` that holds a value.
fn value(j: &Json) -> (r: serde_json::Value)
    requires
        j.whole_numbers(),
    ensures
        value_tree(r) == j@,
    decreases j,
{
    match j {
        Json::Null => join(Parts::Null),
        Json::Bool(b) => join(Parts::Bool(*b)),
        Json::Number(n) => match n {
            JsonNumber::Unsigned(u) => join(Parts::Number(unsigned_number(*u))),
            JsonNumber::Negative(i) => join(Parts::Number(signed_number(*i))),
            JsonNumber::Float(_) => join(Parts::Null),
        },
        Json::String(s) => join(Parts::Text(s.clone())),
        Json::Array(a) => {
            let mut items: Vec<serde_json::Value> = Vec::new();
            let mut i: usize = 0;
            while i < a.len()
                invariant
                    j == Json::Array(*a),
                    j.whole_numbers(),
                    i <= a@.len(),
                    items@.len() == i,
                    forall|k: int| 0 <= k < i ==> value_tree(#[trigger] items@[k]) == a@[k]@,
                decreases a@.len() - i,
            {
                assert(decreases_to!(j => j->Array_0));
                assert(decreases_to!(a@ => a@[i as int]));
                items.push(value(&a[i]));
                i += 1;
            }
            proof {
                lemma_items_view(a@);
                assert(items@.map_values(|v: serde_json::Value| value_tree(v)) =~= items_view(a@));
            }
            join(Parts::Array(items))
        },
        Json::Object(m) => {
            let mut map = no_members();
            let mut i: usize = 0;
            assert(m@.take(0) =~= Seq::<(String, Json)>::empty());
            while i < m.len()
                invariant
                    j == Json::Object(*m),
                    j.whole_numbers(),
                    i <= m@.len(),
                    map_tree(map) == members_view(m@.take(i as int)),
                decreases m@.len() - i,
            {
                assert(decreases_to!(j => j->Object_0));
                assert(decreases_to!(m@ => m@[i as int]));
                assert(decreases_to!(m@[i as int] => m@[i as int].1));
                assert(m@[i as int].1.whole_numbers());
                add_member(&mut map, m[i].0.clone(), value(&m[i].1));
                assert(m@.take(i + 1).drop_last() =~= m@.take(i as int));
                i += 1;
            }
            assert(m@.take(i as int) =~= m@);
            join(Parts::Object(map))
        },
    }
}

/// Reads a JSON text, or says what is wrong with it.
pub fn read(s: &str) -> (r: Result<Json, String>)
    ensures
        text_read(s@) == match r {
            Ok(v) => Ok(v@),
            Err(e) => Err(e@),
        },
        braces_tell(s@, json_of_text(s@)),
{
    match read_text(s) {
        Ok(v) => Ok(tree(v)),
        Err(e) => Err(e),
    }
}

/// Reads a JSON text; `None` where the text is not JSON.
pub fn parse(s: &str) -> (r: Option<Json>)
    ensures
        json_of_text(s@) == match r {
            Some(v) => Some(v@),
            None => None,
        },
        braces_tell(s@, json_of_text(s@)),
{
    match read(s) {
        Ok(v) => Some(v),
        Err(_) => None,
    }
}

/// Whether a text is JSON.
pub fn is_json(s: &str) -> (r: bool)
    ensures
        r == (json_of_text(s@) is Some),
        braces_tell(s@, json_of_text(s@)),
{
    read_text(s).is_ok()
}

/// Reads JSON from bytes, together with its text in compact form, or says what is wrong with the
/// bytes.
pub fn parse_bytes(b: &[u8]) -> (r: Result<(Json, String), String>)
    ensures
        match r {
            Ok(p) => bytes_read(b@) == Ok::<JsonView, Seq<char>>(p.0@) && p.1@ == compact_text(
                p.0@,
            ),
            Err(e) => bytes_read(b@) == Err::<JsonView, Seq<char>>(e@),
        },
{
    match read_bytes(b) {
        Ok(v) => {
            let written = write_text(&v);
            Ok((tree(v), written))
        },
        Err(e) => Err(e),
    }
}

/// The view of a value that may be missing.
pub open spec fn maybe(v: Option<&Json>) -> Option<JsonView> {
    match v {
        Some(j) => Some(j@),
        None => None,
    }
}

/// The view of a text that may be missing.
pub open spec fn maybe_text(v: Option<&str>) -> Option<Seq<char>> {
    match v {
        Some(t) => Some(t@),
        None => None,
    }
}

impl Clone for Json {
    fn clone(&self) -> (r: Self)
        ensures
            r@ == self@,
        decreases self,
    {
        match self {
            Json::Null => Json::Null,
            Json::Bool(b) => Json::Bool(*b),
            Json::Number(n) => Json::Number(*n),
            Json::String(s) => Json::String(s.clone()),
            Json::Array(a) => {
                let mut items: Vec<Json> = Vec::new();
                let mut i: usize = 0;
                assert(a@.take(0) =~= Seq::<Json>::empty());
                while i < a.len()
                    invariant
                        self == Json::Array(*a),
                        i <= a@.len(),
                        items_view(items@) == items_view(a@.take(i as int)),
                    decreases a@.len() - i,
                {
                    assert(decreases_to!(self => self->Array_0));
                    assert(decreases_to!(a@ => a@[i as int]));
                    let ghost before = items@;
                    items.push(a[i].clone());
                    assert(items@.drop_last() =~= before);
                    assert(a@.take(i + 1).drop_last() =~= a@.take(i as int));
                    i += 1;
                }
                assert(a@.take(i as int) =~= a@);
                Json::Array(items)
            },
            Json::Object(m) => {
                let mut list: Vec<(String, Json)> = Vec::new();
                let mut i: usize = 0;
                assert(m@.take(0) =~= Seq::<(String, Json)>::empty());
                while i < m.len()
                    invariant
                        self == Json::Object(*m),
                        i <= m@.len(),
                        members_view(list@) == members_view(m@.take(i as int)),
                    decreases m@.len() - i,
                {
                    assert(decreases_to!(self => self->Object_0));
                    assert(decreases_to!(m@ => m@[i as int]));
                    assert(decreases_to!(m@[i as int] => m@[i as int].1));
                    let ghost before = list@;
                    list.push((m[i].0.clone(), m[i].1.clone()));
                    assert(list@.drop_last() =~= before);
                    assert(m@.take(i + 1).drop_last() =~= m@.take(i as int));
                    i += 1;
                }
                assert(m@.take(i as int) =~= m@);
                Json::Object(list)
            },
        }
    }
}

impl Json {
    /// The member of an object under a key.
    pub fn get(&self, key: &str) -> (r: Option<&Json>)
        ensures
            maybe(r) == self@.get(key@),
    {
        match self {
            Json::Object(m) => {
                let mut i: usize = m.len();
                assert(m@.take(i as int) =~= m@);
                while i > 0
                    invariant
                        self@ == JsonView::Object(members_view(m@)),
                        i <= m@.len(),
                        self@.get(key@) == JsonView::Object(members_view(m@.take(i as int))).get(
                            key@,
                        ),
                    decreases i,
                {
                    assert(m@.take(i as int).drop_last() =~= m@.take(i - 1));
                    if text::same(m[i - 1].0.as_str(), key) {
                        return Some(&m[i - 1].1);
                    }
                    i -= 1;
                }
                None
            },
            _ => None,
        }
    }

    pub fn as_str(&self) -> (r: Option<&str>)
        ensures
            maybe_text(r) == self@.as_str(),
    {
        match self {
            Json::String(s) => Some(s.as_str()),
            _ => None,
        }
    }

    pub fn as_bool(&self) -> (r: Option<bool>)
        ensures
            r == self@.as_bool(),
    {
        match self {
            Json::Bool(b) => Some(*b),
            _ => None,
        }
    }

    pub fn as_number(&self) -> (r: Option<JsonNumber>)
        ensures
            r == self@.as_number(),
    {
        match self {
            Json::Number(n) => Some(*n),
            _ => None,
        }
    }

    pub fn as_u64(&self) -> (r: Option<u64>)
        ensures
            r == self@.as_u64(),
    {
        match self {
            Json::Number(JsonNumber::Unsigned(u)) => Some(*u),
            _ => None,
        }
    }

    pub fn as_i64(&self) -> (r: Option<i64>)
        ensures
            r == self@.as_i64(),
    {
        match self {
            Json::Number(JsonNumber::Unsigned(u)) => if *u <= i64::MAX as u64 {
                Some(*u as i64)
            } else {
                None
            },
            Json::Number(JsonNumber::Negative(i)) => Some(*i),
            _ => None,
        }
    }

    pub fn as_array(&self) -> (r: Option<&Vec<Json>>)
        ensures
            match r {
                Some(a) => self@.as_array() == Some(items_view(a@)),
                None => self@.as_array() is None,
            },
    {
        match self {
            Json::Array(a) => Some(a),
            _ => None,
        }
    }

    /// The text under a key, if the member is there and is a text.
    pub fn str_at(&self, key: &str) -> (r: Option<&str>)
        ensures
            maybe_text(r) == self@.str_at(key@),
    {
        match self.get(key) {
            Some(v) => v.as_str(),
            None => None,
        }
    }

    /// The text under a key, or a default.
    pub fn str_or<'a>(&'a self, key: &str, default: &'a str) -> (r: &'a str)
        ensures
            r@ == self@.str_or(key@, default@),
    {
        match self.str_at(key) {
            Some(s) => s,
            None => default,
        }
    }

    /// The whole number under a key, or a default.
    pub fn i64_or(&self, key: &str, default: i64) -> (r: i64)
        ensures
            r == self@.i64_or(key@, default),
    {
        match self.get(key) {
            Some(v) => match v.as_i64() {
                Some(i) => i,
                None => default,
            },
            None => default,
        }
    }

    /// The truth value under a key; false where there is none.
    pub fn flag(&self, key: &str) -> (r: bool)
        ensures
            r == self@.flag(key@),
    {
        match self.get(key) {
            Some(v) => match v.as_bool() {
                Some(b) => b,
                None => false,
            },
            None => false,
        }
    }

    /// The items of the array under a key.
    pub fn array_at(&self, key: &str) -> (r: Option<&Vec<Json>>)
        ensures
            match r {
                Some(a) => self@.array_at(key@) == Some(items_view(a@)),
                None => self@.array_at(key@) is None,
            },
    {
        match self.get(key) {
            Some(v) => v.as_array(),
            None => None,
        }
    }

    /// The number under a key.
    pub fn number_at(&self, key: &str) -> (r: Option<JsonNumber>)
        ensures
            r == self@.number_at(key@),
    {
        match self.get(key) {
            Some(v) => v.as_number(),
            None => None,
        }
    }

    /// The payload of an answer: its `data` member, or an object without members.
    pub fn data(&self) -> (r: Json)
        ensures
            r@ == self@.data(),
    {
        match self.get("data") {
            Some(v) => v.clone(),
            None => Json::object(),
        }
    }

    /// An object without members.
    pub fn object() -> (r: Json)
        ensures
            r@ == JsonView::object(),
            r.whole_numbers(),
    {
        Json::Object(Vec::new())
    }

    /// The object with a member added or replaced; a value that is no object stays as it is.
    pub fn with(self, key: &str, value: Json) -> (r: Json)
        ensures
            r@ == self@.with(key@, value@),
            self.whole_numbers() && value.whole_numbers() ==> r.whole_numbers(),
    {
        match self {
            Json::Object(m) => {
                let mut list = m;
                let ghost before = list@;
                list.push((key.to_owned(), value));
                assert(list@.drop_last() =~= before);
                Json::Object(list)
            },
            other => other,
        }
    }

    /// A text as a JSON value.
    pub fn text(s: &str) -> (r: Json)
        ensures
            r@ == JsonView::String(s@),
            r.whole_numbers(),
    {
        Json::String(s.to_owned())
    }

    /// A whole number that is not negative, as a JSON value.
    pub fn unsigned(n: u64) -> (r: Json)
        ensures
            r@ == JsonView::unsigned(n),
            r.whole_numbers(),
    {
        Json::Number(JsonNumber::Unsigned(n))
    }

    /// A whole number as a JSON value.
    pub fn signed(n: i64) -> (r: Json)
        ensures
            r@ == JsonView::signed(n),
    {
        if n >= 0 {
            Json::Number(JsonNumber::Unsigned(n as u64))
        } else {
            Json::Number(JsonNumber::Negative(n))
        }
    }
}

impl Json {
    /// The text of a value in compact form.
    pub fn to_text(&self) -> (r: String)
        requires
            self.whole_numbers(),
        ensures
            r@ == compact_text(self@),
    {
        write_text(&value(self))
    }
}

/// A member that was put into an object is read back, and the other members stay.
pub proof fn lemma_with_get(v: JsonView, key: Seq<char>, value: JsonView, other: Seq<char>)
    requires
        v is Object,
    ensures
        v.with(key, value).get(key) == Some(value),
        other != key ==> v.with(key, value).get(other) == v.get(other),
{
}

} // verus!
