//! Text helpers: comparison, search, trimming, decimal numerals.
//!
//! Positions in a text count characters, not bytes.

use vstd::prelude::*;

verus! {

/// Appending a character to a `String` puts it behind the others (`String::push`).
pub assume_specification [ std::string::String::push ](s: &mut std::string::String, c: char)
    ensures
        final(s)@ == old(s)@.push(c),
;

/// What `str::to_lowercase` makes of a text.
pub uninterp spec fn lowercase(s: Seq<char>) -> Seq<char>;

/// What `str::to_uppercase` makes of a text.
pub uninterp spec fn uppercase(s: Seq<char>) -> Seq<char>;

/// The lower-case form of an ASCII letter; any other character is left as it is.
pub open spec fn ascii_lower(c: char) -> char {
    if 'A' <= c && c <= 'Z' {
        (c as u32 + 32) as char
    } else {
        c
    }
}

/// The upper-case form of an ASCII letter; any other character is left as it is.
pub open spec fn ascii_upper(c: char) -> char {
    if 'a' <= c && c <= 'z' {
        (c as u32 - 32) as char
    } else {
        c
    }
}

/// Calls `str::to_lowercase`. The result is a function of the text; on ASCII text it is the
/// text with its letters lowered.
#[verifier::external_body]
fn std_lower(s: &str) -> (r: String)
    ensures
        r@ == lowercase(s@),
        vstd::utf8::is_ascii_chars(s@) ==> r@ == s@.map_values(|c: char| ascii_lower(c)),
{
    s.to_lowercase()
}

/// Calls `str::to_uppercase`. The result is a function of the text; on ASCII text it is the
/// text with its letters raised.
#[verifier::external_body]
fn std_upper(s: &str) -> (r: String)
    ensures
        r@ == uppercase(s@),
        vstd::utf8::is_ascii_chars(s@) ==> r@ == s@.map_values(|c: char| ascii_upper(c)),
{
    s.to_uppercase()
}

/// A text in lower case: on ASCII text its letters are lowered, and any other text is what the
/// standard library makes of it.
pub open spec fn lower(s: Seq<char>) -> Seq<char> {
    if vstd::utf8::is_ascii_chars(s) {
        s.map_values(|c: char| ascii_lower(c))
    } else {
        lowercase(s)
    }
}

/// A text in upper case: on ASCII text its letters are raised, and any other text is what the
/// standard library makes of it.
pub open spec fn upper(s: Seq<char>) -> Seq<char> {
    if vstd::utf8::is_ascii_chars(s) {
        s.map_values(|c: char| ascii_upper(c))
    } else {
        uppercase(s)
    }
}

/// A text in lower case.
pub fn to_lower(s: &str) -> (r: String)
    ensures
        r@ == lower(s@),
{
    std_lower(s)
}

/// A text in upper case.
pub fn to_upper(s: &str) -> (r: String)
    ensures
        r@ == upper(s@),
{
    std_upper(s)
}

/// Whether two texts hold the same characters.
pub fn same(a: &str, b: &str) -> (r: bool)
    ensures
        r == (a@ == b@),
{
    let x = a.as_bytes();
    let y = b.as_bytes();
    proof {
        vstd::utf8::encode_utf8_decode_utf8(a@);
        vstd::utf8::encode_utf8_decode_utf8(b@);
    }
    if x.len() != y.len() {
        return false;
    }
    let mut i: usize = 0;
    while i < x.len()
        invariant
            x@ == vstd::utf8::encode_utf8(a@),
            y@ == vstd::utf8::encode_utf8(b@),
            x@.len() == y@.len(),
            i <= x@.len(),
            forall|j: int| 0 <= j < i ==> x@[j] == y@[j],
        decreases x@.len() - i,
    {
        if x[i] != y[i] {
            return false;
        }
        i += 1;
    }
    assert(x@ =~= y@);
    true
}

/// The characters of a text, in order.
pub fn chars_of(s: &str) -> (r: Vec<char>)
    ensures
        r@ == s@,
{
    let mut r: Vec<char> = Vec::new();
    for c in it: s.chars()
        invariant
            r@ == it.seq().take(it.index() as int),
            it.seq() == s@,
    {
        r.push(c);
    }
    r
}

/// Whether `needle` stands in `hay` at position `i`.
pub open spec fn occurs_at(hay: Seq<char>, needle: Seq<char>, i: int) -> bool {
    0 <= i && i + needle.len() <= hay.len() && hay.subrange(i, i + needle.len()) == needle
}

/// The first position at or after `i` at which `needle` stands in `hay`.
pub open spec fn find_from(hay: Seq<char>, needle: Seq<char>, i: int) -> Option<int>
    decreases hay.len() - i + 1,
{
    if i < 0 || i + needle.len() > hay.len() {
        None
    } else if occurs_at(hay, needle, i) {
        Some(i)
    } else {
        find_from(hay, needle, i + 1)
    }
}

/// The first position at which `needle` stands in `hay`.
pub open spec fn find(hay: Seq<char>, needle: Seq<char>) -> Option<int> {
    find_from(hay, needle, 0)
}

/// Whether `needle` stands somewhere in `hay`.
pub open spec fn contains(hay: Seq<char>, needle: Seq<char>) -> bool {
    exists|i: int| occurs_at(hay, needle, i)
}

/// `find_from` gives the least position that is not before `i`, if there is one.
pub proof fn lemma_find_from(hay: Seq<char>, needle: Seq<char>, i: int)
    requires
        0 <= i,
    ensures
        match find_from(hay, needle, i) {
            Some(p) => i <= p && occurs_at(hay, needle, p) && (forall|j: int|
                i <= j < p ==> !occurs_at(hay, needle, j)),
            None => forall|j: int| i <= j ==> !occurs_at(hay, needle, j),
        },
    decreases hay.len() - i + 1,
{
    if i + needle.len() <= hay.len() && !occurs_at(hay, needle, i) {
        lemma_find_from(hay, needle, i + 1);
    }
}

/// A text contains another exactly when a search for it succeeds, and the search then gives the
/// first place.
pub proof fn lemma_find(hay: Seq<char>, needle: Seq<char>)
    ensures
        find(hay, needle) is Some <==> contains(hay, needle),
        find(hay, needle) matches Some(p) ==> occurs_at(hay, needle, p) && (forall|j: int|
            j < p ==> !occurs_at(hay, needle, j)),
{
    lemma_find_from(hay, needle, 0);
}

fn occurs(hay: &Vec<char>, needle: &Vec<char>, i: usize) -> (r: bool)
    requires
        i + needle@.len() <= hay@.len(),
    ensures
        r == occurs_at(hay@, needle@, i as int),
{
    let mut j: usize = 0;
    let count: usize = hay.len();
    while j < needle.len()
        invariant
            count == hay@.len(),
            i + needle@.len() <= hay@.len(),
            j <= needle@.len(),
            forall|k: int| 0 <= k < j ==> hay@[i + k] == needle@[k],
        decreases needle@.len() - j,
    {
        if hay[i + j] != needle[j] {
            assert(hay@.subrange(i as int, i + needle@.len())[j as int] != needle@[j as int]);
            return false;
        }
        j += 1;
    }
    assert(hay@.subrange(i as int, i + needle@.len()) =~= needle@);
    true
}

/// The first position at which `needle` stands in `hay`.
pub fn find_text(hay: &str, needle: &str) -> (r: Option<usize>)
    ensures
        match r {
            Some(p) => find(hay@, needle@) == Some(p as int),
            None => find(hay@, needle@) is None,
        },
        r matches Some(p) ==> p + needle@.len() <= hay@.len(),
{
    let h = chars_of(hay);
    let n = chars_of(needle);
    if n.len() > h.len() {
        return None;
    }
    let last: usize = h.len() - n.len();
    let mut i: usize = 0;
    while i < last
        invariant
            h@ == hay@,
            n@ == needle@,
            last == h@.len() - n@.len(),
            0 <= i <= last,
            find(hay@, needle@) == find_from(hay@, needle@, i as int),
        decreases last - i,
    {
        if occurs(&h, &n, i) {
            return Some(i);
        }
        i += 1;
    }
    if occurs(&h, &n, last) {
        Some(last)
    } else {
        assert(find_from(hay@, needle@, last + 1) is None);
        None
    }
}

/// Whether `needle` stands somewhere in `hay`.
pub fn contains_text(hay: &str, needle: &str) -> (r: bool)
    ensures
        r == contains(hay@, needle@),
{
    proof {
        lemma_find(hay@, needle@);
    }
    find_text(hay, needle).is_some()
}

/// The last position at which the character `c` stands in `s`.
pub open spec fn rfind_char(s: Seq<char>, c: char) -> Option<int>
    decreases s.len(),
{
    if s.len() == 0 {
        None
    } else if s.last() == c {
        Some(s.len() - 1)
    } else {
        rfind_char(s.drop_last(), c)
    }
}

/// The last position at which the character `c` stands in `s`.
pub fn rfind(s: &str, c: char) -> (r: Option<usize>)
    ensures
        match r {
            Some(p) => rfind_char(s@, c) == Some(p as int) && p < s@.len() && s@[p as int] == c,
            None => rfind_char(s@, c) is None,
        },
{
    let h = chars_of(s);
    let mut i: usize = h.len();
    assert(s@.take(i as int) =~= s@);
    while i > 0
        invariant
            h@ == s@,
            i <= h@.len(),
            rfind_char(s@, c) == rfind_char(s@.take(i as int), c),
        decreases i,
    {
        assert(s@.take(i as int).drop_last() =~= s@.take(i - 1));
        if h[i - 1] == c {
            return Some(i - 1);
        }
        i -= 1;
    }
    None
}

/// The characters with Unicode's White_Space property.
pub open spec fn white(c: char) -> bool {
    ||| '\u{9}' <= c <= '\u{d}'
    ||| c == ' '
    ||| c == '\u{85}'
    ||| c == '\u{a0}'
    ||| c == '\u{1680}'
    ||| '\u{2000}' <= c <= '\u{200a}'
    ||| c == '\u{2028}'
    ||| c == '\u{2029}'
    ||| c == '\u{202f}'
    ||| c == '\u{205f}'
    ||| c == '\u{3000}'
}

/// Whether the character has Unicode's White_Space property.
pub fn is_white(c: char) -> (r: bool)
    ensures
        r == white(c),
{
    ('\u{9}' <= c && c <= '\u{d}') || c == ' ' || c == '\u{85}' || c == '\u{a0}' || c == '\u{1680}' || (
    '\u{2000}' <= c && c <= '\u{200a}') || c == '\u{2028}' || c == '\u{2029}' || c == '\u{202f}' || c
        == '\u{205f}' || c == '\u{3000}'
}

/// The text without its leading white space.
pub open spec fn trim_start(s: Seq<char>) -> Seq<char>
    decreases s.len(),
{
    if s.len() > 0 && white(s[0]) {
        trim_start(s.drop_first())
    } else {
        s
    }
}

/// The text without its trailing white space.
pub open spec fn trim_end(s: Seq<char>) -> Seq<char>
    decreases s.len(),
{
    if s.len() > 0 && white(s.last()) {
        trim_end(s.drop_last())
    } else {
        s
    }
}

/// The text without leading and trailing white space.
pub open spec fn trimmed(s: Seq<char>) -> Seq<char> {
    trim_end(trim_start(s))
}

/// The text without leading and trailing white space.
pub fn trim(s: &str) -> (r: &str)
    ensures
        r@ == trimmed(s@),
{
    let h = chars_of(s);
    let mut i: usize = 0;
    assert(s@.skip(0) =~= s@);
    while i < h.len() && is_white(h[i])
        invariant
            h@ == s@,
            i <= h@.len(),
            trim_start(s@) == trim_start(s@.skip(i as int)),
        decreases h@.len() - i,
    {
        assert(s@.skip(i as int).drop_first() =~= s@.skip(i + 1));
        i += 1;
    }
    let mut j: usize = h.len();
    assert(s@.subrange(i as int, j as int) =~= s@.skip(i as int));
    while j > i && is_white(h[j - 1])
        invariant
            h@ == s@,
            i <= j <= h@.len(),
            trimmed(s@) == trim_end(s@.subrange(i as int, j as int)),
        decreases j,
    {
        assert(s@.subrange(i as int, j as int).drop_last() =~= s@.subrange(i as int, j - 1));
        j -= 1;
    }
    s.substring_char(i, j)
}

/// Trimming leaves no white space at either end.
pub proof fn lemma_trimmed_ends(s: Seq<char>)
    ensures
        trimmed(s).len() > 0 ==> !white(trimmed(s)[0]) && !white(trimmed(s).last()),
        trimmed(trimmed(s)) == trimmed(s),
{
    lemma_trim_start(s);
    lemma_trim_end(trim_start(s));
}

/// Trimming a text with something in it that neither begins nor ends in white space takes the
/// white space from what stands around.
pub proof fn lemma_trimmed_around(before: Seq<char>, s: Seq<char>, after: Seq<char>)
    requires
        s.len() > 0,
        !white(s[0]),
        !white(s.last()),
    ensures
        trimmed(before + s + after) == trim_start(before) + s + trim_end(after),
        trim_start(before).len() <= before.len(),
        trim_start(before) == before.skip(before.len() - trim_start(before).len()),
        trim_end(after).len() <= after.len(),
        trim_end(after) == after.take(trim_end(after).len() as int),
        trim_end(after).len() > 0 ==> !white(trim_end(after).last()),
    decreases before.len() + after.len(),
{
    let all = before + s + after;
    lemma_trim_end(after);
    if before.len() > 0 && white(before[0]) {
        assert(all.drop_first() =~= before.drop_first() + s + after);
        lemma_trimmed_around(before.drop_first(), s, after);
        let n = trim_start(before).len() as int;
        assert(before.skip(before.len() - n) =~= before.drop_first().skip(
            before.drop_first().len() - n,
        ));
    } else {
        assert(before.skip(0) =~= before);
        assert(trim_start(all) == all) by {
            if before.len() == 0 {
                assert(all[0] == s[0]);
            } else {
                assert(all[0] == before[0]);
            }
        }
        lemma_trim_end_behind(before + s, after);
    }
}

proof fn lemma_trim_end_behind(front: Seq<char>, after: Seq<char>)
    requires
        front.len() > 0,
        !white(front.last()),
    ensures
        trim_end(front + after) == front + trim_end(after),
    decreases after.len(),
{
    let all = front + after;
    if after.len() == 0 {
        assert(all =~= front);
        assert(front + trim_end(after) =~= front);
    } else {
        assert(all.last() == after.last());
        if white(after.last()) {
            assert(all.drop_last() =~= front + after.drop_last());
            lemma_trim_end_behind(front, after.drop_last());
        }
    }
}

proof fn lemma_trim_start(s: Seq<char>)
    ensures
        trim_start(s).len() > 0 ==> !white(trim_start(s)[0]),
    decreases s.len(),
{
    if s.len() > 0 && white(s[0]) {
        lemma_trim_start(s.drop_first());
    }
}

proof fn lemma_trim_end(s: Seq<char>)
    ensures
        trim_end(s).len() <= s.len(),
        trim_end(s) == s.take(trim_end(s).len() as int),
        trim_end(s).len() > 0 ==> !white(trim_end(s).last()),
    decreases s.len(),
{
    if s.len() > 0 && white(s.last()) {
        lemma_trim_end(s.drop_last());
        assert(s.drop_last().take(trim_end(s).len() as int) =~= s.take(trim_end(s).len() as int));
    } else {
        assert(s.take(s.len() as int) =~= s);
    }
}

/// The decimal digit for a number below ten.
pub open spec fn digit(d: int) -> char {
    (48 + d) as char
}

/// The decimal numeral of a natural number.
pub open spec fn decimal(n: nat) -> Seq<char>
    decreases n,
{
    if n < 10 {
        seq![digit(n as int)]
    } else {
        decimal(n / 10).push(digit((n % 10) as int))
    }
}

/// The decimal numeral of an integer, with a minus sign in front of a negative one.
pub open spec fn signed_decimal(n: int) -> Seq<char> {
    if n < 0 {
        seq!['-'] + decimal((-n) as nat)
    } else {
        decimal(n as nat)
    }
}

/// The decimal numeral of a number.
pub fn u64_text(n: u64) -> (r: String)
    ensures
        r@ == decimal(n as nat),
    decreases n,
{
    let d: u8 = (n % 10) as u8;
    let c: char = (48 + d) as char;
    let mut s = if n < 10 {
        String::new()
    } else {
        u64_text(n / 10)
    };
    s.push(c);
    proof {
        assert(c == digit((n % 10) as int));
        if n < 10 {
            assert(s@ =~= decimal(n as nat));
        }
    }
    s
}

/// The decimal numeral of a signed number.
pub fn i64_text(n: i64) -> (r: String)
    ensures
        r@ == signed_decimal(n as int),
{
    if n < 0 {
        let m: u64 = if n == i64::MIN {
            9223372036854775808u64
        } else {
            (-n) as u64
        };
        let digits = u64_text(m);
        let mut s = String::new();
        s.push('-');
        s.append(digits.as_str());
        assert(s@ =~= signed_decimal(n as int));
        s
    } else {
        u64_text(n as u64)
    }
}

/// The value that a numeral of decimal digits writes, or `None` where a character is no digit.
pub open spec fn digits_value(s: Seq<char>) -> Option<nat>
    decreases s.len(),
{
    if s.len() == 0 {
        Some(0)
    } else {
        match digits_value(s.drop_last()) {
            Some(v) => if '0' <= s.last() && s.last() <= '9' {
                Some((v * 10 + (s.last() as int - 48)) as nat)
            } else {
                None
            },
            None => None,
        }
    }
}

/// What `str::parse` reads as an unsigned number: one or more digits, with an optional plus sign,
/// whose value fits in 64 bits.
pub open spec fn unsigned_value(s: Seq<char>) -> Option<u64> {
    let digits = if s.len() > 0 && s[0] == '+' {
        s.drop_first()
    } else {
        s
    };
    if digits.len() == 0 {
        None
    } else {
        match digits_value(digits) {
            Some(v) => if v <= u64::MAX {
                Some(v as u64)
            } else {
                None
            },
            None => None,
        }
    }
}

proof fn lemma_digits_prefix(s: Seq<char>, k: int)
    requires
        0 <= k <= s.len(),
    ensures
        digits_value(s.take(k)) is None ==> digits_value(s) is None,
        digits_value(s.take(k)) matches Some(v) ==> (digits_value(s) matches Some(w) ==> v <= w),
    decreases s.len() - k,
{
    if k < s.len() {
        assert(s.take(k + 1).drop_last() =~= s.take(k));
        lemma_digits_prefix(s, k + 1);
    } else {
        assert(s.take(k) =~= s);
    }
}

/// Reads an unsigned number.
pub fn parse_u64(s: &str) -> (r: Option<u64>)
    ensures
        r == unsigned_value(s@),
{
    let h = chars_of(s);
    let start: usize = if h.len() > 0 && h[0] == '+' {
        1
    } else {
        0
    };
    let ghost digits = s@.skip(start as int);
    proof {
        if start == 1 {
            assert(digits =~= s@.drop_first());
        } else {
            assert(digits =~= s@);
        }
    }
    if h.len() == start {
        return None;
    }
    let mut v: u64 = 0;
    let mut i: usize = start;
    assert(digits.take(0) =~= Seq::<char>::empty());
    while i < h.len()
        invariant
            h@ == s@,
            start <= i <= h@.len(),
            start <= 1,
            h@.len() > start,
            digits == s@.skip(start as int),
            unsigned_value(s@) == (match digits_value(digits) {
                Some(w) => if w <= u64::MAX {
                    Some(w as u64)
                } else {
                    None
                },
                None => None,
            }),
            digits_value(digits.take(i - start)) == Some(v as nat),
        decreases h@.len() - i,
    {
        let c = h[i];
        proof {
            assert(digits.take(i + 1 - start).drop_last() =~= digits.take(i - start));
            assert(digits.take(i + 1 - start).last() == c);
            lemma_digits_prefix(digits, i + 1 - start);
        }
        if c < '0' || c > '9' {
            return None;
        }
        let d: u64 = (c as u32 - 48) as u64;
        if v > (u64::MAX - d) / 10 {
            assert(v * 10 + d > u64::MAX);
            return None;
        }
        v = v * 10 + d;
        i += 1;
    }
    assert(digits.take(i - start) =~= digits);
    Some(v)
}

proof fn lemma_decimal_digits(n: nat)
    ensures
        digits_value(decimal(n)) == Some(n),
        decimal(n).len() > 0,
        '0' <= decimal(n)[0] <= '9',
    decreases n,
{
    if n < 10 {
        let s = seq![digit(n as int)];
        assert(s.drop_last() =~= Seq::<char>::empty());
        assert(digits_value(s.drop_last()) == Some(0nat));
    } else {
        lemma_decimal_digits(n / 10);
        let s = decimal(n);
        assert(s.drop_last() =~= decimal(n / 10));
        assert(s[0] == decimal(n / 10)[0]);
    }
}

/// Reading the numeral of a number gives that number back.
pub proof fn lemma_numeral_read_back(n: u64)
    ensures
        unsigned_value(decimal(n as nat)) == Some(n),
{
    lemma_decimal_digits(n as nat);
}

} // verus!
