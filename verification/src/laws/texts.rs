//! Laws of texts: search, trimming, case, numerals, paths, errors in words and spans of time.

use vstd::prelude::*;

use crate::cmd::server_error;
use crate::failure::FailureView;
use crate::json;
use crate::json::JsonView;
use crate::places;
use crate::places::PlaceView;
use crate::text;
use crate::time;

verus! {

/// A search gives a place where the text stands with no such place before it, and it gives none
/// only where there is none.
pub proof fn lemma_search(hay: Seq<char>, needle: Seq<char>, i: int)
    requires
        0 <= i,
        i + needle.len() <= hay.len(),
    ensures
        hay.subrange(i, i + needle.len()) == needle ==> text::contains(hay, needle) && (text::find(
            hay,
            needle,
        ) is Some) && 0 <= text::find(hay, needle)->0 <= i,
        text::find(hay, needle) is Some ==> 0 <= text::find(hay, needle)->0 && text::find(
            hay,
            needle,
        )->0 + needle.len() <= hay.len() && hay.subrange(
            text::find(hay, needle)->0,
            text::find(hay, needle)->0 + needle.len(),
        ) == needle,
        text::find(hay, needle) is Some <==> text::contains(hay, needle),
{
    text::lemma_find(hay, needle);
    if hay.subrange(i, i + needle.len()) == needle {
        assert(text::occurs_at(hay, needle, i));
    }
}

/// A text stands in another exactly where that one is made of a part before it, the text, and a
/// part behind it.
pub proof fn lemma_contained(before: Seq<char>, needle: Seq<char>, after: Seq<char>)
    ensures
        text::contains(before + needle + after, needle),
{
    let hay = before + needle + after;
    let i = before.len() as int;
    assert(hay.subrange(i, i + needle.len()) =~= needle);
    assert(text::occurs_at(hay, needle, i));
}

/// A text that stands in another leaves a part before it and a part behind it.
pub proof fn lemma_contained_parts(hay: Seq<char>, needle: Seq<char>) -> (parts: (
    Seq<char>,
    Seq<char>,
))
    requires
        text::contains(hay, needle),
    ensures
        hay == parts.0 + needle + parts.1,
{
    let i = choose|i: int| text::occurs_at(hay, needle, i);
    let parts = (hay.take(i), hay.skip(i + needle.len()));
    assert(hay =~= parts.0 + hay.subrange(i, i + needle.len()) + parts.1);
    parts
}

/// A search from the end gives the last place of a character.
pub proof fn lemma_last_place(s: Seq<char>, c: char)
    ensures
        match text::rfind_char(s, c) {
            Some(p) => 0 <= p < s.len() && s[p] == c && (forall|j: int|
                p < j < s.len() ==> #[trigger] s[j] != c),
            None => forall|j: int| 0 <= j < s.len() ==> #[trigger] s[j] != c,
        },
    decreases s.len(),
{
    if s.len() > 0 && s.last() != c {
        lemma_last_place(s.drop_last(), c);
        assert forall|j: int| 0 <= j < s.len() - 1 implies s.drop_last()[j] == s[j] by {}
        match text::rfind_char(s, c) {
            Some(p) => {
                assert forall|j: int| p < j < s.len() implies #[trigger] s[j] != c by {
                    if j < s.len() - 1 {
                        assert(s.drop_last()[j] != c);
                    }
                }
            },
            None => {
                assert forall|j: int| 0 <= j < s.len() implies #[trigger] s[j] != c by {
                    if j < s.len() - 1 {
                        assert(s.drop_last()[j] != c);
                    }
                }
            },
        }
    }
}

/// White space is Unicode's, by code point.
pub proof fn lemma_white(c: char)
    ensures
        text::white(c) <==> {
            let n = c as u32;
            ||| 9 <= n <= 13
            ||| n == 0x20 || n == 0x85 || n == 0xa0 || n == 0x1680
            ||| 0x2000 <= n <= 0x200a
            ||| n == 0x2028 || n == 0x2029 || n == 0x202f || n == 0x205f || n == 0x3000
        },
{
}

proof fn lemma_start_trimmed(s: Seq<char>) -> (n: int)
    ensures
        0 <= n <= s.len(),
        text::trim_start(s) == s.skip(n),
        forall|j: int| 0 <= j < n ==> text::white(#[trigger] s[j]),
        n < s.len() ==> !text::white(s[n]),
    decreases s.len(),
{
    if s.len() > 0 && text::white(s[0]) {
        let m = lemma_start_trimmed(s.drop_first());
        assert(s.drop_first().skip(m) =~= s.skip(m + 1));
        assert forall|j: int| 0 <= j < m + 1 implies text::white(#[trigger] s[j]) by {
            if j > 0 {
                assert(s.drop_first()[j - 1] == s[j]);
            }
        }
        if m + 1 < s.len() {
            assert(s.drop_first()[m] == s[m + 1]);
        }
        m + 1
    } else {
        assert(s.skip(0) =~= s);
        0
    }
}

proof fn lemma_end_trimmed(s: Seq<char>) -> (n: int)
    ensures
        0 <= n <= s.len(),
        text::trim_end(s) == s.take(n),
        forall|j: int| n <= j < s.len() ==> text::white(#[trigger] s[j]),
        n > 0 ==> !text::white(s[n - 1]),
    decreases s.len(),
{
    if s.len() > 0 && text::white(s.last()) {
        let n = lemma_end_trimmed(s.drop_last());
        assert(s.drop_last().take(n) =~= s.take(n));
        assert forall|j: int| n <= j < s.len() implies text::white(#[trigger] s[j]) by {
            if j < s.len() - 1 {
                assert(s.drop_last()[j] == s[j]);
            }
        }
        n
    } else {
        assert(s.take(s.len() as int) =~= s);
        s.len() as int
    }
}

/// Trimming takes white space from both ends and nothing else: what is taken off is white, and
/// what is left neither begins nor ends with white space.
pub proof fn lemma_trimming(s: Seq<char>) -> (bounds: (int, int))
    ensures
        0 <= bounds.0 <= bounds.1 <= s.len(),
        text::trimmed(s) == s.subrange(bounds.0, bounds.1),
        forall|j: int| 0 <= j < bounds.0 ==> text::white(#[trigger] s[j]),
        forall|j: int| bounds.1 <= j < s.len() ==> text::white(#[trigger] s[j]),
        bounds.0 < bounds.1 ==> !text::white(s[bounds.0]) && !text::white(s[bounds.1 - 1]),
{
    let a = lemma_start_trimmed(s);
    let rest = s.skip(a);
    let n = lemma_end_trimmed(rest);
    assert(rest.take(n) =~= s.subrange(a, a + n));
    assert forall|j: int| a + n <= j < s.len() implies text::white(#[trigger] s[j]) by {
        assert(rest[j - a] == s[j]);
    }
    if n > 0 {
        assert(rest[n - 1] == s[a + n - 1]);
    }
    (a, a + n)
}

/// Of an ASCII text, changing the case changes the letters of the other case by 32 code points and
/// leaves every other character.
pub proof fn lemma_case(s: Seq<char>, i: int)
    requires
        vstd::utf8::is_ascii_chars(s),
        0 <= i < s.len(),
    ensures
        text::lower(s).len() == s.len(),
        text::upper(s).len() == s.len(),
        65 <= s[i] as u32 <= 90 ==> text::lower(s)[i] as u32 == s[i] as u32 + 32,
        !(65 <= s[i] as u32 <= 90) ==> text::lower(s)[i] == s[i],
        97 <= s[i] as u32 <= 122 ==> text::upper(s)[i] as u32 == s[i] as u32 - 32,
        !(97 <= s[i] as u32 <= 122) ==> text::upper(s)[i] == s[i],
{
}

/// Of any other text the case is what the standard library makes of it.
pub proof fn lemma_case_beyond_ascii(s: Seq<char>)
    requires
        !vstd::utf8::is_ascii_chars(s),
    ensures
        text::lower(s) == text::lowercase(s),
        text::upper(s) == text::uppercase(s),
{
}

/// The value of a row of decimal digits, the last of which counts the ones.
pub open spec fn place_value(s: Seq<char>) -> int
    decreases s.len(),
{
    if s.len() == 0 {
        0
    } else {
        10 * place_value(s.drop_last()) + (s.last() as int - 48)
    }
}

/// Whether every character is a decimal digit.
pub open spec fn all_digits(s: Seq<char>) -> bool {
    forall|i: int| 0 <= i < s.len() ==> 48 <= (#[trigger] s[i]) as int <= 57
}

/// The numeral of a number is the one row of digits without a leading zero that has its value.
pub proof fn lemma_numeral(n: nat)
    ensures
        text::decimal(n).len() > 0,
        all_digits(text::decimal(n)),
        place_value(text::decimal(n)) == n,
        n > 0 ==> text::decimal(n)[0] != '0',
    decreases n,
{
    let s = text::decimal(n);
    if n < 10 {
        assert(s.drop_last() =~= Seq::<char>::empty());
        assert(place_value(s.drop_last()) == 0);
        assert(s.last() == text::digit(n as int));
    } else {
        lemma_numeral(n / 10);
        let front = text::decimal(n / 10);
        assert(s.drop_last() =~= front);
        assert(s.last() == text::digit((n % 10) as int));
        assert forall|i: int| 0 <= i < s.len() implies 48 <= (#[trigger] s[i]) as int <= 57 by {
            if i < s.len() - 1 {
                assert(s[i] == front[i]);
            }
        }
        assert(s[0] == front[0]);
    }
}

/// The numeral of a negative number is a minus sign and the numeral of the number without it.
pub proof fn lemma_signed_numeral(n: nat)
    ensures
        text::signed_decimal(n as int) == text::decimal(n),
        n > 0 ==> text::signed_decimal(-(n as int)) == seq!['-'] + text::decimal(n),
{
}

proof fn lemma_digits_read(s: Seq<char>)
    ensures
        all_digits(s) ==> text::digits_value(s) == Some(place_value(s) as nat) && place_value(s) >= 0,
        !all_digits(s) ==> text::digits_value(s) is None,
    decreases s.len(),
{
    if s.len() > 0 {
        let front = s.drop_last();
        lemma_digits_read(front);
        assert(all_digits(s) <==> all_digits(front) && 48 <= s.last() as int <= 57) by {
            if all_digits(s) {
                assert(s[s.len() - 1] == s.last());
                assert forall|i: int| 0 <= i < front.len() implies 48 <= (#[trigger] front[i]) as int
                    <= 57 by {
                    assert(front[i] == s[i]);
                }
            }
            if all_digits(front) && 48 <= s.last() as int <= 57 {
                assert forall|i: int| 0 <= i < s.len() implies 48 <= (#[trigger] s[i]) as int
                    <= 57 by {
                    if i < s.len() - 1 {
                        assert(front[i] == s[i]);
                    }
                }
            }
        }
    }
}

/// A number is read from a row of digits that is not empty, with or without a plus sign, where
/// its value fits in 64 bits, and from nothing else.
pub proof fn lemma_number_read(s: Seq<char>)
    ensures
        s.len() > 0 && all_digits(s) && place_value(s) <= 0xffff_ffff_ffff_ffff
            ==> text::unsigned_value(s) is Some && text::unsigned_value(s)->0 == place_value(s)
            && text::unsigned_value(seq!['+'] + s) == text::unsigned_value(s),
        s.len() > 0 && all_digits(s) && place_value(s) > 0xffff_ffff_ffff_ffff
            ==> text::unsigned_value(s) is None && text::unsigned_value(seq!['+'] + s) is None,
        !all_digits(s) && s.len() > 0 && s[0] != '+' ==> text::unsigned_value(s) is None,
        !all_digits(s) ==> text::unsigned_value(seq!['+'] + s) is None,
        s.len() == 0 ==> text::unsigned_value(s) is None && text::unsigned_value(seq!['+'] + s)
            is None,
{
    lemma_digits_read(s);
    let signed = seq!['+'] + s;
    assert(signed[0] == '+');
    assert(signed.drop_first() =~= s);
    if s.len() > 0 && all_digits(s) {
        assert(48 <= s[0] as int <= 57);
    }
}

/// The first characters of a text are a prefix of it, of the length asked for or of its own.
pub proof fn lemma_head(s: Seq<char>, n: nat)
    ensures
        server_error::head(s, n as int).len() == (if s.len() < n {
            s.len()
        } else {
            n
        }),
        server_error::head(s, n as int).is_prefix_of(s),
{
}

/// The coordinator's answer is taken from the first opening brace on; there is none to take
/// exactly where the text has no brace.
pub proof fn lemma_first_brace(err: Seq<char>)
    ensures
        server_error::from_brace(err) is Some <==> err.contains('{'),
        server_error::from_brace(err) matches Some(tail) ==> tail.len() > 0 && tail[0] == '{'
            && tail.len() <= err.len() && tail == err.skip(err.len() - tail.len()) && !err.take(
            err.len() - tail.len(),
        ).contains('{'),
{
    let open = seq!['{'];
    text::lemma_find(err, open);
    if err.contains('{') {
        let i = choose|i: int| 0 <= i < err.len() && err[i] == '{';
        assert(err.subrange(i, i + 1) =~= open);
        assert(text::occurs_at(err, open, i));
    }
    if let Some(p) = text::find(err, open) {
        assert(err.subrange(p, p + 1)[0] == '{');
        assert(err[p] == '{');
        let before = err.take(p);
        if before.contains('{') {
            let i = choose|i: int| 0 <= i < before.len() && before[i] == '{';
            assert(err.subrange(i, i + 1) =~= open);
            assert(text::occurs_at(err, open, i));
        }
    }
}

/// The answer in the text of a failure is the value from the first brace on, where that is JSON.
pub proof fn lemma_answer_read(front: Seq<char>, written: Seq<char>, v: JsonView)
    requires
        !front.contains('{'),
        written.len() > 0,
        written[0] == '{',
    ensures
        json::text_read(written) == Ok::<JsonView, Seq<char>>(v) ==> server_error::answer_in(
            front + written,
        ) == Some(v),
        json::text_read(written) is Err ==> server_error::answer_in(front + written) is None,
        server_error::answer_in(front) is None,
{
    server_error::lemma_answer_behind(front, written);
    lemma_first_brace(front);
}

/// The coordinator's message is the text under "message" of what stands under "error".
pub proof fn lemma_message(
    answer: Map<Seq<char>, JsonView>,
    error: Map<Seq<char>, JsonView>,
    message: Seq<char>,
)
    requires
        answer.contains_key("error"@),
        answer["error"@] == JsonView::Object(error),
    ensures
        error.contains_key("message"@) && error["message"@] == JsonView::String(message)
            ==> server_error::message_in(JsonView::Object(answer)) == Some(message),
        !error.contains_key("message"@) ==> server_error::message_in(JsonView::Object(answer))
            == None::<Seq<char>>,
{
}

/// The parts of a search path, with colons between them, are the search path again.
pub proof fn lemma_path_parts(s: Seq<char>)
    ensures
        places::split_colons(s).len() > 0,
        rejoined(places::split_colons(s)) == s,
        forall|i: int|
            0 <= i < places::split_colons(s).len() ==> !(#[trigger] places::split_colons(
                s,
            )[i]).contains(':'),
    decreases s.len(),
{
    let parts = places::split_colons(s);
    if s.len() == 0 {
        assert(parts.drop_last() =~= Seq::<Seq<char>>::empty());
        assert(rejoined(parts) =~= s);
    } else {
        let front = places::split_colons(s.drop_last());
        lemma_path_parts(s.drop_last());
        if s.last() == ':' {
            assert(parts.drop_last() =~= front);
            assert(rejoined(parts) =~= rejoined(front).push(':'));
            assert(s =~= s.drop_last().push(':'));
            assert forall|i: int| 0 <= i < parts.len() implies !(#[trigger] parts[i]).contains(
                ':',
            ) by {
                if i < front.len() {
                    assert(parts[i] == front[i]);
                }
            }
        } else {
            let part = front.last().push(s.last());
            assert(parts.drop_last() =~= front.drop_last());
            assert(parts.last() == part);
            assert(rejoined(parts) =~= rejoined(front).push(s.last()));
            assert(s =~= s.drop_last().push(s.last()));
            assert forall|i: int| 0 <= i < parts.len() implies !(#[trigger] parts[i]).contains(
                ':',
            ) by {
                if i < front.len() - 1 {
                    assert(parts[i] == front[i]);
                } else {
                    if part.contains(':') {
                        let k = choose|k: int| 0 <= k < part.len() && part[k] == ':';
                        assert(front.last()[k] == ':');
                        assert(front[front.len() - 1].contains(':'));
                    }
                }
            }
        }
    }
}

/// Texts put together with a colon between each two.
pub open spec fn rejoined(parts: Seq<Seq<char>>) -> Seq<char>
    decreases parts.len(),
{
    if parts.len() <= 1 {
        parts[0]
    } else {
        rejoined(parts.drop_last()) + seq![':'] + parts.last()
    }
}

/// The path of a name in a directory: one slash between the two, none added where the directory
/// ends in one or is empty, and an absolute name by itself.
pub proof fn lemma_joined(dir: Seq<char>, name: Seq<char>)
    requires
        name.len() > 0,
        name[0] != '/',
        dir.len() > 0,
        dir.last() != '/',
    ensures
        places::joined(dir, name) == dir + seq!['/'] + name,
        places::joined(dir + seq!['/'], name) == dir + seq!['/'] + name,
        places::joined(Seq::empty(), name) == name,
        places::joined(dir, seq!['/'] + name) == seq!['/'] + name,
{
    reveal_strlit("/");
    assert("/"@ =~= seq!['/']);
    assert((dir + seq!['/']).last() == '/');
    assert(Seq::<char>::empty() + name =~= name);
}

/// An absolute name stands for itself, whatever the directory.
pub proof fn lemma_absolute(dir: Seq<char>, name: Seq<char>)
    requires
        name.len() > 0,
        name[0] == '/',
    ensures
        places::joined(dir, name) == name,
{
}

/// A search path leads to one place for each of its parts, in order: the name in that directory,
/// called as asked or by its own path.
pub proof fn lemma_path_places(
    path_var: Seq<char>,
    name: Seq<char>,
    called: Seq<char>,
    i: int,
)
    requires
        0 <= i < places::split_colons(path_var).len(),
    ensures
        places::path_places(path_var, name, Some(called)).len() == places::split_colons(
            path_var,
        ).len(),
        places::path_places(path_var, name, None).len() == places::split_colons(path_var).len(),
        places::path_places(path_var, name, Some(called))[i] == (PlaceView {
            file: places::joined(places::split_colons(path_var)[i], name),
            command: called,
        }),
        places::path_places(path_var, name, None)[i] == (PlaceView {
            file: places::joined(places::split_colons(path_var)[i], name),
            command: places::joined(places::split_colons(path_var)[i], name),
        }),
{
}

/// An error without a cause says the same in short and in full; one with a cause adds it in full.
pub proof fn lemma_failures(detail: Seq<char>, cause: Seq<char>)
    ensures
        FailureView::plain(detail).detail == detail,
        FailureView::plain(detail).chain == detail,
        FailureView::caused(detail, cause).detail == detail,
        FailureView::caused(detail, cause).chain == detail + seq![':', ' '] + cause,
{
    reveal_strlit(": ");
    assert(": "@ =~= seq![':', ' ']);
}

/// The whole seconds from one moment to another are counted towards zero: for moments `n` seconds
/// and less than one second more apart they are `n` in the one direction and `-n` in the other.
pub proof fn lemma_seconds_between(earlier: (i64, u32), later: (i64, u32), n: int, rest: int)
    requires
        0 <= earlier.0 <= 253_402_300_799,
        0 <= later.0 <= 253_402_300_799,
        earlier.1 < 1_000_000_000,
        later.1 < 1_000_000_000,
        0 <= n,
        0 <= rest < 1_000_000_000,
        later.0 * 1_000_000_000 + later.1 == earlier.0 * 1_000_000_000 + earlier.1 + n
            * 1_000_000_000 + rest,
    ensures
        time::seconds_left(later, earlier) is Some,
        time::seconds_left(later, earlier)->0 == n,
        time::seconds_left(earlier, later) is Some,
        time::seconds_left(earlier, later)->0 == -n,
{
}

/// Of moments outside the years 1970 to 9999 and in leap seconds the seconds are those that `chrono`
/// counts.
pub proof fn lemma_seconds_elsewhere(then: (i64, u32), now: (i64, u32))
    requires
        then.0 < 0 || then.0 > 253_402_300_799 || then.1 >= 1_000_000_000 || now.0 < 0 || now.0
            > 253_402_300_799 || now.1 >= 1_000_000_000,
    ensures
        time::seconds_left(then, now) == time::seconds_between(then.0, then.1, now.0, now.1),
{
}

/// The seconds to the moment that a text names are those from now to that moment; a text that
/// names none gives none.
pub proof fn lemma_seconds_to(s: Seq<char>, secs: i64, nanos: u32, now_secs: i64, now_nanos: u32)
    ensures
        time::moment_of(s) == Some((secs, nanos)) ==> time::seconds_to(s, now_secs, now_nanos)
            == time::seconds_left((secs, nanos), (now_secs, now_nanos)),
        time::moment_of(s) is None ==> time::seconds_to(s, now_secs, now_nanos) is None,
{
}

/// A text is JSON where the parser takes it, and its value is then the one that the parser gives.
pub proof fn lemma_text_taken(s: Seq<char>, v: JsonView)
    ensures
        json::text_read(s) == Ok::<JsonView, Seq<char>>(v) ==> json::json_of_text(s) == Some(v),
        json::text_read(s) is Err ==> json::json_of_text(s) is None,
{
}

} // verus!
