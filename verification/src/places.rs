//! Where programs are looked for.

use vstd::prelude::*;

use crate::text;

verus! {

/// A place to look for a program: the file that has to be there, and how the program is then
/// called.
#[derive(Debug, PartialEq, Eq)]
pub struct Place {
    pub file: String,
    pub command: String,
}

#[verifier::ext_equal]
pub struct PlaceView {
    pub file: Seq<char>,
    pub command: Seq<char>,
}

impl Place {
    pub open spec fn view(&self) -> PlaceView {
        PlaceView { file: self.file@, command: self.command@ }
    }
}

/// The views of a list of places.
pub open spec fn places_view(list: Seq<Place>) -> Seq<PlaceView> {
    list.map_values(|p: Place| p@)
}

/// The parts of a text between its colons.
pub open spec fn split_colons(s: Seq<char>) -> Seq<Seq<char>>
    decreases s.len(),
{
    if s.len() == 0 {
        seq![Seq::empty()]
    } else {
        let front = split_colons(s.drop_last());
        if s.last() == ':' {
            front.push(Seq::empty())
        } else {
            front.drop_last().push(front.last().push(s.last()))
        }
    }
}

/// The path of a file in a directory. An absolute name stands for itself.
pub open spec fn joined(dir: Seq<char>, name: Seq<char>) -> Seq<char> {
    if name.len() > 0 && name[0] == '/' {
        name
    } else if dir.len() == 0 || dir.last() == '/' {
        dir + name
    } else {
        dir + "/"@ + name
    }
}

proof fn lemma_split_nonempty(s: Seq<char>)
    ensures
        split_colons(s).len() > 0,
    decreases s.len(),
{
    if s.len() > 0 {
        lemma_split_nonempty(s.drop_last());
    }
}

/// The path of a file in a directory.
pub fn join(dir: &str, name: &str) -> (r: String)
    ensures
        r@ == joined(dir@, name@),
{
    if name.unicode_len() > 0 && name.get_char(0) == '/' {
        return name.to_owned();
    }
    let n = dir.unicode_len();
    let mut s = dir.to_owned();
    if n > 0 && dir.get_char(n - 1) != '/' {
        s.append("/");
    }
    s.append(name);
    s
}

/// The parts of a text between its colons.
pub fn split(s: &str) -> (r: Vec<String>)
    ensures
        r@.map_values(|t: String| t@) == split_colons(s@),
{
    let h = text::chars_of(s);
    let mut done: Vec<String> = Vec::new();
    let mut part = String::new();
    let mut i: usize = 0;
    proof {
        assert(s@.take(0) =~= Seq::<char>::empty());
        assert(done@.map_values(|t: String| t@).push(part@) =~= split_colons(s@.take(0)));
    }
    while i < h.len()
        invariant
            h@ == s@,
            i <= h@.len(),
            done@.map_values(|t: String| t@).push(part@) == split_colons(s@.take(i as int)),
        decreases h@.len() - i,
    {
        let ghost front = split_colons(s@.take(i as int));
        proof {
            assert(s@.take(i + 1).drop_last() =~= s@.take(i as int));
            lemma_split_nonempty(s@.take(i as int));
            assert(front.last() == part@);
            assert(front.drop_last() =~= done@.map_values(|t: String| t@));
        }
        if h[i] == ':' {
            done.push(part);
            part = String::new();
            assert(done@.map_values(|t: String| t@) =~= front);
        } else {
            part.push(h[i]);
        }
        i += 1;
    }
    assert(s@.take(i as int) =~= s@);
    done.push(part);
    assert(done@.map_values(|t: String| t@) =~= split_colons(s@));
    done
}

/// The places where a search path leads to look for a program that is then called by `command`,
/// or by the file's own path where there is none.
pub open spec fn path_places(
    path_var: Seq<char>,
    name: Seq<char>,
    command: Option<Seq<char>>,
) -> Seq<PlaceView> {
    split_colons(path_var).map_values(
        |d: Seq<char>|
            PlaceView {
                file: joined(d, name),
                command: match command {
                    Some(c) => c,
                    None => joined(d, name),
                },
            },
    )
}

/// The places where a search path leads to look for a program.
pub fn search_path(path_var: &str, name: &str, command: Option<&str>) -> (r: Vec<Place>)
    ensures
        places_view(r@) == path_places(path_var@, name@, crate::json::maybe_text(command)),
{
    let dirs = split(path_var);
    let ghost all = split_colons(path_var@);
    let ghost want = path_places(path_var@, name@, crate::json::maybe_text(command));
    let mut out: Vec<Place> = Vec::new();
    let mut i: usize = 0;
    while i < dirs.len()
        invariant
            dirs@.map_values(|t: String| t@) == all,
            all == split_colons(path_var@),
            want == path_places(path_var@, name@, crate::json::maybe_text(command)),
            i <= dirs@.len(),
            out@.len() == i,
            forall|j: int| 0 <= j < i ==> (#[trigger] out@[j])@ == want[j],
        decreases dirs@.len() - i,
    {
        assert(all[i as int] == dirs@[i as int]@);
        let file = join(dirs[i].as_str(), name);
        let called = match command {
            Some(c) => c.to_owned(),
            None => file.clone(),
        };
        out.push(Place { file, command: called });
        i += 1;
    }
    assert(places_view(out@) =~= want);
    out
}

/// A place at a fixed path.
pub open spec fn fixed(path: Seq<char>) -> PlaceView {
    PlaceView { file: path, command: path }
}

/// A place below a directory.
pub(crate) fn below(dir: &str, rest: &str) -> (r: Place)
    ensures
        r@ == fixed(dir@ + rest@),
{
    let mut file = dir.to_owned();
    file.append(rest);
    let command = file.clone();
    Place { file, command }
}

/// A place at a fixed path.
pub(crate) fn exactly(path: &str) -> (r: Place)
    ensures
        r@ == fixed(path@),
{
    Place { file: path.to_owned(), command: path.to_owned() }
}

/// The command of the first place whose file is there.
pub open spec fn first_present(list: Seq<PlaceView>, present: Seq<bool>) -> Option<Seq<char>>
    decreases list.len(),
{
    if list.len() == 0 || present.len() == 0 {
        None
    } else if present[0] {
        Some(list[0].command)
    } else {
        first_present(list.drop_first(), present.drop_first())
    }
}

/// The command of the first place whose file is there; `present` says of each place whether it
/// is.
pub fn locate(list: &Vec<Place>, present: &Vec<bool>) -> (r: Option<String>)
    requires
        list@.len() == present@.len(),
    ensures
        crate::output::opt_text(r) == first_present(places_view(list@), present@),
{
    let ghost all = places_view(list@);
    let mut i: usize = 0;
    proof {
        assert(all.skip(0) =~= all);
        assert(present@.skip(0) =~= present@);
    }
    while i < list.len()
        invariant
            all == places_view(list@),
            list@.len() == present@.len(),
            i <= list@.len(),
            first_present(all, present@) == first_present(
                all.skip(i as int),
                present@.skip(i as int),
            ),
        decreases list@.len() - i,
    {
        proof {
            assert(all.skip(i as int)[0] == list@[i as int]@);
            assert(all.skip(i as int).drop_first() =~= all.skip(i + 1));
            assert(present@.skip(i as int).drop_first() =~= present@.skip(i + 1));
        }
        if present[i] {
            return Some(list[i].command.clone());
        }
        i += 1;
    }
    None
}

/// What is located is the first place whose file is there; nothing is located only where no file
/// is there.
pub proof fn lemma_first_present(list: Seq<PlaceView>, present: Seq<bool>)
    requires
        list.len() == present.len(),
    ensures
        match first_present(list, present) {
            Some(c) => exists|i: int|
                0 <= i < list.len() && #[trigger] present[i] && list[i].command == c && (forall|
                    j: int,
                |
                    0 <= j < i ==> !#[trigger] present[j]),
            None => forall|i: int| 0 <= i < list.len() ==> !#[trigger] present[i],
        },
    decreases list.len(),
{
    if list.len() > 0 && !present[0] {
        let rest = list.drop_first();
        let left = present.drop_first();
        lemma_first_present(rest, left);
        match first_present(rest, left) {
            Some(c) => {
                let k = choose|i: int|
                    0 <= i < rest.len() && #[trigger] left[i] && rest[i].command == c && (forall|
                        j: int,
                    |
                        0 <= j < i ==> !#[trigger] left[j]);
                assert(present[k + 1] && list[k + 1].command == c);
                assert forall|j: int| 0 <= j < k + 1 implies !#[trigger] present[j] by {
                    if j > 0 {
                        assert(present[j] == left[j - 1]);
                    }
                }
            },
            None => {
                assert forall|i: int| 0 <= i < list.len() implies !#[trigger] present[i] by {
                    if i > 0 {
                        assert(present[i] == left[i - 1]);
                    }
                }
            },
        }
    } else if list.len() > 0 {
        assert(present[0] && list[0].command == first_present(list, present)->0);
    }
}

} // verus!
