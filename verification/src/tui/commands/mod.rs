//! Slash commands of the terminal interface.
//!
//! Each handler turns the command's arguments, together with what the
//! application read from the vault for it, into the lines to show.
use vstd::prelude::*;
use vstd::string::StrSliceExecFns;
use vstd::string::StringExecFns;
use crate::sync::records::strings_view;
use crate::text::{chars_of, is_white_space, push_str, trimmed, white_space};

pub mod config;
pub mod delete;
pub mod health;
pub mod list;
pub mod new;
pub mod search;
pub mod show;
pub mod update;

verus! {

/// A decrypted record payload as the commands show it.
#[derive(Debug)]
pub struct RecordPayload {
    pub name: String,
    pub username: Option<String>,
    pub password: String,
    pub url: Option<String>,
    pub notes: Option<String>,
    pub tags: Vec<String>,
}

/// Model of a record payload.
pub struct PayloadView {
    pub name: Seq<char>,
    pub username: Option<Seq<char>>,
    pub url: Option<Seq<char>>,
    pub notes: Option<Seq<char>>,
    pub tags: Seq<Seq<char>>,
}

/// Model of an optional string.
pub open spec fn opt_text(o: Option<String>) -> Option<Seq<char>> {
    match o {
        Some(s) => Some(s@),
        None => None,
    }
}

impl View for RecordPayload {
    type V = PayloadView;

    open spec fn view(&self) -> PayloadView {
        PayloadView {
            name: self.name@,
            username: opt_text(self.username),
            url: opt_text(self.url),
            notes: opt_text(self.notes),
            tags: strings_view(self.tags@),
        }
    }
}

/// The payloads of a list, each by its model.
pub open spec fn payloads_view(ps: Seq<RecordPayload>) -> Seq<PayloadView> {
    ps.map_values(|p: RecordPayload| p@)
}

/// The lines of a list, each by its characters.
pub open spec fn lines_view(v: Seq<String>) -> Seq<Seq<char>> {
    strings_view(v)
}

/// Appends a line holding the given text.
pub fn push_line(out: &mut Vec<String>, text: &str)
    ensures
        lines_view(final(out)@) == lines_view(old(out)@).push(text@),
{
    let ghost before = out@;
    out.push(String::from_str(text));
    assert(lines_view(out@) =~= lines_view(before).push(text@));
}

/// Appends a line made of a prefix and a text.
pub fn push_line2(out: &mut Vec<String>, prefix: &str, text: &str)
    ensures
        lines_view(final(out)@) == lines_view(old(out)@).push(prefix@ + text@),
{
    let mut s = String::from_str(prefix);
    push_str(&mut s, text);
    let ghost before = out@;
    out.push(s);
    assert(lines_view(out@) =~= lines_view(before).push(prefix@ + text@));
}

/// Appends a line made of a prefix, a text and a suffix.
pub fn push_line3(out: &mut Vec<String>, prefix: &str, text: &str, suffix: &str)
    ensures
        lines_view(final(out)@) == lines_view(old(out)@).push(prefix@ + text@ + suffix@),
{
    let mut s = String::from_str(prefix);
    push_str(&mut s, text);
    push_str(&mut s, suffix);
    let ghost before = out@;
    out.push(s);
    assert(lines_view(out@) =~= lines_view(before).push(prefix@ + text@ + suffix@));
}

/// The words of `s` so far and the word being read, scanning left to right.
pub open spec fn words_scan(s: Seq<char>) -> (Seq<Seq<char>>, Seq<char>)
    decreases s.len(),
{
    if s.len() == 0 {
        (Seq::empty(), Seq::empty())
    } else {
        let (done, cur) = words_scan(s.drop_last());
        let c = s.last();
        if is_white_space(c) {
            if cur.len() > 0 {
                (done.push(cur), Seq::empty())
            } else {
                (done, Seq::empty())
            }
        } else {
            (done, cur.push(c))
        }
    }
}

/// The words of `s`: its maximal runs of non-white-space characters, as
/// `str::split_whitespace` documents them.
pub open spec fn words(s: Seq<char>) -> Seq<Seq<char>> {
    let (done, cur) = words_scan(s);
    if cur.len() > 0 {
        done.push(cur)
    } else {
        done
    }
}

/// Index of the first plain space in `s`.
pub open spec fn first_space(s: Seq<char>) -> Option<int>
    decreases s.len(),
{
    if s.len() == 0 {
        None
    } else {
        match first_space(s.drop_last()) {
            Some(i) => Some(i),
            None => if s.last() == ' ' {
                Some(s.len() - 1)
            } else {
                None
            },
        }
    }
}

/// The command name and arguments of a command line: the trimmed line must
/// start with a slash; the name runs to the first space and the arguments
/// are the words after it.
pub open spec fn parsed_command(input: Seq<char>) -> Option<(Seq<char>, Seq<Seq<char>>)> {
    let t = trimmed(input);
    if t.len() == 0 || t[0] != '/' {
        None
    } else {
        match first_space(t) {
            Some(i) => Some((t.take(i), words(t.skip(i + 1)))),
            None => Some((t, Seq::empty())),
        }
    }
}

/// The string slices of a list, each by its characters.
pub open spec fn strs_view(v: Seq<&str>) -> Seq<Seq<char>> {
    v.map_values(|s: &str| s@)
}

pub(crate) fn trim_bounds(v: &Vec<char>) -> (r: (usize, usize))
    ensures
        r.0 <= r.1 <= v@.len(),
        v@.subrange(r.0 as int, r.1 as int) == trimmed(v@),
{
    let mut i: usize = 0;
    while i < v.len() && white_space(v[i])
        invariant
            i <= v@.len(),
            forall|k: int| 0 <= k < i ==> is_white_space(#[trigger] v@[k]),
        decreases v@.len() - i,
    {
        i = i + 1;
    }
    let mut j: usize = v.len();
    while j > i && white_space(v[j - 1])
        invariant
            i <= j <= v@.len(),
            forall|k: int| j <= k < v@.len() ==> is_white_space(#[trigger] v@[k]),
        decreases j,
    {
        j = j - 1;
    }
    proof {
        crate::text::lemma_trimmed_bounds(v@, i as int, j as int);
    }
    (i, j)
}

pub(crate) fn words_of(s: &str, from: usize) -> (r: Vec<&str>)
    requires
        from <= s@.len(),
    ensures
        strs_view(r@) == words(s@.skip(from as int)),
{
    let v = chars_of(s);
    let n = v.len();
    let ghost rest = v@.skip(from as int);
    let mut out: Vec<&str> = Vec::new();
    let mut start: Option<usize> = None;
    let mut i: usize = from;
    assert(rest.take(0) =~= Seq::<char>::empty());
    while i < n
        invariant
            v@ == s@,
            n == v@.len(),
            from <= i <= n,
            rest == v@.skip(from as int),
            start matches Some(st) ==> from <= st < i,
            words_scan(rest.take(i - from)) == (
                strs_view(out@),
                match start {
                    Some(st) => v@.subrange(st as int, i as int),
                    None => Seq::<char>::empty(),
                },
            ),
            start matches Some(st) ==> v@.subrange(st as int, i as int).len() > 0,
        decreases n - i,
    {
        let c = v[i];
        assert(rest.take(i + 1 - from).drop_last() =~= rest.take(i - from));
        assert(rest.take(i + 1 - from).last() == c);
        let ghost before = out@;
        if white_space(c) {
            match start {
                Some(st) => {
                    let w = s.substring_char(st, i);
                    out.push(w);
                    assert(strs_view(out@) =~= strs_view(before).push(v@.subrange(st as int, i as int)));
                },
                None => {},
            }
            start = None;
        } else {
            match start {
                Some(st) => {
                    assert(v@.subrange(st as int, i + 1) =~= v@.subrange(st as int, i as int).push(c));
                },
                None => {
                    assert(v@.subrange(i as int, i + 1) =~= Seq::<char>::empty().push(c));
                    start = Some(i);
                },
            }
        }
        i = i + 1;
    }
    assert(rest.take(n - from) =~= rest);
    match start {
        Some(st) => {
            let w = s.substring_char(st, n);
            let ghost before = out@;
            out.push(w);
            assert(strs_view(out@) =~= strs_view(before).push(v@.subrange(st as int, n as int)));
        },
        None => {},
    }
    out
}

/// Splits a command line into the command name and its arguments; `None`
/// where the trimmed line does not start with a slash.
pub fn parse_command(input: &str) -> (r: Option<(&str, Vec<&str>)>)
    ensures
        r is None <==> parsed_command(input@) is None,
        r is Some ==> ({
            let (name, args) = r->0;
            let (pname, pargs) = parsed_command(input@)->0;
            name@ == pname && strs_view(args@) == pargs
        }),
{
    let v = chars_of(input);
    let (a, b) = trim_bounds(&v);
    let t = input.substring_char(a, b);
    assert(t@ == trimmed(input@));
    if b == a || v[a] != '/' {
        return None;
    }
    let mut i: usize = a;
    while i < b && v[i] != ' '
        invariant
            a <= i <= b <= v@.len(),
            v@ == input@,
            t@ == v@.subrange(a as int, b as int),
            first_space(t@.take(i - a)) is None,
        decreases b - i,
    {
        assert(t@.take(i + 1 - a).drop_last() =~= t@.take(i - a));
        i = i + 1;
    }
    if i == b {
        assert(t@.take(i - a) =~= t@);
        Some((t, Vec::new()))
    } else {
        assert(t@.take(i + 1 - a).drop_last() =~= t@.take(i - a));
        proof {
            lemma_first_space_at(t@, i - a);
        }
        let name = input.substring_char(a, i);
        assert(name@ =~= t@.take(i - a));
        let rest = input.substring_char(i + 1, b);
        assert(rest@ =~= t@.skip(i - a + 1));
        let args = words_of(rest, 0);
        assert(rest@.skip(0) =~= rest@);
        Some((name, args))
    }
}

pub(crate) proof fn lemma_first_space_at(t: Seq<char>, k: int)
    requires
        0 <= k < t.len(),
        t[k] == ' ',
        first_space(t.take(k)) is None,
    ensures
        first_space(t) == Some(k),
    decreases t.len(),
{
    if k < t.len() - 1 {
        assert(t.drop_last().take(k) =~= t.take(k));
        lemma_first_space_at(t.drop_last(), k);
    } else {
        assert(t.drop_last() =~= t.take(k));
    }
}

/// The strings joined with `sep` between them.
pub open spec fn joined(parts: Seq<Seq<char>>, sep: Seq<char>) -> Seq<char>
    decreases parts.len(),
{
    if parts.len() == 0 {
        Seq::empty()
    } else if parts.len() == 1 {
        parts[0]
    } else {
        joined(parts.drop_last(), sep) + sep + parts.last()
    }
}

/// The strings joined with `sep` between them, as `join` on a slice of strings does.
pub fn join_strings(parts: &[String], sep: &str) -> (r: String)
    ensures
        r@ == joined(strings_view(parts@), sep@),
{
    let mut s = String::new();
    let mut i: usize = 0;
    while i < parts.len()
        invariant
            i <= parts@.len(),
            s@ == joined(strings_view(parts@.take(i as int)), sep@),
        decreases parts@.len() - i,
    {
        assert(strings_view(parts@.take(i + 1)).drop_last() =~= strings_view(parts@.take(i as int)));
        assert(strings_view(parts@.take(i + 1)).last() == parts@[i as int]@);
        if i > 0 {
            push_str(&mut s, sep);
        }
        push_str(&mut s, parts[i].as_str());
        proof {
            if i == 0 {
                assert(strings_view(parts@.take(1))[0] == parts@[0]@);
                assert(Seq::<char>::empty() + parts@[0]@ =~= parts@[0]@);
            }
        }
        i = i + 1;
    }
    assert(parts@.take(i as int) =~= parts@);
    s
}

/// The string slices joined with `sep` between them.
pub fn join_strs(parts: &Vec<&str>, sep: &str) -> (r: String)
    ensures
        r@ == joined(strs_view(parts@), sep@),
{
    let mut s = String::new();
    let mut i: usize = 0;
    while i < parts.len()
        invariant
            i <= parts@.len(),
            s@ == joined(strs_view(parts@.take(i as int)), sep@),
        decreases parts@.len() - i,
    {
        assert(strs_view(parts@.take(i + 1)).drop_last() =~= strs_view(parts@.take(i as int)));
        assert(strs_view(parts@.take(i + 1)).last() == parts@[i as int]@);
        if i > 0 {
            push_str(&mut s, sep);
        }
        push_str(&mut s, parts[i]);
        proof {
            if i == 0 {
                assert(strs_view(parts@.take(1))[0] == parts@[0]@);
                assert(Seq::<char>::empty() + parts@[0]@ =~= parts@[0]@);
            }
        }
        i = i + 1;
    }
    assert(parts@.take(i as int) =~= parts@);
    s
}

} // verus!
