//! The /update command.
use vstd::prelude::*;
use vstd::string::StringExecFns;
use crate::sync::records::strings_view;
use crate::text::{chars_of, push_str, str_eq, string_from_chars, trimmed};
use crate::tui::commands::{joined, join_strings, lines_view, push_line, push_line2, trim_bounds, PayloadView, RecordPayload};

verus! {

/// The lines after the current values of a record.
pub open spec fn update_footer() -> Seq<Seq<char>> {
    seq![
        ""@,
        "Enter new values (press Enter to keep current):"@,
        ""@,
        "(TUI: Implement interactive input for each field)"@,
        ""@,
        "Available fields:"@,
        "  - password: Generate new password"@,
        "  - username: <new username>"@,
        "  - url: <new url>"@,
        "  - notes: <new notes>"@,
        "  - tags: <tag1,tag2>"@,
    ]
}

/// The current values of a record shown by /update.
pub open spec fn update_values(p: PayloadView) -> Seq<Seq<char>> {
    (match p.username {
        Some(u) => seq!["Username: "@ + u],
        None => Seq::empty(),
    }) + (match p.url {
        Some(u) => seq!["URL: "@ + u],
        None => Seq::empty(),
    }) + (match p.notes {
        Some(n) => seq!["Notes: "@ + n],
        None => Seq::empty(),
    }) + (if p.tags.len() > 0 {
        seq!["Tags: "@ + joined(p.tags, ", "@)]
    } else {
        Seq::empty()
    })
}

/// The output of /update; `info` is the decrypted record found for the
/// first argument, if the vault could be read and held one.
pub open spec fn update_output(args: Seq<Seq<char>>, info: Option<PayloadView>) -> Seq<Seq<char>> {
    if args.len() == 0 {
        seq!["❌ Error: Record name required"@, "Usage: /update <name>"@]
    } else {
        match info {
            Some(p) => seq!["✏️  Update Record"@, ""@, "Name: "@ + p.name] + update_values(p) + update_footer(),
            None => seq!["✏️  Update Record"@, ""@, "Name: "@ + args[0]] + update_footer(),
        }
    }
}

fn push_footer(out: &mut Vec<String>)
    ensures
        lines_view(final(out)@) == lines_view(old(out)@) + update_footer(),
{
    push_line(out, "");
    push_line(out, "Enter new values (press Enter to keep current):");
    push_line(out, "");
    push_line(out, "(TUI: Implement interactive input for each field)");
    push_line(out, "");
    push_line(out, "Available fields:");
    push_line(out, "  - password: Generate new password");
    push_line(out, "  - username: <new username>");
    push_line(out, "  - url: <new url>");
    push_line(out, "  - notes: <new notes>");
    push_line(out, "  - tags: <tag1,tag2>");
    assert(lines_view(out@) =~= lines_view(old(out)@) + update_footer());
}

/// Shows the current values of the record named by the first argument and
/// the fields that can be changed.
pub fn handle_update(args: Vec<&str>, info: Option<RecordPayload>) -> (r: Vec<String>)
    ensures
        lines_view(r@) == update_output(
            args@.map_values(|s: &str| s@),
            match info {
                Some(p) => Some(p@),
                None => None,
            },
        ),
{
    let ghost av = args@.map_values(|s: &str| s@);
    let mut out: Vec<String> = Vec::new();
    if args.len() == 0 {
        push_line(&mut out, "❌ Error: Record name required");
        push_line(&mut out, "Usage: /update <name>");
        assert(lines_view(out@) =~= update_output(av, None));
        return out;
    }
    assert(av[0] == args@[0]@);
    push_line(&mut out, "✏️  Update Record");
    push_line(&mut out, "");
    match &info {
        Some(p) => {
            push_line2(&mut out, "Name: ", p.name.as_str());
            let ghost head = lines_view(out@);
            match &p.username {
                Some(u) => push_line2(&mut out, "Username: ", u.as_str()),
                None => {},
            }
            match &p.url {
                Some(u) => push_line2(&mut out, "URL: ", u.as_str()),
                None => {},
            }
            match &p.notes {
                Some(n) => push_line2(&mut out, "Notes: ", n.as_str()),
                None => {},
            }
            if p.tags.len() > 0 {
                let t = join_strings(p.tags.as_slice(), ", ");
                push_line2(&mut out, "Tags: ", t.as_str());
            }
            assert(lines_view(out@) =~= head + update_values(p@));
            push_footer(&mut out);
            assert(lines_view(out@) =~= update_output(av, Some(p@)));
        },
        None => {
            push_line2(&mut out, "Name: ", args[0]);
            push_footer(&mut out);
            assert(lines_view(out@) =~= update_output(av, None));
        },
    }
    out
}

/// The pieces of `s` between commas read so far, and the piece being read.
pub open spec fn comma_scan(s: Seq<char>) -> (Seq<Seq<char>>, Seq<char>)
    decreases s.len(),
{
    if s.len() == 0 {
        (Seq::empty(), Seq::empty())
    } else {
        let (done, cur) = comma_scan(s.drop_last());
        if s.last() == ',' {
            (done.push(cur), Seq::empty())
        } else {
            (done, cur.push(s.last()))
        }
    }
}

/// The pieces of `s` between commas, as `str::split(',')` gives them: one
/// more than there are commas.
pub open spec fn comma_pieces(s: Seq<char>) -> Seq<Seq<char>> {
    comma_scan(s).0.push(comma_scan(s).1)
}

/// The tags typed as a comma-separated list, each trimmed.
pub open spec fn tags_from(value: Seq<char>) -> Seq<Seq<char>> {
    comma_pieces(value).map_values(|p: Seq<char>| trimmed(p))
}

/// An empty value clears an optional field.
pub open spec fn opt_value(value: Seq<char>) -> Option<Seq<char>> {
    if value.len() == 0 {
        None
    } else {
        Some(value)
    }
}

/// A payload with `field` set to `value`: username, url and notes are set
/// (or cleared by an empty value), tags are read as a comma-separated list;
/// no other field can be set this way.
pub open spec fn field_updated(p: PayloadView, field: Seq<char>, value: Seq<char>) -> Option<PayloadView> {
    if field == "username"@ {
        Some(PayloadView { username: opt_value(value), ..p })
    } else if field == "url"@ {
        Some(PayloadView { url: opt_value(value), ..p })
    } else if field == "notes"@ {
        Some(PayloadView { notes: opt_value(value), ..p })
    } else if field == "tags"@ {
        Some(PayloadView { tags: tags_from(value), ..p })
    } else {
        None
    }
}

fn trimmed_string(v: &Vec<char>) -> (r: String)
    ensures
        r@ == trimmed(v@),
{
    let (a, b) = trim_bounds(v);
    let mut out: Vec<char> = Vec::new();
    let mut i: usize = a;
    while i < b
        invariant
            a <= i <= b <= v@.len(),
            out@ == v@.subrange(a as int, i as int),
        decreases b - i,
    {
        out.push(v[i]);
        i = i + 1;
        assert(out@ =~= v@.subrange(a as int, i as int));
    }
    string_from_chars(&out)
}

/// The tags of a comma-separated list, as [`tags_from`] says.
pub fn split_tags(value: &str) -> (r: Vec<String>)
    ensures
        strings_view(r@) == tags_from(value@),
{
    let v = chars_of(value);
    let mut out: Vec<String> = Vec::new();
    let mut cur: Vec<char> = Vec::new();
    let mut i: usize = 0;
    while i < v.len()
        invariant
            i <= v@.len(),
            v@ == value@,
            strings_view(out@) == comma_scan(v@.take(i as int)).0.map_values(|p: Seq<char>| trimmed(p)),
            cur@ == comma_scan(v@.take(i as int)).1,
        decreases v@.len() - i,
    {
        let c = v[i];
        assert(v@.take(i + 1).drop_last() =~= v@.take(i as int));
        assert(v@.take(i + 1).last() == c);
        let ghost done = comma_scan(v@.take(i as int)).0;
        if c == ',' {
            let t = trimmed_string(&cur);
            let ghost before = out@;
            out.push(t);
            assert(strings_view(out@) =~= strings_view(before).push(trimmed(cur@)));
            assert(done.push(cur@).map_values(|p: Seq<char>| trimmed(p)) =~= done.map_values(
                |p: Seq<char>| trimmed(p),
            ).push(trimmed(cur@)));
            cur = Vec::new();
        } else {
            cur.push(c);
        }
        i = i + 1;
    }
    assert(v@.take(i as int) =~= v@);
    let ghost done = comma_scan(v@).0;
    let t = trimmed_string(&cur);
    let ghost before = out@;
    out.push(t);
    assert(strings_view(out@) =~= strings_view(before).push(trimmed(cur@)));
    assert(done.push(cur@).map_values(|p: Seq<char>| trimmed(p)) =~= done.map_values(|p: Seq<char>| trimmed(p)).push(
        trimmed(cur@),
    ));
    out
}

fn opt_string(value: &str) -> (r: Option<String>)
    ensures
        match r {
            Some(s) => Some(s@),
            None => None::<Seq<char>>,
        } == opt_value(value@),
{
    if value.is_empty() {
        None
    } else {
        Some(String::from_str(value))
    }
}

/// Sets one field of the record named `name`, whose decrypted payload the
/// application found (`None` where no record has that name). Returns the
/// lines to show and the payload to encrypt and store, if any.
pub fn update_field(name: &str, field: &str, value: &str, found: Option<RecordPayload>) -> (r: (
    Vec<String>,
    Option<RecordPayload>,
))
    ensures
        found is None ==> lines_view(r.0@) == seq!["❌ Record '"@ + name@ + "' not found"@] && r.1 is None,
        found matches Some(p) ==> match field_updated(p@, field@, value@) {
            None => lines_view(r.0@) == seq!["❌ Unknown field: "@ + field@] && r.1 is None,
            Some(q) => lines_view(r.0@) == seq!["✅ Updated "@ + field@ + " for '"@ + name@ + "'"@, ""@]
                && (r.1 matches Some(u) && u@ == q && u.password@ == p.password@),
        },
{
    let mut out: Vec<String> = Vec::new();
    let mut p = match found {
        None => {
            let mut s = String::from_str("❌ Record '");
            push_str(&mut s, name);
            push_str(&mut s, "' not found");
            let ghost before = out@;
            out.push(s);
            assert(lines_view(out@) =~= lines_view(before).push(s@));
            return (out, None);
        },
        Some(p) => p,
    };
    let ghost old_p = p;
    if str_eq(field, "username") {
        p.username = opt_string(value);
    } else if str_eq(field, "url") {
        p.url = opt_string(value);
    } else if str_eq(field, "notes") {
        p.notes = opt_string(value);
    } else if str_eq(field, "tags") {
        p.tags = split_tags(value);
    } else {
        push_line2(&mut out, "❌ Unknown field: ", field);
        return (out, None);
    }
    assert(p@ == field_updated(old_p@, field@, value@)->0);
    let mut s = String::from_str("✅ Updated ");
    push_str(&mut s, field);
    push_str(&mut s, " for '");
    push_str(&mut s, name);
    push_str(&mut s, "'");
    let ghost before = out@;
    out.push(s);
    assert(lines_view(out@) =~= lines_view(before).push(s@));
    push_line(&mut out, "");
    (out, Some(p))
}

/// Sets the password of the record named `name`, whose decrypted payload the
/// application found (`None` where no record has that name). Returns the
/// lines to show and the payload to encrypt and store, if any.
pub fn update_password(name: &str, new_password: &str, found: Option<RecordPayload>) -> (r: (
    Vec<String>,
    Option<RecordPayload>,
))
    ensures
        found is None ==> lines_view(r.0@) == seq!["❌ Record '"@ + name@ + "' not found"@] && r.1 is None,
        found matches Some(p) ==> lines_view(r.0@) == seq!["✅ Password updated for '"@ + name@ + "'"@, ""@]
            && (r.1 matches Some(u) && u@ == p@ && u.password@ == new_password@),
{
    let mut out: Vec<String> = Vec::new();
    match found {
        None => {
            let mut s = String::from_str("❌ Record '");
            push_str(&mut s, name);
            push_str(&mut s, "' not found");
            let ghost before = out@;
            out.push(s);
            assert(lines_view(out@) =~= lines_view(before).push(s@));
            (out, None)
        },
        Some(p) => {
            let mut p = p;
            p.password = String::from_str(new_password);
            let mut s = String::from_str("✅ Password updated for '");
            push_str(&mut s, name);
            push_str(&mut s, "'");
            let ghost before = out@;
            out.push(s);
            assert(lines_view(out@) =~= lines_view(before).push(s@));
            push_line(&mut out, "");
            (out, Some(p))
        },
    }
}

} // verus!
