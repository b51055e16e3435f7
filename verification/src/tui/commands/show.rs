//! The /show command.
use vstd::prelude::*;
use vstd::string::StringExecFns;
use crate::tui::commands::{
    joined, join_strings, lines_view, payloads_view, push_line, push_line2, push_line3, PayloadView, RecordPayload,
};

verus! {

/// Index of the first payload named `name`.
pub open spec fn first_named(ps: Seq<PayloadView>, name: Seq<char>) -> Option<int>
    decreases ps.len(),
{
    if ps.len() == 0 {
        None
    } else {
        match first_named(ps.drop_last(), name) {
            Some(i) => Some(i),
            None => if ps.last().name == name {
                Some(ps.len() - 1)
            } else {
                None
            },
        }
    }
}

/// The lines describing a record; its password is not shown.
pub open spec fn show_detail(p: PayloadView) -> Seq<Seq<char>> {
    seq!["🔑 Record: "@ + p.name, ""@] + (match p.username {
        Some(u) => seq!["👤 Username: "@ + u],
        None => Seq::empty(),
    }) + seq!["🔐 Password: *** (shown in popup)"@] + (match p.url {
        Some(u) => seq!["🔗 URL: "@ + u],
        None => Seq::empty(),
    }) + (match p.notes {
        Some(n) => if n.len() > 0 {
            seq!["📝 Notes: "@ + n]
        } else {
            Seq::empty()
        },
        None => Seq::empty(),
    }) + (if p.tags.len() > 0 {
        seq!["🏷️  Tags: "@ + joined(p.tags, ", "@)]
    } else {
        Seq::empty()
    }) + seq![""@, "(Password copied to clipboard - auto-clears in 30s)"@]
}

/// The output of /show for the given arguments and decrypted records.
pub open spec fn show_output(args: Seq<Seq<char>>, ps: Seq<PayloadView>) -> Seq<Seq<char>> {
    if args.len() == 0 {
        seq!["❌ Error: Record name required"@, "Usage: /show <name>"@]
    } else {
        match first_named(ps, args[0]) {
            Some(i) => show_detail(ps[i]),
            None => seq!["❌ Record '"@ + args[0] + "' not found"@, "Use /list to see all records."@],
        }
    }
}

/// Index of the first record named `name`.
pub fn find_named(records: &[RecordPayload], name: &str) -> (r: Option<usize>)
    ensures
        r matches Some(i) ==> first_named(payloads_view(records@), name@) == Some(i as int) && i < records@.len(),
        r is None ==> first_named(payloads_view(records@), name@) is None,
{
    let target = String::from_str(name);
    let ghost ps = payloads_view(records@);
    let mut i: usize = 0;
    while i < records.len()
        invariant
            i <= records@.len(),
            ps == payloads_view(records@),
            target@ == name@,
            first_named(ps.take(i as int), name@) is None,
        decreases records@.len() - i,
    {
        assert(ps.take(i + 1).drop_last() =~= ps.take(i as int));
        assert(ps.take(i + 1).last() == records@[i as int]@);
        if records[i].name == target {
            proof {
                lemma_first_named_at(ps, name@, i as int);
            }
            return Some(i);
        }
        i = i + 1;
    }
    assert(ps.take(i as int) =~= ps);
    None
}

proof fn lemma_first_named_at(ps: Seq<PayloadView>, name: Seq<char>, k: int)
    requires
        0 <= k < ps.len(),
        ps[k].name == name,
        first_named(ps.take(k), name) is None,
    ensures
        first_named(ps, name) == Some(k),
    decreases ps.len(),
{
    if k < ps.len() - 1 {
        assert(ps.drop_last().take(k) =~= ps.take(k));
        lemma_first_named_at(ps.drop_last(), name, k);
    } else {
        assert(ps.drop_last() =~= ps.take(k));
    }
}

/// The lines describing one record.
pub fn show_record_lines(p: &RecordPayload) -> (r: Vec<String>)
    ensures
        lines_view(r@) == show_detail(p@),
{
    let mut out: Vec<String> = Vec::new();
    push_line2(&mut out, "🔑 Record: ", p.name.as_str());
    push_line(&mut out, "");
    let ghost a = lines_view(out@);
    match &p.username {
        Some(u) => push_line2(&mut out, "👤 Username: ", u.as_str()),
        None => {},
    }
    push_line(&mut out, "🔐 Password: *** (shown in popup)");
    match &p.url {
        Some(u) => push_line2(&mut out, "🔗 URL: ", u.as_str()),
        None => {},
    }
    match &p.notes {
        Some(n) => {
            if !n.as_str().is_empty() {
                push_line2(&mut out, "📝 Notes: ", n.as_str());
            }
        },
        None => {},
    }
    if p.tags.len() > 0 {
        let t = join_strings(p.tags.as_slice(), ", ");
        push_line2(&mut out, "🏷️  Tags: ", t.as_str());
    }
    push_line(&mut out, "");
    push_line(&mut out, "(Password copied to clipboard - auto-clears in 30s)");
    assert(lines_view(out@) =~= show_detail(p@));
    out
}

/// Shows the record named by the first argument among the decrypted records;
/// the password itself is never shown.
pub fn handle_show(args: Vec<&str>, records: &[RecordPayload]) -> (r: Vec<String>)
    ensures
        lines_view(r@) == show_output(args@.map_values(|s: &str| s@), payloads_view(records@)),
{
    let ghost av = args@.map_values(|s: &str| s@);
    if args.len() == 0 {
        let mut out: Vec<String> = Vec::new();
        push_line(&mut out, "❌ Error: Record name required");
        push_line(&mut out, "Usage: /show <name>");
        assert(lines_view(out@) =~= show_output(av, payloads_view(records@)));
        return out;
    }
    let name = args[0];
    assert(av[0] == name@);
    match find_named(records, name) {
        Some(i) => {
            assert(payloads_view(records@)[i as int] == records@[i as int]@);
            show_record_lines(&records[i])
        },
        None => {
            let mut out: Vec<String> = Vec::new();
            push_line3(&mut out, "❌ Record '", name, "' not found");
            push_line(&mut out, "Use /list to see all records.");
            assert(lines_view(out@) =~= show_output(av, payloads_view(records@)));
            out
        },
    }
}

} // verus!
