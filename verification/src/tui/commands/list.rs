//! The /list command.
use vstd::prelude::*;
use vstd::string::StringExecFns;
use crate::sync::records::RecordType;
use crate::text::{chars_of, contains_chars, contains_sub, decimal, lowercase, push_decimal, push_str, to_lowercase};
use crate::tui::commands::{join_strs, joined, lines_view, push_line, push_line3, strs_view};

verus! {

/// One record as /list sees it: its identifier, its type and, where its
/// payload could be decrypted, its name.
#[derive(Debug)]
pub struct ListEntry {
    pub id: String,
    pub record_type: RecordType,
    pub name: Option<String>,
}

/// Model of a list entry.
pub struct ListEntryView {
    pub id: Seq<char>,
    pub record_type: RecordType,
    pub name: Option<Seq<char>>,
}

impl View for ListEntry {
    type V = ListEntryView;

    open spec fn view(&self) -> ListEntryView {
        ListEntryView {
            id: self.id@,
            record_type: self.record_type,
            name: match self.name {
                Some(n) => Some(n@),
                None => None,
            },
        }
    }
}

/// The lower-case name of a record type, as its `Debug` form in lower case.
pub open spec fn type_text(t: RecordType) -> Seq<char> {
    match t {
        RecordType::Password => "password"@,
        RecordType::SshKey => "sshkey"@,
        RecordType::ApiCredential => "apicredential"@,
        RecordType::Mnemonic => "mnemonic"@,
        RecordType::PrivateKey => "privatekey"@,
    }
}

fn type_string(t: RecordType) -> (r: &'static str)
    ensures
        r@ == type_text(t),
{
    match t {
        RecordType::Password => "password",
        RecordType::SshKey => "sshkey",
        RecordType::ApiCredential => "apicredential",
        RecordType::Mnemonic => "mnemonic",
        RecordType::PrivateKey => "privatekey",
    }
}

/// The line of one listed record: its name and type, or its identifier and
/// "unknown" where it could not be decrypted.
pub open spec fn entry_line(e: ListEntryView) -> Seq<char> {
    match e.name {
        Some(n) => "  • "@ + n + " ("@ + type_text(e.record_type) + ")"@,
        None => "  • "@ + e.id + " (unknown)"@,
    }
}

/// Whether an entry passes the filter: with a lower-case filter, only
/// decrypted records whose lower-case name contains it.
pub open spec fn passes(e: ListEntryView, filter: Option<Seq<char>>) -> bool {
    match filter {
        None => true,
        Some(f) => e.name is Some && contains_sub(lowercase(e.name->0), f),
    }
}

/// The lines of the entries that pass the filter, and their number.
pub open spec fn listed(es: Seq<ListEntryView>, filter: Option<Seq<char>>) -> (Seq<Seq<char>>, nat)
    decreases es.len(),
{
    if es.len() == 0 {
        (Seq::empty(), 0)
    } else {
        let (lines, n) = listed(es.drop_last(), filter);
        if passes(es.last(), filter) {
            (lines.push(entry_line(es.last())), n + 1)
        } else {
            (lines, n)
        }
    }
}

/// The output of /list.
pub open spec fn list_output(args: Seq<Seq<char>>, es: Seq<ListEntryView>) -> Seq<Seq<char>> {
    let filter = if args.len() > 0 {
        Some(lowercase(args[0]))
    } else {
        None
    };
    let (lines, n) = listed(es, filter);
    if n == 0 {
        seq!["📋 Password Records"@, ""@, "No records found."@] + if args.len() == 0 {
            seq!["Use /new to create a record."@]
        } else {
            seq!["No records matching '"@ + joined(args, " "@) + "'"@]
        }
    } else {
        seq!["📋 Password Records"@, ""@, "Found "@ + decimal(n) + " records:"@, ""@] + lines
    }
}

fn entry_string(e: &ListEntry) -> (r: String)
    ensures
        r@ == entry_line(e@),
{
    let mut s = String::from_str("  • ");
    match &e.name {
        Some(n) => {
            push_str(&mut s, n.as_str());
            push_str(&mut s, " (");
            push_str(&mut s, type_string(e.record_type));
            push_str(&mut s, ")");
        },
        None => {
            push_str(&mut s, e.id.as_str());
            push_str(&mut s, " (unknown)");
        },
    }
    s
}

/// Lists the records, keeping with an argument only the decrypted records
/// whose name contains it (compared in lower case).
pub fn handle_list(args: Vec<&str>, records: &[ListEntry]) -> (r: Vec<String>)
    ensures
        lines_view(r@) == list_output(strs_view(args@), records@.map_values(|e: ListEntry| e@)),
{
    let ghost av = strs_view(args@);
    let ghost es = records@.map_values(|e: ListEntry| e@);
    let filter: Option<Vec<char>> = if args.len() > 0 {
        let l = to_lowercase(args[0]);
        assert(av[0] == args@[0]@);
        Some(chars_of(l.as_str()))
    } else {
        None
    };
    let ghost fv = if args@.len() > 0 {
        Some(lowercase(av[0]))
    } else {
        None::<Seq<char>>
    };
    let mut lines: Vec<String> = Vec::new();
    let mut count: usize = 0;
    let mut i: usize = 0;
    assert(es.take(0) =~= Seq::<ListEntryView>::empty());
    assert(lines_view(lines@) =~= Seq::<Seq<char>>::empty());
    while i < records.len()
        invariant
            i <= records@.len(),
            es == records@.map_values(|e: ListEntry| e@),
            count <= i,
            match filter {
                Some(f) => fv == Some(f@),
                None => fv is None,
            },
            listed(es.take(i as int), fv) == (lines_view(lines@), count as nat),
        decreases records@.len() - i,
    {
        let e = &records[i];
        assert(es.take(i + 1).drop_last() =~= es.take(i as int));
        assert(es.take(i + 1).last() == e@);
        let keep = match &filter {
            None => true,
            Some(f) => match &e.name {
                Some(n) => {
                    let nl = to_lowercase(n.as_str());
                    let nv = chars_of(nl.as_str());
                    contains_chars(&nv, f)
                },
                None => false,
            },
        };
        if keep {
            let ghost before = lines@;
            lines.push(entry_string(e));
            assert(lines_view(lines@) =~= lines_view(before).push(entry_line(e@)));
            count = count + 1;
        }
        i = i + 1;
    }
    assert(es.take(i as int) =~= es);
    let mut out: Vec<String> = Vec::new();
    push_line(&mut out, "📋 Password Records");
    if count == 0 {
        push_line(&mut out, "");
        push_line(&mut out, "No records found.");
        if args.len() == 0 {
            push_line(&mut out, "Use /new to create a record.");
        } else {
            let j = join_strs(&args, " ");
            push_line3(&mut out, "No records matching '", j.as_str(), "'");
        }
        assert(lines_view(out@) =~= list_output(av, es));
        return out;
    }
    push_line(&mut out, "");
    let mut head = String::from_str("Found ");
    push_decimal(&mut head, count);
    push_str(&mut head, " records:");
    push_line(&mut out, head.as_str());
    push_line(&mut out, "");
    let ghost pre = lines_view(out@);
    let mut k: usize = 0;
    while k < lines.len()
        invariant
            k <= lines@.len(),
            lines_view(out@) == pre + lines_view(lines@).take(k as int),
        decreases lines@.len() - k,
    {
        let ghost before = out@;
        let h = lines[k].clone();
        assert(h@ == lines_view(lines@)[k as int]);
        out.push(h);
        assert(lines_view(out@) =~= lines_view(before).push(h@));
        assert(lines_view(lines@).take(k + 1) =~= lines_view(lines@).take(k as int).push(lines_view(lines@)[k as int]));
        k = k + 1;
    }
    assert(lines_view(lines@).take(k as int) =~= lines_view(lines@));
    assert(pre =~= seq!["📋 Password Records"@, ""@, "Found "@ + decimal(count as nat) + " records:"@, ""@]);
    assert(av.len() == args@.len());
    assert(lines_view(out@) =~= list_output(av, es));
    out
}

/// A text contains itself.
proof fn lemma_contains_self(s: Seq<char>)
    ensures
        contains_sub(s, s),
{
    let z: int = 0;
    assert(s.subrange(z, z + s.len()) =~= s);
}

/// An entry that passes the filter is listed and counted.
proof fn lemma_listed_has(es: Seq<ListEntryView>, filter: Option<Seq<char>>, k: int)
    requires
        0 <= k < es.len(),
        passes(es[k], filter),
    ensures
        listed(es, filter).1 >= 1,
        listed(es, filter).0.contains(entry_line(es[k])),
        listed(es, filter).0.len() == listed(es, filter).1,
    decreases es.len(),
{
    lemma_listed_len(es, filter);
    let pre = es.drop_last();
    if k < es.len() - 1 {
        assert(pre[k] == es[k]);
        lemma_listed_has(pre, filter, k);
        let (lines, n) = listed(pre, filter);
        let j = choose|j: int| 0 <= j < lines.len() && lines[j] == entry_line(es[k]);
        if passes(es.last(), filter) {
            assert(lines.push(entry_line(es.last()))[j] == entry_line(es[k]));
        }
    } else {
        let (lines, n) = listed(pre, filter);
        assert(lines.push(entry_line(es.last()))[lines.len() as int] == entry_line(es[k]));
    }
}

proof fn lemma_listed_len(es: Seq<ListEntryView>, filter: Option<Seq<char>>)
    ensures
        listed(es, filter).0.len() == listed(es, filter).1,
    decreases es.len(),
{
    if es.len() > 0 {
        lemma_listed_len(es.drop_last(), filter);
    }
}

/// The name filter of /list ignores case: a decrypted record whose lower-case
/// name contains the lower-case filter is listed, with a count of at least
/// one; in particular a record is always found by its own name.
pub proof fn law_list_filter_ignores_case(args: Seq<Seq<char>>, es: Seq<ListEntryView>, k: int)
    requires
        args.len() > 0,
        0 <= k < es.len(),
        es[k].name is Some,
        contains_sub(lowercase(es[k].name->0), lowercase(args[0])) || es[k].name->0 == args[0],
    ensures
        list_output(args, es).contains(entry_line(es[k])),
        exists|n: nat| n >= 1 && list_output(args, es)[2] == "Found "@ + decimal(n) + " records:"@,
{
    if es[k].name->0 == args[0] {
        lemma_contains_self(lowercase(args[0]));
    }
    let f = Some(lowercase(args[0]));
    lemma_listed_has(es, f, k);
    let (lines, n) = listed(es, f);
    let head = seq!["📋 Password Records"@, ""@, "Found "@ + decimal(n) + " records:"@, ""@];
    let out = head + lines;
    assert(out == list_output(args, es));
    let j = choose|j: int| 0 <= j < lines.len() && lines[j] == entry_line(es[k]);
    assert(out[4 + j] == entry_line(es[k]));
    assert(out[2] == "Found "@ + decimal(n) + " records:"@);
}

} // verus!
