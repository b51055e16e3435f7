//! The /search command.
use vstd::prelude::*;
use vstd::string::StringExecFns;
use crate::sync::records::strings_view;
use crate::text::{chars_of, contains_chars, contains_sub, decimal, lowercase, push_decimal, push_str, to_lowercase};
use crate::tui::commands::{join_strs, joined, lines_view, payloads_view, push_line, push_line2, push_line3, strs_view, PayloadView, RecordPayload};

verus! {

/// Whether the lower-case form of `s` contains the query `q`.
pub open spec fn matches_query(s: Seq<char>, q: Seq<char>) -> bool {
    contains_sub(lowercase(s), q)
}

/// The first tag matching the query.
pub open spec fn first_tag_match(tags: Seq<Seq<char>>, q: Seq<char>) -> Option<Seq<char>>
    decreases tags.len(),
{
    if tags.len() == 0 {
        None
    } else {
        match first_tag_match(tags.drop_last(), q) {
            Some(t) => Some(t),
            None => if matches_query(tags.last(), q) {
                Some(tags.last())
            } else {
                None
            },
        }
    }
}

/// Why a record matches the lower-case query: its name, else its user name,
/// else its URL, else its first matching tag; `None` where nothing matches.
pub open spec fn match_reason(p: PayloadView, q: Seq<char>) -> Option<Seq<char>> {
    if matches_query(p.name, q) {
        Some("name"@)
    } else if p.username is Some && matches_query(p.username->0, q) {
        Some("username"@)
    } else if p.url is Some && matches_query(p.url->0, q) {
        Some("url"@)
    } else {
        match first_tag_match(p.tags, q) {
            Some(t) => Some("tag: "@ + t),
            None => None,
        }
    }
}

/// The lines of one search hit.
pub open spec fn hit_lines(p: PayloadView, reason: Seq<char>) -> Seq<Seq<char>> {
    seq!["• "@ + p.name + " (matched by: "@ + reason + ")"@] + (match p.username {
        Some(u) => seq!["  Username: "@ + u],
        None => Seq::empty(),
    }) + (match p.url {
        Some(u) => seq!["  URL: "@ + u],
        None => Seq::empty(),
    }) + seq![""@]
}

/// The hits among the records, in order: their lines, and how many there are.
pub open spec fn search_hits(ps: Seq<PayloadView>, q: Seq<char>) -> (Seq<Seq<char>>, nat)
    decreases ps.len(),
{
    if ps.len() == 0 {
        (Seq::empty(), 0)
    } else {
        let (lines, n) = search_hits(ps.drop_last(), q);
        match match_reason(ps.last(), q) {
            Some(m) => (lines + hit_lines(ps.last(), m), n + 1),
            None => (lines, n),
        }
    }
}

/// The output of /search for a lower-case query.
pub open spec fn search_output(q: Seq<char>, ps: Seq<PayloadView>) -> Seq<Seq<char>> {
    let (lines, n) = search_hits(ps, q);
    if n == 0 {
        seq![
            "🔍 No results found for '"@ + q + "'"@,
            ""@,
            "Tips:"@,
            "  - Try a shorter query"@,
            "  - Check spelling"@,
            "  - Use /list to see all records"@,
        ]
    } else {
        seq!["🔍 Found "@ + decimal(n) + " results for '"@ + q + "':"@, ""@] + lines
    }
}

fn matches_chars(s: &str, q: &Vec<char>) -> (b: bool)
    ensures
        b == matches_query(s@, q@),
{
    let l = to_lowercase(s);
    let lv = chars_of(l.as_str());
    contains_chars(&lv, q)
}

fn first_matching_tag(tags: &Vec<String>, q: &Vec<char>) -> (r: Option<usize>)
    ensures
        r matches Some(i) ==> i < tags@.len() && first_tag_match(strings_view(tags@), q@) == Some(tags@[i as int]@),
        r is None ==> first_tag_match(strings_view(tags@), q@) is None,
{
    let ghost tv = strings_view(tags@);
    let mut i: usize = 0;
    while i < tags.len()
        invariant
            i <= tags@.len(),
            tv == strings_view(tags@),
            first_tag_match(tv.take(i as int), q@) is None,
        decreases tags@.len() - i,
    {
        assert(tv.take(i + 1).drop_last() =~= tv.take(i as int));
        assert(tv.take(i + 1).last() == tags@[i as int]@);
        if matches_chars(tags[i].as_str(), q) {
            proof {
                lemma_first_tag_at(tv, q@, i as int);
            }
            return Some(i);
        }
        i = i + 1;
    }
    assert(tv.take(i as int) =~= tv);
    None
}

proof fn lemma_first_tag_at(tags: Seq<Seq<char>>, q: Seq<char>, k: int)
    requires
        0 <= k < tags.len(),
        matches_query(tags[k], q),
        first_tag_match(tags.take(k), q) is None,
    ensures
        first_tag_match(tags, q) == Some(tags[k]),
    decreases tags.len(),
{
    if k < tags.len() - 1 {
        assert(tags.drop_last().take(k) =~= tags.take(k));
        lemma_first_tag_at(tags.drop_last(), q, k);
    } else {
        assert(tags.drop_last() =~= tags.take(k));
    }
}

fn reason_for(p: &RecordPayload, q: &Vec<char>) -> (r: Option<String>)
    ensures
        r matches Some(s) ==> match_reason(p@, q@) == Some(s@),
        r is None ==> match_reason(p@, q@) is None,
{
    if matches_chars(p.name.as_str(), q) {
        return Some(String::from_str("name"));
    }
    match &p.username {
        Some(u) => {
            if matches_chars(u.as_str(), q) {
                return Some(String::from_str("username"));
            }
        },
        None => {},
    }
    match &p.url {
        Some(u) => {
            if matches_chars(u.as_str(), q) {
                return Some(String::from_str("url"));
            }
        },
        None => {},
    }
    match first_matching_tag(&p.tags, q) {
        Some(i) => {
            let mut s = String::from_str("tag: ");
            push_str(&mut s, p.tags[i].as_str());
            Some(s)
        },
        None => None,
    }
}

/// Searches the decrypted records for the arguments joined by spaces,
/// compared in lower case, in names, user names, URLs and tags.
pub fn handle_search(args: Vec<&str>, records: &[RecordPayload]) -> (r: Vec<String>)
    ensures
        args@.len() == 0 ==> lines_view(r@) == seq!["❌ Error: Search query required"@, "Usage: /search <query>"@],
        args@.len() > 0 ==> lines_view(r@) == search_output(
            lowercase(joined(strs_view(args@), " "@)),
            payloads_view(records@),
        ),
{
    let mut out: Vec<String> = Vec::new();
    if args.len() == 0 {
        push_line(&mut out, "❌ Error: Search query required");
        push_line(&mut out, "Usage: /search <query>");
        assert(lines_view(out@) =~= seq!["❌ Error: Search query required"@, "Usage: /search <query>"@]);
        return out;
    }
    let joined_args = join_strs(&args, " ");
    let query = to_lowercase(joined_args.as_str());
    let q = chars_of(query.as_str());
    let ghost ps = payloads_view(records@);
    let mut hits: Vec<String> = Vec::new();
    let mut count: usize = 0;
    let mut i: usize = 0;
    assert(ps.take(0) =~= Seq::<PayloadView>::empty());
    assert(lines_view(hits@) =~= Seq::<Seq<char>>::empty());
    while i < records.len()
        invariant
            i <= records@.len(),
            ps == payloads_view(records@),
            count <= i,
            search_hits(ps.take(i as int), q@) == (lines_view(hits@), count as nat),
        decreases records@.len() - i,
    {
        let p = &records[i];
        assert(ps.take(i + 1).drop_last() =~= ps.take(i as int));
        assert(ps.take(i + 1).last() == p@);
        match reason_for(p, &q) {
            Some(m) => {
                let ghost before = lines_view(hits@);
                let mut head = String::from_str("• ");
                push_str(&mut head, p.name.as_str());
                push_str(&mut head, " (matched by: ");
                push_str(&mut head, m.as_str());
                push_str(&mut head, ")");
                let ghost hb = hits@;
                hits.push(head);
                assert(lines_view(hits@) =~= before.push("• "@ + p@.name + " (matched by: "@ + m@ + ")"@));
                match &p.username {
                    Some(u) => push_line2(&mut hits, "  Username: ", u.as_str()),
                    None => {},
                }
                match &p.url {
                    Some(u) => push_line2(&mut hits, "  URL: ", u.as_str()),
                    None => {},
                }
                push_line(&mut hits, "");
                assert(lines_view(hits@) =~= before + hit_lines(p@, m@));
                count = count + 1;
            },
            None => {},
        }
        i = i + 1;
    }
    assert(ps.take(i as int) =~= ps);
    if count == 0 {
        push_line3(&mut out, "🔍 No results found for '", query.as_str(), "'");
        push_line(&mut out, "");
        push_line(&mut out, "Tips:");
        push_line(&mut out, "  - Try a shorter query");
        push_line(&mut out, "  - Check spelling");
        push_line(&mut out, "  - Use /list to see all records");
        assert(lines_view(out@) =~= search_output(q@, ps));
        return out;
    }
    let mut head = String::from_str("🔍 Found ");
    push_decimal(&mut head, count);
    push_str(&mut head, " results for '");
    push_str(&mut head, query.as_str());
    push_str(&mut head, "':");
    out.push(head);
    push_line(&mut out, "");
    let ghost pre = lines_view(out@);
    let mut k: usize = 0;
    while k < hits.len()
        invariant
            k <= hits@.len(),
            lines_view(out@) == pre + lines_view(hits@).take(k as int),
        decreases hits@.len() - k,
    {
        let ghost before = out@;
        let h = hits[k].clone();
        assert(h@ == lines_view(hits@)[k as int]);
        out.push(h);
        assert(lines_view(out@) =~= lines_view(before).push(h@));
        assert(lines_view(hits@).take(k + 1) =~= lines_view(hits@).take(k as int).push(lines_view(hits@)[k as int]));
        k = k + 1;
    }
    assert(lines_view(hits@).take(k as int) =~= lines_view(hits@));
    assert(pre =~= seq!["🔍 Found "@ + decimal(count as nat) + " results for '"@ + q@ + "':"@, ""@]);
    assert(lines_view(out@) =~= search_output(q@, ps));
    out
}

/// Whether some field of `p` contains the lower-case query `q`, once
/// lower-cased: its name, its user name, its URL or one of its tags.
pub open spec fn some_field_matches(p: PayloadView, q: Seq<char>) -> bool {
    ||| contains_sub(lowercase(p.name), q)
    ||| (p.username is Some && contains_sub(lowercase(p.username->0), q))
    ||| (p.url is Some && contains_sub(lowercase(p.url->0), q))
    ||| exists|k: int| 0 <= k < p.tags.len() && contains_sub(lowercase(#[trigger] p.tags[k]), q)
}

proof fn lemma_first_tag_match(tags: Seq<Seq<char>>, q: Seq<char>)
    ensures
        first_tag_match(tags, q) is Some <==> exists|k: int| 0 <= k < tags.len() && contains_sub(lowercase(#[trigger] tags[k]), q),
    decreases tags.len(),
{
    if tags.len() > 0 {
        let pre = tags.drop_last();
        lemma_first_tag_match(pre, q);
        if exists|k: int| 0 <= k < tags.len() && contains_sub(lowercase(#[trigger] tags[k]), q) {
            let k = choose|k: int| 0 <= k < tags.len() && contains_sub(lowercase(#[trigger] tags[k]), q);
            if k < tags.len() - 1 {
                assert(pre[k] == tags[k]);
            }
        }
        if first_tag_match(pre, q) is Some {
            let k = choose|k: int| 0 <= k < pre.len() && contains_sub(lowercase(#[trigger] pre[k]), q);
            assert(tags[k] == pre[k]);
        }
    }
}

/// A record is a search hit exactly when one of its fields contains the query,
/// ignoring case; a hit on the user name whose name does not match is
/// reported as matched by user name.
pub proof fn law_search_hit(p: PayloadView, q: Seq<char>)
    ensures
        match_reason(p, q) is Some <==> some_field_matches(p, q),
        !contains_sub(lowercase(p.name), q) && p.username is Some && contains_sub(lowercase(p.username->0), q)
            ==> match_reason(p, q) == Some("username"@),
{
    lemma_first_tag_match(p.tags, q);
}

/// The search finds something exactly when some record has a field that
/// contains the query, ignoring case; the count is the number of such records.
pub proof fn law_search_count(ps: Seq<PayloadView>, q: Seq<char>)
    ensures
        search_hits(ps, q).1 == ps.filter(|p: PayloadView| some_field_matches(p, q)).len(),
        search_hits(ps, q).1 > 0 <==> exists|k: int| 0 <= k < ps.len() && some_field_matches(#[trigger] ps[k], q),
    decreases ps.len(),
{
    let f = |p: PayloadView| some_field_matches(p, q);
    if ps.len() > 0 {
        let pre = ps.drop_last();
        law_search_count(pre, q);
        law_search_hit(ps.last(), q);
        assert(ps.filter(f) == if f(ps.last()) { pre.filter(f).push(ps.last()) } else { pre.filter(f) }) by {
            assert(ps =~= pre.push(ps.last()));
            pre.lemma_filter_push(ps.last(), f);
        }
        if exists|k: int| 0 <= k < ps.len() && some_field_matches(#[trigger] ps[k], q) {
            let k = choose|k: int| 0 <= k < ps.len() && some_field_matches(#[trigger] ps[k], q);
            if k < ps.len() - 1 {
                assert(pre[k] == ps[k]);
            }
        }
        if exists|k: int| 0 <= k < pre.len() && some_field_matches(#[trigger] pre[k], q) {
            let k = choose|k: int| 0 <= k < pre.len() && some_field_matches(#[trigger] pre[k], q);
            assert(ps[k] == pre[k]);
        }
    } else {
        assert(ps.filter(f) =~= Seq::<PayloadView>::empty()) by {
            reveal(Seq::filter);
        }
    }
}

} // verus!
