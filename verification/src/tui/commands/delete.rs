//! The /delete command.
use vstd::prelude::*;
use crate::tui::commands::{lines_view, opt_text, push_line, push_line3};

verus! {

/// The confirmation prompt of /delete; `found_name` is the decrypted name of
/// the record found for the first argument, if the vault could be read and
/// held one.
pub open spec fn delete_prompt(args: Seq<Seq<char>>, found_name: Option<Seq<char>>) -> Seq<Seq<char>> {
    if args.len() == 0 {
        seq!["❌ Error: Record name required"@, "Usage: /delete <name>"@]
    } else {
        let d = match found_name {
            Some(n) => n,
            None => args[0],
        };
        seq![
            "⚠️  Delete Confirmation"@,
            ""@,
            "Are you sure you want to delete '"@ + d + "'?"@,
            ""@,
            "This action cannot be undone."@,
            ""@,
            "Type 'yes' to confirm, or anything else to cancel:"@,
            ""@,
            "(TUI: Implement confirmation dialog - requires state management)"@,
        ]
    }
}

/// Asks for confirmation before deleting the record named by the first
/// argument; where no record could be found, the given name is shown, so that
/// the prompt does not reveal whether a record exists.
pub fn handle_delete(args: Vec<&str>, found_name: Option<String>) -> (r: Vec<String>)
    ensures
        lines_view(r@) == delete_prompt(
            args@.map_values(|s: &str| s@),
            opt_text(found_name),
        ),
{
    let ghost av = args@.map_values(|s: &str| s@);
    let mut out: Vec<String> = Vec::new();
    if args.len() == 0 {
        push_line(&mut out, "❌ Error: Record name required");
        push_line(&mut out, "Usage: /delete <name>");
        assert(lines_view(out@) =~= delete_prompt(av, None));
        return out;
    }
    assert(av[0] == args@[0]@);
    let ghost fv = opt_text(found_name);
    push_line(&mut out, "⚠️  Delete Confirmation");
    push_line(&mut out, "");
    match &found_name {
        Some(n) => push_line3(&mut out, "Are you sure you want to delete '", n.as_str(), "'?"),
        None => push_line3(&mut out, "Are you sure you want to delete '", args[0], "'?"),
    }
    push_line(&mut out, "");
    push_line(&mut out, "This action cannot be undone.");
    push_line(&mut out, "");
    push_line(&mut out, "Type 'yes' to confirm, or anything else to cancel:");
    push_line(&mut out, "");
    push_line(&mut out, "(TUI: Implement confirmation dialog - requires state management)");
    assert(lines_view(out@) =~= delete_prompt(av, fv));
    out
}

/// The outcome of deleting the record named `name`: `found` says whether the
/// vault held such a record, which has then been deleted.
pub fn execute_delete(name: &str, found: bool) -> (r: Vec<String>)
    ensures
        found ==> lines_view(r@) == seq!["✅ Record '"@ + name@ + "' deleted successfully"@, ""@],
        !found ==> lines_view(r@) == seq!["❌ Record '"@ + name@ + "' not found"@],
{
    let mut out: Vec<String> = Vec::new();
    if found {
        push_line3(&mut out, "✅ Record '", name, "' deleted successfully");
        push_line(&mut out, "");
    } else {
        push_line3(&mut out, "❌ Record '", name, "' not found");
    }
    assert(found ==> lines_view(out@) =~= seq!["✅ Record '"@ + name@ + "' deleted successfully"@, ""@]);
    assert(!found ==> lines_view(out@) =~= seq!["❌ Record '"@ + name@ + "' not found"@]);
    out
}

} // verus!
