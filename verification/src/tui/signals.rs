//! Signals that components send to the application through toast messages,
//! and the notifications the application shows once it has acted on them or
//! on a confirmed dialog.
//!
//! A toast message that starts with `__` asks the application to change the
//! vault; [`parse_toast_signal`] reads it. The application carries it out and
//! passes the outcome to [`signal_notification`] or
//! [`confirmed_action_notification`] for the notification to show.
use vstd::prelude::*;
use vstd::string::StringExecFns;
use crate::text::{chars_of, decimal, has_prefix, push_str, starts_with, str_eq, string_from_chars};
use crate::tui::traits::ConfirmAction;

verus! {

/// How a notification is shown.
#[derive(Debug, Clone, Copy, PartialEq, Eq, Structural)]
pub enum NotificationLevel {
    Info,
    Success,
    Warning,
    Error,
}

/// A notification to show.
#[derive(Debug)]
pub struct Notification {
    pub level: NotificationLevel,
    pub message: String,
}

/// What a toast message asks of the application.
#[derive(Debug)]
pub enum ToastSignal {
    /// Create a group with this name.
    CreateGroup(String),
    /// Rename the group with this identifier.
    RenameGroup { id: String, name: String },
    /// Move a password into a group, or out of every group.
    MovePassword { password_id: String, group_id: Option<String> },
    /// Let the user pick the group of the highlighted password.
    ShowGroupPicker,
    /// A rename or move signal without its separator; nothing happens.
    Malformed,
    /// Not a signal: show the message as it is.
    Notify(String),
}

/// Model of a toast signal.
pub enum ToastSignalView {
    CreateGroup(Seq<char>),
    RenameGroup(Seq<char>, Seq<char>),
    MovePassword(Seq<char>, Option<Seq<char>>),
    ShowGroupPicker,
    Malformed,
    Notify(Seq<char>),
}

impl View for ToastSignal {
    type V = ToastSignalView;

    open spec fn view(&self) -> ToastSignalView {
        match self {
            ToastSignal::CreateGroup(n) => ToastSignalView::CreateGroup(n@),
            ToastSignal::RenameGroup { id, name } => ToastSignalView::RenameGroup(id@, name@),
            ToastSignal::MovePassword { password_id, group_id } => ToastSignalView::MovePassword(
                password_id@,
                match group_id {
                    Some(g) => Some(g@),
                    None => None,
                },
            ),
            ToastSignal::ShowGroupPicker => ToastSignalView::ShowGroupPicker,
            ToastSignal::Malformed => ToastSignalView::Malformed,
            ToastSignal::Notify(m) => ToastSignalView::Notify(m@),
        }
    }
}

/// Index of the first `:` in `s`.
pub open spec fn first_colon(s: Seq<char>) -> Option<int>
    decreases s.len(),
{
    if s.len() == 0 {
        None
    } else {
        match first_colon(s.drop_last()) {
            Some(i) => Some(i),
            None => if s.last() == ':' {
                Some(s.len() - 1)
            } else {
                None
            },
        }
    }
}

/// What a toast message asks for: `__create_group:<name>`,
/// `__rename_group:<id>:<name>`, `__move_password:<id>:<group>` (an empty
/// group means none) and `__show_group_picker` are signals, split at the
/// first `:` after the prefix; anything else is a message to show.
pub open spec fn toast_signal(m: Seq<char>) -> ToastSignalView {
    let create = "__create_group:"@;
    let rename = "__rename_group:"@;
    let move_to = "__move_password:"@;
    if starts_with(m, create) {
        ToastSignalView::CreateGroup(m.skip(create.len() as int))
    } else if starts_with(m, rename) {
        let rest = m.skip(rename.len() as int);
        match first_colon(rest) {
            Some(i) => ToastSignalView::RenameGroup(rest.take(i), rest.skip(i + 1)),
            None => ToastSignalView::Malformed,
        }
    } else if starts_with(m, move_to) {
        let rest = m.skip(move_to.len() as int);
        match first_colon(rest) {
            Some(i) => ToastSignalView::MovePassword(
                rest.take(i),
                if rest.skip(i + 1).len() == 0 {
                    None
                } else {
                    Some(rest.skip(i + 1))
                },
            ),
            None => ToastSignalView::Malformed,
        }
    } else if m == "__show_group_picker"@ {
        ToastSignalView::ShowGroupPicker
    } else {
        ToastSignalView::Notify(m)
    }
}

fn slice_chars(v: &Vec<char>, from: usize, to: usize) -> (r: String)
    requires
        from <= to <= v@.len(),
    ensures
        r@ == v@.subrange(from as int, to as int),
{
    let mut out: Vec<char> = Vec::new();
    let mut i: usize = from;
    while i < to
        invariant
            from <= i <= to <= v@.len(),
            out@ == v@.subrange(from as int, i as int),
        decreases to - i,
    {
        out.push(v[i]);
        i = i + 1;
        assert(out@ =~= v@.subrange(from as int, i as int));
    }
    string_from_chars(&out)
}

proof fn lemma_first_colon_at(s: Seq<char>, k: int)
    requires
        0 <= k < s.len(),
        s[k] == ':',
        first_colon(s.take(k)) is None,
    ensures
        first_colon(s) == Some(k),
    decreases s.len(),
{
    if k < s.len() - 1 {
        assert(s.drop_last().take(k) =~= s.take(k));
        lemma_first_colon_at(s.drop_last(), k);
    } else {
        assert(s.drop_last() =~= s.take(k));
    }
}

/// Index of the first `:` at or after `from`, as an index of `v`.
fn colon_after(v: &Vec<char>, from: usize) -> (r: Option<usize>)
    requires
        from <= v@.len(),
    ensures
        r is None ==> first_colon(v@.skip(from as int)) is None,
        r is Some ==> from <= r->0 < v@.len() && first_colon(v@.skip(from as int)) == Some(r->0 - from),
{
    let ghost rest = v@.skip(from as int);
    let mut i: usize = from;
    while i < v.len() && v[i] != ':'
        invariant
            from <= i <= v@.len(),
            rest == v@.skip(from as int),
            first_colon(rest.take(i - from)) is None,
        decreases v@.len() - i,
    {
        assert(rest.take(i + 1 - from).drop_last() =~= rest.take(i - from));
        assert(rest.take(i + 1 - from).last() == v@[i as int]);
        i = i + 1;
    }
    if i == v.len() {
        assert(rest.take(i - from) =~= rest);
        None
    } else {
        proof {
            lemma_first_colon_at(rest, i - from);
        }
        Some(i)
    }
}

/// Reads a toast message, as [`toast_signal`] says.
pub fn parse_toast_signal(message: &str) -> (r: ToastSignal)
    ensures
        r@ == toast_signal(message@),
{
    let m = chars_of(message);
    let n = m.len();
    let create = chars_of("__create_group:");
    let rename = chars_of("__rename_group:");
    let move_to = chars_of("__move_password:");
    if has_prefix(&m, &create) {
        return ToastSignal::CreateGroup(slice_chars(&m, create.len(), m.len()));
    }
    if has_prefix(&m, &rename) {
        let from = rename.len();
        assert(m@.skip(from as int) =~= m@.subrange(from as int, m@.len() as int));
        return match colon_after(&m, from) {
            Some(i) => {
                assert(i < m@.len());
                let id = slice_chars(&m, from, i);
                let name = slice_chars(&m, i + 1, n);
                assert(id@ =~= m@.skip(from as int).take(i - from));
                assert(name@ =~= m@.skip(from as int).skip(i - from + 1));
                ToastSignal::RenameGroup { id, name }
            },
            None => ToastSignal::Malformed,
        };
    }
    if has_prefix(&m, &move_to) {
        let from = move_to.len();
        return match colon_after(&m, from) {
            Some(i) => {
                assert(i < m@.len());
                let id = slice_chars(&m, from, i);
                assert(id@ =~= m@.skip(from as int).take(i - from));
                let ghost tail = m@.skip(from as int).skip(i - from + 1);
                if i + 1 == n {
                    assert(tail.len() == 0);
                    ToastSignal::MovePassword { password_id: id, group_id: None }
                } else {
                    let g = slice_chars(&m, i + 1, n);
                    assert(g@ =~= tail);
                    ToastSignal::MovePassword { password_id: id, group_id: Some(g) }
                }
            },
            None => ToastSignal::Malformed,
        };
    }
    if str_eq(message, "__show_group_picker") {
        return ToastSignal::ShowGroupPicker;
    }
    ToastSignal::Notify(String::from_str(message))
}

/// What came of a change the application asked the vault's store for.
#[derive(Debug)]
pub enum StoreOutcome {
    /// Done; for a new group, the name the store gave it.
    Done(String),
    /// The store refused, with the reason.
    Failed(String),
    /// The store could not be locked for the change.
    Locked,
    /// No store is open.
    Unavailable,
}

/// Model of a notification.
pub struct NotificationView {
    pub level: NotificationLevel,
    pub message: Seq<char>,
}

/// The notification after a store change: success with `done`, failure with
/// the reason after `failed`, or that the store was locked; none without a
/// store.
pub open spec fn store_notification(o: StoreOutcome, done: Seq<char>, failed: Seq<char>) -> Option<NotificationView> {
    match o {
        StoreOutcome::Done(_) => Some(NotificationView { level: NotificationLevel::Success, message: done }),
        StoreOutcome::Failed(e) => Some(NotificationView { level: NotificationLevel::Error, message: failed + e@ }),
        StoreOutcome::Locked => Some(NotificationView { level: NotificationLevel::Error, message: "Database locked"@ }),
        StoreOutcome::Unavailable => None,
    }
}

/// The notification after a signal was acted on: for a new group its name,
/// for a rename or a move that it happened, with the reason on failure; a
/// plain message is shown as information; the other signals show nothing.
pub open spec fn signal_notification_of(s: ToastSignalView, o: StoreOutcome) -> Option<NotificationView> {
    match s {
        ToastSignalView::CreateGroup(_) => store_notification(
            o,
            match o {
                StoreOutcome::Done(n) => "Group '"@ + n@ + "' created"@,
                _ => Seq::empty(),
            },
            "Failed to create group: "@,
        ),
        ToastSignalView::RenameGroup(_, _) => store_notification(o, "Group renamed"@, "Failed to rename: "@),
        ToastSignalView::MovePassword(_, _) => store_notification(o, "Password moved"@, "Failed to move: "@),
        ToastSignalView::Notify(m) => Some(NotificationView { level: NotificationLevel::Info, message: m }),
        _ => None,
    }
}

/// Model of an optional notification.
pub open spec fn notification_view(n: Option<Notification>) -> Option<NotificationView> {
    match n {
        Some(x) => Some(NotificationView { level: x.level, message: x.message@ }),
        None => None,
    }
}

fn note(level: NotificationLevel, message: String) -> (r: Option<Notification>)
    ensures
        notification_view(r) == Some(NotificationView { level, message: message@ }),
{
    Some(Notification { level, message })
}

fn store_note(o: StoreOutcome, done: String, failed: &str) -> (r: Option<Notification>)
    ensures
        notification_view(r) == store_notification(o, done@, failed@),
{
    match o {
        StoreOutcome::Done(_) => note(NotificationLevel::Success, done),
        StoreOutcome::Failed(e) => {
            let mut s = String::from_str(failed);
            push_str(&mut s, e.as_str());
            note(NotificationLevel::Error, s)
        },
        StoreOutcome::Locked => note(NotificationLevel::Error, String::from_str("Database locked")),
        StoreOutcome::Unavailable => None,
    }
}

/// The notification to show after acting on a signal, as
/// [`signal_notification_of`] says.
pub fn signal_notification(signal: &ToastSignal, outcome: StoreOutcome) -> (r: Option<Notification>)
    ensures
        notification_view(r) == signal_notification_of(signal@, outcome),
{
    match signal {
        ToastSignal::CreateGroup(_) => {
            let done = match &outcome {
                StoreOutcome::Done(n) => {
                    let mut s = String::from_str("Group '");
                    push_str(&mut s, n.as_str());
                    push_str(&mut s, "' created");
                    s
                },
                _ => String::new(),
            };
            store_note(outcome, done, "Failed to create group: ")
        },
        ToastSignal::RenameGroup { .. } => store_note(outcome, String::from_str("Group renamed"), "Failed to rename: "),
        ToastSignal::MovePassword { .. } => store_note(outcome, String::from_str("Password moved"), "Failed to move: "),
        ToastSignal::Notify(m) => note(NotificationLevel::Info, m.clone()),
        _ => None,
    }
}

/// What came of a confirmed action.
#[derive(Debug)]
pub enum ConfirmedOutcome {
    /// The store did (`true`) or did not do what was confirmed; for a
    /// permanent deletion, the name of the password where it is known.
    Deleted { done: bool, known_name: Option<String> },
    /// The number of passwords removed when the trash was emptied.
    TrashEmptied(u64),
    /// The outcome of deleting a group.
    Group(StoreOutcome),
}

/// The notification after a confirmed action.
pub open spec fn confirmed_notification(a: ConfirmAction, o: ConfirmedOutcome) -> Option<NotificationView> {
    match (a, o) {
        (ConfirmAction::DeletePassword { password_name, .. }, ConfirmedOutcome::Deleted { done, .. }) => if done {
            Some(NotificationView { level: NotificationLevel::Success, message: "\""@ + password_name@ + "\" moved to trash"@ })
        } else {
            Some(NotificationView { level: NotificationLevel::Error, message: "Failed to delete \""@ + password_name@ + "\""@ })
        },
        (ConfirmAction::PermanentDelete(id), ConfirmedOutcome::Deleted { done, known_name }) => if done {
            Some(NotificationView {
                level: NotificationLevel::Success,
                message: "\""@ + match known_name {
                    Some(n) => n@,
                    None => id@,
                } + "\" permanently deleted"@,
            })
        } else {
            None
        },
        (ConfirmAction::EmptyTrash, ConfirmedOutcome::TrashEmptied(n)) => Some(NotificationView {
            level: NotificationLevel::Success,
            message: "Trash emptied ("@ + decimal(n as nat) + " deleted)"@,
        }),
        (ConfirmAction::DeleteGroup { group_name, .. }, ConfirmedOutcome::Group(g)) => store_notification(
            g,
            "Group '"@ + group_name@ + "' deleted"@,
            "Failed to delete group: "@,
        ),
        _ => None,
    }
}

/// The notification to show after a confirmed action, as
/// [`confirmed_notification`] says; none where the outcome does not belong
/// to the action.
pub fn confirmed_action_notification(action: &ConfirmAction, outcome: ConfirmedOutcome) -> (r: Option<Notification>)
    ensures
        notification_view(r) == confirmed_notification(*action, outcome),
{
    match (action, outcome) {
        (ConfirmAction::DeletePassword { password_name, .. }, ConfirmedOutcome::Deleted { done, .. }) => {
            if done {
                let mut s = String::from_str("\"");
                push_str(&mut s, password_name.as_str());
                push_str(&mut s, "\" moved to trash");
                note(NotificationLevel::Success, s)
            } else {
                let mut s = String::from_str("Failed to delete \"");
                push_str(&mut s, password_name.as_str());
                push_str(&mut s, "\"");
                note(NotificationLevel::Error, s)
            }
        },
        (ConfirmAction::PermanentDelete(id), ConfirmedOutcome::Deleted { done, known_name }) => {
            if done {
                let mut s = String::from_str("\"");
                match &known_name {
                    Some(n) => push_str(&mut s, n.as_str()),
                    None => push_str(&mut s, id.as_str()),
                }
                push_str(&mut s, "\" permanently deleted");
                note(NotificationLevel::Success, s)
            } else {
                None
            }
        },
        (ConfirmAction::EmptyTrash, ConfirmedOutcome::TrashEmptied(n)) => {
            let mut s = String::from_str("Trash emptied (");
            crate::text::push_decimal_u64(&mut s, n);
            push_str(&mut s, " deleted)");
            note(NotificationLevel::Success, s)
        },
        (ConfirmAction::DeleteGroup { group_name, .. }, ConfirmedOutcome::Group(g)) => {
            let mut done = String::from_str("Group '");
            push_str(&mut done, group_name.as_str());
            push_str(&mut done, "' deleted");
            store_note(g, done, "Failed to delete group: ")
        },
        _ => None,
    }
}

/// What is copied to the clipboard.
#[derive(Debug, Clone, Copy, PartialEq, Eq, Structural)]
pub enum CopyTarget {
    Password,
    Username,
    Other,
}

/// What came of putting text on the system clipboard.
#[derive(Debug)]
pub enum ClipboardOutcome {
    /// The text is on the clipboard.
    Copied,
    /// The clipboard refused the text, with the reason.
    CopyFailed(String),
    /// No clipboard could be opened, with the reason.
    Unavailable(String),
}

/// The notification after the detail panel copied a password or a username.
pub open spec fn detail_copy_notification(target: CopyTarget, o: ClipboardOutcome) -> NotificationView {
    match o {
        ClipboardOutcome::Copied => NotificationView {
            level: NotificationLevel::Info,
            message: if target == CopyTarget::Username {
                "Username copied to clipboard"@
            } else {
                "Password copied to clipboard (30s)"@
            },
        },
        ClipboardOutcome::CopyFailed(e) => NotificationView {
            level: NotificationLevel::Error,
            message: (if target == CopyTarget::Username {
                "Failed to copy username: "@
            } else {
                "Failed to copy password: "@
            }) + e@,
        },
        ClipboardOutcome::Unavailable(e) => NotificationView {
            level: NotificationLevel::Warning,
            message: "Clipboard not available: "@ + e@,
        },
    }
}

/// The notification after the detail panel copied a password or a username,
/// as [`detail_copy_notification`] says.
pub fn copy_notification(target: CopyTarget, outcome: ClipboardOutcome) -> (r: Notification)
    ensures
        notification_view(Some(r)) == Some(detail_copy_notification(target, outcome)),
{
    match outcome {
        ClipboardOutcome::Copied => {
            let m = if target == CopyTarget::Username {
                "Username copied to clipboard"
            } else {
                "Password copied to clipboard (30s)"
            };
            Notification { level: NotificationLevel::Info, message: String::from_str(m) }
        },
        ClipboardOutcome::CopyFailed(e) => {
            let mut m = if target == CopyTarget::Username {
                String::from_str("Failed to copy username: ")
            } else {
                String::from_str("Failed to copy password: ")
            };
            push_str(&mut m, e.as_str());
            Notification { level: NotificationLevel::Error, message: m }
        },
        ClipboardOutcome::Unavailable(e) => {
            let mut m = String::from_str("Clipboard not available: ");
            push_str(&mut m, e.as_str());
            Notification { level: NotificationLevel::Warning, message: m }
        },
    }
}

/// What the detail panel shows when the selected password has no username.
pub fn no_username_notification() -> (r: Notification)
    ensures
        r.level == NotificationLevel::Warning,
        r.message@ == "No username to copy"@,
{
    Notification { level: NotificationLevel::Warning, message: String::from_str("No username to copy") }
}

/// The notification after the application copied text for a screen: the
/// kind of text and when the clipboard clears; the error where copying
/// failed; a warning without a clipboard service (`None`).
pub open spec fn app_copy_notification(target: CopyTarget, timeout_secs: u64, o: Option<Result<(), Seq<char>>>) -> NotificationView {
    match o {
        Some(Ok(())) => NotificationView {
            level: NotificationLevel::Success,
            message: (match target {
                CopyTarget::Password => "Password copied"@,
                CopyTarget::Username => "Username copied"@,
                CopyTarget::Other => "Copied"@,
            }) + " (clears in "@ + decimal(timeout_secs as nat) + "s)"@,
        },
        Some(Err(e)) => NotificationView { level: NotificationLevel::Error, message: "Clipboard error: "@ + e },
        None => NotificationView { level: NotificationLevel::Warning, message: "Clipboard not available"@ },
    }
}

/// The notification after the application copied text for a screen, as
/// [`app_copy_notification`] says.
pub fn clipboard_copy_notification(target: CopyTarget, timeout_secs: u64, outcome: Option<Result<(), String>>) -> (r:
    Notification)
    ensures
        notification_view(Some(r)) == Some(
            app_copy_notification(
                target,
                timeout_secs,
                match outcome {
                    Some(Ok(())) => Some(Ok(())),
                    Some(Err(e)) => Some(Err(e@)),
                    None => None,
                },
            ),
        ),
{
    match outcome {
        Some(Ok(())) => {
            let mut m = match target {
                CopyTarget::Password => String::from_str("Password copied"),
                CopyTarget::Username => String::from_str("Username copied"),
                CopyTarget::Other => String::from_str("Copied"),
            };
            push_str(&mut m, " (clears in ");
            crate::text::push_decimal_u64(&mut m, timeout_secs);
            push_str(&mut m, "s)");
            Notification { level: NotificationLevel::Success, message: m }
        },
        Some(Err(e)) => {
            let mut m = String::from_str("Clipboard error: ");
            push_str(&mut m, e.as_str());
            Notification { level: NotificationLevel::Error, message: m }
        },
        None => Notification { level: NotificationLevel::Warning, message: String::from_str("Clipboard not available") },
    }
}

/// Whether a password form created a new password or edited one.
#[derive(Debug, Clone, Copy, PartialEq, Eq, Structural)]
pub enum PasswordFormKind {
    New,
    Edit,
}

/// The notification after a password form was closed and its record saved
/// (`saved`) or not.
pub open spec fn form_saved_notification(kind: PasswordFormKind, name: Seq<char>, saved: bool) -> NotificationView {
    if saved {
        NotificationView {
            level: NotificationLevel::Success,
            message: "Password '"@ + name + (if kind == PasswordFormKind::New {
                "' created"@
            } else {
                "' updated"@
            }),
        }
    } else {
        NotificationView {
            level: NotificationLevel::Error,
            message: (if kind == PasswordFormKind::New {
                "Failed to save password '"@
            } else {
                "Failed to update password '"@
            }) + name + "'"@,
        }
    }
}

/// The notification after a password form was saved or not, as
/// [`form_saved_notification`] says.
pub fn password_saved_notification(kind: PasswordFormKind, name: &str, saved: bool) -> (r: Notification)
    ensures
        notification_view(Some(r)) == Some(form_saved_notification(kind, name@, saved)),
{
    if saved {
        let mut m = String::from_str("Password '");
        push_str(&mut m, name);
        if kind == PasswordFormKind::New {
            push_str(&mut m, "' created");
        } else {
            push_str(&mut m, "' updated");
        }
        Notification { level: NotificationLevel::Success, message: m }
    } else {
        let mut m = if kind == PasswordFormKind::New {
            String::from_str("Failed to save password '")
        } else {
            String::from_str("Failed to update password '")
        };
        push_str(&mut m, name);
        push_str(&mut m, "'");
        Notification { level: NotificationLevel::Error, message: m }
    }
}

proof fn lemma_first_colon_none(s: Seq<char>)
    requires
        !s.contains(':'),
    ensures
        first_colon(s) is None,
    decreases s.len(),
{
    if s.len() > 0 {
        assert(!s.drop_last().contains(':')) by {
            if s.drop_last().contains(':') {
                let k = choose|k: int| 0 <= k < s.drop_last().len() && s.drop_last()[k] == ':';
                assert(s[k] == ':');
            }
        }
        lemma_first_colon_none(s.drop_last());
        assert(s.last() != ':') by {
            if s.last() == ':' {
                assert(s[s.len() - 1] == ':');
            }
        }
    }
}

proof fn lemma_first_colon_after(a: Seq<char>, b: Seq<char>)
    requires
        !a.contains(':'),
    ensures
        first_colon(a + seq![':'] + b) == Some(a.len() as int),
{
    let s = a + seq![':'] + b;
    lemma_first_colon_none(a);
    assert(s.take(a.len() as int) =~= a);
    assert(s[a.len() as int] == ':');
    lemma_first_colon_at(s, a.len() as int);
}

/// The group-creation signal the tree panel sends is read back as a request
/// to create a group with the typed name, whatever the name holds.
pub proof fn law_create_signal_read_back(name: Seq<char>)
    ensures
        toast_signal("__create_group:"@ + name) == ToastSignalView::CreateGroup(name),
{
    reveal_strlit("__create_group:");
    let m = "__create_group:"@ + name;
    assert(m.take("__create_group:"@.len() as int) =~= "__create_group:"@);
    assert(m.skip("__create_group:"@.len() as int) =~= name);
}

/// The group-rename signal the tree panel sends is read back as a request to
/// rename that group to the typed name, for a group identifier without a
/// colon (as a UUID's text is), whatever the name holds.
pub proof fn law_rename_signal_read_back(id: Seq<char>, name: Seq<char>)
    requires
        !id.contains(':'),
    ensures
        toast_signal("__rename_group:"@ + id + ":"@ + name) == ToastSignalView::RenameGroup(id, name),
{
    reveal_strlit("__rename_group:");
    reveal_strlit("__create_group:");
    reveal_strlit(":");
    let pre = "__rename_group:"@;
    let m = pre + id + ":"@ + name;
    assert(m.take(pre.len() as int) =~= pre);
    assert(!starts_with(m, "__create_group:"@)) by {
        assert(m[2] == 'r');
        assert("__create_group:"@[2] == 'c');
    }
    let rest = m.skip(pre.len() as int);
    assert(rest =~= id + seq![':'] + name);
    lemma_first_colon_after(id, name);
    assert(rest.take(id.len() as int) =~= id);
    assert(rest.skip(id.len() as int + 1) =~= name);
}

} // verus!
