//! Modal dialog that asks the user to confirm an action.
use vstd::prelude::*;
use vstd::string::StringExecFns;
use crate::text::{decimal, push_decimal, push_str};
use crate::tui::app_types::TuiResult;
use crate::tui::traits::{Action, ComponentId, ConfirmAction, HandleResult, KeyCode, KeyEvent, KeyEventKind};

verus! {

/// Model of a confirmation dialog.
pub struct ConfirmDialogView {
    pub id: ComponentId,
    pub title: Seq<char>,
    pub message: Seq<char>,
    pub details: Option<Seq<char>>,
    pub confirm_label: Seq<char>,
    pub cancel_label: Seq<char>,
    pub focused_on_confirm: bool,
    pub action: ConfirmAction,
    pub visible: bool,
}

/// Modal dialog with a confirm and a cancel button.
pub struct ConfirmDialog {
    id: ComponentId,
    title: String,
    message: String,
    details: Option<String>,
    confirm_label: String,
    cancel_label: String,
    focused_on_confirm: bool,
    action: ConfirmAction,
    visible: bool,
}

/// The result of a key press in a dialog whose focus is `focused` and whose action is `action`.
pub open spec fn dialog_key_result(focused: bool, action: ConfirmAction, code: KeyCode) -> HandleResult {
    match code {
        KeyCode::Tab | KeyCode::Left | KeyCode::Right => HandleResult::Consumed,
        KeyCode::Enter => if focused {
            HandleResult::Action(Action::ConfirmDialog(action))
        } else {
            HandleResult::Action(Action::CloseScreen)
        },
        KeyCode::Esc => HandleResult::Action(Action::CloseScreen),
        KeyCode::Char(c) => if c == 'y' || c == 'Y' {
            HandleResult::Action(Action::ConfirmDialog(action))
        } else if c == 'n' || c == 'N' {
            HandleResult::Action(Action::CloseScreen)
        } else {
            HandleResult::Ignored
        },
        _ => HandleResult::Ignored,
    }
}

/// Whether a key press of `code` moves the focus to the other button.
pub open spec fn dialog_key_toggles(code: KeyCode) -> bool {
    code == KeyCode::Tab || code == KeyCode::Left || code == KeyCode::Right
}

/// The dialog after a key press of `code`: focus keys move the focus, other keys change nothing.
pub open spec fn dialog_after_key(v: ConfirmDialogView, code: KeyCode) -> ConfirmDialogView {
    if dialog_key_toggles(code) {
        ConfirmDialogView { focused_on_confirm: !v.focused_on_confirm, ..v }
    } else {
        v
    }
}

/// Model of an optional string.
pub open spec fn opt_str_view(o: Option<String>) -> Option<Seq<char>> {
    match o {
        Some(s) => Some(s@),
        None => None,
    }
}

impl View for ConfirmDialog {
    type V = ConfirmDialogView;

    closed spec fn view(&self) -> ConfirmDialogView {
        ConfirmDialogView {
            id: self.id,
            title: self.title@,
            message: self.message@,
            details: opt_str_view(self.details),
            confirm_label: self.confirm_label@,
            cancel_label: self.cancel_label@,
            focused_on_confirm: self.focused_on_confirm,
            action: self.action,
            visible: self.visible,
        }
    }
}

impl ConfirmDialog {
    /// A hidden dialog titled "Confirm" with no message, for a generic action.
    pub fn new() -> (r: Self)
        ensures
            r@ == (ConfirmDialogView {
                id: r@.id,
                title: "Confirm"@,
                message: Seq::empty(),
                details: None,
                confirm_label: "Confirm"@,
                cancel_label: "Cancel"@,
                focused_on_confirm: false,
                action: ConfirmAction::Generic,
                visible: false,
            }),
            r@.id.spec_value() == 0,
    {
        ConfirmDialog {
            id: ComponentId::new(0),
            title: String::from_str("Confirm"),
            message: String::new(),
            details: None,
            confirm_label: String::from_str("Confirm"),
            cancel_label: String::from_str("Cancel"),
            focused_on_confirm: false,
            action: ConfirmAction::Generic,
            visible: false,
        }
    }

    /// A visible dialog asking to move a password to the trash.
    pub fn delete_confirmation(password_name: &str, password_id: &str) -> (r: Self)
        ensures
            r@ == (ConfirmDialogView {
                id: r@.id,
                title: "⚠️  Confirm Delete"@,
                message: "Move \""@ + password_name@ + "\" to trash?"@,
                details: Some("This password will be permanently deleted after 30 days."@),
                confirm_label: "Delete"@,
                cancel_label: "Cancel"@,
                focused_on_confirm: false,
                action: ConfirmAction::DeletePassword { password_id: r@.action->password_id, password_name: r@.action->password_name },
                visible: true,
            }),
            r@.id.spec_value() == 0,
            r@.action matches ConfirmAction::DeletePassword { password_id: i, password_name: n } && i@ == password_id@
                && n@ == password_name@,
    {
        let mut message = String::from_str("Move \"");
        push_str(&mut message, password_name);
        push_str(&mut message, "\" to trash?");
        ConfirmDialog {
            id: ComponentId::new(0),
            title: String::from_str("⚠️  Confirm Delete"),
            message,
            details: Some(String::from_str("This password will be permanently deleted after 30 days.")),
            confirm_label: String::from_str("Delete"),
            cancel_label: String::from_str("Cancel"),
            focused_on_confirm: false,
            action: ConfirmAction::DeletePassword {
                password_id: String::from_str(password_id),
                password_name: String::from_str(password_name),
            },
            visible: true,
        }
    }

    /// A visible dialog asking to delete a password for good.
    pub fn permanent_delete_confirmation(password_name: &str, password_id: &str) -> (r: Self)
        ensures
            r@ == (ConfirmDialogView {
                id: r@.id,
                title: "⚠️  Permanent Delete"@,
                message: "Permanently delete \""@ + password_name@ + "\"?"@,
                details: Some("This action cannot be undone!"@),
                confirm_label: "Delete Forever"@,
                cancel_label: "Cancel"@,
                focused_on_confirm: false,
                action: r@.action,
                visible: true,
            }),
            r@.id.spec_value() == 0,
            r@.action matches ConfirmAction::PermanentDelete(i) && i@ == password_id@,
    {
        let mut message = String::from_str("Permanently delete \"");
        push_str(&mut message, password_name);
        push_str(&mut message, "\"?");
        ConfirmDialog {
            id: ComponentId::new(0),
            title: String::from_str("⚠️  Permanent Delete"),
            message,
            details: Some(String::from_str("This action cannot be undone!")),
            confirm_label: String::from_str("Delete Forever"),
            cancel_label: String::from_str("Cancel"),
            focused_on_confirm: false,
            action: ConfirmAction::PermanentDelete(String::from_str(password_id)),
            visible: true,
        }
    }

    /// A visible dialog asking to empty the trash of `count` items.
    pub fn empty_trash_confirmation(count: usize) -> (r: Self)
        ensures
            r@ == (ConfirmDialogView {
                id: r@.id,
                title: "⚠️  Empty Trash"@,
                message: "Permanently delete "@ + decimal(count as nat) + " item(s)?"@,
                details: Some("This action cannot be undone!"@),
                confirm_label: "Empty Trash"@,
                cancel_label: "Cancel"@,
                focused_on_confirm: false,
                action: ConfirmAction::EmptyTrash,
                visible: true,
            }),
            r@.id.spec_value() == 0,
    {
        let mut message = String::from_str("Permanently delete ");
        push_decimal(&mut message, count);
        push_str(&mut message, " item(s)?");
        ConfirmDialog {
            id: ComponentId::new(0),
            title: String::from_str("⚠️  Empty Trash"),
            message,
            details: Some(String::from_str("This action cannot be undone!")),
            confirm_label: String::from_str("Empty Trash"),
            cancel_label: String::from_str("Cancel"),
            focused_on_confirm: false,
            action: ConfirmAction::EmptyTrash,
            visible: true,
        }
    }

    /// Sets the component identifier.
    pub fn with_id(self, id: ComponentId) -> (r: Self)
        ensures
            r@ == (ConfirmDialogView { id, ..self@ }),
    {
        let mut s = self;
        s.id = id;
        s
    }

    /// Whether the dialog is shown.
    pub fn is_visible(&self) -> (b: bool)
        ensures
            b == self@.visible,
    {
        self.visible
    }

    /// Shows the dialog.
    pub fn show(&mut self)
        ensures
            final(self)@ == (ConfirmDialogView { visible: true, ..old(self)@ }),
    {
        self.visible = true;
    }

    /// Hides the dialog.
    pub fn hide_dialog(&mut self)
        ensures
            final(self)@ == (ConfirmDialogView { visible: false, ..old(self)@ }),
    {
        self.visible = false;
    }

    /// The action to perform on confirmation.
    pub fn action(&self) -> (r: &ConfirmAction)
        ensures
            *r == self@.action,
    {
        &self.action
    }

    /// The dialog title.
    pub fn title(&self) -> (r: &str)
        ensures
            r@ == self@.title,
    {
        self.title.as_str()
    }

    /// The main message.
    pub fn message(&self) -> (r: &str)
        ensures
            r@ == self@.message,
    {
        self.message.as_str()
    }

    /// Whether the confirm button has the focus.
    pub fn is_confirm_focused(&self) -> (b: bool)
        ensures
            b == self@.focused_on_confirm,
    {
        self.focused_on_confirm
    }

    /// Moves the focus to the other button.
    pub fn toggle_focus(&mut self)
        ensures
            final(self)@ == (ConfirmDialogView { focused_on_confirm: !old(self)@.focused_on_confirm, ..old(self)@ }),
    {
        self.focused_on_confirm = !self.focused_on_confirm;
    }

    /// Whether the user chose to confirm: the confirm button has the focus.
    pub fn is_confirmed(&self) -> (b: bool)
        ensures
            b == self@.focused_on_confirm,
    {
        self.focused_on_confirm
    }

    /// Handles a key: Tab, Left and Right move the focus; Enter confirms or
    /// cancels after the focused button; Esc, n and N cancel; y and Y confirm.
    pub fn handle_key(&mut self, key: KeyEvent) -> (r: HandleResult)
        ensures
            key.kind == KeyEventKind::Release ==> r is Ignored && final(self)@ == old(self)@,
            key.kind != KeyEventKind::Release ==> {
                &&& r == dialog_key_result(old(self)@.focused_on_confirm, old(self)@.action, key.code)
                &&& final(self)@ == dialog_after_key(old(self)@, key.code)
            },
    {
        if key.kind == KeyEventKind::Release {
            return HandleResult::Ignored;
        }
        match key.code {
            KeyCode::Tab | KeyCode::Left | KeyCode::Right => {
                self.toggle_focus();
                HandleResult::Consumed
            },
            KeyCode::Enter => {
                if self.focused_on_confirm {
                    HandleResult::Action(Action::ConfirmDialog(self.action.duplicate()))
                } else {
                    HandleResult::Action(Action::CloseScreen)
                }
            },
            KeyCode::Esc => HandleResult::Action(Action::CloseScreen),
            KeyCode::Char(c) => {
                if c == 'y' || c == 'Y' {
                    HandleResult::Action(Action::ConfirmDialog(self.action.duplicate()))
                } else if c == 'n' || c == 'N' {
                    HandleResult::Action(Action::CloseScreen)
                } else {
                    HandleResult::Ignored
                }
            },
            _ => HandleResult::Ignored,
        }
    }

    /// The component identifier.
    pub fn id(&self) -> (r: ComponentId)
        ensures
            r == self@.id,
    {
        self.id
    }

    /// The dialog takes the focus only while it is shown.
    pub fn can_focus(&self) -> (b: bool)
        ensures
            b == self@.visible,
    {
        self.visible
    }

    /// Nothing changes when the dialog takes the focus.
    pub fn on_focus_gain(&mut self) -> (r: TuiResult<()>)
        ensures
            r is Ok,
            final(self)@ == old(self)@,
    {
        Ok(())
    }

    /// Nothing changes when the dialog gives up the focus.
    pub fn on_focus_loss(&mut self) -> (r: TuiResult<()>)
        ensures
            r is Ok,
            final(self)@ == old(self)@,
    {
        Ok(())
    }
}

impl Default for ConfirmDialog {
    fn default() -> (r: Self)
        ensures
            !r@.visible,
            !r@.focused_on_confirm,
            r@.action == ConfirmAction::Generic,
    {
        ConfirmDialog::new()
    }
}

/// Pressing a focus key twice gives the dialog back as it was.
pub proof fn law_focus_key_twice_restores(v: ConfirmDialogView, code: KeyCode)
    requires
        dialog_key_toggles(code),
    ensures
        dialog_after_key(dialog_after_key(v, code), code) == v,
        dialog_key_result(v.focused_on_confirm, v.action, code) is Consumed,
{
}

/// Cancelling keys never hand the dialog's action to the application.
pub proof fn law_cancel_keys_close(v: ConfirmDialogView)
    ensures
        dialog_key_result(v.focused_on_confirm, v.action, KeyCode::Esc) == HandleResult::Action(Action::CloseScreen),
        dialog_key_result(v.focused_on_confirm, v.action, KeyCode::Char('n')) == HandleResult::Action(Action::CloseScreen),
        !v.focused_on_confirm ==> dialog_key_result(v.focused_on_confirm, v.action, KeyCode::Enter)
            == HandleResult::Action(Action::CloseScreen),
{
}

/// Where the dialog is drawn on a screen of `width` by `height` cells: at
/// most 50 wide and 8 high, centered; as `(x, y, width, height)`.
pub open spec fn dialog_rect(width: u16, height: u16) -> (u16, u16, u16, u16) {
    let w: u16 = if width < 50 { width } else { 50 };
    let h: u16 = if height < 8 { height } else { 8 };
    (((width - w) / 2) as u16, ((height - h) / 2) as u16, w, h)
}

/// Where the dialog is drawn, as [`dialog_rect`] says.
pub fn dialog_area(width: u16, height: u16) -> (r: (u16, u16, u16, u16))
    ensures
        r == dialog_rect(width, height),
{
    let w: u16 = if width < 50 { width } else { 50 };
    let h: u16 = if height < 8 { height } else { 8 };
    (width.saturating_sub(w) / 2, height.saturating_sub(h) / 2, w, h)
}

} // verus!
