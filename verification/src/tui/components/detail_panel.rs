//! Panel showing the details of the selected password.
use vstd::prelude::*;
use vstd::string::StringExecFns;
use crate::text::{chars_of, push_char, utf8_len, utf8_len_capped};
use crate::tui::app_types::TuiResult;
use crate::tui::commands::{lines_view, push_line};
use crate::tui::traits::{ComponentId, HandleResult, KeyCode, KeyEvent, KeyEventKind};

verus! {

/// Model of a detail panel.
pub struct DetailPanelView {
    pub id: ComponentId,
    pub focused: bool,
    pub password_visible: bool,
}

/// What the application does for a key pressed in the detail panel.
#[derive(Debug, Clone, Copy, PartialEq, Eq, Structural)]
pub enum DetailCommand {
    /// Nothing beyond the panel's own change.
    Nothing,
    /// Copy the shown password to the clipboard.
    CopyPassword,
    /// Copy the shown username to the clipboard.
    CopyUsername,
    /// Open the shown URL.
    OpenUrl,
}

/// Panel showing one password's details; the password is masked until revealed.
pub struct DetailPanel {
    id: ComponentId,
    focused: bool,
    password_visible: bool,
}

impl View for DetailPanel {
    type V = DetailPanelView;

    closed spec fn view(&self) -> DetailPanelView {
        DetailPanelView { id: self.id, focused: self.focused, password_visible: self.password_visible }
    }
}

impl DetailPanel {
    /// An unfocused panel with the password masked.
    pub fn new() -> (r: Self)
        ensures
            !r@.focused,
            !r@.password_visible,
            r@.id.spec_value() == 0,
    {
        DetailPanel { id: ComponentId::new(0), focused: false, password_visible: false }
    }

    /// Sets the component identifier.
    pub fn with_id(self, id: ComponentId) -> (r: Self)
        ensures
            r@ == (DetailPanelView { id, ..self@ }),
    {
        let mut s = self;
        s.id = id;
        s
    }

    /// Whether the panel has the focus.
    pub fn is_focused(&self) -> (b: bool)
        ensures
            b == self@.focused,
    {
        self.focused
    }

    /// Shows a masked password, or masks a shown one.
    pub fn toggle_password_visibility(&mut self)
        ensures
            final(self)@ == (DetailPanelView { password_visible: !old(self)@.password_visible, ..old(self)@ }),
    {
        self.password_visible = !self.password_visible;
    }

    /// Whether the password is shown.
    pub fn is_password_visible(&self) -> (b: bool)
        ensures
            b == self@.password_visible,
    {
        self.password_visible
    }

    /// Handles a key: Space shows or masks the password.
    pub fn handle_key(&mut self, key: KeyEvent) -> (r: HandleResult)
        ensures
            key.kind != KeyEventKind::Release && key.code == KeyCode::Char(' ') ==> r is Consumed && final(self)@ == (
            DetailPanelView { password_visible: !old(self)@.password_visible, ..old(self)@ }),
            !(key.kind != KeyEventKind::Release && key.code == KeyCode::Char(' ')) ==> r is Ignored && final(self)@
                == old(self)@,
    {
        if key.kind == KeyEventKind::Release {
            return HandleResult::Ignored;
        }
        match key.code {
            KeyCode::Char(' ') => {
                self.toggle_password_visibility();
                HandleResult::Consumed
            },
            _ => HandleResult::Ignored,
        }
    }

    /// Handles a key and says what the application has to do for it: Space
    /// shows or masks the password, `C` copies the password, `c` copies the
    /// username, `o` opens the URL.
    pub fn handle_key_command(&mut self, key: KeyEvent) -> (r: (HandleResult, DetailCommand))
        ensures
            key.kind == KeyEventKind::Release ==> r.0 is Ignored && r.1 == DetailCommand::Nothing && final(self)@
                == old(self)@,
            key.kind != KeyEventKind::Release ==> match key.code {
                KeyCode::Char(' ') => r.0 is Consumed && r.1 == DetailCommand::Nothing && final(self)@ == (
                DetailPanelView { password_visible: !old(self)@.password_visible, ..old(self)@ }),
                KeyCode::Char('C') => r.0 is Consumed && r.1 == DetailCommand::CopyPassword && final(self)@ == old(self)@,
                KeyCode::Char('c') => r.0 is Consumed && r.1 == DetailCommand::CopyUsername && final(self)@ == old(self)@,
                KeyCode::Char('o') => r.0 is Consumed && r.1 == DetailCommand::OpenUrl && final(self)@ == old(self)@,
                _ => r.0 is Ignored && r.1 == DetailCommand::Nothing && final(self)@ == old(self)@,
            },
    {
        if key.kind == KeyEventKind::Release {
            return (HandleResult::Ignored, DetailCommand::Nothing);
        }
        match key.code {
            KeyCode::Char(' ') => {
                self.toggle_password_visibility();
                (HandleResult::Consumed, DetailCommand::Nothing)
            },
            KeyCode::Char('C') => (HandleResult::Consumed, DetailCommand::CopyPassword),
            KeyCode::Char('c') => (HandleResult::Consumed, DetailCommand::CopyUsername),
            KeyCode::Char('o') => (HandleResult::Consumed, DetailCommand::OpenUrl),
            _ => (HandleResult::Ignored, DetailCommand::Nothing),
        }
    }

    /// The component identifier.
    pub fn id(&self) -> (r: ComponentId)
        ensures
            r == self@.id,
    {
        self.id
    }

    /// The panel can take the focus.
    pub fn can_focus(&self) -> (b: bool)
        ensures
            b,
    {
        true
    }

    /// Takes the focus.
    pub fn on_focus_gain(&mut self) -> (r: TuiResult<()>)
        ensures
            r is Ok,
            final(self)@ == (DetailPanelView { focused: true, ..old(self)@ }),
    {
        self.focused = true;
        Ok(())
    }

    /// Gives up the focus and masks the password again.
    pub fn on_focus_loss(&mut self) -> (r: TuiResult<()>)
        ensures
            r is Ok,
            final(self)@ == (DetailPanelView { focused: false, password_visible: false, ..old(self)@ }),
    {
        self.focused = false;
        self.password_visible = false;
        Ok(())
    }
}

impl Default for DetailPanel {
    fn default() -> (r: Self)
        ensures
            !r@.focused,
            !r@.password_visible,
    {
        DetailPanel::new()
    }
}

/// What the panel shows of a password: the password itself when it is
/// visible, otherwise one star for each byte of it, twenty at most.
pub open spec fn password_shown(password: Seq<char>, visible: bool) -> Seq<char> {
    if visible {
        password
    } else {
        Seq::new(
            if utf8_len(password) < 20 {
                utf8_len(password)
            } else {
                20
            },
            |i: int| '*',
        )
    }
}

/// The text shown for a password, as [`password_shown`] says.
pub fn password_display(password: &str, visible: bool) -> (r: String)
    ensures
        r@ == password_shown(password@, visible),
{
    if visible {
        return String::from_str(password);
    }
    let v = chars_of(password);
    let n = utf8_len_capped(&v, 20);
    let mut s = String::new();
    let mut k: usize = 0;
    while k < n
        invariant
            k <= n,
            s@ == Seq::new(k as nat, |i: int| '*'),
        decreases n - k,
    {
        push_char(&mut s, '*');
        k = k + 1;
        assert(s@ =~= Seq::new(k as nat, |i: int| '*'));
    }
    s
}

/// The pieces of a field line: label, value and, where there is one, the
/// key hint after two spaces.
pub open spec fn field_line(label: Seq<char>, value: Seq<char>, hint: Seq<char>) -> Seq<Seq<char>> {
    seq![label, " "@, value] + if hint.len() > 0 {
        seq!["  "@, hint]
    } else {
        Seq::empty()
    }
}

/// The pieces of a field line, as [`field_line`] says.
pub fn field_line_texts(label: &str, value: &str, hint: &str) -> (r: Vec<String>)
    ensures
        lines_view(r@) == field_line(label@, value@, hint@),
{
    let mut out: Vec<String> = Vec::new();
    push_line(&mut out, label);
    push_line(&mut out, " ");
    push_line(&mut out, value);
    if !hint.is_empty() {
        push_line(&mut out, "  ");
        push_line(&mut out, hint);
    }
    assert(lines_view(out@) =~= field_line(label@, value@, hint@));
    out
}

} // verus!
