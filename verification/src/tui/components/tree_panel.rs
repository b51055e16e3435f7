//! Panel listing password groups and entries as a tree, with Vim-style keys.
//!
//! The panel keeps its own key state (a pending `g`, group editing); the tree
//! itself belongs to the application, which tells the panel what the
//! highlighted node is and carries out the command the panel returns.
use vstd::prelude::*;
use vstd::string::StringExecFns;
use crate::sync::encoding::{uuid_text, uuid_to_string};
use crate::text::{decimal, push_char, push_decimal, push_str, string_from_chars, trim_chars, trimmed, utf8_len, utf8_len_at_least};
use crate::tui::commands::{lines_view, push_line};
use crate::tui::app_types::TuiResult;
use crate::tui::traits::{Action, ComponentId, ConfirmAction, HandleResult, KeyCode, KeyEvent, KeyEventKind};

verus! {

/// Milliseconds within which a second `g` completes `gg`.
pub const GG_TIMEOUT_MS: u64 = 500;

/// Most bytes a group name typed in the panel takes.
pub const GROUP_NAME_MAX_BYTES: usize = 32;

/// Whether the panel is editing a group name.
#[derive(Debug, Clone, PartialEq, Eq)]
pub enum TreeEditMode {
    NotEditing,
    CreatingGroup,
    RenamingGroup { group_id: String },
}

impl Default for TreeEditMode {
    fn default() -> (r: Self)
        ensures
            r == TreeEditMode::NotEditing,
    {
        TreeEditMode::NotEditing
    }
}

/// A node of the tree: a group or a password, by the 128-bit value of its UUID.
#[derive(Debug, Clone, Copy, PartialEq, Eq, Structural)]
pub enum NodeRef {
    Group(u128),
    Password(u128),
}

/// What the panel needs to know of the highlighted node.
#[derive(Debug)]
pub struct CurrentNode {
    pub id: NodeRef,
    /// Whether the node is an expanded group.
    pub expanded: bool,
    /// For a group, its name, where the application knows it.
    pub group_name: Option<String>,
}

/// What the application does to the tree after a key.
#[derive(Debug, Clone, Copy, PartialEq, Eq, Structural)]
pub enum TreeCommand {
    Nothing,
    MoveDown,
    MoveUp,
    MoveToTop,
    MoveToBottom,
    /// Expand or collapse a group, then apply the filters again.
    ToggleExpand(u128),
    /// Show a password's details.
    SelectPassword(u128),
    /// Warn that a group name cannot be empty.
    WarnEmptyName,
}

/// How the tree panel is rendered.
pub struct RenderContext {
    pub focused: bool,
}

/// Model of a tree panel.
pub struct TreePanelView {
    pub id: ComponentId,
    pub focused: bool,
    pub pending_g: bool,
    /// When the pending `g` was pressed, in milliseconds.
    pub last_g: Option<u64>,
    pub edit_mode: TreeEditMode,
    pub buffer: Seq<char>,
}

/// Panel of groups and passwords.
pub struct TreePanel {
    id: ComponentId,
    focused: bool,
    pending_g: bool,
    last_g_time: Option<u64>,
    edit_mode: TreeEditMode,
    edit_buffer: Vec<char>,
}

impl View for TreePanel {
    type V = TreePanelView;

    closed spec fn view(&self) -> TreePanelView {
        TreePanelView {
            id: self.id,
            focused: self.focused,
            pending_g: self.pending_g,
            last_g: self.last_g_time,
            edit_mode: self.edit_mode,
            buffer: self.edit_buffer@,
        }
    }
}

/// Whether a second `g` at `now` completes `gg`.
pub open spec fn completes_gg(v: TreePanelView, now: u64) -> bool {
    v.pending_g && v.last_g is Some && (if now >= v.last_g->0 { now - v.last_g->0 } else { 0 }) < GG_TIMEOUT_MS
}

/// The nil UUID.
pub open spec fn is_nil(id: u128) -> bool {
    id == 0
}

impl TreePanel {
    /// An unfocused panel with no pending key and no editing.
    pub fn new() -> (r: Self)
        ensures
            r@ == (TreePanelView {
                id: r@.id,
                focused: false,
                pending_g: false,
                last_g: None,
                edit_mode: TreeEditMode::NotEditing,
                buffer: Seq::empty(),
            }),
            r@.id.spec_value() == 0,
    {
        TreePanel {
            id: ComponentId::new(0),
            focused: false,
            pending_g: false,
            last_g_time: None,
            edit_mode: TreeEditMode::NotEditing,
            edit_buffer: Vec::new(),
        }
    }

    /// Sets the component identifier.
    pub fn with_id(self, id: ComponentId) -> (r: Self)
        ensures
            r@ == (TreePanelView { id, ..self@ }),
    {
        let mut s = self;
        s.id = id;
        s
    }

    /// Whether the panel has the focus.
    pub fn is_focused(&self) -> (b: bool)
        ensures
            b == self@.focused,
    {
        self.focused
    }

    /// Whether a `g` waits for a second one.
    pub fn is_pending_g(&self) -> (b: bool)
        ensures
            b == self@.pending_g,
    {
        self.pending_g
    }

    /// The group editing under way.
    pub fn edit_mode(&self) -> (r: &TreeEditMode)
        ensures
            *r == self@.edit_mode,
    {
        &self.edit_mode
    }

    /// The group name typed so far.
    pub fn edit_buffer(&self) -> (r: String)
        ensures
            r@ == self@.buffer,
    {
        string_from_chars(&self.edit_buffer)
    }

    /// The render settings of the panel.
    pub fn render_context(&self) -> (r: RenderContext)
        ensures
            r.focused == self@.focused,
    {
        RenderContext { focused: self.focused }
    }

    /// Handles a key without access to the tree: only the navigation keys are taken.
    pub fn handle_key(&mut self, key: KeyEvent) -> (r: HandleResult)
        ensures
            final(self)@ == old(self)@,
            key.kind != KeyEventKind::Release && (key.code == KeyCode::Char('j') || key.code == KeyCode::Char('k')
                || key.code == KeyCode::Up || key.code == KeyCode::Down) ==> r is Consumed,
            !(key.kind != KeyEventKind::Release && (key.code == KeyCode::Char('j') || key.code == KeyCode::Char('k')
                || key.code == KeyCode::Up || key.code == KeyCode::Down)) ==> r is Ignored,
    {
        if key.kind == KeyEventKind::Release {
            return HandleResult::Ignored;
        }
        match key.code {
            KeyCode::Char('j') | KeyCode::Char('k') | KeyCode::Up | KeyCode::Down => HandleResult::Consumed,
            _ => HandleResult::Ignored,
        }
    }

    fn handle_g_key(&mut self, now_ms: u64) -> (r: (HandleResult, TreeCommand))
        ensures
            r.0 is Consumed,
            completes_gg(old(self)@, now_ms) ==> r.1 == TreeCommand::MoveToTop && final(self)@ == (TreePanelView {
                pending_g: false,
                last_g: None,
                ..old(self)@
            }),
            !completes_gg(old(self)@, now_ms) ==> r.1 == TreeCommand::Nothing && final(self)@ == (TreePanelView {
                pending_g: true,
                last_g: Some(now_ms),
                ..old(self)@
            }),
    {
        if self.pending_g {
            match self.last_g_time {
                Some(last) => {
                    let elapsed: u64 = if now_ms >= last {
                        now_ms - last
                    } else {
                        0
                    };
                    if elapsed < GG_TIMEOUT_MS {
                        self.pending_g = false;
                        self.last_g_time = None;
                        return (HandleResult::Consumed, TreeCommand::MoveToTop);
                    }
                },
                None => {},
            }
        }
        self.pending_g = true;
        self.last_g_time = Some(now_ms);
        (HandleResult::Consumed, TreeCommand::Nothing)
    }

    fn handle_edit_mode_key(&mut self, key: KeyEvent) -> (r: (HandleResult, TreeCommand))
        requires
            old(self)@.edit_mode != TreeEditMode::NotEditing,
        ensures
            final(self)@.id == old(self)@.id && final(self)@.focused == old(self)@.focused
                && final(self)@.pending_g == old(self)@.pending_g && final(self)@.last_g == old(self)@.last_g,
            key.code == KeyCode::Esc ==> r.0 is Consumed && r.1 == TreeCommand::Nothing && final(self)@.edit_mode
                == TreeEditMode::NotEditing && final(self)@.buffer == Seq::<char>::empty(),
            key.code == KeyCode::Enter && trimmed(old(self)@.buffer).len() == 0 ==> r.0 is Consumed && r.1
                == TreeCommand::WarnEmptyName && final(self)@ == old(self)@,
            key.code == KeyCode::Enter && trimmed(old(self)@.buffer).len() > 0 ==> {
                &&& r.1 == TreeCommand::Nothing
                &&& final(self)@.edit_mode == TreeEditMode::NotEditing
                &&& final(self)@.buffer == Seq::<char>::empty()
                &&& old(self)@.edit_mode == TreeEditMode::CreatingGroup ==> (r.0 matches HandleResult::Action(
                    Action::ShowToast(m),
                ) && m@ == "__create_group:"@ + old(self)@.buffer)
                &&& old(self)@.edit_mode matches TreeEditMode::RenamingGroup { group_id } ==> (r.0 matches HandleResult::Action(
                    Action::ShowToast(m),
                ) && m@ == "__rename_group:"@ + group_id@ + ":"@ + old(self)@.buffer)
            },
            key.code is Char && utf8_len(old(self)@.buffer) < GROUP_NAME_MAX_BYTES ==> r.0 is NeedsRender
                && r.1 == TreeCommand::Nothing && final(self)@ == (TreePanelView {
                buffer: old(self)@.buffer.push(key.code->Char_0),
                ..old(self)@
            }),
            key.code is Char && utf8_len(old(self)@.buffer) >= GROUP_NAME_MAX_BYTES ==> r.0 is Consumed && r.1
                == TreeCommand::Nothing && final(self)@ == old(self)@,
            key.code == KeyCode::Backspace ==> r.0 is NeedsRender && r.1 == TreeCommand::Nothing && final(self)@ == (
            TreePanelView {
                buffer: if old(self)@.buffer.len() > 0 {
                    old(self)@.buffer.drop_last()
                } else {
                    old(self)@.buffer
                },
                ..old(self)@
            }),
            !(key.code == KeyCode::Esc || key.code == KeyCode::Enter || key.code is Char || key.code
                == KeyCode::Backspace) ==> r.0 is Consumed && r.1 == TreeCommand::Nothing && final(self)@ == old(self)@,
    {
        match key.code {
            KeyCode::Esc => {
                self.edit_mode = TreeEditMode::NotEditing;
                self.edit_buffer.clear();
                (HandleResult::Consumed, TreeCommand::Nothing)
            },
            KeyCode::Enter => {
                let text = string_from_chars(&self.edit_buffer);
                let name = trim_chars(text.as_str());
                if name.len() == 0 {
                    return (HandleResult::Consumed, TreeCommand::WarnEmptyName);
                }
                let buffer = string_from_chars(&self.edit_buffer);
                let msg = match &self.edit_mode {
                    TreeEditMode::RenamingGroup { group_id } => {
                        let mut m = String::from_str("__rename_group:");
                        push_str(&mut m, group_id.as_str());
                        push_str(&mut m, ":");
                        push_str(&mut m, buffer.as_str());
                        m
                    },
                    _ => {
                        let mut m = String::from_str("__create_group:");
                        push_str(&mut m, buffer.as_str());
                        m
                    },
                };
                self.edit_mode = TreeEditMode::NotEditing;
                self.edit_buffer.clear();
                (HandleResult::Action(Action::ShowToast(msg)), TreeCommand::Nothing)
            },
            KeyCode::Char(c) => {
                if !utf8_len_at_least(&self.edit_buffer, GROUP_NAME_MAX_BYTES) {
                    self.edit_buffer.push(c);
                    (HandleResult::NeedsRender, TreeCommand::Nothing)
                } else {
                    (HandleResult::Consumed, TreeCommand::Nothing)
                }
            },
            KeyCode::Backspace => {
                self.edit_buffer.pop();
                (HandleResult::NeedsRender, TreeCommand::Nothing)
            },
            _ => (HandleResult::Consumed, TreeCommand::Nothing),
        }
    }

    /// The password highlighted in the tree, if the highlighted node is one.
    pub fn get_selected_password(&self, current: Option<&CurrentNode>) -> (r: Option<u128>)
        ensures
            r == match current {
                Some(n) => match n.id {
                    NodeRef::Password(p) => Some(p),
                    NodeRef::Group(_) => None,
                },
                None => None,
            },
    {
        match current {
            Some(n) => match n.id {
                NodeRef::Password(p) => Some(p),
                NodeRef::Group(_) => None,
            },
            None => None,
        }
    }

    /// Handles a key with knowledge of the highlighted node; `now_ms` is the
    /// time of the key press in milliseconds. While a group name is edited,
    /// keys edit it (Esc cancels, Enter asks the application to create or
    /// rename the group). Otherwise j/k/Down/Up move, `gg` goes to the top and
    /// G to the bottom, l/Right expand and h/Left collapse a group, Space and
    /// Enter expand or collapse a group or select a password, `a` starts a new
    /// group, `r` renames and D deletes the highlighted group, and `m` moves
    /// the highlighted password to another group.
    pub fn handle_key_with_state(&mut self, key: KeyEvent, now_ms: u64, current: Option<&CurrentNode>) -> (r: (
        HandleResult,
        TreeCommand,
    ))
        ensures
            final(self)@.id == old(self)@.id && final(self)@.focused == old(self)@.focused,
            key.kind == KeyEventKind::Release ==> r.0 is Ignored && r.1 == TreeCommand::Nothing && final(self)@
                == old(self)@,
            key.kind != KeyEventKind::Release && old(self)@.edit_mode != TreeEditMode::NotEditing ==> {
                let v = old(self)@;
                let w = final(self)@;
                &&& w.pending_g == v.pending_g && w.last_g == v.last_g
                &&& key.code == KeyCode::Esc ==> r.0 is Consumed && r.1 == TreeCommand::Nothing && w.edit_mode
                    == TreeEditMode::NotEditing && w.buffer == Seq::<char>::empty()
                &&& key.code == KeyCode::Enter && trimmed(v.buffer).len() == 0 ==> r.0 is Consumed && r.1
                    == TreeCommand::WarnEmptyName && w == v
                &&& key.code == KeyCode::Enter && trimmed(v.buffer).len() > 0 ==> r.1 == TreeCommand::Nothing
                    && w.edit_mode == TreeEditMode::NotEditing && w.buffer == Seq::<char>::empty()
                &&& key.code == KeyCode::Enter && trimmed(v.buffer).len() > 0 && v.edit_mode == TreeEditMode::CreatingGroup
                    ==> (r.0 matches HandleResult::Action(Action::ShowToast(m)) && m@ == "__create_group:"@ + v.buffer)
                &&& key.code == KeyCode::Enter && trimmed(v.buffer).len() > 0 && v.edit_mode is RenamingGroup ==> (
                r.0 matches HandleResult::Action(Action::ShowToast(m)) && m@ == "__rename_group:"@
                    + v.edit_mode->group_id@ + ":"@ + v.buffer)
                &&& key.code is Char && utf8_len(v.buffer) < GROUP_NAME_MAX_BYTES ==> r.0 is NeedsRender && r.1
                    == TreeCommand::Nothing && w == (TreePanelView { buffer: v.buffer.push(key.code->Char_0), ..v })
                &&& key.code is Char && utf8_len(v.buffer) >= GROUP_NAME_MAX_BYTES ==> r.0 is Consumed && r.1
                    == TreeCommand::Nothing && w == v
                &&& key.code == KeyCode::Backspace ==> r.0 is NeedsRender && r.1 == TreeCommand::Nothing && w == (
                TreePanelView {
                    buffer: if v.buffer.len() > 0 {
                        v.buffer.drop_last()
                    } else {
                        v.buffer
                    },
                    ..v
                })
                &&& !(key.code == KeyCode::Esc || key.code == KeyCode::Enter || key.code is Char || key.code
                    == KeyCode::Backspace) ==> r.0 is Consumed && r.1 == TreeCommand::Nothing && w == v
            },
            key.kind != KeyEventKind::Release && old(self)@.edit_mode == TreeEditMode::NotEditing ==> {
                let v = old(self)@;
                let w = final(self)@;
                let navigation_done = r.0 is Consumed && w == (TreePanelView { pending_g: false, ..v });
                match key.code {
                    KeyCode::Char('j') | KeyCode::Down => navigation_done && r.1 == TreeCommand::MoveDown,
                    KeyCode::Char('k') | KeyCode::Up => navigation_done && r.1 == TreeCommand::MoveUp,
                    KeyCode::Char('G') => navigation_done && r.1 == TreeCommand::MoveToBottom,
                    KeyCode::Char('g') => r.0 is Consumed && (if completes_gg(v, now_ms) {
                        r.1 == TreeCommand::MoveToTop && w == (TreePanelView { pending_g: false, last_g: None, ..v })
                    } else {
                        r.1 == TreeCommand::Nothing && w == (TreePanelView { pending_g: true, last_g: Some(now_ms), ..v })
                    }),
                    KeyCode::Char('l') | KeyCode::Right => navigation_done && r.1 == (match current {
                        Some(n) => match n.id {
                            NodeRef::Group(g) => if !n.expanded {
                                TreeCommand::ToggleExpand(g)
                            } else {
                                TreeCommand::Nothing
                            },
                            NodeRef::Password(_) => TreeCommand::Nothing,
                        },
                        None => TreeCommand::Nothing,
                    }),
                    KeyCode::Char('h') | KeyCode::Left => navigation_done && r.1 == (match current {
                        Some(n) => match n.id {
                            NodeRef::Group(g) => if n.expanded {
                                TreeCommand::ToggleExpand(g)
                            } else {
                                TreeCommand::Nothing
                            },
                            NodeRef::Password(_) => TreeCommand::Nothing,
                        },
                        None => TreeCommand::Nothing,
                    }),
                    KeyCode::Char(' ') | KeyCode::Enter => navigation_done && r.1 == (match current {
                        Some(n) => match n.id {
                            NodeRef::Group(g) => TreeCommand::ToggleExpand(g),
                            NodeRef::Password(p) => TreeCommand::SelectPassword(p),
                        },
                        None => TreeCommand::Nothing,
                    }),
                    KeyCode::Char('a') => r.0 is Consumed && r.1 == TreeCommand::Nothing && w == (TreePanelView {
                        pending_g: false,
                        edit_mode: TreeEditMode::CreatingGroup,
                        buffer: Seq::empty(),
                        ..v
                    }),
                    KeyCode::Char('r') => r.1 == TreeCommand::Nothing && (match current {
                        Some(n) => match n.id {
                            NodeRef::Group(g) => if !is_nil(g) {
                                &&& r.0 is Consumed
                                &&& w.pending_g == false && w.last_g == v.last_g
                                &&& w.edit_mode matches TreeEditMode::RenamingGroup { group_id } && group_id@ == uuid_text(g)
                                &&& w.buffer == match n.group_name {
                                    Some(name) => name@,
                                    None => Seq::<char>::empty(),
                                }
                            } else {
                                r.0 is Ignored && w == (TreePanelView { pending_g: false, ..v })
                            },
                            NodeRef::Password(_) => r.0 is Ignored && w == (TreePanelView { pending_g: false, ..v }),
                        },
                        None => r.0 is Ignored && w == (TreePanelView { pending_g: false, ..v }),
                    }),
                    KeyCode::Char('D') => r.1 == TreeCommand::Nothing && w == (TreePanelView { pending_g: false, ..v })
                        && (match current {
                        Some(n) => match n.id {
                            NodeRef::Group(g) => if !is_nil(g) {
                                r.0 matches HandleResult::Action(
                                    Action::OpenConfirmDialog(ConfirmAction::DeleteGroup { group_id, group_name }),
                                ) && group_id@ == uuid_text(g) && group_name@ == match n.group_name {
                                    Some(name) => name@,
                                    None => "Unknown"@,
                                }
                            } else {
                                r.0 is Ignored
                            },
                            NodeRef::Password(_) => r.0 is Ignored,
                        },
                        None => r.0 is Ignored,
                    }),
                    KeyCode::Char('m') => r.1 == TreeCommand::Nothing && w == (TreePanelView { pending_g: false, ..v })
                        && (match current {
                        Some(n) => match n.id {
                            NodeRef::Password(_) => r.0 matches HandleResult::Action(Action::ShowToast(m)) && m@
                                == "__show_group_picker"@,
                            NodeRef::Group(_) => r.0 is Ignored,
                        },
                        None => r.0 is Ignored,
                    }),
                    _ => r.0 is Ignored && r.1 == TreeCommand::Nothing && w == (TreePanelView { pending_g: false, ..v }),
                }
            },
    {
        if key.kind == KeyEventKind::Release {
            return (HandleResult::Ignored, TreeCommand::Nothing);
        }
        let editing = match self.edit_mode {
            TreeEditMode::NotEditing => false,
            _ => true,
        };
        if editing {
            return self.handle_edit_mode_key(key);
        }
        match key.code {
            KeyCode::Char('j') | KeyCode::Down => {
                self.pending_g = false;
                (HandleResult::Consumed, TreeCommand::MoveDown)
            },
            KeyCode::Char('k') | KeyCode::Up => {
                self.pending_g = false;
                (HandleResult::Consumed, TreeCommand::MoveUp)
            },
            KeyCode::Char('g') => self.handle_g_key(now_ms),
            KeyCode::Char('G') => {
                self.pending_g = false;
                (HandleResult::Consumed, TreeCommand::MoveToBottom)
            },
            KeyCode::Char('l') | KeyCode::Right => {
                self.pending_g = false;
                let cmd = match current {
                    Some(n) => match n.id {
                        NodeRef::Group(g) => if !n.expanded {
                            TreeCommand::ToggleExpand(g)
                        } else {
                            TreeCommand::Nothing
                        },
                        NodeRef::Password(_) => TreeCommand::Nothing,
                    },
                    None => TreeCommand::Nothing,
                };
                (HandleResult::Consumed, cmd)
            },
            KeyCode::Char('h') | KeyCode::Left => {
                self.pending_g = false;
                let cmd = match current {
                    Some(n) => match n.id {
                        NodeRef::Group(g) => if n.expanded {
                            TreeCommand::ToggleExpand(g)
                        } else {
                            TreeCommand::Nothing
                        },
                        NodeRef::Password(_) => TreeCommand::Nothing,
                    },
                    None => TreeCommand::Nothing,
                };
                (HandleResult::Consumed, cmd)
            },
            KeyCode::Char(' ') | KeyCode::Enter => {
                self.pending_g = false;
                let cmd = match current {
                    Some(n) => match n.id {
                        NodeRef::Group(g) => TreeCommand::ToggleExpand(g),
                        NodeRef::Password(p) => TreeCommand::SelectPassword(p),
                    },
                    None => TreeCommand::Nothing,
                };
                (HandleResult::Consumed, cmd)
            },
            KeyCode::Char('a') => {
                self.pending_g = false;
                self.edit_mode = TreeEditMode::CreatingGroup;
                self.edit_buffer.clear();
                (HandleResult::Consumed, TreeCommand::Nothing)
            },
            KeyCode::Char('r') => {
                self.pending_g = false;
                match current {
                    Some(n) => match n.id {
                        NodeRef::Group(g) => {
                            if g != 0 {
                                let name: Vec<char> = match &n.group_name {
                                    Some(s) => crate::text::chars_of(s.as_str()),
                                    None => Vec::new(),
                                };
                                self.edit_mode = TreeEditMode::RenamingGroup { group_id: uuid_to_string(g) };
                                self.edit_buffer = name;
                                return (HandleResult::Consumed, TreeCommand::Nothing);
                            }
                        },
                        NodeRef::Password(_) => {},
                    },
                    None => {},
                }
                (HandleResult::Ignored, TreeCommand::Nothing)
            },
            KeyCode::Char('D') => {
                self.pending_g = false;
                match current {
                    Some(n) => match n.id {
                        NodeRef::Group(g) => {
                            if g != 0 {
                                let name = match &n.group_name {
                                    Some(s) => s.clone(),
                                    None => String::from_str("Unknown"),
                                };
                                let action = ConfirmAction::DeleteGroup { group_id: uuid_to_string(g), group_name: name };
                                return (HandleResult::Action(Action::OpenConfirmDialog(action)), TreeCommand::Nothing);
                            }
                        },
                        NodeRef::Password(_) => {},
                    },
                    None => {},
                }
                (HandleResult::Ignored, TreeCommand::Nothing)
            },
            KeyCode::Char('m') => {
                self.pending_g = false;
                match current {
                    Some(n) => match n.id {
                        NodeRef::Password(_) => {
                            return (
                                HandleResult::Action(Action::ShowToast(String::from_str("__show_group_picker"))),
                                TreeCommand::Nothing,
                            );
                        },
                        NodeRef::Group(_) => {},
                    },
                    None => {},
                }
                (HandleResult::Ignored, TreeCommand::Nothing)
            },
            _ => {
                self.pending_g = false;
                (HandleResult::Ignored, TreeCommand::Nothing)
            },
        }
    }

    /// The component identifier.
    pub fn id(&self) -> (r: ComponentId)
        ensures
            r == self@.id,
    {
        self.id
    }

    /// The panel can take the focus.
    pub fn can_focus(&self) -> (b: bool)
        ensures
            b,
    {
        true
    }

    /// Takes the focus.
    pub fn on_focus_gain(&mut self) -> (r: TuiResult<()>)
        ensures
            r is Ok,
            final(self)@ == (TreePanelView { focused: true, ..old(self)@ }),
    {
        self.focused = true;
        Ok(())
    }

    /// Gives up the focus.
    pub fn on_focus_loss(&mut self) -> (r: TuiResult<()>)
        ensures
            r is Ok,
            final(self)@ == (TreePanelView { focused: false, ..old(self)@ }),
    {
        self.focused = false;
        Ok(())
    }
}

impl Default for TreePanel {
    fn default() -> (r: Self)
        ensures
            !r@.focused,
            !r@.pending_g,
            r@.edit_mode == TreeEditMode::NotEditing,
    {
        TreePanel::new()
    }
}

/// Two presses of `g` within the timeout go to the top; a press after the
/// timeout starts a new sequence instead.
pub proof fn law_gg_within_timeout(v: TreePanelView, t1: u64, t2: u64)
    requires
        t1 <= t2,
    ensures
        ({
            let after_first = if completes_gg(v, t1) {
                TreePanelView { pending_g: false, last_g: None, ..v }
            } else {
                TreePanelView { pending_g: true, last_g: Some(t1), ..v }
            };
            !completes_gg(v, t1) ==> (completes_gg(after_first, t2) <==> t2 - t1 < GG_TIMEOUT_MS)
        }),
{
}

/// The first row shown so that the highlighted row stays in view: the top
/// while the highlighted row is above the last of `max_rows` rows, otherwise
/// the highlighted row sits second to last.
pub open spec fn scroll_offset(highlighted: nat, max_rows: nat) -> nat {
    let last = if max_rows >= 1 { max_rows - 1 } else { 0 };
    let keep = if max_rows >= 2 { max_rows - 2 } else { 0 };
    if highlighted < last {
        0
    } else if highlighted >= keep {
        (highlighted - keep) as nat
    } else {
        0
    }
}

/// The first row shown, as [`scroll_offset`] says.
pub fn calculate_scroll_offset(highlighted_index: usize, max_rows: usize) -> (r: usize)
    ensures
        r == scroll_offset(highlighted_index as nat, max_rows as nat),
{
    if highlighted_index < max_rows.saturating_sub(1) {
        return 0;
    }
    highlighted_index.saturating_sub(max_rows.saturating_sub(2))
}

/// The indentation of a tree level: two spaces a level, up to nine levels.
pub open spec fn indent(level: nat) -> Seq<char> {
    if level < 10 {
        Seq::new(2 * level, |i: int| ' ')
    } else {
        Seq::empty()
    }
}

/// The pieces of a node's row: indentation, marker, a space and the label,
/// then a star for a favorite password and the child count of a non-empty
/// group.
pub open spec fn node_line(
    level: nat,
    is_folder: bool,
    is_expanded: bool,
    label: Seq<char>,
    is_favorite: bool,
    child_count: nat,
) -> Seq<Seq<char>> {
    seq![
        indent(level),
        if is_folder {
            if is_expanded {
                "[-]"@
            } else {
                "[+]"@
            }
        } else {
            " • "@
        },
        " "@,
        label,
    ] + (if is_favorite && !is_folder {
        seq![" ★"@]
    } else {
        Seq::empty()
    }) + (if child_count > 0 && is_folder {
        seq![" ("@ + decimal(child_count) + ")"@]
    } else {
        Seq::empty()
    })
}

/// The pieces of a node's row, as [`node_line`] says.
pub fn node_line_texts(
    level: u8,
    is_folder: bool,
    is_expanded: bool,
    label: &str,
    is_favorite: bool,
    child_count: usize,
) -> (r: Vec<String>)
    ensures
        lines_view(r@) == node_line(level as nat, is_folder, is_expanded, label@, is_favorite, child_count as nat),
{
    let mut out: Vec<String> = Vec::new();
    let mut ind = String::new();
    if level < 10 {
        let mut k: u8 = 0;
        while k < level
            invariant
                k <= level < 10,
                ind@ == Seq::new(2 * k as nat, |i: int| ' '),
            decreases level - k,
        {
            push_char(&mut ind, ' ');
            push_char(&mut ind, ' ');
            k = k + 1;
            assert(ind@ =~= Seq::new(2 * k as nat, |i: int| ' '));
        }
    } else {
        assert(ind@ =~= Seq::<char>::empty());
    }
    let ghost before = out@;
    out.push(ind);
    assert(lines_view(out@) =~= lines_view(before).push(indent(level as nat)));
    if is_folder {
        if is_expanded {
            push_line(&mut out, "[-]");
        } else {
            push_line(&mut out, "[+]");
        }
    } else {
        push_line(&mut out, " • ");
    }
    push_line(&mut out, " ");
    push_line(&mut out, label);
    if is_favorite && !is_folder {
        push_line(&mut out, " ★");
    }
    if child_count > 0 && is_folder {
        let mut c = String::from_str(" (");
        push_decimal(&mut c, child_count);
        push_str(&mut c, ")");
        let ghost before = out@;
        out.push(c);
        assert(lines_view(out@) =~= lines_view(before).push(" ("@ + decimal(child_count as nat) + ")"@));
    }
    assert(lines_view(out@) =~= node_line(level as nat, is_folder, is_expanded, label@, is_favorite, child_count as nat));
    out
}

/// What the panel shows when no row is visible.
pub open spec fn empty_tree(has_active_filters: bool) -> Seq<Seq<char>> {
    if has_active_filters {
        seq![""@, "No matching entries"@, ""@, "Try adjusting your filters"@]
    } else {
        seq![""@, "No passwords yet"@, ""@, "Press [n] to create one"@]
    }
}

/// The lines shown when no row is visible, as [`empty_tree`] says.
pub fn empty_tree_lines(has_active_filters: bool) -> (r: Vec<String>)
    ensures
        lines_view(r@) == empty_tree(has_active_filters),
{
    let mut out: Vec<String> = Vec::new();
    push_line(&mut out, "");
    if has_active_filters {
        push_line(&mut out, "No matching entries");
        push_line(&mut out, "");
        push_line(&mut out, "Try adjusting your filters");
    } else {
        push_line(&mut out, "No passwords yet");
        push_line(&mut out, "");
        push_line(&mut out, "Press [n] to create one");
    }
    assert(lines_view(out@) =~= empty_tree(has_active_filters));
    out
}

} // verus!
