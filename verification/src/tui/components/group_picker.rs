//! Popup that picks the group a password is moved to.
use vstd::prelude::*;
use vstd::string::StringExecFns;
use crate::text::push_str;
use crate::tui::commands::lines_view;
use crate::tui::traits::{ComponentId, HandleResult, KeyCode, KeyEvent, KeyEventKind};

verus! {

/// Model of a group picker.
pub struct GroupPickerView {
    pub id: ComponentId,
    /// (group identifier, name); no identifier stands for "ungrouped".
    pub groups: Seq<(Option<Seq<char>>, Seq<char>)>,
    pub selected: nat,
    pub password_id: Seq<char>,
    pub visible: bool,
}

/// The selection after a key press of `code` on a shown picker.
pub open spec fn picker_selection_after(selected: nat, n: nat, code: KeyCode) -> nat {
    match code {
        KeyCode::Char('j') | KeyCode::Down => if selected + 1 < n {
            selected + 1
        } else {
            selected
        },
        KeyCode::Char('k') | KeyCode::Up => if selected > 0 {
            (selected - 1) as nat
        } else {
            selected
        },
        _ => selected,
    }
}

/// Model of one group entry.
pub open spec fn group_view(g: (Option<String>, String)) -> (Option<Seq<char>>, Seq<char>) {
    (
        match g.0 {
            Some(s) => Some(s@),
            None => None,
        },
        g.1@,
    )
}

/// Popup listing groups, for one password.
pub struct GroupPicker {
    id: ComponentId,
    groups: Vec<(Option<String>, String)>,
    selected: usize,
    password_id: String,
    visible: bool,
}

impl View for GroupPicker {
    type V = GroupPickerView;

    closed spec fn view(&self) -> GroupPickerView {
        GroupPickerView {
            id: self.id,
            groups: self.groups@.map_values(|g: (Option<String>, String)| group_view(g)),
            selected: self.selected as nat,
            password_id: self.password_id@,
            visible: self.visible,
        }
    }
}

impl GroupPicker {
    /// A hidden picker without groups; its identifier is 200.
    pub fn new() -> (r: Self)
        ensures
            r@.groups == Seq::<(Option<Seq<char>>, Seq<char>)>::empty(),
            r@.selected == 0,
            r@.password_id == Seq::<char>::empty(),
            !r@.visible,
            r@.id.spec_value() == 200,
    {
        let r = GroupPicker { id: ComponentId::new(200), groups: Vec::new(), selected: 0, password_id: String::new(), visible: false };
        assert(r@.groups =~= Seq::<(Option<Seq<char>>, Seq<char>)>::empty());
        r
    }

    /// Shows the picker for a password with the given groups, the first one selected.
    pub fn show(&mut self, password_id: String, groups: Vec<(Option<String>, String)>)
        ensures
            final(self)@ == (GroupPickerView {
                groups: groups@.map_values(|g: (Option<String>, String)| group_view(g)),
                selected: 0,
                password_id: password_id@,
                visible: true,
                ..old(self)@
            }),
    {
        self.password_id = password_id;
        self.groups = groups;
        self.selected = 0;
        self.visible = true;
    }

    /// Hides the picker.
    pub fn hide_picker(&mut self)
        ensures
            final(self)@ == (GroupPickerView { visible: false, ..old(self)@ }),
    {
        self.visible = false;
    }

    /// Whether the picker is shown.
    pub fn is_visible(&self) -> (b: bool)
        ensures
            b == self@.visible,
    {
        self.visible
    }

    /// The identifier of the selected group; `None` for "ungrouped" or when no group is listed.
    pub fn selected_group_id(&self) -> (r: Option<&str>)
        ensures
            self@.selected < self@.groups.len() ==> match self@.groups[self@.selected as int].0 {
                Some(g) => r is Some && r->0@ == g,
                None => r is None,
            },
            self@.selected >= self@.groups.len() ==> r is None,
    {
        if self.selected < self.groups.len() {
            assert(self@.groups[self.selected as int] == group_view(self.groups@[self.selected as int]));
            match &self.groups[self.selected].0 {
                Some(s) => Some(s.as_str()),
                None => None,
            }
        } else {
            None
        }
    }

    /// The password the picker is shown for.
    pub fn password_id(&self) -> (r: &str)
        ensures
            r@ == self@.password_id,
    {
        self.password_id.as_str()
    }

    /// Handles a key while the picker is shown: Esc hides it, j and Down move
    /// down, k and Up move up, and every other key is absorbed.
    pub fn handle_key(&mut self, key: KeyEvent) -> (r: HandleResult)
        ensures
            key.kind == KeyEventKind::Release || !old(self)@.visible ==> r is Ignored && final(self)@ == old(self)@,
            key.kind != KeyEventKind::Release && old(self)@.visible ==> {
                &&& r is Consumed
                &&& final(self)@ == (GroupPickerView {
                    selected: picker_selection_after(old(self)@.selected, old(self)@.groups.len(), key.code),
                    visible: key.code != KeyCode::Esc,
                    ..old(self)@
                })
            },
    {
        if key.kind == KeyEventKind::Release || !self.visible {
            return HandleResult::Ignored;
        }
        match key.code {
            KeyCode::Esc => {
                self.hide_picker();
                HandleResult::Consumed
            },
            KeyCode::Char('j') | KeyCode::Down => {
                if self.selected < self.groups.len() && self.selected + 1 < self.groups.len() {
                    self.selected = self.selected + 1;
                }
                HandleResult::Consumed
            },
            KeyCode::Char('k') | KeyCode::Up => {
                if self.selected > 0 {
                    self.selected = self.selected - 1;
                }
                HandleResult::Consumed
            },
            _ => HandleResult::Consumed,
        }
    }

    /// The component identifier.
    pub fn id(&self) -> (r: ComponentId)
        ensures
            r == self@.id,
    {
        self.id
    }

    /// A group picker can always take the focus.
    pub fn can_focus(&self) -> (b: bool)
        ensures
            b,
    {
        true
    }
}

impl Default for GroupPicker {
    fn default() -> (r: Self)
        ensures
            !r@.visible,
            r@.selected == 0,
    {
        GroupPicker::new()
    }
}

/// Navigation never moves the selection out of a non-empty list.
pub proof fn law_picker_selection_in_bounds(selected: nat, n: nat, code: KeyCode)
    requires
        selected < n,
    ensures
        picker_selection_after(selected, n, code) < n,
{
}

/// The row of a group in the picker: its name with two spaces on each side.
pub open spec fn picker_row(name: Seq<char>) -> Seq<char> {
    "  "@ + name + "  "@
}

/// Where the picker is drawn on a screen of `width` by `height` cells: at
/// most 40 wide, four rows more than there are groups but four fewer than
/// the screen, centered; as `(x, y, width, height)`.
pub open spec fn picker_rect(groups: nat, width: u16, height: u16) -> (u16, u16, u16, u16) {
    let w: u16 = if width < 40 { width } else { 40 };
    let g: u16 = groups as u16;
    let want: u16 = if g as int + 4 > u16::MAX { u16::MAX } else { (g + 4) as u16 };
    let room: u16 = if height >= 4 { (height - 4) as u16 } else { 0 };
    let h: u16 = if want < room { want } else { room };
    (((width - w) / 2) as u16, ((height - h) / 2) as u16, w, h)
}

impl GroupPicker {
    /// The rows of the groups, in order, as [`picker_row`] says.
    pub fn row_texts(&self) -> (r: Vec<String>)
        ensures
            lines_view(r@) == self@.groups.map_values(|g: (Option<Seq<char>>, Seq<char>)| picker_row(g.1)),
    {
        let ghost gv = self@.groups;
        let mut out: Vec<String> = Vec::new();
        let mut i: usize = 0;
        while i < self.groups.len()
            invariant
                i <= self.groups@.len(),
                gv == self@.groups,
                gv.len() == self.groups@.len(),
                lines_view(out@) == gv.take(i as int).map_values(|g: (Option<Seq<char>>, Seq<char>)| picker_row(g.1)),
            decreases self.groups@.len() - i,
        {
            let mut t = String::from_str("  ");
            push_str(&mut t, self.groups[i].1.as_str());
            push_str(&mut t, "  ");
            assert(gv[i as int].1 == self.groups@[i as int].1@);
            let ghost before = out@;
            out.push(t);
            assert(lines_view(out@) =~= lines_view(before).push(picker_row(gv[i as int].1)));
            assert(gv.take(i + 1).map_values(|g: (Option<Seq<char>>, Seq<char>)| picker_row(g.1)) =~= gv.take(
                i as int,
            ).map_values(|g: (Option<Seq<char>>, Seq<char>)| picker_row(g.1)).push(picker_row(gv[i as int].1)));
            i = i + 1;
        }
        assert(gv.take(i as int) =~= gv);
        out
    }

    /// Where the picker is drawn, as [`picker_rect`] says.
    pub fn popup_area(&self, width: u16, height: u16) -> (r: (u16, u16, u16, u16))
        ensures
            r == picker_rect(self@.groups.len(), width, height),
    {
        let w: u16 = if width < 40 { width } else { 40 };
        let g: u16 = self.groups.len() as u16;
        let h: u16 = g.saturating_add(4);
        let room: u16 = height.saturating_sub(4);
        let h: u16 = if h < room { h } else { room };
        (width.saturating_sub(w) / 2, height.saturating_sub(h) / 2, w, h)
    }
}

} // verus!
