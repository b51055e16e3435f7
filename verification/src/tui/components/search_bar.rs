//! Search bar: a one-line query typed while the bar is shown.
//!
//! The query is held as characters; the cursor is a character index into it.
use vstd::prelude::*;
use crate::text::string_from_chars;
use crate::tui::traits::{ComponentId, HandleResult, KeyCode, KeyEvent, KeyEventKind};

verus! {

/// Model of a search bar.
pub struct SearchBarView {
    pub id: ComponentId,
    pub query: Seq<char>,
    pub visible: bool,
    pub cursor: nat,
}

/// The bar and the result after a key press of `code` on a shown bar.
pub open spec fn search_key(v: SearchBarView, code: KeyCode) -> (SearchBarView, HandleResult) {
    match code {
        KeyCode::Esc => (SearchBarView { visible: false, query: Seq::empty(), cursor: 0, ..v }, HandleResult::Consumed),
        KeyCode::Enter => (SearchBarView { visible: false, ..v }, HandleResult::Consumed),
        KeyCode::Char(c) => (
            SearchBarView { query: v.query.insert(v.cursor as int, c), cursor: v.cursor + 1, ..v },
            HandleResult::NeedsRender,
        ),
        KeyCode::Backspace => if v.cursor > 0 {
            (
                SearchBarView { query: v.query.remove(v.cursor - 1), cursor: (v.cursor - 1) as nat, ..v },
                HandleResult::NeedsRender,
            )
        } else {
            (v, HandleResult::Ignored)
        },
        KeyCode::Delete => if v.cursor < v.query.len() {
            (SearchBarView { query: v.query.remove(v.cursor as int), ..v }, HandleResult::NeedsRender)
        } else {
            (v, HandleResult::Ignored)
        },
        KeyCode::Left => if v.cursor > 0 {
            (SearchBarView { cursor: (v.cursor - 1) as nat, ..v }, HandleResult::Consumed)
        } else {
            (v, HandleResult::Ignored)
        },
        KeyCode::Right => if v.cursor < v.query.len() {
            (SearchBarView { cursor: v.cursor + 1, ..v }, HandleResult::Consumed)
        } else {
            (v, HandleResult::Ignored)
        },
        _ => (v, HandleResult::Ignored),
    }
}

/// Search bar.
pub struct SearchBar {
    id: ComponentId,
    query: Vec<char>,
    visible: bool,
    cursor_position: usize,
}

impl View for SearchBar {
    type V = SearchBarView;

    closed spec fn view(&self) -> SearchBarView {
        SearchBarView { id: self.id, query: self.query@, visible: self.visible, cursor: self.cursor_position as nat }
    }
}

impl SearchBar {
    /// The cursor lies within the query.
    pub closed spec fn wf(&self) -> bool {
        self.cursor_position <= self.query@.len()
    }

    /// A hidden bar with an empty query.
    pub fn new() -> (r: Self)
        ensures
            r.wf(),
            r@.query == Seq::<char>::empty(),
            !r@.visible,
            r@.cursor == 0,
            r@.id.spec_value() == 0,
    {
        SearchBar { id: ComponentId::new(0), query: Vec::new(), visible: false, cursor_position: 0 }
    }

    /// Shows the bar with an empty query.
    pub fn show(&mut self)
        ensures
            final(self).wf(),
            final(self)@ == (SearchBarView { visible: true, query: Seq::empty(), cursor: 0, ..old(self)@ }),
    {
        self.visible = true;
        self.query.clear();
        self.cursor_position = 0;
    }

    /// Hides the bar and clears the query.
    pub fn hide_bar(&mut self)
        ensures
            final(self).wf(),
            final(self)@ == (SearchBarView { visible: false, query: Seq::empty(), cursor: 0, ..old(self)@ }),
    {
        self.visible = false;
        self.query.clear();
        self.cursor_position = 0;
    }

    /// Whether the bar is shown.
    pub fn is_visible(&self) -> (b: bool)
        ensures
            b == self@.visible,
    {
        self.visible
    }

    /// The query typed so far.
    pub fn query(&self) -> (r: String)
        ensures
            r@ == self@.query,
    {
        string_from_chars(&self.query)
    }

    /// The cursor, as a character index into the query.
    pub fn cursor_position(&self) -> (r: usize)
        ensures
            r == self@.cursor,
    {
        self.cursor_position
    }

    /// Handles a key while the bar is shown: Esc hides it and clears the query,
    /// Enter hides it and keeps the query, characters are inserted at the
    /// cursor, Backspace, Delete, Left and Right edit and move as usual.
    pub fn handle_key(&mut self, key: KeyEvent) -> (r: HandleResult)
        requires
            old(self).wf(),
            old(self)@.query.len() < usize::MAX,
        ensures
            final(self).wf(),
            !old(self)@.visible || key.kind == KeyEventKind::Release ==> r is Ignored && final(self)@ == old(self)@,
            old(self)@.visible && key.kind != KeyEventKind::Release ==> (final(self)@, r) == search_key(
                old(self)@,
                key.code,
            ),
    {
        if !self.visible {
            return HandleResult::Ignored;
        }
        if key.kind == KeyEventKind::Release {
            return HandleResult::Ignored;
        }
        match key.code {
            KeyCode::Esc => {
                self.hide_bar();
                assert(self@ == search_key(old(self)@, key.code).0);
                HandleResult::Consumed
            },
            KeyCode::Enter => {
                self.visible = false;
                HandleResult::Consumed
            },
            KeyCode::Char(c) => {
                self.query.insert(self.cursor_position, c);
                self.cursor_position = self.cursor_position + 1;
                HandleResult::NeedsRender
            },
            KeyCode::Backspace => {
                if self.cursor_position > 0 {
                    self.cursor_position = self.cursor_position - 1;
                    self.query.remove(self.cursor_position);
                    HandleResult::NeedsRender
                } else {
                    HandleResult::Ignored
                }
            },
            KeyCode::Delete => {
                if self.cursor_position < self.query.len() {
                    self.query.remove(self.cursor_position);
                    HandleResult::NeedsRender
                } else {
                    HandleResult::Ignored
                }
            },
            KeyCode::Left => {
                if self.cursor_position > 0 {
                    self.cursor_position = self.cursor_position - 1;
                    HandleResult::Consumed
                } else {
                    HandleResult::Ignored
                }
            },
            KeyCode::Right => {
                if self.cursor_position < self.query.len() {
                    self.cursor_position = self.cursor_position + 1;
                    HandleResult::Consumed
                } else {
                    HandleResult::Ignored
                }
            },
            _ => HandleResult::Ignored,
        }
    }

    /// The component identifier.
    pub fn id(&self) -> (r: ComponentId)
        ensures
            r == self@.id,
    {
        self.id
    }

    /// A search bar can always take the focus.
    pub fn can_focus(&self) -> (b: bool)
        ensures
            b,
    {
        true
    }
}

impl Default for SearchBar {
    fn default() -> (r: Self)
        ensures
            r.wf(),
            r@.query == Seq::<char>::empty(),
            !r@.visible,
    {
        SearchBar::new()
    }
}

/// Typing a character on a shown bar and deleting it with Backspace gives the bar back.
pub proof fn law_search_type_then_backspace(v: SearchBarView, c: char)
    requires
        v.cursor <= v.query.len(),
    ensures
        search_key(search_key(v, KeyCode::Char(c)).0, KeyCode::Backspace).0 == v,
{
    assert(v.query.insert(v.cursor as int, c).remove(v.cursor as int) =~= v.query);
}

} // verus!
