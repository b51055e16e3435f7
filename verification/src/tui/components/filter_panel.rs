//! Vertical list of filters over the password entries; j/k move, Enter or
//! Space toggles the highlighted filter.
use vstd::prelude::*;
use vstd::string::StringExecFns;
use crate::text::{decimal, push_decimal, push_str};
use crate::tui::app_types::TuiResult;
use crate::tui::traits::{ComponentId, HandleResult, KeyCode, KeyEvent, KeyEventKind};

verus! {

/// A filter over password entries.
#[derive(Debug, Clone, Copy, PartialEq, Eq, Structural)]
pub enum FilterType {
    /// Entries in the trash.
    Trash,
    /// Entries whose password expired.
    Expired,
    /// Favorite entries.
    Favorite,
}

/// The set of active filters.
#[derive(Debug)]
pub struct FilterState {
    active: Vec<FilterType>,
}

impl FilterState {
    /// The active filters.
    pub closed spec fn active_set(&self) -> Set<FilterType> {
        self.active@.to_set()
    }

    /// No filter active.
    pub fn new() -> (r: Self)
        ensures
            r.active_set() == Set::<FilterType>::empty(),
    {
        let r = FilterState { active: Vec::new() };
        assert(r.active_set() =~= Set::<FilterType>::empty());
        r
    }

    fn position(&self, t: FilterType) -> (r: Option<usize>)
        ensures
            r matches Some(i) ==> i < self.active@.len() && self.active@[i as int] == t,
            r is None ==> !self.active@.contains(t),
    {
        let mut i: usize = 0;
        while i < self.active.len()
            invariant
                i <= self.active@.len(),
                forall|k: int| 0 <= k < i ==> self.active@[k] != t,
            decreases self.active@.len() - i,
        {
            if self.active[i] == t {
                return Some(i);
            }
            i = i + 1;
        }
        None
    }

    /// Whether filter `t` is active.
    pub fn is_active(&self, t: &FilterType) -> (b: bool)
        ensures
            b == self.active_set().contains(*t),
    {
        self.position(*t).is_some()
    }

    /// Turns filter `t` on where it is off and off where it is on.
    pub fn toggle(&mut self, t: FilterType)
        ensures
            old(self).active_set().contains(t) ==> final(self).active_set() == old(self).active_set().remove(t),
            !old(self).active_set().contains(t) ==> final(self).active_set() == old(self).active_set().insert(t),
    {
        match self.position(t) {
            Some(_) => {
                let mut kept: Vec<FilterType> = Vec::new();
                let mut i: usize = 0;
                while i < self.active.len()
                    invariant
                        i <= self.active@.len(),
                        forall|x: FilterType| kept@.contains(x) <==> (self.active@.take(i as int).contains(x) && x != t),
                    decreases self.active@.len() - i,
                {
                    let x = self.active[i];
                    let ghost before = kept@;
                    if x != t {
                        kept.push(x);
                    }
                    i = i + 1;
                    assert forall|y: FilterType| kept@.contains(y) <==> (self.active@.take(i as int).contains(y) && y != t) by {
                        let pre = self.active@.take(i - 1);
                        let cur = self.active@.take(i as int);
                        assert(cur =~= pre.push(x));
                        if kept@.contains(y) {
                            let k = choose|k: int| 0 <= k < kept@.len() && kept@[k] == y;
                            if k < before.len() {
                                assert(before[k] == y);
                                assert(before.contains(y));
                                let kk = choose|kk: int| 0 <= kk < pre.len() && pre[kk] == y;
                                assert(cur[kk] == y);
                            } else {
                                assert(y == x);
                                assert(cur[i - 1] == y);
                            }
                        }
                        if cur.contains(y) && y != t {
                            let kk = choose|kk: int| 0 <= kk < cur.len() && cur[kk] == y;
                            if kk < i - 1 {
                                assert(pre[kk] == y);
                                assert(pre.contains(y));
                                assert(before.contains(y));
                                let k = choose|k: int| 0 <= k < before.len() && before[k] == y;
                                assert(kept@[k] == y);
                            } else {
                                assert(y == x);
                                assert(kept@[before.len() as int] == y);
                            }
                        }
                    }
                }
                assert(self.active@.take(i as int) =~= self.active@);
                self.active = kept;
                assert(self.active_set() =~= old(self).active_set().remove(t));
            },
            None => {
                let ghost before = self.active@;
                self.active.push(t);
                assert forall|x: FilterType| self.active@.contains(x) <==> (before.contains(x) || x == t) by {
                    if before.contains(x) {
                        let k = choose|k: int| 0 <= k < before.len() && before[k] == x;
                        assert(self.active@[k] == x);
                    }
                    if x == t {
                        assert(self.active@[before.len() as int] == x);
                    }
                    if self.active@.contains(x) {
                        let k = choose|k: int| 0 <= k < self.active@.len() && self.active@[k] == x;
                        if k < before.len() {
                            assert(before[k] == x);
                        }
                    }
                }
                assert(self.active_set() =~= old(self).active_set().insert(t));
            },
        }
    }
}

/// Model of a filter entry.
pub struct FilterItemView {
    pub filter_type: FilterType,
    pub label: Seq<char>,
    pub icon: Seq<char>,
    pub count: usize,
}

/// One entry of the filter panel.
#[derive(Debug)]
pub struct FilterItem {
    pub filter_type: FilterType,
    pub label: String,
    pub icon: String,
    /// Number of entries the filter matches.
    pub count: usize,
}

impl View for FilterItem {
    type V = FilterItemView;

    open spec fn view(&self) -> FilterItemView {
        FilterItemView { filter_type: self.filter_type, label: self.label@, icon: self.icon@, count: self.count }
    }
}

impl FilterItem {
    /// An entry with no count yet.
    pub fn new(filter_type: FilterType, label: &str, icon: &str) -> (r: Self)
        ensures
            r@ == (FilterItemView { filter_type, label: label@, icon: icon@, count: 0 }),
    {
        FilterItem { filter_type, label: String::from_str(label), icon: String::from_str(icon), count: 0 }
    }

    /// Sets the count.
    pub fn with_count(self, count: usize) -> (r: Self)
        ensures
            r@ == (FilterItemView { count, ..self@ }),
    {
        let mut s = self;
        s.count = count;
        s
    }

    /// A copy of this entry.
    pub fn duplicate(&self) -> (r: Self)
        ensures
            r@ == self@,
    {
        FilterItem { filter_type: self.filter_type, label: self.label.clone(), icon: self.icon.clone(), count: self.count }
    }
}

impl Default for FilterItem {
    fn default() -> (r: Self)
        ensures
            r@ == (FilterItemView { filter_type: FilterType::Trash, label: "Trash"@, icon: "🗑"@, count: 0 }),
    {
        FilterItem::new(FilterType::Trash, "Trash", "🗑")
    }
}

/// Model of a filter panel.
pub struct FilterPanelView {
    pub id: ComponentId,
    pub items: Seq<FilterItemView>,
    pub highlighted: nat,
    pub focused: bool,
}

/// The highlighted index after moving down, wrapping to the top.
pub open spec fn filter_index_down(i: nat, n: nat) -> nat {
    if n == 0 {
        i
    } else if i < n - 1 {
        i + 1
    } else {
        0
    }
}

/// The highlighted index after moving up, wrapping to the bottom.
pub open spec fn filter_index_up(i: nat, n: nat) -> nat {
    if n == 0 {
        i
    } else if i > 0 {
        (i - 1) as nat
    } else {
        (n - 1) as nat
    }
}

/// The items after setting the count of the first item of each listed type.
pub open spec fn counts_applied(items: Seq<FilterItemView>, counts: Seq<(FilterType, usize)>) -> Seq<FilterItemView>
    decreases counts.len(),
{
    if counts.len() == 0 {
        items
    } else {
        let prev = counts_applied(items, counts.drop_last());
        let (t, c) = counts.last();
        match first_of_type(prev, t) {
            Some(i) => prev.update(i, FilterItemView { count: c, ..prev[i] }),
            None => prev,
        }
    }
}

/// Index of the first item of type `t`.
pub open spec fn first_of_type(items: Seq<FilterItemView>, t: FilterType) -> Option<int>
    decreases items.len(),
{
    if items.len() == 0 {
        None
    } else {
        match first_of_type(items.drop_last(), t) {
            Some(i) => Some(i),
            None => if items.last().filter_type == t {
                Some(items.len() - 1)
            } else {
                None
            },
        }
    }
}

/// The default entries: trash, expired and favorite.
pub open spec fn default_filter_items() -> Seq<FilterItemView> {
    seq![
        FilterItemView { filter_type: FilterType::Trash, label: "Trash"@, icon: "🗑"@, count: 0 },
        FilterItemView { filter_type: FilterType::Expired, label: "Expired"@, icon: "⏰"@, count: 0 },
        FilterItemView { filter_type: FilterType::Favorite, label: "Favorite"@, icon: "⭐"@, count: 0 },
    ]
}

/// Panel of filters.
pub struct FilterPanel {
    id: ComponentId,
    items: Vec<FilterItem>,
    highlighted_index: usize,
    focused: bool,
}

impl View for FilterPanel {
    type V = FilterPanelView;

    closed spec fn view(&self) -> FilterPanelView {
        FilterPanelView {
            id: self.id,
            items: self.items@.map_values(|i: FilterItem| i@),
            highlighted: self.highlighted_index as nat,
            focused: self.focused,
        }
    }
}

impl FilterPanel {
    /// A panel with the default entries, the first highlighted.
    pub fn new() -> (r: Self)
        ensures
            r@.items == default_filter_items(),
            r@.highlighted == 0,
            !r@.focused,
            r@.id.spec_value() == 0,
    {
        let mut items: Vec<FilterItem> = Vec::new();
        items.push(FilterItem::new(FilterType::Trash, "Trash", "🗑"));
        items.push(FilterItem::new(FilterType::Expired, "Expired", "⏰"));
        items.push(FilterItem::new(FilterType::Favorite, "Favorite", "⭐"));
        let r = FilterPanel { id: ComponentId::new(0), items, highlighted_index: 0, focused: false };
        assert(r@.items =~= default_filter_items());
        r
    }

    /// A panel with the given entries, the first highlighted.
    pub fn with_items(items: Vec<FilterItem>) -> (r: Self)
        ensures
            r@.items == items@.map_values(|i: FilterItem| i@),
            r@.highlighted == 0,
            !r@.focused,
            r@.id.spec_value() == 0,
    {
        FilterPanel { id: ComponentId::new(0), items, highlighted_index: 0, focused: false }
    }

    /// Sets the component identifier.
    pub fn with_id(self, id: ComponentId) -> (r: Self)
        ensures
            r@ == (FilterPanelView { id, ..self@ }),
    {
        let mut s = self;
        s.id = id;
        s
    }

    /// The entries.
    pub fn items(&self) -> (r: &Vec<FilterItem>)
        ensures
            r@.map_values(|i: FilterItem| i@) == self@.items,
    {
        &self.items
    }

    /// The index of the highlighted entry.
    pub fn highlighted_index(&self) -> (r: usize)
        ensures
            r == self@.highlighted,
    {
        self.highlighted_index
    }

    /// Moves the highlight up, wrapping to the bottom.
    pub fn move_up(&mut self)
        ensures
            final(self)@ == (FilterPanelView {
                highlighted: filter_index_up(old(self)@.highlighted, old(self)@.items.len()),
                ..old(self)@
            }),
    {
        if self.items.len() > 0 {
            if self.highlighted_index > 0 {
                self.highlighted_index = self.highlighted_index - 1;
            } else {
                self.highlighted_index = self.items.len() - 1;
            }
        }
    }

    /// Moves the highlight down, wrapping to the top.
    pub fn move_down(&mut self)
        ensures
            final(self)@ == (FilterPanelView {
                highlighted: filter_index_down(old(self)@.highlighted, old(self)@.items.len()),
                ..old(self)@
            }),
    {
        if self.items.len() > 0 {
            if self.highlighted_index < self.items.len() - 1 {
                self.highlighted_index = self.highlighted_index + 1;
            } else {
                self.highlighted_index = 0;
            }
        }
    }

    /// The highlighted entry, if the index is within the list.
    pub fn highlighted_item(&self) -> (r: Option<&FilterItem>)
        ensures
            self@.highlighted < self@.items.len() ==> r is Some && r->0@ == self@.items[self@.highlighted as int],
            self@.highlighted >= self@.items.len() ==> r is None,
    {
        if self.highlighted_index < self.items.len() {
            Some(&self.items[self.highlighted_index])
        } else {
            None
        }
    }

    /// Whether the panel has the focus.
    pub fn is_focused(&self) -> (b: bool)
        ensures
            b == self@.focused,
    {
        self.focused
    }

    /// Toggles the filter of the highlighted entry.
    pub fn toggle_highlighted(&mut self, state: &mut FilterState)
        ensures
            final(self)@ == old(self)@,
            old(self)@.highlighted < old(self)@.items.len() ==> {
                let t = old(self)@.items[old(self)@.highlighted as int].filter_type;
                &&& old(state).active_set().contains(t) ==> final(state).active_set() == old(state).active_set().remove(t)
                &&& !old(state).active_set().contains(t) ==> final(state).active_set() == old(state).active_set().insert(t)
            },
            old(self)@.highlighted >= old(self)@.items.len() ==> final(state).active_set() == old(state).active_set(),
    {
        if self.highlighted_index < self.items.len() {
            let t = self.items[self.highlighted_index].filter_type;
            state.toggle(t);
        }
    }

    /// Sets the count of the first entry of each listed filter type, in order.
    pub fn update_counts(&mut self, counts: Vec<(FilterType, usize)>)
        ensures
            final(self)@ == (FilterPanelView { items: counts_applied(old(self)@.items, counts@), ..old(self)@ }),
    {
        let mut k: usize = 0;
        while k < counts.len()
            invariant
                k <= counts@.len(),
                self@ == (FilterPanelView { items: counts_applied(old(self)@.items, counts@.take(k as int)), ..old(self)@ }),
            decreases counts@.len() - k,
        {
            let (t, c) = counts[k];
            assert(counts@.take(k + 1).drop_last() =~= counts@.take(k as int));
            let ghost prev = self@.items;
            let mut i: usize = 0;
            let mut found: Option<usize> = None;
            while i < self.items.len()
                invariant_except_break
                    i <= self.items@.len(),
                    first_of_type(prev.take(i as int), t) is None,
                    found is None,
                invariant
                    prev == self@.items,
                    self.items@.len() == prev.len(),
                ensures
                    found matches Some(j) ==> first_of_type(prev, t) == Some(j as int) && j < prev.len(),
                    found is None ==> first_of_type(prev.take(i as int), t) is None && i == prev.len(),
                decreases self.items@.len() - i,
            {
                assert(prev.take(i + 1).drop_last() =~= prev.take(i as int));
                if self.items[i].filter_type == t {
                    proof {
                        lemma_first_of_type_prefix(prev, t, i + 1);
                    }
                    found = Some(i);
                    break;
                }
                i = i + 1;
            }
            match found {
                Some(j) => {
                    let mut item = self.items[j].duplicate();
                    item.count = c;
                    self.items.set(j, item);
                    assert(self@.items =~= prev.update(j as int, FilterItemView { count: c, ..prev[j as int] }));
                },
                None => {
                    assert(prev.take(prev.len() as int) =~= prev);
                },
            }
            k = k + 1;
        }
        assert(counts@.take(k as int) =~= counts@);
    }

    /// Handles a key: j and Down move down, k and Up move up (both wrapping).
    pub fn handle_key(&mut self, key: KeyEvent) -> (r: HandleResult)
        ensures
            key.kind == KeyEventKind::Release ==> r is Ignored && final(self)@ == old(self)@,
            key.kind != KeyEventKind::Release ==> match key.code {
                KeyCode::Char('j') | KeyCode::Down => r is Consumed && final(self)@ == (FilterPanelView {
                    highlighted: filter_index_down(old(self)@.highlighted, old(self)@.items.len()),
                    ..old(self)@
                }),
                KeyCode::Char('k') | KeyCode::Up => r is Consumed && final(self)@ == (FilterPanelView {
                    highlighted: filter_index_up(old(self)@.highlighted, old(self)@.items.len()),
                    ..old(self)@
                }),
                _ => r is Ignored && final(self)@ == old(self)@,
            },
    {
        if key.kind == KeyEventKind::Release {
            return HandleResult::Ignored;
        }
        match key.code {
            KeyCode::Char('j') | KeyCode::Down => {
                self.move_down();
                HandleResult::Consumed
            },
            KeyCode::Char('k') | KeyCode::Up => {
                self.move_up();
                HandleResult::Consumed
            },
            _ => HandleResult::Ignored,
        }
    }

    /// Handles a key with access to the filter state: navigation as in
    /// `handle_key`, and Enter or Space toggles the highlighted filter.
    pub fn handle_key_with_state(&mut self, key: KeyEvent, state: &mut FilterState) -> (r: HandleResult)
        ensures
            key.kind == KeyEventKind::Release ==> r is Ignored && final(self)@ == old(self)@ && final(state).active_set()
                == old(state).active_set(),
            key.kind != KeyEventKind::Release ==> match key.code {
                KeyCode::Char('j') | KeyCode::Down => r is Consumed && final(self)@ == (FilterPanelView {
                    highlighted: filter_index_down(old(self)@.highlighted, old(self)@.items.len()),
                    ..old(self)@
                }) && final(state).active_set() == old(state).active_set(),
                KeyCode::Char('k') | KeyCode::Up => r is Consumed && final(self)@ == (FilterPanelView {
                    highlighted: filter_index_up(old(self)@.highlighted, old(self)@.items.len()),
                    ..old(self)@
                }) && final(state).active_set() == old(state).active_set(),
                KeyCode::Enter | KeyCode::Char(' ') => r is Consumed && final(self)@ == old(self)@ && (old(self)@.highlighted
                    < old(self)@.items.len() ==> {
                    let t = old(self)@.items[old(self)@.highlighted as int].filter_type;
                    final(state).active_set().contains(t) != old(state).active_set().contains(t)
                }),
                _ => r is Ignored && final(self)@ == old(self)@ && final(state).active_set() == old(state).active_set(),
            },
    {
        if key.kind == KeyEventKind::Release {
            return HandleResult::Ignored;
        }
        match key.code {
            KeyCode::Char('j') | KeyCode::Down => {
                self.move_down();
                HandleResult::Consumed
            },
            KeyCode::Char('k') | KeyCode::Up => {
                self.move_up();
                HandleResult::Consumed
            },
            KeyCode::Enter | KeyCode::Char(' ') => {
                self.toggle_highlighted(state);
                HandleResult::Consumed
            },
            _ => HandleResult::Ignored,
        }
    }

    /// The component identifier.
    pub fn id(&self) -> (r: ComponentId)
        ensures
            r == self@.id,
    {
        self.id
    }

    /// The panel can take the focus.
    pub fn can_focus(&self) -> (b: bool)
        ensures
            b,
    {
        true
    }

    /// Takes the focus.
    pub fn on_focus_gain(&mut self) -> (r: TuiResult<()>)
        ensures
            r is Ok,
            final(self)@ == (FilterPanelView { focused: true, ..old(self)@ }),
    {
        self.focused = true;
        Ok(())
    }

    /// Gives up the focus.
    pub fn on_focus_loss(&mut self) -> (r: TuiResult<()>)
        ensures
            r is Ok,
            final(self)@ == (FilterPanelView { focused: false, ..old(self)@ }),
    {
        self.focused = false;
        Ok(())
    }
}

impl Default for FilterPanel {
    fn default() -> (r: Self)
        ensures
            r@.items == default_filter_items(),
            r@.highlighted == 0,
    {
        FilterPanel::new()
    }
}

proof fn lemma_first_of_type_prefix(items: Seq<FilterItemView>, t: FilterType, n: int)
    requires
        0 < n <= items.len(),
        items[n - 1].filter_type == t,
        first_of_type(items.take(n - 1), t) is None,
    ensures
        first_of_type(items, t) == Some(n - 1),
    decreases items.len(),
{
    if n < items.len() {
        assert(items.drop_last().take(n - 1) =~= items.take(n - 1));
        lemma_first_of_type_prefix(items.drop_last(), t, n);
    } else {
        assert(items.drop_last() =~= items.take(n - 1));
    }
}

/// Moving down and then up gives the highlight back, on a non-empty list.
pub proof fn law_filter_down_then_up(i: nat, n: nat)
    requires
        i < n,
    ensures
        filter_index_up(filter_index_down(i, n), n) == i,
        filter_index_down(filter_index_up(i, n), n) == i,
        filter_index_down(i, n) < n,
        filter_index_up(i, n) < n,
{
}

/// Toggling the same filter twice gives the filter set back.
pub proof fn law_toggle_twice(s: Set<FilterType>, t: FilterType)
    ensures
        s.contains(t) ==> s.remove(t).insert(t) == s,
        !s.contains(t) ==> s.insert(t).remove(t) == s,
{
    assert(s.contains(t) ==> s.remove(t).insert(t) =~= s);
    assert(!s.contains(t) ==> s.insert(t).remove(t) =~= s);
}

/// The row of a filter: a check mark for an active filter, its icon, its
/// label and, where it matches entries, their number.
pub open spec fn filter_row(label: Seq<char>, icon: Seq<char>, count: nat, active: bool) -> Seq<char> {
    (if active {
        "[x]"@
    } else {
        "[ ]"@
    }) + " "@ + icon + " "@ + label + if count > 0 {
        " ("@ + decimal(count) + ")"@
    } else {
        Seq::empty()
    }
}

impl FilterItem {
    /// The row of this filter, as [`filter_row`] says.
    pub fn row_text(&self, active: bool) -> (r: String)
        ensures
            r@ == filter_row(self.label@, self.icon@, self.count as nat, active),
    {
        let mut s = if active {
            String::from_str("[x]")
        } else {
            String::from_str("[ ]")
        };
        push_str(&mut s, " ");
        push_str(&mut s, self.icon.as_str());
        push_str(&mut s, " ");
        push_str(&mut s, self.label.as_str());
        if self.count > 0 {
            push_str(&mut s, " (");
            push_decimal(&mut s, self.count);
            push_str(&mut s, ")");
        }
        s
    }
}

} // verus!
