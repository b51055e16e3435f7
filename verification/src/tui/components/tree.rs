//! Tree view with Vim-style navigation and folders that expand and collapse.
use vstd::prelude::*;
use vstd::string::StringExecFns;
use crate::text::{push_char, push_str};
use crate::tui::app_types::TuiResult;
use crate::tui::traits::{ComponentId, HandleResult, KeyCode, KeyEvent, KeyEventKind};

verus! {

/// What a tree node holds.
#[derive(Debug)]
pub enum TreeNodeItem<T> {
    /// A folder with the number of children it reports.
    Folder { name: String, child_count: usize },
    /// An entry carrying a value.
    Leaf { name: String, value: T },
}

/// A node of a tree.
#[derive(Debug)]
pub struct TreeNode<T> {
    pub id: String,
    pub level: u8,
    pub item: TreeNodeItem<T>,
    pub children: Vec<TreeNode<T>>,
    pub expanded: bool,
    pub parent_id: Option<String>,
}

/// One row of the tree as shown: a node and where it sits.
pub struct VisibleEntry {
    pub id: Seq<char>,
    pub name: Seq<char>,
    pub level: nat,
    pub is_folder: bool,
    pub expanded: bool,
    /// Child indices leading from the root to the node.
    pub path: Seq<usize>,
}

/// The row for a node at `depth`, reached by `path`.
pub open spec fn entry_of<T>(n: TreeNode<T>, depth: nat, path: Seq<usize>) -> VisibleEntry {
    VisibleEntry { id: n.id@, name: item_name(n.item), level: depth, is_folder: n.item is Folder, expanded: n.expanded, path }
}

/// The name of a tree item.
pub open spec fn item_name<T>(item: TreeNodeItem<T>) -> Seq<char> {
    match item {
        TreeNodeItem::Folder { name, .. } => name@,
        TreeNodeItem::Leaf { name, .. } => name@,
    }
}

/// The depth of the children of a node at `depth`.
pub open spec fn child_depth(depth: nat) -> nat {
    if depth < usize::MAX {
        depth + 1
    } else {
        depth
    }
}

/// The rows of a node and, where it is expanded, of its descendants, in pre-order.
pub open spec fn flatten<T>(n: TreeNode<T>, depth: nat, path: Seq<usize>) -> Seq<VisibleEntry>
    decreases n, 1nat,
{
    seq![entry_of(n, depth, path)] + if n.expanded {
        flatten_list(n.children@, depth, path, n.children@.len())
    } else {
        Seq::empty()
    }
}

/// The rows of the first `k` children of a node at `depth` reached by `path`.
pub open spec fn flatten_list<T>(cs: Seq<TreeNode<T>>, depth: nat, path: Seq<usize>, k: nat) -> Seq<VisibleEntry>
    decreases cs, 0nat, k,
{
    if k == 0 || k > cs.len() {
        Seq::empty()
    } else {
        flatten_list(cs, depth, path, (k - 1) as nat) + flatten(cs[k - 1], child_depth(depth), path.push((k - 1) as usize))
    }
}

/// A row of the tree as the component keeps it.
#[derive(Debug)]
struct Row {
    id: String,
    name: String,
    level: usize,
    is_folder: bool,
    expanded: bool,
    path: Vec<usize>,
}

impl View for Row {
    type V = VisibleEntry;

    closed spec fn view(&self) -> VisibleEntry {
        VisibleEntry {
            id: self.id@,
            name: self.name@,
            level: self.level as nat,
            is_folder: self.is_folder,
            expanded: self.expanded,
            path: self.path@,
        }
    }
}

/// The rows of a list, each by its model.
spec fn rows_view(rs: Seq<Row>) -> Seq<VisibleEntry> {
    rs.map_values(|r: Row| r@)
}

fn copy_path(p: &Vec<usize>) -> (r: Vec<usize>)
    ensures
        r@ == p@,
{
    let mut r: Vec<usize> = Vec::new();
    let mut i: usize = 0;
    while i < p.len()
        invariant
            i <= p@.len(),
            r@ == p@.take(i as int),
        decreases p@.len() - i,
    {
        r.push(p[i]);
        i = i + 1;
        assert(r@ =~= p@.take(i as int));
    }
    assert(p@.take(i as int) =~= p@);
    r
}

fn collect<T>(node: &TreeNode<T>, depth: usize, path: &Vec<usize>, out: &mut Vec<Row>)
    ensures
        rows_view(final(out)@) == rows_view(old(out)@) + flatten(*node, depth as nat, path@),
    decreases node,
{
    let ghost start = rows_view(out@);
    let row = Row {
        id: node.id.clone(),
        name: String::from_str(node.name()),
        level: depth,
        is_folder: match &node.item {
            TreeNodeItem::Folder { .. } => true,
            _ => false,
        },
        expanded: node.expanded,
        path: copy_path(path),
    };
    out.push(row);
    assert(rows_view(out@) =~= start.push(entry_of(*node, depth as nat, path@)));
    if node.expanded {
        let next_depth: usize = if depth < usize::MAX {
            depth + 1
        } else {
            depth
        };
        let mut j: usize = 0;
        while j < node.children.len()
            invariant
                j <= node.children@.len(),
                node.expanded,
                next_depth as nat == child_depth(depth as nat),
                rows_view(out@) == start + seq![entry_of(*node, depth as nat, path@)] + flatten_list(
                    node.children@,
                    depth as nat,
                    path@,
                    j as nat,
                ),
            decreases node.children@.len() - j,
        {
            let mut child_path = copy_path(path);
            child_path.push(j);
            let ghost before = rows_view(out@);
            proof {
                assert(decreases_to!(*node => node.children@[j as int]));
            }
            collect(&node.children[j], next_depth, &child_path, out);
            j = j + 1;
            assert(flatten_list(node.children@, depth as nat, path@, j as nat) == flatten_list(
                node.children@,
                depth as nat,
                path@,
                (j - 1) as nat,
            ) + flatten(node.children@[j - 1], child_depth(depth as nat), path@.push((j - 1) as usize)));
        }
        assert(rows_view(out@) =~= start + flatten(*node, depth as nat, path@));
    } else {
        assert(rows_view(out@) =~= start + flatten(*node, depth as nat, path@));
    }
}

/// The first node with identifier `id` in pre-order.
pub open spec fn find_node<T>(n: TreeNode<T>, id: Seq<char>) -> Option<TreeNode<T>>
    decreases n, 1nat,
{
    if n.id@ == id {
        Some(n)
    } else {
        find_in_list(n.children@, id, n.children@.len())
    }
}

/// The first node with identifier `id` among the subtrees of the first `k` nodes.
pub open spec fn find_in_list<T>(cs: Seq<TreeNode<T>>, id: Seq<char>, k: nat) -> Option<TreeNode<T>>
    decreases cs, 0nat, k,
{
    if k == 0 || k > cs.len() {
        None
    } else {
        match find_in_list(cs, id, (k - 1) as nat) {
            Some(x) => Some(x),
            None => find_node(cs[k - 1], id),
        }
    }
}

/// The fields of a node other than its children and its expansion.
pub open spec fn same_node_fields<T>(a: TreeNode<T>, b: TreeNode<T>) -> bool {
    b.id == a.id && b.level == a.level && b.item == a.item && b.parent_id == a.parent_id
}

/// `b` is `a` with the expansion of the node at `path` set to `v`; where
/// `path` leads nowhere, `b` is `a`.
pub open spec fn expanded_set<T>(a: TreeNode<T>, b: TreeNode<T>, path: Seq<usize>, v: bool) -> bool
    decreases path.len(),
{
    if path.len() == 0 {
        same_node_fields(a, b) && b.children@ == a.children@ && b.expanded == v
    } else {
        let i = path[0] as int;
        if i < a.children@.len() {
            &&& same_node_fields(a, b)
            &&& b.expanded == a.expanded
            &&& b.children@.len() == a.children@.len()
            &&& forall|j: int| 0 <= j < a.children@.len() && j != i ==> b.children@[j] == a.children@[j]
            &&& expanded_set(a.children@[i], b.children@[i], path.drop_first(), v)
        } else {
            b == a
        }
    }
}

impl<T> TreeNode<T> {
    /// Whether the node is a folder.
    pub fn is_folder(&self) -> (b: bool)
        ensures
            b == (self.item is Folder),
    {
        match &self.item {
            TreeNodeItem::Folder { .. } => true,
            TreeNodeItem::Leaf { .. } => false,
        }
    }

    /// The name of the node.
    pub fn name(&self) -> (r: &str)
        ensures
            r@ == item_name(self.item),
    {
        match &self.item {
            TreeNodeItem::Folder { name, .. } => name.as_str(),
            TreeNodeItem::Leaf { name, .. } => name.as_str(),
        }
    }

    /// Expands a collapsed node or collapses an expanded one.
    pub fn toggle_expanded(&mut self)
        ensures
            expanded_set(*old(self), *final(self), Seq::empty(), !old(self).expanded),
    {
        self.expanded = !self.expanded;
    }

    /// Sets whether the node is expanded.
    pub fn set_expanded(&mut self, expanded: bool)
        ensures
            expanded_set(*old(self), *final(self), Seq::empty(), expanded),
    {
        self.expanded = expanded;
    }

    /// The first node with identifier `id` in pre-order, this node included.
    pub fn find(&self, id: &str) -> (r: Option<&TreeNode<T>>)
        ensures
            r matches Some(x) ==> find_node(*self, id@) == Some(*x),
            r is None ==> find_node(*self, id@) is None,
        decreases self,
    {
        let target = String::from_str(id);
        if self.id == target {
            return Some(self);
        }
        let mut j: usize = 0;
        while j < self.children.len()
            invariant
                j <= self.children@.len(),
                self.id@ != id@,
                find_in_list(self.children@, id@, j as nat) is None,
            decreases self.children@.len() - j,
        {
            proof {
                assert(decreases_to!(*self => self.children@[j as int]));
            }
            match self.children[j].find(id) {
                Some(x) => {
                    assert(find_in_list(self.children@, id@, (j + 1) as nat) == Some(*x));
                    proof {
                        lemma_find_in_list_found(self.children@, id@, (j + 1) as nat);
                    }
                    return Some(x);
                },
                None => {},
            }
            j = j + 1;
        }
        None
    }
}

proof fn lemma_find_in_list_found<T>(cs: Seq<TreeNode<T>>, id: Seq<char>, k: nat)
    requires
        k <= cs.len(),
        find_in_list(cs, id, k) is Some,
    ensures
        find_in_list(cs, id, cs.len()) == find_in_list(cs, id, k),
    decreases cs.len() - k,
{
    if k < cs.len() {
        lemma_find_in_list_found(cs, id, k + 1);
    }
}

fn set_expanded_at<T>(node: &mut TreeNode<T>, path: &Vec<usize>, from: usize, v: bool)
    requires
        from <= path@.len(),
    ensures
        expanded_set(*old(node), *final(node), path@.skip(from as int), v),
    decreases path@.len() - from,
{
    if from == path.len() {
        node.expanded = v;
        assert(path@.skip(from as int) =~= Seq::<usize>::empty());
        return;
    }
    let i = path[from];
    assert(path@.skip(from as int)[0] == i);
    assert(path@.skip(from as int).drop_first() =~= path@.skip(from + 1));
    if i >= node.children.len() {
        return;
    }
    let ghost before = node.children@;
    let mut child = node.children.remove(i);
    set_expanded_at(&mut child, path, from + 1, v);
    node.children.insert(i, child);
    assert forall|j: int| 0 <= j < before.len() && j != i implies node.children@[j] == before[j] by {
        if j < i {
        } else {
        }
    }
}

fn first_row_index(rows: &Vec<Row>, id: &String) -> (r: Option<usize>)
    ensures
        r is None ==> first_row_with_id(rows_view(rows@), id@) is None,
        r is Some ==> first_row_with_id(rows_view(rows@), id@) == Some(r->0 as int),
{
    let ghost rv = rows_view(rows@);
    let mut k: usize = 0;
    while k < rows.len()
        invariant
            k <= rows@.len(),
            rv == rows_view(rows@),
            first_row_with_id(rv.take(k as int), id@) is None,
        decreases rows@.len() - k,
    {
        assert(rv.take(k + 1).drop_last() =~= rv.take(k as int));
        assert(rv.take(k + 1).last() == rows@[k as int]@);
        if rows[k].id == *id {
            proof {
                lemma_first_row_at(rv, id@, k as int);
            }
            return Some(k);
        }
        k = k + 1;
    }
    assert(rv.take(k as int) =~= rv);
    None
}

/// The text of a shown row: two spaces a level, the marker (`-` for an
/// expanded folder, `+` for a collapsed one, `•` for a leaf), a space and the name.
pub open spec fn row_text(e: VisibleEntry) -> Seq<char> {
    Seq::new(2 * e.level, |i: int| ' ') + (if e.is_folder {
        if e.expanded {
            "-"@
        } else {
            "+"@
        }
    } else {
        "•"@
    }) + " "@ + e.name
}

fn row_string(r: &Row) -> (s: String)
    ensures
        s@ == row_text(r@),
{
    let mut s = String::new();
    let mut k: usize = 0;
    while k < r.level
        invariant
            k <= r.level,
            s@ == Seq::new(2 * k as nat, |i: int| ' '),
        decreases r.level - k,
    {
        push_char(&mut s, ' ');
        push_char(&mut s, ' ');
        k = k + 1;
        assert(s@ =~= Seq::new(2 * k as nat, |i: int| ' '));
    }
    if r.is_folder {
        if r.expanded {
            push_str(&mut s, "-");
        } else {
            push_str(&mut s, "+");
        }
    } else {
        push_str(&mut s, "•");
    }
    push_str(&mut s, " ");
    push_str(&mut s, r.name.as_str());
    s
}

/// The smaller of two numbers.
pub open spec fn min_of(a: int, b: int) -> int {
    if a <= b {
        a
    } else {
        b
    }
}

/// Model of a tree component.
pub struct TreeComponentView<T> {
    pub id: ComponentId,
    pub root: TreeNode<T>,
    pub rows: Seq<VisibleEntry>,
    pub selected: nat,
    pub selected_id: Option<Seq<char>>,
    pub scroll: nat,
}

/// Index of the first row with identifier `id`.
pub open spec fn first_row_with_id(rows: Seq<VisibleEntry>, id: Seq<char>) -> Option<int>
    decreases rows.len(),
{
    if rows.len() == 0 {
        None
    } else {
        match first_row_with_id(rows.drop_last(), id) {
            Some(k) => Some(k),
            None => if rows.last().id == id {
                Some(rows.len() - 1)
            } else {
                None
            },
        }
    }
}

/// The selection after the rows are rebuilt: the first row of the selected
/// node; the top where nothing was selected yet; unchanged where the node is
/// no longer shown.
pub open spec fn index_after_refresh(rows: Seq<VisibleEntry>, selected_id: Option<Seq<char>>, old_index: nat) -> nat {
    match selected_id {
        None => 0,
        Some(id) => match first_row_with_id(rows, id) {
            Some(k) => k as nat,
            None => old_index,
        },
    }
}

/// The component after moving the selection to row `idx`.
pub open spec fn selected_at<T>(v: TreeComponentView<T>, idx: nat) -> TreeComponentView<T> {
    TreeComponentView {
        selected: idx,
        selected_id: if idx < v.rows.len() {
            Some(v.rows[idx as int].id)
        } else {
            v.selected_id
        },
        ..v
    }
}

/// The component after a move down, wrapping to the top.
pub open spec fn tree_moved_down<T>(v: TreeComponentView<T>) -> TreeComponentView<T> {
    if v.rows.len() == 0 {
        v
    } else if v.selected < v.rows.len() - 1 {
        selected_at(v, v.selected + 1)
    } else {
        selected_at(v, 0)
    }
}

/// The component after a move up, wrapping to the bottom.
pub open spec fn tree_moved_up<T>(v: TreeComponentView<T>) -> TreeComponentView<T> {
    if v.selected > 0 {
        selected_at(v, (v.selected - 1) as nat)
    } else if v.rows.len() > 0 {
        selected_at(v, (v.rows.len() - 1) as nat)
    } else {
        v
    }
}

/// The component after moving to the last row.
pub open spec fn tree_moved_bottom<T>(v: TreeComponentView<T>) -> TreeComponentView<T> {
    if v.rows.len() > 0 {
        selected_at(v, (v.rows.len() - 1) as nat)
    } else {
        v
    }
}

/// Whether `w` is `v` after setting the expansion of the selected folder to
/// `target` and rebuilding the rows; where no folder is selected, `w` is `v`.
pub open spec fn tree_expansion_changed<T>(v: TreeComponentView<T>, w: TreeComponentView<T>, target: bool) -> bool {
    if v.selected < v.rows.len() && v.rows[v.selected as int].is_folder {
        &&& expanded_set(v.root, w.root, v.rows[v.selected as int].path, target)
        &&& w.rows == flatten(w.root, 0, Seq::empty())
        &&& w.selected == index_after_refresh(w.rows, v.selected_id, v.selected)
        &&& w.id == v.id && w.selected_id == v.selected_id && w.scroll == v.scroll
    } else {
        w == v
    }
}

/// A tree of nodes shown as rows, one of which is selected.
pub struct TreeComponent<T> {
    id: ComponentId,
    root: TreeNode<T>,
    selected_id: Option<String>,
    visible_nodes: Vec<Row>,
    selected_index: usize,
    scroll_offset: usize,
}

impl<T> View for TreeComponent<T> {
    type V = TreeComponentView<T>;

    closed spec fn view(&self) -> TreeComponentView<T> {
        TreeComponentView {
            id: self.id,
            root: self.root,
            rows: rows_view(self.visible_nodes@),
            selected: self.selected_index as nat,
            selected_id: match self.selected_id {
                Some(s) => Some(s@),
                None => None,
            },
            scroll: self.scroll_offset as nat,
        }
    }
}

impl<T> TreeComponent<T> {
    /// The rows are those of the tree.
    pub open spec fn wf(&self) -> bool {
        self@.rows == flatten(self@.root, 0, Seq::empty())
    }

    /// A component showing `root`, its first row selected.
    pub fn new(root: TreeNode<T>) -> (r: Self)
        ensures
            r.wf(),
            r@.root == root,
            r@.selected == 0,
            r@.selected_id is None,
            r@.scroll == 0,
            r@.id.spec_value() == 0,
    {
        let mut c = TreeComponent {
            id: ComponentId::new(0),
            root,
            selected_id: None,
            visible_nodes: Vec::new(),
            selected_index: 0,
            scroll_offset: 0,
        };
        c.update_visible_nodes();
        c
    }

    /// Sets the component identifier.
    pub fn with_id(self, id: ComponentId) -> (r: Self)
        ensures
            r@ == (TreeComponentView { id, ..self@ }),
    {
        let mut s = self;
        s.id = id;
        s
    }

    /// The tree.
    pub fn root(&self) -> (r: &TreeNode<T>)
        ensures
            *r == self@.root,
    {
        &self.root
    }

    /// The index of the selected row.
    pub fn selected_index(&self) -> (r: usize)
        ensures
            r == self@.selected,
    {
        self.selected_index
    }

    /// Number of rows shown.
    pub fn visible_count(&self) -> (r: usize)
        ensures
            r == self@.rows.len(),
    {
        self.visible_nodes.len()
    }

    /// Rebuilds the rows from the tree and finds the selected node among them.
    pub fn update_visible_nodes(&mut self)
        ensures
            final(self)@ == (TreeComponentView {
                rows: flatten(old(self)@.root, 0, Seq::empty()),
                selected: index_after_refresh(flatten(old(self)@.root, 0, Seq::empty()), old(self)@.selected_id, old(self)@.selected),
                ..old(self)@
            }),
    {
        let mut rows: Vec<Row> = Vec::new();
        let empty: Vec<usize> = Vec::new();
        collect(&self.root, 0, &empty, &mut rows);
        assert(rows_view(rows@) =~= flatten(self@.root, 0, Seq::empty())) by {
            assert(rows_view(Seq::<Row>::empty()) =~= Seq::<VisibleEntry>::empty());
        }
        self.visible_nodes = rows;
        self.update_selected_index_from_path();
    }

    fn update_selected_index_from_path(&mut self)
        ensures
            final(self)@ == (TreeComponentView {
                selected: index_after_refresh(old(self)@.rows, old(self)@.selected_id, old(self)@.selected),
                ..old(self)@
            }),
    {
        let found = match &self.selected_id {
            None => Some(0),
            Some(id) => first_row_index(&self.visible_nodes, id),
        };
        match found {
            Some(k) => {
                self.selected_index = k;
            },
            None => {},
        }
    }

    fn select_row(&mut self, idx: usize)
        ensures
            final(self)@ == selected_at(old(self)@, idx as nat),
    {
        self.selected_index = idx;
        if idx < self.visible_nodes.len() {
            let id = self.visible_nodes[idx].id.clone();
            self.selected_id = Some(id);
        }
    }

    /// Moves the selection up, wrapping to the last row.
    pub fn move_up(&mut self)
        ensures
            final(self)@ == tree_moved_up(old(self)@),
    {
        if self.selected_index > 0 {
            self.select_row(self.selected_index - 1);
        } else if self.visible_nodes.len() > 0 {
            self.select_row(self.visible_nodes.len() - 1);
        }
    }

    /// Moves the selection down, wrapping to the first row.
    pub fn move_down(&mut self)
        ensures
            final(self)@ == tree_moved_down(old(self)@),
    {
        if self.visible_nodes.len() > 0 {
            if self.selected_index < self.visible_nodes.len() - 1 {
                self.select_row(self.selected_index + 1);
            } else {
                self.select_row(0);
            }
        }
    }

    /// Selects the first row.
    pub fn move_to_top(&mut self)
        ensures
            final(self)@ == selected_at(old(self)@, 0),
    {
        self.select_row(0);
    }

    /// Selects the last row.
    pub fn move_to_bottom(&mut self)
        ensures
            final(self)@ == tree_moved_bottom(old(self)@),
    {
        if self.visible_nodes.len() > 0 {
            self.select_row(self.visible_nodes.len() - 1);
        }
    }

    fn set_selected_expansion(&mut self, target: bool)
        requires
            old(self)@.selected < old(self)@.rows.len(),
            old(self)@.rows[old(self)@.selected as int].is_folder,
        ensures
            tree_expansion_changed(old(self)@, final(self)@, target),
    {
        let path = copy_path(&self.visible_nodes[self.selected_index].path);
        assert(rows_view(self.visible_nodes@)[self.selected_index as int] == self.visible_nodes@[self.selected_index as int]@);
        set_expanded_at(&mut self.root, &path, 0, target);
        assert(path@.skip(0) =~= path@);
        self.update_visible_nodes();
    }

    fn selected_folder(&self) -> (r: Option<bool>)
        ensures
            r is Some <==> (self@.selected < self@.rows.len() && self@.rows[self@.selected as int].is_folder),
            r is Some ==> r->0 == self@.rows[self@.selected as int].expanded,
    {
        if self.selected_index < self.visible_nodes.len() {
            assert(rows_view(self.visible_nodes@)[self.selected_index as int] == self.visible_nodes@[self.selected_index as int]@);
            if self.visible_nodes[self.selected_index].is_folder {
                return Some(self.visible_nodes[self.selected_index].expanded);
            }
        }
        None
    }

    /// Expands the selected folder if it is collapsed, and collapses it otherwise.
    pub fn toggle_expansion(&mut self)
        ensures
            ({
                let v = old(self)@;
                tree_expansion_changed(
                    v,
                    final(self)@,
                    !(v.selected < v.rows.len() && v.rows[v.selected as int].expanded),
                )
            }),
    {
        match self.selected_folder() {
            Some(expanded) => self.set_selected_expansion(!expanded),
            None => {},
        }
    }

    /// Expands the selected folder.
    pub fn expand_current(&mut self)
        ensures
            tree_expansion_changed(old(self)@, final(self)@, true),
    {
        match self.selected_folder() {
            Some(_) => self.set_selected_expansion(true),
            None => {},
        }
    }

    /// Collapses the selected folder.
    pub fn collapse_current(&mut self)
        ensures
            tree_expansion_changed(old(self)@, final(self)@, false),
    {
        match self.selected_folder() {
            Some(_) => self.set_selected_expansion(false),
            None => {},
        }
    }

    /// Handles a key: j/Down and k/Up move (wrapping), l/Right expand and
    /// h/Left collapse the selected folder, g and G go to the first and last
    /// row, Space and Enter expand or collapse the selected folder.
    pub fn handle_key(&mut self, key: KeyEvent) -> (r: HandleResult)
        ensures
            key.kind == KeyEventKind::Release ==> r is Ignored && final(self)@ == old(self)@,
            key.kind != KeyEventKind::Release ==> {
                let v = old(self)@;
                let w = final(self)@;
                match key.code {
                    KeyCode::Char('j') | KeyCode::Down => r is Consumed && w == tree_moved_down(v),
                    KeyCode::Char('k') | KeyCode::Up => r is Consumed && w == tree_moved_up(v),
                    KeyCode::Char('l') | KeyCode::Right => r is Consumed && tree_expansion_changed(v, w, true),
                    KeyCode::Char('h') | KeyCode::Left => r is Consumed && tree_expansion_changed(v, w, false),
                    KeyCode::Char('g') => r is Consumed && w == selected_at(v, 0),
                    KeyCode::Char('G') => r is Consumed && w == tree_moved_bottom(v),
                    KeyCode::Char(' ') | KeyCode::Enter => r is Consumed && tree_expansion_changed(
                        v,
                        w,
                        !(v.selected < v.rows.len() && v.rows[v.selected as int].expanded),
                    ),
                    _ => r is Ignored && w == v,
                }
            },
    {
        if key.kind == KeyEventKind::Release {
            return HandleResult::Ignored;
        }
        match key.code {
            KeyCode::Char('j') | KeyCode::Down => {
                self.move_down();
                HandleResult::Consumed
            },
            KeyCode::Char('k') | KeyCode::Up => {
                self.move_up();
                HandleResult::Consumed
            },
            KeyCode::Char('l') | KeyCode::Right => {
                self.expand_current();
                HandleResult::Consumed
            },
            KeyCode::Char('h') | KeyCode::Left => {
                self.collapse_current();
                HandleResult::Consumed
            },
            KeyCode::Char('g') => {
                self.move_to_top();
                HandleResult::Consumed
            },
            KeyCode::Char('G') => {
                self.move_to_bottom();
                HandleResult::Consumed
            },
            KeyCode::Char(' ') | KeyCode::Enter => {
                self.toggle_expansion();
                HandleResult::Consumed
            },
            _ => HandleResult::Ignored,
        }
    }

    /// The texts of the rows shown in `height` lines from the scroll offset
    /// on, as [`row_text`] says; the offset must lie within the rows.
    pub fn row_texts(&self, height: usize) -> (r: Vec<String>)
        requires
            self@.scroll <= self@.rows.len(),
        ensures
            r@.len() == min_of(self@.scroll + height, self@.rows.len() as int) - self@.scroll,
            forall|k: int| 0 <= k < r@.len() ==> (#[trigger] r@[k])@ == row_text(self@.rows[self@.scroll + k]),
    {
        let n = self.visible_nodes.len();
        let start = self.scroll_offset;
        let end: usize = if height <= n - start {
            start + height
        } else {
            n
        };
        let mut out: Vec<String> = Vec::new();
        let mut i: usize = start;
        while i < end
            invariant
                start <= i <= end <= n,
                n == self.visible_nodes@.len(),
                start == self@.scroll,
                out@.len() == i - start,
                forall|k: int| 0 <= k < out@.len() ==> (#[trigger] out@[k])@ == row_text(self@.rows[start + k]),
            decreases end - i,
        {
            assert(self@.rows[i as int] == self.visible_nodes@[i as int]@);
            out.push(row_string(&self.visible_nodes[i]));
            i = i + 1;
        }
        out
    }

    /// The component identifier.
    pub fn id(&self) -> (r: ComponentId)
        ensures
            r == self@.id,
    {
        self.id
    }

    /// The tree can take the focus.
    pub fn can_focus(&self) -> (b: bool)
        ensures
            b,
    {
        true
    }

    /// Nothing changes when the tree takes the focus.
    pub fn on_focus_gain(&mut self) -> (r: TuiResult<()>)
        ensures
            r is Ok,
            final(self)@ == old(self)@,
    {
        Ok(())
    }

    /// Nothing changes when the tree gives up the focus.
    pub fn on_focus_loss(&mut self) -> (r: TuiResult<()>)
        ensures
            r is Ok,
            final(self)@ == old(self)@,
    {
        Ok(())
    }
}

proof fn lemma_first_row_at(rows: Seq<VisibleEntry>, id: Seq<char>, k: int)
    requires
        0 <= k < rows.len(),
        rows[k].id == id,
        first_row_with_id(rows.take(k), id) is None,
    ensures
        first_row_with_id(rows, id) == Some(k),
    decreases rows.len(),
{
    if k < rows.len() - 1 {
        assert(rows.drop_last().take(k) =~= rows.take(k));
        lemma_first_row_at(rows.drop_last(), id, k);
    } else {
        assert(rows.drop_last() =~= rows.take(k));
    }
}

/// Moving down and then up gives the same selection back, on rows that are
/// shown and a selection among them.
pub proof fn law_tree_down_then_up<T>(v: TreeComponentView<T>)
    requires
        v.selected < v.rows.len(),
    ensures
        tree_moved_up(tree_moved_down(v)).selected == v.selected,
        tree_moved_down(v).selected < v.rows.len(),
        tree_moved_up(v).selected < v.rows.len(),
{
}

} // verus!
