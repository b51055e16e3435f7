use keyring_tui::tui::components::tree_panel::calculate_scroll_offset;
use keyring_tui::tui::components::tree_panel::{empty_tree_lines, node_line_texts};
use keyring_tui::tui::components::tree::{TreeComponent, TreeNode, TreeNodeItem};
use keyring_tui::tui::components::tree_panel::{CurrentNode, NodeRef, TreeCommand, TreeEditMode, TreePanel};
use keyring_tui::{HandleResult, KeyCode, KeyEvent, KeyModifiers};

fn create_test_node(id: &str, name: &str, level: u8, parent_id: Option<&str>) -> TreeNode<i32> {
    TreeNode {
        id: id.to_string(),
        level,
        item: TreeNodeItem::Folder { name: name.to_string(), child_count: 0 },
        children: Vec::new(),
        expanded: false,
        parent_id: parent_id.map(|s| s.to_string()),
    }
}

fn key(c: char) -> KeyEvent {
    KeyEvent::new(KeyCode::Char(c), KeyModifiers::empty())
}

#[test]
fn test_tree_component_creation() {
    let root = create_test_node("root", "Root", 0, None);
    let component = TreeComponent::new(root);

    assert_eq!(component.id().value(), 0);
    assert!(component.can_focus());
}

#[test]
fn test_vim_navigation_j_k() {
    let mut root = create_test_node("root", "Root", 0, None);
    let mut child1 = create_test_node("child1", "Child 1", 1, Some("root"));
    child1.expanded = true;
    let grandchild = create_test_node("grandchild", "Grandchild", 2, Some("child1"));
    child1.children.push(grandchild);
    root.children.push(child1);
    root.expanded = true;

    let mut component = TreeComponent::new(root);
    component.update_visible_nodes();

    assert_eq!(component.selected_index(), 0);

    component.handle_key(key('j'));
    assert_eq!(component.selected_index(), 1);

    component.handle_key(key('j'));
    assert_eq!(component.selected_index(), 2);

    component.handle_key(key('k'));
    assert_eq!(component.selected_index(), 1);
}

#[test]
fn test_vim_expansion_h_l() {
    let mut root = create_test_node("root", "Root", 0, None);
    let child = create_test_node("child", "Child", 1, Some("root"));
    root.children.push(child);

    let mut component = TreeComponent::new(root);

    assert_eq!(component.root().children.len(), 1);

    component.handle_key(key('l'));

    if let Some(root_node) = component.root().find("root") {
        assert!(root_node.expanded);
    }
}

#[test]
fn test_expansion_toggle() {
    let mut root = create_test_node("root", "Root", 0, None);
    let child = create_test_node("child", "Child", 1, Some("root"));
    root.children.push(child);

    let mut component = TreeComponent::new(root);

    let initial_expanded = if let Some(node) = component.root().find("root") { node.expanded } else { false };

    component.toggle_expansion();

    let after_toggle = if let Some(node) = component.root().find("root") { node.expanded } else { false };

    assert_ne!(initial_expanded, after_toggle);
}

#[test]
fn test_top_bottom_navigation() {
    let mut root = create_test_node("root", "Root", 0, None);
    root.children.push(create_test_node("child1", "Child 1", 1, Some("root")));
    root.children.push(create_test_node("child2", "Child 2", 1, Some("root")));
    root.children.push(create_test_node("child3", "Child 3", 1, Some("root")));
    root.expanded = true;

    let mut component = TreeComponent::new(root);
    component.update_visible_nodes();

    assert_eq!(component.selected_index(), 0);

    component.move_to_bottom();
    assert_eq!(component.selected_index(), 3);

    component.move_to_top();
    assert_eq!(component.selected_index(), 0);
}

#[test]
fn tree_collapsed_root_shows_one_row() {
    let mut root = create_test_node("root", "Root", 0, None);
    root.children.push(create_test_node("child", "Child", 1, Some("root")));
    let mut component = TreeComponent::new(root);
    assert_eq!(component.visible_count(), 1);
    component.handle_key(key('l'));
    assert_eq!(component.visible_count(), 2);
    component.handle_key(key('h'));
    assert_eq!(component.visible_count(), 1);
}

#[test]
fn tree_moves_wrap_around() {
    let mut root = create_test_node("root", "Root", 0, None);
    root.children.push(create_test_node("a", "A", 1, Some("root")));
    root.children.push(create_test_node("b", "B", 1, Some("root")));
    root.expanded = true;
    let mut component = TreeComponent::new(root);
    component.handle_key(key('k'));
    assert_eq!(component.selected_index(), 2);
    component.handle_key(key('j'));
    assert_eq!(component.selected_index(), 0);
    component.handle_key(key('G'));
    assert_eq!(component.selected_index(), 2);
    component.handle_key(key('g'));
    assert_eq!(component.selected_index(), 0);
}

#[test]
fn tree_selection_follows_node_after_collapse() {
    let mut root = create_test_node("root", "Root", 0, None);
    let mut a = create_test_node("a", "A", 1, Some("root"));
    a.children.push(create_test_node("a1", "A1", 2, Some("a")));
    a.expanded = true;
    root.children.push(a);
    root.children.push(create_test_node("b", "B", 1, Some("root")));
    root.expanded = true;
    let mut component = TreeComponent::new(root);
    assert_eq!(component.visible_count(), 4);
    component.handle_key(key('j'));
    assert_eq!(component.selected_index(), 1);
    component.handle_key(key('h'));
    assert_eq!(component.visible_count(), 3);
    assert_eq!(component.selected_index(), 1);
    assert!(!component.root().find("a").unwrap().expanded);
}

#[test]
fn tree_leaf_does_not_expand() {
    let mut root = create_test_node("root", "Root", 0, None);
    root.children.push(TreeNode {
        id: "leaf".to_string(),
        level: 1,
        item: TreeNodeItem::Leaf { name: "Leaf".to_string(), value: 7 },
        children: Vec::new(),
        expanded: false,
        parent_id: Some("root".to_string()),
    });
    root.expanded = true;
    let mut component = TreeComponent::new(root);
    component.handle_key(key('j'));
    component.handle_key(key(' '));
    assert_eq!(component.visible_count(), 2);
    assert!(!component.root().find("leaf").unwrap().expanded);
    assert_eq!(component.root().find("leaf").unwrap().name(), "Leaf");
    assert!(component.root().find("missing").is_none());
}

#[test]
fn tree_panel_test_tree_panel_creation() {
    let panel = TreePanel::new();
    assert!(!panel.is_focused());
    assert!(panel.can_focus());
}

#[test]
fn tree_panel_test_focus_state() {
    let mut panel = TreePanel::new();
    assert!(!panel.is_focused());

    panel.on_focus_gain().unwrap();
    assert!(panel.is_focused());

    panel.on_focus_loss().unwrap();
    assert!(!panel.is_focused());
}

#[test]
fn tests_test_tree_panel_creation() {
    let panel = TreePanel::new();
    assert!(!panel.is_focused());
    assert!(panel.can_focus());
}

#[test]
fn tree_panel_navigation_commands() {
    let mut panel = TreePanel::new();
    let (r, c) = panel.handle_key_with_state(key('j'), 0, None);
    assert!(matches!(r, HandleResult::Consumed));
    assert_eq!(c, TreeCommand::MoveDown);
    let (_, c) = panel.handle_key_with_state(key('k'), 0, None);
    assert_eq!(c, TreeCommand::MoveUp);
    let (_, c) = panel.handle_key_with_state(key('G'), 0, None);
    assert_eq!(c, TreeCommand::MoveToBottom);
}

#[test]
fn tree_panel_gg_within_timeout() {
    let mut panel = TreePanel::new();
    let (r, c) = panel.handle_key_with_state(key('g'), 1000, None);
    assert!(matches!(r, HandleResult::Consumed));
    assert_eq!(c, TreeCommand::Nothing);
    assert!(panel.is_pending_g());
    let (_, c) = panel.handle_key_with_state(key('g'), 1100, None);
    assert_eq!(c, TreeCommand::MoveToTop);
    assert!(!panel.is_pending_g());
}

#[test]
fn tree_panel_gg_after_timeout_stays_pending() {
    let mut panel = TreePanel::new();
    panel.handle_key_with_state(key('g'), 1000, None);
    let (_, c) = panel.handle_key_with_state(key('g'), 1600, None);
    assert_eq!(c, TreeCommand::Nothing);
    assert!(panel.is_pending_g());
}

#[test]
fn tree_panel_expand_and_select() {
    let mut panel = TreePanel::new();
    let group = CurrentNode { id: NodeRef::Group(5), expanded: false, group_name: None };
    let (_, c) = panel.handle_key_with_state(key('l'), 0, Some(&group));
    assert_eq!(c, TreeCommand::ToggleExpand(5));
    let (_, c) = panel.handle_key_with_state(key('h'), 0, Some(&group));
    assert_eq!(c, TreeCommand::Nothing);
    let password = CurrentNode { id: NodeRef::Password(9), expanded: false, group_name: None };
    let (_, c) = panel.handle_key_with_state(KeyEvent::new(KeyCode::Enter, KeyModifiers::empty()), 0, Some(&password));
    assert_eq!(c, TreeCommand::SelectPassword(9));
}

#[test]
fn tree_panel_create_group_editing() {
    let mut panel = TreePanel::new();
    panel.handle_key_with_state(key('a'), 0, None);
    assert_eq!(*panel.edit_mode(), TreeEditMode::CreatingGroup);
    panel.handle_key_with_state(key('W'), 0, None);
    panel.handle_key_with_state(key('o'), 0, None);
    assert_eq!(panel.edit_buffer(), "Wo");
    let (_, c) = panel.handle_key_with_state(KeyEvent::new(KeyCode::Esc, KeyModifiers::empty()), 0, None);
    assert_eq!(c, TreeCommand::Nothing);
    assert_eq!(*panel.edit_mode(), TreeEditMode::NotEditing);
    assert_eq!(panel.edit_buffer(), "");
}

#[test]
fn tree_panel_scroll_offset() {
    assert_eq!(calculate_scroll_offset(0, 10), 0);
    assert_eq!(calculate_scroll_offset(8, 10), 0);
    assert_eq!(calculate_scroll_offset(9, 10), 1);
    assert_eq!(calculate_scroll_offset(15, 10), 7);
    assert_eq!(calculate_scroll_offset(0, 0), 0);
    assert_eq!(calculate_scroll_offset(3, 1), 3);
}

#[test]
fn tree_panel_node_line_pieces() {
    assert_eq!(node_line_texts(1, true, false, "Work", false, 3), vec!["  ", "[+]", " ", "Work", " (3)"]);
    assert_eq!(node_line_texts(0, true, true, "Root", true, 0), vec!["", "[-]", " ", "Root"]);
    assert_eq!(node_line_texts(2, false, false, "Mail", true, 5), vec!["    ", " • ", " ", "Mail", " ★"]);
    assert_eq!(node_line_texts(12, false, false, "Deep", false, 0)[0], "");
    assert_eq!(empty_tree_lines(true), vec!["", "No matching entries", "", "Try adjusting your filters"]);
    assert_eq!(empty_tree_lines(false)[3], "Press [n] to create one");
}

#[test]
fn tree_row_texts() {
    let mut root = create_test_node("root", "Root", 0, None);
    let mut a = create_test_node("a", "Work", 1, Some("root"));
    a.children.push(TreeNode {
        id: "leaf".to_string(),
        level: 2,
        item: TreeNodeItem::Leaf { name: "Mail".to_string(), value: 1 },
        children: Vec::new(),
        expanded: false,
        parent_id: Some("a".to_string()),
    });
    a.expanded = true;
    root.children.push(a);
    root.children.push(create_test_node("b", "Home", 1, Some("root")));
    root.expanded = true;
    let component = TreeComponent::new(root);
    assert_eq!(component.row_texts(10), vec!["- Root", "  - Work", "    • Mail", "  + Home"]);
    assert_eq!(component.row_texts(2), vec!["- Root", "  - Work"]);
    assert!(component.row_texts(0).is_empty());
}

// ---------------------------------------------------------------- tree panel over an application tree

/// The part of the application's tree state the panel's commands act on.
struct TreeStateSim {
    nodes: Vec<(NodeRef, String)>,
    highlighted_index: usize,
    expanded: Vec<u128>,
    selected_password: Option<u128>,
}

impl TreeStateSim {
    fn new(nodes: Vec<(NodeRef, &str)>) -> Self {
        TreeStateSim {
            nodes: nodes.into_iter().map(|(n, l)| (n, l.to_string())).collect(),
            highlighted_index: 0,
            expanded: Vec::new(),
            selected_password: None,
        }
    }

    fn is_expanded(&self, id: u128) -> bool {
        self.expanded.contains(&id)
    }

    fn current_node(&self) -> Option<CurrentNode> {
        self.nodes.get(self.highlighted_index).map(|(id, label)| CurrentNode {
            id: *id,
            expanded: match id {
                NodeRef::Group(g) => self.is_expanded(*g),
                NodeRef::Password(_) => false,
            },
            group_name: Some(label.clone()),
        })
    }

    fn apply(&mut self, command: TreeCommand) {
        match command {
            TreeCommand::MoveDown => {
                if self.highlighted_index + 1 < self.nodes.len() {
                    self.highlighted_index += 1;
                }
            }
            TreeCommand::MoveUp => self.highlighted_index = self.highlighted_index.saturating_sub(1),
            TreeCommand::MoveToTop => self.highlighted_index = 0,
            TreeCommand::MoveToBottom => self.highlighted_index = self.nodes.len().saturating_sub(1),
            TreeCommand::ToggleExpand(g) => {
                if let Some(i) = self.expanded.iter().position(|x| *x == g) {
                    self.expanded.remove(i);
                } else {
                    self.expanded.push(g);
                }
            }
            TreeCommand::SelectPassword(p) => self.selected_password = Some(p),
            TreeCommand::Nothing | TreeCommand::WarnEmptyName => {}
        }
    }
}

fn press(panel: &mut TreePanel, state: &mut TreeStateSim, key: KeyEvent, now_ms: u64) -> HandleResult {
    let current = state.current_node();
    let (result, command) = panel.handle_key_with_state(key, now_ms, current.as_ref());
    state.apply(command);
    result
}

fn three_groups() -> TreeStateSim {
    TreeStateSim::new(vec![
        (NodeRef::Group(1), "Root"),
        (NodeRef::Group(2), "Child 1"),
        (NodeRef::Group(3), "Child 2"),
    ])
}

fn panel_navigation_j_k() {
    let mut panel = TreePanel::new();
    let mut state = three_groups();
    assert_eq!(state.highlighted_index, 0);
    let result = press(&mut panel, &mut state, key('j'), 0);
    assert!(matches!(result, HandleResult::Consumed));
    assert_eq!(state.highlighted_index, 1);
    let result = press(&mut panel, &mut state, key('k'), 0);
    assert!(matches!(result, HandleResult::Consumed));
    assert_eq!(state.highlighted_index, 0);
}

fn panel_navigation_g_g() {
    let mut panel = TreePanel::new();
    let mut state = three_groups();
    state.highlighted_index = 1;
    let result = press(&mut panel, &mut state, key('g'), 1_000);
    assert!(matches!(result, HandleResult::Consumed));
    assert_eq!(state.highlighted_index, 1);
    assert!(panel.is_pending_g());
    let result = press(&mut panel, &mut state, key('g'), 1_050);
    assert!(matches!(result, HandleResult::Consumed));
    assert_eq!(state.highlighted_index, 0);
    assert!(!panel.is_pending_g());
    state.highlighted_index = 1;
    let result = press(&mut panel, &mut state, key('G'), 1_100);
    assert!(matches!(result, HandleResult::Consumed));
    assert_eq!(state.highlighted_index, 2);
}

fn group_and_password() -> TreeStateSim {
    TreeStateSim::new(vec![(NodeRef::Group(10), "Test Group"), (NodeRef::Password(20), "Test Password")])
}

fn panel_expand_collapse_folder() {
    let mut panel = TreePanel::new();
    let mut state = group_and_password();
    let test_group_id = match state.current_node() {
        Some(node) => match node.id {
            NodeRef::Group(id) => id,
            NodeRef::Password(_) => panic!("Expected first node to be a group"),
        },
        None => panic!("No visible nodes available"),
    };
    assert!(!state.is_expanded(test_group_id));
    let result = press(&mut panel, &mut state, key('l'), 0);
    assert!(matches!(result, HandleResult::Consumed));
    assert!(state.is_expanded(test_group_id));
    state.highlighted_index = 0;
    let result = press(&mut panel, &mut state, key('h'), 0);
    assert!(matches!(result, HandleResult::Consumed));
    assert!(!state.is_expanded(test_group_id));
}

fn panel_select_password() {
    let mut panel = TreePanel::new();
    let mut state = TreeStateSim::new(vec![(NodeRef::Group(1), "Root"), (NodeRef::Password(42), "Entry")]);
    state.highlighted_index = 1;
    assert!(state.selected_password.is_none());
    let result = press(&mut panel, &mut state, KeyEvent::new(KeyCode::Enter, KeyModifiers::empty()), 0);
    assert!(matches!(result, HandleResult::Consumed));
    assert_eq!(state.selected_password, Some(42));
}

fn panel_get_selected_password() {
    let panel = TreePanel::new();
    let state = TreeStateSim::new(vec![(NodeRef::Password(42), "Entry")]);
    let selected = panel.get_selected_password(state.current_node().as_ref());
    assert_eq!(selected, Some(42));
}

fn panel_get_selected_password_when_folder() {
    let panel = TreePanel::new();
    let state = TreeStateSim::new(vec![(NodeRef::Group(7), "Folder")]);
    let selected = panel.get_selected_password(state.current_node().as_ref());
    assert!(selected.is_none());
}

#[test]
fn tree_panel_test_navigation_j_k() {
    panel_navigation_j_k();
}

#[test]
fn tests_test_navigation_j_k() {
    panel_navigation_j_k();
}

#[test]
fn tree_panel_test_navigation_g_g() {
    panel_navigation_g_g();
}

#[test]
fn tests_test_navigation_g_g() {
    panel_navigation_g_g();
}

#[test]
fn tree_panel_test_expand_collapse_folder() {
    panel_expand_collapse_folder();
}

#[test]
fn tests_test_expand_collapse_folder() {
    panel_expand_collapse_folder();
}

#[test]
fn tree_panel_test_select_password() {
    panel_select_password();
}

#[test]
fn tests_test_select_password() {
    panel_select_password();
}

#[test]
fn tree_panel_test_get_selected_password() {
    panel_get_selected_password();
}

#[test]
fn tests_test_get_selected_password() {
    panel_get_selected_password();
}

#[test]
fn tree_panel_test_get_selected_password_when_folder() {
    panel_get_selected_password_when_folder();
}

#[test]
fn tests_test_get_selected_password_when_folder() {
    panel_get_selected_password_when_folder();
}
