use namedworkspaces::config::Config;
use namedworkspaces::label::compose_rename;
use namedworkspaces::locator::{
    find_focused, find_parent, find_workspace, get_workspaces, LabelError,
};
use namedworkspaces::tree::{Kind, Layout, Node};

fn leaf(id: i64) -> Node {
    Node {
        id,
        kind: Kind::Window,
        layout: Layout::NoLayout,
        focused: false,
        name: None,
        num: None,
        app_id: None,
        window_class: None,
        window_instance: None,
        nodes: Vec::new(),
        floating_nodes: Vec::new(),
    }
}

fn workspace(id: i64, num: i32, name: &str, children: Vec<Node>) -> Node {
    let mut n = leaf(id);
    n.kind = Kind::Workspace;
    n.name = Some(name.to_string());
    n.num = Some(num);
    n.nodes = children;
    n
}

fn output(id: i64, workspaces: Vec<Node>) -> Node {
    let mut n = leaf(id);
    n.kind = Kind::Output;
    n.nodes = workspaces;
    n
}

fn root(outputs: Vec<Node>) -> Node {
    let mut n = leaf(0);
    n.kind = Kind::Output;
    n.nodes = outputs;
    n
}

#[test]
fn focused_found_in_nested_floating_child() {
    let mut deep = leaf(42);
    deep.focused = true;
    let mut mid = leaf(30);
    mid.floating_nodes = vec![deep];
    let workspaces = vec![workspace(10, 1, "1", Vec::new()), workspace(11, 2, "2", vec![mid])];
    let f = find_focused(&workspaces).unwrap();
    assert_eq!(f.id, 42);
    assert!(f.focused);
}

#[test]
fn no_focused_node_is_a_recoverable_error() {
    let workspaces = vec![workspace(10, 1, "1", vec![leaf(1)])];
    assert_eq!(find_focused(&workspaces).unwrap_err(), LabelError::FocusNotFound);
}

#[test]
fn parent_of_tiled_child() {
    let workspaces = vec![workspace(10, 1, "1", vec![leaf(1), leaf(2)])];
    let p = find_parent(&workspaces, &leaf(2)).unwrap();
    assert_eq!(p.id, 10);
}

#[test]
fn parent_of_floating_child() {
    let mut ws = workspace(10, 1, "1", vec![leaf(1)]);
    ws.floating_nodes = vec![leaf(5)];
    let workspaces = vec![ws];
    let p = find_parent(&workspaces, &leaf(5)).unwrap();
    assert_eq!(p.id, 10);
}

#[test]
fn top_level_workspace_has_no_parent() {
    let workspaces = vec![workspace(10, 1, "1", vec![leaf(1)])];
    let target = workspace(10, 1, "1", vec![leaf(1)]);
    assert_eq!(
        find_parent(&workspaces, &target).unwrap_err(),
        LabelError::ParentNotFound
    );
}

#[test]
fn workspace_of_nested_window() {
    let mut inner = leaf(30);
    inner.nodes = vec![leaf(42)];
    let workspaces = vec![workspace(10, 1, "1", Vec::new()), workspace(11, 2, "2", vec![inner])];
    let w = find_workspace(&workspaces, &leaf(42)).unwrap();
    assert_eq!(w.id, 11);
}

#[test]
fn workspace_of_itself() {
    let workspaces = vec![workspace(10, 1, "1", Vec::new())];
    let w = find_workspace(&workspaces, &workspace(10, 1, "1", Vec::new())).unwrap();
    assert_eq!(w.id, 10);
}

#[test]
fn absent_node_has_no_workspace() {
    let workspaces = vec![workspace(10, 1, "1", vec![leaf(1)])];
    assert_eq!(
        find_workspace(&workspaces, &leaf(99)).unwrap_err(),
        LabelError::WorkspaceNotFound
    );
}

#[test]
fn snapshot_flattening_keeps_order_and_drops_scratch() {
    let scratch = workspace(90, -1, "__i3_scratch", Vec::new());
    let tree = root(vec![
        output(100, vec![workspace(10, 1, "1", Vec::new()), scratch]),
        output(101, vec![workspace(11, 2, "2", Vec::new())]),
    ]);
    let workspaces = get_workspaces(tree);
    let ids: Vec<i64> = workspaces.iter().map(|w| w.id).collect();
    assert_eq!(ids, vec![10, 11]);
}

#[test]
fn floating_outputs_and_workspaces_are_walked_too() {
    let mut out = output(100, vec![workspace(10, 1, "1", Vec::new())]);
    out.floating_nodes = vec![workspace(12, 3, "3", Vec::new())];
    let mut tree = root(Vec::new());
    tree.floating_nodes = vec![out];
    let workspaces = get_workspaces(tree);
    let ids: Vec<i64> = workspaces.iter().map(|w| w.id).collect();
    assert_eq!(ids, vec![10, 12]);
}

#[test]
fn window_parked_in_scratch_has_no_workspace() {
    // The scratch workspace is the deepest (and only) ancestor of the
    // window, yet it is never returned: it is excluded when the snapshot
    // is flattened, so the lookup fails instead.
    let scratch = workspace(90, -1, "__i3_scratch", vec![leaf(42)]);
    let tree = root(vec![output(100, vec![workspace(10, 1, "1", Vec::new()), scratch])]);
    let workspaces = get_workspaces(tree);
    assert_eq!(
        find_workspace(&workspaces, &leaf(42)).unwrap_err(),
        LabelError::WorkspaceNotFound
    );
}

#[test]
fn workspace_without_name_aborts_the_cycle() {
    let cfg = Config::default();
    let mut ws = workspace(10, 1, "1", vec![leaf(1)]);
    ws.name = None;
    let workspaces = vec![ws];
    assert_eq!(
        compose_rename(&workspaces, &leaf(1), &cfg).unwrap_err(),
        LabelError::MissingName
    );
}

#[test]
fn workspace_without_number_aborts_the_cycle() {
    let cfg = Config::default();
    let mut ws = workspace(10, 1, "1", vec![leaf(1)]);
    ws.num = None;
    let workspaces = vec![ws];
    assert_eq!(
        compose_rename(&workspaces, &leaf(1), &cfg).unwrap_err(),
        LabelError::MissingNumber
    );
}

#[test]
fn rename_of_absent_window_aborts_the_cycle() {
    let cfg = Config::default();
    let workspaces = vec![workspace(10, 1, "1", vec![leaf(1)])];
    assert_eq!(
        compose_rename(&workspaces, &leaf(99), &cfg).unwrap_err(),
        LabelError::WorkspaceNotFound
    );
}
