use vstd::prelude::*;

verus! {

/// What a node in the window tree stands for.
#[derive(Clone, Copy, Debug, PartialEq, Eq, Structural)]
pub enum Kind {
    /// A physical display, directly under the root.
    Output,
    /// A named, numbered top-level container of windows within an output.
    Workspace,
    /// A non-leaf container arranging its children in a split, tabbed or
    /// stacked presentation.
    SplitContainer,
    /// A window detached from the split layout, overlaid independently.
    FloatingContainer,
    /// A leaf window.
    Window,
}

/// How a container arranges its tiled children.
#[derive(Clone, Copy, Debug, PartialEq, Eq, Structural)]
pub enum Layout {
    HorizontalSplit,
    VerticalSplit,
    Tabbed,
    Stacked,
    /// No meaningful layout (leaf windows, outputs, floating containers).
    NoLayout,
}

/// One element of a window-tree snapshot.
///
/// A snapshot is a rooted hierarchy owned outright by whoever fetched it:
/// each node owns its children, no child is shared. `name` carries the
/// workspace label on workspace nodes and the window title on leaf windows.
/// `num` is present only on workspace nodes. The application identity of a
/// leaf window is `app_id`, with `window_class` and `window_instance` as
/// fallbacks.
#[derive(Debug)]
pub struct Node {
    pub id: i64,
    pub kind: Kind,
    pub layout: Layout,
    pub focused: bool,
    pub name: Option<String>,
    pub num: Option<i32>,
    pub app_id: Option<String>,
    pub window_class: Option<String>,
    pub window_instance: Option<String>,
    pub nodes: Vec<Node>,
    pub floating_nodes: Vec<Node>,
}

/// The hidden scratch area the window manager parks windows in; it is
/// excluded from every enumeration of workspaces.
pub open spec fn is_scratch(n: Node) -> bool {
    match n.name {
        Some(s) => s@ == "__i3_scratch"@,
        None => false,
    }
}

/// Does `p` directly contain a node with id `id`, among its tiled or
/// floating children?
pub open spec fn has_child_with_id(p: Node, id: i64) -> bool {
    (exists|i: int| 0 <= i < p.nodes@.len() && p.nodes@[i].id == id) || (exists|i: int|
        0 <= i < p.floating_nodes@.len() && p.floating_nodes@[i].id == id)
}

/// Does the subtree rooted at `n` hold a node with id `id` (including `n`
/// itself)?
pub open spec fn subtree_contains(n: Node, id: i64) -> bool
    decreases n,
{
    n.id == id || list_contains(n.nodes@, id) || list_contains(n.floating_nodes@, id)
}

/// Does any subtree rooted in `s` hold a node with id `id`?
pub open spec fn list_contains(s: Seq<Node>, id: i64) -> bool
    decreases s,
{
    s.len() > 0 && (subtree_contains(s[0], id) || list_contains(s.drop_first(), id))
}

/// Is the node `m` itself an element of the subtree rooted at `n`?
pub open spec fn node_in(m: Node, n: Node) -> bool
    decreases n,
{
    m == n || node_in_list(m, n.nodes@) || node_in_list(m, n.floating_nodes@)
}

/// Is the node `m` itself an element of some subtree rooted in `s`?
pub open spec fn node_in_list(m: Node, s: Seq<Node>) -> bool
    decreases s,
{
    s.len() > 0 && (node_in(m, s[0]) || node_in_list(m, s.drop_first()))
}

/// How many nodes of the subtree rooted at `n` are focused.
pub open spec fn focused_count(n: Node) -> nat
    decreases n,
{
    (if n.focused {
        1nat
    } else {
        0nat
    }) + focused_count_list(n.nodes@) + focused_count_list(n.floating_nodes@)
}

/// How many nodes of the subtrees rooted in `s` are focused.
pub open spec fn focused_count_list(s: Seq<Node>) -> nat
    decreases s,
{
    if s.len() == 0 {
        0nat
    } else {
        focused_count(s[0]) + focused_count_list(s.drop_first())
    }
}

} // verus!
