use vstd::prelude::*;

use crate::tree::{
    focused_count, focused_count_list, has_child_with_id, is_scratch, list_contains, node_in,
    node_in_list, subtree_contains, Node,
};

verus! {

/// Why one event-handling cycle had to be abandoned.
///
/// The first three are lookup failures of the locator queries; the last two
/// are data-integrity faults (a workspace without a label or a number means
/// the snapshot source broke its contract).
#[derive(Clone, Copy, Debug, PartialEq, Eq, Structural)]
pub enum LabelError {
    FocusNotFound,
    ParentNotFound,
    WorkspaceNotFound,
    MissingName,
    MissingNumber,
}

/// The first focused node of the subtree rooted at `n`, scanning the node
/// itself, then its tiled children, then its floating children.
pub open spec fn focused_node(n: Node) -> Option<Node>
    decreases n,
{
    if n.focused {
        Some(n)
    } else {
        match focused_in_list(n.nodes@) {
            Some(f) => Some(f),
            None => focused_in_list(n.floating_nodes@),
        }
    }
}

/// The first focused node of the subtrees rooted in `s`, in order.
pub open spec fn focused_in_list(s: Seq<Node>) -> Option<Node>
    decreases s,
{
    if s.len() == 0 {
        None
    } else {
        match focused_node(s[0]) {
            Some(f) => Some(f),
            None => focused_in_list(s.drop_first()),
        }
    }
}

/// The first node of the subtree rooted at `n` that directly contains a
/// child with id `id`, scanning the node itself, then its tiled children,
/// then its floating children.
pub open spec fn parent_in_node(n: Node, id: i64) -> Option<Node>
    decreases n,
{
    if has_child_with_id(n, id) {
        Some(n)
    } else {
        match parent_in_list(n.nodes@, id) {
            Some(p) => Some(p),
            None => parent_in_list(n.floating_nodes@, id),
        }
    }
}

/// The first node among the subtrees rooted in `s` that directly contains a
/// child with id `id`.
pub open spec fn parent_in_list(s: Seq<Node>, id: i64) -> Option<Node>
    decreases s,
{
    if s.len() == 0 {
        None
    } else {
        match parent_in_node(s[0], id) {
            Some(p) => Some(p),
            None => parent_in_list(s.drop_first(), id),
        }
    }
}

/// The first workspace in `s` whose subtree holds a node with id `id` (a
/// workspace counts as holding itself).
pub open spec fn workspace_for(s: Seq<Node>, id: i64) -> Option<Node>
    decreases s,
{
    if s.len() == 0 {
        None
    } else if subtree_contains(s[0], id) {
        Some(s[0])
    } else {
        workspace_for(s.drop_first(), id)
    }
}

/// Whether the subtree rooted at `n` holds a node with id `id`.
pub fn node_contains(n: &Node, id: i64) -> (b: bool)
    ensures
        b == subtree_contains(*n, id),
    decreases *n,
{
    if n.id == id {
        return true;
    }
    let mut j: usize = 0;
    proof {
        assert(n.nodes@.skip(0) =~= n.nodes@);
    }
    while j < n.nodes.len()
        invariant
            j <= n.nodes@.len(),
            list_contains(n.nodes@, id) == list_contains(n.nodes@.skip(j as int), id),
        decreases n.nodes@.len() - j,
    {
        proof {
            assert(n.nodes@.skip(j as int)[0] == n.nodes@[j as int]);
            assert(n.nodes@.skip(j as int).drop_first() =~= n.nodes@.skip(j as int + 1));
        }
        if node_contains(&n.nodes[j], id) {
            return true;
        }
        j += 1;
    }
    let mut j: usize = 0;
    proof {
        assert(n.floating_nodes@.skip(0) =~= n.floating_nodes@);
    }
    while j < n.floating_nodes.len()
        invariant
            j <= n.floating_nodes@.len(),
            !list_contains(n.nodes@, id),
            list_contains(n.floating_nodes@, id) == list_contains(
                n.floating_nodes@.skip(j as int),
                id,
            ),
        decreases n.floating_nodes@.len() - j,
    {
        proof {
            assert(n.floating_nodes@.skip(j as int)[0] == n.floating_nodes@[j as int]);
            assert(n.floating_nodes@.skip(j as int).drop_first() =~= n.floating_nodes@.skip(
                j as int + 1,
            ));
        }
        if node_contains(&n.floating_nodes[j], id) {
            return true;
        }
        j += 1;
    }
    false
}

/// The first focused node of the subtree rooted at `n`, or `None` when the
/// subtree holds no focused node.
fn focused_in_node<'a>(n: &'a Node) -> (r: Option<&'a Node>)
    ensures
        match r {
            Some(f) => focused_node(*n) == Some(*f),
            None => focused_node(*n) is None,
        },
    decreases *n,
{
    if n.focused {
        return Some(n);
    }
    let mut j: usize = 0;
    proof {
        assert(n.nodes@.skip(0) =~= n.nodes@);
    }
    while j < n.nodes.len()
        invariant
            j <= n.nodes@.len(),
            !n.focused,
            focused_in_list(n.nodes@) == focused_in_list(n.nodes@.skip(j as int)),
        decreases n.nodes@.len() - j,
    {
        proof {
            assert(n.nodes@.skip(j as int)[0] == n.nodes@[j as int]);
            assert(n.nodes@.skip(j as int).drop_first() =~= n.nodes@.skip(j as int + 1));
        }
        if let Some(f) = focused_in_node(&n.nodes[j]) {
            return Some(f);
        }
        j += 1;
    }
    let mut j: usize = 0;
    proof {
        assert(n.floating_nodes@.skip(0) =~= n.floating_nodes@);
    }
    while j < n.floating_nodes.len()
        invariant
            j <= n.floating_nodes@.len(),
            !n.focused,
            focused_in_list(n.nodes@) is None,
            focused_in_list(n.floating_nodes@) == focused_in_list(
                n.floating_nodes@.skip(j as int),
            ),
        decreases n.floating_nodes@.len() - j,
    {
        proof {
            assert(n.floating_nodes@.skip(j as int)[0] == n.floating_nodes@[j as int]);
            assert(n.floating_nodes@.skip(j as int).drop_first() =~= n.floating_nodes@.skip(
                j as int + 1,
            ));
        }
        if let Some(f) = focused_in_node(&n.floating_nodes[j]) {
            return Some(f);
        }
        j += 1;
    }
    None
}

/// Returns the unique node with `focused = true` reachable from the given
/// workspaces, floating children included. The snapshot source guarantees
/// such a node exists; a snapshot without one is reported as the
/// recoverable `FocusNotFound`, never a crash.
pub fn find_focused<'a>(workspaces: &'a Vec<Node>) -> (r: Result<&'a Node, LabelError>)
    ensures
        match r {
            Ok(f) => focused_in_list(workspaces@) == Some(*f),
            Err(e) => e == LabelError::FocusNotFound && focused_in_list(workspaces@) is None,
        },
{
    let mut i: usize = 0;
    proof {
        assert(workspaces@.skip(0) =~= workspaces@);
    }
    while i < workspaces.len()
        invariant
            i <= workspaces@.len(),
            focused_in_list(workspaces@) == focused_in_list(workspaces@.skip(i as int)),
        decreases workspaces@.len() - i,
    {
        proof {
            assert(workspaces@.skip(i as int)[0] == workspaces@[i as int]);
            assert(workspaces@.skip(i as int).drop_first() =~= workspaces@.skip(i as int + 1));
        }
        if let Some(f) = focused_in_node(&workspaces[i]) {
            return Ok(f);
        }
        i += 1;
    }
    Err(LabelError::FocusNotFound)
}

/// Whether `p` directly contains a child with id `id`, among its tiled or
/// floating children.
fn has_direct_child(p: &Node, id: i64) -> (b: bool)
    ensures
        b == has_child_with_id(*p, id),
{
    let mut j: usize = 0;
    while j < p.nodes.len()
        invariant
            j <= p.nodes@.len(),
            forall|k: int| 0 <= k < j ==> p.nodes@[k].id != id,
        decreases p.nodes@.len() - j,
    {
        if p.nodes[j].id == id {
            return true;
        }
        j += 1;
    }
    let mut j: usize = 0;
    while j < p.floating_nodes.len()
        invariant
            j <= p.floating_nodes@.len(),
            forall|k: int| 0 <= k < p.nodes@.len() ==> p.nodes@[k].id != id,
            forall|k: int| 0 <= k < j ==> p.floating_nodes@[k].id != id,
        decreases p.floating_nodes@.len() - j,
    {
        if p.floating_nodes[j].id == id {
            return true;
        }
        j += 1;
    }
    false
}

/// The first node of the subtree rooted at `n` that directly contains a
/// child with id `id`.
fn parent_in_subtree<'a>(n: &'a Node, id: i64) -> (r: Option<&'a Node>)
    ensures
        match r {
            Some(p) => parent_in_node(*n, id) == Some(*p),
            None => parent_in_node(*n, id) is None,
        },
    decreases *n,
{
    if has_direct_child(n, id) {
        return Some(n);
    }
    let mut j: usize = 0;
    proof {
        assert(n.nodes@.skip(0) =~= n.nodes@);
    }
    while j < n.nodes.len()
        invariant
            j <= n.nodes@.len(),
            !has_child_with_id(*n, id),
            parent_in_list(n.nodes@, id) == parent_in_list(n.nodes@.skip(j as int), id),
        decreases n.nodes@.len() - j,
    {
        proof {
            assert(n.nodes@.skip(j as int)[0] == n.nodes@[j as int]);
            assert(n.nodes@.skip(j as int).drop_first() =~= n.nodes@.skip(j as int + 1));
        }
        if let Some(p) = parent_in_subtree(&n.nodes[j], id) {
            return Some(p);
        }
        j += 1;
    }
    let mut j: usize = 0;
    proof {
        assert(n.floating_nodes@.skip(0) =~= n.floating_nodes@);
    }
    while j < n.floating_nodes.len()
        invariant
            j <= n.floating_nodes@.len(),
            !has_child_with_id(*n, id),
            parent_in_list(n.nodes@, id) is None,
            parent_in_list(n.floating_nodes@, id) == parent_in_list(
                n.floating_nodes@.skip(j as int),
                id,
            ),
        decreases n.floating_nodes@.len() - j,
    {
        proof {
            assert(n.floating_nodes@.skip(j as int)[0] == n.floating_nodes@[j as int]);
            assert(n.floating_nodes@.skip(j as int).drop_first() =~= n.floating_nodes@.skip(
                j as int + 1,
            ));
        }
        if let Some(p) = parent_in_subtree(&n.floating_nodes[j], id) {
            return Some(p);
        }
        j += 1;
    }
    None
}

/// Returns the node whose tiled or floating children directly contain `win`
/// (matched by id). Fails with `ParentNotFound` when `win` is a top-level
/// workspace or absent from the tree; callers may treat that case as "the
/// target is its own parent".
pub fn find_parent<'a>(workspaces: &'a Vec<Node>, win: &Node) -> (r: Result<&'a Node, LabelError>)
    ensures
        match r {
            Ok(p) => parent_in_list(workspaces@, win.id) == Some(*p),
            Err(e) => e == LabelError::ParentNotFound && parent_in_list(workspaces@, win.id)
                is None,
        },
{
    let mut i: usize = 0;
    proof {
        assert(workspaces@.skip(0) =~= workspaces@);
    }
    while i < workspaces.len()
        invariant
            i <= workspaces@.len(),
            parent_in_list(workspaces@, win.id) == parent_in_list(
                workspaces@.skip(i as int),
                win.id,
            ),
        decreases workspaces@.len() - i,
    {
        proof {
            assert(workspaces@.skip(i as int)[0] == workspaces@[i as int]);
            assert(workspaces@.skip(i as int).drop_first() =~= workspaces@.skip(i as int + 1));
        }
        if let Some(p) = parent_in_subtree(&workspaces[i], win.id) {
            return Ok(p);
        }
        i += 1;
    }
    Err(LabelError::ParentNotFound)
}

/// Returns the workspace-kind ancestor of `win`: the first workspace in
/// `workspaces` whose subtree holds `win`'s id. `win` may itself be one of
/// the workspaces. Fails with `WorkspaceNotFound` when no workspace holds
/// it.
pub fn find_workspace<'a>(workspaces: &'a Vec<Node>, win: &Node) -> (r: Result<
    &'a Node,
    LabelError,
>)
    ensures
        match r {
            Ok(w) => workspace_for(workspaces@, win.id) == Some(*w),
            Err(e) => e == LabelError::WorkspaceNotFound && workspace_for(workspaces@, win.id)
                is None,
        },
{
    let mut i: usize = 0;
    proof {
        assert(workspaces@.skip(0) =~= workspaces@);
    }
    while i < workspaces.len()
        invariant
            i <= workspaces@.len(),
            workspace_for(workspaces@, win.id) == workspace_for(
                workspaces@.skip(i as int),
                win.id,
            ),
        decreases workspaces@.len() - i,
    {
        proof {
            assert(workspaces@.skip(i as int)[0] == workspaces@[i as int]);
            assert(workspaces@.skip(i as int).drop_first() =~= workspaces@.skip(i as int + 1));
        }
        if node_contains(&workspaces[i], win.id) {
            return Ok(&workspaces[i]);
        }
        i += 1;
    }
    Err(LabelError::WorkspaceNotFound)
}

/// The elements of `s` that are not the hidden scratch workspace, in order.
pub open spec fn keep_workspaces(s: Seq<Node>) -> Seq<Node>
    decreases s.len(),
{
    if s.len() == 0 {
        Seq::empty()
    } else if is_scratch(s[0]) {
        keep_workspaces(s.drop_first())
    } else {
        seq![s[0]] + keep_workspaces(s.drop_first())
    }
}

/// The non-scratch workspaces of the given outputs, in order: for each
/// output its tiled children first, then its floating children.
pub open spec fn output_workspaces(outs: Seq<Node>) -> Seq<Node>
    decreases outs.len(),
{
    if outs.len() == 0 {
        Seq::empty()
    } else {
        keep_workspaces(outs[0].nodes@ + outs[0].floating_nodes@) + output_workspaces(
            outs.drop_first(),
        )
    }
}

/// The non-scratch workspaces of a whole tree snapshot: the children of the
/// root are the outputs, and the children of each output are its
/// workspaces.
pub open spec fn snapshot_workspaces(t: Node) -> Seq<Node> {
    output_workspaces(t.nodes@ + t.floating_nodes@)
}

/// Flattens a tree snapshot into its list of workspaces: the children of
/// the root's children (tiled before floating at both levels), with the
/// hidden scratch workspace left out.
pub fn get_workspaces(tree: Node) -> (r: Vec<Node>)
    ensures
        r@ == snapshot_workspaces(tree),
{
    let scratch: String = "__i3_scratch".to_owned();
    let mut outs: Vec<Node> = tree.nodes;
    let mut fl: Vec<Node> = tree.floating_nodes;
    outs.append(&mut fl);
    let ghost all_outs: Seq<Node> = outs@;
    let mut r: Vec<Node> = Vec::new();
    while outs.len() > 0
        invariant
            scratch@ == "__i3_scratch"@,
            r@ + output_workspaces(outs@) == output_workspaces(all_outs),
        decreases outs@.len(),
    {
        let ghost prev = outs@;
        let out = outs.remove(0);
        proof {
            assert(prev.remove(0) =~= prev.drop_first());
        }
        let ghost out_kids: Seq<Node> = out.nodes@ + out.floating_nodes@;
        let mut kids: Vec<Node> = out.nodes;
        let mut flk: Vec<Node> = out.floating_nodes;
        kids.append(&mut flk);
        proof {
            assert(r@ + (keep_workspaces(out_kids) + output_workspaces(outs@)) =~= (r@
                + keep_workspaces(out_kids)) + output_workspaces(outs@));
        }
        while kids.len() > 0
            invariant
                scratch@ == "__i3_scratch"@,
                (r@ + keep_workspaces(kids@)) + output_workspaces(outs@) == output_workspaces(
                    all_outs,
                ),
            decreases kids@.len(),
        {
            let ghost prevk = kids@;
            let k = kids.remove(0);
            proof {
                assert(prevk.remove(0) =~= prevk.drop_first());
            }
            let keep: bool = match &k.name {
                Some(nm) => !(*nm == scratch),
                None => true,
            };
            proof {
                assert(keep == !is_scratch(k));
            }
            if keep {
                let ghost prev_r = r@;
                r.push(k);
                proof {
                    assert(r@ =~= prev_r + seq![k]);
                    assert((prev_r + (seq![k] + keep_workspaces(kids@))) =~= ((prev_r + seq![k])
                        + keep_workspaces(kids@)));
                }
            }
        }
        proof {
            assert(keep_workspaces(kids@) =~= Seq::<Node>::empty());
            assert(r@ + Seq::<Node>::empty() =~= r@);
        }
    }
    proof {
        assert(r@ + Seq::<Node>::empty() =~= r@);
    }
    r
}

proof fn lemma_focused_node_sound(n: Node)
    ensures
        focused_node(n) matches Some(f) ==> f.focused && node_in(f, n),
    decreases n,
{
    lemma_focused_list_sound(n.nodes@);
    lemma_focused_list_sound(n.floating_nodes@);
}

/// Whatever `find_focused` returns is focused and stands in the forest.
pub proof fn lemma_focused_list_sound(s: Seq<Node>)
    ensures
        focused_in_list(s) matches Some(f) ==> f.focused && node_in_list(f, s),
    decreases s,
{
    if s.len() > 0 {
        lemma_focused_node_sound(s[0]);
        lemma_focused_list_sound(s.drop_first());
    }
}

proof fn lemma_focused_count_node(n: Node, f: Node)
    requires
        node_in(f, n),
        f.focused,
    ensures
        focused_count(n) >= 1,
    decreases n,
{
    if f == n {
    } else if node_in_list(f, n.nodes@) {
        lemma_focused_count_list(n.nodes@, f);
    } else {
        lemma_focused_count_list(n.floating_nodes@, f);
    }
}

proof fn lemma_focused_count_list(s: Seq<Node>, f: Node)
    requires
        node_in_list(f, s),
        f.focused,
    ensures
        focused_count_list(s) >= 1,
    decreases s,
{
    if node_in(f, s[0]) {
        lemma_focused_count_node(s[0], f);
    } else {
        lemma_focused_count_list(s.drop_first(), f);
    }
}

proof fn lemma_focused_node_unique(n: Node, f: Node)
    requires
        focused_count(n) == 1,
        node_in(f, n),
        f.focused,
    ensures
        focused_node(n) == Some(f),
    decreases n,
{
    if n.focused {
        if f != n {
            if node_in_list(f, n.nodes@) {
                lemma_focused_count_list(n.nodes@, f);
            } else {
                lemma_focused_count_list(n.floating_nodes@, f);
            }
        }
    } else {
        if node_in_list(f, n.nodes@) {
            lemma_focused_count_list(n.nodes@, f);
            lemma_focused_list_unique(n.nodes@, f);
        } else {
            lemma_focused_count_list(n.floating_nodes@, f);
            lemma_focused_list_sound(n.nodes@);
            match focused_in_list(n.nodes@) {
                Some(g) => {
                    lemma_focused_count_list(n.nodes@, g);
                },
                None => {},
            }
            lemma_focused_list_unique(n.floating_nodes@, f);
        }
    }
}

/// In a snapshot with exactly one focused node, `find_focused` returns that
/// node and only that node.
pub proof fn lemma_focused_list_unique(s: Seq<Node>, f: Node)
    requires
        focused_count_list(s) == 1,
        node_in_list(f, s),
        f.focused,
    ensures
        focused_in_list(s) == Some(f),
    decreases s,
{
    if node_in(f, s[0]) {
        lemma_focused_count_node(s[0], f);
        lemma_focused_node_unique(s[0], f);
    } else {
        lemma_focused_count_list(s.drop_first(), f);
        lemma_focused_node_sound(s[0]);
        match focused_node(s[0]) {
            Some(g) => {
                lemma_focused_count_node(s[0], g);
            },
            None => {},
        }
        lemma_focused_list_unique(s.drop_first(), f);
    }
}

proof fn lemma_parent_node_sound(n: Node, id: i64)
    ensures
        parent_in_node(n, id) matches Some(p) ==> node_in(p, n) && has_child_with_id(p, id),
    decreases n,
{
    lemma_parent_list_sound(n.nodes@, id);
    lemma_parent_list_sound(n.floating_nodes@, id);
}

/// Whatever `find_parent` returns stands in the forest and directly
/// contains a child with the sought id, among its tiled or floating
/// children.
pub proof fn lemma_parent_list_sound(s: Seq<Node>, id: i64)
    ensures
        parent_in_list(s, id) matches Some(p) ==> node_in_list(p, s) && has_child_with_id(p, id),
    decreases s,
{
    if s.len() > 0 {
        lemma_parent_node_sound(s[0], id);
        lemma_parent_list_sound(s.drop_first(), id);
    }
}

proof fn lemma_parent_node_complete(n: Node, id: i64, p: Node)
    requires
        node_in(p, n),
        has_child_with_id(p, id),
    ensures
        parent_in_node(n, id) is Some,
    decreases n,
{
    if !has_child_with_id(n, id) {
        if node_in_list(p, n.nodes@) {
            lemma_parent_list_complete(n.nodes@, id, p);
        } else {
            lemma_parent_list_complete(n.floating_nodes@, id, p);
        }
    }
}

/// For every node that has a parent in the forest, `find_parent` finds one:
/// it fails only on a top-level or absent target.
pub proof fn lemma_parent_list_complete(s: Seq<Node>, id: i64, p: Node)
    requires
        node_in_list(p, s),
        has_child_with_id(p, id),
    ensures
        parent_in_list(s, id) is Some,
    decreases s,
{
    if node_in(p, s[0]) {
        lemma_parent_node_complete(s[0], id, p);
    } else {
        lemma_parent_list_complete(s.drop_first(), id, p);
    }
}

/// Whatever `find_workspace` returns is one of the given workspaces, and
/// its subtree holds the sought id.
pub proof fn lemma_workspace_for_sound(s: Seq<Node>, id: i64)
    ensures
        workspace_for(s, id) matches Some(w) ==> subtree_contains(w, id) && exists|i: int|
            0 <= i < s.len() && s[i] == w,
    decreases s,
{
    if s.len() > 0 && !subtree_contains(s[0], id) {
        lemma_workspace_for_sound(s.drop_first(), id);
        match workspace_for(s.drop_first(), id) {
            Some(w) => {
                let i = choose|i: int|
                    0 <= i < s.drop_first().len() && s.drop_first()[i] == w;
                assert(s[i + 1] == w);
            },
            None => {},
        }
    }
}

/// `find_workspace` succeeds whenever some workspace's subtree holds the
/// sought id.
pub proof fn lemma_workspace_for_complete(s: Seq<Node>, id: i64, i: int)
    requires
        0 <= i < s.len(),
        subtree_contains(s[i], id),
    ensures
        workspace_for(s, id) is Some,
    decreases s,
{
    if !subtree_contains(s[0], id) {
        lemma_workspace_for_complete(s.drop_first(), id, i - 1);
    }
}

proof fn lemma_keep_workspaces_no_scratch(s: Seq<Node>)
    ensures
        forall|i: int|
            0 <= i < keep_workspaces(s).len() ==> !is_scratch(#[trigger] keep_workspaces(s)[i]),
    decreases s.len(),
{
    if s.len() > 0 {
        lemma_keep_workspaces_no_scratch(s.drop_first());
        assert forall|i: int| 0 <= i < keep_workspaces(s).len() implies !is_scratch(
            keep_workspaces(s)[i],
        ) by {
            if is_scratch(s[0]) {
                assert(keep_workspaces(s)[i] == keep_workspaces(s.drop_first())[i]);
            } else if i == 0 {
                assert(keep_workspaces(s)[i] == s[0]);
            } else {
                assert(keep_workspaces(s)[i] == keep_workspaces(s.drop_first())[i - 1]);
            }
        }
    }
}

/// No workspace that `get_workspaces` hands out is the hidden scratch
/// workspace.
pub proof fn lemma_output_workspaces_no_scratch(outs: Seq<Node>)
    ensures
        forall|i: int|
            0 <= i < output_workspaces(outs).len() ==> !is_scratch(
                #[trigger] output_workspaces(outs)[i],
            ),
    decreases outs.len(),
{
    if outs.len() > 0 {
        lemma_keep_workspaces_no_scratch(outs[0].nodes@ + outs[0].floating_nodes@);
        lemma_output_workspaces_no_scratch(outs.drop_first());
        let head = keep_workspaces(outs[0].nodes@ + outs[0].floating_nodes@);
        assert forall|i: int| 0 <= i < output_workspaces(outs).len() implies !is_scratch(
            output_workspaces(outs)[i],
        ) by {
            if i < head.len() {
                assert(output_workspaces(outs)[i] == head[i]);
            } else {
                assert(output_workspaces(outs)[i] == output_workspaces(outs.drop_first())[i
                    - head.len()]);
            }
        }
    }
}

/// Over the workspaces of any snapshot, `find_workspace` never returns the
/// hidden scratch workspace, wherever the sought node sits.
pub proof fn lemma_workspace_never_scratch(t: Node, id: i64)
    ensures
        workspace_for(snapshot_workspaces(t), id) matches Some(w) ==> !is_scratch(w),
{
    lemma_output_workspaces_no_scratch(t.nodes@ + t.floating_nodes@);
    lemma_workspace_for_sound(snapshot_workspaces(t), id);
}

} // verus!
