//! The per-frame walk of the scene graph.
//!
//! Each frame the graph is walked from the roots of the active scene,
//! depth first and with an explicit stack. A node whose scale is degenerate
//! is pruned: neither it nor anything reached only through it is visited.
//! The walk yields the visible nodes, each with the place in the list of
//! the node whose world transform it is composed with.

use vstd::prelude::*;
use vstd::set_lib::lemma_len_subset;
use std::collections::HashMap;
use std::collections::HashSet;
use crate::identity::Identity;
use crate::model::Node;

verus! {

/// One visited node. `parent` is the position in the visible list of the
/// node through which this one was reached, or nothing for a root: the
/// world transform of the node is that of its parent times its own.
#[derive(Clone, Copy, Debug, PartialEq, Eq, Structural)]
pub struct Visit {
    pub node: Identity,
    pub parent: Option<usize>,
}

/// A node is live when the table holds it and its scale is not degenerate.
pub open spec fn live(nodes: Map<Identity, Node>, id: Identity) -> bool {
    nodes.contains_key(id) && !nodes[id].transform.degenerate()
}

/// Whether a list of visits holds one of the node `id`.
pub open spec fn seen(visits: Seq<Visit>, id: Identity) -> bool {
    exists|i: int| 0 <= i < visits.len() && (#[trigger] visits[i]).node == id
}

/// The nodes of a list of visits.
pub open spec fn seen_set(visits: Seq<Visit>) -> Set<Identity> {
    Set::new(|id: Identity| seen(visits, id))
}

/// Whether a visit is accounted for: a visit without parent is of a root;
/// one with a parent names an earlier place in the list, below `bound`, of
/// which its node is a child.
pub open spec fn justified(
    nodes: Map<Identity, Node>,
    roots: Seq<Identity>,
    visible: Seq<Visit>,
    v: Visit,
    bound: int,
) -> bool {
    match v.parent {
        None => roots.contains(v.node),
        Some(p) => {
            let through = visible[p as int].node;
            p < bound && nodes.contains_key(through) && nodes[through].children@.contains(v.node)
        },
    }
}

/// Whether every live root, and every live child of a visited node, is
/// visited or waits on the stack.
#[verifier::opaque]
pub open spec fn closed(
    nodes: Map<Identity, Node>,
    roots: Seq<Identity>,
    visible: Seq<Visit>,
    stack: Seq<Visit>,
) -> bool {
    &&& forall|k: int|
        0 <= k < roots.len() && live(nodes, #[trigger] roots[k]) ==> seen(visible, roots[k])
            || seen(stack, roots[k])
    &&& forall|i: int, k: int|
        0 <= i < visible.len() && 0 <= k < nodes[visible[i].node].children@.len() && live(
            nodes,
            #[trigger] nodes[visible[i].node].children@[k],
        ) ==> seen(visible, nodes[visible[i].node].children@[k]) || seen(
            stack,
            nodes[visible[i].node].children@[k],
        )
}

/// Whether every visit of the list is of a live node.
pub open spec fn all_live(nodes: Map<Identity, Node>, visible: Seq<Visit>) -> bool {
    forall|i: int| 0 <= i < visible.len() ==> live(nodes, (#[trigger] visible[i]).node)
}

/// Whether no node is visited twice.
pub open spec fn distinct(visible: Seq<Visit>) -> bool {
    forall|i: int, j: int|
        0 <= i < j < visible.len() ==> (#[trigger] visible[i]).node != (#[trigger] visible[j]).node
}

/// Whether every visit of the list is accounted for by an earlier one.
pub open spec fn ordered(nodes: Map<Identity, Node>, roots: Seq<Identity>, visible: Seq<Visit>) -> bool {
    forall|i: int|
        0 <= i < visible.len() ==> justified(nodes, roots, visible, #[trigger] visible[i], i)
}

/// Whether every visit that waits on the stack is accounted for by one of
/// the list.
pub open spec fn waiting(
    nodes: Map<Identity, Node>,
    roots: Seq<Identity>,
    visible: Seq<Visit>,
    stack: Seq<Visit>,
) -> bool {
    forall|s: int|
        0 <= s < stack.len() ==> justified(
            nodes,
            roots,
            visible,
            #[trigger] stack[s],
            visible.len() as int,
        )
}

/// Whether `visible` lists the nodes that a frame shows: live nodes only,
/// none twice, each a root or a child of an earlier one, and with every
/// live root and every live child of a listed node listed too.
pub open spec fn is_visible_list(
    nodes: Map<Identity, Node>,
    roots: Seq<Identity>,
    visible: Seq<Visit>,
) -> bool {
    &&& all_live(nodes, visible)
    &&& distinct(visible)
    &&& ordered(nodes, roots, visible)
    &&& closed(nodes, roots, visible, Seq::empty())
}

/// What holds between two steps of the walk.
pub open spec fn walking(
    nodes: Map<Identity, Node>,
    roots: Seq<Identity>,
    visible: Seq<Visit>,
    stack: Seq<Visit>,
) -> bool {
    &&& all_live(nodes, visible)
    &&& distinct(visible)
    &&& ordered(nodes, roots, visible)
    &&& waiting(nodes, roots, visible, stack)
    &&& closed(nodes, roots, visible, stack)
}

/// The visits that wait for the nodes `ids`, all reached through `parent`.
pub open spec fn visits_of(ids: Seq<Identity>, parent: Option<usize>) -> Seq<Visit> {
    Seq::new(ids.len(), |k: int| Visit { node: ids[k], parent })
}

/// Pushes a visit for each of `ids` onto the stack.
fn push_all(stack: &mut Vec<Visit>, ids: &Vec<Identity>, parent: Option<usize>)
    ensures
        final(stack)@ == old(stack)@ + visits_of(ids@, parent),
{
    let mut k: usize = 0;
    while k < ids.len()
        invariant
            k <= ids@.len(),
            stack@ == old(stack)@ + visits_of(ids@, parent).take(k as int),
        decreases ids@.len() - k,
    {
        stack.push(Visit { node: ids[k], parent });
        proof {
            assert(visits_of(ids@, parent).take(k + 1) == visits_of(ids@, parent).take(
                k as int,
            ).push(visits_of(ids@, parent)[k as int]));
        }
        k = k + 1;
    }
    proof {
        assert(visits_of(ids@, parent).take(ids@.len() as int) == visits_of(ids@, parent));
    }
}

/// The walk may start with the roots on the stack and nothing visited.
proof fn lemma_walk_starts(nodes: Map<Identity, Node>, roots: Seq<Identity>)
    ensures
        walking(nodes, roots, Seq::empty(), visits_of(roots, None)),
{
    reveal(closed);
    let stack = visits_of(roots, None);
    assert forall|k: int| 0 <= k < roots.len() implies seen(stack, #[trigger] roots[k]) by {
        assert(stack[k].node == roots[k]);
    }
    assert forall|s: int| 0 <= s < stack.len() implies justified(
        nodes,
        roots,
        Seq::empty(),
        #[trigger] stack[s],
        0,
    ) by {
        assert(roots[s] == stack[s].node);
    }
}

/// A node that was visited or waited is visited or waits after the top of
/// the stack was dropped, unless it waited there alone.
proof fn lemma_seen_stays(visible: Seq<Visit>, stack: Seq<Visit>, id: Identity)
    requires
        stack.len() > 0,
        seen(visible, id) || seen(stack, id),
        id != stack.last().node || seen(visible, id),
    ensures
        seen(visible, id) || seen(stack.drop_last(), id),
{
    if !seen(visible, id) {
        let s = choose|s: int| 0 <= s < stack.len() && (#[trigger] stack[s]).node == id;
        assert(stack.drop_last()[s].node == id);
    }
}

/// Every live root and live child stays visited or waiting when a visit is
/// dropped from the stack whose node is not live or was visited before.
proof fn lemma_closed_skips(
    nodes: Map<Identity, Node>,
    roots: Seq<Identity>,
    visible: Seq<Visit>,
    stack: Seq<Visit>,
)
    requires
        closed(nodes, roots, visible, stack),
        stack.len() > 0,
        !live(nodes, stack.last().node) || seen(visible, stack.last().node),
    ensures
        closed(nodes, roots, visible, stack.drop_last()),
{
    reveal(closed);
    let rest = stack.drop_last();
    assert forall|k: int| 0 <= k < roots.len() && live(nodes, #[trigger] roots[k]) implies seen(
        visible,
        roots[k],
    ) || seen(rest, roots[k]) by {
        lemma_seen_stays(visible, stack, roots[k]);
    }
    assert forall|i: int, k: int|
        0 <= i < visible.len() && 0 <= k < nodes[visible[i].node].children@.len() && live(
            nodes,
            #[trigger] nodes[visible[i].node].children@[k],
        ) implies seen(visible, nodes[visible[i].node].children@[k]) || seen(
        rest,
        nodes[visible[i].node].children@[k],
    ) by {
        lemma_seen_stays(visible, stack, nodes[visible[i].node].children@[k]);
    }
}

/// Dropping a visit from the stack keeps the walk in order where its node
/// is not live or was visited before.
proof fn lemma_walk_skips(
    nodes: Map<Identity, Node>,
    roots: Seq<Identity>,
    visible: Seq<Visit>,
    stack: Seq<Visit>,
)
    requires
        walking(nodes, roots, visible, stack),
        stack.len() > 0,
        !live(nodes, stack.last().node) || seen(visible, stack.last().node),
    ensures
        walking(nodes, roots, visible, stack.drop_last()),
{
    let rest = stack.drop_last();
    lemma_closed_skips(nodes, roots, visible, stack);
    assert forall|s: int| 0 <= s < rest.len() implies justified(
        nodes,
        roots,
        visible,
        #[trigger] rest[s],
        visible.len() as int,
    ) by {
        assert(rest[s] == stack[s]);
    }
}

/// A visit stays accounted for when the list grows.
proof fn lemma_justified_grows(
    nodes: Map<Identity, Node>,
    roots: Seq<Identity>,
    visible: Seq<Visit>,
    top: Visit,
    v: Visit,
    bound: int,
)
    requires
        justified(nodes, roots, visible, v, bound),
        bound <= visible.len(),
    ensures
        justified(nodes, roots, visible.push(top), v, bound),
{
    if v.parent is Some {
        assert(visible.push(top)[v.parent->0 as int] == visible[v.parent->0 as int]);
    }
}

/// A node that was visited or waited is visited or waits after the top of
/// the stack has moved to the list.
proof fn lemma_seen_moves(visible: Seq<Visit>, stack: Seq<Visit>, tail: Seq<Visit>, id: Identity)
    requires
        stack.len() > 0,
        seen(visible, id) || seen(stack, id),
    ensures
        seen(visible.push(stack.last()), id) || seen(stack.drop_last() + tail, id),
{
    let visible2 = visible.push(stack.last());
    let stack2 = stack.drop_last() + tail;
    if seen(visible, id) {
        let i = choose|i: int| 0 <= i < visible.len() && (#[trigger] visible[i]).node == id;
        assert(visible2[i].node == id);
    } else {
        let s = choose|s: int| 0 <= s < stack.len() && (#[trigger] stack[s]).node == id;
        if s < stack.len() - 1 {
            assert(stack2[s].node == id);
        } else {
            assert(visible2[visible.len() as int].node == id);
        }
    }
}

/// The list stays one of live, distinct, ordered visits when the top of
/// the stack joins it.
proof fn lemma_visit_joins(
    nodes: Map<Identity, Node>,
    roots: Seq<Identity>,
    visible: Seq<Visit>,
    top: Visit,
)
    requires
        all_live(nodes, visible),
        distinct(visible),
        ordered(nodes, roots, visible),
        justified(nodes, roots, visible, top, visible.len() as int),
        live(nodes, top.node),
        !seen(visible, top.node),
    ensures
        all_live(nodes, visible.push(top)),
        distinct(visible.push(top)),
        ordered(nodes, roots, visible.push(top)),
{
    let visible2 = visible.push(top);
    let at = visible.len() as int;
    assert forall|i: int| 0 <= i < visible2.len() implies live(
        nodes,
        (#[trigger] visible2[i]).node,
    ) by {
        if i < at {
            assert(visible2[i] == visible[i]);
        }
    }
    assert forall|i: int, j: int| 0 <= i < j < visible2.len() implies (#[trigger] visible2[i]).node
        != (#[trigger] visible2[j]).node by {
        assert(visible2[i] == visible[i]);
        if j < at {
            assert(visible2[j] == visible[j]);
        }
    }
    assert forall|i: int| 0 <= i < visible2.len() implies justified(
        nodes,
        roots,
        visible2,
        #[trigger] visible2[i],
        i,
    ) by {
        if i < at {
            assert(visible2[i] == visible[i]);
            lemma_justified_grows(nodes, roots, visible, top, visible[i], i);
        } else {
            lemma_justified_grows(nodes, roots, visible, top, top, at);
        }
    }
}

/// The stack stays one of accounted visits when its top joins the list
/// and the children of the top take its place.
proof fn lemma_children_wait(
    nodes: Map<Identity, Node>,
    roots: Seq<Identity>,
    visible: Seq<Visit>,
    stack: Seq<Visit>,
)
    requires
        waiting(nodes, roots, visible, stack),
        stack.len() > 0,
        nodes.contains_key(stack.last().node),
        visible.len() <= usize::MAX,
    ensures
        waiting(
            nodes,
            roots,
            visible.push(stack.last()),
            stack.drop_last() + visits_of(
                nodes[stack.last().node].children@,
                Some(visible.len() as usize),
            ),
        ),
{
    let top = stack.last();
    let rest = stack.drop_last();
    let children = nodes[top.node].children@;
    let at = visible.len() as int;
    let fresh = visits_of(children, Some(at as usize));
    let visible2 = visible.push(top);
    let stack2 = rest + fresh;
    assert forall|s: int| 0 <= s < stack2.len() implies justified(
        nodes,
        roots,
        visible2,
        #[trigger] stack2[s],
        visible2.len() as int,
    ) by {
        if s < rest.len() {
            assert(stack2[s] == stack[s]);
            lemma_justified_grows(nodes, roots, visible, top, stack[s], at);
        } else {
            let k = s - rest.len();
            assert(stack2[s] == fresh[k]);
            assert(visible2[at] == top);
            assert(children[k] == fresh[k].node);
        }
    }
}

/// Every live root and live child stays visited or waiting when the top of
/// the stack joins the list and its children take its place.
proof fn lemma_closed_visits(
    nodes: Map<Identity, Node>,
    roots: Seq<Identity>,
    visible: Seq<Visit>,
    stack: Seq<Visit>,
)
    requires
        closed(nodes, roots, visible, stack),
        stack.len() > 0,
        visible.len() <= usize::MAX,
    ensures
        closed(
            nodes,
            roots,
            visible.push(stack.last()),
            stack.drop_last() + visits_of(
                nodes[stack.last().node].children@,
                Some(visible.len() as usize),
            ),
        ),
{
    reveal(closed);
    let top = stack.last();
    let rest = stack.drop_last();
    let children = nodes[top.node].children@;
    let at = visible.len() as int;
    let fresh = visits_of(children, Some(at as usize));
    let visible2 = visible.push(top);
    let stack2 = rest + fresh;
    assert forall|k: int| 0 <= k < roots.len() && live(nodes, #[trigger] roots[k]) implies seen(
        visible2,
        roots[k],
    ) || seen(stack2, roots[k]) by {
        lemma_seen_moves(visible, stack, fresh, roots[k]);
    }
    assert forall|i: int, k: int|
        0 <= i < visible2.len() && 0 <= k < nodes[visible2[i].node].children@.len() && live(
            nodes,
            #[trigger] nodes[visible2[i].node].children@[k],
        ) implies seen(visible2, nodes[visible2[i].node].children@[k]) || seen(
        stack2,
        nodes[visible2[i].node].children@[k],
    ) by {
        if i < at {
            assert(visible2[i] == visible[i]);
            let child = nodes[visible[i].node].children@[k];
            assert(seen(visible, child) || seen(stack, child));
            lemma_seen_moves(visible, stack, fresh, child);
        } else {
            assert(visible2[i] == top);
            assert(stack2[rest.len() + k] == fresh[k]);
            assert(stack2[rest.len() + k].node == children[k]);
        }
    }
}

/// Visiting the node on top of the stack, and putting its children there
/// in its place, keeps the walk in order.
proof fn lemma_walk_visits(
    nodes: Map<Identity, Node>,
    roots: Seq<Identity>,
    visible: Seq<Visit>,
    stack: Seq<Visit>,
)
    requires
        walking(nodes, roots, visible, stack),
        stack.len() > 0,
        live(nodes, stack.last().node),
        !seen(visible, stack.last().node),
        visible.len() <= usize::MAX,
    ensures
        walking(
            nodes,
            roots,
            visible.push(stack.last()),
            stack.drop_last() + visits_of(
                nodes[stack.last().node].children@,
                Some(visible.len() as usize),
            ),
        ),
{
    assert(justified(nodes, roots, visible, stack[stack.len() - 1], visible.len() as int));
    lemma_visit_joins(nodes, roots, visible, stack.last());
    lemma_children_wait(nodes, roots, visible, stack);
    lemma_closed_visits(nodes, roots, visible, stack);
}

/// Walks the graph from `roots` and lists the nodes to show this frame.
/// The order of the list is that of the walk; nothing but the place of a
/// node after the one it was reached through is promised of it.
pub fn visible_nodes(nodes: &HashMap<Identity, Node>, roots: &Vec<Identity>) -> (visible: Vec<
    Visit,
>)
    ensures
        is_visible_list(nodes@, roots@, visible@),
{
    broadcast use vstd::std_specs::hash::group_hash_axioms;

    let mut visible: Vec<Visit> = Vec::new();
    let mut visited: HashSet<Identity> = HashSet::new();
    let mut stack: Vec<Visit> = Vec::new();
    push_all(&mut stack, roots, None);
    proof {
        lemma_walk_starts(nodes@, roots@);
        assert(stack@ == visits_of(roots@, None));
        assert(visited@ =~= seen_set(visible@));
    }
    while stack.len() > 0
        invariant
            walking(nodes@, roots@, visible@, stack@),
            visited@ == seen_set(visible@),
            visited@.finite(),
            visited@.len() == visible@.len(),
            visited@.subset_of(nodes@.dom()),
            nodes@.dom().finite(),
        decreases nodes@.dom().len() - visited@.len(), stack@.len(),
    {
        let ghost before = stack@;
        let ghost shown = visible@;
        let entry = stack.pop().unwrap();
        assert(entry == before.last() && stack@ == before.drop_last());
        let fresh = match nodes.get(&entry.node) {
            Some(node) => if node.transform.is_degenerate() || visited.contains(&entry.node) {
                None
            } else {
                Some(node)
            },
            None => None,
        };
        match fresh {
            Some(node) => {
                proof {
                    lemma_len_subset(visited@.insert(entry.node), nodes@.dom());
                    assert(visible@.len() < nodes@.dom().len());
                    assert(nodes@.dom().len() <= usize::MAX) by {
                        assert(nodes.len() == nodes@.dom().len());
                    }
                    lemma_walk_visits(nodes@, roots@, shown, before);
                }
                let at: usize = visible.len();
                visited.insert(entry.node);
                visible.push(entry);
                push_all(&mut stack, &node.children, Some(at));
                proof {
                    assert forall|id: Identity| visited@.contains(id) == seen_set(
                        visible@,
                    ).contains(id) by {
                        if seen(shown, id) {
                            let i = choose|i: int|
                                0 <= i < shown.len() && (#[trigger] shown[i]).node == id;
                            assert(visible@[i].node == id);
                        }
                        if id == entry.node {
                            assert(visible@[at as int].node == id);
                        }
                        if seen(visible@, id) {
                            let i = choose|i: int|
                                0 <= i < visible@.len() && (#[trigger] visible@[i]).node == id;
                            if i < shown.len() {
                                assert(shown[i].node == id);
                            }
                        }
                    }
                    assert(visited@ =~= seen_set(visible@));
                }
            },
            None => {
                proof {
                    lemma_walk_skips(nodes@, roots@, shown, before);
                }
            },
        }
    }
    proof {
        assert(stack@ =~= Seq::empty());
    }
    visible
}

/// Without roots, the empty list is the list of visible nodes.
pub proof fn lemma_nothing_to_show(nodes: Map<Identity, Node>)
    ensures
        is_visible_list(nodes, Seq::empty(), Seq::empty()),
{
    reveal(closed);
}

/// Whether `path` leads from a root down the graph, each node a child of
/// the one before it.
pub open spec fn is_path(nodes: Map<Identity, Node>, roots: Seq<Identity>, path: Seq<Identity>) -> bool {
    &&& path.len() > 0
    &&& roots.contains(path[0])
    &&& forall|k: int|
        0 < k < path.len() ==> nodes.contains_key(path[k - 1]) && nodes[path[k - 1]].children@.contains(
            #[trigger] path[k],
        )
}

/// Whether every node of `path` is live.
pub open spec fn is_live_path(nodes: Map<Identity, Node>, path: Seq<Identity>) -> bool {
    forall|k: int| 0 <= k < path.len() ==> live(nodes, #[trigger] path[k])
}

/// Every listed node is reached from a root by a path of live nodes: the
/// path that its chain of parents gives.
pub proof fn lemma_visible_is_reached(
    nodes: Map<Identity, Node>,
    roots: Seq<Identity>,
    visible: Seq<Visit>,
    i: int,
) -> (path: Seq<Identity>)
    requires
        is_visible_list(nodes, roots, visible),
        0 <= i < visible.len(),
    ensures
        is_path(nodes, roots, path),
        is_live_path(nodes, path),
        path.last() == visible[i].node,
    decreases i,
{
    let v = visible[i];
    assert(justified(nodes, roots, visible, v, i));
    assert(live(nodes, v.node));
    match v.parent {
        None => {
            let path = seq![v.node];
            assert(path[0] == v.node);
            path
        },
        Some(p) => {
            let upper = lemma_visible_is_reached(nodes, roots, visible, p as int);
            let path = upper.push(v.node);
            assert(path[0] == upper[0]);
            assert forall|k: int| 0 < k < path.len() implies nodes.contains_key(path[k - 1])
                && nodes[path[k - 1]].children@.contains(#[trigger] path[k]) by {
                if k < upper.len() {
                    assert(path[k] == upper[k] && path[k - 1] == upper[k - 1]);
                } else {
                    assert(path[k - 1] == upper.last());
                }
            }
            assert forall|k: int| 0 <= k < path.len() implies live(nodes, #[trigger] path[k]) by {
                if k < upper.len() {
                    assert(path[k] == upper[k]);
                }
            }
            path
        },
    }
}

/// Every node that a path of live nodes reaches from a root is listed.
pub proof fn lemma_reached_is_visible(
    nodes: Map<Identity, Node>,
    roots: Seq<Identity>,
    visible: Seq<Visit>,
    path: Seq<Identity>,
)
    requires
        is_visible_list(nodes, roots, visible),
        is_path(nodes, roots, path),
        is_live_path(nodes, path),
    ensures
        seen(visible, path.last()),
    decreases path.len(),
{
    reveal(closed);
    let empty = Seq::<Visit>::empty();
    assert forall|id: Identity| !seen(empty, id) by {}
    if path.len() == 1 {
        let k = choose|k: int| 0 <= k < roots.len() && roots[k] == path[0];
        assert(live(nodes, roots[k]));
    } else {
        let upper = path.drop_last();
        assert(upper[0] == path[0]);
        assert forall|k: int| 0 < k < upper.len() implies nodes.contains_key(upper[k - 1])
            && nodes[upper[k - 1]].children@.contains(#[trigger] upper[k]) by {
            assert(upper[k] == path[k] && upper[k - 1] == path[k - 1]);
        }
        assert forall|k: int| 0 <= k < upper.len() implies live(nodes, #[trigger] upper[k]) by {
            assert(upper[k] == path[k]);
        }
        lemma_reached_is_visible(nodes, roots, visible, upper);
        let i = choose|i: int| 0 <= i < visible.len() && (#[trigger] visible[i]).node == upper.last();
        let last = path.len() - 1;
        assert(nodes[path[last - 1]].children@.contains(path[last]));
        let children = nodes[visible[i].node].children@;
        let k = choose|k: int| 0 <= k < children.len() && children[k] == path[last];
        assert(live(nodes, nodes[visible[i].node].children@[k]));
    }
}

/// Degenerate-scale pruning: a node that cannot be reached from a root
/// but through a node that is not live is not listed, whatever its own
/// scale and that of its descendants. The node that is not live is itself
/// such a node.
pub proof fn lemma_pruned_is_hidden(
    nodes: Map<Identity, Node>,
    roots: Seq<Identity>,
    visible: Seq<Visit>,
    pruned: Identity,
    id: Identity,
)
    requires
        is_visible_list(nodes, roots, visible),
        !live(nodes, pruned),
        forall|path: Seq<Identity>|
            #![trigger is_path(nodes, roots, path)]
            is_path(nodes, roots, path) && path.last() == id ==> path.contains(pruned),
    ensures
        !seen(visible, id),
{
    if seen(visible, id) {
        let i = choose|i: int| 0 <= i < visible.len() && (#[trigger] visible[i]).node == id;
        let path = lemma_visible_is_reached(nodes, roots, visible, i);
        let k = choose|k: int| 0 <= k < path.len() && path[k] == pruned;
        assert(live(nodes, path[k]));
    }
}

} // verus!
