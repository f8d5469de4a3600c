use vstd::prelude::*;

use super::node::{
    comp_path_among, comp_path_with_id, comp_with_id, comp_with_id_among, id_is, node_at, node_id,
    node_path_among, node_path_with_id, node_with_id, node_with_id_among, prim_path_among,
    prim_path_with_id, prim_with_id, prim_with_id_among, replaced_at, Comp, Node, Prim,
};

verus! {

/// Finding a node by id finds only what it was asked for: the node found
/// carries the id and sits where the found path leads.
pub proof fn lemma_node_search_sound<S, C>(node: Node<S, C>, id: Seq<char>)
    ensures
        node_with_id(node, id) is Some <==> node_path_with_id(node, id) is Some,
        node_with_id(node, id) is Some ==> id_is(node_id(node_with_id(node, id)->0), id) && node_at(
            node,
            node_path_with_id(node, id)->0,
        ) == node_with_id(node, id),
    decreases node, 1nat, 0int,
{
    if let Node::Prim(p) = node {
        if !id_is(p.id, id) {
            assert(p.children@.len() == p.children.len());
            lemma_node_search_sound_among(p.children@, id, 0);
        }
    }
}

proof fn lemma_node_search_sound_among<S, C>(nodes: Seq<Node<S, C>>, id: Seq<char>, i: int)
    requires
        nodes.len() <= usize::MAX,
    ensures
        node_with_id_among(nodes, id, i) is Some <==> node_path_among(nodes, id, i) is Some,
        node_with_id_among(nodes, id, i) is Some ==> {
            let path = node_path_among(nodes, id, i)->0;
            &&& id_is(node_id(node_with_id_among(nodes, id, i)->0), id)
            &&& path.len() > 0
            &&& path[0] < nodes.len()
            &&& node_at(nodes[path[0] as int], path.drop_first()) == node_with_id_among(nodes, id, i)
        },
    decreases nodes, 0nat, nodes.len() - i,
{
    if 0 <= i < nodes.len() {
        lemma_node_search_sound(nodes[i], id);
        if node_with_id(nodes[i], id) is None {
            lemma_node_search_sound_among(nodes, id, i + 1);
        } else {
            let sub = node_path_with_id(nodes[i], id)->0;
            assert((seq![i as usize] + sub).drop_first() == sub);
            assert((seq![i as usize] + sub)[0] == i as usize);
        }
    }
}

proof fn lemma_node_among_none<S, C>(nodes: Seq<Node<S, C>>, id: Seq<char>, i: int, j: int)
    requires
        node_with_id_among(nodes, id, i) is None,
        0 <= i <= j < nodes.len(),
    ensures
        node_with_id(nodes[j], id) is None,
    decreases j - i,
{
    if i < j {
        lemma_node_among_none(nodes, id, i + 1, j);
    }
}

/// Finding a node by id misses nothing: when the search finds no node, no
/// node reachable through primitives carries that id.
pub proof fn lemma_node_search_complete<S, C>(node: Node<S, C>, id: Seq<char>, path: Seq<usize>)
    requires
        node_with_id(node, id) is None,
        node_at(node, path) is Some,
    ensures
        !id_is(node_id(node_at(node, path)->0), id),
    decreases path.len(),
{
    if path.len() > 0 {
        if let Node::Prim(p) = node {
            lemma_node_among_none(p.children@, id, 0, path[0] as int);
            lemma_node_search_complete(p.children@[path[0] as int], id, path.drop_first());
        }
    }
}

/// Finding a primitive by id finds only what it was asked for: the
/// primitive found carries the id and sits where the found path leads.
pub proof fn lemma_prim_search_sound<S, C>(node: Node<S, C>, id: Seq<char>)
    ensures
        prim_with_id(node, id) is Some <==> prim_path_with_id(node, id) is Some,
        prim_with_id(node, id) is Some ==> id_is(prim_with_id(node, id)->0.id, id) && node_at(
            node,
            prim_path_with_id(node, id)->0,
        ) == Some(Node::Prim(prim_with_id(node, id)->0)),
    decreases node, 1nat, 0int,
{
    if let Node::Prim(p) = node {
        if !id_is(p.id, id) {
            assert(p.children@.len() == p.children.len());
            lemma_prim_search_sound_among(p.children@, id, 0);
        }
    }
}

proof fn lemma_prim_search_sound_among<S, C>(nodes: Seq<Node<S, C>>, id: Seq<char>, i: int)
    requires
        nodes.len() <= usize::MAX,
    ensures
        prim_with_id_among(nodes, id, i) is Some <==> prim_path_among(nodes, id, i) is Some,
        prim_with_id_among(nodes, id, i) is Some ==> {
            let path = prim_path_among(nodes, id, i)->0;
            &&& id_is(prim_with_id_among(nodes, id, i)->0.id, id)
            &&& path.len() > 0
            &&& path[0] < nodes.len()
            &&& node_at(nodes[path[0] as int], path.drop_first()) == Some(
                Node::Prim(prim_with_id_among(nodes, id, i)->0),
            )
        },
    decreases nodes, 0nat, nodes.len() - i,
{
    if 0 <= i < nodes.len() {
        lemma_prim_search_sound(nodes[i], id);
        if prim_with_id(nodes[i], id) is None {
            lemma_prim_search_sound_among(nodes, id, i + 1);
        } else {
            let sub = prim_path_with_id(nodes[i], id)->0;
            assert((seq![i as usize] + sub).drop_first() == sub);
            assert((seq![i as usize] + sub)[0] == i as usize);
        }
    }
}

proof fn lemma_prim_among_none<S, C>(nodes: Seq<Node<S, C>>, id: Seq<char>, i: int, j: int)
    requires
        prim_with_id_among(nodes, id, i) is None,
        0 <= i <= j < nodes.len(),
    ensures
        prim_with_id(nodes[j], id) is None,
    decreases j - i,
{
    if i < j {
        lemma_prim_among_none(nodes, id, i + 1, j);
    }
}

/// Finding a primitive by id misses nothing: when the search finds none,
/// no primitive reachable through primitives carries that id.
pub proof fn lemma_prim_search_complete<S, C>(node: Node<S, C>, id: Seq<char>, path: Seq<usize>)
    requires
        prim_with_id(node, id) is None,
        node_at(node, path) matches Some(Node::Prim(_)),
    ensures
        !id_is(node_id(node_at(node, path)->0), id),
    decreases path.len(),
{
    if path.len() > 0 {
        if let Node::Prim(p) = node {
            lemma_prim_among_none(p.children@, id, 0, path[0] as int);
            lemma_prim_search_complete(p.children@[path[0] as int], id, path.drop_first());
        }
    }
}

/// Finding a component by id finds only what it was asked for: the
/// component found carries the id and sits where the found path leads.
pub proof fn lemma_comp_search_sound<S, C>(node: Node<S, C>, id: Seq<char>)
    ensures
        comp_with_id(node, id) is Some <==> comp_path_with_id(node, id) is Some,
        comp_with_id(node, id) is Some ==> id_is(comp_with_id(node, id)->0.id, id) && node_at(
            node,
            comp_path_with_id(node, id)->0,
        ) == Some(Node::<S, C>::Comp(comp_with_id(node, id)->0)),
    decreases node, 1nat, 0int,
{
    if let Node::Prim(p) = node {
        assert(p.children@.len() == p.children.len());
        lemma_comp_search_sound_among(p.children@, id, 0);
    }
}

proof fn lemma_comp_search_sound_among<S, C>(nodes: Seq<Node<S, C>>, id: Seq<char>, i: int)
    requires
        nodes.len() <= usize::MAX,
    ensures
        comp_with_id_among(nodes, id, i) is Some <==> comp_path_among(nodes, id, i) is Some,
        comp_with_id_among(nodes, id, i) is Some ==> {
            let path = comp_path_among(nodes, id, i)->0;
            &&& id_is(comp_with_id_among(nodes, id, i)->0.id, id)
            &&& path.len() > 0
            &&& path[0] < nodes.len()
            &&& node_at(nodes[path[0] as int], path.drop_first()) == Some(
                Node::<S, C>::Comp(comp_with_id_among(nodes, id, i)->0),
            )
        },
    decreases nodes, 0nat, nodes.len() - i,
{
    if 0 <= i < nodes.len() {
        lemma_comp_search_sound(nodes[i], id);
        if comp_with_id(nodes[i], id) is None {
            lemma_comp_search_sound_among(nodes, id, i + 1);
        } else {
            let sub = comp_path_with_id(nodes[i], id)->0;
            assert((seq![i as usize] + sub).drop_first() == sub);
            assert((seq![i as usize] + sub)[0] == i as usize);
        }
    }
}

proof fn lemma_comp_among_none<S, C>(nodes: Seq<Node<S, C>>, id: Seq<char>, i: int, j: int)
    requires
        comp_with_id_among(nodes, id, i) is None,
        0 <= i <= j < nodes.len(),
    ensures
        comp_with_id(nodes[j], id) is None,
    decreases j - i,
{
    if i < j {
        lemma_comp_among_none(nodes, id, i + 1, j);
    }
}

/// Finding a component by id misses nothing: when the search finds none,
/// no component reachable through primitives carries that id.
pub proof fn lemma_comp_search_complete<S, C>(node: Node<S, C>, id: Seq<char>, path: Seq<usize>)
    requires
        comp_with_id(node, id) is None,
        node_at(node, path) matches Some(Node::Comp(_)),
    ensures
        !id_is(node_id(node_at(node, path)->0), id),
    decreases path.len(),
{
    if path.len() > 0 {
        if let Node::Prim(p) = node {
            lemma_comp_among_none(p.children@, id, 0, path[0] as int);
            lemma_comp_search_complete(p.children@[path[0] as int], id, path.drop_first());
        }
    }
}

/// When no node carries the id, no primitive and no component does.
proof fn lemma_no_node_no_prim_no_comp<S, C>(node: Node<S, C>, id: Seq<char>)
    requires
        node_with_id(node, id) is None,
    ensures
        prim_with_id(node, id) is None,
        comp_with_id(node, id) is None,
    decreases node, 1nat, 0int,
{
    if let Node::Prim(p) = node {
        lemma_no_node_no_prim_no_comp_among(p.children@, id, 0);
    }
}

proof fn lemma_no_node_no_prim_no_comp_among<S, C>(nodes: Seq<Node<S, C>>, id: Seq<char>, i: int)
    requires
        node_with_id_among(nodes, id, i) is None,
    ensures
        prim_with_id_among(nodes, id, i) is None,
        comp_with_id_among(nodes, id, i) is None,
    decreases nodes, 0nat, nodes.len() - i,
{
    if 0 <= i < nodes.len() {
        lemma_no_node_no_prim_no_comp(nodes[i], id);
        lemma_no_node_no_prim_no_comp_among(nodes, id, i + 1);
    }
}

/// `get` and the typed lookups agree: when the first node with an id is a
/// primitive, `get_prim` returns that primitive; when it is a component,
/// `get_comp_mut` returns that component.
pub proof fn lemma_get_agrees_with_typed_lookups<S, C>(node: Node<S, C>, id: Seq<char>)
    ensures
        node_with_id(node, id) matches Some(Node::Prim(p)) ==> prim_with_id(node, id) == Some(p),
        node_with_id(node, id) matches Some(Node::Comp(c)) ==> comp_with_id(node, id) == Some(c),
        node_with_id(node, id) is None ==> prim_with_id(node, id) is None && comp_with_id(node, id) is None,
    decreases node, 1nat, 0int,
{
    if node_with_id(node, id) is None {
        lemma_no_node_no_prim_no_comp(node, id);
    }
    if let Node::Prim(p) = node {
        if !id_is(p.id, id) {
            lemma_get_agrees_among(p.children@, id, 0);
        }
    }
}

proof fn lemma_get_agrees_among<S, C>(nodes: Seq<Node<S, C>>, id: Seq<char>, i: int)
    ensures
        node_with_id_among(nodes, id, i) matches Some(Node::Prim(p)) ==> prim_with_id_among(nodes, id, i) == Some(p),
        node_with_id_among(nodes, id, i) matches Some(Node::Comp(c)) ==> comp_with_id_among(nodes, id, i) == Some(c),
    decreases nodes, 0nat, nodes.len() - i,
{
    if 0 <= i < nodes.len() {
        lemma_get_agrees_with_typed_lookups(nodes[i], id);
        if node_with_id(nodes[i], id) is None {
            lemma_get_agrees_among(nodes, id, i + 1);
        }
    }
}

/// What is written through a node found for change is what a later look
/// at the same place reads.
pub proof fn lemma_write_then_read<S, C>(before: Node<S, C>, after: Node<S, C>, path: Seq<usize>, written: Node<S, C>)
    requires
        replaced_at(before, after, path, written),
    ensures
        node_at(after, path) == Some(written),
    decreases path.len(),
{
    if path.len() > 0 {
        if let (Node::Prim(a), Node::Prim(b)) = (before, after) {
            lemma_write_then_read(a.children@[path[0] as int], b.children@[path[0] as int], path.drop_first(), written);
        }
    }
}

/// A node, a primitive or a component found by id carries exactly the
/// sought id: not one whose id merely begins with it, and not one without
/// an id.
pub proof fn lemma_found_by_id_carries_exactly_that_id<S, C>(node: Node<S, C>, id: Seq<char>)
    ensures
        node_with_id(node, id) matches Some(n) ==> node_id(n) matches Some(s) && s@ == id,
        prim_with_id(node, id) matches Some(p) ==> p.id matches Some(s) && s@ == id,
        comp_with_id(node, id) matches Some(c) ==> c.id matches Some(s) && s@ == id,
{
    lemma_node_search_sound(node, id);
    lemma_prim_search_sound(node, id);
    lemma_comp_search_sound(node, id);
}

} // verus!
