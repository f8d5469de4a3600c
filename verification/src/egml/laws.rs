use vstd::prelude::*;

use super::change_view::{strength, stronger, ChangeView};
use super::component::combined;
use super::node::{
    comp_at, comp_path_among, comp_path_with_id, comp_with_id, comp_with_id_among, id_is, prim_at,
    prim_path_among, prim_path_with_id, prim_with_id, prim_with_id_among, replaced_at, LookupError,
    Node, prim_by_finger, comp_by_finger, Finger,
};

verus! {

/// Raising a request is a join: `NoChange` changes nothing, `Rebuild` wins
/// over everything, raising twice by the same request is raising once, and
/// a batch of requests ends in the same request whatever their order.
pub proof fn lemma_up_is_join(a: ChangeView, b: ChangeView, c: ChangeView)
    ensures
        stronger(a, ChangeView::NoChange) == a,
        stronger(ChangeView::NoChange, a) == a,
        stronger(a, ChangeView::Rebuild) == ChangeView::Rebuild,
        stronger(a, a) == a,
        stronger(a, b) == stronger(b, a),
        stronger(stronger(a, b), c) == stronger(a, stronger(b, c)),
        strength(stronger(a, b)) >= strength(a),
        strength(stronger(a, b)) >= strength(b),
{
}

/// A child path leads to one kind of node only: where it reaches a
/// primitive, asking for a component there fails with `TargetIsPrim`;
/// where it reaches a component, asking for a primitive fails with
/// `TargetIsComp`; where it reaches neither, both lookups fail alike.
pub proof fn lemma_path_selects_one_kind<S, C>(node: Node<S, C>, loc: Seq<usize>)
    ensures
        prim_at(node, loc) is Ok ==> comp_at(node, loc) == Err::<super::node::Comp<C>, LookupError>(
            LookupError::TargetIsPrim,
        ),
        comp_at(node, loc) is Ok ==> prim_at(node, loc) == Err::<super::node::Prim<S, C>, LookupError>(
            LookupError::TargetIsComp,
        ),
        prim_at(node, loc) is Err && comp_at(node, loc) is Err && !(prim_at(node, loc)
            == Err::<super::node::Prim<S, C>, LookupError>(LookupError::TargetIsComp)) ==> prim_at(
            node,
            loc,
        )->Err_0 == comp_at(node, loc)->Err_0,
    decreases loc.len(),
{
    if loc.len() > 0 {
        if let Node::Prim(p) = node {
            if loc[0] < p.childs@.len() {
                lemma_path_selects_one_kind(p.childs@[loc[0] as int], loc.drop_first());
            }
        }
    }
}

/// Following a path in two steps is following it at once: from the
/// primitive that `first` reaches, `rest` leads where `first + rest` leads.
pub proof fn lemma_path_composes<S, C>(node: Node<S, C>, first: Seq<usize>, rest: Seq<usize>)
    requires
        prim_at(node, first) is Ok,
    ensures
        prim_at(node, first + rest) == prim_at(Node::Prim(prim_at(node, first)->Ok_0), rest),
        comp_at(node, first + rest) == comp_at(Node::<S, C>::Prim(prim_at(node, first)->Ok_0), rest),
    decreases first.len(),
{
    if first.len() == 0 {
        assert(first + rest == rest);
    } else {
        if let Node::Prim(p) = node {
            assert((first + rest).drop_first() == first.drop_first() + rest);
            lemma_path_composes(p.childs@[first[0] as int], first.drop_first(), rest);
        }
    }
}

/// A search among `nodes[i..]` that finds nothing finds nothing in any of them.
proof fn lemma_prim_among_none<S, C>(nodes: Seq<Node<S, C>>, id: Seq<char>, i: int, j: int)
    requires
        prim_with_id_among(nodes, id, i) is None,
        0 <= i <= j < nodes.len(),
    ensures
        prim_with_id(nodes[j], id) is None,
    decreases j - i,
{
    if i < j {
        lemma_prim_among_none(nodes, id, i + 1, j);
    }
}

/// Searching primitives by id misses nothing: when the search finds no
/// primitive, no primitive reachable through primitives carries that id.
pub proof fn lemma_prim_search_complete<S, C>(node: Node<S, C>, id: Seq<char>, path: Seq<usize>)
    requires
        prim_with_id(node, id) is None,
        prim_at(node, path) is Ok,
    ensures
        !id_is(prim_at(node, path)->Ok_0.id, id),
    decreases path.len(),
{
    if path.len() > 0 {
        if let Node::Prim(p) = node {
            lemma_prim_among_none(p.childs@, id, 0, path[0] as int);
            lemma_prim_search_complete(p.childs@[path[0] as int], id, path.drop_first());
        }
    }
}

/// Searching primitives by id finds only what it was asked for: the
/// primitive found carries the id and sits where the found path leads.
pub proof fn lemma_prim_search_sound<S, C>(node: Node<S, C>, id: Seq<char>)
    ensures
        prim_with_id(node, id) is Some <==> prim_path_with_id(node, id) is Some,
        prim_with_id(node, id) is Some ==> id_is(prim_with_id(node, id)->0.id, id) && prim_at(
            node,
            prim_path_with_id(node, id)->0,
        ) == Ok::<super::node::Prim<S, C>, LookupError>(prim_with_id(node, id)->0),
    decreases node, 1nat, 0int,
{
    if let Node::Prim(p) = node {
        if !id_is(p.id, id) {
            assert(p.childs@.len() == p.childs.len());
            lemma_prim_search_sound_among(p.childs@, id, 0);
        }
    }
}

proof fn lemma_prim_search_sound_among<S, C>(nodes: Seq<Node<S, C>>, id: Seq<char>, i: int)
    requires
        nodes.len() <= usize::MAX,
    ensures
        prim_with_id_among(nodes, id, i) is Some <==> prim_path_among(nodes, id, i) is Some,
        prim_with_id_among(nodes, id, i) is Some ==> {
            let path = prim_path_among(nodes, id, i)->0;
            &&& id_is(prim_with_id_among(nodes, id, i)->0.id, id)
            &&& path.len() > 0
            &&& path[0] < nodes.len()
            &&& prim_at(nodes[path[0] as int], path.drop_first()) == Ok::<
                super::node::Prim<S, C>,
                LookupError,
            >(prim_with_id_among(nodes, id, i)->0)
        },
    decreases nodes, 0nat, nodes.len() - i,
{
    if 0 <= i < nodes.len() {
        lemma_prim_search_sound(nodes[i], id);
        if prim_with_id(nodes[i], id) is None {
            lemma_prim_search_sound_among(nodes, id, i + 1);
        } else {
            let sub = prim_path_with_id(nodes[i], id)->0;
            assert((seq![i as usize] + sub).drop_first() == sub);
            assert((seq![i as usize] + sub)[0] == i as usize);
        }
    }
}

/// A search among `nodes[i..]` for components that finds nothing finds
/// nothing in any of them.
proof fn lemma_comp_among_none<S, C>(nodes: Seq<Node<S, C>>, id: Seq<char>, i: int, j: int)
    requires
        comp_with_id_among(nodes, id, i) is None,
        0 <= i <= j < nodes.len(),
    ensures
        comp_with_id(nodes[j], id) is None,
    decreases j - i,
{
    if i < j {
        lemma_comp_among_none(nodes, id, i + 1, j);
    }
}

/// Searching components by id misses nothing: when the search finds no
/// component, no component reachable through primitives carries that id.
pub proof fn lemma_comp_search_complete<S, C>(node: Node<S, C>, id: Seq<char>, path: Seq<usize>)
    requires
        comp_with_id(node, id) is None,
        comp_at(node, path) is Ok,
    ensures
        !id_is(comp_at(node, path)->Ok_0.id, id),
    decreases path.len(),
{
    if path.len() > 0 {
        if let Node::Prim(p) = node {
            lemma_comp_among_none(p.childs@, id, 0, path[0] as int);
            lemma_comp_search_complete(p.childs@[path[0] as int], id, path.drop_first());
        }
    }
}

/// Searching components by id finds only what it was asked for: the
/// component found carries the id and sits where the found path leads.
pub proof fn lemma_comp_search_sound<S, C>(node: Node<S, C>, id: Seq<char>)
    ensures
        comp_with_id(node, id) is Some <==> comp_path_with_id(node, id) is Some,
        comp_with_id(node, id) is Some ==> id_is(comp_with_id(node, id)->0.id, id) && comp_at(
            node,
            comp_path_with_id(node, id)->0,
        ) == Ok::<super::node::Comp<C>, LookupError>(comp_with_id(node, id)->0),
    decreases node, 1nat, 0int,
{
    if let Node::Prim(p) = node {
        assert(p.childs@.len() == p.childs.len());
        lemma_comp_search_sound_among(p.childs@, id, 0);
    }
}

proof fn lemma_comp_search_sound_among<S, C>(nodes: Seq<Node<S, C>>, id: Seq<char>, i: int)
    requires
        nodes.len() <= usize::MAX,
    ensures
        comp_with_id_among(nodes, id, i) is Some <==> comp_path_among(nodes, id, i) is Some,
        comp_with_id_among(nodes, id, i) is Some ==> {
            let path = comp_path_among(nodes, id, i)->0;
            &&& id_is(comp_with_id_among(nodes, id, i)->0.id, id)
            &&& path.len() > 0
            &&& path[0] < nodes.len()
            &&& comp_at(nodes[path[0] as int], path.drop_first()) == Ok::<super::node::Comp<C>, LookupError>(
                comp_with_id_among(nodes, id, i)->0,
            )
        },
    decreases nodes, 0nat, nodes.len() - i,
{
    if 0 <= i < nodes.len() {
        lemma_comp_search_sound(nodes[i], id);
        if comp_with_id(nodes[i], id) is None {
            lemma_comp_search_sound_among(nodes, id, i + 1);
        } else {
            let sub = comp_path_with_id(nodes[i], id)->0;
            assert((seq![i as usize] + sub).drop_first() == sub);
            assert((seq![i as usize] + sub)[0] == i as usize);
        }
    }
}

/// What is written through a looked-up primitive is what a later lookup
/// at the same place reads.
pub proof fn lemma_write_then_read_prim<S, C>(
    before: Node<S, C>,
    after: Node<S, C>,
    loc: Seq<usize>,
    written: super::node::Prim<S, C>,
)
    requires
        replaced_at(before, after, loc, Node::Prim(written)),
    ensures
        prim_at(after, loc) == Ok::<super::node::Prim<S, C>, LookupError>(written),
    decreases loc.len(),
{
    if loc.len() > 0 {
        if let (Node::Prim(a), Node::Prim(b)) = (before, after) {
            lemma_write_then_read_prim(
                a.childs@[loc[0] as int],
                b.childs@[loc[0] as int],
                loc.drop_first(),
                written,
            );
        }
    }
}

/// What is written through a looked-up component is what a later lookup
/// at the same place reads.
pub proof fn lemma_write_then_read_comp<S, C>(
    before: Node<S, C>,
    after: Node<S, C>,
    loc: Seq<usize>,
    written: super::node::Comp<C>,
)
    requires
        replaced_at(before, after, loc, Node::Comp(written)),
    ensures
        comp_at(after, loc) == Ok::<super::node::Comp<C>, LookupError>(written),
    decreases loc.len(),
{
    if loc.len() > 0 {
        if let (Node::Prim(a), Node::Prim(b)) = (before, after) {
            lemma_write_then_read_comp(
                a.childs@[loc[0] as int],
                b.childs@[loc[0] as int],
                loc.drop_first(),
                written,
            );
        }
    }
}

/// A batch of answers adds up to the strongest of them (or to `NoChange`
/// when there are none), so the order of the messages does not matter.
pub proof fn lemma_combined_is_strongest(changes: Seq<ChangeView>)
    ensures
        forall|i: int| 0 <= i < changes.len() ==> strength(combined(changes)) >= strength(#[trigger] changes[i]),
        combined(changes) == ChangeView::NoChange || exists|i: int|
            0 <= i < changes.len() && changes[i] == combined(changes),
    decreases changes.len(),
{
    if changes.len() > 0 {
        let init = changes.drop_last();
        lemma_combined_is_strongest(init);
        assert forall|i: int| 0 <= i < changes.len() implies strength(combined(changes)) >= strength(
            #[trigger] changes[i],
        ) by {
            if i < changes.len() - 1 {
                assert(init[i] == changes[i]);
            }
        }
        if combined(changes) != ChangeView::NoChange {
            if combined(changes) == changes.last() {
                assert(changes[changes.len() - 1] == combined(changes));
            } else {
                let j = choose|j: int| 0 <= j < init.len() && init[j] == combined(init);
                assert(changes[j] == combined(changes));
            }
        }
    }
}

/// Two batches whose answers are the same up to order add up to the same
/// request.
pub proof fn lemma_combined_order_free(a: Seq<ChangeView>, b: Seq<ChangeView>)
    requires
        a.to_multiset() == b.to_multiset(),
    ensures
        combined(a) == combined(b),
{
    lemma_combined_is_strongest(a);
    lemma_combined_is_strongest(b);
    a.to_multiset_ensures();
    b.to_multiset_ensures();
    if combined(a) != ChangeView::NoChange {
        let i = choose|i: int| 0 <= i < a.len() && a[i] == combined(a);
        assert(a.contains(a[i]));
        assert(b.to_multiset().count(a[i]) > 0);
        let j = choose|j: int| 0 <= j < b.len() && b[j] == a[i];
        assert(strength(combined(b)) >= strength(a[i]));
    }
    if combined(b) != ChangeView::NoChange {
        let i = choose|i: int| 0 <= i < b.len() && b[i] == combined(b);
        assert(b.contains(b[i]));
        assert(a.to_multiset().count(b[i]) > 0);
        let j = choose|j: int| 0 <= j < a.len() && a[j] == b[i];
        assert(strength(combined(a)) >= strength(b[i]));
    }
}

/// A finger by id selects only a primitive or a component whose id is
/// exactly the sought id: not one whose id merely begins with it, and not
/// one without an id.
pub proof fn lemma_found_by_id_carries_exactly_that_id<S, C>(node: Node<S, C>, id: &str)
    ensures
        prim_by_finger(node, Finger::Id(id)) matches Ok(p) ==> p.id matches Some(s) && s@ == id@,
        comp_by_finger(node, Finger::Id(id)) matches Ok(c) ==> c.id matches Some(s) && s@ == id@,
        prim_with_id(node, id@) matches Some(p) ==> p.id matches Some(s) && s@ == id@,
        comp_with_id(node, id@) matches Some(c) ==> c.id matches Some(s) && s@ == id@,
{
    lemma_prim_search_sound(node, id@);
    lemma_comp_search_sound(node, id@);
}

} // verus!
