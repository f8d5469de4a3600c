use vstd::prelude::*;

use super::node::{comp_at, comp_path_with_id, Finger, GetError, LookupError, Node, Prim};

verus! {

/// Where a batch of messages sent into a component's view goes next.
pub enum Route<'a> {
    /// To the component whose view it is.
    Here,
    /// Into the nested component at the child path `path` of the view. With
    /// `rest` the nested component sends the batch on along those child
    /// indices of its own view; without, the batch is for it.
    Into { path: Vec<usize>, rest: Option<&'a [usize]> },
}

/// A route as values.
pub enum RouteTo {
    Here,
    Into { path: Seq<usize>, rest: Option<Seq<usize>> },
}

impl<'a> View for Route<'a> {
    type V = RouteTo;

    open spec fn view(&self) -> RouteTo {
        match *self {
            Route::Here => RouteTo::Here,
            Route::Into { path, rest } => RouteTo::Into {
                path: path@,
                rest: match rest {
                    Some(tail) => Some(tail@),
                    None => None,
                },
            },
        }
    }
}

/// Where the non-empty child indices `loc` lead a batch from the primitive
/// `prim`: through primitives to the first component on the way, which gets
/// the rest of the indices.
pub open spec fn route_through<S, C>(prim: Prim<S, C>, loc: Seq<usize>) -> Result<RouteTo, LookupError>
    decreases loc.len(),
{
    if loc.len() == 0 {
        Err(LookupError::NotFound)
    } else if loc[0] >= prim.childs@.len() {
        Err(LookupError::IdxOutOfBounds { idx: loc[0], len: prim.childs@.len() as usize, tail: loc })
    } else {
        match prim.childs@[loc[0] as int] {
            Node::Prim(child) => if loc.len() > 1 {
                match route_through(child, loc.drop_first()) {
                    Ok(RouteTo::Into { path, rest }) => Ok(RouteTo::Into { path: seq![loc[0]] + path, rest }),
                    other => other,
                }
            } else {
                Err(LookupError::LinkToPrimInsteadOfComp { tail: loc.drop_first() })
            },
            Node::Comp(_) => Ok(RouteTo::Into { path: seq![loc[0]], rest: Some(loc.drop_first()) }),
        }
    }
}

/// Where `finger` leads a batch sent into the view `view`: the root, or an
/// empty path, is the component itself; child indices go through
/// primitives into the first nested component on the way (a view that is
/// itself a component is reached by the index 0); an id goes to the first
/// component with that id, in pre-order through primitives.
pub open spec fn route_of<S, C>(view: Node<S, C>, finger: Finger) -> Result<RouteTo, LookupError> {
    match finger {
        Finger::Root => Ok(RouteTo::Here),
        Finger::Location(loc) => if loc@.len() == 0 {
            Ok(RouteTo::Here)
        } else {
            match view {
                Node::Prim(prim) => route_through(prim, loc@),
                Node::Comp(_) => if loc@[0] == 0 {
                    Ok(RouteTo::Into { path: Seq::empty(), rest: Some(loc@.drop_first()) })
                } else {
                    Err(LookupError::TopCompMustHaveZeroIdx { idx: loc@[0], tail: loc@ })
                },
            }
        },
        Finger::Id(id) => match comp_path_with_id(view, id@) {
            Some(path) => Ok(RouteTo::Into { path, rest: None }),
            None => Err(LookupError::NotFound),
        },
    }
}

/// `r` is the route, or the failure, that `want` describes.
pub open spec fn routed(r: Result<Route, GetError>, want: Result<RouteTo, LookupError>) -> bool {
    match r {
        Ok(route) => want == Ok::<RouteTo, LookupError>(route@),
        Err(e) => want == Err::<RouteTo, LookupError>(e@),
    }
}

fn route_through_prim<'a, S, C>(prim: &Prim<S, C>, loc: &'a [usize]) -> (r: Result<Route<'a>, GetError<'a>>)
    requires
        loc@.len() > 0,
    ensures
        routed(r, route_through(*prim, loc@)),
    decreases loc@.len(),
{
    let idx = loc[0];
    let len = prim.childs.len();
    if idx >= len {
        return Err(GetError::IdxOutOfBounds { idx, len, tail: loc });
    }
    let tail = &loc[1..loc.len()];
    assert(tail@ == loc@.drop_first());
    match &prim.childs[idx] {
        Node::Prim(child) => if tail.len() > 0 {
            match route_through_prim(child, tail) {
                Ok(Route::Into { path, rest }) => {
                    let ghost inner = path@;
                    let mut path = path;
                    path.insert(0, idx);
                    assert(path@ == seq![idx] + inner);
                    Ok(Route::Into { path, rest })
                },
                other => other,
            }
        } else {
            Err(GetError::LinkToPrimInsteadOfComp { tail })
        },
        Node::Comp(_) => {
            let path = vec![idx];
            assert(path@ == seq![idx]);
            Ok(Route::Into { path, rest: Some(tail) })
        },
    }
}

/// Decides where a batch of messages sent into the view `view` along
/// `finger` goes next: to the component itself, into a nested component,
/// or nowhere, with the reason.
pub fn route_batch<'a, S, C>(view: &Node<S, C>, finger: Finger<'a>) -> (r: Result<Route<'a>, GetError<'a>>)
    ensures
        routed(r, route_of(*view, finger)),
{
    match finger {
        Finger::Root => Ok(Route::Here),
        Finger::Location(loc) => if loc.len() == 0 {
            Ok(Route::Here)
        } else {
            match view {
                Node::Prim(prim) => route_through_prim(prim, loc),
                Node::Comp(_) => if loc[0] == 0 {
                    let tail = &loc[1..loc.len()];
                    assert(tail@ == loc@.drop_first());
                    Ok(Route::Into { path: Vec::new(), rest: Some(tail) })
                } else {
                    Err(GetError::TopCompMustHaveZeroIdx { idx: loc[0], tail: loc })
                },
            }
        },
        Finger::Id(id) => match view.comp_path_by_id(id) {
            Some(path) => Ok(Route::Into { path, rest: None }),
            None => Err(GetError::NotFound),
        },
    }
}

/// A route into a nested component leads to a component: following its
/// path through the view reaches one.
pub proof fn lemma_route_reaches_comp<S, C>(view: Node<S, C>, finger: Finger)
    ensures
        route_of(view, finger) matches Ok(RouteTo::Into { path, .. }) ==> comp_at(view, path) is Ok,
{
    match finger {
        Finger::Location(loc) => {
            if loc@.len() > 0 {
                if let Node::Prim(prim) = view {
                    lemma_route_through_reaches_comp(prim, loc@);
                }
            }
        },
        Finger::Id(id) => {
            super::laws::lemma_comp_search_sound(view, id@);
        },
        Finger::Root => {},
    }
}

proof fn lemma_route_through_reaches_comp<S, C>(prim: Prim<S, C>, loc: Seq<usize>)
    ensures
        route_through(prim, loc) matches Ok(RouteTo::Into { path, .. }) ==> comp_at(Node::Prim(prim), path) is Ok,
    decreases loc.len(),
{
    if loc.len() > 0 && loc[0] < prim.childs@.len() {
        match prim.childs@[loc[0] as int] {
            Node::Prim(child) => {
                if loc.len() > 1 {
                    lemma_route_through_reaches_comp(child, loc.drop_first());
                    if let Ok(RouteTo::Into { path, .. }) = route_through(child, loc.drop_first()) {
                        assert((seq![loc[0]] + path).drop_first() == path);
                        assert((seq![loc[0]] + path)[0] == loc[0]);
                        assert(comp_at(Node::Prim(child), path) is Ok);
                    }
                }
            },
            Node::Comp(c) => {
                assert(seq![loc[0]].drop_first() == Seq::<usize>::empty());
                assert(comp_at(prim.childs@[loc[0] as int], Seq::<usize>::empty()) is Ok);
            },
        }
    }
}

/// A batch sent by id goes into a component whose id is exactly the
/// sought id.
pub proof fn lemma_route_by_id_carries_exactly_that_id<S, C>(view: Node<S, C>, id: &str)
    ensures
        route_of(view, Finger::Id(id)) matches Ok(RouteTo::Into { path, .. }) ==> comp_at(view, path) matches Ok(c)
            && c.id matches Some(s) && s@ == id@,
{
    super::laws::lemma_comp_search_sound(view, id@);
}

} // verus!
