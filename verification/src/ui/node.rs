use vstd::prelude::*;

use crate::strings::str_eq;

verus! {

/// A primitive element: a named shape with child nodes.
///
/// `S` is what the element draws and whom it notifies; the tree logic
/// never looks inside it.
pub struct Prim<S, C> {
    pub name: String,
    pub id: Option<String>,
    pub shape: S,
    pub children: Vec<Node<S, C>>,
}

/// A nested component, found in the tree by its optional id.
pub struct Comp<C> {
    pub id: Option<String>,
    pub inner: C,
}

/// A node of a view: a primitive element or a nested component.
pub enum Node<S, C> {
    Prim(Prim<S, C>),
    Comp(Comp<C>),
}

/// `id` holds exactly the characters `want`.
pub open spec fn id_is(id: Option<String>, want: Seq<char>) -> bool {
    id matches Some(s) && s@ == want
}

/// The characters of an optional id.
pub open spec fn id_chars(id: Option<String>) -> Option<Seq<char>> {
    match id {
        Some(s) => Some(s@),
        None => None,
    }
}

/// The id of a node: its shape's id, or its component's.
pub open spec fn node_id<S, C>(node: Node<S, C>) -> Option<String> {
    match node {
        Node::Prim(p) => p.id,
        Node::Comp(c) => c.id,
    }
}

/// The node that the child indices `path` lead to from `node`, through
/// primitives.
pub open spec fn node_at<S, C>(node: Node<S, C>, path: Seq<usize>) -> Option<Node<S, C>>
    decreases path.len(),
{
    if path.len() == 0 {
        Some(node)
    } else {
        match node {
            Node::Prim(p) => if path[0] < p.children@.len() {
                node_at(p.children@[path[0] as int], path.drop_first())
            } else {
                None
            },
            Node::Comp(_) => None,
        }
    }
}

/// The first node, in pre-order through primitives, whose id is `id`.
pub open spec fn node_with_id<S, C>(node: Node<S, C>, id: Seq<char>) -> Option<Node<S, C>>
    decreases node, 1nat, 0int,
{
    match node {
        Node::Prim(p) => if id_is(p.id, id) {
            Some(node)
        } else {
            node_with_id_among(p.children@, id, 0)
        },
        Node::Comp(c) => if id_is(c.id, id) {
            Some(node)
        } else {
            None
        },
    }
}

/// The first match of `node_with_id` among `nodes[i..]`.
pub open spec fn node_with_id_among<S, C>(nodes: Seq<Node<S, C>>, id: Seq<char>, i: int) -> Option<Node<S, C>>
    decreases nodes, 0nat, nodes.len() - i,
{
    if 0 <= i < nodes.len() {
        match node_with_id(nodes[i], id) {
            Some(n) => Some(n),
            None => node_with_id_among(nodes, id, i + 1),
        }
    } else {
        None
    }
}

/// The child path to `node_with_id(node, id)`.
pub open spec fn node_path_with_id<S, C>(node: Node<S, C>, id: Seq<char>) -> Option<Seq<usize>>
    decreases node, 1nat, 0int,
{
    match node {
        Node::Prim(p) => if id_is(p.id, id) {
            Some(Seq::<usize>::empty())
        } else {
            node_path_among(p.children@, id, 0)
        },
        Node::Comp(c) => if id_is(c.id, id) {
            Some(Seq::<usize>::empty())
        } else {
            None
        },
    }
}

/// The child path, from the parent of `nodes`, to `node_with_id_among(nodes, id, i)`.
pub open spec fn node_path_among<S, C>(nodes: Seq<Node<S, C>>, id: Seq<char>, i: int) -> Option<Seq<usize>>
    decreases nodes, 0nat, nodes.len() - i,
{
    if 0 <= i < nodes.len() {
        match node_path_with_id(nodes[i], id) {
            Some(path) => Some(seq![i as usize] + path),
            None => node_path_among(nodes, id, i + 1),
        }
    } else {
        None
    }
}

/// The first primitive, in pre-order through primitives, whose id is `id`.
pub open spec fn prim_with_id<S, C>(node: Node<S, C>, id: Seq<char>) -> Option<Prim<S, C>>
    decreases node, 1nat, 0int,
{
    match node {
        Node::Prim(p) => if id_is(p.id, id) {
            Some(p)
        } else {
            prim_with_id_among(p.children@, id, 0)
        },
        Node::Comp(_) => None,
    }
}

/// The first match of `prim_with_id` among `nodes[i..]`.
pub open spec fn prim_with_id_among<S, C>(nodes: Seq<Node<S, C>>, id: Seq<char>, i: int) -> Option<Prim<S, C>>
    decreases nodes, 0nat, nodes.len() - i,
{
    if 0 <= i < nodes.len() {
        match prim_with_id(nodes[i], id) {
            Some(p) => Some(p),
            None => prim_with_id_among(nodes, id, i + 1),
        }
    } else {
        None
    }
}

/// The child path to `prim_with_id(node, id)`.
pub open spec fn prim_path_with_id<S, C>(node: Node<S, C>, id: Seq<char>) -> Option<Seq<usize>>
    decreases node, 1nat, 0int,
{
    match node {
        Node::Prim(p) => if id_is(p.id, id) {
            Some(Seq::<usize>::empty())
        } else {
            prim_path_among(p.children@, id, 0)
        },
        Node::Comp(_) => None,
    }
}

/// The child path, from the parent of `nodes`, to `prim_with_id_among(nodes, id, i)`.
pub open spec fn prim_path_among<S, C>(nodes: Seq<Node<S, C>>, id: Seq<char>, i: int) -> Option<Seq<usize>>
    decreases nodes, 0nat, nodes.len() - i,
{
    if 0 <= i < nodes.len() {
        match prim_path_with_id(nodes[i], id) {
            Some(path) => Some(seq![i as usize] + path),
            None => prim_path_among(nodes, id, i + 1),
        }
    } else {
        None
    }
}

/// The first component, in pre-order through primitives, whose id is `id`.
pub open spec fn comp_with_id<S, C>(node: Node<S, C>, id: Seq<char>) -> Option<Comp<C>>
    decreases node, 1nat, 0int,
{
    match node {
        Node::Prim(p) => comp_with_id_among(p.children@, id, 0),
        Node::Comp(c) => if id_is(c.id, id) {
            Some(c)
        } else {
            None
        },
    }
}

/// The first match of `comp_with_id` among `nodes[i..]`.
pub open spec fn comp_with_id_among<S, C>(nodes: Seq<Node<S, C>>, id: Seq<char>, i: int) -> Option<Comp<C>>
    decreases nodes, 0nat, nodes.len() - i,
{
    if 0 <= i < nodes.len() {
        match comp_with_id(nodes[i], id) {
            Some(c) => Some(c),
            None => comp_with_id_among(nodes, id, i + 1),
        }
    } else {
        None
    }
}

/// The child path to `comp_with_id(node, id)`.
pub open spec fn comp_path_with_id<S, C>(node: Node<S, C>, id: Seq<char>) -> Option<Seq<usize>>
    decreases node, 1nat, 0int,
{
    match node {
        Node::Prim(p) => comp_path_among(p.children@, id, 0),
        Node::Comp(c) => if id_is(c.id, id) {
            Some(Seq::<usize>::empty())
        } else {
            None
        },
    }
}

/// The child path, from the parent of `nodes`, to `comp_with_id_among(nodes, id, i)`.
pub open spec fn comp_path_among<S, C>(nodes: Seq<Node<S, C>>, id: Seq<char>, i: int) -> Option<Seq<usize>>
    decreases nodes, 0nat, nodes.len() - i,
{
    if 0 <= i < nodes.len() {
        match comp_path_with_id(nodes[i], id) {
            Some(path) => Some(seq![i as usize] + path),
            None => comp_path_among(nodes, id, i + 1),
        }
    } else {
        None
    }
}

/// `after` is `before` with the node at child path `path` replaced by
/// `target`, and nothing else changed.
pub open spec fn replaced_at<S, C>(before: Node<S, C>, after: Node<S, C>, path: Seq<usize>, target: Node<S, C>) -> bool
    decreases path.len(),
{
    if path.len() == 0 {
        after == target
    } else {
        match (before, after) {
            (Node::Prim(a), Node::Prim(b)) => {
                &&& b.name == a.name
                &&& b.id == a.id
                &&& b.shape == a.shape
                &&& path[0] < a.children@.len()
                &&& b.children@.len() == a.children@.len()
                &&& forall|j: int|
                    0 <= j < a.children@.len() && j != path[0] ==> #[trigger] b.children@[j] == a.children@[j]
                &&& replaced_at(a.children@[path[0] as int], b.children@[path[0] as int], path.drop_first(), target)
            },
            _ => false,
        }
    }
}

impl<S, C> Prim<S, C> {
    pub fn new(name: &str, shape: S, children: Vec<Node<S, C>>) -> (prim: Self)
        ensures
            prim.name@ == name@,
            prim.id is None,
            prim.shape == shape,
            prim.children == children,
    {
        Prim { name: name.to_owned(), id: None, shape, children }
    }

    /// Returns the id of the element's shape, if it has one.
    pub fn id(&self) -> (r: Option<&str>)
        ensures
            match r {
                Some(s) => id_chars(self.id) == Some(s@),
                None => self.id is None,
            },
    {
        match &self.id {
            Some(id) => Some(id.as_str()),
            None => None,
        }
    }
}

impl<C> Comp<C> {
    pub fn new(inner: C) -> (comp: Self)
        ensures
            comp.id is None,
            comp.inner == inner,
    {
        Comp { id: None, inner }
    }

    /// Returns the id of the component, if it has one.
    pub fn id(&self) -> (r: Option<&str>)
        ensures
            match r {
                Some(s) => id_chars(self.id) == Some(s@),
                None => self.id is None,
            },
    {
        match &self.id {
            Some(id) => Some(id.as_str()),
            None => None,
        }
    }

    pub fn set_id(&mut self, id: String)
        ensures
            final(self).id == Some(id),
            final(self).inner == old(self).inner,
    {
        self.id = Some(id);
    }
}

impl<S, C> Node<S, C> {
    pub fn get_id(&self) -> (r: Option<&str>)
        ensures
            match r {
                Some(s) => id_chars(node_id(*self)) == Some(s@),
                None => node_id(*self) is None,
            },
    {
        match self {
            Node::Prim(prim) => prim.id(),
            Node::Comp(comp) => comp.id(),
        }
    }

    pub fn set_id(&mut self, id: String)
        ensures
            node_id(*final(self)) == Some(id),
            match (*old(self), *final(self)) {
                (Node::Prim(a), Node::Prim(b)) => b.name == a.name && b.shape == a.shape && b.children == a.children,
                (Node::Comp(a), Node::Comp(b)) => b.inner == a.inner,
                _ => false,
            },
    {
        match self {
            Node::Prim(prim) => prim.id = Some(id),
            Node::Comp(comp) => comp.set_id(id),
        }
    }

    pub fn as_prim(&self) -> (r: Option<&Prim<S, C>>)
        ensures
            match *self {
                Node::Prim(p) => r == Some(&p),
                Node::Comp(_) => r is None,
            },
    {
        match self {
            Node::Prim(prim) => Some(prim),
            _ => None,
        }
    }

    pub fn as_prim_mut(&mut self) -> (r: Option<&mut Prim<S, C>>)
        ensures
            match *old(self) {
                Node::Prim(p) => r matches Some(x) && *x == p && *final(self) == Node::<S, C>::Prim(*final(x)),
                Node::Comp(_) => r is None && *final(self) == *old(self),
            },
    {
        match self {
            Node::Prim(prim) => Some(prim),
            _ => None,
        }
    }

    pub fn into_prim(self) -> (r: Option<Prim<S, C>>)
        ensures
            match self {
                Node::Prim(p) => r == Some(p),
                Node::Comp(_) => r is None,
            },
    {
        match self {
            Node::Prim(prim) => Some(prim),
            _ => None,
        }
    }

    pub fn as_comp(&self) -> (r: Option<&Comp<C>>)
        ensures
            match *self {
                Node::Comp(c) => r == Some(&c),
                Node::Prim(_) => r is None,
            },
    {
        match self {
            Node::Comp(comp) => Some(comp),
            _ => None,
        }
    }

    pub fn as_comp_mut(&mut self) -> (r: Option<&mut Comp<C>>)
        ensures
            match *old(self) {
                Node::Comp(c) => r matches Some(x) && *x == c && *final(self) == Node::<S, C>::Comp(*final(x)),
                Node::Prim(_) => r is None && *final(self) == *old(self),
            },
    {
        match self {
            Node::Comp(comp) => Some(comp),
            _ => None,
        }
    }

    pub fn into_comp(self) -> (r: Option<Comp<C>>)
        ensures
            match self {
                Node::Comp(c) => r == Some(c),
                Node::Prim(_) => r is None,
            },
    {
        match self {
            Node::Comp(comp) => Some(comp),
            _ => None,
        }
    }
}

impl<S, C> Node<S, C> {
    /// Follows the child indices `path`, which lead to a node, to that node,
    /// for change.
    fn node_at_path_mut(&mut self, path: &[usize]) -> (r: &mut Node<S, C>)
        requires
            node_at(*old(self), path@) is Some,
        ensures
            node_at(*old(self), path@) == Some(*r),
            replaced_at(*old(self), *final(self), path@, *final(r)),
        decreases path@.len(),
    {
        if path.len() == 0 {
            self
        } else {
            match self {
                Node::Prim(prim) => {
                    let tail = &path[1..path.len()];
                    assert(tail@ == path@.drop_first());
                    prim.children[path[0]].node_at_path_mut(tail)
                },
                Node::Comp(_) => vstd::pervasive::unreached(),
            }
        }
    }

    /// The first node, in pre-order through primitives, whose id is `id`.
    #[verifier::loop_isolation(false)]
    fn node_by_id(&self, id: &str) -> (res: Option<&Node<S, C>>)
        ensures
            match res {
                Some(r) => node_with_id(*self, id@) == Some(*r),
                None => node_with_id(*self, id@) is None,
            },
        decreases self,
    {
        match self {
            Node::Prim(prim) => {
                if let Some(prim_id) = &prim.id {
                    if str_eq(id, prim_id.as_str()) {
                        return Some(self);
                    }
                }
                let mut i: usize = 0;
                while i < prim.children.len()
                    invariant
                        i <= prim.children@.len(),
                        node_with_id(*self, id@) == node_with_id_among(prim.children@, id@, i as int),
                    decreases prim.children@.len() - i,
                {
                    let found = prim.children[i].node_by_id(id);
                    if found.is_some() {
                        return found;
                    }
                    i += 1;
                }
                None
            },
            Node::Comp(comp) => {
                if let Some(comp_id) = &comp.id {
                    if str_eq(id, comp_id.as_str()) {
                        return Some(self);
                    }
                }
                None
            },
        }
    }

    /// The child path to the first node, in pre-order through primitives,
    /// whose id is `id`.
    #[verifier::loop_isolation(false)]
    fn node_path_by_id(&self, id: &str) -> (res: Option<Vec<usize>>)
        ensures
            match res {
                Some(path) => {
                    &&& node_path_with_id(*self, id@) == Some(path@)
                    &&& node_with_id(*self, id@) is Some
                    &&& node_at(*self, path@) == node_with_id(*self, id@)
                },
                None => node_path_with_id(*self, id@) is None && node_with_id(*self, id@) is None,
            },
        decreases self,
    {
        match self {
            Node::Prim(prim) => {
                if let Some(prim_id) = &prim.id {
                    if str_eq(id, prim_id.as_str()) {
                        return Some(Vec::new());
                    }
                }
                let mut i: usize = 0;
                while i < prim.children.len()
                    invariant
                        i <= prim.children@.len(),
                        node_with_id(*self, id@) == node_with_id_among(prim.children@, id@, i as int),
                        node_path_with_id(*self, id@) == node_path_among(prim.children@, id@, i as int),
                    decreases prim.children@.len() - i,
                {
                    match prim.children[i].node_path_by_id(id) {
                        Some(mut path) => {
                            let ghost sub = path@;
                            path.insert(0, i);
                            assert(path@.drop_first() == sub);
                            assert(path@ == seq![i] + sub);
                            return Some(path);
                        },
                        None => {},
                    }
                    i += 1;
                }
                None
            },
            Node::Comp(comp) => {
                if let Some(comp_id) = &comp.id {
                    if str_eq(id, comp_id.as_str()) {
                        return Some(Vec::new());
                    }
                }
                None
            },
        }
    }

    /// The first primitive, in pre-order through primitives, whose id is `id`.
    #[verifier::loop_isolation(false)]
    fn prim_by_id(&self, id: &str) -> (res: Option<&Prim<S, C>>)
        ensures
            match res {
                Some(r) => prim_with_id(*self, id@) == Some(*r),
                None => prim_with_id(*self, id@) is None,
            },
        decreases self,
    {
        match self {
            Node::Prim(prim) => {
                if let Some(prim_id) = &prim.id {
                    if str_eq(id, prim_id.as_str()) {
                        return Some(prim);
                    }
                }
                let mut i: usize = 0;
                while i < prim.children.len()
                    invariant
                        i <= prim.children@.len(),
                        prim_with_id(*self, id@) == prim_with_id_among(prim.children@, id@, i as int),
                    decreases prim.children@.len() - i,
                {
                    let found = prim.children[i].prim_by_id(id);
                    if found.is_some() {
                        return found;
                    }
                    i += 1;
                }
                None
            },
            Node::Comp(_) => None,
        }
    }

    /// The child path to the first primitive, in pre-order, whose id is `id`.
    #[verifier::loop_isolation(false)]
    fn prim_path_by_id(&self, id: &str) -> (res: Option<Vec<usize>>)
        ensures
            match res {
                Some(path) => {
                    &&& prim_path_with_id(*self, id@) == Some(path@)
                    &&& prim_with_id(*self, id@) is Some
                    &&& node_at(*self, path@) == Some(Node::Prim(prim_with_id(*self, id@)->0))
                },
                None => prim_path_with_id(*self, id@) is None && prim_with_id(*self, id@) is None,
            },
        decreases self,
    {
        match self {
            Node::Prim(prim) => {
                if let Some(prim_id) = &prim.id {
                    if str_eq(id, prim_id.as_str()) {
                        return Some(Vec::new());
                    }
                }
                let mut i: usize = 0;
                while i < prim.children.len()
                    invariant
                        i <= prim.children@.len(),
                        prim_with_id(*self, id@) == prim_with_id_among(prim.children@, id@, i as int),
                        prim_path_with_id(*self, id@) == prim_path_among(prim.children@, id@, i as int),
                    decreases prim.children@.len() - i,
                {
                    match prim.children[i].prim_path_by_id(id) {
                        Some(mut path) => {
                            let ghost sub = path@;
                            path.insert(0, i);
                            assert(path@.drop_first() == sub);
                            assert(path@ == seq![i] + sub);
                            return Some(path);
                        },
                        None => {},
                    }
                    i += 1;
                }
                None
            },
            Node::Comp(_) => None,
        }
    }

    /// The child path to the first component, in pre-order through
    /// primitives, whose id is `id`.
    #[verifier::loop_isolation(false)]
    fn comp_path_by_id(&self, id: &str) -> (res: Option<Vec<usize>>)
        ensures
            match res {
                Some(path) => {
                    &&& comp_path_with_id(*self, id@) == Some(path@)
                    &&& comp_with_id(*self, id@) is Some
                    &&& node_at(*self, path@) == Some(Node::<S, C>::Comp(comp_with_id(*self, id@)->0))
                },
                None => comp_path_with_id(*self, id@) is None && comp_with_id(*self, id@) is None,
            },
        decreases self,
    {
        match self {
            Node::Prim(prim) => {
                let mut i: usize = 0;
                while i < prim.children.len()
                    invariant
                        i <= prim.children@.len(),
                        comp_with_id(*self, id@) == comp_with_id_among(prim.children@, id@, i as int),
                        comp_path_with_id(*self, id@) == comp_path_among(prim.children@, id@, i as int),
                    decreases prim.children@.len() - i,
                {
                    match prim.children[i].comp_path_by_id(id) {
                        Some(mut path) => {
                            let ghost sub = path@;
                            path.insert(0, i);
                            assert(path@.drop_first() == sub);
                            assert(path@ == seq![i] + sub);
                            return Some(path);
                        },
                        None => {},
                    }
                    i += 1;
                }
                None
            },
            Node::Comp(comp) => {
                if let Some(comp_id) = &comp.id {
                    if str_eq(id, comp_id.as_str()) {
                        return Some(Vec::new());
                    }
                }
                None
            },
        }
    }

    /// Returns the first node, in pre-order through primitives, whose id is
    /// `id`: a primitive whose shape has that id, or a component with it.
    pub fn get(&self, id: &str) -> (res: Option<&Node<S, C>>)
        ensures
            match res {
                Some(r) => node_with_id(*self, id@) == Some(*r),
                None => node_with_id(*self, id@) is None,
            },
    {
        self.node_by_id(id)
    }

    /// Returns the node that `get` returns, for change.
    pub fn get_mut(&mut self, id: &str) -> (res: Option<&mut Node<S, C>>)
        ensures
            match res {
                Some(r) => {
                    &&& node_with_id(*old(self), id@) == Some(*r)
                    &&& replaced_at(*old(self), *final(self), node_path_with_id(*old(self), id@)->0, *final(r))
                },
                None => node_with_id(*old(self), id@) is None && *final(self) == *old(self),
            },
    {
        match self.node_path_by_id(id) {
            Some(path) => Some(self.node_at_path_mut(path.as_slice())),
            None => None,
        }
    }

    /// Returns the first primitive, in pre-order through primitives, whose
    /// shape has the id `id`.
    pub fn get_prim(&self, id: &str) -> (res: Option<&Prim<S, C>>)
        ensures
            match res {
                Some(r) => prim_with_id(*self, id@) == Some(*r),
                None => prim_with_id(*self, id@) is None,
            },
    {
        self.prim_by_id(id)
    }

    /// Returns the primitive that `get_prim` returns, for change.
    pub fn get_prim_mut(&mut self, id: &str) -> (res: Option<&mut Prim<S, C>>)
        ensures
            match res {
                Some(r) => {
                    &&& prim_with_id(*old(self), id@) == Some(*r)
                    &&& replaced_at(*old(self), *final(self), prim_path_with_id(*old(self), id@)->0, Node::Prim(*final(r)))
                },
                None => prim_with_id(*old(self), id@) is None && *final(self) == *old(self),
            },
    {
        match self.prim_path_by_id(id) {
            Some(path) => match self.node_at_path_mut(path.as_slice()) {
                Node::Prim(prim) => Some(prim),
                Node::Comp(_) => vstd::pervasive::unreached(),
            },
            None => None,
        }
    }

    /// Returns the first component, in pre-order through primitives, whose
    /// id is `id`, for change.
    pub fn get_comp_mut(&mut self, id: &str) -> (res: Option<&mut Comp<C>>)
        ensures
            match res {
                Some(r) => {
                    &&& comp_with_id(*old(self), id@) == Some(*r)
                    &&& replaced_at(*old(self), *final(self), comp_path_with_id(*old(self), id@)->0, Node::Comp(*final(r)))
                },
                None => comp_with_id(*old(self), id@) is None && *final(self) == *old(self),
            },
    {
        match self.comp_path_by_id(id) {
            Some(path) => match self.node_at_path_mut(path.as_slice()) {
                Node::Comp(comp) => Some(comp),
                Node::Prim(_) => vstd::pervasive::unreached(),
            },
            None => None,
        }
    }
}

} // verus!
