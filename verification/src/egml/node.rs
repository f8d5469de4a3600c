use vstd::prelude::*;

use crate::strings::str_eq;

verus! {

/// Points at a node of a view: by the id of its shape or component, by the
/// child indices that lead to it from the root, or at the root itself.
#[derive(Copy, Clone, Eq, PartialEq)]
pub enum Finger<'a> {
    Id(&'a str),
    Location(&'a [usize]),
    Root,
}

/// Why a finger does not lead to the requested kind of node.
#[derive(Debug, Copy, Clone)]
pub enum GetError<'a> {
    TargetIsPrim,
    TargetIsComp,
    IdxOutOfBounds { idx: usize, len: usize, tail: &'a [usize] },
    LinkToCompInsteadPrim { tail: &'a [usize] },
    LinkToPrimInsteadOfComp { tail: &'a [usize] },
    TopCompMustHaveZeroIdx { idx: usize, tail: &'a [usize] },
    NotFound,
}

/// A lookup failure with the remaining path as a sequence.
pub enum LookupError {
    TargetIsPrim,
    TargetIsComp,
    IdxOutOfBounds { idx: usize, len: usize, tail: Seq<usize> },
    LinkToCompInsteadPrim { tail: Seq<usize> },
    LinkToPrimInsteadOfComp { tail: Seq<usize> },
    TopCompMustHaveZeroIdx { idx: usize, tail: Seq<usize> },
    NotFound,
}

impl<'a> View for GetError<'a> {
    type V = LookupError;

    open spec fn view(&self) -> LookupError {
        match *self {
            GetError::TargetIsPrim => LookupError::TargetIsPrim,
            GetError::TargetIsComp => LookupError::TargetIsComp,
            GetError::IdxOutOfBounds { idx, len, tail } => LookupError::IdxOutOfBounds {
                idx,
                len,
                tail: tail@,
            },
            GetError::LinkToCompInsteadPrim { tail } => LookupError::LinkToCompInsteadPrim {
                tail: tail@,
            },
            GetError::LinkToPrimInsteadOfComp { tail } => LookupError::LinkToPrimInsteadOfComp {
                tail: tail@,
            },
            GetError::TopCompMustHaveZeroIdx { idx, tail } => LookupError::TopCompMustHaveZeroIdx {
                idx,
                tail: tail@,
            },
            GetError::NotFound => LookupError::NotFound,
        }
    }
}

/// Attributes of a primitive beyond its shape (none are defined yet).
#[derive(Debug, Default)]
pub struct Attrs {}

/// A primitive element: a named shape with child nodes.
///
/// `S` is what the element draws; the tree logic never looks inside it.
pub struct Prim<S, C> {
    pub name: String,
    pub id: Option<String>,
    pub shape: S,
    pub value: Option<String>,
    pub attrs: Attrs,
    pub childs: Vec<Node<S, C>>,
}

/// A nested component, found in the tree by its optional id.
pub struct Comp<C> {
    pub id: Option<String>,
    pub inner: C,
}

/// A node of a view: a primitive element or a nested component.
pub enum Node<S, C> {
    Prim(Prim<S, C>),
    Comp(Comp<C>),
}

/// `id` holds exactly the characters `want`.
pub open spec fn id_is(id: Option<String>, want: Seq<char>) -> bool {
    id matches Some(s) && s@ == want
}

/// The primitive that the child indices `loc` lead to from `node`.
pub open spec fn prim_at<S, C>(node: Node<S, C>, loc: Seq<usize>) -> Result<Prim<S, C>, LookupError>
    decreases loc.len(),
{
    if loc.len() == 0 {
        match node {
            Node::Prim(p) => Ok(p),
            Node::Comp(_) => Err(LookupError::TargetIsComp),
        }
    } else {
        match node {
            Node::Prim(p) => {
                if loc[0] < p.childs@.len() {
                    prim_at(p.childs@[loc[0] as int], loc.drop_first())
                } else {
                    Err(LookupError::IdxOutOfBounds { idx: loc[0], len: p.childs@.len() as usize, tail: loc })
                }
            },
            Node::Comp(_) => Err(LookupError::LinkToCompInsteadPrim { tail: loc }),
        }
    }
}

/// The component that the child indices `loc` lead to from `node`.
pub open spec fn comp_at<S, C>(node: Node<S, C>, loc: Seq<usize>) -> Result<Comp<C>, LookupError>
    decreases loc.len(),
{
    if loc.len() == 0 {
        match node {
            Node::Prim(_) => Err(LookupError::TargetIsPrim),
            Node::Comp(c) => Ok(c),
        }
    } else {
        match node {
            Node::Prim(p) => {
                if loc[0] < p.childs@.len() {
                    comp_at(p.childs@[loc[0] as int], loc.drop_first())
                } else {
                    Err(LookupError::IdxOutOfBounds { idx: loc[0], len: p.childs@.len() as usize, tail: loc })
                }
            },
            Node::Comp(_) => Err(LookupError::LinkToCompInsteadPrim { tail: loc }),
        }
    }
}

/// The first primitive, in pre-order through primitives, whose id is `id`.
/// The search does not enter nested components.
pub open spec fn prim_with_id<S, C>(node: Node<S, C>, id: Seq<char>) -> Option<Prim<S, C>>
    decreases node, 1nat, 0int,
{
    match node {
        Node::Prim(p) => {
            if id_is(p.id, id) {
                Some(p)
            } else {
                prim_with_id_among(p.childs@, id, 0)
            }
        },
        Node::Comp(_) => None,
    }
}

/// The first match of `prim_with_id` among `nodes[i..]`.
pub open spec fn prim_with_id_among<S, C>(nodes: Seq<Node<S, C>>, id: Seq<char>, i: int) -> Option<Prim<S, C>>
    decreases nodes, 0nat, nodes.len() - i,
{
    if 0 <= i < nodes.len() {
        match prim_with_id(nodes[i], id) {
            Some(p) => Some(p),
            None => prim_with_id_among(nodes, id, i + 1),
        }
    } else {
        None
    }
}

/// The first component, in pre-order through primitives, whose id is `id`.
pub open spec fn comp_with_id<S, C>(node: Node<S, C>, id: Seq<char>) -> Option<Comp<C>>
    decreases node, 1nat, 0int,
{
    match node {
        Node::Prim(p) => comp_with_id_among(p.childs@, id, 0),
        Node::Comp(c) => if id_is(c.id, id) {
            Some(c)
        } else {
            None
        },
    }
}

/// The first match of `comp_with_id` among `nodes[i..]`.
pub open spec fn comp_with_id_among<S, C>(nodes: Seq<Node<S, C>>, id: Seq<char>, i: int) -> Option<Comp<C>>
    decreases nodes, 0nat, nodes.len() - i,
{
    if 0 <= i < nodes.len() {
        match comp_with_id(nodes[i], id) {
            Some(c) => Some(c),
            None => comp_with_id_among(nodes, id, i + 1),
        }
    } else {
        None
    }
}

/// The primitive a finger selects, or why there is none.
pub open spec fn prim_by_finger<S, C>(node: Node<S, C>, finger: Finger) -> Result<Prim<S, C>, LookupError> {
    match finger {
        Finger::Root => prim_at(node, seq![]),
        Finger::Location(loc) => prim_at(node, loc@),
        Finger::Id(id) => match prim_with_id(node, id@) {
            Some(p) => Ok(p),
            None => Err(LookupError::NotFound),
        },
    }
}

/// The component a finger selects, or why there is none.
pub open spec fn comp_by_finger<S, C>(node: Node<S, C>, finger: Finger) -> Result<Comp<C>, LookupError> {
    match finger {
        Finger::Root => comp_at(node, seq![]),
        Finger::Location(loc) => comp_at(node, loc@),
        Finger::Id(id) => match comp_with_id(node, id@) {
            Some(c) => Ok(c),
            None => Err(LookupError::NotFound),
        },
    }
}

/// A lookup answered `want`: the same target, or the same error.
pub open spec fn answers<T>(res: Result<&T, GetError>, want: Result<T, LookupError>) -> bool {
    match res {
        Ok(r) => want == Ok::<T, LookupError>(*r),
        Err(e) => want == Err::<T, LookupError>(e@),
    }
}

/// The child path to `prim_with_id(node, id)`.
pub open spec fn prim_path_with_id<S, C>(node: Node<S, C>, id: Seq<char>) -> Option<Seq<usize>>
    decreases node, 1nat, 0int,
{
    match node {
        Node::Prim(p) => {
            if id_is(p.id, id) {
                Some(Seq::<usize>::empty())
            } else {
                prim_path_among(p.childs@, id, 0)
            }
        },
        Node::Comp(_) => None,
    }
}

/// The child path, from the parent of `nodes`, to `prim_with_id_among(nodes, id, i)`.
pub open spec fn prim_path_among<S, C>(nodes: Seq<Node<S, C>>, id: Seq<char>, i: int) -> Option<Seq<usize>>
    decreases nodes, 0nat, nodes.len() - i,
{
    if 0 <= i < nodes.len() {
        match prim_path_with_id(nodes[i], id) {
            Some(path) => Some(seq![i as usize] + path),
            None => prim_path_among(nodes, id, i + 1),
        }
    } else {
        None
    }
}

/// The child path to `comp_with_id(node, id)`.
pub open spec fn comp_path_with_id<S, C>(node: Node<S, C>, id: Seq<char>) -> Option<Seq<usize>>
    decreases node, 1nat, 0int,
{
    match node {
        Node::Prim(p) => comp_path_among(p.childs@, id, 0),
        Node::Comp(c) => if id_is(c.id, id) {
            Some(Seq::<usize>::empty())
        } else {
            None
        },
    }
}

/// The child path, from the parent of `nodes`, to `comp_with_id_among(nodes, id, i)`.
pub open spec fn comp_path_among<S, C>(nodes: Seq<Node<S, C>>, id: Seq<char>, i: int) -> Option<Seq<usize>>
    decreases nodes, 0nat, nodes.len() - i,
{
    if 0 <= i < nodes.len() {
        match comp_path_with_id(nodes[i], id) {
            Some(path) => Some(seq![i as usize] + path),
            None => comp_path_among(nodes, id, i + 1),
        }
    } else {
        None
    }
}

/// The child path to the node that a finger selects, when it selects one.
pub open spec fn prim_path_by_finger<S, C>(node: Node<S, C>, finger: Finger) -> Seq<usize> {
    match finger {
        Finger::Root => seq![],
        Finger::Location(loc) => loc@,
        Finger::Id(id) => prim_path_with_id(node, id@).unwrap(),
    }
}

/// The child path to the component that a finger selects, when it selects one.
pub open spec fn comp_path_by_finger<S, C>(node: Node<S, C>, finger: Finger) -> Seq<usize> {
    match finger {
        Finger::Root => seq![],
        Finger::Location(loc) => loc@,
        Finger::Id(id) => comp_path_with_id(node, id@).unwrap(),
    }
}

/// `after` is `before` with the node at child path `loc` replaced by
/// `target`, and nothing else changed.
pub open spec fn replaced_at<S, C>(before: Node<S, C>, after: Node<S, C>, loc: Seq<usize>, target: Node<S, C>) -> bool
    decreases loc.len(),
{
    if loc.len() == 0 {
        after == target
    } else {
        match (before, after) {
            (Node::Prim(a), Node::Prim(b)) => {
                &&& b.name == a.name
                &&& b.id == a.id
                &&& b.shape == a.shape
                &&& b.value == a.value
                &&& b.attrs == a.attrs
                &&& loc[0] < a.childs@.len()
                &&& b.childs@.len() == a.childs@.len()
                &&& forall|j: int| 0 <= j < a.childs@.len() && j != loc[0] ==> #[trigger] b.childs@[j] == a.childs@[j]
                &&& replaced_at(a.childs@[loc[0] as int], b.childs@[loc[0] as int], loc.drop_first(), target)
            },
            _ => false,
        }
    }
}

impl<S, C> Prim<S, C> {
    pub fn new(name: &str, shape: S) -> (prim: Self)
        ensures
            prim.name@ == name@,
            prim.id is None,
            prim.shape == shape,
            prim.value is None,
            prim.childs@.len() == 0,
    {
        Prim { name: name.to_owned(), id: None, shape, value: None, attrs: Attrs {}, childs: Vec::new() }
    }

    /// Returns the name of the element.
    pub fn name(&self) -> (r: &str)
        ensures
            r@ == self.name@,
    {
        self.name.as_str()
    }

    /// Returns the id of the element's shape, if it has one.
    pub fn id(&self) -> (r: Option<&str>)
        ensures
            match r {
                Some(s) => self.id matches Some(own) && s@ == own@,
                None => self.id is None,
            },
    {
        match &self.id {
            Some(id) => Some(id.as_str()),
            None => None,
        }
    }

    /// Appends a child node.
    pub fn add_child(&mut self, child: Node<S, C>)
        ensures
            final(self).childs@ == old(self).childs@.push(child),
            final(self).name == old(self).name,
            final(self).id == old(self).id,
            final(self).shape == old(self).shape,
            final(self).value == old(self).value,
    {
        self.childs.push(child);
    }
}

impl<C> Comp<C> {
    /// Returns the id of the component, if it has one.
    pub fn id(&self) -> (r: Option<&str>)
        ensures
            match r {
                Some(s) => self.id matches Some(own) && s@ == own@,
                None => self.id is None,
            },
    {
        match &self.id {
            Some(id) => Some(id.as_str()),
            None => None,
        }
    }
}

impl<S, C> Node<S, C> {
    pub fn prim(&self) -> (r: Option<&Prim<S, C>>)
        ensures
            match *self {
                Node::Prim(p) => r == Some(&p),
                Node::Comp(_) => r is None,
            },
    {
        match self {
            Node::Prim(prim) => Some(prim),
            Node::Comp(_) => None,
        }
    }

    pub fn comp(&self) -> (r: Option<&Comp<C>>)
        ensures
            match *self {
                Node::Comp(c) => r == Some(&c),
                Node::Prim(_) => r is None,
            },
    {
        match self {
            Node::Comp(comp) => Some(comp),
            Node::Prim(_) => None,
        }
    }

    pub fn prim_mut(&mut self) -> (r: Option<&mut Prim<S, C>>)
        ensures
            match *old(self) {
                Node::Prim(p) => r matches Some(x) && *x == p && *final(self) == Node::<S, C>::Prim(*final(x)),
                Node::Comp(_) => r is None && *final(self) == *old(self),
            },
    {
        match self {
            Node::Prim(prim) => Some(prim),
            Node::Comp(_) => None,
        }
    }

    pub fn comp_mut(&mut self) -> (r: Option<&mut Comp<C>>)
        ensures
            match *old(self) {
                Node::Comp(c) => r matches Some(x) && *x == c && *final(self) == Node::<S, C>::Comp(*final(x)),
                Node::Prim(_) => r is None && *final(self) == *old(self),
            },
    {
        match self {
            Node::Comp(comp) => Some(comp),
            Node::Prim(_) => None,
        }
    }

    /// Follows the child indices `loc` to a primitive.
    fn prim_at_path<'a>(&self, loc: &'a [usize]) -> (res: Result<&Prim<S, C>, GetError<'a>>)
        ensures
            answers(res, prim_at(*self, loc@)),
        decreases loc@.len(),
    {
        if loc.len() == 0 {
            match self {
                Node::Prim(prim) => Ok(prim),
                Node::Comp(_) => Err(GetError::TargetIsComp),
            }
        } else {
            match self {
                Node::Prim(prim) => {
                    let idx = loc[0];
                    let len = prim.childs.len();
                    if idx < len {
                        let tail = &loc[1..loc.len()];
                        assert(tail@ == loc@.drop_first());
                        prim.childs[idx].prim_at_path(tail)
                    } else {
                        Err(GetError::IdxOutOfBounds { idx, len, tail: loc })
                    }
                },
                Node::Comp(_) => Err(GetError::LinkToCompInsteadPrim { tail: loc }),
            }
        }
    }

    /// Follows the child indices `loc` to a component.
    fn comp_at_path<'a>(&self, loc: &'a [usize]) -> (res: Result<&Comp<C>, GetError<'a>>)
        ensures
            answers(res, comp_at(*self, loc@)),
        decreases loc@.len(),
    {
        if loc.len() == 0 {
            match self {
                Node::Prim(_) => Err(GetError::TargetIsPrim),
                Node::Comp(comp) => Ok(comp),
            }
        } else {
            match self {
                Node::Prim(prim) => {
                    let idx = loc[0];
                    let len = prim.childs.len();
                    if idx < len {
                        let tail = &loc[1..loc.len()];
                        assert(tail@ == loc@.drop_first());
                        prim.childs[idx].comp_at_path(tail)
                    } else {
                        Err(GetError::IdxOutOfBounds { idx, len, tail: loc })
                    }
                },
                Node::Comp(_) => Err(GetError::LinkToCompInsteadPrim { tail: loc }),
            }
        }
    }

    /// Searches primitives, in pre-order, for the first whose id is `id`.
    #[verifier::loop_isolation(false)]
    fn prim_by_id(&self, id: &str) -> (res: Option<&Prim<S, C>>)
        ensures
            match res {
                Some(r) => prim_with_id(*self, id@) == Some(*r),
                None => prim_with_id(*self, id@) is None,
            },
        decreases self,
    {
        match self {
            Node::Prim(prim) => {
                if let Some(prim_id) = &prim.id {
                    if str_eq(id, prim_id.as_str()) {
                        return Some(prim);
                    }
                }
                let mut i: usize = 0;
                while i < prim.childs.len()
                    invariant
                        i <= prim.childs@.len(),
                        prim_with_id(*self, id@) == prim_with_id_among(prim.childs@, id@, i as int),
                    decreases prim.childs@.len() - i,
                {
                    let found = prim.childs[i].prim_by_id(id);
                    if found.is_some() {
                        return found;
                    }
                    i += 1;
                }
                None
            },
            Node::Comp(_) => None,
        }
    }

    /// Searches for the first component whose id is `id`, in pre-order
    /// through primitives.
    #[verifier::loop_isolation(false)]
    fn comp_by_id(&self, id: &str) -> (res: Option<&Comp<C>>)
        ensures
            match res {
                Some(r) => comp_with_id(*self, id@) == Some(*r),
                None => comp_with_id(*self, id@) is None,
            },
        decreases self,
    {
        match self {
            Node::Prim(prim) => {
                let mut i: usize = 0;
                while i < prim.childs.len()
                    invariant
                        i <= prim.childs@.len(),
                        comp_with_id(*self, id@) == comp_with_id_among(prim.childs@, id@, i as int),
                    decreases prim.childs@.len() - i,
                {
                    let found = prim.childs[i].comp_by_id(id);
                    if found.is_some() {
                        return found;
                    }
                    i += 1;
                }
                None
            },
            Node::Comp(comp) => {
                match &comp.id {
                    Some(comp_id) => if str_eq(id, comp_id.as_str()) {
                        Some(comp)
                    } else {
                        None
                    },
                    None => None,
                }
            },
        }
    }

    /// Follows the child indices `loc`, which lead to a primitive, to that
    /// primitive, for change.
    fn prim_at_path_mut(&mut self, loc: &[usize]) -> (r: &mut Prim<S, C>)
        requires
            prim_at(*old(self), loc@) is Ok,
        ensures
            prim_at(*old(self), loc@) == Ok::<Prim<S, C>, LookupError>(*r),
            replaced_at(*old(self), *final(self), loc@, Node::Prim(*final(r))),
        decreases loc@.len(),
    {
        match self {
            Node::Prim(prim) => {
                if loc.len() == 0 {
                    prim
                } else {
                    let tail = &loc[1..loc.len()];
                    assert(tail@ == loc@.drop_first());
                    prim.childs[loc[0]].prim_at_path_mut(tail)
                }
            },
            Node::Comp(_) => vstd::pervasive::unreached(),
        }
    }

    /// Follows the child indices `loc`, which lead to a component, to that
    /// component, for change.
    fn comp_at_path_mut(&mut self, loc: &[usize]) -> (r: &mut Comp<C>)
        requires
            comp_at(*old(self), loc@) is Ok,
        ensures
            comp_at(*old(self), loc@) == Ok::<Comp<C>, LookupError>(*r),
            replaced_at(*old(self), *final(self), loc@, Node::Comp(*final(r))),
        decreases loc@.len(),
    {
        match self {
            Node::Prim(prim) => {
                if loc.len() == 0 {
                    vstd::pervasive::unreached()
                } else {
                    let tail = &loc[1..loc.len()];
                    assert(tail@ == loc@.drop_first());
                    prim.childs[loc[0]].comp_at_path_mut(tail)
                }
            },
            Node::Comp(comp) => {
                if loc.len() == 0 {
                    comp
                } else {
                    vstd::pervasive::unreached()
                }
            },
        }
    }

    /// The child path to the first primitive, in pre-order, whose id is `id`.
    #[verifier::loop_isolation(false)]
    fn prim_path_by_id(&self, id: &str) -> (res: Option<Vec<usize>>)
        ensures
            match res {
                Some(path) => {
                    &&& prim_path_with_id(*self, id@) == Some(path@)
                    &&& prim_with_id(*self, id@) is Some
                    &&& prim_at(*self, path@) == Ok::<Prim<S, C>, LookupError>(prim_with_id(*self, id@)->0)
                },
                None => prim_path_with_id(*self, id@) is None && prim_with_id(*self, id@) is None,
            },
        decreases self,
    {
        match self {
            Node::Prim(prim) => {
                if let Some(prim_id) = &prim.id {
                    if str_eq(id, prim_id.as_str()) {
                        return Some(Vec::new());
                    }
                }
                let mut i: usize = 0;
                while i < prim.childs.len()
                    invariant
                        i <= prim.childs@.len(),
                        prim_with_id(*self, id@) == prim_with_id_among(prim.childs@, id@, i as int),
                        prim_path_with_id(*self, id@) == prim_path_among(prim.childs@, id@, i as int),
                    decreases prim.childs@.len() - i,
                {
                    let found = prim.childs[i].prim_path_by_id(id);
                    match found {
                        Some(mut path) => {
                            let ghost child_path = path@;
                            path.insert(0, i);
                            assert(path@.drop_first() == child_path);
                            assert(path@ == seq![i] + child_path);
                            return Some(path);
                        },
                        None => {},
                    }
                    i += 1;
                }
                None
            },
            Node::Comp(_) => None,
        }
    }

    /// The child path to the first component, in pre-order through
    /// primitives, whose id is `id`.
    #[verifier::loop_isolation(false)]
    pub(crate) fn comp_path_by_id(&self, id: &str) -> (res: Option<Vec<usize>>)
        ensures
            match res {
                Some(path) => {
                    &&& comp_path_with_id(*self, id@) == Some(path@)
                    &&& comp_with_id(*self, id@) is Some
                    &&& comp_at(*self, path@) == Ok::<Comp<C>, LookupError>(comp_with_id(*self, id@)->0)
                },
                None => comp_path_with_id(*self, id@) is None && comp_with_id(*self, id@) is None,
            },
        decreases self,
    {
        match self {
            Node::Prim(prim) => {
                let mut i: usize = 0;
                while i < prim.childs.len()
                    invariant
                        i <= prim.childs@.len(),
                        comp_with_id(*self, id@) == comp_with_id_among(prim.childs@, id@, i as int),
                        comp_path_with_id(*self, id@) == comp_path_among(prim.childs@, id@, i as int),
                    decreases prim.childs@.len() - i,
                {
                    let found = prim.childs[i].comp_path_by_id(id);
                    match found {
                        Some(mut path) => {
                            let ghost child_path = path@;
                            path.insert(0, i);
                            assert(path@.drop_first() == child_path);
                            assert(path@ == seq![i] + child_path);
                            return Some(path);
                        },
                        None => {},
                    }
                    i += 1;
                }
                None
            },
            Node::Comp(comp) => {
                match &comp.id {
                    Some(comp_id) => if str_eq(id, comp_id.as_str()) {
                        Some(Vec::new())
                    } else {
                        None
                    },
                    None => None,
                }
            },
        }
    }

    /// Returns the primitive that `finger` selects, for change.
    pub fn get_prim_mut<'a>(&mut self, finger: Finger<'a>) -> (res: Result<&mut Prim<S, C>, GetError<'a>>)
        ensures
            match res {
                Ok(r) => prim_by_finger(*old(self), finger) == Ok::<Prim<S, C>, LookupError>(*r)
                    && replaced_at(*old(self), *final(self), prim_path_by_finger(*old(self), finger), Node::Prim(*final(r))),
                Err(e) => prim_by_finger(*old(self), finger) == Err::<Prim<S, C>, LookupError>(e@)
                    && *final(self) == *old(self),
            },
    {
        match finger {
            Finger::Root => match self {
                Node::Prim(prim) => Ok(prim),
                Node::Comp(_) => Err(GetError::TargetIsComp),
            },
            Finger::Location(loc) => match self.prim_at_path(loc) {
                Ok(_) => Ok(self.prim_at_path_mut(loc)),
                Err(e) => Err(e),
            },
            Finger::Id(id) => match self.prim_path_by_id(id) {
                Some(path) => Ok(self.prim_at_path_mut(path.as_slice())),
                None => Err(GetError::NotFound),
            },
        }
    }

    /// Returns the component that `finger` selects, for change.
    pub fn get_comp_mut<'a>(&mut self, finger: Finger<'a>) -> (res: Result<&mut Comp<C>, GetError<'a>>)
        ensures
            match res {
                Ok(r) => comp_by_finger(*old(self), finger) == Ok::<Comp<C>, LookupError>(*r)
                    && replaced_at(*old(self), *final(self), comp_path_by_finger(*old(self), finger), Node::Comp(*final(r))),
                Err(e) => comp_by_finger(*old(self), finger) == Err::<Comp<C>, LookupError>(e@)
                    && *final(self) == *old(self),
            },
    {
        match finger {
            Finger::Root => match self {
                Node::Prim(_) => Err(GetError::TargetIsPrim),
                Node::Comp(comp) => Ok(comp),
            },
            Finger::Location(loc) => match self.comp_at_path(loc) {
                Ok(_) => Ok(self.comp_at_path_mut(loc)),
                Err(e) => Err(e),
            },
            Finger::Id(id) => match self.comp_path_by_id(id) {
                Some(path) => Ok(self.comp_at_path_mut(path.as_slice())),
                None => Err(GetError::NotFound),
            },
        }
    }

    /// Returns the primitive that `finger` selects.
    pub fn get_prim<'a>(&self, finger: Finger<'a>) -> (res: Result<&Prim<S, C>, GetError<'a>>)
        ensures
            answers(res, prim_by_finger(*self, finger)),
    {
        match finger {
            Finger::Root => match self {
                Node::Prim(prim) => Ok(prim),
                Node::Comp(_) => Err(GetError::TargetIsComp),
            },
            Finger::Location(loc) => self.prim_at_path(loc),
            Finger::Id(id) => match self.prim_by_id(id) {
                Some(prim) => Ok(prim),
                None => Err(GetError::NotFound),
            },
        }
    }

    /// Returns the component that `finger` selects.
    pub fn get_comp<'a>(&self, finger: Finger<'a>) -> (res: Result<&Comp<C>, GetError<'a>>)
        ensures
            answers(res, comp_by_finger(*self, finger)),
    {
        match finger {
            Finger::Root => match self {
                Node::Prim(_) => Err(GetError::TargetIsPrim),
                Node::Comp(comp) => Ok(comp),
            },
            Finger::Location(loc) => self.comp_at_path(loc),
            Finger::Id(id) => match self.comp_by_id(id) {
                Some(comp) => Ok(comp),
                None => Err(GetError::NotFound),
            },
        }
    }
}

} // verus!
