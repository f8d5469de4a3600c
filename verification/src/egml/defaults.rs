use vstd::prelude::*;

use super::node::{Node, Prim};

verus! {

/// What the shapes inside a group inherit from it: a fill, a stroke and a
/// translation, each when the group sets one.
#[derive(Clone, Copy)]
pub struct Defaults<F, St, T> {
    pub fill: Option<F>,
    pub stroke: Option<St>,
    pub translate: Option<T>,
}

/// The part of a shape that inheritance reads and fills in.
#[derive(Clone, Copy)]
pub enum Style<F, St, T> {
    /// A drawn shape with its own fill and stroke, if set, and the
    /// translation it inherited, which the drawing side adds to its
    /// placement.
    Leaf { fill: Option<F>, stroke: Option<St>, translate_by: Option<T> },
    /// A group, with what it sets for the shapes inside it.
    Group { fill: Option<F>, stroke: Option<St>, translate: Option<T> },
    /// A shape that inherits nothing.
    Bare,
}

/// A shape of a view: its style, and what it draws, which inheritance
/// never looks at.
pub struct Styled<F, St, T, D> {
    pub style: Style<F, St, T>,
    pub drawing: D,
}

/// `own` when it is set, else `inherited`.
pub open spec fn own_or<A>(own: Option<A>, inherited: Option<A>) -> Option<A> {
    if own is Some {
        own
    } else {
        inherited
    }
}

/// The style after a shape has inherited from `defaults`: a drawn shape
/// takes the inherited fill and stroke where it sets none of its own, and
/// records an inherited translation; other shapes are left as they are.
pub open spec fn inherited<F, St, T>(style: Style<F, St, T>, defaults: Option<Defaults<F, St, T>>) -> Style<F, St, T> {
    match (style, defaults) {
        (Style::Leaf { fill, stroke, translate_by }, Some(d)) => Style::Leaf {
            fill: own_or(fill, d.fill),
            stroke: own_or(stroke, d.stroke),
            translate_by: own_or(d.translate, translate_by),
        },
        _ => style,
    }
}

/// What a shape hands on to the shapes inside it: a group that sets
/// anything hands on the incoming defaults with its own settings put over
/// them; every other shape hands on the incoming defaults unchanged.
pub open spec fn handed_on<F, St, T>(style: Style<F, St, T>, defaults: Option<Defaults<F, St, T>>) -> Option<Defaults<F, St, T>> {
    match style {
        Style::Group { fill, stroke, translate } => if fill is None && stroke is None && translate is None {
            defaults
        } else {
            let base = match defaults {
                Some(d) => d,
                None => Defaults { fill: None, stroke: None, translate: None },
            };
            Some(Defaults {
                fill: own_or(fill, base.fill),
                stroke: own_or(stroke, base.stroke),
                translate: own_or(translate, base.translate),
            })
        },
        _ => defaults,
    }
}

/// `after` is `before` once every primitive has inherited what reaches it:
/// each primitive's style is `inherited` from the defaults that reach it,
/// its children are reached by what it hands on, and nothing else changes;
/// components are left to resolve their own views.
pub open spec fn resolved<F, St, T, D, C>(
    before: Node<Styled<F, St, T, D>, C>,
    after: Node<Styled<F, St, T, D>, C>,
    defaults: Option<Defaults<F, St, T>>,
) -> bool
    decreases before, 1nat, 0int,
{
    match (before, after) {
        (Node::Prim(a), Node::Prim(b)) => {
            &&& b.name == a.name
            &&& b.id == a.id
            &&& b.value == a.value
            &&& b.attrs == a.attrs
            &&& b.shape.drawing == a.shape.drawing
            &&& b.shape.style == inherited(a.shape.style, defaults)
            &&& b.childs@.len() == a.childs@.len()
            &&& resolved_from(a.childs@, b.childs@, handed_on(a.shape.style, defaults), 0)
        },
        (Node::Comp(a), Node::Comp(b)) => b == a,
        _ => false,
    }
}

/// Each of `before` from position `i` on is `resolved` into the node at the
/// same position of `after`, from `defaults`.
pub open spec fn resolved_from<F, St, T, D, C>(
    before: Seq<Node<Styled<F, St, T, D>, C>>,
    after: Seq<Node<Styled<F, St, T, D>, C>>,
    defaults: Option<Defaults<F, St, T>>,
    i: int,
) -> bool
    decreases before, 0nat, before.len() - i,
{
    if 0 <= i < before.len() {
        resolved(before[i], after[i], defaults) && resolved_from(before, after, defaults, i + 1)
    } else {
        true
    }
}

/// `resolved_from` holds from `i` on when each position from `i` on is
/// resolved.
proof fn lemma_resolved_from<F, St, T, D, C>(
    before: Seq<Node<Styled<F, St, T, D>, C>>,
    after: Seq<Node<Styled<F, St, T, D>, C>>,
    defaults: Option<Defaults<F, St, T>>,
    i: int,
)
    requires
        0 <= i,
        forall|j: int| i <= j < before.len() ==> #[trigger] resolved(before[j], after[j], defaults),
    ensures
        resolved_from(before, after, defaults, i),
    decreases before.len() - i,
{
    if i < before.len() {
        assert(resolved(before[i], after[i], defaults));
        lemma_resolved_from(before, after, defaults, i + 1);
    }
}

impl<F: Copy, St: Copy, T: Copy> Style<F, St, T> {
    /// Inherits from `defaults`.
    pub fn inherit(&mut self, defaults: Option<Defaults<F, St, T>>)
        ensures
            *final(self) == inherited(*old(self), defaults),
    {
        if let Some(d) = defaults {
            if let Style::Leaf { fill, stroke, translate_by } = self {
                if fill.is_none() && d.fill.is_some() {
                    *fill = d.fill;
                }
                if stroke.is_none() && d.stroke.is_some() {
                    *stroke = d.stroke;
                }
                if d.translate.is_some() {
                    *translate_by = d.translate;
                }
            }
        }
    }

    /// What this shape hands on to the shapes inside it.
    pub fn hand_on(&self, defaults: Option<Defaults<F, St, T>>) -> (r: Option<Defaults<F, St, T>>)
        ensures
            r == handed_on(*self, defaults),
    {
        match self {
            Style::Group { fill, stroke, translate } => {
                if fill.is_none() && stroke.is_none() && translate.is_none() {
                    defaults
                } else {
                    let base = match defaults {
                        Some(d) => d,
                        None => Defaults { fill: None, stroke: None, translate: None },
                    };
                    Some(Defaults {
                        fill: if fill.is_some() { *fill } else { base.fill },
                        stroke: if stroke.is_some() { *stroke } else { base.stroke },
                        translate: if translate.is_some() { *translate } else { base.translate },
                    })
                }
            },
            _ => defaults,
        }
    }
}

impl<F: Copy, St: Copy, T: Copy, D, C> Node<Styled<F, St, T, D>, C> {
    /// Hands fills, strokes and translations down the tree from the groups
    /// that set them to the shapes inside, starting from `defaults`.
    /// Answers whether the node's children were taken care of here, which
    /// is so for a primitive; a component resolves its own view.
    pub fn resolve(&mut self, defaults: Option<Defaults<F, St, T>>) -> (processed: bool)
        ensures
            processed == (*old(self) is Prim),
            resolved(*old(self), *final(self), defaults),
        decreases *old(self),
    {
        match self {
            Node::Prim(prim) => {
                let ghost before: Prim<Styled<F, St, T, D>, C> = *prim;
                assert(*old(self) == Node::Prim(before));
                let passed = prim.shape.style.hand_on(defaults);
                prim.shape.style.inherit(defaults);
                let mut i: usize = 0;
                while i < prim.childs.len()
                    invariant
                        i <= prim.childs@.len(),
                        prim.childs@.len() == before.childs@.len(),
                        prim.name == before.name,
                        prim.id == before.id,
                        prim.value == before.value,
                        prim.attrs == before.attrs,
                        prim.shape.drawing == before.shape.drawing,
                        prim.shape.style == inherited(before.shape.style, defaults),
                        passed == handed_on(before.shape.style, defaults),
                        *old(self) == Node::Prim(before),
                        forall|j: int| 0 <= j < i ==> #[trigger] resolved(before.childs@[j], prim.childs@[j], passed),
                        forall|j: int| i <= j < prim.childs@.len() ==> #[trigger] prim.childs@[j] == before.childs@[j],
                    decreases prim.childs@.len() - i,
                {
                    assert(prim.childs@[i as int] == before.childs@[i as int]);
                    let ghost whole = Node::<Styled<F, St, T, D>, C>::Prim(before);
                    assert(decreases_to!(whole => whole->Prim_0));
                    assert(decreases_to!(before => before.childs));
                    assert(decreases_to!(before.childs => before.childs@));
                    assert(decreases_to!(before.childs@ => before.childs@[i as int]));
                    prim.childs[i].resolve(passed);
                    i += 1;
                }
                proof {
                    lemma_resolved_from(before.childs@, prim.childs@, passed, 0);
                }
                assert(resolved(Node::Prim(before), Node::Prim(*prim), defaults));
                true
            },
            Node::Comp(_) => false,
        }
    }
}

/// A shape's own settings win over inherited ones: a drawn shape keeps
/// the fill and stroke it sets, and a group hands on the settings it sets
/// in place of those it inherited.
pub proof fn lemma_own_settings_win<F, St, T>(style: Style<F, St, T>, defaults: Option<Defaults<F, St, T>>)
    ensures
        style matches Style::Leaf { fill: Some(f), .. } ==> inherited(style, defaults) matches Style::Leaf {
            fill: Some(g),
            ..
        } && g == f,
        style matches Style::Leaf { stroke: Some(k), .. } ==> inherited(style, defaults) matches Style::Leaf {
            stroke: Some(m),
            ..
        } && m == k,
        style matches Style::Group { fill: Some(f), .. } ==> handed_on(style, defaults) matches Some(d) && d.fill == Some(f),
        style matches Style::Group { stroke: Some(k), .. } ==> handed_on(style, defaults) matches Some(d) && d.stroke
            == Some(k),
        style matches Style::Group { translate: Some(t), .. } ==> handed_on(style, defaults) matches Some(d)
            && d.translate == Some(t),
        style matches Style::Group { fill: None, stroke: None, translate: None } ==> handed_on(style, defaults)
            == defaults,
{
}

/// A group hands on every incoming setting that it does not set itself,
/// and a drawn shape takes every inherited setting that it does not set
/// itself.
pub proof fn lemma_unset_settings_pass_through<F, St, T>(style: Style<F, St, T>, d: Defaults<F, St, T>)
    ensures
        style matches Style::Group { fill: None, .. } ==> handed_on(style, Some(d)) matches Some(e) && e.fill == d.fill,
        style matches Style::Group { stroke: None, .. } ==> handed_on(style, Some(d)) matches Some(e) && e.stroke
            == d.stroke,
        style matches Style::Group { translate: None, .. } ==> handed_on(style, Some(d)) matches Some(e)
            && e.translate == d.translate,
        style matches Style::Group { fill: None, .. } ==> handed_on(style, None) matches Some(e) ==> e.fill is None,
        style matches Style::Group { stroke: None, .. } ==> handed_on(style, None) matches Some(e) ==> e.stroke is None,
        style matches Style::Group { translate: None, .. } ==> handed_on(style, None) matches Some(e)
            ==> e.translate is None,
        style matches Style::Leaf { fill: None, .. } ==> inherited(style, Some(d)) matches Style::Leaf { fill, .. }
            && fill == d.fill,
        style matches Style::Leaf { stroke: None, .. } ==> inherited(style, Some(d)) matches Style::Leaf {
            stroke,
            ..
        } && stroke == d.stroke,
        style matches Style::Leaf { translate_by, .. } ==> inherited(style, Some(d)) matches Style::Leaf {
            translate_by: t,
            ..
        } && t == (if d.translate is Some { d.translate } else { translate_by }),
        inherited(style, None) == style,
        !(style is Leaf) ==> inherited(style, Some(d)) == style,
        !(style is Group) ==> handed_on(style, Some(d)) == Some(d) && handed_on(style, None) == None::<Defaults<F, St, T>>,
{
}

} // verus!
