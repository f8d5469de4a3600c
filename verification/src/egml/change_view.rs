use vstd::prelude::*;

verus! {

/// What a component asks of its view after handling a message.
///
/// The three requests are ordered by strength: `NoChange` asks nothing,
/// `Modify` asks to refresh the existing view in place, `Rebuild` asks to
/// build the view anew (which subsumes a modification).
#[derive(Debug, Copy, Clone, PartialEq, Eq, Structural)]
pub enum ChangeView {
    Rebuild,
    Modify,
    NoChange,
}

/// The strength of a request: `NoChange` < `Modify` < `Rebuild`.
pub open spec fn strength(c: ChangeView) -> nat {
    match c {
        ChangeView::NoChange => 0,
        ChangeView::Modify => 1,
        ChangeView::Rebuild => 2,
    }
}

/// The stronger of two requests.
pub open spec fn stronger(a: ChangeView, b: ChangeView) -> ChangeView {
    if strength(a) >= strength(b) { a } else { b }
}

impl ChangeView {
    pub fn is_rebuild(&self) -> (r: bool)
        ensures
            r <==> *self == ChangeView::Rebuild,
    {
        *self == ChangeView::Rebuild
    }

    pub fn is_modify(&self) -> (r: bool)
        ensures
            r <==> *self == ChangeView::Modify,
    {
        *self == ChangeView::Modify
    }

    pub fn is_none(&self) -> (r: bool)
        ensures
            r <==> *self == ChangeView::NoChange,
    {
        *self == ChangeView::NoChange
    }

    /// Raises this request to `other` when `other` is stronger.
    pub fn up(&mut self, other: ChangeView)
        ensures
            *final(self) == stronger(*old(self), other),
    {
        match (other, *self) {
            (ChangeView::Modify, ChangeView::NoChange) => *self = ChangeView::Modify,
            (ChangeView::Rebuild, _) => *self = ChangeView::Rebuild,
            _ => (),
        }
    }
}

} // verus!
