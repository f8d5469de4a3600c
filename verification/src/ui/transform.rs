use vstd::prelude::*;
use vstd::std_specs::ops::MulSpec;

verus! {

/// How an element is placed: by a matrix relative to its parent (`Local`),
/// by an absolute one (`Global`), or, once the layout has been worked out,
/// by the absolute matrix that was calculated (`Calculated`), keeping the
/// relative one it came from, if any.
///
/// `M` is the matrix; the placement logic never looks inside it.
#[derive(Clone, Copy, Debug, PartialEq)]
pub enum Transform<M> {
    Local(M),
    Global(M),
    Calculated { local: Option<M>, global: M },
}

impl<M: Default> Default for Transform<M> {
    /// A placement relative to the parent by the default matrix (which,
    /// for a matrix type, is meant to be the identity).
    fn default() -> (r: Self)
        ensures
            r is Local,
    {
        Transform::Local(M::default())
    }
}

impl<M: Copy> Transform<M> {
    /// The matrix relative to the parent, if the placement has one.
    pub open spec fn spec_local(self) -> Option<M> {
        match self {
            Transform::Local(m) => Some(m),
            Transform::Calculated { local, .. } => local,
            Transform::Global(_) => None,
        }
    }

    /// The absolute matrix, if the placement has one.
    pub open spec fn spec_global(self) -> Option<M> {
        match self {
            Transform::Global(m) => Some(m),
            Transform::Calculated { global, .. } => Some(global),
            Transform::Local(_) => None,
        }
    }

    /// The placement once laid out with the absolute matrix `global`.
    pub open spec fn laid_out(self, global: M) -> Transform<M> {
        Transform::Calculated { local: self.spec_local(), global }
    }

    /// Whether the placement does not depend on the parent.
    pub open spec fn spec_absolute(self) -> bool {
        self.spec_local() is None
    }

    pub fn is_absolute(&self) -> (r: bool)
        ensures
            r == self.spec_absolute(),
    {
        match self {
            Transform::Global(_) | Transform::Calculated { local: None, .. } => true,
            _ => false,
        }
    }

    pub fn is_relative(&self) -> (r: bool)
        ensures
            r == !self.spec_absolute(),
    {
        !self.is_absolute()
    }

    /// The matrix that places the element: the relative one when there is
    /// one, else the absolute one.
    pub fn matrix(&self) -> (r: M)
        ensures
            r == match self.spec_local() {
                Some(l) => l,
                None => self.spec_global()->0,
            },
    {
        match self.local_matrix() {
            Some(local) => local,
            None => match self.global_matrix() {
                Some(global) => global,
                None => vstd::pervasive::unreached(),
            },
        }
    }

    pub fn local_matrix(&self) -> (r: Option<M>)
        ensures
            r == self.spec_local(),
    {
        match self {
            Transform::Local(local) | Transform::Calculated { local: Some(local), .. } => Some(*local),
            _ => None,
        }
    }

    pub fn global_matrix(&self) -> (r: Option<M>)
        ensures
            r == self.spec_global(),
    {
        match self {
            Transform::Global(global) | Transform::Calculated { global, .. } => Some(*global),
            _ => None,
        }
    }

    /// The absolute matrix worked out by the last layout, if any.
    pub fn calculated_matrix(&self) -> (r: Option<M>)
        ensures
            r == match *self {
                Transform::Calculated { global, .. } => Some(global),
                _ => None,
            },
    {
        match self {
            Transform::Calculated { global, .. } => Some(*global),
            _ => None,
        }
    }

    /// Changes the matrix that places the element with `modifier`. A
    /// calculated placement goes back to the matrix it was given: the
    /// relative one when it had one, else the absolute one.
    pub fn transform(&mut self, modifier: impl Fn(M) -> M)
        requires
            forall|m: M| #[trigger] call_requires(modifier, (m,)),
        ensures
            match *old(self) {
                Transform::Local(m) | Transform::Calculated { local: Some(m), .. } => (exists|n: M|
                    call_ensures(modifier, (m,), n) && *final(self) == Transform::Local(n)),
                Transform::Global(m) | Transform::Calculated { local: None, global: m } => (exists|n: M|
                    call_ensures(modifier, (m,), n) && *final(self) == Transform::Global(n)),
            },
    {
        match *self {
            Transform::Local(matrix) => *self = Transform::Local(modifier(matrix)),
            Transform::Global(matrix) => *self = Transform::Global(modifier(matrix)),
            Transform::Calculated { local: Some(local), .. } => *self = Transform::Local(modifier(local)),
            Transform::Calculated { global, .. } => *self = Transform::Global(modifier(global)),
        }
    }

    /// Works out the absolute matrix under a parent placed by
    /// `parent_global`: the parent's matrix times the relative one, or the
    /// element's own absolute matrix. Remembers and returns it.
    pub fn calculate_global(&mut self, parent_global: M) -> (r: M) where M: core::ops::Mul<Output = M>
        requires
            old(self).spec_local() matches Some(l) ==> parent_global.mul_req(l),
        ensures
            *final(self) == old(self).laid_out(r),
            old(self).spec_local() is None ==> r == old(self).spec_global()->0,
            old(self).spec_local() matches Some(l) ==> (<M as MulSpec>::obeys_mul_spec() ==> r
                == parent_global.mul_spec(l)),
    {
        let local = self.local_matrix();
        let global = match local {
            Some(local) => parent_global * local,
            None => self.matrix(),
        };
        *self = Transform::Calculated { local, global };
        global
    }
}

/// Laying out never changes how an element is placed relative to its
/// parent, and afterwards the placement has the absolute matrix it was
/// laid out with.
pub proof fn lemma_placement_kept<M: Copy>(before: Transform<M>, global: M)
    ensures
        before.laid_out(global).spec_local() == before.spec_local(),
        before.laid_out(global).spec_absolute() == before.spec_absolute(),
        before.laid_out(global).spec_global() == Some(global),
        before.laid_out(global).laid_out(global) == before.laid_out(global),
{
}

} // verus!
