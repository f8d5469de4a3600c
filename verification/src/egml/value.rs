use vstd::prelude::*;

verus! {

/// A value given in percent of the size of the enclosing element.
#[derive(Debug, Default, Clone, Copy)]
pub struct Pct<T>(pub T);

} // verus!
