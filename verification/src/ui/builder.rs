use vstd::prelude::*;

verus! {

/// Something that can be told what message a click on it sends. By
/// default a builder takes no click handler and is left as it is.
pub trait EventHandler<Msg> {
    fn on_click(self, trigger: impl Fn(()) -> Msg) -> (r: Self) where Self: Sized
        default_ensures
            r == self,
    {
        self
    }
}

} // verus!
