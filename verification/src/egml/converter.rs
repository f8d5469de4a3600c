use vstd::prelude::*;

verus! {

/// Converts a property value into the form an element stores.
pub trait Converter<TO> {
    /// Convert one type to another.
    fn convert(self) -> TO;
}

impl<T> Converter<T> for T {
    fn convert(self) -> T
        returns
            self,
    {
        self
    }
}

impl<T> Converter<Option<T>> for T {
    fn convert(self) -> Option<T>
        returns
            Some(self),
    {
        Some(self)
    }
}

impl<'a, T: Clone> Converter<T> for &'a T {
    fn convert(self) -> (r: T)
        ensures
            cloned::<T>(*self, r),
    {
        self.clone()
    }
}

impl<'a, T: Clone> Converter<Option<T>> for &'a T {
    fn convert(self) -> (r: Option<T>)
        ensures
            r matches Some(v) && cloned(*self, v),
    {
        Some(self.clone())
    }
}

/// The characters of a string.
pub open spec fn chars_of(s: String) -> Seq<char> {
    s@
}

/// The characters of an optional string.
pub open spec fn opt_chars_of(s: Option<String>) -> Option<Seq<char>> {
    match s {
        Some(s) => Some(s@),
        None => None,
    }
}

impl<'a> Converter<String> for &'a str {
    fn convert(self) -> (r: String)
        ensures
            chars_of(r) == self@,
    {
        self.to_owned()
    }
}

impl<'a> Converter<Option<String>> for &'a str {
    fn convert(self) -> (r: Option<String>)
        ensures
            opt_chars_of(r) == Some(self@),
    {
        Some(self.to_owned())
    }
}

} // verus!
