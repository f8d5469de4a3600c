use vstd::prelude::*;

use super::converter::Converter;

verus! {

/// A run of plain text in the tree, found by its optional id.
#[derive(Default)]
pub struct Word {
    pub id: Option<String>,
    pub content: String,
}

impl Word {
    pub fn id(&self) -> (r: Option<&str>)
        ensures
            match r {
                Some(s) => self.id matches Some(own) && s@ == own@,
                None => self.id is None,
            },
    {
        match &self.id {
            Some(id) => Some(id.as_str()),
            None => None,
        }
    }

    /// The text of the word.
    pub fn as_str(&self) -> (r: &str)
        ensures
            r@ == self.content@,
    {
        self.content.as_str()
    }
}

/// Horizontal alignment of text.
#[derive(Debug, Clone, Copy, PartialEq, Eq, Structural)]
pub enum AlignHor {
    Left,
    Right,
    Center,
}

impl Default for AlignHor {
    fn default() -> (r: Self)
        ensures
            r == AlignHor::Left,
    {
        AlignHor::Left
    }
}

/// Vertical alignment of text.
#[derive(Debug, Clone, Copy, PartialEq, Eq, Structural)]
pub enum AlignVer {
    Bottom,
    Middle,
    Baseline,
    Top,
}

impl Default for AlignVer {
    fn default() -> (r: Self)
        ensures
            r == AlignVer::Top,
    {
        AlignVer::Top
    }
}

impl Converter<(AlignHor, AlignVer)> for AlignHor {
    fn convert(self) -> (AlignHor, AlignVer)
        returns
            (self, AlignVer::Top),
    {
        (self, AlignVer::default())
    }
}

impl Converter<(AlignHor, AlignVer)> for AlignVer {
    fn convert(self) -> (AlignHor, AlignVer)
        returns
            (AlignHor::Left, self),
    {
        (AlignHor::default(), self)
    }
}

/// Controls how the end of a line is drawn.
#[derive(Clone, Copy, Debug, PartialEq, Eq, Structural)]
pub enum LineCap {
    Butt,
    Round,
    Square,
}

/// Controls how lines are joined together.
#[derive(Debug, Clone, Copy, PartialEq, Eq, Structural)]
pub enum LineJoin {
    Miter,
    Round,
    Bevel,
}

} // verus!
