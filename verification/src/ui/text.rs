use vstd::prelude::*;
use vstd::std_specs::iter::IteratorSpec;

use crate::strings::push_char;
use super::converter::ConvertTo;

verus! {

/// Horizontal alignment of text.
#[derive(Debug, Clone, Copy, PartialEq, Eq, Structural)]
pub enum AlignHor {
    Left,
    Right,
    Center,
}

impl Default for AlignHor {
    fn default() -> (r: Self)
        ensures
            r == AlignHor::Left,
    {
        AlignHor::Left
    }
}

/// Vertical alignment of text.
#[derive(Debug, Clone, Copy, PartialEq, Eq, Structural)]
pub enum AlignVer {
    Bottom,
    Middle,
    Baseline,
    Top,
}

impl Default for AlignVer {
    fn default() -> (r: Self)
        ensures
            r == AlignVer::Top,
    {
        AlignVer::Top
    }
}

impl ConvertTo<(AlignHor, AlignVer)> for AlignHor {
    fn convert(self) -> (AlignHor, AlignVer)
        returns
            (self, AlignVer::Top),
    {
        (self, AlignVer::default())
    }
}

impl ConvertTo<(AlignHor, AlignVer)> for AlignVer {
    fn convert(self) -> (AlignHor, AlignVer)
        returns
            (AlignHor::Left, self),
    {
        (AlignHor::default(), self)
    }
}

/// The editable part of a text shape: its id, its characters, the font it
/// is set in and its alignment.
#[derive(Default)]
pub struct Text {
    pub id: Option<String>,
    pub content: String,
    pub font_name: String,
    pub align: (AlignHor, AlignVer),
}

/// `content` with `ch` put before the character at `idx`, or at the end when
/// `idx` is past the last character.
pub open spec fn inserted(content: Seq<char>, idx: int, ch: char) -> Seq<char> {
    let k = if idx < content.len() { idx } else { content.len() as int };
    content.take(k).push(ch) + content.skip(k)
}

/// `content` without the character at `idx`; unchanged when there is none.
pub open spec fn removed(content: Seq<char>, idx: int) -> Seq<char> {
    if 0 <= idx < content.len() {
        content.remove(idx)
    } else {
        content
    }
}

impl Text {
    pub fn id(&self) -> (r: Option<&str>)
        ensures
            match r {
                Some(s) => self.id matches Some(own) && s@ == own@,
                None => self.id is None,
            },
    {
        match &self.id {
            Some(id) => Some(id.as_str()),
            None => None,
        }
    }

    /// Inserts `ch` before the character at position `idx`, or appends it
    /// when `idx` is past the end.
    pub fn insert(&mut self, idx: usize, ch: char)
        ensures
            final(self).content@ == inserted(old(self).content@, idx as int, ch),
            final(self).id == old(self).id,
            final(self).font_name == old(self).font_name,
            final(self).align == old(self).align,
    {
        let old_content = self.content.as_str();
        let len = old_content.unicode_len();
        let k = if idx < len { idx } else { len };
        let mut chars = old_content.chars();
        let mut content = String::new();
        let mut i: usize = 0;
        while i < len
            invariant
                len == old_content@.len(),
                k <= len,
                i <= len,
                old_content@ == old(self).content@,
                IteratorSpec::remaining(&chars) == old_content@.skip(i as int),
                content@ == if i <= k {
                    old_content@.take(i as int)
                } else {
                    old_content@.take(k as int).push(ch) + old_content@.subrange(k as int, i as int)
                },
            decreases len - i,
        {
            let c = chars.next().unwrap();
            assert(c == old_content@[i as int]);
            assert(IteratorSpec::remaining(&chars) == old_content@.skip(i as int + 1));
            if i == k {
                push_char(&mut content, ch);
            }
            push_char(&mut content, c);
            i += 1;
        }
        if k == len {
            push_char(&mut content, ch);
        }
        assert(content@ =~= inserted(old(self).content@, idx as int, ch));
        self.content = content;
    }

    /// Appends `ch`.
    pub fn push(&mut self, ch: char)
        ensures
            final(self).content@ == old(self).content@.push(ch),
            final(self).id == old(self).id,
            final(self).font_name == old(self).font_name,
            final(self).align == old(self).align,
    {
        push_char(&mut self.content, ch);
    }

    /// Removes the character at position `idx`, if there is one.
    pub fn remove(&mut self, idx: usize)
        ensures
            final(self).content@ == removed(old(self).content@, idx as int),
            final(self).id == old(self).id,
            final(self).font_name == old(self).font_name,
            final(self).align == old(self).align,
    {
        let old_content = self.content.as_str();
        let len = old_content.unicode_len();
        let mut chars = old_content.chars();
        let mut content = String::new();
        let mut i: usize = 0;
        while i < len
            invariant
                len == old_content@.len(),
                i <= len,
                old_content@ == old(self).content@,
                IteratorSpec::remaining(&chars) == old_content@.skip(i as int),
                content@ == if i <= idx {
                    old_content@.take(i as int)
                } else {
                    old_content@.take(idx as int) + old_content@.subrange(idx + 1, i as int)
                },
            decreases len - i,
        {
            let c = chars.next().unwrap();
            assert(c == old_content@[i as int]);
            assert(IteratorSpec::remaining(&chars) == old_content@.skip(i as int + 1));
            if i != idx {
                push_char(&mut content, c);
            }
            i += 1;
        }
        assert(content@ =~= removed(old(self).content@, idx as int));
        self.content = content;
    }
}

/// Inserting a character and then removing it at the same position gives
/// back the text; past the end, insertion is appending.
pub proof fn lemma_insert_then_remove(content: Seq<char>, idx: int, ch: char)
    requires
        0 <= idx <= content.len(),
    ensures
        removed(inserted(content, idx, ch), idx) == content,
        inserted(content, content.len() as int, ch) == content.push(ch),
        inserted(content, idx, ch).len() == content.len() + 1,
{
    assert(removed(inserted(content, idx, ch), idx) =~= content);
    assert(inserted(content, content.len() as int, ch) =~= content.push(ch));
}

/// Inserting anywhere at or past the end appends, and removing past the
/// end changes nothing.
pub proof fn lemma_edit_past_end(content: Seq<char>, idx: int, ch: char)
    requires
        idx >= content.len(),
    ensures
        inserted(content, idx, ch) == content.push(ch),
        removed(content, idx) == content,
{
    assert(inserted(content, idx, ch) =~= content.push(ch));
}

} // verus!
