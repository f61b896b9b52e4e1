//! The fields of a record: its runs of characters between white space.

use super::ParseError;
use vstd::prelude::*;
use vstd::string::StrSliceExecFns;

verus! {

/// Whether `character` is white space: a character with the Unicode
/// property `White_Space`.
pub open spec fn spec_is_whitespace(character: char) -> bool {
    let code = character as u32;
    ||| 0x09 <= code <= 0x0d
    ||| code == 0x20
    ||| code == 0x85
    ||| code == 0xa0
    ||| code == 0x1680
    ||| 0x2000 <= code <= 0x200a
    ||| code == 0x2028
    ||| code == 0x2029
    ||| code == 0x202f
    ||| code == 0x205f
    ||| code == 0x3000
}

/// Whether `character` is white space.
#[verifier::when_used_as_spec(spec_is_whitespace)]
pub fn is_whitespace(character: char) -> (white: bool)
    ensures
        white == spec_is_whitespace(character),
{
    ('\u{9}' <= character && character <= '\u{d}') || character == '\u{20}' || character
        == '\u{85}' || character == '\u{a0}' || character == '\u{1680}' || ('\u{2000}'
        <= character && character <= '\u{200a}') || character == '\u{2028}' || character
        == '\u{2029}' || character == '\u{202f}' || character == '\u{205f}' || character
        == '\u{3000}'
}

/// The place of the first character of `text` at or after `from` that is
/// not white space, or the length of `text` if there is none.
pub open spec fn spec_field_start(text: Seq<char>, from: int) -> int
    decreases text.len() - from,
{
    if from < 0 || from >= text.len() {
        text.len() as int
    } else if !spec_is_whitespace(text[from]) {
        from
    } else {
        spec_field_start(text, from + 1)
    }
}

/// The place of the first character of `text` at or after `from` that is
/// white space, or the length of `text` if there is none.
pub open spec fn spec_field_end(text: Seq<char>, from: int) -> int
    decreases text.len() - from,
{
    if from < 0 || from >= text.len() {
        text.len() as int
    } else if spec_is_whitespace(text[from]) {
        from
    } else {
        spec_field_end(text, from + 1)
    }
}

/// The next field of `text` at or after `from`, with the place where it
/// ends: the longest run of characters that are not white space, after any
/// white space at `from`. There is none if only white space is left.
pub open spec fn spec_next_field(text: Seq<char>, from: int) -> Option<(Seq<char>, int)> {
    let start = spec_field_start(text, from);
    if start >= text.len() {
        None
    } else {
        let end = spec_field_end(text, start);
        Some((text.subrange(start, end), end))
    }
}

/// A field starts where `spec_field_start` says, within the text, at a
/// character that is not white space.
pub proof fn lemma_field_start(text: Seq<char>, from: int)
    requires
        0 <= from <= text.len(),
    ensures
        from <= spec_field_start(text, from) <= text.len(),
        spec_field_start(text, from) < text.len() ==> !spec_is_whitespace(
            text[spec_field_start(text, from)],
        ),
        forall|i: int|
            from <= i < spec_field_start(text, from) ==> spec_is_whitespace(#[trigger] text[i]),
    decreases text.len() - from,
{
    if from < text.len() && spec_is_whitespace(text[from]) {
        lemma_field_start(text, from + 1);
    }
}

/// A field ends where `spec_field_end` says: it holds no white space, and
/// white space or the end of the text follows it.
pub proof fn lemma_field_end(text: Seq<char>, from: int)
    requires
        0 <= from <= text.len(),
    ensures
        from <= spec_field_end(text, from) <= text.len(),
        spec_field_end(text, from) < text.len() ==> spec_is_whitespace(
            text[spec_field_end(text, from)],
        ),
        forall|i: int|
            from <= i < spec_field_end(text, from) ==> !spec_is_whitespace(#[trigger] text[i]),
        from < text.len() && !spec_is_whitespace(text[from]) ==> from < spec_field_end(text, from),
    decreases text.len() - from,
{
    if from < text.len() && !spec_is_whitespace(text[from]) {
        lemma_field_end(text, from + 1);
    }
}

/// Walks over the fields of a record, one after the other.
pub struct FieldIterator<'a> {
    text: &'a str,
    length: usize,
    position: usize,
}

impl<'a> FieldIterator<'a> {
    #[verifier::type_invariant]
    spec fn well_formed(self) -> bool {
        self.length == self.text@.len() && self.position <= self.length
    }

    /// The text that is walked over.
    pub closed spec fn text(&self) -> Seq<char> {
        self.text@
    }

    /// How many characters of the text have been walked over.
    pub closed spec fn position(&self) -> int {
        self.position as int
    }

    /// A walk over the fields of `specification`, from its start.
    pub fn new(specification: &'a str) -> (fields: FieldIterator<'a>)
        ensures
            fields.text() == specification@,
            fields.position() == 0,
    {
        FieldIterator { text: specification, length: specification.unicode_len(), position: 0 }
    }

    /// The next field, or `UnexpectedEnd` if only white space is left.
    pub fn next(&mut self) -> (field: Result<&'a str, ParseError>)
        ensures
            final(self).text() == old(self).text(),
            match spec_next_field(old(self).text(), old(self).position()) {
                Some((text, end)) => {
                    &&& field matches Ok(found) && found@ == text
                    &&& final(self).position() == end
                },
                None => {
                    &&& field == Err::<&str, ParseError>(ParseError::UnexpectedEnd)
                    &&& final(self).position() == old(self).text().len()
                },
            },
    {
        proof {
            use_type_invariant(&*self);
        }
        let text = self.text;
        let length = self.length;
        let ghost from = self.position as int;
        let mut start: usize = self.position;
        while start < length && is_whitespace(text.get_char(start))
            invariant
                from <= start <= length,
                length == text@.len(),
                spec_field_start(text@, start as int) == spec_field_start(text@, from),
            decreases length - start,
        {
            start = start + 1;
        }
        if start >= length {
            self.position = length;
            return Err(ParseError::UnexpectedEnd);
        }
        let mut end: usize = start;
        while end < length && !is_whitespace(text.get_char(end))
            invariant
                start <= end <= length,
                length == text@.len(),
                spec_field_end(text@, end as int) == spec_field_end(text@, start as int),
            decreases length - end,
        {
            end = end + 1;
        }
        self.position = end;
        Ok(text.substring_char(start, end))
    }
}

} // verus!
