//! Character classes that word motions are built on.

use vstd::prelude::*;

verus! {

/// Whether a character has the Unicode property `White_Space`.
pub uninterp spec fn unicode_whitespace(c: char) -> bool;

/// Whether a character is alphabetic or numeric in Unicode's sense.
pub uninterp spec fn unicode_alphanumeric(c: char) -> bool;

/// `char::is_whitespace` of std: its answer is a fixed property of the
/// character, named [`unicode_whitespace`] here, and it holds of the line break.
pub assume_specification[ char::is_whitespace ](c: char) -> (b: bool)
    ensures
        b == unicode_whitespace(c),
        c == '\n' ==> b,
;

/// `char::is_alphanumeric` of std: its answer is a fixed property of the
/// character, named [`unicode_alphanumeric`] here.
pub assume_specification[ char::is_alphanumeric ](c: char) -> (b: bool)
    ensures
        b == unicode_alphanumeric(c),
;

/// Whether a character is whitespace: the line break, and whatever else has
/// the Unicode property.
pub open spec fn whitespace(c: char) -> bool {
    c == '\n' || unicode_whitespace(c)
}

/// The class of a character, as word motions see it.
#[derive(Clone, Copy, Debug, PartialEq, Eq, Structural)]
pub enum CharKind {
    Whitespace,
    Punctuation,
    Word,
}

/// The class of `c`: whitespace first, then letters, digits and `_` as word
/// characters, and everything else as punctuation.
pub open spec fn kind_of(c: char) -> CharKind {
    if whitespace(c) {
        CharKind::Whitespace
    } else if unicode_alphanumeric(c) || c == '_' {
        CharKind::Word
    } else {
        CharKind::Punctuation
    }
}

/// Classifies a character.
pub fn char_kind(c: char) -> (kind: CharKind)
    ensures
        kind == kind_of(c),
{
    if c.is_whitespace() {
        CharKind::Whitespace
    } else if c.is_alphanumeric() || c == '_' {
        CharKind::Word
    } else {
        CharKind::Punctuation
    }
}

impl CharKind {
    /// The class with punctuation counted as part of words, if asked to.
    pub open spec fn coerced(self, ignore_punctuation: bool) -> CharKind {
        if ignore_punctuation && self == CharKind::Punctuation {
            CharKind::Word
        } else {
            self
        }
    }

    /// Folds `Punctuation` into `Word` when `ignore_punctuation` is set.
    pub fn coerce_punctuation(self, ignore_punctuation: bool) -> (kind: CharKind)
        ensures
            kind == self.coerced(ignore_punctuation),
    {
        if ignore_punctuation && self == CharKind::Punctuation {
            CharKind::Word
        } else {
            self
        }
    }
}

} // verus!
