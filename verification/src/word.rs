//! Motions by words: to the start of the next word, to the end of the next
//! word, and to the start of the previous one.

use crate::chars::{char_kind, kind_of, CharKind};
use crate::display::{Bias, DisplayPoint, DisplaySnapshot, Document, Point};
use crate::movement::{find_boundary, find_preceding_boundary, repeated, BoundaryPredicate};
use vstd::prelude::*;

verus! {

/// The boundary at which a word starts, looking forward. Line breaks count as
/// well: the second one that a scan meets, and one that follows another
/// directly, so that empty lines are not skipped.
pub struct WordStartBoundary {
    pub ignore_punctuation: bool,
    /// Whether the scan has met a line break.
    pub crossed_newline: bool,
}

impl BoundaryPredicate for WordStartBoundary {
    open spec fn fires(&self, left: char, right: char) -> bool {
        let left_kind = kind_of(left).coerced(self.ignore_punctuation);
        let right_kind = kind_of(right).coerced(self.ignore_punctuation);
        ||| (left_kind != right_kind && right_kind != CharKind::Whitespace)
        ||| (right == '\n' && self.crossed_newline)
        ||| (right == '\n' && left == '\n')
    }

    open spec fn after(&self, left: char, right: char) -> Self {
        WordStartBoundary {
            ignore_punctuation: self.ignore_punctuation,
            crossed_newline: self.crossed_newline || right == '\n',
        }
    }

    fn is_boundary(&mut self, left: char, right: char) -> (found: bool) {
        let left_kind = char_kind(left).coerce_punctuation(self.ignore_punctuation);
        let right_kind = char_kind(right).coerce_punctuation(self.ignore_punctuation);
        let at_newline = right == '\n';
        let found = (left_kind != right_kind && right_kind != CharKind::Whitespace) || (at_newline
            && self.crossed_newline) || (at_newline && left == '\n');
        self.crossed_newline = self.crossed_newline || at_newline;
        found
    }
}

/// The boundary behind the last character of a word.
pub struct WordEndBoundary {
    pub ignore_punctuation: bool,
}

impl BoundaryPredicate for WordEndBoundary {
    open spec fn fires(&self, left: char, right: char) -> bool {
        let left_kind = kind_of(left).coerced(self.ignore_punctuation);
        let right_kind = kind_of(right).coerced(self.ignore_punctuation);
        left_kind != right_kind && left_kind != CharKind::Whitespace
    }

    open spec fn after(&self, left: char, right: char) -> Self {
        *self
    }

    fn is_boundary(&mut self, left: char, right: char) -> (found: bool) {
        let left_kind = char_kind(left).coerce_punctuation(self.ignore_punctuation);
        let right_kind = char_kind(right).coerce_punctuation(self.ignore_punctuation);
        left_kind != right_kind && left_kind != CharKind::Whitespace
    }
}

/// The boundary at which a word starts, looking backward; the start of every
/// line counts as one.
pub struct PreviousWordStartBoundary {
    pub ignore_punctuation: bool,
}

impl BoundaryPredicate for PreviousWordStartBoundary {
    open spec fn fires(&self, left: char, right: char) -> bool {
        let left_kind = kind_of(left).coerced(self.ignore_punctuation);
        let right_kind = kind_of(right).coerced(self.ignore_punctuation);
        (left_kind != right_kind && !crate::chars::whitespace(right)) || left == '\n'
    }

    open spec fn after(&self, left: char, right: char) -> Self {
        *self
    }

    fn is_boundary(&mut self, left: char, right: char) -> (found: bool) {
        let left_kind = char_kind(left).coerce_punctuation(self.ignore_punctuation);
        let right_kind = char_kind(right).coerce_punctuation(self.ignore_punctuation);
        (left_kind != right_kind && !right.is_whitespace()) || left == '\n'
    }
}

impl Document {
    /// The start of the word after `p`.
    pub open spec fn word_start_after(self, p: Point, ignore_punctuation: bool) -> Point {
        self.find_boundary(p, WordStartBoundary { ignore_punctuation, crossed_newline: false })
    }

    /// Whether the character after the one at `p` is a line break, or there
    /// is no such character.
    pub open spec fn line_break_follows(self, p: Point) -> bool {
        ||| p == self.max_point()
        ||| self.next(p) == self.max_point()
        ||| self.char_at(self.next(p)) == '\n'
    }

    /// The last character of the word that ends after `p`. The scan starts one
    /// column on and stops behind the word; from there the cursor steps back
    /// onto the word, unless clipping at the end of the line has done so
    /// already.
    pub open spec fn word_end_after(self, p: Point, ignore_punctuation: bool) -> Point {
        let q = self.find_boundary(
            Point { row: p.row, column: p.column + 1 },
            WordEndBoundary { ignore_punctuation },
        );
        if self.line_break_follows(q) {
            self.clip(q)
        } else {
            self.clip(
                Point {
                    row: q.row,
                    column: if q.column > 0 {
                        q.column - 1
                    } else {
                        0
                    },
                },
            )
        }
    }

    /// The start of the word before `p`.
    pub open spec fn word_start_before(self, p: Point, ignore_punctuation: bool) -> Point {
        self.find_preceding_boundary(p, PreviousWordStartBoundary { ignore_punctuation })
    }

    /// `times` words forward, to the start of a word.
    pub open spec fn next_word_start(self, p: Point, ignore_punctuation: bool, times: int) -> Point {
        repeated(|q: Point| self.word_start_after(q, ignore_punctuation), times, p)
    }

    /// `times` words forward, to the end of a word.
    pub open spec fn next_word_end(self, p: Point, ignore_punctuation: bool, times: int) -> Point {
        repeated(|q: Point| self.word_end_after(q, ignore_punctuation), times, p)
    }

    /// `times` words backward, to the start of a word.
    pub open spec fn previous_word_start(
        self,
        p: Point,
        ignore_punctuation: bool,
        times: int,
    ) -> Point {
        repeated(|q: Point| self.word_start_before(q, ignore_punctuation), times, p)
    }
}

/// Moves to the start of the next word, `times` times.
pub fn next_word_start(
    map: &DisplaySnapshot,
    point: DisplayPoint,
    ignore_punctuation: bool,
    times: usize,
) -> (moved: DisplayPoint)
    requires
        map@.wf(),
    ensures
        moved@ == map@.next_word_start(point@, ignore_punctuation, times as int),
        times > 0 ==> map@.contains(moved@),
{
    let mut current = point;
    for i in 0..times
        invariant
            map@.wf(),
            map@.next_word_start(current@, ignore_punctuation, times - i)
                == map@.next_word_start(point@, ignore_punctuation, times as int),
            i > 0 ==> map@.contains(current@),
    {
        current =
        find_boundary(
            map,
            current,
            WordStartBoundary { ignore_punctuation, crossed_newline: false },
        );
    }
    current
}

/// Moves to the end of the next word, `times` times.
pub fn next_word_end(
    map: &DisplaySnapshot,
    point: DisplayPoint,
    ignore_punctuation: bool,
    times: usize,
) -> (moved: DisplayPoint)
    requires
        map@.wf(),
    ensures
        moved@ == map@.next_word_end(point@, ignore_punctuation, times as int),
        times > 0 ==> map@.contains(moved@),
{
    let end = map.max_point();
    let mut current = point;
    for i in 0..times
        invariant
            map@.wf(),
            end@ == map@.max_point(),
            map@.next_word_end(current@, ignore_punctuation, times - i) == map@.next_word_end(
                point@,
                ignore_punctuation,
                times as int,
            ),
            i > 0 ==> map@.contains(current@),
    {
        let len = map.line_len(current.row);
        let column: usize = if current.column < len {
            current.column + 1
        } else {
            len
        };
        let start = DisplayPoint { row: current.row, column };
        assert(map@.clamp(start@) == map@.clamp(
            Point { row: current@.row, column: current@.column + 1 },
        ));
        let found = find_boundary(map, start, WordEndBoundary { ignore_punctuation });
        let stays = if found == end {
            true
        } else {
            let after = map.next_point(found);
            if after == end {
                true
            } else {
                map.char_at(after) == '\n'
            }
        };
        let target = if stays {
            found
        } else {
            DisplayPoint {
                row: found.row,
                column: if found.column > 0 {
                    found.column - 1
                } else {
                    0
                },
            }
        };
        current = map.clip_point(target, Bias::Left);
    }
    current
}

/// Moves to the start of the previous word, `times` times.
pub fn previous_word_start(
    map: &DisplaySnapshot,
    point: DisplayPoint,
    ignore_punctuation: bool,
    times: usize,
) -> (moved: DisplayPoint)
    requires
        map@.wf(),
    ensures
        moved@ == map@.previous_word_start(point@, ignore_punctuation, times as int),
        times > 0 ==> map@.contains(moved@),
{
    let mut current = point;
    for i in 0..times
        invariant
            map@.wf(),
            map@.previous_word_start(current@, ignore_punctuation, times - i)
                == map@.previous_word_start(point@, ignore_punctuation, times as int),
            i > 0 ==> map@.contains(current@),
    {
        current =
        find_preceding_boundary(map, current, PreviousWordStartBoundary { ignore_punctuation });
    }
    current
}

} // verus!
