//! The search for a piece of text on the cursor's line, forward and backward.

use crate::display::{Bias, DisplayPoint, DisplaySnapshot, Document, Point};
use vstd::prelude::*;

verus! {

/// Whether `target` stands in `line` from `column` on. The empty text stands
/// nowhere.
pub open spec fn occurs_at(line: Seq<char>, column: int, target: Seq<char>) -> bool {
    &&& target.len() > 0
    &&& 0 <= column
    &&& column + target.len() <= line.len()
    &&& line.subrange(column, column + target.len()) == target
}

/// Where the `times`-th occurrence of `target` starts, counting those that
/// start at `column` or later.
pub open spec fn nth_occurrence_from(
    line: Seq<char>,
    column: int,
    target: Seq<char>,
    times: int,
) -> Option<int>
    decreases line.len() - column,
{
    if column < 0 || column >= line.len() {
        None
    } else if occurs_at(line, column, target) {
        if times <= 1 {
            Some(column)
        } else {
            nth_occurrence_from(line, column + 1, target, times - 1)
        }
    } else {
        nth_occurrence_from(line, column + 1, target, times)
    }
}

/// Where the `times`-th occurrence of `target` ends, counting backward those
/// that end at `column` or earlier. An occurrence ends behind its last
/// character.
pub open spec fn nth_occurrence_until(
    line: Seq<char>,
    column: int,
    target: Seq<char>,
    times: int,
) -> Option<int>
    decreases column,
{
    if column <= 0 || column > line.len() {
        None
    } else if occurs_at(line, column - target.len(), target) {
        if times <= 1 {
            Some(column)
        } else {
            nth_occurrence_until(line, column - 1, target, times - 1)
        }
    } else {
        nth_occurrence_until(line, column - 1, target, times)
    }
}

impl Document {
    /// The `times`-th occurrence of `target` that starts after the cursor on
    /// its line: its first character, or with `before` the position in front
    /// of it. Where there are fewer occurrences, `from` itself.
    pub open spec fn find_forward(
        self,
        from: Point,
        before: bool,
        target: Seq<char>,
        times: int,
    ) -> Point {
        let start = self.clamp(from);
        match nth_occurrence_from(self.line(start.row), start.column + 1, target, times) {
            Some(column) => if before {
                self.clip(Point { row: start.row, column: column - 1 })
            } else {
                Point { row: start.row, column }
            },
            None => from,
        }
    }

    /// The `times`-th occurrence of `target` that ends before the cursor on
    /// its line, counting backward: its last character, or with `after` the
    /// position behind it. Where there are fewer occurrences, `from` itself.
    pub open spec fn find_backward(
        self,
        from: Point,
        after: bool,
        target: Seq<char>,
        times: int,
    ) -> Point {
        let start = self.clamp(from);
        match nth_occurrence_until(self.line(start.row), start.column, target, times) {
            Some(column) => if after {
                self.clip(Point { row: start.row, column })
            } else {
                Point { row: start.row, column: column - 1 }
            },
            None => from,
        }
    }
}

/// The characters of a string.
pub fn chars_of(text: &str) -> (chars: Vec<char>)
    ensures
        chars@ == text@,
{
    broadcast use vstd::string::axiom_spec_iter;

    let mut chars: Vec<char> = Vec::new();
    for c in it: text.chars()
        invariant
            it.seq() == text@,
            chars@ == text@.take(it.index() as int),
    {
        chars.push(c);
        assert(chars@ =~= text@.take(it.index() + 1));
    }
    assert(text@.take(text@.len() as int) =~= text@);
    chars
}

/// Tests whether `target` stands in `line` from `column` on.
pub fn is_occurrence(line: &Vec<char>, column: usize, target: &Vec<char>) -> (found: bool)
    ensures
        found == occurs_at(line@, column as int, target@),
{
    let n = target.len();
    if n == 0 || column > line.len() || n > line.len() - column {
        return false;
    }
    let mut k: usize = 0;
    while k < n
        invariant
            n == target@.len(),
            column + n <= line@.len() <= usize::MAX,
            k <= n,
            forall|i: int| 0 <= i < k ==> line@[column + i] == target@[i],
        decreases n - k,
    {
        if line[column + k] != target[k] {
            assert(line@.subrange(column as int, column + n)[k as int] != target@[k as int]);
            return false;
        }
        k += 1;
    }
    assert(line@.subrange(column as int, column + n) =~= target@);
    true
}

/// Searches forward on the line of `from` for the `times`-th occurrence of
/// `target` after `from`.
pub fn find_forward(
    map: &DisplaySnapshot,
    from: DisplayPoint,
    before: bool,
    target: &str,
    times: usize,
) -> (moved: DisplayPoint)
    requires
        map@.wf(),
        times >= 1,
    ensures
        moved@ == map@.find_forward(from@, before, target@, times as int),
{
    let start = map.clamp(from);
    let line = map.line(start.row);
    let pattern = chars_of(target);
    let mut remaining: usize = times;
    if start.column >= line.len() {
        return from;
    }
    let mut column: usize = start.column + 1;
    while column < line.len()
        invariant
            map@.wf(),
            start@ == map@.clamp(from@),
            line@ == map@.line(start@.row),
            pattern@ == target@,
            remaining >= 1,
            1 <= column <= line@.len(),
            nth_occurrence_from(line@, column as int, target@, remaining as int)
                == nth_occurrence_from(line@, start@.column + 1, target@, times as int),
        decreases line@.len() - column,
    {
        if is_occurrence(line, column, &pattern) {
            if remaining <= 1 {
                if before {
                    return map.clip_point(
                        DisplayPoint { row: start.row, column: column - 1 },
                        Bias::Right,
                    );
                } else {
                    return DisplayPoint { row: start.row, column };
                }
            }
            remaining -= 1;
        }
        column += 1;
    }
    from
}

/// Searches backward on the line of `from` for the `times`-th occurrence of
/// `target` before `from`.
pub fn find_backward(
    map: &DisplaySnapshot,
    from: DisplayPoint,
    after: bool,
    target: &str,
    times: usize,
) -> (moved: DisplayPoint)
    requires
        map@.wf(),
        times >= 1,
    ensures
        moved@ == map@.find_backward(from@, after, target@, times as int),
{
    let start = map.clamp(from);
    let line = map.line(start.row);
    let pattern = chars_of(target);
    let n = pattern.len();
    let mut remaining: usize = times;
    let mut column: usize = start.column;
    while column > 0
        invariant
            map@.wf(),
            start@ == map@.clamp(from@),
            line@ == map@.line(start@.row),
            pattern@ == target@,
            n == target@.len(),
            remaining >= 1,
            column <= line@.len(),
            nth_occurrence_until(line@, column as int, target@, remaining as int)
                == nth_occurrence_until(line@, start@.column, target@, times as int),
        decreases column,
    {
        if n <= column && is_occurrence(line, column - n, &pattern) {
            if remaining <= 1 {
                if after {
                    return map.clip_point(DisplayPoint { row: start.row, column }, Bias::Left);
                } else {
                    return DisplayPoint { row: start.row, column: column - 1 };
                }
            }
            remaining -= 1;
        }
        column -= 1;
    }
    from
}

} // verus!
