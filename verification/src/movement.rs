//! Single steps of the cursor, and the scans that longer motions are built
//! from.

use crate::display::{Bias, DisplayPoint, DisplaySnapshot, Document, Point};
use crate::selection::SelectionGoal;
use vstd::prelude::*;

verus! {

/// A test for a boundary between two neighbouring characters. It may remember
/// what it has been shown: a scan shows it every pair it passes, in order.
pub trait BoundaryPredicate: Sized {
    /// Whether the predicate, in its present state, sees a boundary between
    /// `left` and `right`.
    spec fn fires(&self, left: char, right: char) -> bool;

    /// The predicate once it has been shown the pair.
    spec fn after(&self, left: char, right: char) -> Self;

    /// Shows the predicate a pair and asks whether a boundary lies in it.
    fn is_boundary(&mut self, left: char, right: char) -> (found: bool)
        ensures
            found == old(self).fires(left, right),
            *final(self) == old(self).after(left, right),
    ;
}

/// `step` applied `times` times, starting from `start`.
pub open spec fn repeated<A>(step: spec_fn(A) -> A, times: int, start: A) -> A
    decreases times,
{
    if times <= 0 {
        start
    } else {
        repeated(step, times - 1, step(start))
    }
}

/// Where a step leaves a value as it is, so does any number of steps.
pub proof fn lemma_repeated_fixed<A>(step: spec_fn(A) -> A, times: int, start: A)
    requires
        step(start) == start,
    ensures
        repeated(step, times, start) == start,
    decreases times,
{
    if times > 0 {
        lemma_repeated_fixed(step, times - 1, start);
    }
}

/// The column that a vertical step aims for: the remembered one, or the
/// cursor's own.
pub open spec fn goal_column(p: Point, goal: Option<int>) -> int {
    match goal {
        Some(column) => column,
        None => p.column,
    }
}

impl Document {
    /// One column to the left, never leaving the row.
    pub open spec fn saturating_left(self, p: Point) -> Point {
        self.clip(
            Point {
                row: p.row,
                column: if p.column > 0 {
                    p.column - 1
                } else {
                    p.column
                },
            },
        )
    }

    /// One character back, onto the end of the row above where the row has no
    /// more columns.
    pub open spec fn left(self, p: Point) -> Point {
        self.clip(
            if p.column > 0 {
                Point { row: p.row, column: p.column - 1 }
            } else if p.row > 0 {
                Point { row: p.row - 1, column: self.line_len(p.row - 1) }
            } else {
                p
            },
        )
    }

    /// One column to the right, never leaving the row.
    pub open spec fn saturating_right(self, p: Point) -> Point {
        self.clip(Point { row: p.row, column: p.column + 1 })
    }

    /// One row down on the goal column. On the last row nothing moves, and the
    /// goal stays as it was.
    pub open spec fn down(self, p: Point, goal: Option<int>) -> (Point, Option<int>) {
        if p.row < self.max_row() {
            let column = goal_column(p, goal);
            (self.clip(Point { row: p.row + 1, column }), Some(column))
        } else {
            (p, goal)
        }
    }

    /// One row up on the goal column. On the first row nothing moves, and the
    /// goal stays as it was.
    pub open spec fn up(self, p: Point, goal: Option<int>) -> (Point, Option<int>) {
        if self.clamp_row(p.row - 1) < p.row {
            let column = goal_column(p, goal);
            (self.clip(Point { row: p.row - 1, column }), Some(column))
        } else {
            (p, goal)
        }
    }
}

impl Document {
    /// The first position from `p` on at which `pred` fires, where `left` is
    /// the character before `p` and every position passed is shown to the
    /// predicate; the end of the document if it never fires.
    pub open spec fn boundary_from<P: BoundaryPredicate>(
        self,
        pred: P,
        left: char,
        p: Point,
    ) -> Point
        decreases self.max_row() - p.row, self.line_len(p.row) - p.column,
    {
        if !self.contains(p) || p == self.max_point() {
            self.max_point()
        } else if pred.fires(left, self.char_at(p)) {
            p
        } else {
            self.boundary_from(
                pred.after(left, self.char_at(p)),
                self.char_at(p),
                self.next(p),
            )
        }
    }

    /// The first boundary strictly after `from`, made a valid cursor
    /// position; the end of the document if there is none.
    pub open spec fn find_boundary<P: BoundaryPredicate>(self, from: Point, pred: P) -> Point {
        let start = self.clamp(from);
        if start == self.max_point() {
            self.clip(start)
        } else {
            self.clip(self.boundary_from(pred, self.char_at(start), self.next(start)))
        }
    }

    /// The last position from `p` back at which `pred` fires, where `right`
    /// is the character at `p` and every position passed is shown to the
    /// predicate; the start of the document if it never fires.
    pub open spec fn preceding_boundary_from<P: BoundaryPredicate>(
        self,
        pred: P,
        right: char,
        p: Point,
    ) -> Point
        decreases p.row, p.column,
    {
        if !self.contains(p) || (p.row == 0 && p.column == 0) {
            Point { row: 0, column: 0 }
        } else if pred.fires(self.char_at(self.prev(p)), right) {
            p
        } else {
            self.preceding_boundary_from(
                pred.after(self.char_at(self.prev(p)), right),
                self.char_at(self.prev(p)),
                self.prev(p),
            )
        }
    }

    /// The last boundary strictly before `from`, made a valid cursor
    /// position; the start of the document if there is none.
    pub open spec fn find_preceding_boundary<P: BoundaryPredicate>(
        self,
        from: Point,
        pred: P,
    ) -> Point {
        let start = self.clamp(from);
        if start.row == 0 && start.column == 0 {
            self.clip(start)
        } else {
            self.clip(
                self.preceding_boundary_from(
                    pred,
                    self.char_at(self.prev(start)),
                    self.prev(start),
                ),
            )
        }
    }
}

impl Document {
    /// Walks down from `row`, counting the places where a blank row follows a
    /// row that is not blank, and stops at the start of the blank row of the
    /// `count`-th such place; the end of the document if there are fewer.
    /// `found` says whether a row that is not blank has been passed since the
    /// last such place.
    pub open spec fn paragraph_end_from(self, row: int, found: bool, count: int) -> Point
        decreases self.max_row() - row + 1,
    {
        if row < 0 || row > self.max_row() {
            self.max_point()
        } else if found && self.is_line_blank(row) {
            if count <= 1 {
                Point { row, column: 0 }
            } else {
                self.paragraph_end_from(row + 1, false, count - 1)
            }
        } else {
            self.paragraph_end_from(row + 1, found || !self.is_line_blank(row), count)
        }
    }

    /// The start of the blank row that ends the `count`-th paragraph from `p`
    /// on. From the last row, and where there are fewer paragraphs, this is
    /// the end of the document.
    pub open spec fn end_of_paragraph(self, p: Point, count: int) -> Point {
        if self.clamp_row(p.row) == self.max_row() {
            self.max_point()
        } else {
            self.paragraph_end_from(self.clamp_row(p.row), false, count)
        }
    }

    /// Walks up from `row`, counting the places where a blank row precedes a
    /// row that is not blank, and stops at the start of the blank row of the
    /// `count`-th such place; the start of the document if there are fewer.
    pub open spec fn paragraph_start_from(self, row: int, found: bool, count: int) -> Point
        decreases row + 1,
    {
        if row < 0 || row > self.max_row() {
            Point { row: 0, column: 0 }
        } else if found && self.is_line_blank(row) {
            if count <= 1 {
                Point { row, column: 0 }
            } else {
                self.paragraph_start_from(row - 1, false, count - 1)
            }
        } else {
            self.paragraph_start_from(row - 1, found || !self.is_line_blank(row), count)
        }
    }

    /// The start of the blank row that precedes the `count`-th paragraph from
    /// `p` back; the start of the document where there are fewer.
    pub open spec fn start_of_paragraph(self, p: Point, count: int) -> Point {
        self.paragraph_start_from(self.clamp_row(p.row), false, count)
    }
}

/// Moves to the blank row before the paragraph that `point` is in or after,
/// `count` paragraphs back.
pub fn start_of_paragraph(map: &DisplaySnapshot, point: DisplayPoint, count: usize) -> (found:
    DisplayPoint)
    requires
        map@.wf(),
    ensures
        found@ == map@.start_of_paragraph(point@, count as int),
        map@.contains(found@),
{
    let start = map.clamp(point);
    let mut remaining: usize = count;
    let mut found_non_blank_line = false;
    let max_row = map.max_buffer_row();
    assert(start.row <= max_row);
    let mut next: usize = start.row + 1;
    while next > 0
        invariant
            map@.wf(),
            next <= map@.max_row() + 1,
            map@.paragraph_start_from(next - 1, found_non_blank_line, remaining as int)
                == map@.start_of_paragraph(point@, count as int),
        decreases next,
    {
        let row = next - 1;
        let blank = map.is_line_blank(row);
        if found_non_blank_line && blank {
            if remaining <= 1 {
                return DisplayPoint { row, column: 0 };
            }
            remaining -= 1;
            found_non_blank_line = false;
        }
        found_non_blank_line = found_non_blank_line || !blank;
        next = row;
    }
    DisplayPoint::zero()
}

/// Moves to the blank row after the paragraph that `point` is in or before,
/// `count` paragraphs on.
pub fn end_of_paragraph(map: &DisplaySnapshot, point: DisplayPoint, count: usize) -> (found:
    DisplayPoint)
    requires
        map@.wf(),
    ensures
        found@ == map@.end_of_paragraph(point@, count as int),
        map@.contains(found@),
{
    let start = map.clamp(point);
    let max_row = map.max_buffer_row();
    if start.row == max_row {
        return map.max_point();
    }
    let mut remaining: usize = count;
    let mut found_non_blank_line = false;
    let mut row: usize = start.row;
    while row <= max_row
        invariant
            map@.wf(),
            max_row == map@.max_row(),
            max_row < usize::MAX,
            map@.clamp_row(point@.row) != map@.max_row(),
            map@.paragraph_end_from(row as int, found_non_blank_line, remaining as int)
                == map@.end_of_paragraph(point@, count as int),
        decreases max_row + 1 - row,
    {
        let blank = map.is_line_blank(row);
        if found_non_blank_line && blank {
            if remaining <= 1 {
                return DisplayPoint { row, column: 0 };
            }
            remaining -= 1;
            found_non_blank_line = false;
        }
        found_non_blank_line = found_non_blank_line || !blank;
        row += 1;
    }
    map.max_point()
}

/// Scans forward from `from` and stops at the first position where
/// `is_boundary` fires on the characters to its left and right. The first pair
/// shown to it is the character at `from` and the one after it.
pub fn find_boundary<P: BoundaryPredicate>(
    map: &DisplaySnapshot,
    from: DisplayPoint,
    is_boundary: P,
) -> (found: DisplayPoint)
    requires
        map@.wf(),
    ensures
        found@ == map@.find_boundary(from@, is_boundary),
        map@.contains(found@),
{
    let mut pred = is_boundary;
    let start = map.clamp(from);
    let end = map.max_point();
    if start == end {
        return map.clip_point(start, Bias::Right);
    }
    let mut left = map.char_at(start);
    let mut point = map.next_point(start);
    loop
        invariant
            map@.wf(),
            end@ == map@.max_point(),
            start@ == map@.clamp(from@),
            start@ != map@.max_point(),
            map@.contains(point@),
            map@.boundary_from(pred, left, point@) == map@.boundary_from(
                is_boundary,
                map@.char_at(start@),
                map@.next(start@),
            ),
        decreases map@.max_row() - point@.row, map@.line_len(point@.row) - point@.column,
    {
        if point == end {
            return map.clip_point(end, Bias::Right);
        }
        let right = map.char_at(point);
        if pred.is_boundary(left, right) {
            return map.clip_point(point, Bias::Right);
        }
        left = right;
        point = map.next_point(point);
    }
}

/// Scans backward from `from` and stops at the last position where
/// `is_boundary` fires on the characters to its left and right. The first pair
/// shown to it is the two characters before `from`.
pub fn find_preceding_boundary<P: BoundaryPredicate>(
    map: &DisplaySnapshot,
    from: DisplayPoint,
    is_boundary: P,
) -> (found: DisplayPoint)
    requires
        map@.wf(),
    ensures
        found@ == map@.find_preceding_boundary(from@, is_boundary),
        map@.contains(found@),
{
    let mut pred = is_boundary;
    let start = map.clamp(from);
    if start.row == 0 && start.column == 0 {
        return map.clip_point(start, Bias::Left);
    }
    let mut point = map.prev_point(start);
    let mut right = map.char_at(point);
    loop
        invariant
            map@.wf(),
            start@ == map@.clamp(from@),
            !(start@.row == 0 && start@.column == 0),
            map@.contains(point@),
            point@ != map@.max_point(),
            map@.preceding_boundary_from(pred, right, point@) == map@.preceding_boundary_from(
                is_boundary,
                map@.char_at(map@.prev(start@)),
                map@.prev(start@),
            ),
        decreases point@.row, point@.column,
    {
        if point.row == 0 && point.column == 0 {
            return map.clip_point(point, Bias::Left);
        }
        let before = map.prev_point(point);
        let left = map.char_at(before);
        if pred.is_boundary(left, right) {
            return map.clip_point(point, Bias::Left);
        }
        right = left;
        point = before;
    }
}

/// Moves one column to the left within the row.
pub fn saturating_left(map: &DisplaySnapshot, point: DisplayPoint) -> (moved: DisplayPoint)
    requires
        map@.wf(),
    ensures
        moved@ == map@.saturating_left(point@),
        map@.contains(moved@),
{
    let column: usize = if point.column > 0 {
        point.column - 1
    } else {
        point.column
    };
    map.clip_point(DisplayPoint { row: point.row, column }, Bias::Left)
}

/// Moves one character back, across the line break if need be.
pub fn left(map: &DisplaySnapshot, point: DisplayPoint) -> (moved: DisplayPoint)
    requires
        map@.wf(),
    ensures
        moved@ == map@.left(point@),
        map@.contains(moved@),
{
    if point.column > 0 {
        map.clip_point(DisplayPoint { row: point.row, column: point.column - 1 }, Bias::Left)
    } else if point.row > 0 {
        let row = point.row - 1;
        map.clip_point(DisplayPoint { row, column: map.line_len(row) }, Bias::Left)
    } else {
        map.clip_point(point, Bias::Left)
    }
}

/// Moves one column to the right within the row.
pub fn saturating_right(map: &DisplaySnapshot, point: DisplayPoint) -> (moved: DisplayPoint)
    requires
        map@.wf(),
    ensures
        moved@ == map@.saturating_right(point@),
        map@.contains(moved@),
{
    let len = map.line_len(point.row);
    let column: usize = if point.column < len {
        point.column + 1
    } else {
        len
    };
    map.clip_point(DisplayPoint { row: point.row, column }, Bias::Right)
}

/// Moves one row down, aiming for the goal column.
pub fn down(map: &DisplaySnapshot, start: DisplayPoint, goal: SelectionGoal) -> (moved: (
    DisplayPoint,
    SelectionGoal,
))
    requires
        map@.wf(),
    ensures
        (moved.0@, moved.1@) == map@.down(start@, goal@),
{
    let column: usize = match goal {
        SelectionGoal::Column(column) => column,
        SelectionGoal::Unset => start.column,
    };
    if start.row < map.max_buffer_row() {
        let point = DisplayPoint { row: start.row + 1, column };
        let clip_bias = if column == map.line_len(point.row) {
            Bias::Left
        } else {
            Bias::Right
        };
        (map.clip_point(point, clip_bias), SelectionGoal::Column(column))
    } else {
        (start, goal)
    }
}

/// Moves one row up, aiming for the goal column.
pub fn up(map: &DisplaySnapshot, start: DisplayPoint, goal: SelectionGoal) -> (moved: (
    DisplayPoint,
    SelectionGoal,
))
    requires
        map@.wf(),
    ensures
        (moved.0@, moved.1@) == map@.up(start@, goal@),
{
    let column: usize = match goal {
        SelectionGoal::Column(column) => column,
        SelectionGoal::Unset => start.column,
    };
    let max_row = map.max_buffer_row();
    let prev_row: usize = if start.row == 0 {
        0
    } else if start.row - 1 > max_row {
        max_row
    } else {
        start.row - 1
    };
    if prev_row < start.row {
        let point = DisplayPoint { row: start.row - 1, column };
        let clip_bias = if column == map.line_len(point.row) {
            Bias::Left
        } else {
            Bias::Right
        };
        (map.clip_point(point, clip_bias), SelectionGoal::Column(column))
    } else {
        (start, goal)
    }
}

} // verus!
