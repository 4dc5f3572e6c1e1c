//! Motions within a line and to a given line of the document.

use crate::chars::whitespace;
use crate::display::{Bias, DisplayPoint, DisplaySnapshot, Document, Point};
use vstd::prelude::*;

verus! {

/// The column of the first character at or after `from` that is not
/// whitespace; the length of the line if there is none.
pub open spec fn first_non_whitespace_column(line: Seq<char>, from: int) -> int
    decreases line.len() - from,
{
    if from < 0 || from >= line.len() {
        line.len() as int
    } else if !whitespace(line[from]) {
        from
    } else {
        first_non_whitespace_column(line, from + 1)
    }
}

impl Document {
    /// The first character of the row of `from` that is not whitespace; on a
    /// blank row, `from` itself.
    pub open spec fn first_non_whitespace(self, from: Point) -> Point {
        let column = first_non_whitespace_column(self.line(from.row), 0);
        if column < self.line_len(from.row) {
            Point { row: self.clamp_row(from.row), column }
        } else {
            from
        }
    }

    /// The cursor position at the end of the row of `p`.
    pub open spec fn end_of_line(self, p: Point) -> Point {
        self.clip(self.line_end(p))
    }

    /// Row `line` of the document, counted from 1, in the column of `p`.
    pub open spec fn start_of_document(self, p: Point, line: int) -> Point {
        self.clip(Point { row: line - 1, column: p.column })
    }

    /// Row `line` of the document, counted from 1, or the last row where no
    /// line is given, in the column of `p`.
    pub open spec fn end_of_document(self, p: Point, line: Option<int>) -> Point {
        let row = match line {
            Some(line) => line - 1,
            None => self.max_row(),
        };
        self.clip(Point { row, column: p.column })
    }

    /// The first character that is not whitespace, `times` rows below `p` or
    /// on the last row.
    pub open spec fn next_line_start(self, p: Point, times: int) -> Point {
        let row = if p.row + times < self.max_row() {
            p.row + times
        } else {
            self.max_row()
        };
        self.first_non_whitespace(self.clip(Point { row, column: 0 }))
    }
}

/// Moves to the first character of the line that is not whitespace, and
/// nowhere on a blank line.
pub fn first_non_whitespace(map: &DisplaySnapshot, from: DisplayPoint) -> (moved: DisplayPoint)
    requires
        map@.wf(),
    ensures
        moved@ == map@.first_non_whitespace(from@),
{
    let line = map.line(from.row);
    let mut column: usize = 0;
    while column < line.len()
        invariant
            map@.wf(),
            line@ == map@.line(from@.row),
            column <= line@.len(),
            first_non_whitespace_column(line@, column as int) == first_non_whitespace_column(
                line@,
                0,
            ),
        decreases line@.len() - column,
    {
        if !line[column].is_whitespace() {
            return map.clip_point(DisplayPoint { row: from.row, column }, Bias::Left);
        }
        column += 1;
    }
    from
}

/// Moves to the first column of the line.
pub fn start_of_line(map: &DisplaySnapshot, point: DisplayPoint) -> (moved: DisplayPoint)
    requires
        map@.wf(),
    ensures
        moved@ == map@.line_start(point@),
        map@.contains(moved@),
{
    map.prev_line_boundary(point)
}

/// Moves to the end of the line.
pub fn end_of_line(map: &DisplaySnapshot, point: DisplayPoint) -> (moved: DisplayPoint)
    requires
        map@.wf(),
    ensures
        moved@ == map@.end_of_line(point@),
        map@.contains(moved@),
{
    map.clip_point(map.next_line_boundary(point), Bias::Left)
}

/// Moves to line `line`, counted from 1, and keeps the column.
pub fn start_of_document(map: &DisplaySnapshot, point: DisplayPoint, line: usize) -> (moved:
    DisplayPoint)
    requires
        map@.wf(),
        line >= 1,
    ensures
        moved@ == map@.start_of_document(point@, line as int),
        map@.contains(moved@),
{
    map.clip_point(DisplayPoint { row: line - 1, column: point.column }, Bias::Left)
}

/// Moves to line `line`, counted from 1, or to the last line, and keeps the
/// column.
pub fn end_of_document(map: &DisplaySnapshot, point: DisplayPoint, line: Option<usize>) -> (moved:
    DisplayPoint)
    requires
        map@.wf(),
        line != Some(0usize),
    ensures
        moved@ == map@.end_of_document(
            point@,
            match line {
                Some(line) => Some(line as int),
                None => None,
            },
        ),
        map@.contains(moved@),
{
    let new_row: usize = match line {
        Some(line) => line - 1,
        None => map.max_buffer_row(),
    };
    map.clip_point(DisplayPoint { row: new_row, column: point.column }, Bias::Left)
}

/// Moves `times` lines down, or to the last line, onto the first character
/// that is not whitespace.
pub fn next_line_start(map: &DisplaySnapshot, point: DisplayPoint, times: usize) -> (moved:
    DisplayPoint)
    requires
        map@.wf(),
    ensures
        moved@ == map@.next_line_start(point@, times as int),
{
    let max_row = map.max_buffer_row();
    let new_row: usize = if point.row >= max_row || times >= max_row - point.row {
        max_row
    } else {
        point.row + times
    };
    first_non_whitespace(map, map.clip_point(DisplayPoint { row: new_row, column: 0 }, Bias::Left))
}

} // verus!
