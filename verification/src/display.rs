//! A frozen view of a document, and the positions in it.
//!
//! A document is a sequence of lines of characters; the line breaks between
//! them are not stored, and read as `'\n'` where a scan crosses one. A position
//! is a row and a column that counts characters, so every column from 0 to the
//! length of its line names a position, the last of them the line's end.

use vstd::prelude::*;

verus! {

/// A position as contracts speak of it: unbounded row and column.
pub struct Point {
    pub row: int,
    pub column: int,
}

impl Point {
    /// Strictly earlier in reading order.
    pub open spec fn before(self, other: Point) -> bool {
        self.row < other.row || (self.row == other.row && self.column < other.column)
    }

    /// Earlier in reading order, or the same position.
    pub open spec fn at_or_before(self, other: Point) -> bool {
        self.before(other) || self == other
    }
}

/// A position in the displayed document.
#[derive(Clone, Copy, Debug, PartialEq, Eq, Structural, Hash)]
pub struct DisplayPoint {
    pub row: usize,
    pub column: usize,
}

impl View for DisplayPoint {
    type V = Point;

    open spec fn view(&self) -> Point {
        Point { row: self.row as int, column: self.column as int }
    }
}

impl DisplayPoint {
    pub fn new(row: usize, column: usize) -> (point: DisplayPoint)
        ensures
            point.row == row,
            point.column == column,
    {
        DisplayPoint { row, column }
    }

    /// The first position of any document.
    pub fn zero() -> (point: DisplayPoint)
        ensures
            point.row == 0,
            point.column == 0,
    {
        DisplayPoint { row: 0, column: 0 }
    }

    /// Whether `self` comes strictly before `other` in reading order.
    pub fn is_before(&self, other: &DisplayPoint) -> (b: bool)
        ensures
            b == self@.before(other@),
    {
        self.row < other.row || (self.row == other.row && self.column < other.column)
    }
}

/// The side to prefer where a requested position has to be moved to a valid
/// one.
#[derive(Clone, Copy, Debug, PartialEq, Eq, Structural)]
pub enum Bias {
    Left,
    Right,
}

/// A matched pair of delimiters: where the opening one starts and where the
/// closing one starts.
#[derive(Clone, Copy, Debug, PartialEq, Eq, Structural)]
pub struct BracketPair {
    pub open: DisplayPoint,
    pub close: DisplayPoint,
}

/// The lines that `text` falls into when it is cut at every `'\n'`.
pub open spec fn split_lines(text: Seq<char>) -> Seq<Seq<char>>
    decreases text.len(),
{
    if text.len() == 0 {
        seq![Seq::<char>::empty()]
    } else {
        let lines = split_lines(text.drop_last());
        if text.last() == '\n' {
            lines.push(Seq::<char>::empty())
        } else {
            lines.update(lines.len() - 1, lines.last().push(text.last()))
        }
    }
}

/// The mathematical content of a [`DisplaySnapshot`].
pub struct Document {
    /// The lines, without their line breaks.
    pub lines: Seq<Seq<char>>,
    /// The delimiter pairs found in the document, in the order in which
    /// bracket matching considers them.
    pub brackets: Seq<(Point, Point)>,
    /// Whether a cursor is kept off the position behind a line's last
    /// character.
    pub clip_at_line_ends: bool,
}

impl Document {
    /// There is at least one line, and no line holds a line break.
    pub open spec fn wf(self) -> bool {
        &&& self.lines.len() >= 1
        &&& forall|r: int, c: int|
            0 <= r < self.lines.len() && 0 <= c < self.lines[r].len() ==> self.lines[r][c]
                != '\n'
    }

    pub open spec fn max_row(self) -> int {
        self.lines.len() - 1
    }

    /// The nearest row that exists.
    pub open spec fn clamp_row(self, row: int) -> int {
        if row < 0 {
            0
        } else if row > self.max_row() {
            self.max_row()
        } else {
            row
        }
    }

    /// The characters of a row; a row past the end reads as the last row.
    pub open spec fn line(self, row: int) -> Seq<char> {
        self.lines[self.clamp_row(row)]
    }

    pub open spec fn line_len(self, row: int) -> int {
        self.line(row).len() as int
    }

    /// The end of the document.
    pub open spec fn max_point(self) -> Point {
        Point { row: self.max_row(), column: self.line_len(self.max_row()) }
    }

    /// Whether `p` is a position of this document.
    pub open spec fn contains(self, p: Point) -> bool {
        &&& 0 <= p.row <= self.max_row()
        &&& 0 <= p.column <= self.line_len(p.row)
    }

    /// The nearest position of the document: the row is clamped first, then the
    /// column to that row.
    pub open spec fn clamp(self, p: Point) -> Point {
        let row = self.clamp_row(p.row);
        let len = self.line_len(row);
        Point {
            row,
            column: if p.column < 0 {
                0
            } else if p.column > len {
                len
            } else {
                p.column
            },
        }
    }

    /// The nearest position that is on a character: from the end of a line
    /// that has characters, its last one.
    pub open spec fn clip_at_line_end(self, p: Point) -> Point {
        let q = self.clamp(p);
        if q.column == self.line_len(q.row) && q.column > 0 {
            Point { row: q.row, column: q.column - 1 }
        } else {
            q
        }
    }

    /// The valid cursor position for `p`.
    pub open spec fn clip(self, p: Point) -> Point {
        if self.clip_at_line_ends {
            self.clip_at_line_end(p)
        } else {
            self.clamp(p)
        }
    }

    /// The start of the row of `p`.
    pub open spec fn line_start(self, p: Point) -> Point {
        Point { row: self.clamp_row(p.row), column: 0 }
    }

    /// The end of the row of `p`, behind its last character.
    pub open spec fn line_end(self, p: Point) -> Point {
        Point { row: self.clamp_row(p.row), column: self.line_len(p.row) }
    }

    /// The character at a position of the document other than its end; at the
    /// end of a line this is the line break.
    pub open spec fn char_at(self, p: Point) -> char {
        if p.column < self.line_len(p.row) {
            self.line(p.row)[p.column]
        } else {
            '\n'
        }
    }

    /// The position one character further on.
    pub open spec fn next(self, p: Point) -> Point {
        if p.column < self.line_len(p.row) {
            Point { row: p.row, column: p.column + 1 }
        } else {
            Point { row: p.row + 1, column: 0 }
        }
    }

    /// The position one character back, for a position other than the start.
    pub open spec fn prev(self, p: Point) -> Point {
        if p.column > 0 {
            Point { row: p.row, column: p.column - 1 }
        } else {
            Point { row: p.row - 1, column: self.line_len(p.row - 1) }
        }
    }

    /// Whether a row holds nothing but whitespace.
    pub open spec fn is_line_blank(self, row: int) -> bool {
        forall|c: int| 0 <= c < self.line_len(row) ==> crate::chars::whitespace(#[trigger] self.line(row)[c])
    }
}

} // verus!

verus! {

/// A frozen view of a document: its lines, the delimiter pairs found in it, and
/// whether cursors are kept on characters.
pub struct DisplaySnapshot {
    lines: Vec<Vec<char>>,
    brackets: Vec<BracketPair>,
    clip_at_line_ends: bool,
}

impl View for DisplaySnapshot {
    type V = Document;

    closed spec fn view(&self) -> Document {
        Document {
            lines: Seq::new(self.lines@.len(), |r: int| self.lines@[r]@),
            brackets: Seq::new(
                self.brackets@.len(),
                |i: int| (self.brackets@[i].open@, self.brackets@[i].close@),
            ),
            clip_at_line_ends: self.clip_at_line_ends,
        }
    }
}

/// The pairs of positions that a list of delimiter pairs stands for.
pub open spec fn bracket_points(brackets: Seq<BracketPair>) -> Seq<(Point, Point)> {
    Seq::new(brackets.len(), |i: int| (brackets[i].open@, brackets[i].close@))
}

impl DisplaySnapshot {
    /// Cuts `text` into lines at every `'\n'`.
    pub fn new(text: &str, brackets: Vec<BracketPair>, clip_at_line_ends: bool) -> (snapshot:
        DisplaySnapshot)
        ensures
            snapshot@.wf(),
            snapshot@.lines == split_lines(text@),
            snapshot@.brackets == bracket_points(brackets@),
            snapshot@.clip_at_line_ends == clip_at_line_ends,
    {
        broadcast use vstd::string::axiom_spec_iter;

        let mut lines: Vec<Vec<char>> = Vec::new();
        let mut current: Vec<char> = Vec::new();
        assert(Seq::new(lines@.len(), |r: int| lines@[r]@).push(current@) =~= split_lines(
            text@.take(0),
        ));
        for c in it: text.chars()
            invariant
                it.seq() == text@,
                Seq::new(lines@.len(), |r: int| lines@[r]@).push(current@) == split_lines(
                    text@.take(it.index() as int),
                ),
                forall|r: int, k: int|
                    0 <= r < lines@.len() && 0 <= k < lines@[r]@.len() ==> lines@[r]@[k] != '\n',
                forall|k: int| 0 <= k < current@.len() ==> current@[k] != '\n',
        {
            proof {
                let i = it.index() as int;
                assert(text@.take(i + 1).drop_last() =~= text@.take(i));
                assert(text@.take(i + 1).last() == c);
            }
            let ghost before = Seq::new(lines@.len(), |r: int| lines@[r]@).push(current@);
            if c == '\n' {
                lines.push(current);
                current = Vec::new();
                assert(Seq::new(lines@.len(), |r: int| lines@[r]@).push(current@) =~= before.push(
                    Seq::<char>::empty(),
                ));
            } else {
                current.push(c);
                assert(Seq::new(lines@.len(), |r: int| lines@[r]@).push(current@) =~= before.update(
                    before.len() - 1,
                    before.last().push(c),
                ));
            }
        }
        assert(text@.take(text@.len() as int) =~= text@);
        let ghost all = Seq::new(lines@.len(), |r: int| lines@[r]@).push(current@);
        lines.push(current);
        assert(Seq::new(lines@.len(), |r: int| lines@[r]@) =~= all);
        DisplaySnapshot { lines, brackets, clip_at_line_ends }
    }

    /// Whether cursors are kept off the position behind a line's last
    /// character.
    pub fn clips_at_line_ends(&self) -> (b: bool)
        ensures
            b == self@.clip_at_line_ends,
    {
        self.clip_at_line_ends
    }

    /// The last row.
    pub fn max_buffer_row(&self) -> (row: usize)
        requires
            self@.wf(),
        ensures
            row == self@.max_row(),
            row < usize::MAX,
    {
        self.lines.len() - 1
    }

    /// The number of characters in a row; a row past the end reads as the
    /// last row.
    pub fn line_len(&self, row: usize) -> (len: usize)
        requires
            self@.wf(),
        ensures
            len == self@.line_len(row as int),
    {
        let r: usize = if row < self.lines.len() {
            row
        } else {
            self.lines.len() - 1
        };
        self.lines[r].len()
    }

    /// The characters of a row; a row past the end reads as the last row.
    pub fn line(&self, row: usize) -> (line: &Vec<char>)
        requires
            self@.wf(),
        ensures
            line@ == self@.line(row as int),
    {
        let r: usize = if row < self.lines.len() {
            row
        } else {
            self.lines.len() - 1
        };
        &self.lines[r]
    }

    /// The end of the document.
    pub fn max_point(&self) -> (point: DisplayPoint)
        requires
            self@.wf(),
        ensures
            point@ == self@.max_point(),
    {
        let row = self.max_buffer_row();
        DisplayPoint { row, column: self.line_len(row) }
    }

    /// The nearest position of the document, whatever `point` holds.
    pub fn clamp(&self, point: DisplayPoint) -> (clamped: DisplayPoint)
        requires
            self@.wf(),
        ensures
            clamped@ == self@.clamp(point@),
            self@.contains(clamped@),
    {
        let row: usize = if point.row < self.lines.len() {
            point.row
        } else {
            self.lines.len() - 1
        };
        let len = self.lines[row].len();
        let column: usize = if point.column > len {
            len
        } else {
            point.column
        };
        DisplayPoint { row, column }
    }

    /// Moves a position at the end of a line onto the line's last character.
    pub fn clip_at_line_end(&self, point: DisplayPoint) -> (clipped: DisplayPoint)
        requires
            self@.wf(),
        ensures
            clipped@ == self@.clip_at_line_end(point@),
            self@.contains(clipped@),
    {
        let q = self.clamp(point);
        if q.column == self.line_len(q.row) && q.column > 0 {
            DisplayPoint { row: q.row, column: q.column - 1 }
        } else {
            q
        }
    }

    /// Turns any row and column into a valid cursor position. Columns count
    /// characters, so no position falls between two of them and both biases
    /// give the same answer.
    pub fn clip_point(&self, point: DisplayPoint, bias: Bias) -> (clipped: DisplayPoint)
        requires
            self@.wf(),
        ensures
            clipped@ == self@.clip(point@),
            self@.contains(clipped@),
    {
        if self.clip_at_line_ends {
            self.clip_at_line_end(point)
        } else {
            self.clamp(point)
        }
    }

    /// The start of the line that `point` is on.
    pub fn prev_line_boundary(&self, point: DisplayPoint) -> (start: DisplayPoint)
        requires
            self@.wf(),
        ensures
            start@ == self@.line_start(point@),
            self@.contains(start@),
    {
        let row: usize = if point.row < self.lines.len() {
            point.row
        } else {
            self.lines.len() - 1
        };
        DisplayPoint { row, column: 0 }
    }

    /// The end of the line that `point` is on, behind its last character.
    pub fn next_line_boundary(&self, point: DisplayPoint) -> (end: DisplayPoint)
        requires
            self@.wf(),
        ensures
            end@ == self@.line_end(point@),
            self@.contains(end@),
    {
        let row: usize = if point.row < self.lines.len() {
            point.row
        } else {
            self.lines.len() - 1
        };
        DisplayPoint { row, column: self.lines[row].len() }
    }

    /// The character at a position of the document other than its end.
    pub fn char_at(&self, point: DisplayPoint) -> (c: char)
        requires
            self@.wf(),
            self@.contains(point@),
            point@ != self@.max_point(),
        ensures
            c == self@.char_at(point@),
    {
        if point.column < self.lines[point.row].len() {
            self.lines[point.row][point.column]
        } else {
            '\n'
        }
    }

    /// The position one character further on.
    pub fn next_point(&self, point: DisplayPoint) -> (next: DisplayPoint)
        requires
            self@.wf(),
            self@.contains(point@),
            point@ != self@.max_point(),
        ensures
            next@ == self@.next(point@),
            self@.contains(next@),
    {
        if point.column < self.lines[point.row].len() {
            DisplayPoint { row: point.row, column: point.column + 1 }
        } else {
            assert(point@.row != self@.max_row()) by {
                if point@.row == self@.max_row() {
                    assert(point@ == self@.max_point());
                }
            }
            let rows = self.lines.len();
            assert(point.row + 1 < rows);
            DisplayPoint { row: point.row + 1, column: 0 }
        }
    }

    /// The position one character back.
    pub fn prev_point(&self, point: DisplayPoint) -> (prev: DisplayPoint)
        requires
            self@.wf(),
            self@.contains(point@),
            point@ != (Point { row: 0, column: 0 }),
        ensures
            prev@ == self@.prev(point@),
            self@.contains(prev@),
            prev@ != self@.max_point(),
    {
        if point.column > 0 {
            DisplayPoint { row: point.row, column: point.column - 1 }
        } else {
            DisplayPoint { row: point.row - 1, column: self.lines[point.row - 1].len() }
        }
    }

    /// Whether a row holds nothing but whitespace.
    pub fn is_line_blank(&self, row: usize) -> (blank: bool)
        requires
            self@.wf(),
        ensures
            blank == self@.is_line_blank(row as int),
    {
        let r: usize = if row < self.lines.len() {
            row
        } else {
            self.lines.len() - 1
        };
        let line = &self.lines[r];
        let mut i: usize = 0;
        while i < line.len()
            invariant
                i <= line@.len(),
                line@ == self@.line(row as int),
                forall|c: int| 0 <= c < i ==> crate::chars::whitespace(#[trigger] line@[c]),
            decreases line@.len() - i,
        {
            if !line[i].is_whitespace() {
                return false;
            }
            i += 1;
        }
        true
    }

    /// The number of delimiter pairs.
    pub fn bracket_count(&self) -> (n: usize)
        ensures
            n == self@.brackets.len(),
    {
        self.brackets.len()
    }

    /// The `i`-th delimiter pair.
    pub fn bracket(&self, i: usize) -> (pair: BracketPair)
        requires
            i < self@.brackets.len(),
        ensures
            (pair.open@, pair.close@) == self@.brackets[i as int],
    {
        self.brackets[i]
    }
}

} // verus!
