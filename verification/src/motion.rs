//! The motions, what kind of span each of them gives an operator, and where
//! each of them takes a cursor and a selection.

use crate::bracket::matching;
use crate::display::{Bias, DisplayPoint, DisplaySnapshot, Document, Point};
use crate::find::{find_backward, find_forward};
use crate::line::{
    end_of_document,
    end_of_line,
    first_non_whitespace,
    next_line_start,
    start_of_document,
    start_of_line,
};
use crate::movement::{
    end_of_paragraph,
    lemma_repeated_fixed,
    repeated,
    saturating_left,
    saturating_right,
    start_of_paragraph,
};
use crate::selection::{Selection, SelectionGoal, Span};
use crate::word::{next_word_end, next_word_start, previous_word_start};
use vstd::prelude::*;

verus! {

/// A way to move the cursor.
#[derive(Clone, Debug, PartialEq, Eq)]
pub enum Motion {
    Left,
    Backspace,
    Down,
    Up,
    Right,
    NextWordStart { ignore_punctuation: bool },
    NextWordEnd { ignore_punctuation: bool },
    PreviousWordStart { ignore_punctuation: bool },
    FirstNonWhitespace,
    CurrentLine,
    StartOfLine,
    EndOfLine,
    StartOfParagraph,
    EndOfParagraph,
    StartOfDocument,
    EndOfDocument,
    Matching,
    FindForward { before: bool, text: String },
    FindBackward { after: bool, text: String },
    NextLineStart,
}

/// The repeat count that a motion runs with: 1 where none is given.
pub open spec fn times_of(maybe_times: Option<int>) -> int {
    match maybe_times {
        Some(times) => times,
        None => 1,
    }
}

/// A count as contracts speak of it.
pub open spec fn count_view(maybe_times: Option<usize>) -> Option<int> {
    match maybe_times {
        Some(times) => Some(times as int),
        None => None,
    }
}

impl Document {
    /// `times` columns to the left within the row.
    pub open spec fn left_by(self, p: Point, times: int) -> Point {
        repeated(|q: Point| self.saturating_left(q), times, p)
    }

    /// `times` characters back, across line breaks.
    pub open spec fn backspace_by(self, p: Point, times: int) -> Point {
        repeated(|q: Point| self.left(q), times, p)
    }

    /// `times` columns to the right within the row.
    pub open spec fn right_by(self, p: Point, times: int) -> Point {
        repeated(|q: Point| self.saturating_right(q), times, p)
    }

    /// `times` rows down; the goal column travels along.
    pub open spec fn down_by(self, p: Point, goal: Option<int>, times: int) -> (
        Point,
        Option<int>,
    ) {
        repeated(|s: (Point, Option<int>)| self.down(s.0, s.1), times, (p, goal))
    }

    /// `times` rows up; the goal column travels along.
    pub open spec fn up_by(self, p: Point, goal: Option<int>, times: int) -> (Point, Option<int>) {
        repeated(|s: (Point, Option<int>)| self.up(s.0, s.1), times, (p, goal))
    }
}

impl Motion {
    /// Whether an operator acts on whole lines after this motion.
    pub open spec fn is_linewise(&self) -> bool {
        match *self {
            Motion::Down
            | Motion::Up
            | Motion::StartOfDocument
            | Motion::EndOfDocument
            | Motion::CurrentLine
            | Motion::NextLineStart
            | Motion::StartOfParagraph
            | Motion::EndOfParagraph => true,
            _ => false,
        }
    }

    /// Whether an unchanged position counts as a successful motion.
    pub open spec fn is_infallible(&self) -> bool {
        match *self {
            Motion::StartOfDocument | Motion::EndOfDocument | Motion::CurrentLine => true,
            _ => false,
        }
    }

    /// Whether an operator also acts on the character that the motion lands
    /// on.
    pub open spec fn is_inclusive(&self) -> bool {
        match *self {
            Motion::Down
            | Motion::Up
            | Motion::StartOfDocument
            | Motion::EndOfDocument
            | Motion::CurrentLine
            | Motion::EndOfLine
            | Motion::NextWordEnd { .. }
            | Motion::Matching
            | Motion::FindForward { .. }
            | Motion::NextLineStart => true,
            _ => false,
        }
    }

    /// Where the motion takes a cursor at `p`, and the goal column it leaves:
    /// only vertical motions keep one.
    pub open spec fn target(
        &self,
        doc: Document,
        p: Point,
        goal: Option<int>,
        maybe_times: Option<int>,
    ) -> (Point, Option<int>) {
        let times = times_of(maybe_times);
        match *self {
            Motion::Left => (doc.left_by(p, times), None),
            Motion::Backspace => (doc.backspace_by(p, times), None),
            Motion::Down => doc.down_by(p, goal, times),
            Motion::Up => doc.up_by(p, goal, times),
            Motion::Right => (doc.right_by(p, times), None),
            Motion::NextWordStart { ignore_punctuation } => (
                doc.next_word_start(p, ignore_punctuation, times),
                None,
            ),
            Motion::NextWordEnd { ignore_punctuation } => (
                doc.next_word_end(p, ignore_punctuation, times),
                None,
            ),
            Motion::PreviousWordStart { ignore_punctuation } => (
                doc.previous_word_start(p, ignore_punctuation, times),
                None,
            ),
            Motion::FirstNonWhitespace => (doc.first_non_whitespace(p), None),
            Motion::StartOfLine => (doc.line_start(p), None),
            Motion::EndOfLine => (doc.end_of_line(p), None),
            Motion::StartOfParagraph => (doc.start_of_paragraph(p, times), None),
            Motion::EndOfParagraph => (
                doc.clip_at_line_end(doc.end_of_paragraph(p, times)),
                None,
            ),
            Motion::CurrentLine => (doc.end_of_line(p), None),
            Motion::StartOfDocument => (doc.start_of_document(p, times), None),
            Motion::EndOfDocument => (doc.end_of_document(p, maybe_times), None),
            Motion::Matching => (doc.matching(p), None),
            Motion::FindForward { before, text } => (
                doc.find_forward(p, before, text@, times),
                None,
            ),
            Motion::FindBackward { after, text } => (
                doc.find_backward(p, after, text@, times),
                None,
            ),
            Motion::NextLineStart => (doc.next_line_start(p, times), None),
        }
    }

    /// The outcome of the motion: its target, unless the cursor stays where it
    /// is and the motion is not infallible.
    pub open spec fn resolve(
        &self,
        doc: Document,
        p: Point,
        goal: Option<int>,
        maybe_times: Option<int>,
    ) -> Option<(Point, Option<int>)> {
        let target = self.target(doc, p, goal, maybe_times);
        if target.0 != p || self.is_infallible() {
            Some(target)
        } else {
            None
        }
    }

    /// The span that an operator acts on after a linewise motion has put the
    /// cursor of `span` in place: from the start of the first line to the end
    /// of the last. With `surrounding_newline` one line break is taken along:
    /// the span ends on the start of the following line or, on the last
    /// line, starts at the end of the line above.
    pub open spec fn linewise_span(doc: Document, span: Span, surrounding_newline: bool) -> Span {
        let start = doc.line_start(span.start);
        if surrounding_newline && span.end.row < doc.max_row() {
            Span {
                start,
                end: doc.clip(Point { row: span.end.row + 1, column: 0 }),
                reversed: span.reversed,
                goal: span.goal,
            }
        } else if surrounding_newline && start.row > 0 {
            Span {
                start: doc.clip(
                    Point { row: start.row - 1, column: doc.line_len(start.row - 1) },
                ),
                end: doc.line_end(span.end),
                reversed: span.reversed,
                goal: span.goal,
            }
        } else {
            Span { start, end: doc.line_end(span.end), reversed: span.reversed, goal: span.goal }
        }
    }

    /// Whether a span that ends in the first column of a later row than it
    /// starts in is cut back to the end of the row before: so it is for every
    /// motion that does not include its last character, but `Backspace`.
    pub open spec fn promotes(&self, span: Span) -> bool {
        &&& !self.is_inclusive()
        &&& !(*self is Backspace)
        &&& span.end.row > span.start.row
        &&& span.end.column == 0
    }

    /// The span that an operator acts on after a characterwise motion has put
    /// the cursor of `span` in place. Where the span counts as inclusive, its
    /// end moves behind the character it is on.
    pub open spec fn characterwise_span(&self, doc: Document, span: Span) -> Span {
        let end = if self.promotes(span) {
            doc.clip(doc.line_end(Point { row: span.end.row - 1, column: 0 }))
        } else {
            span.end
        };
        let inclusive = self.is_inclusive() || self.promotes(span);
        Span {
            start: span.start,
            end: if inclusive && end.column < doc.line_len(end.row) {
                Point { row: end.row, column: end.column + 1 }
            } else {
                end
            },
            reversed: span.reversed,
            goal: span.goal,
        }
    }

    /// The span that an operator acts on after this motion, or `None` where
    /// the motion fails.
    pub open spec fn expanded(
        &self,
        doc: Document,
        span: Span,
        maybe_times: Option<int>,
        surrounding_newline: bool,
    ) -> Option<Span> {
        match self.resolve(doc, span.head(), span.goal, maybe_times) {
            Some((head, goal)) => {
                let moved = span.with_head(head, goal);
                if self.is_linewise() {
                    Some(Self::linewise_span(doc, moved, surrounding_newline))
                } else {
                    Some(self.characterwise_span(doc, moved))
                }
            },
            None => None,
        }
    }

    pub fn linewise(&self) -> (b: bool)
        ensures
            b == self.is_linewise(),
    {
        match self {
            Motion::Down
            | Motion::Up
            | Motion::StartOfDocument
            | Motion::EndOfDocument
            | Motion::CurrentLine
            | Motion::NextLineStart
            | Motion::StartOfParagraph
            | Motion::EndOfParagraph => true,
            Motion::EndOfLine
            | Motion::NextWordEnd { .. }
            | Motion::Matching
            | Motion::FindForward { .. }
            | Motion::Left
            | Motion::Backspace
            | Motion::Right
            | Motion::StartOfLine
            | Motion::NextWordStart { .. }
            | Motion::PreviousWordStart { .. }
            | Motion::FirstNonWhitespace
            | Motion::FindBackward { .. } => false,
        }
    }

    pub fn infallible(&self) -> (b: bool)
        ensures
            b == self.is_infallible(),
    {
        match self {
            Motion::StartOfDocument | Motion::EndOfDocument | Motion::CurrentLine => true,
            Motion::Down
            | Motion::Up
            | Motion::EndOfLine
            | Motion::NextWordEnd { .. }
            | Motion::Matching
            | Motion::FindForward { .. }
            | Motion::Left
            | Motion::Backspace
            | Motion::Right
            | Motion::StartOfLine
            | Motion::StartOfParagraph
            | Motion::EndOfParagraph
            | Motion::NextWordStart { .. }
            | Motion::PreviousWordStart { .. }
            | Motion::FirstNonWhitespace
            | Motion::FindBackward { .. }
            | Motion::NextLineStart => false,
        }
    }

    pub fn inclusive(&self) -> (b: bool)
        ensures
            b == self.is_inclusive(),
    {
        match self {
            Motion::Down
            | Motion::Up
            | Motion::StartOfDocument
            | Motion::EndOfDocument
            | Motion::CurrentLine
            | Motion::EndOfLine
            | Motion::NextWordEnd { .. }
            | Motion::Matching
            | Motion::FindForward { .. }
            | Motion::NextLineStart => true,
            Motion::Left
            | Motion::Backspace
            | Motion::Right
            | Motion::StartOfLine
            | Motion::StartOfParagraph
            | Motion::EndOfParagraph
            | Motion::NextWordStart { .. }
            | Motion::PreviousWordStart { .. }
            | Motion::FirstNonWhitespace
            | Motion::FindBackward { .. } => false,
        }
    }
}

impl Motion {
    /// Resolves the motion for a cursor at `point`. `None` says that the
    /// motion failed: the cursor would stay where it is, and the motion is
    /// not one of those for which that is success.
    pub fn move_point(
        &self,
        map: &DisplaySnapshot,
        point: DisplayPoint,
        goal: SelectionGoal,
        maybe_times: Option<usize>,
    ) -> (moved: Option<(DisplayPoint, SelectionGoal)>)
        requires
            map@.wf(),
            maybe_times != Some(0usize),
        ensures
            match self.resolve(map@, point@, goal@, count_view(maybe_times)) {
                Some(target) => moved is Some && (moved.unwrap().0@, moved.unwrap().1@) == target,
                None => moved is None,
            },
            self.is_infallible() ==> moved is Some,
    {
        let times: usize = match maybe_times {
            Some(times) => times,
            None => 1,
        };
        let infallible = self.infallible();
        let (new_point, goal) = match self {
            Motion::Left => (left(map, point, times), SelectionGoal::Unset),
            Motion::Backspace => (backspace(map, point, times), SelectionGoal::Unset),
            Motion::Down => down(map, point, goal, times),
            Motion::Up => up(map, point, goal, times),
            Motion::Right => (right(map, point, times), SelectionGoal::Unset),
            Motion::NextWordStart { ignore_punctuation } => (
                next_word_start(map, point, *ignore_punctuation, times),
                SelectionGoal::Unset,
            ),
            Motion::NextWordEnd { ignore_punctuation } => (
                next_word_end(map, point, *ignore_punctuation, times),
                SelectionGoal::Unset,
            ),
            Motion::PreviousWordStart { ignore_punctuation } => (
                previous_word_start(map, point, *ignore_punctuation, times),
                SelectionGoal::Unset,
            ),
            Motion::FirstNonWhitespace => (first_non_whitespace(map, point), SelectionGoal::Unset),
            Motion::StartOfLine => (start_of_line(map, point), SelectionGoal::Unset),
            Motion::EndOfLine => (end_of_line(map, point), SelectionGoal::Unset),
            Motion::StartOfParagraph => (
                start_of_paragraph(map, point, times),
                SelectionGoal::Unset,
            ),
            Motion::EndOfParagraph => (
                map.clip_at_line_end(end_of_paragraph(map, point, times)),
                SelectionGoal::Unset,
            ),
            Motion::CurrentLine => (end_of_line(map, point), SelectionGoal::Unset),
            Motion::StartOfDocument => (start_of_document(map, point, times), SelectionGoal::Unset),
            Motion::EndOfDocument => (
                end_of_document(map, point, maybe_times),
                SelectionGoal::Unset,
            ),
            Motion::Matching => (matching(map, point), SelectionGoal::Unset),
            Motion::FindForward { before, text } => (
                find_forward(map, point, *before, text.as_str(), times),
                SelectionGoal::Unset,
            ),
            Motion::FindBackward { after, text } => (
                find_backward(map, point, *after, text.as_str(), times),
                SelectionGoal::Unset,
            ),
            Motion::NextLineStart => (next_line_start(map, point, times), SelectionGoal::Unset),
        };
        if new_point != point || infallible {
            Some((new_point, goal))
        } else {
            None
        }
    }

    /// Expands a selection by this motion for an operator: moves the cursor
    /// and sets the span to what the operator acts on. Returns `false`, and
    /// leaves the selection as it is, where the motion fails.
    pub fn expand_selection(
        &self,
        map: &DisplaySnapshot,
        selection: &mut Selection,
        times: Option<usize>,
        expand_to_surrounding_newline: bool,
    ) -> (expanded: bool)
        requires
            map@.wf(),
            times != Some(0usize),
        ensures
            match self.expanded(
                map@,
                old(selection)@,
                count_view(times),
                expand_to_surrounding_newline,
            ) {
                Some(span) => expanded && final(selection)@ == span,
                None => !expanded && *final(selection) == *old(selection),
            },
    {
        if let Some((new_head, goal)) = self.move_point(
            map,
            selection.head(),
            selection.goal,
            times,
        ) {
            selection.set_head(new_head, goal);

            if self.linewise() {
                selection.start = map.prev_line_boundary(selection.start);

                if expand_to_surrounding_newline {
                    if selection.end.row < map.max_point().row {
                        selection.end =
                        map.clip_point(
                            DisplayPoint { row: selection.end.row + 1, column: 0 },
                            Bias::Right,
                        );
                        // The end is in place; it is not moved to the end of its line.
                        return true;
                    } else if selection.start.row > 0 {
                        let row = selection.start.row - 1;
                        selection.start =
                        map.clip_point(
                            DisplayPoint { row, column: map.line_len(row) },
                            Bias::Left,
                        );
                    }
                }

                selection.end = map.next_line_boundary(selection.end);
            } else {
                // A motion that excludes its last character and ends in the first
                // column of a line is moved to the end of the line before and
                // becomes inclusive: a motion to the line after a paragraph does
                // not take that line along.
                let mut inclusive = self.inclusive();
                let is_backspace = match self {
                    Motion::Backspace => true,
                    _ => false,
                };
                if !inclusive && !is_backspace && selection.end.row > selection.start.row
                    && selection.end.column == 0 {
                    inclusive = true;
                    selection.end =
                    map.clip_point(
                        map.next_line_boundary(
                            DisplayPoint { row: selection.end.row - 1, column: 0 },
                        ),
                        Bias::Left,
                    );
                }

                if inclusive && selection.end.column < map.line_len(selection.end.row) {
                    selection.end =
                    DisplayPoint { row: selection.end.row, column: selection.end.column + 1 };
                }
            }
            true
        } else {
            false
        }
    }
}

/// Moves left within the line, `times` columns at most.
pub fn left(map: &DisplaySnapshot, point: DisplayPoint, times: usize) -> (moved: DisplayPoint)
    requires
        map@.wf(),
    ensures
        moved@ == map@.left_by(point@, times as int),
{
    let mut current = point;
    let mut i: usize = 0;
    while i < times
        invariant
            map@.wf(),
            i <= times,
            map@.left_by(current@, times - i) == map@.left_by(point@, times as int),
        decreases times - i,
    {
        current = saturating_left(map, current);
        i += 1;
        if current.column == 0 {
            proof {
                lemma_repeated_fixed(|q: Point| map@.saturating_left(q), times - i, current@);
            }
            return current;
        }
    }
    current
}

/// Moves back `times` characters, across line breaks.
pub fn backspace(map: &DisplaySnapshot, point: DisplayPoint, times: usize) -> (moved: DisplayPoint)
    requires
        map@.wf(),
    ensures
        moved@ == map@.backspace_by(point@, times as int),
{
    let mut current = point;
    for i in 0..times
        invariant
            map@.wf(),
            map@.backspace_by(current@, times - i) == map@.backspace_by(point@, times as int),
    {
        current = crate::movement::left(map, current);
    }
    current
}

/// Moves down `times` rows.
pub fn down(map: &DisplaySnapshot, point: DisplayPoint, goal: SelectionGoal, times: usize) -> (moved:
    (DisplayPoint, SelectionGoal))
    requires
        map@.wf(),
    ensures
        (moved.0@, moved.1@) == map@.down_by(point@, goal@, times as int),
{
    let mut current = point;
    let mut current_goal = goal;
    for i in 0..times
        invariant
            map@.wf(),
            map@.down_by(current@, current_goal@, times - i) == map@.down_by(
                point@,
                goal@,
                times as int,
            ),
    {
        let (next, next_goal) = crate::movement::down(map, current, current_goal);
        current = next;
        current_goal = next_goal;
    }
    (current, current_goal)
}

/// Moves up `times` rows.
pub fn up(map: &DisplaySnapshot, point: DisplayPoint, goal: SelectionGoal, times: usize) -> (moved:
    (DisplayPoint, SelectionGoal))
    requires
        map@.wf(),
    ensures
        (moved.0@, moved.1@) == map@.up_by(point@, goal@, times as int),
{
    let mut current = point;
    let mut current_goal = goal;
    for i in 0..times
        invariant
            map@.wf(),
            map@.up_by(current@, current_goal@, times - i) == map@.up_by(
                point@,
                goal@,
                times as int,
            ),
    {
        let (next, next_goal) = crate::movement::up(map, current, current_goal);
        current = next;
        current_goal = next_goal;
    }
    (current, current_goal)
}

/// Moves right within the line, `times` columns at most.
pub fn right(map: &DisplaySnapshot, point: DisplayPoint, times: usize) -> (moved: DisplayPoint)
    requires
        map@.wf(),
    ensures
        moved@ == map@.right_by(point@, times as int),
{
    let mut current = point;
    let mut i: usize = 0;
    while i < times
        invariant
            map@.wf(),
            i <= times,
            map@.right_by(current@, times - i) == map@.right_by(point@, times as int),
        decreases times - i,
    {
        let new_point = saturating_right(map, current);
        if current == new_point {
            proof {
                lemma_repeated_fixed(|q: Point| map@.saturating_right(q), times - i, current@);
            }
            return current;
        }
        current = new_point;
        i += 1;
    }
    current
}

} // verus!
