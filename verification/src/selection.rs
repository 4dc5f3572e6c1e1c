//! The span that an operator acts on, with the cursor at one of its ends.

use crate::display::{DisplayPoint, Point};
use vstd::prelude::*;

verus! {

/// The column that vertical motions try to return to.
#[derive(Clone, Copy, Debug, PartialEq, Eq, Structural)]
pub enum SelectionGoal {
    /// No column is remembered.
    Unset,
    /// The remembered column.
    Column(usize),
}

impl View for SelectionGoal {
    type V = Option<int>;

    open spec fn view(&self) -> Option<int> {
        match *self {
            SelectionGoal::Unset => None,
            SelectionGoal::Column(column) => Some(column as int),
        }
    }
}

/// The mathematical content of a [`Selection`].
pub struct Span {
    pub start: Point,
    pub end: Point,
    pub reversed: bool,
    pub goal: Option<int>,
}

impl Span {
    /// The end at which the cursor is.
    pub open spec fn head(self) -> Point {
        if self.reversed {
            self.start
        } else {
            self.end
        }
    }

    /// The end at which the cursor is not.
    pub open spec fn tail(self) -> Point {
        if self.reversed {
            self.end
        } else {
            self.start
        }
    }

    /// The span from the old tail to a new head: reversed exactly if the head
    /// comes before the tail.
    pub open spec fn with_head(self, head: Point, goal: Option<int>) -> Span {
        if head.before(self.tail()) {
            Span { start: head, end: self.tail(), reversed: true, goal }
        } else {
            Span { start: self.tail(), end: head, reversed: false, goal }
        }
    }
}

/// A span of the document with a cursor at one end. Nothing is assumed about
/// the order of `start` and `end`.
#[derive(Clone, Copy, Debug, PartialEq, Eq, Structural)]
pub struct Selection {
    pub start: DisplayPoint,
    pub end: DisplayPoint,
    pub reversed: bool,
    pub goal: SelectionGoal,
}

impl View for Selection {
    type V = Span;

    open spec fn view(&self) -> Span {
        Span { start: self.start@, end: self.end@, reversed: self.reversed, goal: self.goal@ }
    }
}

impl Selection {
    /// An empty selection at `point`.
    pub fn cursor(point: DisplayPoint) -> (selection: Selection)
        ensures
            selection.start == point,
            selection.end == point,
            !selection.reversed,
            selection.goal == SelectionGoal::Unset,
    {
        Selection { start: point, end: point, reversed: false, goal: SelectionGoal::Unset }
    }

    pub fn head(&self) -> (head: DisplayPoint)
        ensures
            head@ == self@.head(),
    {
        if self.reversed {
            self.start
        } else {
            self.end
        }
    }

    pub fn tail(&self) -> (tail: DisplayPoint)
        ensures
            tail@ == self@.tail(),
    {
        if self.reversed {
            self.end
        } else {
            self.start
        }
    }

    /// Moves the cursor to `head` and keeps the other end where it is.
    pub fn set_head(&mut self, head: DisplayPoint, new_goal: SelectionGoal)
        ensures
            final(self)@ == old(self)@.with_head(head@, new_goal@),
    {
        let tail = self.tail();
        if head.is_before(&tail) {
            self.start = head;
            self.end = tail;
            self.reversed = true;
        } else {
            self.start = tail;
            self.end = head;
            self.reversed = false;
        }
        self.goal = new_goal;
    }
}

} // verus!
