//! The memory of the last search on a line, and its repetition.

use crate::motion::Motion;
use vstd::prelude::*;

verus! {

impl Motion {
    /// Whether the motion is a search on the line.
    pub open spec fn is_find(&self) -> bool {
        *self is FindForward || *self is FindBackward
    }

    /// The text that a search looks for.
    pub open spec fn find_text(&self) -> Seq<char> {
        match *self {
            Motion::FindForward { text, .. } => text@,
            Motion::FindBackward { text, .. } => text@,
            _ => Seq::<char>::empty(),
        }
    }

    /// Whether a search stops one position short of what it finds.
    pub open spec fn stops_short(&self) -> bool {
        match *self {
            Motion::FindForward { before, .. } => before,
            Motion::FindBackward { after, .. } => after,
            _ => false,
        }
    }

    /// Whether `self` repeats the search `last`: in the same direction, or
    /// with `reverse` in the other one, for the same text, stopping short
    /// exactly if `last` does.
    pub open spec fn repeats(&self, last: Motion, reverse: bool) -> bool {
        &&& self.is_find()
        &&& (*self is FindForward) == ((last is FindForward) != reverse)
        &&& self.find_text() == last.find_text()
        &&& self.stops_short() == last.stops_short()
    }
}

/// The last search that was made, kept by the session that owns it.
pub struct FindMemory {
    last_find: Option<Motion>,
}

impl FindMemory {
    /// The search that is remembered.
    pub closed spec fn last_find(&self) -> Option<Motion> {
        self.last_find
    }

    /// A memory that holds no search.
    pub fn new() -> (memory: FindMemory)
        ensures
            memory.last_find() is None,
    {
        FindMemory { last_find: None }
    }

    /// Remembers `motion` if it is a search, in place of the one remembered
    /// before. Any other motion leaves the memory as it is.
    pub fn record_last_find(&mut self, motion: Motion)
        ensures
            final(self).last_find() == if motion.is_find() {
                Some(motion)
            } else {
                old(self).last_find()
            },
    {
        match motion {
            Motion::FindForward { .. } | Motion::FindBackward { .. } => {
                self.last_find = Some(motion);
            },
            _ => {},
        }
    }

    /// The motion that repeats the remembered search, in the other direction
    /// if `reverse` is set. `None` where no search is remembered.
    pub fn repeat_last_find(&self, reverse: bool) -> (find: Option<Motion>)
        ensures
            match self.last_find() {
                Some(last) => (find is Some) == last.is_find() && (find is Some
                    ==> find.unwrap().repeats(last, reverse)),
                None => find is None,
            },
    {
        match &self.last_find {
            Some(Motion::FindForward { before, text }) => {
                if reverse {
                    Some(Motion::FindBackward { after: *before, text: text.clone() })
                } else {
                    Some(Motion::FindForward { before: *before, text: text.clone() })
                }
            },
            Some(Motion::FindBackward { after, text }) => {
                if reverse {
                    Some(Motion::FindForward { before: *after, text: text.clone() })
                } else {
                    Some(Motion::FindBackward { after: *after, text: text.clone() })
                }
            },
            _ => None,
        }
    }
}

} // verus!
