//! The jump between a delimiter and its partner.

use crate::display::{DisplayPoint, DisplaySnapshot, Document, Point};
use vstd::prelude::*;

verus! {

/// A delimiter to jump from and the partner to jump to.
pub struct Jump {
    pub anchor: Point,
    pub destination: Point,
}

impl Document {
    /// Where the search for delimiters ends: at the end of the cursor's line,
    /// or, with the cursor already there, at the end of the document.
    pub open spec fn bracket_search_end(self, cursor: Point) -> Point {
        if self.line_end(cursor) == cursor {
            self.max_point()
        } else {
            self.line_end(cursor)
        }
    }

    /// Whether a delimiter that starts at `anchor` can be jumped from: it is
    /// at or after the cursor and before the end of the search.
    pub open spec fn bracket_in_reach(self, cursor: Point, anchor: Point) -> bool {
        cursor.at_or_before(anchor) && anchor.before(self.bracket_search_end(cursor))
    }

    /// The jump chosen among the first `n` delimiter pairs: the one whose
    /// anchor is nearest to the cursor, and of several equally near the one
    /// met first, with the opening delimiter of a pair met before its closing
    /// one.
    pub open spec fn closest_bracket(self, cursor: Point, n: int) -> Option<Jump>
        decreases n,
    {
        if n <= 0 || n > self.brackets.len() {
            None
        } else {
            let best = self.closest_bracket(cursor, n - 1);
            let (open, close) = self.brackets[n - 1];
            if self.bracket_in_reach(cursor, open) && nearer(open, best) {
                Some(Jump { anchor: open, destination: close })
            } else if self.bracket_in_reach(cursor, close) && nearer(close, best) {
                Some(Jump { anchor: close, destination: open })
            } else {
                best
            }
        }
    }

    /// The partner of the nearest delimiter at or after `p` on its line, or
    /// `p` itself where there is none.
    pub open spec fn matching(self, p: Point) -> Point {
        match self.closest_bracket(self.clamp(p), self.brackets.len() as int) {
            Some(jump) => self.clamp(jump.destination),
            None => p,
        }
    }
}

/// Whether `anchor` is strictly nearer to the cursor than the best so far.
/// All anchors compared are at or after the cursor, so the nearer one is the
/// earlier one.
pub open spec fn nearer(anchor: Point, best: Option<Jump>) -> bool {
    match best {
        Some(jump) => anchor.before(jump.anchor),
        None => true,
    }
}

/// Jumps from the nearest delimiter at or after the cursor to its partner.
pub fn matching(map: &DisplaySnapshot, display_point: DisplayPoint) -> (moved: DisplayPoint)
    requires
        map@.wf(),
    ensures
        moved@ == map@.matching(display_point@),
{
    let point = map.clamp(display_point);
    let mut line_end = map.next_line_boundary(point);
    if line_end == point {
        line_end = map.max_point();
    }
    let mut closest_pair_destination: Option<DisplayPoint> = None;
    let mut closest_anchor: Option<DisplayPoint> = None;
    let count = map.bracket_count();
    for i in 0..count
        invariant
            map@.wf(),
            count == map@.brackets.len(),
            point@ == map@.clamp(display_point@),
            line_end@ == map@.bracket_search_end(point@),
            closest_anchor is Some == closest_pair_destination is Some,
            match map@.closest_bracket(point@, i as int) {
                Some(jump) => closest_anchor is Some && closest_anchor.unwrap()@ == jump.anchor
                    && closest_pair_destination.unwrap()@ == jump.destination,
                None => closest_anchor is None,
            },
    {
        let pair = map.bracket(i);
        let open_in_reach = !pair.open.is_before(&point) && pair.open.is_before(&line_end);
        let close_in_reach = !pair.close.is_before(&point) && pair.close.is_before(&line_end);
        if open_in_reach && is_nearer(&pair.open, &closest_anchor) {
            closest_pair_destination = Some(pair.close);
            closest_anchor = Some(pair.open);
        } else if close_in_reach && is_nearer(&pair.close, &closest_anchor) {
            closest_pair_destination = Some(pair.open);
            closest_anchor = Some(pair.close);
        }
    }
    match closest_pair_destination {
        Some(destination) => map.clamp(destination),
        None => display_point,
    }
}

/// Whether `anchor` beats the nearest anchor found so far.
fn is_nearer(anchor: &DisplayPoint, closest: &Option<DisplayPoint>) -> (b: bool)
    ensures
        b == match *closest {
            Some(best) => anchor@.before(best@),
            None => true,
        },
{
    match closest {
        Some(best) => anchor.is_before(best),
        None => true,
    }
}

} // verus!
