//! What holds of the motions whatever the document and the cursor.

use crate::chars::{kind_of, whitespace};
use crate::display::{Document, Point};
use crate::find::{nth_occurrence_from, nth_occurrence_until, occurs_at};
use crate::line::first_non_whitespace_column;
use crate::motion::{times_of, Motion};
use crate::movement::{repeated, BoundaryPredicate};
use crate::selection::Span;
use crate::word::{PreviousWordStartBoundary, WordStartBoundary};
use vstd::prelude::*;

verus! {

/// Clipping gives a position of the document, and leaves a clipped position
/// where it is.
pub proof fn lemma_clip_settles(doc: Document, p: Point)
    requires
        doc.wf(),
    ensures
        doc.contains(doc.clip(p)),
        doc.clip(doc.clip(p)) == doc.clip(p),
        doc.contains(p) ==> doc.clamp(p) == p,
{
}

/// A motion for which an unchanged position is success never fails, not even
/// at the ends of the document.
pub proof fn lemma_infallible_never_fails(
    motion: Motion,
    doc: Document,
    p: Point,
    goal: Option<int>,
    maybe_times: Option<int>,
)
    requires
        motion.is_infallible(),
    ensures
        motion.resolve(doc, p, goal, maybe_times) is Some,
{
}

/// Every other motion fails exactly where it would leave the cursor in
/// place.
pub proof fn lemma_failure_is_standstill(
    motion: Motion,
    doc: Document,
    p: Point,
    goal: Option<int>,
    maybe_times: Option<int>,
)
    requires
        !motion.is_infallible(),
    ensures
        motion.resolve(doc, p, goal, maybe_times) is None <==> motion.target(
            doc,
            p,
            goal,
            maybe_times,
        ).0 == p,
{
}

/// Moving to the end of the line a second time moves no further.
pub proof fn lemma_end_of_line_idempotent(doc: Document, p: Point)
    requires
        doc.wf(),
    ensures
        doc.end_of_line(doc.end_of_line(p)) == doc.end_of_line(p),
{
}

/// `EndOfLine` and `CurrentLine` land on the same position, and from there
/// both land on it again, whatever the count.
pub proof fn lemma_end_of_line_motions_idempotent(
    doc: Document,
    p: Point,
    goal: Option<int>,
    first_times: Option<int>,
    second_times: Option<int>,
)
    requires
        doc.wf(),
    ensures
        ({
            let once = (Motion::EndOfLine).target(doc, p, goal, first_times);
            let again = (Motion::EndOfLine).target(doc, once.0, once.1, second_times);
            let line = (Motion::CurrentLine).target(doc, p, goal, first_times);
            let line_again = (Motion::CurrentLine).target(doc, line.0, line.1, second_times);
            &&& again == once
            &&& line == once
            &&& line_again == once
        }),
{
    lemma_end_of_line_idempotent(doc, p);
}

/// Where a characterwise motion that excludes its last character, other than
/// `Backspace`, leaves a span that ends in the first column of a later row
/// than it starts in, the operator's span ends at the end of the row before
/// and starts where it did: the motion has become inclusive.
pub proof fn lemma_promotion(motion: Motion, doc: Document, span: Span)
    requires
        doc.wf(),
        !motion.is_linewise(),
        !motion.is_inclusive(),
        !(motion is Backspace),
        0 <= span.start.row < span.end.row <= doc.max_row(),
        span.end.column == 0,
    ensures
        motion.promotes(span),
        motion.characterwise_span(doc, span).end == doc.line_end(
            Point { row: span.end.row - 1, column: 0 },
        ),
        motion.characterwise_span(doc, span).end == (Point {
            row: span.end.row - 1,
            column: doc.line_len(span.end.row - 1),
        }),
        motion.characterwise_span(doc, span).start == span.start,
{
}

/// The same for a whole expansion: with the cursor at the end of a span that
/// is not reversed, a motion as above that moves the cursor into the first
/// column of a row after the one the span starts in gives the operator the
/// text up to the end of the row before the landing row.
pub proof fn lemma_expansion_promotes(
    motion: Motion,
    doc: Document,
    span: Span,
    maybe_times: Option<int>,
    surrounding_newline: bool,
)
    requires
        doc.wf(),
        !span.reversed,
        !motion.is_linewise(),
        !motion.is_inclusive(),
        !(motion is Backspace),
        ({
            let landing = motion.target(doc, span.head(), span.goal, maybe_times).0;
            &&& landing != span.head()
            &&& 0 <= span.start.row < landing.row <= doc.max_row()
            &&& landing.column == 0
        }),
    ensures
        ({
            let landing = motion.target(doc, span.head(), span.goal, maybe_times).0;
            let expanded = motion.expanded(doc, span, maybe_times, surrounding_newline);
            &&& expanded is Some
            &&& expanded.unwrap().start == span.start
            &&& expanded.unwrap().end == (Point {
                row: landing.row - 1,
                column: doc.line_len(landing.row - 1),
            })
            &&& expanded.unwrap().head() == expanded.unwrap().end
        }),
{
    let landing = motion.target(doc, span.head(), span.goal, maybe_times);
    let moved = span.with_head(landing.0, landing.1);
    assert(!landing.0.before(span.tail()));
    assert(moved.start == span.start && moved.end == landing.0);
    lemma_promotion(motion, doc, moved);
}

/// A forward scan with a predicate that keeps no memory stops at the first
/// position, from the one it starts at, where the predicate fires on the
/// characters to the left and right, and at the end of the document where
/// there is none.
pub proof fn lemma_boundary_is_first<P: BoundaryPredicate>(
    doc: Document,
    pred: P,
    left: char,
    x: Point,
)
    requires
        doc.wf(),
        doc.contains(x),
        !(x.row == 0 && x.column == 0),
        left == doc.char_at(doc.prev(x)),
        forall|l: char, r: char| #[trigger] pred.after(l, r) == pred,
    ensures
        doc.contains(doc.boundary_from(pred, left, x)),
        x.at_or_before(doc.boundary_from(pred, left, x)),
        ({
            let found = doc.boundary_from(pred, left, x);
            found != doc.max_point() ==> pred.fires(doc.char_at(doc.prev(found)), doc.char_at(found))
        }),
        forall|t: Point|
            doc.contains(t) && x.at_or_before(t) && t.before(doc.boundary_from(pred, left, x))
                ==> !pred.fires(doc.char_at(doc.prev(t)), #[trigger] doc.char_at(t)),
    decreases doc.max_row() - x.row, doc.line_len(x.row) - x.column,
{
    if x != doc.max_point() && !pred.fires(left, doc.char_at(x)) {
        let right = doc.char_at(x);
        assert(pred.after(left, right) == pred);
        lemma_boundary_is_first(doc, pred, right, doc.next(x));
        let found = doc.boundary_from(pred, left, x);
        assert forall|t: Point|
            doc.contains(t) && x.at_or_before(t) && t.before(found) implies !pred.fires(
            doc.char_at(doc.prev(t)),
            #[trigger] doc.char_at(t),
        ) by {
            if t != x {
                assert(doc.next(x).at_or_before(t));
            }
        }
    }
}

/// A backward scan with a predicate that keeps no memory stops at the last
/// position, from the one it starts at, where the predicate fires on the
/// characters to the left and right, and at the start of the document where
/// there is none.
pub proof fn lemma_preceding_boundary_is_last<P: BoundaryPredicate>(
    doc: Document,
    pred: P,
    right: char,
    y: Point,
)
    requires
        doc.wf(),
        doc.contains(y),
        y != doc.max_point(),
        right == doc.char_at(y),
        forall|l: char, r: char| #[trigger] pred.after(l, r) == pred,
    ensures
        doc.contains(doc.preceding_boundary_from(pred, right, y)),
        doc.preceding_boundary_from(pred, right, y).at_or_before(y),
        ({
            let found = doc.preceding_boundary_from(pred, right, y);
            !(found.row == 0 && found.column == 0) ==> pred.fires(
                doc.char_at(doc.prev(found)),
                doc.char_at(found),
            )
        }),
        forall|t: Point|
            doc.contains(t) && doc.preceding_boundary_from(pred, right, y).before(t)
                && t.at_or_before(y) ==> !pred.fires(
                doc.char_at(doc.prev(t)),
                #[trigger] doc.char_at(t),
            ),
    decreases y.row, y.column,
{
    if !(y.row == 0 && y.column == 0) {
        let left = doc.char_at(doc.prev(y));
        if !pred.fires(left, right) {
            assert(pred.after(left, right) == pred);
            lemma_preceding_boundary_is_last(doc, pred, left, doc.prev(y));
            let found = doc.preceding_boundary_from(pred, right, y);
            assert forall|t: Point|
                doc.contains(t) && found.before(t) && t.at_or_before(y) implies !pred.fires(
                doc.char_at(doc.prev(t)),
                #[trigger] doc.char_at(t),
            ) by {
                if t != y {
                    assert(t.at_or_before(doc.prev(y)));
                }
            }
        }
    }
}

impl Document {
    /// Whether a word starts at `t`, or an empty line that follows a line
    /// break: what stops a forward scan for the start of a word wherever it
    /// began.
    pub open spec fn word_starts_at(self, t: Point, ignore_punctuation: bool) -> bool {
        let left = self.char_at(self.prev(t));
        let right = self.char_at(t);
        ||| (kind_of(left).coerced(ignore_punctuation) != kind_of(right).coerced(
            ignore_punctuation,
        ) && !whitespace(right))
        ||| (left == '\n' && right == '\n')
    }

    /// Whether no row after the first begins with whitespace.
    pub open spec fn no_indented_lines(self) -> bool {
        forall|row: int|
            0 < row <= self.max_row() && self.line_len(row) > 0 ==> !whitespace(
                #[trigger] self.lines[row][0],
            )
    }
}

/// A forward scan for the start of a word ends at or after the position it
/// is started at, and passes no start of a word on the way.
proof fn lemma_word_start_scan(doc: Document, pred: WordStartBoundary, left: char, x: Point)
    requires
        doc.wf(),
        doc.contains(x),
        !(x.row == 0 && x.column == 0),
        left == doc.char_at(doc.prev(x)),
    ensures
        doc.contains(doc.boundary_from(pred, left, x)),
        x.at_or_before(doc.boundary_from(pred, left, x)),
        forall|t: Point|
            doc.contains(t) && x.at_or_before(t) && t.before(doc.boundary_from(pred, left, x))
                ==> !#[trigger] doc.word_starts_at(t, pred.ignore_punctuation),
    decreases doc.max_row() - x.row, doc.line_len(x.row) - x.column,
{
    if x != doc.max_point() && !pred.fires(left, doc.char_at(x)) {
        let right = doc.char_at(x);
        assert(!doc.word_starts_at(x, pred.ignore_punctuation));
        lemma_word_start_scan(doc, pred.after(left, right), right, doc.next(x));
        let found = doc.boundary_from(pred, left, x);
        assert forall|t: Point|
            doc.contains(t) && x.at_or_before(t) && t.before(found) implies !#[trigger] doc.word_starts_at(
            t,
            pred.ignore_punctuation,
        ) by {
            if t != x {
                assert(doc.next(x).at_or_before(t));
            }
        }
    }
}

/// A backward scan for the start of a word ends at or before `lo` where no
/// start of a word, and no start of a line, lies after `lo` up to the
/// position it is started at.
proof fn lemma_previous_word_scan(
    doc: Document,
    pred: PreviousWordStartBoundary,
    right: char,
    y: Point,
    lo: Point,
)
    requires
        doc.wf(),
        doc.contains(y),
        doc.contains(lo),
        y != doc.max_point(),
        right == doc.char_at(y),
        forall|t: Point|
            doc.contains(t) && lo.before(t) && t.at_or_before(y) ==> !pred.fires(
                doc.char_at(doc.prev(t)),
                #[trigger] doc.char_at(t),
            ),
    ensures
        doc.contains(doc.preceding_boundary_from(pred, right, y)),
        doc.preceding_boundary_from(pred, right, y).at_or_before(y),
        doc.preceding_boundary_from(pred, right, y).at_or_before(lo),
    decreases y.row, y.column,
{
    if !(y.row == 0 && y.column == 0) {
        let left = doc.char_at(doc.prev(y));
        if pred.fires(left, right) {
            assert(!lo.before(y));
        } else {
            lemma_previous_word_scan(doc, pred.after(left, right), left, doc.prev(y), lo);
        }
    }
}

/// From the start of the next word, the start of the previous word is at or
/// before the position that the cursor came from: going forward by a word and
/// back by a word never ends behind the start. This holds where no row after
/// the first begins with whitespace; behind an indented row the way back ends
/// at the start of that row.
pub proof fn lemma_word_forward_then_back(doc: Document, p: Point, ignore_punctuation: bool)
    requires
        doc.wf(),
        doc.contains(p),
        doc.no_indented_lines(),
    ensures
        doc.word_start_before(doc.word_start_after(p, ignore_punctuation), ignore_punctuation)
            .at_or_before(p),
        doc.previous_word_start(
            doc.next_word_start(p, ignore_punctuation, 1),
            ignore_punctuation,
            1,
        ).at_or_before(p),
{
    let forward = WordStartBoundary { ignore_punctuation, crossed_newline: false };
    let backward = PreviousWordStartBoundary { ignore_punctuation };
    let landing = doc.word_start_after(p, ignore_punctuation);
    let zero = Point { row: 0, column: 0 };
    if p != doc.max_point() {
        lemma_word_start_scan(doc, forward, doc.char_at(p), doc.next(p));
    }
    let found = if p == doc.max_point() {
        p
    } else {
        doc.boundary_from(forward, doc.char_at(p), doc.next(p))
    };
    assert(landing == doc.clip(found));
    assert(landing.at_or_before(found));
    if landing != zero {
        let y = doc.prev(landing);
        assert forall|t: Point|
            doc.contains(t) && p.before(t) && t.at_or_before(y) implies !backward.fires(
            doc.char_at(doc.prev(t)),
            #[trigger] doc.char_at(t),
        ) by {
            assert(t.before(found));
            assert(doc.next(p).at_or_before(t));
            assert(!doc.word_starts_at(t, ignore_punctuation));
            if doc.char_at(doc.prev(t)) == '\n' {
                assert(t.column == 0 && t.row > 0);
                if doc.line_len(t.row) > 0 {
                    assert(!whitespace(doc.lines[t.row][0]));
                }
            }
        }
        lemma_previous_word_scan(doc, backward, doc.char_at(y), y, p);
    }
    assert(doc.next_word_start(p, ignore_punctuation, 1) == landing) by {
        reveal_with_fuel(crate::movement::repeated, 2);
    }
    assert(doc.previous_word_start(landing, ignore_punctuation, 1) == doc.word_start_before(
        landing,
        ignore_punctuation,
    )) by {
        reveal_with_fuel(crate::movement::repeated, 2);
    }
}

/// What holds at the start and is kept by every step holds after any number
/// of steps.
pub proof fn lemma_repeated_keeps<A>(
    step: spec_fn(A) -> A,
    holds: spec_fn(A) -> bool,
    times: int,
    start: A,
)
    requires
        holds(start),
        forall|a: A| holds(a) ==> holds(#[trigger] step(a)),
    ensures
        holds(repeated(step, times, start)),
    decreases times,
{
    if times > 0 {
        lemma_repeated_keeps(step, holds, times - 1, step(start));
    }
}

/// The `times`-th occurrence from a column on is an occurrence, and starts at
/// that column or later.
pub proof fn lemma_nth_occurrence_from(
    line: Seq<char>,
    column: int,
    target: Seq<char>,
    times: int,
)
    ensures
        match nth_occurrence_from(line, column, target, times) {
            Some(found) => column <= found && occurs_at(line, found, target),
            None => true,
        },
    decreases line.len() - column,
{
    if 0 <= column < line.len() {
        if occurs_at(line, column, target) {
            if times > 1 {
                lemma_nth_occurrence_from(line, column + 1, target, times - 1);
            }
        } else {
            lemma_nth_occurrence_from(line, column + 1, target, times);
        }
    }
}

/// The `times`-th occurrence back from a column is an occurrence, and ends at
/// that column or earlier.
pub proof fn lemma_nth_occurrence_until(
    line: Seq<char>,
    column: int,
    target: Seq<char>,
    times: int,
)
    ensures
        match nth_occurrence_until(line, column, target, times) {
            Some(found) => found <= column && occurs_at(line, found - target.len(), target),
            None => true,
        },
    decreases column,
{
    if 0 < column <= line.len() {
        if occurs_at(line, column - target.len(), target) {
            if times > 1 {
                lemma_nth_occurrence_until(line, column - 1, target, times - 1);
            }
        } else {
            lemma_nth_occurrence_until(line, column - 1, target, times);
        }
    }
}

/// The search for the end of a paragraph ends on a row of the document: at the
/// start of a blank row, or at the end of the document.
pub proof fn lemma_paragraph_end(doc: Document, row: int, found: bool, count: int)
    requires
        doc.wf(),
    ensures
        doc.contains(doc.paragraph_end_from(row, found, count)),
        ({
            let end = doc.paragraph_end_from(row, found, count);
            end == doc.max_point() || (end.column == 0 && row <= end.row && doc.is_line_blank(
                end.row,
            ))
        }),
    decreases doc.max_row() - row + 1,
{
    if 0 <= row <= doc.max_row() {
        if found && doc.is_line_blank(row) {
            if count > 1 {
                lemma_paragraph_end(doc, row + 1, false, count - 1);
            }
        } else {
            lemma_paragraph_end(doc, row + 1, found || !doc.is_line_blank(row), count);
        }
    }
}

/// The search for the start of a paragraph ends on a row of the document: at
/// the start of a blank row, or at the start of the document.
pub proof fn lemma_paragraph_start(doc: Document, row: int, found: bool, count: int)
    requires
        doc.wf(),
    ensures
        doc.contains(doc.paragraph_start_from(row, found, count)),
        ({
            let start = doc.paragraph_start_from(row, found, count);
            start.column == 0 && (start.row == 0 || (start.row <= row && doc.is_line_blank(
                start.row,
            )))
        }),
    decreases row + 1,
{
    if 0 <= row <= doc.max_row() {
        if found && doc.is_line_blank(row) {
            if count > 1 {
                lemma_paragraph_start(doc, row - 1, false, count - 1);
            }
        } else {
            lemma_paragraph_start(doc, row - 1, found || !doc.is_line_blank(row), count);
        }
    }
}

/// The first character that is not whitespace, from a column on: it lies at
/// that column or later, nothing but whitespace lies before it, and where
/// there is none the result is the length of the line.
pub proof fn lemma_first_non_whitespace_column(line: Seq<char>, from: int)
    requires
        0 <= from <= line.len(),
    ensures
        from <= first_non_whitespace_column(line, from) <= line.len(),
        first_non_whitespace_column(line, from) < line.len() ==> !whitespace(
            line[first_non_whitespace_column(line, from)],
        ),
        forall|c: int|
            from <= c < first_non_whitespace_column(line, from) ==> whitespace(#[trigger] line[c]),
    decreases line.len() - from,
{
    if from < line.len() && whitespace(line[from]) {
        lemma_first_non_whitespace_column(line, from + 1);
    }
}

/// Steps by columns, characters and rows stay in the document.
proof fn lemma_steps_in_document(doc: Document, p: Point, goal: Option<int>, times: int)
    requires
        doc.wf(),
        doc.contains(p),
    ensures
        doc.contains(doc.left_by(p, times)),
        doc.contains(doc.backspace_by(p, times)),
        doc.contains(doc.right_by(p, times)),
        doc.contains(doc.down_by(p, goal, times).0),
        doc.contains(doc.up_by(p, goal, times).0),
{
    let inside = |q: Point| doc.contains(q);
    let state_inside = |s: (Point, Option<int>)| doc.contains(s.0);
    lemma_repeated_keeps(|q: Point| doc.saturating_left(q), inside, times, p);
    lemma_repeated_keeps(|q: Point| doc.left(q), inside, times, p);
    lemma_repeated_keeps(|q: Point| doc.saturating_right(q), inside, times, p);
    lemma_repeated_keeps(
        |s: (Point, Option<int>)| doc.down(s.0, s.1),
        state_inside,
        times,
        (p, goal),
    );
    lemma_repeated_keeps(|s: (Point, Option<int>)| doc.up(s.0, s.1), state_inside, times, (p, goal));
}

/// Steps by words stay in the document.
proof fn lemma_words_in_document(doc: Document, p: Point, ignore_punctuation: bool, times: int)
    requires
        doc.wf(),
        doc.contains(p),
    ensures
        doc.contains(doc.next_word_start(p, ignore_punctuation, times)),
        doc.contains(doc.next_word_end(p, ignore_punctuation, times)),
        doc.contains(doc.previous_word_start(p, ignore_punctuation, times)),
{
    let inside = |q: Point| doc.contains(q);
    lemma_repeated_keeps(|q: Point| doc.word_start_after(q, ignore_punctuation), inside, times, p);
    lemma_repeated_keeps(|q: Point| doc.word_end_after(q, ignore_punctuation), inside, times, p);
    lemma_repeated_keeps(|q: Point| doc.word_start_before(q, ignore_punctuation), inside, times, p);
}

/// No motion takes a cursor out of the document.
pub proof fn lemma_target_in_document(
    motion: Motion,
    doc: Document,
    p: Point,
    goal: Option<int>,
    maybe_times: Option<int>,
)
    requires
        doc.wf(),
        doc.contains(p),
    ensures
        doc.contains(motion.target(doc, p, goal, maybe_times).0),
{
    let times = times_of(maybe_times);
    match motion {
        Motion::Left | Motion::Backspace | Motion::Right | Motion::Down | Motion::Up => {
            lemma_steps_in_document(doc, p, goal, times);
        },
        Motion::NextWordStart { ignore_punctuation } => {
            lemma_words_in_document(doc, p, ignore_punctuation, times);
        },
        Motion::NextWordEnd { ignore_punctuation } => {
            lemma_words_in_document(doc, p, ignore_punctuation, times);
        },
        Motion::PreviousWordStart { ignore_punctuation } => {
            lemma_words_in_document(doc, p, ignore_punctuation, times);
        },
        Motion::FirstNonWhitespace => {
            lemma_first_non_whitespace_column(doc.line(p.row), 0);
        },
        Motion::NextLineStart => {
            let row = if p.row + times < doc.max_row() {
                p.row + times
            } else {
                doc.max_row()
            };
            lemma_first_non_whitespace_column(
                doc.line(doc.clip(Point { row, column: 0 }).row),
                0,
            );
        },
        Motion::StartOfParagraph => {
            lemma_paragraph_start(doc, doc.clamp_row(p.row), false, times);
        },
        Motion::FindForward { before, text } => {
            lemma_nth_occurrence_from(doc.line(p.row), p.column + 1, text@, times);
        },
        Motion::FindBackward { after, text } => {
            lemma_nth_occurrence_until(doc.line(p.row), p.column, text@, times);
        },
        _ => {},
    }
}

impl Document {
    /// Whether every delimiter pair opens at or before the place where it
    /// closes.
    pub open spec fn brackets_ordered(self) -> bool {
        forall|i: int|
            0 <= i < self.brackets.len() ==> (#[trigger] self.brackets[i]).0.at_or_before(
                self.brackets[i].1,
            )
    }
}

/// In a document whose delimiter pairs each open before they close, the jump
/// that bracket matching chooses starts at a delimiter in reach of the cursor,
/// leads to the partner of that delimiter, and no delimiter in reach is nearer
/// to the cursor. Where it chooses none, no delimiter is in reach.
pub proof fn lemma_closest_bracket(doc: Document, cursor: Point, n: int)
    requires
        0 <= n <= doc.brackets.len(),
        doc.brackets_ordered(),
    ensures
        match doc.closest_bracket(cursor, n) {
            Some(jump) => {
                &&& doc.bracket_in_reach(cursor, jump.anchor)
                &&& exists|i: int|
                    0 <= i < n && (doc.brackets[i] == (jump.anchor, jump.destination)
                        || #[trigger] doc.brackets[i] == (jump.destination, jump.anchor))
                &&& forall|i: int|
                    0 <= i < n ==> {
                        let pair = #[trigger] doc.brackets[i];
                        &&& doc.bracket_in_reach(cursor, pair.0) ==> jump.anchor.at_or_before(
                            pair.0,
                        )
                        &&& doc.bracket_in_reach(cursor, pair.1) ==> jump.anchor.at_or_before(
                            pair.1,
                        )
                    }
            },
            None => forall|i: int|
                0 <= i < n ==> {
                    let pair = #[trigger] doc.brackets[i];
                    !doc.bracket_in_reach(cursor, pair.0) && !doc.bracket_in_reach(cursor, pair.1)
                },
        },
    decreases n,
{
    if n > 0 {
        lemma_closest_bracket(doc, cursor, n - 1);
        let best = doc.closest_bracket(cursor, n - 1);
        let chosen = doc.closest_bracket(cursor, n);
        let pair = doc.brackets[n - 1];
        if chosen != best {
            let jump = chosen.unwrap();
            assert(doc.brackets[n - 1] == (jump.anchor, jump.destination) || doc.brackets[n - 1] == (
                jump.destination,
                jump.anchor,
            ));
        } else if best is Some {
            let jump = best.unwrap();
            let i = choose|i: int|
                0 <= i < n - 1 && (doc.brackets[i] == (jump.anchor, jump.destination)
                    || #[trigger] doc.brackets[i] == (jump.destination, jump.anchor));
            assert(0 <= i < n);
        }
    }
}

} // verus!
