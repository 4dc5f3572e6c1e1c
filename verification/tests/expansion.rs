use vim_motion::display::{DisplayPoint, DisplaySnapshot};
use vim_motion::motion::Motion;
use vim_motion::selection::{Selection, SelectionGoal};

fn at(row: usize, column: usize) -> DisplayPoint {
    DisplayPoint::new(row, column)
}

/// A document as an operator sees it: the cursor may stand behind a line.
fn pending(text: &str) -> DisplaySnapshot {
    DisplaySnapshot::new(text, Vec::new(), false)
}

/// The span that the operator gets for a cursor at `from`.
fn span(map: &DisplaySnapshot, motion: Motion, from: DisplayPoint, times: Option<usize>, newline: bool)
    -> Option<(DisplayPoint, DisplayPoint)> {
    let mut selection = Selection::cursor(from);
    if motion.expand_selection(map, &mut selection, times, newline) {
        Some((selection.start, selection.end))
    } else {
        assert_eq!(selection, Selection::cursor(from));
        None
    }
}

#[test]
fn a_failed_motion_leaves_the_selection_alone() {
    let map = pending("one two");
    let mut selection = Selection {
        start: at(0, 0),
        end: at(0, 3),
        reversed: true,
        goal: SelectionGoal::Column(2),
    };
    let before = selection;
    assert!(!Motion::Left.expand_selection(&map, &mut selection, None, false));
    assert_eq!(selection, before);
    assert!(!Motion::Matching.expand_selection(&map, &mut selection, Some(2), true));
    assert_eq!(selection, before);
    let find = Motion::FindForward { before: false, text: "x".to_string() };
    assert!(!find.expand_selection(&map, &mut selection, None, false));
    assert_eq!(selection, before);
}

#[test]
fn linewise_motions_take_whole_lines() {
    let map = pending("one\ntwo\nthree");
    assert_eq!(span(&map, Motion::CurrentLine, at(1, 1), None, false), Some((at(1, 0), at(1, 3))));
    assert_eq!(span(&map, Motion::Down, at(0, 2), None, false), Some((at(0, 0), at(1, 3))));
    assert_eq!(span(&map, Motion::Down, at(0, 2), Some(2), false), Some((at(0, 0), at(2, 5))));
    assert_eq!(span(&map, Motion::Up, at(2, 4), None, false), Some((at(1, 0), at(2, 5))));
    assert_eq!(
        span(&map, Motion::EndOfDocument, at(1, 1), None, false),
        Some((at(1, 0), at(2, 5)))
    );
    assert_eq!(
        span(&map, Motion::StartOfDocument, at(1, 1), None, false),
        Some((at(0, 0), at(1, 3)))
    );
    assert_eq!(span(&map, Motion::Down, at(2, 0), None, false), None);
}

#[test]
fn linewise_motions_take_one_line_break_along() {
    let map = pending("one\ntwo\nthree");
    // the line break behind the last line
    assert_eq!(span(&map, Motion::CurrentLine, at(1, 1), None, true), Some((at(1, 0), at(2, 0))));
    assert_eq!(span(&map, Motion::CurrentLine, at(0, 2), None, true), Some((at(0, 0), at(1, 0))));
    assert_eq!(span(&map, Motion::Down, at(0, 2), None, true), Some((at(0, 0), at(2, 0))));
    // at the end of the document, the one before the first line
    assert_eq!(span(&map, Motion::CurrentLine, at(2, 2), None, true), Some((at(1, 3), at(2, 5))));
    assert_eq!(span(&map, Motion::Up, at(2, 2), None, true), Some((at(0, 3), at(2, 5))));
    // and none where there is none
    assert_eq!(span(&map, Motion::Up, at(2, 2), Some(2), true), Some((at(0, 0), at(2, 5))));
    let map = pending("abc");
    assert_eq!(span(&map, Motion::CurrentLine, at(0, 1), None, true), Some((at(0, 0), at(0, 3))));
}

#[test]
fn linewise_expansion_keeps_the_cursor() {
    let map = pending("one\ntwo\nthree");
    let mut selection = Selection::cursor(at(2, 4));
    assert!(Motion::Up.expand_selection(&map, &mut selection, None, false));
    assert!(selection.reversed);
    assert_eq!(selection.start, at(1, 0));
    assert_eq!(selection.end, at(2, 5));
    assert_eq!(selection.goal, SelectionGoal::Column(4));
}

#[test]
fn exclusive_motions_stop_before_the_landing_character() {
    let map = pending("one two");
    let w = Motion::NextWordStart { ignore_punctuation: false };
    assert_eq!(span(&map, w.clone(), at(0, 0), None, false), Some((at(0, 0), at(0, 4))));
    assert_eq!(span(&map, w, at(0, 4), None, false), Some((at(0, 4), at(0, 7))));
    let b = Motion::PreviousWordStart { ignore_punctuation: false };
    assert_eq!(span(&map, b, at(0, 6), None, false), Some((at(0, 4), at(0, 6))));
    assert_eq!(span(&map, Motion::Left, at(0, 3), Some(2), false), Some((at(0, 1), at(0, 3))));
    assert_eq!(span(&map, Motion::Right, at(0, 3), Some(2), false), Some((at(0, 3), at(0, 5))));
    assert_eq!(span(&map, Motion::StartOfLine, at(0, 3), None, false), Some((at(0, 0), at(0, 3))));
    let back = Motion::FindBackward { after: false, text: "n".to_string() };
    assert_eq!(span(&map, back, at(0, 5), None, false), Some((at(0, 1), at(0, 5))));
}

#[test]
fn inclusive_spans_reach_behind_the_landing_character() {
    let map = pending("one two");
    let e = Motion::NextWordEnd { ignore_punctuation: false };
    assert_eq!(span(&map, e.clone(), at(0, 0), None, false), Some((at(0, 0), at(0, 3))));
    assert_eq!(span(&map, e, at(0, 4), None, false), Some((at(0, 4), at(0, 7))));
    assert_eq!(span(&map, Motion::EndOfLine, at(0, 1), None, false), Some((at(0, 1), at(0, 7))));
    let find = Motion::FindForward { before: false, text: "t".to_string() };
    assert_eq!(span(&map, find, at(0, 0), None, false), Some((at(0, 0), at(0, 5))));
    let till = Motion::FindForward { before: true, text: "t".to_string() };
    assert_eq!(span(&map, till, at(0, 0), None, false), Some((at(0, 0), at(0, 4))));
}

#[test]
fn inclusive_spans_are_the_same_in_both_modes() {
    for clip in [false, true] {
        let map = DisplaySnapshot::new("one two", Vec::new(), clip);
        assert_eq!(
            span(&map, Motion::EndOfLine, at(0, 1), None, false),
            Some((at(0, 1), at(0, 7)))
        );
    }
}

#[test]
fn a_span_that_ends_at_the_start_of_a_line_is_cut_back() {
    let map = pending("abc\ndef\n\nghi");
    let w = Motion::NextWordStart { ignore_punctuation: false };
    assert_eq!(span(&map, w.clone(), at(0, 0), None, false), Some((at(0, 0), at(0, 3))));
    assert_eq!(span(&map, w.clone(), at(0, 2), None, false), Some((at(0, 2), at(0, 3))));
    assert_eq!(span(&map, w.clone(), at(0, 0), Some(2), false), Some((at(0, 0), at(1, 3))));
    // onto an empty line: the row before the landing row ends the span
    assert_eq!(span(&map, w.clone(), at(1, 1), None, false), Some((at(1, 1), at(1, 3))));
    // the row before may be empty itself
    assert_eq!(span(&map, w, at(1, 1), Some(2), false), Some((at(1, 1), at(2, 0))));
    // backwards the span ends where the cursor was
    let b = Motion::PreviousWordStart { ignore_punctuation: false };
    assert_eq!(span(&map, b, at(1, 0), None, false), Some((at(0, 0), at(0, 3))));
    // so it is where cursors are kept on characters
    let map = DisplaySnapshot::new("abc\ndef\n\nghi", Vec::new(), true);
    let w = Motion::NextWordStart { ignore_punctuation: false };
    assert_eq!(span(&map, w, at(0, 0), None, false), Some((at(0, 0), at(0, 3))));
}

#[test]
fn backspace_takes_the_line_break() {
    let map = pending("ab\ncd");
    assert_eq!(span(&map, Motion::Backspace, at(1, 0), None, false), Some((at(0, 2), at(1, 0))));
    assert_eq!(span(&map, Motion::Backspace, at(1, 0), Some(2), false), Some((at(0, 1), at(1, 0))));
    assert_eq!(span(&map, Motion::Backspace, at(1, 1), None, false), Some((at(1, 0), at(1, 1))));
}

#[test]
fn matching_spans_include_the_partner() {
    let pair = vim_motion::display::BracketPair { open: at(0, 1), close: at(1, 0) };
    let map = DisplaySnapshot::new("f{\n}", vec![pair], false);
    assert_eq!(span(&map, Motion::Matching, at(0, 0), None, false), Some((at(0, 0), at(1, 1))));
    assert_eq!(span(&map, Motion::Matching, at(1, 0), None, false), Some((at(0, 1), at(1, 1))));
}

#[test]
fn extending_a_selection_moves_its_head() {
    let map = pending("one two three");
    let mut selection = Selection {
        start: at(0, 4),
        end: at(0, 8),
        reversed: true,
        goal: SelectionGoal::Unset,
    };
    let w = Motion::NextWordStart { ignore_punctuation: false };
    // the head jumps over the tail: the span turns round
    assert!(w.expand_selection(&map, &mut selection, Some(2), false));
    assert_eq!((selection.start, selection.end), (at(0, 8), at(0, 13)));
    assert!(!selection.reversed);
    let mut selection = Selection {
        start: at(0, 4),
        end: at(0, 8),
        reversed: true,
        goal: SelectionGoal::Unset,
    };
    let b = Motion::PreviousWordStart { ignore_punctuation: false };
    assert!(b.expand_selection(&map, &mut selection, None, false));
    assert_eq!((selection.start, selection.end), (at(0, 0), at(0, 8)));
    assert!(selection.reversed);
}
