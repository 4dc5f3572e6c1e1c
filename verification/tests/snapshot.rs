use vim_motion::display::{Bias, BracketPair, DisplayPoint, DisplaySnapshot};
use vim_motion::movement;
use vim_motion::selection::{Selection, SelectionGoal};

fn at(row: usize, column: usize) -> DisplayPoint {
    DisplayPoint::new(row, column)
}

#[test]
fn text_is_cut_at_line_breaks() {
    let map = DisplaySnapshot::new("one\n\nthree\n", Vec::new(), false);
    assert_eq!(map.max_buffer_row(), 3);
    assert_eq!(map.line_len(0), 3);
    assert_eq!(map.line_len(1), 0);
    assert_eq!(map.line_len(2), 5);
    assert_eq!(map.line_len(3), 0);
    assert_eq!(map.max_point(), at(3, 0));
    assert_eq!(map.line(2), &vec!['t', 'h', 'r', 'e', 'e']);
}

#[test]
fn empty_text_has_one_empty_line() {
    let map = DisplaySnapshot::new("", Vec::new(), true);
    assert_eq!(map.max_buffer_row(), 0);
    assert_eq!(map.line_len(0), 0);
    assert_eq!(map.max_point(), at(0, 0));
    assert_eq!(map.clip_point(at(7, 7), Bias::Left), at(0, 0));
    assert!(map.is_line_blank(0));
}

#[test]
fn rows_past_the_end_read_as_the_last_row() {
    let map = DisplaySnapshot::new("ab\ncdef", Vec::new(), false);
    assert_eq!(map.line_len(1), 4);
    assert_eq!(map.line_len(2), 4);
    assert_eq!(map.line_len(usize::MAX), 4);
}

#[test]
fn clipping_clamps_row_then_column() {
    let map = DisplaySnapshot::new("ab\ncdef", Vec::new(), false);
    assert!(!map.clips_at_line_ends());
    assert_eq!(map.clip_point(at(0, 1), Bias::Left), at(0, 1));
    assert_eq!(map.clip_point(at(0, 2), Bias::Left), at(0, 2));
    assert_eq!(map.clip_point(at(0, 9), Bias::Left), at(0, 2));
    assert_eq!(map.clip_point(at(5, 3), Bias::Right), at(1, 3));
    assert_eq!(map.clip_point(at(5, 9), Bias::Right), at(1, 4));
    assert_eq!(map.clamp(at(usize::MAX, usize::MAX)), at(1, 4));
}

#[test]
fn clipping_keeps_the_cursor_on_a_character() {
    let map = DisplaySnapshot::new("ab\n\ncdef", Vec::new(), true);
    assert!(map.clips_at_line_ends());
    assert_eq!(map.clip_point(at(0, 1), Bias::Left), at(0, 1));
    assert_eq!(map.clip_point(at(0, 2), Bias::Left), at(0, 1));
    assert_eq!(map.clip_point(at(0, 9), Bias::Right), at(0, 1));
    assert_eq!(map.clip_point(at(1, 0), Bias::Left), at(1, 0));
    assert_eq!(map.clip_point(at(1, 3), Bias::Left), at(1, 0));
    assert_eq!(map.clip_point(at(9, 9), Bias::Left), at(2, 3));
}

#[test]
fn both_biases_agree() {
    let map = DisplaySnapshot::new("ab\n\ncdef", Vec::new(), true);
    for row in 0..5 {
        for column in 0..7 {
            assert_eq!(
                map.clip_point(at(row, column), Bias::Left),
                map.clip_point(at(row, column), Bias::Right)
            );
        }
    }
}

#[test]
fn clip_at_line_end_does_not_depend_on_the_mode() {
    let map = DisplaySnapshot::new("ab\n\ncdef", Vec::new(), false);
    assert_eq!(map.clip_at_line_end(at(0, 2)), at(0, 1));
    assert_eq!(map.clip_at_line_end(at(0, 1)), at(0, 1));
    assert_eq!(map.clip_at_line_end(at(1, 0)), at(1, 0));
    assert_eq!(map.clip_at_line_end(at(2, 4)), at(2, 3));
    assert_eq!(map.clip_at_line_end(at(2, 40)), at(2, 3));
}

#[test]
fn line_boundaries() {
    let map = DisplaySnapshot::new("ab\n\ncdef", Vec::new(), true);
    assert_eq!(map.prev_line_boundary(at(2, 3)), at(2, 0));
    assert_eq!(map.next_line_boundary(at(2, 1)), at(2, 4));
    assert_eq!(map.prev_line_boundary(at(1, 0)), at(1, 0));
    assert_eq!(map.next_line_boundary(at(1, 0)), at(1, 0));
    assert_eq!(map.next_line_boundary(at(7, 0)), at(2, 4));
}

#[test]
fn characters_and_neighbours() {
    let map = DisplaySnapshot::new("ab\n\ncd", Vec::new(), false);
    assert_eq!(map.char_at(at(0, 0)), 'a');
    assert_eq!(map.char_at(at(0, 2)), '\n');
    assert_eq!(map.char_at(at(1, 0)), '\n');
    assert_eq!(map.char_at(at(2, 1)), 'd');
    assert_eq!(map.next_point(at(0, 1)), at(0, 2));
    assert_eq!(map.next_point(at(0, 2)), at(1, 0));
    assert_eq!(map.next_point(at(1, 0)), at(2, 0));
    assert_eq!(map.next_point(at(2, 1)), at(2, 2));
    assert_eq!(map.prev_point(at(2, 0)), at(1, 0));
    assert_eq!(map.prev_point(at(1, 0)), at(0, 2));
    assert_eq!(map.prev_point(at(0, 2)), at(0, 1));
}

#[test]
fn blank_lines_hold_only_whitespace() {
    let map = DisplaySnapshot::new("ab\n\n \t \n x", Vec::new(), false);
    assert!(!map.is_line_blank(0));
    assert!(map.is_line_blank(1));
    assert!(map.is_line_blank(2));
    assert!(!map.is_line_blank(3));
}

#[test]
fn brackets_are_kept_in_order() {
    let first = BracketPair { open: at(0, 0), close: at(0, 3) };
    let second = BracketPair { open: at(0, 1), close: at(0, 2) };
    let map = DisplaySnapshot::new("{()}", vec![first, second], true);
    assert_eq!(map.bracket_count(), 2);
    assert_eq!(map.bracket(0), first);
    assert_eq!(map.bracket(1), second);
}

#[test]
fn points_are_ordered_by_row_then_column() {
    assert!(at(0, 5).is_before(&at(1, 0)));
    assert!(at(1, 0).is_before(&at(1, 1)));
    assert!(!at(1, 1).is_before(&at(1, 1)));
    assert!(!at(2, 0).is_before(&at(1, 9)));
    assert_eq!(DisplayPoint::zero(), at(0, 0));
}

#[test]
fn single_steps() {
    let map = DisplaySnapshot::new("ab\ncd", Vec::new(), false);
    assert_eq!(movement::saturating_left(&map, at(1, 1)), at(1, 0));
    assert_eq!(movement::saturating_left(&map, at(1, 0)), at(1, 0));
    assert_eq!(movement::left(&map, at(1, 1)), at(1, 0));
    assert_eq!(movement::left(&map, at(1, 0)), at(0, 2));
    assert_eq!(movement::left(&map, at(0, 0)), at(0, 0));
    assert_eq!(movement::saturating_right(&map, at(0, 1)), at(0, 2));
    assert_eq!(movement::saturating_right(&map, at(0, 2)), at(0, 2));
    assert_eq!(movement::saturating_right(&map, at(0, usize::MAX)), at(0, 2));
}

#[test]
fn vertical_steps_remember_the_column() {
    let map = DisplaySnapshot::new("long line\nab\nlong line", Vec::new(), true);
    let (point, goal) = movement::down(&map, at(0, 6), SelectionGoal::Unset);
    assert_eq!((point, goal), (at(1, 1), SelectionGoal::Column(6)));
    let (point, goal) = movement::down(&map, point, goal);
    assert_eq!((point, goal), (at(2, 6), SelectionGoal::Column(6)));
    let (point, goal) = movement::down(&map, point, goal);
    assert_eq!((point, goal), (at(2, 6), SelectionGoal::Column(6)));
    let (point, goal) = movement::up(&map, point, SelectionGoal::Column(3));
    assert_eq!((point, goal), (at(1, 1), SelectionGoal::Column(3)));
    let (point, goal) = movement::up(&map, point, goal);
    assert_eq!((point, goal), (at(0, 3), SelectionGoal::Column(3)));
    let (point, goal) = movement::up(&map, point, SelectionGoal::Unset);
    assert_eq!((point, goal), (at(0, 3), SelectionGoal::Unset));
}

#[test]
fn setting_the_head_keeps_the_tail() {
    let mut selection = Selection::cursor(at(1, 2));
    assert_eq!(selection.head(), at(1, 2));
    assert_eq!(selection.tail(), at(1, 2));
    selection.set_head(at(2, 0), SelectionGoal::Column(4));
    assert_eq!((selection.start, selection.end), (at(1, 2), at(2, 0)));
    assert!(!selection.reversed);
    assert_eq!(selection.goal, SelectionGoal::Column(4));
    selection.set_head(at(0, 1), SelectionGoal::Unset);
    assert_eq!((selection.start, selection.end), (at(0, 1), at(1, 2)));
    assert!(selection.reversed);
    assert_eq!(selection.head(), at(0, 1));
    assert_eq!(selection.tail(), at(1, 2));
    selection.set_head(at(1, 2), SelectionGoal::Unset);
    assert_eq!((selection.start, selection.end), (at(1, 2), at(1, 2)));
    assert!(!selection.reversed);
}
