//! Navigation and edit behavior of the editor buffer.
use texted::coord::Coord;
use texted::editor::FileEdit;

fn line(s: &str) -> Vec<char> {
    s.chars().collect()
}

fn lines_of(ed: &FileEdit) -> Vec<String> {
    ed.lines.iter().map(|l| l.iter().collect()).collect()
}

fn buffer(cols: usize, rows: usize, lines: &[&str]) -> FileEdit {
    let ls = lines.iter().map(|s| line(s)).collect();
    FileEdit::from_lines(Coord(cols, rows), Some("f".to_string()), ls)
}

#[test]
fn from_empty_input_yields_one_empty_line() {
    let ed = FileEdit::from_lines(Coord(10, 5), None, Vec::new());
    assert_eq!(lines_of(&ed), vec![String::new()]);
    assert_eq!(ed.offset, Coord(0, 0));
    assert_eq!(ed.cursor, Coord(0, 0));
    assert!(!ed.dirty);
}

#[test]
fn scenario_a_newline_then_backspace() {
    // Document ["abc", "def"], viewport width >= 3, cursor at column 3 row 0.
    let mut ed = buffer(10, 5, &["abc", "def"]);
    ed.end();
    assert_eq!(ed.cursor, Coord(3, 0));
    ed.insert('\n');
    assert_eq!(lines_of(&ed), vec!["abc", "", "def"]);
    assert_eq!(ed.offset, Coord(0, 0));
    assert_eq!(ed.cursor, Coord(0, 1));
    ed.insert('\x08');
    assert_eq!(lines_of(&ed), vec!["abc", "def"]);
    assert_eq!(ed.offset, Coord(0, 0));
    assert_eq!(ed.cursor, Coord(3, 0));
}

#[test]
fn scenario_b_delete_line_keeps_one_empty_line() {
    let mut ed = buffer(10, 5, &[""]);
    let removed = ed.delete_line();
    assert_eq!(removed, Vec::<char>::new());
    assert_eq!(lines_of(&ed), vec![""]);
    assert_eq!(ed.offset, Coord(0, 0));
    assert_eq!(ed.cursor, Coord(0, 0));
}

#[test]
fn insert_then_backspace_restores_line_and_position() {
    let mut ed = buffer(10, 5, &["hello"]);
    ed.cursor_right();
    ed.cursor_right();
    ed.insert('x');
    assert_eq!(lines_of(&ed), vec!["hexllo"]);
    assert_eq!(ed.cursor, Coord(3, 0));
    ed.insert('\x08');
    assert_eq!(lines_of(&ed), vec!["hello"]);
    assert_eq!(ed.cursor, Coord(2, 0));
    assert!(ed.dirty);
}

#[test]
fn backspace_at_document_start_is_a_complete_no_op() {
    let mut ed = buffer(10, 5, &["ab", "cd"]);
    ed.insert('\x08');
    assert_eq!(lines_of(&ed), vec!["ab", "cd"]);
    assert_eq!(ed.cursor, Coord(0, 0));
    // nothing changed, so the document stays clean
    assert!(!ed.dirty);
}

#[test]
fn backspace_at_line_start_joins_lines() {
    let mut ed = buffer(10, 5, &["ab", "cd"]);
    ed.cursor_down();
    ed.insert('\x08');
    assert_eq!(lines_of(&ed), vec!["abcd"]);
    assert_eq!(ed.cursor, Coord(2, 0));
}

#[test]
fn delete_forward_removes_under_cursor() {
    let mut ed = buffer(10, 5, &["abc"]);
    ed.cursor_right();
    ed.insert('\x7f');
    assert_eq!(lines_of(&ed), vec!["ac"]);
    assert_eq!(ed.cursor, Coord(1, 0));
}

#[test]
fn delete_forward_at_line_end_joins_next_line() {
    let mut ed = buffer(10, 5, &["ab", "cd"]);
    ed.end();
    ed.insert('\x7f');
    assert_eq!(lines_of(&ed), vec!["abcd"]);
    assert_eq!(ed.cursor, Coord(2, 0));
}

#[test]
fn delete_forward_at_document_end_is_a_complete_no_op() {
    let mut ed = buffer(10, 5, &["ab"]);
    ed.end();
    ed.insert('\x7f');
    assert_eq!(lines_of(&ed), vec!["ab"]);
    assert_eq!(ed.cursor, Coord(2, 0));
    // nothing changed, so the document stays clean
    assert!(!ed.dirty);
}

#[test]
fn cursor_up_at_top_is_a_no_op() {
    let mut ed = buffer(10, 5, &["abc", "def"]);
    ed.cursor_right();
    ed.cursor_up();
    assert_eq!(ed.offset, Coord(0, 0));
    assert_eq!(ed.cursor, Coord(1, 0));
}

#[test]
fn cursor_down_at_bottom_is_a_no_op() {
    let mut ed = buffer(10, 5, &["abc", "def"]);
    ed.cursor_down();
    ed.cursor_down();
    assert_eq!(ed.offset, Coord(0, 0));
    assert_eq!(ed.cursor, Coord(0, 1));
}

#[test]
fn cursor_up_clamps_column_to_shorter_line() {
    let mut ed = buffer(10, 5, &["ab", "wide line"]);
    ed.cursor_down();
    ed.end();
    assert_eq!(ed.cursor, Coord(9, 1));
    ed.cursor_up();
    assert_eq!(ed.cursor, Coord(2, 0));
}

#[test]
fn cursor_left_wraps_to_previous_line_end() {
    let mut ed = buffer(10, 5, &["abc", "d"]);
    ed.cursor_down();
    ed.cursor_left();
    assert_eq!(ed.cursor, Coord(3, 0));
}

#[test]
fn cursor_right_wraps_to_next_line_start() {
    let mut ed = buffer(10, 5, &["a", "bc"]);
    ed.end();
    ed.cursor_right();
    assert_eq!(ed.cursor, Coord(0, 1));
}

#[test]
fn cursor_right_at_document_end_stays_at_line_end() {
    let mut ed = buffer(10, 5, &["ab"]);
    ed.end();
    ed.cursor_right();
    assert_eq!(ed.offset, Coord(0, 0));
    assert_eq!(ed.cursor, Coord(2, 0));
}

#[test]
fn cursor_right_scrolls_at_viewport_edge() {
    let mut ed = buffer(3, 5, &["abcdef"]);
    ed.cursor_right();
    ed.cursor_right();
    assert_eq!(ed.offset, Coord(0, 0));
    assert_eq!(ed.cursor, Coord(2, 0));
    ed.cursor_right();
    assert_eq!(ed.offset, Coord(1, 0));
    assert_eq!(ed.cursor, Coord(2, 0));
}

#[test]
fn end_scrolls_long_line_tail_into_view() {
    let mut ed = buffer(3, 5, &["abcdef"]);
    ed.end();
    // offset = 6 + 1 - 3, cursor on the last viewport column
    assert_eq!(ed.offset, Coord(4, 0));
    assert_eq!(ed.cursor, Coord(2, 0));
}

#[test]
fn end_on_line_filling_viewport_scrolls_one_column() {
    // The append position of a line as wide as the viewport needs one
    // column of scroll.
    let mut ed = buffer(3, 5, &["abc"]);
    ed.end();
    assert_eq!(ed.offset, Coord(1, 0));
    assert_eq!(ed.cursor, Coord(2, 0));
}

#[test]
fn home_returns_to_storage_start() {
    let mut ed = buffer(3, 5, &["abcdef"]);
    ed.end();
    ed.home();
    assert_eq!(ed.offset, Coord(0, 0));
    assert_eq!(ed.cursor, Coord(0, 0));
}

#[test]
fn page_down_and_page_up_stay_in_bounds() {
    let texts: Vec<String> = (0..12).map(|i| format!("l{}", i)).collect();
    let refs: Vec<&str> = texts.iter().map(|s| s.as_str()).collect();
    let mut ed = buffer(10, 5, &refs);
    ed.page_down();
    assert_eq!(ed.offset, Coord(0, 5));
    ed.page_down();
    // clamped to len(lines) - viewport_rows
    assert_eq!(ed.offset, Coord(0, 7));
    ed.page_down();
    assert_eq!(ed.offset.1 + ed.cursor.1, 11);
    ed.page_up();
    assert_eq!(ed.offset, Coord(0, 2));
    ed.page_up();
    assert_eq!(ed.offset, Coord(0, 0));
    ed.page_up();
    assert_eq!(ed.offset, Coord(0, 0));
    assert_eq!(ed.cursor, Coord(0, 0));
}

#[test]
fn page_down_on_short_document_moves_to_last_line() {
    let mut ed = buffer(10, 5, &["a", "b", "c"]);
    ed.page_down();
    assert_eq!(ed.offset, Coord(0, 0));
    assert_eq!(ed.cursor, Coord(0, 2));
}

#[test]
fn goto_line_within_first_viewport_keeps_offset() {
    let texts: Vec<String> = (0..10).map(|i| format!("l{}", i)).collect();
    let refs: Vec<&str> = texts.iter().map(|s| s.as_str()).collect();
    let mut ed = buffer(10, 5, &refs);
    ed.goto_line(2);
    assert_eq!(ed.offset, Coord(0, 0));
    assert_eq!(ed.cursor, Coord(0, 2));
}

#[test]
fn goto_line_far_away_pans_the_offset() {
    let texts: Vec<String> = (0..10).map(|i| format!("l{}", i)).collect();
    let refs: Vec<&str> = texts.iter().map(|s| s.as_str()).collect();
    let mut ed = buffer(10, 5, &refs);
    ed.goto_line(8);
    assert_eq!(ed.offset, Coord(0, 8));
    assert_eq!(ed.cursor, Coord(0, 0));
}

#[test]
fn goto_line_past_end_behaves_like_last_line() {
    let texts: Vec<String> = (0..10).map(|i| format!("l{}", i)).collect();
    let refs: Vec<&str> = texts.iter().map(|s| s.as_str()).collect();
    let mut a = buffer(10, 5, &refs);
    let mut b = buffer(10, 5, &refs);
    a.goto_line(9999);
    b.goto_line(9);
    assert_eq!(a.offset, b.offset);
    assert_eq!(a.cursor, b.cursor);
}

#[test]
fn delete_line_on_last_row_moves_up() {
    let mut ed = buffer(10, 5, &["aa", "b"]);
    ed.cursor_down();
    let removed = ed.delete_line();
    assert_eq!(removed, line("b"));
    assert_eq!(lines_of(&ed), vec!["aa"]);
    assert_eq!(ed.offset.1 + ed.cursor.1, 0);
}

#[test]
fn delete_line_clamps_column() {
    let mut ed = buffer(10, 5, &["wide line", "ab"]);
    ed.end();
    let removed = ed.delete_line();
    assert_eq!(removed, line("wide line"));
    assert_eq!(lines_of(&ed), vec!["ab"]);
    assert_eq!(ed.offset.0 + ed.cursor.0, 2);
}

#[test]
fn one_cell_viewport_still_edits() {
    let mut ed = buffer(1, 1, &["ab"]);
    ed.cursor_right();
    assert_eq!(ed.offset, Coord(1, 0));
    assert_eq!(ed.cursor, Coord(0, 0));
    ed.insert('x');
    assert_eq!(lines_of(&ed), vec!["axb"]);
    assert_eq!(ed.offset, Coord(2, 0));
    ed.insert('\x08');
    assert_eq!(lines_of(&ed), vec!["ab"]);
    assert_eq!(ed.offset, Coord(1, 0));
    assert_eq!(ed.cursor, Coord(0, 0));
}

#[test]
fn tab_semantics_insert_plain_spaces() {
    let mut ed = buffer(10, 5, &["ab"]);
    ed.insert(' ');
    ed.insert(' ');
    assert_eq!(lines_of(&ed), vec!["  ab"]);
    assert_eq!(ed.cursor, Coord(2, 0));
}
