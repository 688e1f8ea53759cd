//! Saving, the serialized format, number formatting, and painting.
use texted::cmdbar::CommandBar;
use texted::cmdbar::Mode;
use texted::coord::Coord;
use texted::coord::ToCol;
use texted::coord::ToRow;
use texted::editor::FileEdit;
use texted::numfmt::fmt_usize;
use texted::numfmt::parse_usize;
use texted::persist::SavePlan;
use texted::textbox::Cell;
use texted::textbox::Event;
use texted::textbox::InputMode;
use texted::textbox::Key;
use texted::textbox::Mod;
use texted::textbox::OutputMode;
use texted::textbox::Style;
use texted::textbox::Textbox;

fn line(s: &str) -> Vec<char> {
    s.chars().collect()
}

fn buffer(path: Option<&str>, lines: &[&str]) -> FileEdit {
    let ls = lines.iter().map(|s| line(s)).collect();
    FileEdit::from_lines(Coord(10, 5), path.map(|p| p.to_string()), ls)
}

#[test]
fn clean_document_needs_no_write() {
    let ed = buffer(Some("f"), &["ab"]);
    assert!(matches!(ed.save_plan(), SavePlan::Clean));
}

#[test]
fn dirty_document_without_destination_fails() {
    let mut ed = buffer(None, &["ab"]);
    ed.insert('x');
    assert!(matches!(ed.save_plan(), SavePlan::NoDestination));
}

#[test]
fn scenario_d_second_save_writes_nothing() {
    let mut ed = buffer(Some("f"), &["ab", "cd"]);
    ed.insert('x');
    let first = ed.save_plan();
    match first {
        SavePlan::Write(content) => assert_eq!(content, "xab\ncd\n"),
        _ => panic!("expected a write plan"),
    }
    ed.mark_saved();
    assert!(!ed.dirty);
    assert!(matches!(ed.save_plan(), SavePlan::Clean));
}

#[test]
fn failed_write_leaves_the_document_dirty() {
    let mut ed = buffer(Some("f"), &["ab"]);
    ed.insert('x');
    match ed.save_plan() {
        SavePlan::Write(_) => {
            // the session chose not to mark the save: state is unchanged
        },
        _ => panic!("expected a write plan"),
    }
    assert!(ed.dirty);
    assert!(matches!(ed.save_plan(), SavePlan::Write(_)));
}

#[test]
fn serialized_text_round_trips_through_line_reading() {
    let mut ed = buffer(Some("f"), &["alpha", "", "gamma"]);
    ed.insert('x');
    let content = match ed.save_plan() {
        SavePlan::Write(c) => c,
        _ => panic!("expected a write plan"),
    };
    assert_eq!(content, "xalpha\n\ngamma\n");
    // read the text back line by line, as loading does
    let reloaded: Vec<&str> = content.lines().collect();
    assert_eq!(reloaded, vec!["xalpha", "", "gamma"]);
}

#[test]
fn empty_document_serializes_to_one_terminator() {
    let mut ed = buffer(Some("f"), &[""]);
    ed.insert('x');
    ed.insert('\x08');
    match ed.save_plan() {
        SavePlan::Write(content) => assert_eq!(content, "\n"),
        _ => panic!("expected a write plan"),
    }
}

#[test]
fn formats_decimal_digits() {
    assert_eq!(fmt_usize(0), line("0"));
    assert_eq!(fmt_usize(7), line("7"));
    assert_eq!(fmt_usize(10), line("10"));
    assert_eq!(fmt_usize(90107), line("90107"));
}

#[test]
fn parses_decimal_entries() {
    assert_eq!(parse_usize(&line("3")), Some(3));
    assert_eq!(parse_usize(&line("0")), Some(0));
    assert_eq!(parse_usize(&line(" 42\t")), Some(42));
    assert_eq!(parse_usize(&line("\r42\x0c")), Some(42));
    assert_eq!(parse_usize(&line("+3")), Some(3));
    assert_eq!(parse_usize(&line(" +7 ")), Some(7));
    assert_eq!(parse_usize(&line("")), None);
    assert_eq!(parse_usize(&line("   ")), None);
    assert_eq!(parse_usize(&line("+")), None);
    assert_eq!(parse_usize(&line("++3")), None);
    assert_eq!(parse_usize(&line("4a2")), None);
    assert_eq!(parse_usize(&line("-3")), None);
    assert_eq!(parse_usize(&line("999999999999999999999999999")), None);
}

#[test]
fn boundary_no_ops_do_not_trigger_a_save() {
    let mut ed = buffer(Some("f"), &["ab"]);
    ed.insert('\x08');
    assert!(matches!(ed.save_plan(), SavePlan::Clean));
    ed.end();
    ed.insert('\x7f');
    assert!(matches!(ed.save_plan(), SavePlan::Clean));
}

#[test]
fn status_reports_name_position_and_size() {
    let mut ed = buffer(Some("notes.txt"), &["abc", "de"]);
    assert_eq!(ed.status(), "notes.txt - 1/3 - 1/2");
    ed.cursor_down();
    ed.cursor_right();
    assert_eq!(ed.status(), "notes.txt - 2/2 - 2/2");
    ed.insert('x');
    assert_eq!(ed.status(), "notes.txt* - 3/3 - 2/2");
}

#[test]
fn unnamed_buffer_shows_placeholder_name() {
    let ed = buffer(None, &["ab"]);
    assert_eq!(ed.name(), "-- buffer --");
    assert!(ed.status().starts_with("-- buffer --"));
}

#[test]
fn coordinate_arithmetic() {
    let a = Coord(2, 3);
    let b = Coord(10, 20);
    assert_eq!(a.col(), 2);
    assert_eq!(a.row(), 3);
    assert_eq!(a.add(b), Coord(12, 23));
    assert_eq!(b.sub(a), Coord(8, 17));
    assert_eq!(Coord::zero(), Coord(0, 0));
    assert!(Coord::zero().is_zero());
    assert!(!a.is_zero());
    assert_eq!(5usize.to_col(), Coord(5, 0));
    assert_eq!(5usize.to_row(), Coord(0, 5));
}

#[test]
fn style_and_mod_bits_combine() {
    let s = Style::default_style().union(Style::reverse());
    assert!(s.contains(Style::reverse()));
    assert!(s.contains(Style::default_style()));
    assert!(!s.contains(Style::bold()));
    let m = Mod::ctrl().union(Mod::shift());
    assert_eq!(m, Mod::ctrl_shift());
    assert!(m.contains(Mod::ctrl()));
    assert!(!Mod::no_mods().contains(Mod::shift()));
    assert_eq!(Mod::alt().union(Mod::ctrl()), Mod::alt_ctrl());
    assert_eq!(Mod::alt().union(Mod::shift()), Mod::alt_shift());
    assert_eq!(Mod::alt().union(Mod::ctrl()).union(Mod::shift()), Mod::alt_ctrl_shift());
}

/// A recording render backend: a grid of characters and the cursor position.
struct Grid {
    cells: Vec<Vec<char>>,
    cursor: Option<Coord>,
}

impl Grid {
    fn new(cols: usize, rows: usize) -> Grid {
        Grid { cells: vec![vec![' '; cols]; rows], cursor: None }
    }

    fn row_text(&self, r: usize) -> String {
        self.cells[r].iter().collect()
    }
}

impl Textbox for Grid {
    fn init() -> Result<Grid, String> {
        Ok(Grid::new(80, 24))
    }

    fn size(&self) -> Coord {
        Coord(self.cells[0].len(), self.cells.len())
    }

    fn set_clear_style(&mut self, _fg: Style, _bg: Style) {
    }

    fn clear(&mut self) {
        for row in self.cells.iter_mut() {
            for c in row.iter_mut() {
                *c = ' ';
            }
        }
    }

    fn present(&mut self) {
    }

    fn set_cursor(&mut self, coord: Coord) {
        self.cursor = Some(coord);
    }

    fn hide_cursor(&mut self) {
        self.cursor = None;
    }

    fn put_cell(&mut self, coord: Coord, cell: Cell) {
        if coord.1 < self.cells.len() && coord.0 < self.cells[coord.1].len() {
            self.cells[coord.1][coord.0] = cell.ch;
        }
    }

    fn set_input_mode(&mut self, _mode: InputMode) -> InputMode {
        InputMode::Current
    }

    fn set_output_mode(&mut self, _mode: OutputMode) -> OutputMode {
        OutputMode::Current
    }

    fn pop_event(&mut self) -> Option<Event> {
        None
    }
}

#[test]
fn visible_rows_give_the_exact_window() {
    let ls = vec![line("abcdef"), line("gh"), line("")];
    let mut ed = FileEdit::from_lines(Coord(3, 2), Some("f".to_string()), ls);
    assert_eq!(ed.visible_rows(), vec![line("abc"), line("gh")]);
    ed.end();
    // the column offset scrolls the first line's tail into view
    assert_eq!(ed.offset, Coord(4, 0));
    assert_eq!(ed.visible_rows(), vec![line("ef"), line("")]);
}

#[test]
fn status_row_places_label_and_status() {
    let ls = vec![line("ab")];
    let buf = FileEdit::from_lines(Coord(10, 5), Some("f".to_string()), ls);
    let cmd = CommandBar::new(Coord(10, 1), buf);
    let row: String = cmd.status_row(24).iter().collect();
    assert_eq!(row, "  *edit* f - 1/2 - 1/1  ");
    // too narrow for the buffer's status: only the label is shown
    let narrow: String = cmd.status_row(10).iter().collect();
    assert_eq!(narrow, "  *edit*  ");
}

#[test]
fn prompt_row_holds_prompt_gap_and_entry() {
    let ls = vec![line("ab")];
    let buf = FileEdit::from_lines(Coord(10, 5), Some("f".to_string()), ls);
    let mut cmd = CommandBar::new(Coord(10, 1), buf);
    cmd.push_mode(Mode::Goto);
    cmd.insert('4');
    cmd.insert('2');
    let row: String = cmd.prompt_row().iter().collect();
    assert_eq!(row, ": 42");
}

#[test]
fn paint_shows_the_visible_window() {
    let ed = buffer(Some("f"), &["abcdef", "gh"]);
    let mut grid = Grid::new(20, 10);
    ed.paint(&mut grid, Coord(0, 0), true);
    assert_eq!(grid.row_text(0), "abcdef              ");
    assert_eq!(grid.row_text(1), "gh                  ");
    assert_eq!(grid.cursor, Some(Coord(0, 0)));
}

#[test]
fn paint_clips_to_viewport_and_offset() {
    let mut ed = buffer(Some("f"), &["abcdef", "gh", "ij", "kl", "mn", "op", "qr"]);
    // viewport is 10 x 5; scroll one row down and one column right
    for _ in 0..5 {
        ed.cursor_down();
    }
    assert_eq!(ed.offset, Coord(0, 1));
    let mut grid = Grid::new(20, 10);
    ed.paint(&mut grid, Coord(0, 0), false);
    assert_eq!(grid.row_text(0), "gh                  ");
    assert_eq!(grid.row_text(4), "op                  ");
    assert_eq!(grid.row_text(5), "                    ");
    assert_eq!(grid.cursor, None);
}

#[test]
fn overlay_paint_draws_status_and_prompt() {
    let texts: Vec<String> = (0..3).map(|i| format!("l{}", i)).collect();
    let refs: Vec<&str> = texts.iter().map(|s| s.as_str()).collect();
    let ls = refs.iter().map(|s| line(s)).collect();
    let buf = FileEdit::from_lines(Coord(40, 5), Some("f".to_string()), ls);
    let mut cmd = CommandBar::new(Coord(40, 1), buf);
    cmd.push_mode(Mode::Goto);
    cmd.insert('7');
    let mut grid = Grid::new(40, 10);
    cmd.paint(&mut grid, Coord(0, 0), true);
    // second-to-last grid row: mode label at the left, buffer status right
    let status_row = grid.row_text(8);
    assert!(status_row.contains("*goto*"));
    assert!(status_row.contains("f - 1/2 - 1/3"));
    // prompt and entry on the row below the buffer
    let prompt_row = grid.row_text(6);
    assert!(prompt_row.starts_with(": 7"));
    // hardware cursor after the typed entry
    assert_eq!(grid.cursor, Some(Coord(3, 6)));
}

#[test]
fn overlay_paint_in_edit_mode_shows_buffer_cursor() {
    let ls = vec![line("ab")];
    let buf = FileEdit::from_lines(Coord(40, 5), Some("f".to_string()), ls);
    let mut cmd = CommandBar::new(Coord(40, 1), buf);
    cmd.cursor_right();
    let mut grid = Grid::new(40, 10);
    cmd.paint(&mut grid, Coord(0, 0), true);
    assert_eq!(grid.cursor, Some(Coord(1, 0)));
}

#[test]
fn handle_event_key_variants_cover_f_keys_quietly() {
    let ls = vec![line("ab")];
    let buf = FileEdit::from_lines(Coord(10, 5), None, ls);
    let mut cmd = CommandBar::new(Coord(10, 1), buf);
    cmd.handle_event(Event::Key('\0', Mod::no_mods(), Key::F(5)));
    cmd.handle_event(Event::Key('\0', Mod::alt(), Key::Char('x')));
    cmd.handle_event(Event::Key('\0', Mod::no_mods(), Key::Insert));
    let text: String = cmd.buf.lines[0].iter().collect();
    assert_eq!(text, "ab");
    assert_eq!(cmd.buf.cursor, Coord(0, 0));
}
