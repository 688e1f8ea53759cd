//! The modal command overlay: it wraps one editor buffer, forwards
//! everything to it while in edit mode, and while in a command mode
//! (go-to-line, or the find stub) collects typed characters into an entry
//! buffer instead, submitting or discarding it on leaving the mode.
use vstd::prelude::*;
use crate::coord::Coord;
use crate::coord::ToCol;
use crate::coord::ToRow;
use crate::editor::EdState;
use crate::editor::FileEdit;
use crate::numfmt::parse_usize;
use crate::numfmt::parse_usize_spec;
use crate::persist::SavePlan;
use crate::persist::render_lines;
use crate::textbox::Event;
use crate::textbox::Key;
use crate::textbox::Mod;
use crate::textbox::Style;
use crate::textbox::Textbox;

verus! {

/// What the session loop must do after a handled event: go on, save the
/// buffer, or end the session.
#[derive(Clone, Copy, Debug, PartialEq, Eq, Structural)]
pub enum Step {
    Continue,
    Save,
    Quit,
}

/// The overlay's interpretation of keystrokes.
#[derive(Clone, Copy, Debug, PartialEq, Eq, Hash, Structural)]
pub enum Mode {
    Edit,
    Find,
    Goto,
}

impl Mode {
    /// Whether keystrokes go to the wrapped buffer.
    pub fn is_edit(&self) -> (r: bool)
        ensures
            r == (*self == Mode::Edit),
    {
        *self == Mode::Edit
    }

    /// Whether keystrokes go to the command entry.
    pub fn is_cmd(&self) -> (r: bool)
        ensures
            r == (*self == Mode::Find || *self == Mode::Goto),
    {
        *self == Mode::Find || *self == Mode::Goto
    }
}

/// The mode indicator shown in the status row.
pub open spec fn mode_label(m: Mode) -> Seq<char> {
    match m {
        Mode::Edit => "*edit*"@,
        Mode::Find => "*find*"@,
        Mode::Goto => "*goto*"@,
    }
}

/// A row of `cols` blank cells.
pub open spec fn blank_row(cols: int) -> Seq<char> {
    Seq::new(cols as nat, |i: int| ' ')
}

/// `base` with `txt` written over it from column `at` on; what falls
/// outside the row is clipped.
pub open spec fn place(base: Seq<char>, at: int, txt: Seq<char>) -> Seq<char> {
    Seq::new(
        base.len(),
        |i: int|
            if at <= i < at + txt.len() {
                txt[i - at]
            } else {
                base[i]
            },
    )
}

/// The mathematical state of the command overlay.
#[verifier::ext_equal]
pub ghost struct CmdState {
    pub prompt: Seq<char>,
    pub entry: Seq<char>,
    pub vcols: int,
    pub vrows: int,
    pub buf: EdState,
    pub mode: Mode,
}

impl CmdState {
    /// The overlay's invariant: a well-formed wrapped buffer, and sizes
    /// whose sum stays within the machine.
    pub open spec fn wf(self) -> bool {
        &&& self.buf.wf()
        &&& 0 <= self.vcols
        &&& 0 <= self.vrows
        &&& self.vrows + self.buf.vrows <= usize::MAX
    }

    /// Entering the given mode. The entry is kept; it is cleared on exit.
    pub open spec fn push_mode_spec(self, mode: Mode) -> CmdState {
        CmdState { mode, ..self }
    }

    /// Leaving any command mode: back to edit mode, the entry discarded.
    pub open spec fn pop_mode_spec(self) -> CmdState {
        CmdState { mode: Mode::Edit, entry: Seq::empty(), ..self }
    }

    /// The document row a submitted entry asks for: the entry read as a
    /// one-based line number (zero is kept as the first line), or nothing
    /// when it does not parse or does not fit in the machine.
    pub open spec fn entry_target(entry: Seq<char>) -> Option<int> {
        match parse_usize_spec(entry) {
            Some(v) => if v <= usize::MAX {
                Some(
                    if v > 0 {
                        v - 1
                    } else {
                        0
                    },
                )
            } else {
                None
            },
            None => None,
        }
    }

    /// What inserting a character does: in edit mode it goes to the buffer;
    /// in a command mode, enter submits (go-to-line moves the buffer) and
    /// returns to edit mode with the entry cleared, backspace erases the
    /// last entry character, delete is ignored, and anything else is
    /// appended to the entry.
    pub open spec fn insert_spec(self, ch: char) -> CmdState {
        if self.mode == Mode::Edit {
            CmdState { buf: self.buf.insert_spec(ch), ..self }
        } else if ch == '\n' {
            let buf2 = if self.mode == Mode::Goto {
                match Self::entry_target(self.entry) {
                    Some(n) => self.buf.goto_spec(n),
                    None => self.buf,
                }
            } else {
                self.buf
            };
            CmdState { buf: buf2, entry: Seq::empty(), mode: Mode::Edit, ..self }
        } else if ch == '\x08' {
            if self.entry.len() > 0 {
                CmdState { entry: self.entry.drop_last(), ..self }
            } else {
                self
            }
        } else if ch == '\x7f' {
            self
        } else {
            CmdState { entry: self.entry.push(ch), ..self }
        }
    }

    /// What deleting a line does: in edit mode the buffer's current line is
    /// removed; in a command mode the entry is cleared instead.
    pub open spec fn delete_line_spec(self) -> CmdState {
        if self.mode == Mode::Edit {
            CmdState { buf: self.buf.delete_line_spec(), ..self }
        } else {
            CmdState { entry: Seq::empty(), ..self }
        }
    }

    /// What a navigation call does: forwarded in edit mode, suppressed in
    /// the command modes.
    pub open spec fn cursor_up_spec(self) -> CmdState {
        if self.mode == Mode::Edit {
            CmdState { buf: self.buf.up_spec(), ..self }
        } else {
            self
        }
    }

    pub open spec fn cursor_down_spec(self) -> CmdState {
        if self.mode == Mode::Edit {
            CmdState { buf: self.buf.down_spec(), ..self }
        } else {
            self
        }
    }

    pub open spec fn cursor_left_spec(self) -> CmdState {
        if self.mode == Mode::Edit {
            CmdState { buf: self.buf.left_spec(), ..self }
        } else {
            self
        }
    }

    pub open spec fn cursor_right_spec(self) -> CmdState {
        if self.mode == Mode::Edit {
            CmdState { buf: self.buf.right_spec(), ..self }
        } else {
            self
        }
    }

    pub open spec fn page_up_spec(self) -> CmdState {
        if self.mode == Mode::Edit {
            CmdState { buf: self.buf.page_up_spec(), ..self }
        } else {
            self
        }
    }

    pub open spec fn page_down_spec(self) -> CmdState {
        if self.mode == Mode::Edit {
            CmdState { buf: self.buf.page_down_spec(), ..self }
        } else {
            self
        }
    }

    pub open spec fn home_spec(self) -> CmdState {
        if self.mode == Mode::Edit {
            CmdState { buf: self.buf.home_spec(), ..self }
        } else {
            self
        }
    }

    pub open spec fn end_spec(self) -> CmdState {
        if self.mode == Mode::Edit {
            CmdState { buf: self.buf.end_spec(), ..self }
        } else {
            self
        }
    }

    pub open spec fn goto_line_spec(self, line: int) -> CmdState {
        if self.mode == Mode::Edit {
            CmdState { buf: self.buf.goto_spec(line), ..self }
        } else {
            self
        }
    }

    /// The status row for a grid `cols` wide: blank cells, the wrapped
    /// buffer's status text ending two cells from the right edge (left out
    /// when it does not fit), and the mode indicator over it at column 2.
    pub open spec fn status_row_spec(self, cols: int) -> Seq<char> {
        let status = self.buf.status_spec();
        let with_status = if status.len() + 2 <= cols {
            place(blank_row(cols), cols - 2 - status.len(), status)
        } else {
            blank_row(cols)
        };
        place(with_status, 2, mode_label(self.mode))
    }

    /// The state after one decoded key event, by the command surface:
    /// control combinations drive the overlay (quit, save, modes, line
    /// deletion, movement), control-shift ones page and jump, unmodified
    /// keys move or edit, and plain or shifted characters are inserted.
    pub open spec fn handle_spec(self, e: Event) -> CmdState {
        match e {
            Event::Key(ch, m, k) => {
                if m == Mod(0x000cu32) {
                    match k {
                        Key::Char(c) => {
                            if c == 'Q' || c == 'S' {
                                self
                            } else if c == 'G' {
                                self.push_mode_spec(Mode::Goto)
                            } else if c == 'F' {
                                self.push_mode_spec(Mode::Find)
                            } else if c == 'X' {
                                self.delete_line_spec()
                            } else if c == 'K' {
                                self.cursor_up_spec()
                            } else if c == 'J' {
                                self.cursor_down_spec()
                            } else if c == 'H' {
                                self.cursor_left_spec()
                            } else if c == 'L' {
                                self.cursor_right_spec()
                            } else {
                                self
                            }
                        },
                        _ => self,
                    }
                } else if m == Mod(0x001cu32) {
                    match k {
                        Key::Char(c) => {
                            if c == 'K' {
                                self.page_up_spec()
                            } else if c == 'J' {
                                self.page_down_spec()
                            } else if c == 'H' {
                                self.home_spec()
                            } else if c == 'L' {
                                self.end_spec()
                            } else {
                                self
                            }
                        },
                        _ => self,
                    }
                } else if m == Mod(0u32) {
                    match k {
                        Key::Escape => self.pop_mode_spec(),
                        Key::Up => self.cursor_up_spec(),
                        Key::Down => self.cursor_down_spec(),
                        Key::Left => self.cursor_left_spec(),
                        Key::Right => self.cursor_right_spec(),
                        Key::PageUp => self.page_up_spec(),
                        Key::PageDown => self.page_down_spec(),
                        Key::Home => self.home_spec(),
                        Key::End => self.end_spec(),
                        Key::Char(_) => self.insert_spec(ch),
                        Key::Enter => self.insert_spec('\n'),
                        Key::Backspace => self.insert_spec('\x08'),
                        Key::Delete => self.insert_spec('\x7f'),
                        Key::Tab => self.insert_spec(' ').insert_spec(' '),
                        _ => self,
                    }
                } else if m == Mod(0x0010u32) {
                    match k {
                        Key::Char(_) => self.insert_spec(ch),
                        _ => self,
                    }
                } else {
                    self
                }
            },
        }
    }

    /// What the session loop must do after the event: quit on the quit
    /// combination, run a save on the save combination, else go on.
    pub open spec fn handle_step_spec(self, e: Event) -> Step {
        match e {
            Event::Key(ch, m, k) => {
                if m == Mod(0x000cu32) && k == Key::Char('Q') {
                    Step::Quit
                } else if m == Mod(0x000cu32) && k == Key::Char('S') {
                    Step::Save
                } else {
                    Step::Continue
                }
            },
        }
    }
}

/// The command overlay around one editor buffer.
pub struct CommandBar {
    pub prompt: String,
    pub entry: Vec<char>,
    pub v_size: Coord,
    pub buf: FileEdit,
    pub mode: Mode,
}

impl View for CommandBar {
    type V = CmdState;

    open spec fn view(&self) -> CmdState {
        CmdState {
            prompt: self.prompt@,
            entry: self.entry@,
            vcols: self.v_size.0 as int,
            vrows: self.v_size.1 as int,
            buf: self.buf@,
            mode: self.mode,
        }
    }
}

/// A copy of the given characters.
fn clone_chars(v: &Vec<char>) -> (r: Vec<char>)
    ensures
        r@ == v@,
{
    let mut r: Vec<char> = Vec::new();
    let n = v.len();
    for i in 0..n
        invariant
            n == v@.len(),
            r@ == v@.take(i as int),
    {
        r.push(v[i]);
        proof {
            assert(v@.take(i + 1) =~= v@.take(i as int).push(v@[i as int]));
        }
    }
    proof {
        assert(v@.take(n as int) =~= v@);
    }
    r
}

impl CommandBar {
    /// An overlay around `buf`, in edit mode, with a `:` prompt and an
    /// empty entry.
    pub fn new(v_size: Coord, buf: FileEdit) -> (cb: CommandBar)
        requires
            buf@.wf(),
            v_size.1 + buf@.vrows <= usize::MAX,
        ensures
            cb@.wf(),
            cb@ == (CmdState {
                prompt: ":"@,
                entry: Seq::<char>::empty(),
                vcols: v_size.0 as int,
                vrows: v_size.1 as int,
                buf: buf@,
                mode: Mode::Edit,
            }),
    {
        let cb = CommandBar {
            prompt: String::from_str(":"),
            entry: Vec::new(),
            v_size,
            buf,
            mode: Mode::Edit,
        };
        proof {
            assert(cb@ =~= CmdState {
                prompt: ":"@,
                entry: Seq::<char>::empty(),
                vcols: v_size.0 as int,
                vrows: v_size.1 as int,
                buf: cb.buf@,
                mode: Mode::Edit,
            });
        }
        cb
    }

    /// Enters the given mode.
    pub fn push_mode(&mut self, mode: Mode)
        requires
            old(self)@.wf(),
        ensures
            final(self)@ == old(self)@.push_mode_spec(mode),
            final(self)@.wf(),
    {
        self.mode = mode;
    }

    /// Returns to edit mode, discarding any pending entry.
    pub fn pop_mode(&mut self)
        requires
            old(self)@.wf(),
        ensures
            final(self)@ == old(self)@.pop_mode_spec(),
            final(self)@.wf(),
    {
        self.mode = Mode::Edit;
        self.entry.clear();
        proof {
            assert(self@ =~= old(self)@.pop_mode_spec());
        }
    }

    /// The overlay's display name.
    pub fn name(&self) -> (r: String)
        ensures
            r@ == "command bar"@,
    {
        String::from_str("command bar")
    }

    /// The mode indicator for the status line.
    pub fn status(&self) -> (r: String)
        ensures
            r@ == mode_label(self@.mode),
    {
        match self.mode {
            Mode::Edit => String::from_str("*edit*"),
            Mode::Find => String::from_str("*find*"),
            Mode::Goto => String::from_str("*goto*"),
        }
    }

    /// The overlay's full height: its own rows below the buffer's.
    pub fn view_size(&self) -> (s: Coord)
        requires
            self@.wf(),
        ensures
            s.0 == self@.vcols,
            s.1 == self@.vrows + self@.buf.vrows,
    {
        Coord(self.v_size.0, self.v_size.1 + self.buf.view_size().1)
    }

    /// Inserts a character: into the buffer in edit mode, into the command
    /// entry otherwise (enter submits, backspace erases, delete is ignored).
    pub fn insert(&mut self, ch: char)
        requires
            old(self)@.wf(),
        ensures
            final(self)@ == old(self)@.insert_spec(ch),
            final(self)@.wf(),
    {
        if self.mode.is_edit() {
            self.buf.insert(ch);
        } else if ch == '\n' {
            if self.mode == Mode::Goto {
                match parse_usize(&self.entry) {
                    Some(line) => {
                        self.buf.goto_line(
                            if line > 0 {
                                line - 1
                            } else {
                                0
                            },
                        );
                    },
                    None => {},
                }
            }
            self.entry.clear();
            self.mode = Mode::Edit;
            proof {
                assert(self@ =~= old(self)@.insert_spec(ch));
            }
        } else if ch == '\x08' {
            if self.entry.len() > 0 {
                self.entry.pop();
                proof {
                    assert(self@ =~= old(self)@.insert_spec(ch));
                }
            }
        } else if ch == '\x7f' {
            // delete is ignored while typing a command entry
        } else {
            self.entry.push(ch);
            proof {
                assert(self@ =~= old(self)@.insert_spec(ch));
            }
        }
    }

    /// Deletes the current line of the buffer (edit mode) or clears the
    /// entry (command modes); returns what was removed.
    pub fn delete_line(&mut self) -> (removed: Vec<char>)
        requires
            old(self)@.wf(),
        ensures
            final(self)@ == old(self)@.delete_line_spec(),
            final(self)@.wf(),
            removed@ == (if old(self)@.mode == Mode::Edit {
                old(self)@.buf.cur_line()
            } else {
                old(self)@.entry
            }),
    {
        if self.mode.is_edit() {
            self.buf.delete_line()
        } else {
            let out = clone_chars(&self.entry);
            self.entry.clear();
            proof {
                assert(self@ =~= old(self)@.delete_line_spec());
            }
            out
        }
    }

    /// Moves the cursor up one row (suppressed outside edit mode).
    pub fn cursor_up(&mut self)
        requires
            old(self)@.wf(),
        ensures
            final(self)@ == old(self)@.cursor_up_spec(),
            final(self)@.wf(),
    {
        if self.mode.is_edit() {
            self.buf.cursor_up();
        }
    }

    /// Moves the cursor down one row (suppressed outside edit mode).
    pub fn cursor_down(&mut self)
        requires
            old(self)@.wf(),
        ensures
            final(self)@ == old(self)@.cursor_down_spec(),
            final(self)@.wf(),
    {
        if self.mode.is_edit() {
            self.buf.cursor_down();
        }
    }

    /// Moves the cursor left one column (suppressed outside edit mode).
    pub fn cursor_left(&mut self)
        requires
            old(self)@.wf(),
        ensures
            final(self)@ == old(self)@.cursor_left_spec(),
            final(self)@.wf(),
    {
        if self.mode.is_edit() {
            self.buf.cursor_left();
        }
    }

    /// Moves the cursor right one column (suppressed outside edit mode).
    pub fn cursor_right(&mut self)
        requires
            old(self)@.wf(),
        ensures
            final(self)@ == old(self)@.cursor_right_spec(),
            final(self)@.wf(),
    {
        if self.mode.is_edit() {
            self.buf.cursor_right();
        }
    }

    /// Pages up one viewport height (suppressed outside edit mode).
    pub fn page_up(&mut self)
        requires
            old(self)@.wf(),
        ensures
            final(self)@ == old(self)@.page_up_spec(),
            final(self)@.wf(),
    {
        if self.mode.is_edit() {
            self.buf.page_up();
        }
    }

    /// Pages down one viewport height (suppressed outside edit mode).
    pub fn page_down(&mut self)
        requires
            old(self)@.wf(),
        ensures
            final(self)@ == old(self)@.page_down_spec(),
            final(self)@.wf(),
    {
        if self.mode.is_edit() {
            self.buf.page_down();
        }
    }

    /// Moves to the start of the line (suppressed outside edit mode).
    pub fn home(&mut self)
        requires
            old(self)@.wf(),
        ensures
            final(self)@ == old(self)@.home_spec(),
            final(self)@.wf(),
    {
        if self.mode.is_edit() {
            self.buf.home();
        }
    }

    /// Moves past the end of the line (suppressed outside edit mode).
    pub fn end(&mut self)
        requires
            old(self)@.wf(),
        ensures
            final(self)@ == old(self)@.end_spec(),
            final(self)@.wf(),
    {
        if self.mode.is_edit() {
            self.buf.end();
        }
    }

    /// Goes to the given document row (suppressed outside edit mode).
    pub fn goto_line(&mut self, line: usize)
        requires
            old(self)@.wf(),
        ensures
            final(self)@ == old(self)@.goto_line_spec(line as int),
            final(self)@.wf(),
    {
        if self.mode.is_edit() {
            self.buf.goto_line(line);
        }
    }

    /// Plans a save of the wrapped buffer.
    pub fn save_plan(&self) -> (p: SavePlan)
        ensures
            match p {
                SavePlan::Clean => !self@.buf.dirty,
                SavePlan::NoDestination => self@.buf.dirty && self@.buf.path is None,
                SavePlan::Write(content) => self@.buf.dirty && self@.buf.path is Some && content@
                    == render_lines(self@.buf.lines),
            },
    {
        self.buf.save_plan()
    }

    /// Applies one decoded key event by the command surface and says what
    /// the session loop must do next (go on, save, or quit). Saving and
    /// quitting themselves are the loop's work; the overlay state is
    /// unchanged by those two events.
    pub fn handle_event(&mut self, e: Event) -> (step: Step)
        requires
            old(self)@.wf(),
        ensures
            final(self)@ == old(self)@.handle_spec(e),
            step == old(self)@.handle_step_spec(e),
            final(self)@.wf(),
    {
        let (ch, m, k) = match e {
            Event::Key(a, b, c) => (a, b, c),
        };
        if m == Mod::ctrl() {
            match k {
                Key::Char(c) => {
                    if c == 'Q' {
                        return Step::Quit;
                    } else if c == 'S' {
                        return Step::Save;
                    } else if c == 'G' {
                        self.push_mode(Mode::Goto);
                    } else if c == 'F' {
                        self.push_mode(Mode::Find);
                    } else if c == 'X' {
                        self.delete_line();
                    } else if c == 'K' {
                        self.cursor_up();
                    } else if c == 'J' {
                        self.cursor_down();
                    } else if c == 'H' {
                        self.cursor_left();
                    } else if c == 'L' {
                        self.cursor_right();
                    }
                },
                _ => {},
            }
        } else if m == Mod::ctrl_shift() {
            match k {
                Key::Char(c) => {
                    if c == 'K' {
                        self.page_up();
                    } else if c == 'J' {
                        self.page_down();
                    } else if c == 'H' {
                        self.home();
                    } else if c == 'L' {
                        self.end();
                    }
                },
                _ => {},
            }
        } else if m == Mod::no_mods() {
            match k {
                Key::Escape => self.pop_mode(),
                Key::Up => self.cursor_up(),
                Key::Down => self.cursor_down(),
                Key::Left => self.cursor_left(),
                Key::Right => self.cursor_right(),
                Key::PageUp => self.page_up(),
                Key::PageDown => self.page_down(),
                Key::Home => self.home(),
                Key::End => self.end(),
                Key::Char(_) => self.insert(ch),
                Key::Enter => self.insert('\n'),
                Key::Backspace => self.insert('\x08'),
                Key::Delete => self.insert('\x7f'),
                Key::Tab => {
                    self.insert(' ');
                    self.insert(' ');
                },
                _ => {},
            }
        } else if m == Mod::shift() {
            match k {
                Key::Char(_) => self.insert(ch),
                _ => {},
            }
        }
        Step::Continue
    }

    /// The status row for a grid `cols` wide, exactly as `status_row_spec`
    /// fixes it: blank cells, the buffer's status ending two cells from the
    /// right edge (left out when it does not fit), and the mode indicator
    /// over it at column 2.
    pub fn status_row(&self, cols: usize) -> (v: Vec<char>)
        requires
            self@.wf(),
            self@.buf.cur_line().len() < usize::MAX,
        ensures
            v@ == self@.status_row_spec(cols as int),
    {
        let mut v: Vec<char> = Vec::new();
        let mut i: usize = 0;
        while i < cols
            invariant
                v@.len() == i <= cols,
                forall|j: int| 0 <= j < i ==> v@[j] == ' ',
            decreases cols - i,
        {
            v.push(' ');
            i = i + 1;
        }
        proof {
            assert(v@ =~= blank_row(cols as int));
        }
        let status = self.buf.status();
        let slen = status.as_str().unicode_len();
        if cols >= 2 && slen <= cols - 2 {
            let start = cols - 2 - slen;
            let mut k: usize = 0;
            while k < slen
                invariant
                    v@.len() == cols,
                    slen == status@.len(),
                    status@ == self@.buf.status_spec(),
                    start == cols - 2 - slen,
                    slen + 2 <= cols,
                    k <= slen,
                    forall|j: int| 0 <= j < cols ==> v@[j] == (if start <= j < start + k {
                        status@[j - start]
                    } else {
                        blank_row(cols as int)[j]
                    }),
                decreases slen - k,
            {
                v.set(start + k, status.as_str().get_char(k));
                k = k + 1;
            }
            proof {
                assert(v@ =~= place(blank_row(cols as int), start as int, status@));
            }
        }
        let ghost base = v@;
        let label = self.status();
        proof {
            reveal_strlit("*edit*");
            reveal_strlit("*find*");
            reveal_strlit("*goto*");
        }
        let llen = label.as_str().unicode_len();
        let mut k: usize = 0;
        while k < llen
            invariant
                v@.len() == cols,
                llen == label@.len(),
                llen == 6,
                label@ == mode_label(self@.mode),
                k <= llen,
                forall|j: int| 0 <= j < cols ==> v@[j] == (if 2 <= j < 2 + k {
                    label@[j - 2]
                } else {
                    base[j]
                }),
            decreases llen - k,
        {
            if 2 + k < cols {
                v.set(2 + k, label.as_str().get_char(k));
            }
            k = k + 1;
        }
        proof {
            assert(v@ =~= place(base, 2, label@));
            assert(v@ == self@.status_row_spec(cols as int));
        }
        v
    }

    /// The prompt line while a command entry is typed: the prompt, one
    /// blank cell, then the entry. The hardware cursor belongs one past
    /// its end.
    pub fn prompt_row(&self) -> (v: Vec<char>)
        ensures
            v@ == self@.prompt + seq![' '] + self@.entry,
    {
        let mut v: Vec<char> = Vec::new();
        let plen = self.prompt.as_str().unicode_len();
        let mut i: usize = 0;
        while i < plen
            invariant
                plen == self.prompt@.len(),
                i <= plen,
                v@ == self.prompt@.take(i as int),
            decreases plen - i,
        {
            v.push(self.prompt.as_str().get_char(i));
            proof {
                assert(self.prompt@.take(i + 1) =~= self.prompt@.take(i as int).push(
                    self.prompt@[i as int],
                ));
            }
            i = i + 1;
        }
        proof {
            assert(self.prompt@.take(plen as int) =~= self.prompt@);
        }
        v.push(' ');
        proof {
            assert(v@ =~= self.prompt@ + seq![' ']);
        }
        let elen = self.entry.len();
        let mut i2: usize = 0;
        while i2 < elen
            invariant
                elen == self.entry@.len(),
                i2 <= elen,
                v@ == self.prompt@ + seq![' '] + self.entry@.take(i2 as int),
            decreases elen - i2,
        {
            v.push(self.entry[i2]);
            proof {
                assert(self.entry@.take(i2 + 1) =~= self.entry@.take(i2 as int).push(
                    self.entry@[i2 as int],
                ));
                assert(v@ =~= self.prompt@ + seq![' '] + self.entry@.take(i2 + 1));
            }
            i2 = i2 + 1;
        }
        proof {
            assert(self.entry@.take(elen as int) =~= self.entry@);
        }
        v
    }

    /// Paints the wrapped buffer (its cursor shown only in edit mode), then
    /// the status row second from the grid's bottom, and, in a command
    /// mode, the prompt line with the hardware cursor at its end.
    /// `status_row` and `prompt_row` fix exactly which character stands in
    /// which cell of those two rows; this function only hands them to the
    /// backend, and the positions it computes are the exact sums
    /// `Coord::add` promises.
    pub fn paint<T: Textbox>(&self, tbox: &mut T, at: Coord, active: bool)
        requires
            self@.wf(),
            self@.buf.cur_line().len() < usize::MAX,
            at.0 + self@.buf.vcols <= usize::MAX,
            at.1 + self@.buf.vrows + 1 <= usize::MAX,
            at.0 + self@.prompt.len() + 1 + self@.entry.len() <= usize::MAX,
    {
        self.buf.paint(tbox, at, active && self.mode.is_edit());
        let below = at.add(self.buf.view_size().row().to_row()).add(1usize.to_row());

        let size = tbox.size();
        let cols = size.col();
        let rows = size.row();
        if rows >= 2 {
            let srow = self.status_row(cols);
            let n = srow.len();
            let mut c: usize = 0;
            while c < n
                invariant
                    rows >= 2,
                    n == srow@.len(),
                decreases n - c,
            {
                tbox.set_cell(
                    Coord(c, rows - 2),
                    srow[c],
                    Style::default_style(),
                    Style::default_style().union(Style::reverse()),
                );
                c = c + 1;
            }
        }

        if active && self.mode.is_cmd() {
            let pr = self.prompt_row();
            let n = pr.len();
            let mut i: usize = 0;
            while i < n
                invariant
                    n == pr@.len(),
                    below.0 + n <= usize::MAX,
                decreases n - i,
            {
                tbox.set_cell(
                    below.add(i.to_col()),
                    pr[i],
                    Style::default_style(),
                    Style::default_style(),
                );
                i = i + 1;
            }
            tbox.set_cursor(below.add(n.to_col()));
        }
    }

    /// Records that the planned text reached the destination.
    pub fn mark_saved(&mut self)
        requires
            old(self)@.wf(),
        ensures
            final(self)@ == (CmdState {
                buf: EdState { dirty: false, ..old(self)@.buf },
                ..old(self)@
            }),
            final(self)@.wf(),
    {
        self.buf.mark_saved();
        proof {
            assert(self@ =~= CmdState {
                buf: EdState { dirty: false, ..old(self)@.buf },
                ..old(self)@
            });
        }
    }
}

} // verus!
