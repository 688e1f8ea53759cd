//! The editor buffer: an ordered sequence of text lines together with the
//! viewport offset, the viewport-relative cursor, the fixed viewport size,
//! and the dirty flag. Every navigation operation is specified by a pure
//! transition function over `EdState` and re-establishes the invariants.
use vstd::prelude::*;
use crate::coord::Coord;

verus! {

/// The mathematical state of an editor buffer.
///
/// `off_*` is the document position shown at the viewport's top-left cell,
/// `cur_*` the cursor position relative to the viewport, `vcols`/`vrows` the
/// fixed viewport size. The absolute document position of the cursor is
/// offset plus cursor, in each axis.
#[verifier::ext_equal]
pub ghost struct EdState {
    pub path: Option<Seq<char>>,
    pub lines: Seq<Seq<char>>,
    pub off_col: int,
    pub off_row: int,
    pub cur_col: int,
    pub cur_row: int,
    pub vcols: int,
    pub vrows: int,
    pub dirty: bool,
}

impl EdState {
    /// The absolute document column of the cursor.
    pub open spec fn abs_col(self) -> int {
        self.off_col + self.cur_col
    }

    /// The absolute document row of the cursor.
    pub open spec fn abs_row(self) -> int {
        self.off_row + self.cur_row
    }

    /// The line the cursor is on.
    pub open spec fn cur_line(self) -> Seq<char> {
        self.lines[self.abs_row()]
    }

    /// No line holds a line terminator: splitting and joining keep this.
    pub open spec fn lines_ok(self) -> bool {
        no_nl_lines(self.lines)
    }

    /// The invariants that hold between operations, except that the cursor
    /// column may still point past the end of a (possibly shorter) line.
    /// Clamping the column re-establishes `wf` from here.
    pub open spec fn wf_rows(self) -> bool {
        &&& 1 <= self.lines.len()
        &&& 0 <= self.off_col
        &&& 0 <= self.off_row
        &&& 1 <= self.vcols
        &&& 1 <= self.vrows
        &&& 0 <= self.cur_col < self.vcols
        &&& 0 <= self.cur_row < self.vrows
        &&& self.abs_row() < self.lines.len()
        &&& self.lines_ok()
    }

    /// The full invariant: additionally the absolute column sits on the
    /// current line or one past its end (the append position).
    pub open spec fn wf(self) -> bool {
        &&& self.wf_rows()
        &&& self.abs_col() <= self.cur_line().len()
    }

    /// As `wf_rows`, but the cursor row may sit one past the last line;
    /// moving up from there is well-defined and restores `wf`.
    pub open spec fn wf_rows_loose(self) -> bool {
        &&& 1 <= self.lines.len()
        &&& 0 <= self.off_col
        &&& 0 <= self.off_row
        &&& 1 <= self.vcols
        &&& 1 <= self.vrows
        &&& 0 <= self.cur_col < self.vcols
        &&& 0 <= self.cur_row < self.vrows
        &&& self.abs_row() <= self.lines.len()
        &&& self.lines_ok()
    }

    /// Moving to one past the last character of the current line: the whole
    /// line in view when it fits before the last viewport column, else the
    /// line's tail scrolled into view.
    pub open spec fn end_spec(self) -> EdState {
        let len = self.cur_line().len() as int;
        if self.vcols > len {
            EdState { off_col: 0, cur_col: len, ..self }
        } else {
            EdState { off_col: len + 1 - self.vcols, cur_col: self.vcols - 1, ..self }
        }
    }

    /// Moving to the storage start of the current line.
    pub open spec fn home_spec(self) -> EdState {
        EdState { off_col: 0, cur_col: 0, ..self }
    }

    /// The clamp step that ends every navigation operation: when the
    /// absolute column would reach past the current line, move to its end.
    pub open spec fn clamp_spec(self) -> EdState {
        if self.abs_col() >= self.cur_line().len() {
            self.end_spec()
        } else {
            self
        }
    }

    /// Moving up one document row: a no-op at the top; scrolls when the
    /// cursor is at the top viewport row; clamps the column afterward.
    pub open spec fn up_spec(self) -> EdState {
        let moved = if self.abs_row() == 0 {
            self
        } else if self.cur_row == 0 {
            EdState { off_row: self.off_row - 1, ..self }
        } else {
            EdState { cur_row: self.cur_row - 1, ..self }
        };
        moved.clamp_spec()
    }

    /// Moving down one document row: a no-op at the last row; scrolls when
    /// the cursor is at the bottom viewport row; clamps the column afterward.
    pub open spec fn down_spec(self) -> EdState {
        let moved = if self.abs_row() >= self.lines.len() - 1 {
            self
        } else if self.cur_row >= self.vrows - 1 {
            EdState { cur_row: self.vrows - 1, off_row: self.off_row + 1, ..self }
        } else {
            EdState { cur_row: self.cur_row + 1, ..self }
        };
        moved.clamp_spec()
    }

    /// Moving left one column: at the start of a line, to the end of the
    /// previous line (if any); scrolls when the cursor is at the left edge.
    pub open spec fn left_spec(self) -> EdState {
        if self.abs_col() == 0 {
            if self.abs_row() > 0 {
                self.up_spec().end_spec()
            } else {
                self
            }
        } else if self.cur_col == 0 {
            EdState { off_col: self.off_col - 1, ..self }
        } else {
            EdState { cur_col: self.cur_col - 1, ..self }
        }
    }

    /// Moving right one column: at the end of a line, to the start of the
    /// next line (or a clamp on the last); scrolls at the right edge.
    pub open spec fn right_spec(self) -> EdState {
        let len = self.cur_line().len() as int;
        if self.abs_col() >= len {
            if self.abs_row() < self.lines.len() - 1 {
                self.down_spec().home_spec()
            } else {
                self.end_spec()
            }
        } else if self.cur_col >= self.vcols - 1 {
            EdState { off_col: self.off_col + 1, cur_col: self.vcols - 1, ..self }
        } else {
            EdState { cur_col: self.cur_col + 1, ..self }
        }
    }

    /// Paging up: the offset jumps by one viewport height, clamped at the
    /// top (the cursor absorbs the overshoot); clamps the column afterward.
    pub open spec fn page_up_spec(self) -> EdState {
        let moved = if self.abs_row() == 0 {
            self
        } else if self.off_row == 0 {
            EdState { cur_row: 0, ..self }
        } else if self.off_row <= self.vrows - 1 {
            let c = if self.cur_row > self.vrows - self.off_row {
                self.cur_row - (self.vrows - self.off_row)
            } else {
                self.cur_row
            };
            EdState { cur_row: c, off_row: 0, ..self }
        } else {
            EdState { off_row: self.off_row - self.vrows, ..self }
        };
        moved.clamp_spec()
    }

    /// Paging down: the offset jumps by one viewport height, clamped so it
    /// never passes `lines.len() - vrows`; on a document shorter than the
    /// viewport the cursor moves to the last line instead; clamps the column.
    pub open spec fn page_down_spec(self) -> EdState {
        let len = self.lines.len() as int;
        let moved = if self.abs_row() >= len - 1 {
            self
        } else if len < self.vrows {
            EdState { cur_row: len - 1 - self.off_row, ..self }
        } else if self.off_row >= len - self.vrows {
            EdState { cur_row: len - self.off_row - 1, ..self }
        } else {
            let o = self.off_row + self.vrows;
            let o2 = if o + self.vrows >= len - 1 {
                len - self.vrows
            } else {
                o
            };
            EdState { off_row: o2, ..self }
        };
        moved.clamp_spec()
    }

    /// Going to document row `n`, clamped to the document: rows within one
    /// viewport height keep the offset at the top; farther rows pan the
    /// offset, keeping the within-viewport cursor row; clamps the column.
    pub open spec fn goto_spec(self, n: int) -> EdState {
        let len = self.lines.len() as int;
        let line = if n >= len {
            len - 1
        } else {
            n
        };
        let moved = if line < self.vrows {
            EdState { off_row: 0, cur_row: line, ..self }
        } else {
            EdState { off_row: line - self.cur_row, ..self }
        };
        moved.clamp_spec()
    }
}

/// Whether no line of `lines` holds a line terminator.
pub open spec fn no_nl_lines(lines: Seq<Seq<char>>) -> bool {
    forall|i: int| 0 <= i < lines.len() ==> !(#[trigger] lines[i]).contains('\n')
}

/// The sequence of lines a vector of line buffers holds.
pub open spec fn lines_view(lines: Vec<Vec<char>>) -> Seq<Seq<char>> {
    lines@.map_values(|l: Vec<char>| l@)
}

/// An editor buffer: the document lines, the persistence identifier, the
/// viewport offset and cursor, the fixed viewport size, and the dirty flag.
pub struct FileEdit {
    pub path: Option<String>,
    pub lines: Vec<Vec<char>>,
    pub offset: Coord,
    pub cursor: Coord,
    pub v_size: Coord,
    pub dirty: bool,
}

impl View for FileEdit {
    type V = EdState;

    open spec fn view(&self) -> EdState {
        EdState {
            path: match self.path {
                Some(p) => Some(p@),
                None => None,
            },
            lines: lines_view(self.lines),
            off_col: self.offset.0 as int,
            off_row: self.offset.1 as int,
            cur_col: self.cursor.0 as int,
            cur_row: self.cursor.1 as int,
            vcols: self.v_size.0 as int,
            vrows: self.v_size.1 as int,
            dirty: self.dirty,
        }
    }
}

impl FileEdit {
    /// A buffer over the given lines (one empty line when none are given),
    /// with the cursor and offset at the origin and the document clean.
    pub fn from_lines(v_size: Coord, path: Option<String>, lines: Vec<Vec<char>>) -> (ed: FileEdit)
        requires
            1 <= v_size.0,
            1 <= v_size.1,
            forall|i: int| 0 <= i < lines@.len() ==> !(#[trigger] lines@[i]@).contains('\n'),
        ensures
            ed@.wf(),
            ed@.dirty == false,
            ed@.off_col == 0 && ed@.off_row == 0 && ed@.cur_col == 0 && ed@.cur_row == 0,
            ed@.vcols == v_size.0 && ed@.vrows == v_size.1,
            ed@.path == (match path {
                Some(p) => Some::<Seq<char>>(p@),
                None => None::<Seq<char>>,
            }),
            ed@.lines == if lines@.len() == 0 {
                seq![Seq::<char>::empty()]
            } else {
                lines_view(lines)
            },
    {
        let mut lines = lines;
        if lines.len() == 0 {
            lines.push(Vec::new());
            proof {
                assert(lines_view(lines) =~= seq![Seq::<char>::empty()]);
            }
        }
        let ed = FileEdit { path, lines, offset: Coord(0, 0), cursor: Coord(0, 0), v_size, dirty: false };
        proof {
            assert(forall|i: int| 0 <= i < ed@.lines.len() ==> ed@.lines[i] == (#[trigger] ed.lines@[i])@);
        }
        ed
    }

    /// The fixed viewport size.
    pub fn view_size(&self) -> (s: Coord)
        ensures
            s == self.v_size,
    {
        self.v_size
    }

    /// Moves to one past the last character of the current line.
    pub fn end(&mut self)
        requires
            old(self)@.wf_rows(),
        ensures
            final(self)@ == old(self)@.end_spec(),
            final(self)@.wf(),
    {
        let nlines = self.lines.len();
        let row = self.offset.1 + self.cursor.1;
        let line_len = self.lines[row].len();
        let view_cols = self.v_size.0;
        if view_cols > line_len {
            self.offset.0 = 0;
            self.cursor.0 = line_len;
        } else {
            self.offset.0 = line_len - view_cols + 1;
            self.cursor.0 = view_cols - 1;
        }
    }

    /// Moves to the storage start of the current line.
    pub fn home(&mut self)
        requires
            old(self)@.wf_rows(),
        ensures
            final(self)@ == old(self)@.home_spec(),
            final(self)@.wf(),
    {
        self.offset.0 = 0;
        self.cursor.0 = 0;
    }

    /// The clamp step ending every navigation operation.
    fn clamp_col(&mut self)
        requires
            old(self)@.wf_rows(),
        ensures
            final(self)@ == old(self)@.clamp_spec(),
            final(self)@.wf(),
    {
        let nlines = self.lines.len();
        let row = self.offset.1 + self.cursor.1;
        let line_len = self.lines[row].len();
        let past_end = if self.offset.0 >= line_len {
            true
        } else {
            self.cursor.0 >= line_len - self.offset.0
        };
        if past_end {
            self.end();
        }
    }

    /// Moves the cursor up one document row.
    pub fn cursor_up(&mut self)
        requires
            old(self)@.wf_rows_loose(),
        ensures
            final(self)@ == old(self)@.up_spec(),
            final(self)@.wf(),
    {
        let nlines = self.lines.len();
        if self.offset.1 + self.cursor.1 == 0 {
            // already at the top of the document
        } else if self.cursor.1 == 0 {
            self.offset.1 = self.offset.1 - 1;
        } else {
            self.cursor.1 = self.cursor.1 - 1;
        }
        self.clamp_col();
    }

    /// Moves the cursor down one document row.
    pub fn cursor_down(&mut self)
        requires
            old(self)@.wf_rows(),
        ensures
            final(self)@ == old(self)@.down_spec(),
            final(self)@.wf(),
    {
        let nlines = self.lines.len();
        if self.offset.1 + self.cursor.1 >= nlines - 1 {
            // already at the last line of the document
        } else if self.cursor.1 >= self.v_size.1 - 1 {
            self.cursor.1 = self.v_size.1 - 1;
            self.offset.1 = self.offset.1 + 1;
        } else {
            self.cursor.1 = self.cursor.1 + 1;
        }
        self.clamp_col();
    }

    /// Moves the cursor left one column. The column may come in sitting one
    /// past the append position (as it transiently does after erasing a
    /// character); moving left restores the invariant.
    pub fn cursor_left(&mut self)
        requires
            old(self)@.wf_rows(),
            old(self)@.abs_col() <= old(self)@.cur_line().len() + 1,
        ensures
            final(self)@ == old(self)@.left_spec(),
            final(self)@.wf(),
    {
        if self.offset.0 == 0 && self.cursor.0 == 0 {
            if self.offset.1 > 0 || self.cursor.1 > 0 {
                self.cursor_up();
                self.end();
            }
        } else if self.cursor.0 == 0 {
            self.offset.0 = self.offset.0 - 1;
        } else {
            self.cursor.0 = self.cursor.0 - 1;
        }
    }

    /// Moves the cursor right one column.
    pub fn cursor_right(&mut self)
        requires
            old(self)@.wf(),
        ensures
            final(self)@ == old(self)@.right_spec(),
            final(self)@.wf(),
    {
        let nlines = self.lines.len();
        let row = self.offset.1 + self.cursor.1;
        let line_len = self.lines[row].len();
        let view_cols = self.v_size.0;
        if self.offset.0 + self.cursor.0 >= line_len {
            if row < nlines - 1 {
                self.cursor_down();
                self.home();
            } else {
                self.end();
            }
        } else if self.cursor.0 >= view_cols - 1 {
            self.offset.0 = self.offset.0 + 1;
            self.cursor.0 = view_cols - 1;
        } else {
            self.cursor.0 = self.cursor.0 + 1;
        }
    }

    /// Pages up one viewport height.
    pub fn page_up(&mut self)
        requires
            old(self)@.wf_rows(),
        ensures
            final(self)@ == old(self)@.page_up_spec(),
            final(self)@.wf(),
    {
        if self.offset.1 == 0 && self.cursor.1 == 0 {
            // already at the top of the document
        } else if self.offset.1 == 0 {
            self.cursor.1 = 0;
        } else if self.offset.1 <= self.v_size.1 - 1 {
            if self.cursor.1 > self.v_size.1 - self.offset.1 {
                self.cursor.1 = self.cursor.1 - (self.v_size.1 - self.offset.1);
            }
            self.offset.1 = 0;
        } else {
            self.offset.1 = self.offset.1 - self.v_size.1;
        }
        self.clamp_col();
    }

    /// Pages down one viewport height.
    pub fn page_down(&mut self)
        requires
            old(self)@.wf_rows(),
        ensures
            final(self)@ == old(self)@.page_down_spec(),
            final(self)@.wf(),
    {
        let nlines = self.lines.len();
        if self.offset.1 + self.cursor.1 >= nlines - 1 {
            // already at the last line of the document
        } else if nlines < self.v_size.1 {
            self.cursor.1 = nlines - 1 - self.offset.1;
        } else if self.offset.1 >= nlines - self.v_size.1 {
            self.cursor.1 = nlines - self.offset.1 - 1;
        } else {
            self.offset.1 = self.offset.1 + self.v_size.1;
            if self.offset.1 >= nlines - 1 - self.v_size.1 {
                self.offset.1 = nlines - self.v_size.1;
            }
        }
        self.clamp_col();
    }

    /// Goes to document row `line`, clamped to the document.
    pub fn goto_line(&mut self, line: usize)
        requires
            old(self)@.wf_rows(),
        ensures
            final(self)@ == old(self)@.goto_spec(line as int),
            final(self)@.wf(),
    {
        let nlines = self.lines.len();
        let line = if line >= nlines {
            nlines - 1
        } else {
            line
        };
        if line < self.v_size.1 {
            self.offset.1 = 0;
            self.cursor.1 = line;
        } else {
            self.offset.1 = line - self.cursor.1;
        }
        self.clamp_col();
    }
}

} // verus!
