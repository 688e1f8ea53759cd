//! Edit operations: inserting a character (plain, newline, backspace,
//! delete-forward) and deleting the current line. Each is specified by a
//! pure transition over `EdState` and keeps the buffer invariants.
use vstd::prelude::*;
use crate::editor::EdState;
use crate::editor::FileEdit;

verus! {

impl EdState {
    /// Inserting a plain character at the absolute cursor column, then
    /// moving right: the document is marked dirty.
    pub open spec fn ins_char_spec(self, ch: char) -> EdState {
        let row = self.abs_row();
        let col = self.abs_col();
        let s1 = EdState {
            lines: self.lines.update(row, self.cur_line().insert(col, ch)),
            dirty: true,
            ..self
        };
        s1.right_spec()
    }

    /// Splitting the current line at the absolute cursor column: what
    /// follows the split moves to a new line below; the cursor moves to
    /// the start of that line.
    pub open spec fn newline_spec(self) -> EdState {
        let row = self.abs_row();
        let col = self.abs_col();
        let line = self.cur_line();
        let s1 = EdState {
            lines: self.lines.update(row, line.take(col)).insert(row + 1, line.skip(col)),
            dirty: true,
            ..self
        };
        s1.down_spec().home_spec()
    }

    /// Backspace: at the start of a non-first line, joins the current line
    /// onto the end of the previous one (the cursor first moves there);
    /// at the very start of the document, nothing changes at all;
    /// otherwise removes the character to the left and moves left.
    /// Only the changing cases mark the document dirty.
    pub open spec fn backspace_spec(self) -> EdState {
        let row = self.abs_row();
        let col = self.abs_col();
        if col == 0 {
            if row > 0 {
                let s2 = EdState { dirty: true, ..self }.up_spec().end_spec();
                EdState {
                    lines: s2.lines.remove(row).update(row - 1, s2.lines[row - 1] + s2.lines[row]),
                    ..s2
                }
            } else {
                self
            }
        } else {
            let s2 = EdState {
                lines: self.lines.update(row, self.cur_line().remove(col - 1)),
                dirty: true,
                ..self
            };
            s2.left_spec()
        }
    }

    /// Delete-forward: at the end of a non-last line, joins the next line
    /// onto the end of the current one; at the end of the last line,
    /// nothing changes at all; otherwise removes the character under the
    /// cursor, which does not move.
    /// Only the changing cases mark the document dirty.
    pub open spec fn delete_fwd_spec(self) -> EdState {
        let row = self.abs_row();
        let col = self.abs_col();
        if col == self.cur_line().len() {
            if row < self.lines.len() - 1 {
                EdState {
                    lines: self.lines.remove(row + 1).update(row, self.lines[row] + self.lines[row + 1]),
                    dirty: true,
                    ..self
                }
            } else {
                self
            }
        } else {
            EdState {
                lines: self.lines.update(row, self.cur_line().remove(col)),
                dirty: true,
                ..self
            }
        }
    }

    /// What `insert` does, by the role of the character.
    pub open spec fn insert_spec(self, ch: char) -> EdState {
        if ch == '\n' {
            self.newline_spec()
        } else if ch == '\x08' {
            self.backspace_spec()
        } else if ch == '\x7f' {
            self.delete_fwd_spec()
        } else {
            self.ins_char_spec(ch)
        }
    }

    /// Removing the whole current line: one empty line is put back when the
    /// document would become empty; a cursor past the new last line moves
    /// up; the column is clamped to the resulting line.
    pub open spec fn delete_line_spec(self) -> EdState {
        let row = self.abs_row();
        let col = self.abs_col();
        let s1 = EdState { dirty: true, ..self };
        let shrunk = s1.lines.remove(row);
        let lines2 = if shrunk.len() == 0 {
            seq![Seq::<char>::empty()]
        } else {
            shrunk
        };
        let s2 = EdState { lines: lines2, ..s1 };
        let s3 = if row >= lines2.len() {
            s2.up_spec()
        } else {
            s2
        };
        if col >= s3.cur_line().len() {
            s3.end_spec()
        } else {
            s3
        }
    }
}

proof fn lemma_no_nl_update(lines: Seq<Seq<char>>, i: int, l: Seq<char>)
    requires
        crate::editor::no_nl_lines(lines),
        0 <= i < lines.len(),
        !l.contains('\n'),
    ensures
        crate::editor::no_nl_lines(lines.update(i, l)),
{
    let r = lines.update(i, l);
    assert forall|j: int| 0 <= j < r.len() implies !(#[trigger] r[j]).contains('\n') by {
        if j != i {
            assert(r[j] == lines[j]);
        }
    }
}

proof fn lemma_no_nl_insert_line(lines: Seq<Seq<char>>, i: int, l: Seq<char>)
    requires
        crate::editor::no_nl_lines(lines),
        0 <= i <= lines.len(),
        !l.contains('\n'),
    ensures
        crate::editor::no_nl_lines(lines.insert(i, l)),
{
    let r = lines.insert(i, l);
    assert forall|j: int| 0 <= j < r.len() implies !(#[trigger] r[j]).contains('\n') by {
        if j < i {
            assert(r[j] == lines[j]);
        } else if j > i {
            assert(r[j] == lines[j - 1]);
        }
    }
}

proof fn lemma_no_nl_remove_line(lines: Seq<Seq<char>>, i: int)
    requires
        crate::editor::no_nl_lines(lines),
        0 <= i < lines.len(),
    ensures
        crate::editor::no_nl_lines(lines.remove(i)),
{
    let r = lines.remove(i);
    assert forall|j: int| 0 <= j < r.len() implies !(#[trigger] r[j]).contains('\n') by {
        if j < i {
            assert(r[j] == lines[j]);
        } else {
            assert(r[j] == lines[j + 1]);
        }
    }
}

proof fn lemma_insert_keeps_no_nl(l: Seq<char>, i: int, c: char)
    requires
        0 <= i <= l.len(),
        !l.contains('\n'),
        c != '\n',
    ensures
        !l.insert(i, c).contains('\n'),
{
    let r = l.insert(i, c);
    assert forall|j: int| 0 <= j < r.len() implies r[j] != '\n' by {
        if j < i {
            assert(r[j] == l[j]);
        } else if j == i {
            assert(r[j] == c);
        } else {
            assert(r[j] == l[j - 1]);
        }
    }
    if r.contains('\n') {
        let j = choose|j: int| 0 <= j < r.len() && r[j] == '\n';
        assert(false);
    }
}

proof fn lemma_concat_keeps_no_nl(a: Seq<char>, b: Seq<char>)
    requires
        !a.contains('\n'),
        !b.contains('\n'),
    ensures
        !(a + b).contains('\n'),
{
    let r = a + b;
    assert forall|j: int| 0 <= j < r.len() implies r[j] != '\n' by {
        if j < a.len() {
            assert(r[j] == a[j]);
        } else {
            assert(r[j] == b[j - a.len()]);
        }
    }
    if r.contains('\n') {
        let j = choose|j: int| 0 <= j < r.len() && r[j] == '\n';
        assert(false);
    }
}

proof fn lemma_subseq_keeps_no_nl(l: Seq<char>, lo: int, hi: int)
    requires
        0 <= lo <= hi <= l.len(),
        !l.contains('\n'),
    ensures
        !l.subrange(lo, hi).contains('\n'),
{
    let r = l.subrange(lo, hi);
    assert forall|j: int| 0 <= j < r.len() implies r[j] != '\n' by {
        assert(r[j] == l[lo + j]);
    }
    if r.contains('\n') {
        let j = choose|j: int| 0 <= j < r.len() && r[j] == '\n';
        assert(false);
    }
}

proof fn lemma_remove_elt_keeps_no_nl(l: Seq<char>, i: int)
    requires
        0 <= i < l.len(),
        !l.contains('\n'),
    ensures
        !l.remove(i).contains('\n'),
{
    let r = l.remove(i);
    assert forall|j: int| 0 <= j < r.len() implies r[j] != '\n' by {
        if j < i {
            assert(r[j] == l[j]);
        } else {
            assert(r[j] == l[j + 1]);
        }
    }
    if r.contains('\n') {
        let j = choose|j: int| 0 <= j < r.len() && r[j] == '\n';
        assert(false);
    }
}

impl FileEdit {
    /// Inserts a plain (non-newline, non-erasing) character at the cursor.
    fn insert_plain(&mut self, ch: char)
        requires
            old(self)@.wf(),
            ch != '\n',
            ch != '\x08',
            ch != '\x7f',
        ensures
            final(self)@ == old(self)@.ins_char_spec(ch),
            final(self)@.wf(),
    {
        self.dirty = true;
        let nlines = self.lines.len();
        let row = self.offset.1 + self.cursor.1;
        let line_len = self.lines[row].len();
        let col = self.offset.0 + self.cursor.0;
        let mut line = self.lines.remove(row);
        line.insert(col, ch);
        self.lines.insert(row, line);
        proof {
            let s0 = old(self)@;
            let s1 = EdState {
                lines: s0.lines.update(s0.abs_row(), s0.cur_line().insert(s0.abs_col(), ch)),
                dirty: true,
                ..s0
            };
            lemma_insert_keeps_no_nl(s0.cur_line(), col as int, ch);
            lemma_no_nl_update(s0.lines, s0.abs_row(), s0.cur_line().insert(s0.abs_col(), ch));
            assert(self@.lines =~~= s1.lines);
            assert(self@ =~= s1);
            assert(self@.wf());
        }
        self.cursor_right();
    }

    /// Splits the current line at the cursor: the tail moves to a new line
    /// below and the cursor moves to its start.
    fn insert_newline(&mut self)
        requires
            old(self)@.wf(),
        ensures
            final(self)@ == old(self)@.newline_spec(),
            final(self)@.wf(),
    {
        self.dirty = true;
        let nlines = self.lines.len();
        let row = self.offset.1 + self.cursor.1;
        let line_len = self.lines[row].len();
        let col = self.offset.0 + self.cursor.0;
        let mut line = self.lines.remove(row);
        let rest = line.split_off(col);
        self.lines.insert(row, line);
        self.lines.insert(row + 1, rest);
        proof {
            let s0 = old(self)@;
            let s1 = EdState {
                lines: s0.lines.update(s0.abs_row(), s0.cur_line().take(s0.abs_col())).insert(
                    s0.abs_row() + 1,
                    s0.cur_line().skip(s0.abs_col()),
                ),
                dirty: true,
                ..s0
            };
            lemma_subseq_keeps_no_nl(s0.cur_line(), 0, s0.abs_col());
            lemma_subseq_keeps_no_nl(s0.cur_line(), s0.abs_col(), s0.cur_line().len() as int);
            lemma_no_nl_update(s0.lines, s0.abs_row(), s0.cur_line().take(s0.abs_col()));
            lemma_no_nl_insert_line(
                s0.lines.update(s0.abs_row(), s0.cur_line().take(s0.abs_col())),
                s0.abs_row() + 1,
                s0.cur_line().skip(s0.abs_col()),
            );
            assert(self@.lines =~~= s1.lines);
            assert(self@ =~= s1);
            assert(self@.wf());
        }
        self.cursor_down();
        self.home();
    }

    /// Backspace at the cursor: removes the character to the left, or joins
    /// the current line onto the previous one at the start of a line. At
    /// the very start of the document it is a complete no-op: the document
    /// is marked dirty only when the lines change.
    fn insert_backspace(&mut self)
        requires
            old(self)@.wf(),
        ensures
            final(self)@ == old(self)@.backspace_spec(),
            final(self)@.wf(),
    {
        let nlines = self.lines.len();
        let row = self.offset.1 + self.cursor.1;
        let line_len = self.lines[row].len();
        let col = self.offset.0 + self.cursor.0;
        if col == 0 {
            if row > 0 {
                self.dirty = true;
                self.cursor_up();
                self.end();
                let mut removed = self.lines.remove(row);
                let mut prev = self.lines.remove(row - 1);
                prev.append(&mut removed);
                self.lines.insert(row - 1, prev);
                proof {
                    let s0 = old(self)@;
                    let s2 = EdState { dirty: true, ..s0 }.up_spec().end_spec();
                    let joined = s2.lines[row - 1] + s2.lines[row as int];
                    lemma_concat_keeps_no_nl(s2.lines[row - 1], s2.lines[row as int]);
                    lemma_no_nl_remove_line(s2.lines, row as int);
                    lemma_no_nl_update(s2.lines.remove(row as int), row - 1, joined);
                    assert(self@.lines =~~= s2.lines.remove(row as int).update(row - 1, joined));
                    assert(self@ =~= s0.backspace_spec());
                    assert(self@.wf());
                }
            }
        } else {
            self.dirty = true;
            let mut line = self.lines.remove(row);
            line.remove(col - 1);
            self.lines.insert(row, line);
            proof {
                let s0 = old(self)@;
                let s2 = EdState {
                    lines: s0.lines.update(s0.abs_row(), s0.cur_line().remove(s0.abs_col() - 1)),
                    dirty: true,
                    ..s0
                };
                lemma_remove_elt_keeps_no_nl(s0.cur_line(), col - 1);
                lemma_no_nl_update(s0.lines, s0.abs_row(), s0.cur_line().remove(s0.abs_col() - 1));
                assert(self@.lines =~~= s2.lines);
                assert(self@ =~= s2);
                assert(self@.wf_rows());
                assert(self@.abs_col() <= self@.cur_line().len() + 1);
            }
            self.cursor_left();
        }
    }

    /// Delete-forward at the cursor: removes the character under the cursor,
    /// or joins the next line onto the current one at the end of a line. At
    /// the end of the last line it is a complete no-op: the document is
    /// marked dirty only when the lines change.
    fn insert_delete_fwd(&mut self)
        requires
            old(self)@.wf(),
        ensures
            final(self)@ == old(self)@.delete_fwd_spec(),
            final(self)@.wf(),
    {
        let nlines = self.lines.len();
        let row = self.offset.1 + self.cursor.1;
        let line_len = self.lines[row].len();
        let col = self.offset.0 + self.cursor.0;
        if col == line_len {
            if row < nlines - 1 {
                self.dirty = true;
                let mut next = self.lines.remove(row + 1);
                let mut line = self.lines.remove(row);
                line.append(&mut next);
                self.lines.insert(row, line);
                proof {
                    let s0 = old(self)@;
                    let joined = s0.lines[row as int] + s0.lines[row + 1];
                    lemma_concat_keeps_no_nl(s0.lines[row as int], s0.lines[row + 1]);
                    lemma_no_nl_remove_line(s0.lines, row + 1);
                    lemma_no_nl_update(s0.lines.remove(row + 1), row as int, joined);
                    assert(self@.lines =~~= s0.lines.remove(row + 1).update(row as int, joined));
                    assert(self@ =~= s0.delete_fwd_spec());
                    assert(self@.wf());
                }
            }
        } else {
            self.dirty = true;
            let mut line = self.lines.remove(row);
            line.remove(col);
            self.lines.insert(row, line);
            proof {
                let s0 = old(self)@;
                lemma_remove_elt_keeps_no_nl(s0.cur_line(), col as int);
                lemma_no_nl_update(s0.lines, s0.abs_row(), s0.cur_line().remove(s0.abs_col()));
                assert(self@.lines =~~= s0.lines.update(
                    s0.abs_row(),
                    s0.cur_line().remove(s0.abs_col()),
                ));
                assert(self@ =~= s0.delete_fwd_spec());
                assert(self@.wf());
            }
        }
    }

    /// Inserts `ch` at the cursor, by its role: a newline splits the line,
    /// backspace erases leftward (joining lines at a line start), delete
    /// erases under the cursor (joining at a line end), anything else is
    /// inserted as text. The document is marked dirty exactly when the
    /// lines change; the two boundary no-ops (backspace at the document
    /// start, delete at the document end) leave it as it was.
    pub fn insert(&mut self, ch: char)
        requires
            old(self)@.wf(),
        ensures
            final(self)@ == old(self)@.insert_spec(ch),
            final(self)@.wf(),
    {
        if ch == '\n' {
            self.insert_newline();
        } else if ch == '\x08' {
            self.insert_backspace();
        } else if ch == '\x7f' {
            self.insert_delete_fwd();
        } else {
            self.insert_plain(ch);
        }
    }

    /// Removes the whole current line and returns it; the document never
    /// becomes empty, and the cursor is clamped to the resulting line.
    pub fn delete_line(&mut self) -> (removed: Vec<char>)
        requires
            old(self)@.wf(),
        ensures
            final(self)@ == old(self)@.delete_line_spec(),
            final(self)@.wf(),
            removed@ == old(self)@.cur_line(),
    {
        self.dirty = true;
        let nlines = self.lines.len();
        let row = self.offset.1 + self.cursor.1;
        let line_len = self.lines[row].len();
        let col = self.offset.0 + self.cursor.0;
        let removed = self.lines.remove(row);
        if self.lines.len() == 0 {
            self.lines.push(Vec::new());
        }
        proof {
            let s0 = old(self)@;
            let s1 = EdState { dirty: true, ..s0 };
            let shrunk = s1.lines.remove(row as int);
            let lines2 = if shrunk.len() == 0 {
                seq![Seq::<char>::empty()]
            } else {
                shrunk
            };
            lemma_no_nl_remove_line(s0.lines, row as int);
            assert(!Seq::<char>::empty().contains('\n'));
            if shrunk.len() == 0 {
                assert(crate::editor::no_nl_lines(lines2)) by {
                    assert(forall|j: int| 0 <= j < lines2.len() ==> lines2[j] == Seq::<char>::empty());
                }
            }
            assert(self@.lines =~~= lines2);
            assert(self@ =~= EdState { lines: lines2, ..s1 });
            assert(self@.wf_rows_loose());
            assert(removed@ == s0.cur_line());
        }
        let n2 = self.lines.len();
        if row >= n2 {
            self.cursor_up();
        }
        proof {
            assert(self@.wf_rows());
        }
        let n3 = self.lines.len();
        let row2 = self.offset.1 + self.cursor.1;
        let line_len2 = self.lines[row2].len();
        if col >= line_len2 {
            self.end();
        }
        proof {
            assert(self@ =~= old(self)@.delete_line_spec());
        }
        removed
    }
}

} // verus!
