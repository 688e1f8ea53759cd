//! Laws of the editing operations, stated over the pure transition
//! functions that the executable operations are proved to implement.
use vstd::prelude::*;
use crate::editor::EdState;

verus! {

proof fn lemma_insert_then_remove(l: Seq<char>, i: int, c: char)
    requires
        0 <= i <= l.len(),
    ensures
        l.insert(i, c).remove(i) == l,
{
    assert(l.insert(i, c).remove(i) =~= l);
}

/// Law: inserting a printable character and then backspacing restores the
/// line contents and the absolute cursor position exactly (only the dirty
/// mark remains set).
pub proof fn lemma_insert_backspace_identity(s: EdState, ch: char)
    requires
        s.wf(),
        ch != '\n',
        ch != '\x08',
        ch != '\x7f',
    ensures
        s.ins_char_spec(ch).backspace_spec().lines == s.lines,
        s.ins_char_spec(ch).backspace_spec().abs_row() == s.abs_row(),
        s.ins_char_spec(ch).backspace_spec().abs_col() == s.abs_col(),
    {
        let row = s.abs_row();
        let col = s.abs_col();
        let grown = s.cur_line().insert(col, ch);
        let s1 = EdState { lines: s.lines.update(row, grown), dirty: true, ..s };
        assert(s1.cur_line() == grown);
        assert(grown.len() == s.cur_line().len() + 1);
        let t = s1.right_spec();
        assert(t.lines == s1.lines);
        assert(t.abs_row() == row);
        assert(t.abs_col() == col + 1);
        let b = t.backspace_spec();
        lemma_insert_then_remove(s.cur_line(), col, ch);
        assert(t.cur_line().remove(col) == s.cur_line());
        let s2 = EdState { lines: t.lines.update(row, s.cur_line()), dirty: true, ..t };
        assert(s2.lines =~~= s.lines);
        assert(b == s2.left_spec());
        assert(b.lines == s.lines);
        assert(b.abs_row() == row);
        assert(b.abs_col() == col);
    }

/// Law: splitting a line with a newline and then backspacing at the start
/// of the new line restores the original line and the absolute cursor
/// position exactly (only the dirty mark remains set).
pub proof fn lemma_newline_backspace_identity(s: EdState)
    requires
        s.wf(),
    ensures
        s.newline_spec().backspace_spec().lines == s.lines,
        s.newline_spec().backspace_spec().abs_row() == s.abs_row(),
        s.newline_spec().backspace_spec().abs_col() == s.abs_col(),
    {
        let row = s.abs_row();
        let col = s.abs_col();
        let line = s.cur_line();
        let split = s.lines.update(row, line.take(col)).insert(row + 1, line.skip(col));
        let s1 = EdState { lines: split, dirty: true, ..s };
        assert(s1.lines.len() == s.lines.len() + 1);
        assert(s1.cur_line() == line.take(col));
        let t = s1.down_spec().home_spec();
        assert(t.lines == split);
        assert(t.abs_row() == row + 1);
        assert(t.abs_col() == 0);
        let b = t.backspace_spec();
        let s2 = EdState { dirty: true, ..t }.up_spec().end_spec();
        assert(s2.lines == split);
        assert(s2.abs_row() == row);
        assert(split[row] == line.take(col));
        assert(split[row + 1] == line.skip(col));
        assert(s2.abs_col() == col);
        assert(b.lines == split.remove(row + 1).update(row, split[row] + split[row + 1]));
        assert(line.take(col) + line.skip(col) =~= line);
        assert(b.lines =~~= s.lines);
        assert(b.abs_row() == row);
        assert(b.abs_col() == col);
    }

/// Law: moving up at the first document row leaves the lines and the
/// absolute cursor position unchanged.
pub proof fn lemma_cursor_up_at_top(s: EdState)
    requires
        s.wf(),
        s.abs_row() == 0,
    ensures
        s.up_spec().lines == s.lines,
        s.up_spec().abs_row() == 0,
        s.up_spec().abs_col() == s.abs_col(),
{
}

/// Law: moving down at the last document row leaves the lines and the
/// absolute cursor position unchanged.
pub proof fn lemma_cursor_down_at_bottom(s: EdState)
    requires
        s.wf(),
        s.abs_row() == s.lines.len() - 1,
    ensures
        s.down_spec().lines == s.lines,
        s.down_spec().abs_row() == s.abs_row(),
        s.down_spec().abs_col() == s.abs_col(),
{
}

/// Law: paging never drives the offset row out of the document. Paging up
/// never increases it (so it stays non-negative); paging down either does
/// not increase it, or leaves a full viewport of rows in reach.
pub proof fn lemma_page_bounds(s: EdState)
    requires
        s.wf(),
    ensures
        s.page_up_spec().off_row >= 0,
        s.page_up_spec().off_row <= s.off_row,
        s.page_down_spec().off_row >= 0,
        s.page_down_spec().off_row <= s.off_row || s.page_down_spec().off_row + s.vrows
            <= s.lines.len(),
{
}

/// Law: going to any row at or past the last line behaves exactly like
/// going to the last line.
pub proof fn lemma_goto_clamp(s: EdState, n: int)
    requires
        s.wf(),
        n >= s.lines.len(),
    ensures
        s.goto_spec(n) == s.goto_spec(s.lines.len() - 1),
{
}

} // verus!
