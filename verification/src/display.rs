//! Display: the buffer's name, the status line text, and painting the
//! visible part of the document through the render capability.
use vstd::prelude::*;
use crate::coord::Coord;
use crate::editor::EdState;
use crate::editor::FileEdit;
use crate::numfmt::dec_rep;
use crate::numfmt::fmt_usize;
use crate::persist::push_char;
use crate::textbox::Style;
use crate::textbox::Textbox;

verus! {

impl EdState {
    /// The buffer's display name: its destination, or a placeholder for an
    /// unnamed buffer.
    pub open spec fn name_spec(self) -> Seq<char> {
        match self.path {
            Some(p) => p,
            None => "-- buffer --"@,
        }
    }

    /// The number of document rows in view: the viewport height, or what
    /// is left of the document below the row offset when that is less.
    pub open spec fn vis_rows(self) -> int {
        if self.off_row + self.vrows <= self.lines.len() {
            self.vrows
        } else {
            self.lines.len() - self.off_row
        }
    }

    /// The text shown on viewport row `r`: the slice of the document line
    /// that the column offset and the viewport width leave in view (empty
    /// when the line ends left of the offset).
    pub open spec fn vis_row(self, r: int) -> Seq<char> {
        let line = self.lines[self.off_row + r];
        if self.off_col < line.len() {
            if self.off_col + self.vcols <= line.len() {
                line.subrange(self.off_col, self.off_col + self.vcols)
            } else {
                line.subrange(self.off_col, line.len() as int)
            }
        } else {
            Seq::empty()
        }
    }

    /// The status line text: the name, a star when dirty, then the one-based
    /// cursor column over the current line's length, and the one-based
    /// cursor row over the line count.
    pub open spec fn status_spec(self) -> Seq<char> {
        self.name_spec() + (if self.dirty {
            seq!['*']
        } else {
            Seq::<char>::empty()
        }) + " - "@ + dec_rep(self.abs_col() + 1) + seq!['/'] + dec_rep(self.cur_line().len() as int)
            + " - "@ + dec_rep(self.abs_row() + 1) + seq!['/'] + dec_rep(self.lines.len() as int)
    }
}

/// Appends every character of `v` to `s`.
fn push_chars(s: &mut String, v: &Vec<char>)
    ensures
        final(s)@ == old(s)@ + v@,
{
    let n = v.len();
    for i in 0..n
        invariant
            n == v@.len(),
            s@ == old(s)@ + v@.take(i as int),
    {
        push_char(s, v[i]);
        proof {
            assert(v@.take(i + 1) =~= v@.take(i as int).push(v@[i as int]));
            assert(s@ =~= old(s)@ + v@.take(i + 1));
        }
    }
    proof {
        assert(v@.take(n as int) =~= v@);
    }
}

impl FileEdit {
    /// The buffer's display name.
    pub fn name(&self) -> (r: String)
        ensures
            r@ == self@.name_spec(),
    {
        match &self.path {
            Some(p) => p.clone(),
            None => String::from_str("-- buffer --"),
        }
    }

    /// The status line text.
    pub fn status(&self) -> (r: String)
        requires
            self@.wf(),
            self@.cur_line().len() < usize::MAX,
        ensures
            r@ == self@.status_spec(),
    {
        let nlines = self.lines.len();
        let row = self.offset.1 + self.cursor.1;
        let line_len = self.lines[row].len();
        let col = self.offset.0 + self.cursor.0;
        let mut s = self.name();
        if self.dirty {
            push_char(&mut s, '*');
        }
        s.append(" - ");
        let d = fmt_usize(col + 1);
        push_chars(&mut s, &d);
        push_char(&mut s, '/');
        let d = fmt_usize(line_len);
        push_chars(&mut s, &d);
        s.append(" - ");
        let d = fmt_usize(row + 1);
        push_chars(&mut s, &d);
        push_char(&mut s, '/');
        let d = fmt_usize(nlines);
        push_chars(&mut s, &d);
        proof {
            assert(s@ =~= self@.status_spec());
        }
        s
    }

    /// The visible window of the document, row by row: exactly `vis_rows`
    /// rows, each carrying exactly its `vis_row` slice of the document.
    pub fn visible_rows(&self) -> (v: Vec<Vec<char>>)
        requires
            self@.wf(),
        ensures
            v@.len() == self@.vis_rows(),
            forall|r: int| 0 <= r < v@.len() ==> (#[trigger] v@[r])@ == self@.vis_row(r),
    {
        let nlines = self.lines.len();
        let off_row = self.offset.1;
        let off_col = self.offset.0;
        let vrows = self.v_size.1;
        let vcols = self.v_size.0;
        let height = if nlines - off_row < vrows {
            nlines - off_row
        } else {
            vrows
        };
        let mut v: Vec<Vec<char>> = Vec::new();
        let mut r: usize = 0;
        while r < height
            invariant
                self@.wf(),
                nlines == self@.lines.len(),
                off_row == self@.off_row,
                off_col == self@.off_col,
                vrows == self@.vrows,
                vcols == self@.vcols,
                off_row < nlines,
                height == self@.vis_rows(),
                height <= nlines - off_row,
                v@.len() == r <= height,
                forall|j: int| 0 <= j < r ==> (#[trigger] v@[j])@ == self@.vis_row(j),
            decreases height - r,
        {
            let line_len = self.lines[off_row + r].len();
            let mut rowv: Vec<char> = Vec::new();
            if off_col < line_len {
                let width = if line_len - off_col < vcols {
                    line_len - off_col
                } else {
                    vcols
                };
                let mut c: usize = 0;
                while c < width
                    invariant
                        self@.wf(),
                        nlines == self@.lines.len(),
                        off_row == self@.off_row,
                        off_col == self@.off_col,
                        vcols == self@.vcols,
                        off_row + r < nlines,
                        line_len == self@.lines[off_row + r].len(),
                        off_col < line_len,
                        c <= width,
                        off_col + width <= line_len,
                        width <= vcols,
                        rowv@ == self@.lines[off_row + r].subrange(
                            off_col as int,
                            off_col + c,
                        ),
                    decreases width - c,
                {
                    rowv.push(self.lines[off_row + r][off_col + c]);
                    proof {
                        assert(self@.lines[off_row + r].subrange(off_col as int, off_col + c + 1)
                            =~= self@.lines[off_row + r].subrange(off_col as int, off_col + c)
                            .push(self@.lines[off_row + r][off_col + c]));
                    }
                    c = c + 1;
                }
            }
            proof {
                assert(rowv@ =~= self@.vis_row(r as int));
            }
            v.push(rowv);
            r = r + 1;
        }
        v
    }

    /// Paints the visible part of the document. `visible_rows` fixes
    /// exactly which character stands in which viewport cell; this function
    /// only hands them to the backend, row by row in the default style,
    /// and, when active, places the hardware cursor at `global + cursor`
    /// (the exact sum `Coord::add` promises).
    pub fn paint<T: Textbox>(&self, tbox: &mut T, global: Coord, active: bool)
        requires
            self@.wf(),
            global.0 + self@.vcols <= usize::MAX,
            global.1 + self@.vrows <= usize::MAX,
    {
        if active {
            tbox.set_cursor(global.add(self.cursor));
        }
        let rows = self.visible_rows();
        let nr = rows.len();
        let mut r: usize = 0;
        while r < nr
            invariant
                nr == rows@.len(),
            decreases nr - r,
        {
            let nc = rows[r].len();
            let mut c: usize = 0;
            while c < nc
                invariant
                    nr == rows@.len(),
                    r < nr,
                    nc == rows@[r as int]@.len(),
                decreases nc - c,
            {
                tbox.set_cell(
                    Coord(c, r),
                    rows[r][c],
                    Style::default_style(),
                    Style::default_style(),
                );
                c = c + 1;
            }
            r = r + 1;
        }
    }
}

} // verus!
