//! Persistence: the serialized form of a document (every line followed by
//! one newline terminator, including the last), planning a save, and the
//! round-trip law between serializing and reading the text back.
use vstd::prelude::*;
use crate::editor::EdState;
use crate::editor::FileEdit;
use crate::editor::lines_view;
use crate::editor::no_nl_lines;

verus! {

/// The text a line sequence serializes to: every line followed by a single
/// newline terminator, including after the last line.
pub open spec fn render_lines(lines: Seq<Seq<char>>) -> Seq<char>
    decreases lines.len(),
{
    if lines.len() == 0 {
        Seq::empty()
    } else {
        lines.first() + seq!['\n'] + render_lines(lines.drop_first())
    }
}

/// The position of the first newline in `text` (its length when none).
pub open spec fn first_nl(text: Seq<char>) -> nat
    decreases text.len(),
{
    if text.len() == 0 {
        0
    } else if text[0] == '\n' {
        0
    } else {
        1 + first_nl(text.drop_first())
    }
}

/// The line sequence `text` deserializes to: the text split at each newline,
/// a final piece without a terminator included only when it is not empty.
pub open spec fn parse_lines(text: Seq<char>) -> Seq<Seq<char>>
    decreases text.len(),
{
    if text.len() == 0 {
        Seq::empty()
    } else {
        let i = first_nl(text);
        if i >= text.len() {
            seq![text]
        } else {
            seq![text.take(i as int)] + parse_lines(text.skip(i as int + 1))
        }
    }
}

proof fn lemma_first_nl_of_line(l: Seq<char>, rest: Seq<char>)
    requires
        !l.contains('\n'),
    ensures
        first_nl(l + seq!['\n'] + rest) == l.len(),
    decreases l.len(),
{
    let t = l + seq!['\n'] + rest;
    if l.len() == 0 {
        assert(t[0] == '\n');
    } else {
        assert(t[0] == l[0]);
        assert(l.contains('\n') <==> exists|j: int| 0 <= j < l.len() && l[j] == '\n');
        assert(l[0] != '\n');
        let l2 = l.drop_first();
        assert(!l2.contains('\n')) by {
            assert(forall|j: int| 0 <= j < l2.len() ==> #[trigger] l2[j] == l[j + 1]);
            if l2.contains('\n') {
                let j = choose|j: int| 0 <= j < l2.len() && l2[j] == '\n';
                assert(l[j + 1] == '\n');
                assert(false);
            }
        }
        lemma_first_nl_of_line(l2, rest);
        assert(t.drop_first() =~= l2 + seq!['\n'] + rest);
    }
}

/// Law: serializing a document and reading the text back yields the
/// identical line sequence. Saving writes exactly `render_lines` of the
/// document's lines, so a reload from the same destination restores them.
pub proof fn lemma_parse_render_round_trip(lines: Seq<Seq<char>>)
    requires
        no_nl_lines(lines),
    ensures
        parse_lines(render_lines(lines)) == lines,
    decreases lines.len(),
{
    if lines.len() == 0 {
    } else {
        let l0 = lines.first();
        let rest = render_lines(lines.drop_first());
        let text = render_lines(lines);
        assert(l0 == lines[0]);
        assert(!l0.contains('\n'));
        lemma_first_nl_of_line(l0, rest);
        assert(text.len() == l0.len() + 1 + rest.len());
        assert(first_nl(text) < text.len());
        assert(text.take(l0.len() as int) =~= l0);
        assert(text.skip(l0.len() as int + 1) =~= rest);
        assert(no_nl_lines(lines.drop_first())) by {
            assert(forall|j: int| 0 <= j < lines.len() - 1 ==> #[trigger] lines.drop_first()[j]
                == lines[j + 1]);
        }
        lemma_parse_render_round_trip(lines.drop_first());
        assert(parse_lines(text) =~~= lines);
    }
}

proof fn lemma_render_push(lines: Seq<Seq<char>>, l: Seq<char>)
    ensures
        render_lines(lines.push(l)) == render_lines(lines) + l + seq!['\n'],
    decreases lines.len(),
{
    if lines.len() == 0 {
        assert(lines.push(l).first() == l);
        assert(lines.push(l).drop_first() =~= Seq::<Seq<char>>::empty());
        assert(render_lines(Seq::<Seq<char>>::empty()) == Seq::<char>::empty());
        assert(render_lines(lines.push(l)) == lines.push(l).first() + seq!['\n'] + render_lines(
            lines.push(l).drop_first(),
        ));
        assert(render_lines(lines.push(l)) =~= l + seq!['\n']);
        assert(render_lines(lines) + l + seq!['\n'] =~= l + seq!['\n']);
    } else {
        assert(lines.push(l).first() == lines.first());
        assert(lines.push(l).drop_first() =~= lines.drop_first().push(l));
        lemma_render_push(lines.drop_first(), l);
        assert(render_lines(lines.push(l)) =~= render_lines(lines) + l + seq!['\n']);
    }
}

/// Relies on String::push: appends the given character to the string.
#[verifier::external_body]
pub(crate) fn push_char(s: &mut String, c: char)
    ensures
        final(s)@ == old(s)@.push(c),
{
    s.push(c);
}

/// The serialized text of the given line buffers.
fn render_content(lines: &Vec<Vec<char>>) -> (out: String)
    ensures
        out@ == render_lines(lines_view(*lines)),
{
    let mut out = String::new();
    let n = lines.len();
    for i in 0..n
        invariant
            n == lines@.len(),
            out@ == render_lines(lines_view(*lines).take(i as int)),
    {
        let m = lines[i].len();
        for j in 0..m
            invariant
                n == lines@.len(),
                0 <= i < n,
                m == lines@[i as int]@.len(),
                out@ == render_lines(lines_view(*lines).take(i as int)) + lines@[i as int]@.take(
                    j as int,
                ),
        {
            push_char(&mut out, lines[i][j]);
            proof {
                assert(lines@[i as int]@.take(j + 1) =~= lines@[i as int]@.take(j as int).push(
                    lines@[i as int]@[j as int],
                ));
                assert(out@ =~= render_lines(lines_view(*lines).take(i as int)) + lines@[
                    i as int]@.take(j + 1));
            }
        }
        push_char(&mut out, '\n');
        proof {
            let lv = lines_view(*lines);
            lemma_render_push(lv.take(i as int), lv[i as int]);
            assert(lv.take(i + 1) =~= lv.take(i as int).push(lv[i as int]));
            assert(lines@[i as int]@.take(m as int) =~= lv[i as int]);
            assert(out@ =~= render_lines(lv.take(i + 1)));
        }
    }
    proof {
        assert(lines_view(*lines).take(n as int) =~= lines_view(*lines));
    }
    out
}

/// What a save must do: nothing, fail for want of a destination, or write
/// the serialized text.
pub enum SavePlan {
    /// Nothing to write: the document is unchanged since the last save.
    Clean,
    /// The document has changed but names no destination to write to.
    NoDestination,
    /// The serialized text to write to the destination, whole.
    Write(String),
}

impl FileEdit {
    /// Plans a save: nothing to do when the document is clean; an error
    /// when it is dirty without a destination; otherwise the exact text to
    /// write. On a successful write the caller reports it with
    /// `mark_saved`; on a failed one the document is left as it is.
    pub fn save_plan(&self) -> (p: SavePlan)
        ensures
            match p {
                SavePlan::Clean => !self@.dirty,
                SavePlan::NoDestination => self@.dirty && self@.path is None,
                SavePlan::Write(content) => self@.dirty && self@.path is Some && content@
                    == render_lines(self@.lines),
            },
    {
        if self.dirty {
            if self.path.is_some() {
                SavePlan::Write(render_content(&self.lines))
            } else {
                SavePlan::NoDestination
            }
        } else {
            SavePlan::Clean
        }
    }

    /// Records that the planned text reached the destination: the document
    /// is clean again, and nothing else changes.
    pub fn mark_saved(&mut self)
        ensures
            final(self)@ == (EdState { dirty: false, ..old(self)@ }),
    {
        self.dirty = false;
    }
}

} // verus!
