//! The textual model of a source file: an ordered sequence of physical lines,
//! each rendered newline-terminated, and the three slices a line span cuts the
//! file into.

use vstd::prelude::*;

verus! {

/// A sequence of physical lines rendered as file text: every line is
/// terminated with a newline character.
pub open spec fn join_lines(lines: Seq<Seq<char>>) -> Seq<char>
    decreases lines.len(),
{
    if lines.len() == 0 {
        Seq::empty()
    } else {
        join_lines(lines.drop_last()) + lines.last() + seq!['\n']
    }
}

/// The number of lines a rendered text holds under the newline-termination
/// convention: one per newline character.
pub open spec fn newline_count(s: Seq<char>) -> nat
    decreases s.len(),
{
    if s.len() == 0 {
        0
    } else {
        newline_count(s.drop_last()) + (if s.last() == '\n' {
            1nat
        } else {
            0nat
        })
    }
}

/// The exact text of lines `[line_from, line_to]` (1-indexed, inclusive).
pub open spec fn snippet_of(lines: Seq<Seq<char>>, line_from: int, line_to: int) -> Seq<char> {
    join_lines(lines.subrange(line_from - 1, line_to))
}

/// The text of all lines strictly before `line_from`.
pub open spec fn before_of(lines: Seq<Seq<char>>, line_from: int) -> Seq<char> {
    join_lines(lines.subrange(0, line_from - 1))
}

/// The text of all lines strictly after `line_to`.
pub open spec fn after_of(lines: Seq<Seq<char>>, line_to: int) -> Seq<char> {
    join_lines(lines.subrange(line_to, lines.len() as int))
}

pub proof fn lemma_join_lines_concat(a: Seq<Seq<char>>, b: Seq<Seq<char>>)
    ensures
        join_lines(a + b) == join_lines(a) + join_lines(b),
    decreases b.len(),
{
    if b.len() == 0 {
        assert(a + b =~= a);
        assert(join_lines(a) + join_lines(b) =~= join_lines(a));
    } else {
        lemma_join_lines_concat(a, b.drop_last());
        assert((a + b).drop_last() =~= a + b.drop_last());
        assert(join_lines(a) + join_lines(b) =~= join_lines(a + b));
    }
}

pub proof fn lemma_newline_count_concat(a: Seq<char>, b: Seq<char>)
    ensures
        newline_count(a + b) == newline_count(a) + newline_count(b),
    decreases b.len(),
{
    if b.len() == 0 {
        assert(a + b =~= a);
    } else {
        lemma_newline_count_concat(a, b.drop_last());
        assert((a + b).drop_last() =~= a + b.drop_last());
        assert((a + b).last() == b.last());
    }
}

pub proof fn lemma_newline_count_no_newline(s: Seq<char>)
    requires
        !s.contains('\n'),
    ensures
        newline_count(s) == 0,
    decreases s.len(),
{
    if s.len() > 0 {
        assert(!s.drop_last().contains('\n')) by {
            assert forall|i: int| 0 <= i < s.drop_last().len() implies s.drop_last()[i] != '\n' by {
                assert(s.drop_last()[i] == s[i]);
            }
        }
        lemma_newline_count_no_newline(s.drop_last());
        assert(s.last() != '\n');
    }
}

/// Lines that came from splitting a file hold no newline of their own, so the
/// rendered text holds exactly one newline per line.
pub proof fn lemma_join_lines_count(lines: Seq<Seq<char>>)
    requires
        forall|i: int| 0 <= i < lines.len() ==> !(#[trigger] lines[i]).contains('\n'),
    ensures
        newline_count(join_lines(lines)) == lines.len(),
    decreases lines.len(),
{
    if lines.len() > 0 {
        assert(forall|i: int|
            0 <= i < lines.drop_last().len() ==> #[trigger] lines.drop_last()[i] == lines[i]);
        lemma_join_lines_count(lines.drop_last());
        let head = join_lines(lines.drop_last());
        lemma_newline_count_concat(head, lines.last());
        lemma_newline_count_concat(head + lines.last(), seq!['\n']);
        lemma_newline_count_no_newline(lines.last());
        assert(newline_count(seq!['\n']) == 1) by {
            let nl = seq!['\n'];
            assert(nl.len() == 1);
            assert(nl.last() == '\n');
            assert(nl.drop_last() =~= Seq::<char>::empty());
            assert(newline_count(Seq::<char>::empty()) == 0);
        }
    }
}

/// Law: for any admissible span, the three slices reassemble the file text —
/// `before_text + snippet + after_text` equals the whole rendered file.
pub proof fn lemma_slices_reassemble_file(lines: Seq<Seq<char>>, line_from: int, line_to: int)
    requires
        1 <= line_from,
        line_from <= line_to,
        line_to <= lines.len(),
    ensures
        before_of(lines, line_from) + snippet_of(lines, line_from, line_to) + after_of(
            lines,
            line_to,
        ) == join_lines(lines),
{
    let n = lines.len() as int;
    lemma_join_lines_concat(lines.subrange(0, line_from - 1), lines.subrange(line_from - 1, line_to));
    assert(lines.subrange(0, line_from - 1) + lines.subrange(line_from - 1, line_to) =~= lines.subrange(0, line_to));
    lemma_join_lines_concat(lines.subrange(0, line_to), lines.subrange(line_to, n));
    assert(lines.subrange(0, line_to) + lines.subrange(line_to, n) =~= lines);
}

/// Law: for any admissible span of a file whose lines hold no embedded
/// newline, the line counts of `before_text`, `snippet` and `after_text` add
/// up to the file's total line count; each slice holds exactly the lines of
/// its range.
pub proof fn lemma_slice_line_counts(lines: Seq<Seq<char>>, line_from: int, line_to: int)
    requires
        1 <= line_from,
        line_from <= line_to,
        line_to <= lines.len(),
        forall|i: int| 0 <= i < lines.len() ==> !(#[trigger] lines[i]).contains('\n'),
    ensures
        newline_count(snippet_of(lines, line_from, line_to)) == line_to - line_from + 1,
        newline_count(before_of(lines, line_from)) == line_from - 1,
        newline_count(after_of(lines, line_to)) == lines.len() - line_to,
        newline_count(before_of(lines, line_from)) + newline_count(
            snippet_of(lines, line_from, line_to),
        ) + newline_count(after_of(lines, line_to)) == lines.len(),
{
    let n = lines.len() as int;
    assert(forall|i: int|
        0 <= i < lines.subrange(line_from - 1, line_to).len()
            ==> #[trigger] lines.subrange(line_from - 1, line_to)[i] == lines[i + line_from - 1]);
    lemma_join_lines_count(lines.subrange(line_from - 1, line_to));
    assert(forall|i: int|
        0 <= i < lines.subrange(0, line_from - 1).len()
            ==> #[trigger] lines.subrange(0, line_from - 1)[i] == lines[i]);
    lemma_join_lines_count(lines.subrange(0, line_from - 1));
    assert(forall|i: int|
        0 <= i < lines.subrange(line_to, n).len()
            ==> #[trigger] lines.subrange(line_to, n)[i] == lines[i + line_to]);
    lemma_join_lines_count(lines.subrange(line_to, n));
}

} // verus!
