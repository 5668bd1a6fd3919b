//! The human-readable rendering: labelled lines in fixed columns.

use vstd::prelude::*;
use vstd::string::StrSliceExecFns;
use vstd::string::StringExecFns;

verus! {

/// The least number of characters that a label takes up in a line.
pub const LABEL_WIDTH: usize = 20;

/// `n` spaces.
pub open spec fn spaces(n: nat) -> Seq<char> {
    Seq::new(n, |i: int| ' ')
}

/// `label`, followed by the spaces that it lacks to be `width` characters
/// long. A label that is long enough already is left as it is.
pub open spec fn padded(label: Seq<char>, width: nat) -> Seq<char> {
    if label.len() < width {
        label + spaces((width - label.len()) as nat)
    } else {
        label
    }
}

/// One line of the table: the padded label, one space, the value, a line feed.
pub open spec fn line(label: Seq<char>, value: Seq<char>) -> Seq<char> {
    padded(label, LABEL_WIDTH as nat) + seq![' '] + value + seq!['\n']
}

/// The lines of `rows`, one after the other.
pub open spec fn table(rows: Seq<(Seq<char>, Seq<char>)>) -> Seq<char>
    decreases rows.len(),
{
    if rows.len() == 0 {
        Seq::empty()
    } else {
        table(rows.drop_last()) + line(rows.last().0, rows.last().1)
    }
}

/// The table of one row more: the line of that row comes at the end.
pub proof fn lemma_table_step(rows: Seq<(Seq<char>, Seq<char>)>, shown: int)
    requires
        0 <= shown < rows.len(),
    ensures
        table(rows.take(shown + 1)) == table(rows.take(shown)) + line(
            rows[shown].0,
            rows[shown].1,
        ),
{
    assert(rows.take(shown + 1).drop_last() =~= rows.take(shown));
}

/// Where things stand in a line: the label at the start, spaces from its end
/// up to and including column `LABEL_WIDTH` (or one space, after a label that
/// is longer), then the value, then the line feed.
pub proof fn lemma_line_layout(label: Seq<char>, value: Seq<char>)
    ensures
        ({
            let text = line(label, value);
            let column = if label.len() < LABEL_WIDTH {
                LABEL_WIDTH as int
            } else {
                label.len() as int
            };
            &&& text.len() == column + 1 + value.len() + 1
            &&& text.subrange(0, label.len() as int) == label
            &&& forall|i: int| label.len() <= i <= column ==> text[i] == ' '
            &&& text.subrange(column + 1, column + 1 + value.len()) == value
            &&& text.last() == '\n'
        }),
{
}

/// Appends `label` to `out`, left-aligned in a column of `width` characters.
pub fn push_padded(out: &mut String, label: &str, width: usize)
    ensures
        final(out)@ == old(out)@ + padded(label@, width as nat),
{
    let ghost before = out@;
    out.append(label);
    let mut filled: usize = label.unicode_len();
    while filled < width
        invariant
            label@.len() <= filled,
            filled <= width || filled == label@.len(),
            out@ == before + label@ + spaces((filled - label@.len()) as nat),
        decreases width - filled,
    {
        proof {
            reveal_strlit(" ");
        }
        out.append(" ");
        filled = filled + 1;
    }
}

/// Appends the line for `label` and `value` to `out`.
pub fn push_line(out: &mut String, label: &str, value: &str)
    ensures
        final(out)@ == old(out)@ + line(label@, value@),
{
    push_padded(out, label, LABEL_WIDTH);
    proof {
        reveal_strlit(" ");
        reveal_strlit("\n");
    }
    out.append(" ");
    out.append(value);
    out.append("\n");
}

/// Renders `rows`, each a label and its value, as a table.
pub fn render_table(rows: &Vec<(&str, &str)>) -> (out: String)
    ensures
        out@ == table(rows.deep_view()),
{
    let mut out = String::new();
    let mut done: usize = 0;
    while done < rows.len()
        invariant
            done <= rows.len(),
            out@ == table(rows.deep_view().take(done as int)),
        decreases rows.len() - done,
    {
        let (label, value) = rows[done];
        push_line(&mut out, label, value);
        proof {
            lemma_table_step(rows.deep_view(), done as int);
        }
        done = done + 1;
    }
    assert(rows.deep_view().take(rows.len() as int) == rows.deep_view());
    out
}

} // verus!
