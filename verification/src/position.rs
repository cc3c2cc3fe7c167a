//! Resolves a character offset in a source text to a 1-based line or column
//! number. Both resolvers are pure functions over the raw text; any offset in
//! `[0, len]` is meaningful, and offsets beyond the text are a precondition
//! violation of the caller.

use vstd::prelude::*;

verus! {

/// How many newline characters `s` holds.
pub open spec fn count_newlines(s: Seq<char>) -> nat
    decreases s.len(),
{
    if s.len() == 0 {
        0
    } else {
        count_newlines(s.drop_last()) + if s.last() == '\n' {
            1nat
        } else {
            0nat
        }
    }
}

/// The 1-based line number of offset `o` in `s`: one more than the number of
/// newline characters strictly before `o`.
pub open spec fn line_of(s: Seq<char>, o: int) -> int {
    1 + count_newlines(s.subrange(0, o)) as int
}

/// The 1-based column of offset `o` in `s`: one more than the number of
/// characters strictly between the previous newline (or the start of the
/// text) and `o`.
pub open spec fn column_of(s: Seq<char>, o: int) -> int
    decreases o,
{
    if o <= 0 {
        1
    } else if s[o - 1] == '\n' {
        1
    } else {
        1 + column_of(s, o - 1)
    }
}

/// A line number is always at least 1, and is exactly one more than the
/// count of newline characters in the text before the offset.
pub proof fn lemma_line_number(s: Seq<char>, o: int)
    requires
        0 <= o <= s.len(),
    ensures
        line_of(s, o) == 1 + count_newlines(s.subrange(0, o)),
        line_of(s, o) >= 1,
{
}

/// The column is 1 exactly at the start of a line: at offset 0, or at an
/// offset that stands immediately after a newline character.
pub proof fn lemma_column_at_line_start(s: Seq<char>, o: int)
    requires
        0 <= o <= s.len(),
        o == 0 || s[o - 1] == '\n',
    ensures
        column_of(s, o) == 1,
{
}

/// Counts line ends: scans forward from the start of `text`, counting the
/// newline characters strictly before `pos`, with the count starting at 1.
/// Characters at or after `pos` are never examined.
///
/// The text must leave room for a counter one past an offset, hence the bound
/// on its length.
pub fn to_line_number(text: &str, pos: usize) -> (line: usize)
    requires
        pos <= text@.len(),
        text@.len() < usize::MAX,
    ensures
        line == line_of(text@, pos as int),
        line >= 1,
{
    let mut line_num: usize = 1;
    let mut i: usize = 0;
    while i < pos
        invariant
            i <= pos <= text@.len() < usize::MAX,
            line_num == line_of(text@, i as int),
            line_num <= 1 + i,
        decreases pos - i,
    {
        let c = text.get_char(i);
        proof {
            assert(text@.subrange(0, i + 1).drop_last() =~= text@.subrange(0, i as int));
            assert(text@.subrange(0, i + 1).last() == text@[i as int]);
        }
        if c == '\n' {
            line_num = line_num + 1;
        }
        i = i + 1;
    }
    line_num
}

/// Scans backward from `pos` toward the start of `text`, incrementing a
/// counter initialized to 1 for every character encountered before hitting a
/// newline; the counter's final value is the column.
pub fn to_col_number(text: &str, pos: usize) -> (col: usize)
    requires
        pos <= text@.len(),
        text@.len() < usize::MAX,
    ensures
        col == column_of(text@, pos as int),
        col >= 1,
{
    let mut col_num: usize = 1;
    let mut i: usize = pos;
    loop
        invariant_except_break
            i <= pos <= text@.len() < usize::MAX,
            col_num == 1 + pos - i,
            column_of(text@, pos as int) == col_num + column_of(text@, i as int) - 1,
        ensures
            col_num == column_of(text@, pos as int),
            col_num >= 1,
        decreases i,
    {
        if i == 0 {
            break;
        }
        let c = text.get_char(i - 1);
        if c == '\n' {
            break;
        }
        col_num = col_num + 1;
        i = i - 1;
    }
    col_num
}

} // verus!
