//! Lines, columns and words of a character sequence.
//!
//! A line feed ends a line and belongs to the line it ends; the position
//! after it starts the next line. A text therefore always has one line more
//! than it has line feeds, and its last line has no terminator.

use vstd::prelude::*;

verus! {

/// Whether `c` has the Unicode property `White_Space`, as
/// `char::is_whitespace` decides it.
pub uninterp spec fn whitespace(c: char) -> bool;

/// `char::is_whitespace` is a function of the character alone; its result
/// is the one that [`whitespace`] names.
pub assume_specification[ char::is_whitespace ](c: char) -> (b: bool)
    ensures
        b == whitespace(c),
;

/// The line terminator.
pub const LINE_FEED: char = '\n';

/// Number of line feeds in `s`.
pub open spec fn count_breaks(s: Seq<char>) -> nat
    decreases s.len(),
{
    if s.len() == 0 {
        0
    } else {
        count_breaks(s.drop_last()) + if s.last() == LINE_FEED {
            1nat
        } else {
            0nat
        }
    }
}

/// Number of lines of `s`.
pub open spec fn line_count(s: Seq<char>) -> nat {
    count_breaks(s) + 1
}

/// The line that offset `idx` lies on: the number of line feeds before it.
pub open spec fn line_of(s: Seq<char>, idx: int) -> nat {
    count_breaks(s.take(idx))
}

/// The position after the first line feed at or after `from`, or the end of
/// `s` when there is none.
pub open spec fn next_line_start(s: Seq<char>, from: int) -> int
    decreases s.len() - from,
{
    if from < 0 || from >= s.len() {
        s.len() as int
    } else if s[from] == LINE_FEED {
        from + 1
    } else {
        next_line_start(s, from + 1)
    }
}

/// The offset at which line `row` starts. Line 0 starts at 0, every other
/// line after the line feed that ends the line before it. A row past the
/// last line starts at the end of `s`.
pub open spec fn line_start(s: Seq<char>, row: nat) -> int
    decreases row,
{
    if row == 0 {
        0
    } else {
        next_line_start(s, line_start(s, (row - 1) as nat))
    }
}

/// Length of line `row`, its terminator included.
pub open spec fn line_len(s: Seq<char>, row: nat) -> int {
    line_start(s, row + 1) - line_start(s, row)
}

/// The characters of line `row`, its terminator included.
pub open spec fn line_text(s: Seq<char>, row: nat) -> Seq<char> {
    s.subrange(line_start(s, row), line_start(s, row + 1))
}

/// Length of line `row` without its terminator.
pub open spec fn line_content_len(s: Seq<char>, row: nat) -> int {
    let end = line_start(s, row + 1);
    if line_len(s, row) > 0 && s[end - 1] == LINE_FEED {
        line_len(s, row) - 1
    } else {
        line_len(s, row)
    }
}

/// The column of offset `idx`: its distance from the start of its line.
pub open spec fn column_of(s: Seq<char>, idx: int) -> int {
    idx - line_start(s, line_of(s, idx))
}

/// Whether a word starts at `i`: a character that is no whitespace, at the
/// start of `s` or after whitespace.
pub open spec fn is_word_start(s: Seq<char>, i: int) -> bool {
    &&& 0 <= i < s.len()
    &&& !whitespace(s[i])
    &&& (i == 0 || whitespace(s[i - 1]))
}

/// Number of words in `s`: the maximal runs of characters that are no
/// whitespace, counted by where they start.
pub open spec fn word_count(s: Seq<char>) -> nat
    decreases s.len(),
{
    if s.len() == 0 {
        0
    } else {
        word_count(s.drop_last()) + if is_word_start(s, s.len() - 1) {
            1nat
        } else {
            0nat
        }
    }
}

/// Walks left from `i` over the characters whose whitespace property is
/// `space`, and says where the walk ends.
pub open spec fn skip_left(s: Seq<char>, i: int, space: bool) -> int
    decreases i,
{
    if 0 < i <= s.len() && whitespace(s[i - 1]) == space {
        skip_left(s, i - 1, space)
    } else {
        i
    }
}

/// Walks right from `i` over the characters whose whitespace property is
/// `space`, and says where the walk ends.
pub open spec fn skip_right(s: Seq<char>, i: int, space: bool) -> int
    decreases s.len() - i,
{
    if 0 <= i < s.len() && whitespace(s[i]) == space {
        skip_right(s, i + 1, space)
    } else {
        i
    }
}

/// Where a word-wise step to the left from `i` lands: past the whitespace
/// left of `i`, then at the start of the word left of that.
pub open spec fn word_left(s: Seq<char>, i: int) -> int {
    skip_left(s, skip_left(s, i, true), false)
}

/// Where a word-wise step to the right from `i` lands: past the rest of the
/// word at `i`, then past the whitespace that follows it.
pub open spec fn word_right(s: Seq<char>, i: int) -> int {
    skip_right(s, skip_right(s, i, false), true)
}

/// One more character adds one line feed to the count exactly if it is one.
pub proof fn lemma_count_breaks_step(s: Seq<char>, i: int)
    requires
        0 <= i < s.len(),
    ensures
        count_breaks(s.take(i + 1)) == count_breaks(s.take(i)) + if s[i] == LINE_FEED {
            1nat
        } else {
            0nat
        },
{
    assert(s.take(i + 1).drop_last() =~= s.take(i));
}

/// A longer prefix holds at least as many line feeds, and none holds more
/// than the whole.
pub proof fn lemma_count_breaks_monotone(s: Seq<char>, i: int, j: int)
    requires
        0 <= i <= j <= s.len(),
    ensures
        count_breaks(s.take(i)) <= count_breaks(s.take(j)),
        count_breaks(s.take(j)) <= count_breaks(s),
        count_breaks(s.take(j)) <= j,
    decreases s.len() - i,
{
    assert(s.take(s.len() as int) =~= s);
    if j < s.len() {
        lemma_count_breaks_monotone(s, j + 1, s.len() as int);
        lemma_count_breaks_step(s, j);
    }
    if i < j {
        lemma_count_breaks_monotone(s, i + 1, j);
        lemma_count_breaks_step(s, i);
    }
    lemma_count_breaks_bound(s.take(j));
}

/// A text holds no more line feeds than characters.
pub proof fn lemma_count_breaks_bound(s: Seq<char>)
    ensures
        count_breaks(s) <= s.len(),
    decreases s.len(),
{
    if s.len() > 0 {
        lemma_count_breaks_bound(s.drop_last());
    }
}

/// Two prefixes with the same count have no line feed between their ends.
pub proof fn lemma_no_break_between(s: Seq<char>, i: int, j: int, k: int)
    requires
        0 <= i <= k < j <= s.len(),
        count_breaks(s.take(i)) == count_breaks(s.take(j)),
    ensures
        s[k] != LINE_FEED,
{
    lemma_count_breaks_monotone(s, i, k);
    lemma_count_breaks_monotone(s, k + 1, j);
    lemma_count_breaks_step(s, k);
}

/// What [`next_line_start`] finds: it moves forward, stays within the
/// text, passes no line feed but the one it stops behind, and stops short
/// of the end only behind a line feed.
pub proof fn lemma_next_line_start(s: Seq<char>, from: int)
    requires
        0 <= from <= s.len(),
    ensures
        from <= next_line_start(s, from) <= s.len(),
        from < s.len() ==> from < next_line_start(s, from),
        forall|k: int| from <= k < next_line_start(s, from) - 1 ==> s[k] != LINE_FEED,
        next_line_start(s, from) < s.len() ==> s[next_line_start(s, from) - 1] == LINE_FEED,
        count_breaks(s.take(next_line_start(s, from))) == count_breaks(s.take(from)) + if from
            < next_line_start(s, from) && s[next_line_start(s, from) - 1] == LINE_FEED {
            1nat
        } else {
            0nat
        },
    decreases s.len() - from,
{
    if from < s.len() {
        lemma_count_breaks_step(s, from);
        if s[from] != LINE_FEED {
            lemma_next_line_start(s, from + 1);
        }
    }
}

/// What [`line_start`] is: for a row of the text, the one offset that has
/// `row` line feeds before it and stands at the start of the text or behind
/// a line feed; for a row past the last line, the end of the text.
pub proof fn lemma_line_start(s: Seq<char>, row: nat)
    ensures
        0 <= line_start(s, row) <= s.len(),
        line_start(s, row) <= line_start(s, row + 1),
        row <= count_breaks(s) ==> line_of(s, line_start(s, row)) == row,
        0 < row <= count_breaks(s) ==> s[line_start(s, row) - 1] == LINE_FEED,
        row > count_breaks(s) ==> line_start(s, row) == s.len(),
    decreases row,
{
    assert(s.take(0) =~= Seq::<char>::empty());
    assert(s.take(s.len() as int) =~= s);
    if row > 0 {
        let prev = (row - 1) as nat;
        lemma_line_start(s, prev);
        let from = line_start(s, prev);
        lemma_next_line_start(s, from);
        lemma_count_breaks_monotone(s, from, next_line_start(s, from));
    }
    lemma_next_line_start(s, line_start(s, row));
}

/// An offset lies on its own line: at or after the line's start, and at or
/// before the end of the line's content.
pub proof fn lemma_offset_within_line(s: Seq<char>, idx: int)
    requires
        0 <= idx <= s.len(),
    ensures
        line_of(s, idx) <= count_breaks(s),
        line_start(s, line_of(s, idx)) <= idx,
        idx <= line_start(s, line_of(s, idx)) + line_content_len(s, line_of(s, idx)),
        0 <= column_of(s, idx) <= line_content_len(s, line_of(s, idx)),
{
    let row = line_of(s, idx);
    lemma_count_breaks_monotone(s, idx, idx);
    lemma_line_start(s, row);
    let start = line_start(s, row);
    if start > idx {
        lemma_count_breaks_step(s, start - 1);
        lemma_count_breaks_monotone(s, idx, start - 1);
    }
    lemma_next_line_start(s, start);
    let end = line_start(s, row + 1);
    assert(end == next_line_start(s, start));
    if start < end && s[end - 1] == LINE_FEED && end - 1 < idx {
        lemma_no_break_between(s, start, idx, end - 1);
    }
}

/// The content of a line is no longer than the line, and not negative.
pub proof fn lemma_line_content_len(s: Seq<char>, row: nat)
    ensures
        0 <= line_content_len(s, row) <= line_len(s, row),
        line_start(s, row) + line_content_len(s, row) <= s.len(),
{
    lemma_line_start(s, row);
    lemma_line_start(s, row + 1);
}

/// A stretch without a line feed adds nothing to the count.
pub proof fn lemma_count_breaks_flat(s: Seq<char>, i: int, j: int)
    requires
        0 <= i <= j <= s.len(),
        forall|k: int| i <= k < j ==> s[k] != LINE_FEED,
    ensures
        count_breaks(s.take(j)) == count_breaks(s.take(i)),
    decreases j - i,
{
    if i < j {
        lemma_count_breaks_flat(s, i, j - 1);
        lemma_count_breaks_step(s, j - 1);
    }
}

/// Every offset from the start of a line to the end of its content lies on
/// that line, at the column that is its distance from the start.
pub proof fn lemma_position_on_line(s: Seq<char>, row: nat, col: int)
    requires
        row <= count_breaks(s),
        0 <= col <= line_content_len(s, row),
    ensures
        0 <= line_start(s, row) + col <= s.len(),
        line_of(s, line_start(s, row) + col) == row,
        column_of(s, line_start(s, row) + col) == col,
{
    let start = line_start(s, row);
    lemma_line_start(s, row);
    lemma_line_start(s, row + 1);
    lemma_next_line_start(s, start);
    lemma_count_breaks_flat(s, start, start + col);
}

/// The walks of [`skip_left`] and [`skip_right`] stay within the text.
pub proof fn lemma_skip_bounds(s: Seq<char>, i: int, space: bool)
    requires
        0 <= i <= s.len(),
    ensures
        0 <= skip_left(s, i, space) <= i,
        i <= skip_right(s, i, space) <= s.len(),
{
    lemma_skip_left_bounds(s, i, space);
    lemma_skip_right_bounds(s, i, space);
}

proof fn lemma_skip_left_bounds(s: Seq<char>, i: int, space: bool)
    requires
        0 <= i <= s.len(),
    ensures
        0 <= skip_left(s, i, space) <= i,
    decreases i,
{
    if 0 < i && whitespace(s[i - 1]) == space {
        lemma_skip_left_bounds(s, i - 1, space);
    }
}

proof fn lemma_skip_right_bounds(s: Seq<char>, i: int, space: bool)
    requires
        0 <= i <= s.len(),
    ensures
        i <= skip_right(s, i, space) <= s.len(),
    decreases s.len() - i,
{
    if i < s.len() && whitespace(s[i]) == space {
        lemma_skip_right_bounds(s, i + 1, space);
    }
}

/// One more character adds one word to the count exactly if a word starts
/// with it.
pub proof fn lemma_word_count_step(s: Seq<char>, i: int)
    requires
        0 <= i < s.len(),
    ensures
        word_count(s.take(i + 1)) == word_count(s.take(i)) + if is_word_start(s, i) {
            1nat
        } else {
            0nat
        },
        word_count(s.take(i + 1)) <= i + 1,
{
    let t = s.take(i + 1);
    assert(t.drop_last() =~= s.take(i));
    assert(is_word_start(t, i) == is_word_start(s, i));
    lemma_word_count_bound(t);
}

/// A text holds no more words than characters.
pub proof fn lemma_word_count_bound(s: Seq<char>)
    ensures
        word_count(s) <= s.len(),
    decreases s.len(),
{
    if s.len() > 0 {
        lemma_word_count_bound(s.drop_last());
    }
}

/// Appends the characters of `s` to `out`.
pub fn push_str(out: &mut Vec<char>, s: &str)
    ensures
        final(out)@ == old(out)@ + s@,
{
    for c in it: s.chars()
        invariant
            it.seq() == s@,
            out@ == old(out)@ + it.seq().take(it.index() as int),
    {
        out.push(c);
    }
    assert(s@.take(s@.len() as int) =~= s@);
}

/// Copies the characters of `s` into a vector.
pub fn str_chars(s: &str) -> (v: Vec<char>)
    ensures
        v@ == s@,
{
    let mut v: Vec<char> = Vec::new();
    push_str(&mut v, s);
    assert(Seq::<char>::empty() + s@ =~= s@);
    v
}

} // verus!
