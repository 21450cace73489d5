//! The document store: `ropey::Rope`, and what this crate takes on trust
//! about it.
//!
//! Verus does not look inside a rope. The contracts below say, over the
//! character sequence that a rope holds, what ropey's documentation and
//! source say of each method that the editor calls. The crate builds ropey
//! without its optional line-break features, so a line ends at a line feed
//! and nowhere else.

use vstd::prelude::*;
use ropey::{Rope, RopeSlice};
use crate::text::{count_breaks, line_count, line_of, line_start, line_text};

verus! {

/// `ropey::Rope`: a text as a balanced tree of chunks. Opaque here.
#[verifier::external_type_specification]
#[verifier::external_body]
pub struct ExRope(Rope);

/// `ropey::RopeSlice`: a view into part of a rope. Opaque here.
#[verifier::external_type_specification]
#[verifier::external_body]
pub struct ExRopeSlice<'a>(RopeSlice<'a>);

/// The characters that `rope` holds, in order.
pub uninterp spec fn rope_chars(rope: Rope) -> Seq<char>;

/// The characters that `slice` shows, in order.
pub uninterp spec fn slice_chars(slice: RopeSlice) -> Seq<char>;

/// `Rope::new` makes an empty rope.
pub assume_specification[ Rope::new ]() -> (rope: Rope)
    ensures
        rope_chars(rope) == Seq::<char>::empty(),
;

/// `Rope::from_str` makes a rope that holds the characters of `text`.
pub assume_specification[ Rope::from_str ](text: &str) -> (rope: Rope)
    ensures
        rope_chars(rope) == text@,
;

/// `Rope::len_chars` counts the characters.
pub assume_specification[ Rope::len_chars ](rope: &Rope) -> (n: usize)
    ensures
        n == rope_chars(*rope).len(),
;

/// `Rope::len_lines` is the number of line breaks plus one.
pub assume_specification[ Rope::len_lines ](rope: &Rope) -> (n: usize)
    ensures
        n == line_count(rope_chars(*rope)),
;

/// `Rope::insert_char` puts `ch` in front of the character at `char_idx`,
/// or at the end. It panics on an index past the end.
pub assume_specification[ Rope::insert_char ](rope: &mut Rope, char_idx: usize, ch: char)
    requires
        char_idx <= rope_chars(*old(rope)).len(),
    ensures
        rope_chars(*final(rope)) == rope_chars(*old(rope)).insert(char_idx as int, ch),
;

/// `Rope::char_to_line` counts the line breaks before `char_idx`; the index
/// may be the one past the end. It panics on an index past that.
pub assume_specification[ Rope::char_to_line ](rope: &Rope, char_idx: usize) -> (row: usize)
    requires
        char_idx <= rope_chars(*rope).len(),
    ensures
        row == line_of(rope_chars(*rope), char_idx as int),
;

/// `Rope::line_to_char` is the index of the first character of line
/// `line_idx`, and the index past the end for the line past the last. It
/// panics on a greater line index.
pub assume_specification[ Rope::line_to_char ](rope: &Rope, line_idx: usize) -> (start: usize)
    requires
        line_idx <= line_count(rope_chars(*rope)),
    ensures
        start == line_start(rope_chars(*rope), line_idx as nat),
;

/// `Rope::char` is the character at `char_idx`. It panics on an index at or
/// past the end.
pub assume_specification[ Rope::char ](rope: &Rope, char_idx: usize) -> (ch: char)
    requires
        char_idx < rope_chars(*rope).len(),
    ensures
        ch == rope_chars(*rope)[char_idx as int],
;

/// `Rope::remove` on the range `start..end` takes out the characters from
/// `start` up to `end`. It panics when `start` is greater than `end` or
/// `end` is past the end.
#[verifier::external_body]
pub(crate) fn rope_remove(rope: &mut Rope, start: usize, end: usize)
    requires
        start <= end <= rope_chars(*old(rope)).len(),
    ensures
        rope_chars(*final(rope)) == rope_chars(*old(rope)).take(start as int) + rope_chars(
            *old(rope),
        ).skip(end as int),
{
    rope.remove(start..end)
}

/// `Rope::line` is the slice of line `line_idx`, with the line break that
/// ends it. It panics on an index that is no line of the rope.
pub assume_specification<'a>[ Rope::line ](rope: &'a Rope, line_idx: usize) -> (slice: RopeSlice<
    'a,
>)
    requires
        line_idx <= count_breaks(rope_chars(*rope)),
    ensures
        slice_chars(slice) == line_text(rope_chars(*rope), line_idx as nat),
;

/// `RopeSlice::len_chars` counts the characters of the slice.
pub assume_specification<'a>[ RopeSlice::<'a>::len_chars ](slice: &RopeSlice<'a>) -> (n: usize)
    ensures
        n == slice_chars(*slice).len(),
;

/// `String::from` copies a slice's characters into a string.
#[verifier::external_body]
pub(crate) fn slice_to_string(slice: RopeSlice) -> (text: String)
    ensures
        text@ == slice_chars(slice),
{
    String::from(slice)
}

/// `String::from` copies a rope's characters into a string.
#[verifier::external_body]
pub(crate) fn rope_to_string(rope: &Rope) -> (text: String)
    ensures
        text@ == rope_chars(*rope),
{
    String::from(rope)
}

} // verus!
