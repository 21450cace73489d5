//! What holds of every session, whatever was typed.

use vstd::prelude::*;
use vstd::utf8::{encode_utf8_decode_utf8, encode_utf8_valid_utf8};
use crate::input::{after_key, Key, KeyPress};
use crate::model::{AppView, InsertOutcome};
use crate::text::{
    count_breaks, lemma_line_content_len, lemma_line_start, lemma_offset_within_line,
    lemma_position_on_line, lemma_skip_bounds, line_content_len, skip_left, skip_right,
};

verus! {

/// One edit: a character typed, or a backspace.
pub ghost enum Edit {
    Insert(char),
    Delete,
}

/// The session after one edit.
pub open spec fn apply_edit(v: AppView, edit: Edit) -> AppView {
    match edit {
        Edit::Insert(c) => v.insert_char(c),
        Edit::Delete => v.delete_char(),
    }
}

/// The session after the edits of `edits`, first to last.
pub open spec fn apply_edits(v: AppView, edits: Seq<Edit>) -> AppView
    decreases edits.len(),
{
    if edits.len() == 0 {
        v
    } else {
        apply_edit(apply_edits(v, edits.drop_last()), edits.last())
    }
}

/// Whether the cursor is an offset into the document.
pub open spec fn cursor_in_text(v: AppView) -> bool {
    0 <= v.cursor <= v.text.len()
}

/// A typed character that is taken goes in just left of the cursor: the
/// text left of the cursor grows by it, the text right of the cursor
/// stays. A character that is blocked changes neither text nor cursor.
pub proof fn lemma_insert_keeps_sides(v: AppView, c: char)
    requires
        cursor_in_text(v),
    ensures
        cursor_in_text(v.insert_char(c)),
        v.insert_outcome(c) == InsertOutcome::Blocked ==> v.insert_char(c).text == v.text
            && v.insert_char(c).cursor == v.cursor,
        v.insert_outcome(c) != InsertOutcome::Blocked ==> v.insert_char(c).text.take(
            v.insert_char(c).cursor,
        ) == v.text.take(v.cursor).push(c) && v.insert_char(c).text.skip(v.insert_char(c).cursor)
            == v.text.skip(v.cursor),
{
    let after = v.insert_char(c);
    if v.insert_outcome(c) != InsertOutcome::Blocked {
        assert(after.text == v.text.insert(v.cursor, c));
        assert(after.text.take(after.cursor) =~= v.text.take(v.cursor).push(c));
        assert(after.text.skip(after.cursor) =~= v.text.skip(v.cursor));
    }
}

/// A backspace takes the character just left of the cursor: the text left
/// of the cursor loses its last character, the text right of the cursor
/// stays. At the start of the document nothing changes.
pub proof fn lemma_delete_keeps_sides(v: AppView)
    requires
        cursor_in_text(v),
    ensures
        cursor_in_text(v.delete_char()),
        v.cursor == 0 ==> v.delete_char() == v,
        v.cursor > 0 ==> v.delete_char().text.take(v.delete_char().cursor) == v.text.take(
            v.cursor,
        ).drop_last() && v.delete_char().text.skip(v.delete_char().cursor) == v.text.skip(
            v.cursor,
        ),
{
    let after = v.delete_char();
    if v.cursor > 0 {
        assert(after.text == v.text.remove(v.cursor - 1));
        assert(after.text.take(after.cursor) =~= v.text.take(v.cursor).drop_last());
        assert(after.text.skip(after.cursor) =~= v.text.skip(v.cursor));
    }
}

/// Whatever is typed and deleted, in whatever order, the cursor stays an
/// offset into the document: between 0 and the document's length, with
/// exactly that many characters on its left.
pub proof fn lemma_edits_keep_cursor_in_text(v: AppView, edits: Seq<Edit>)
    requires
        cursor_in_text(v),
    ensures
        cursor_in_text(apply_edits(v, edits)),
        apply_edits(v, edits).text.take(apply_edits(v, edits).cursor).len() == apply_edits(
            v,
            edits,
        ).cursor,
    decreases edits.len(),
{
    if edits.len() > 0 {
        let before = apply_edits(v, edits.drop_last());
        lemma_edits_keep_cursor_in_text(v, edits.drop_last());
        match edits.last() {
            Edit::Insert(c) => lemma_insert_keeps_sides(before, c),
            Edit::Delete => lemma_delete_keeps_sides(before),
        }
    }
}

/// A step up lands on the row above, at the cursor's column or at the end
/// of that row's content where the row is shorter. On the first row the
/// cursor stays.
pub proof fn lemma_cursor_up_lands_above(v: AppView)
    requires
        cursor_in_text(v),
    ensures
        cursor_in_text(v.move_cursor_up()),
        v.row() == 0 ==> v.move_cursor_up() == v,
        v.row() > 0 ==> v.move_cursor_up().row() == v.row() - 1,
        v.row() > 0 ==> v.move_cursor_up().col() <= line_content_len(
            v.text,
            (v.row() - 1) as nat,
        ),
        v.row() > 0 ==> v.move_cursor_up().col() == v.col() || (v.move_cursor_up().col()
            == line_content_len(v.text, (v.row() - 1) as nat) && v.move_cursor_up().col()
            < v.col()),
{
    lemma_offset_within_line(v.text, v.cursor);
    if v.row() > 0 {
        let above = (v.row() - 1) as nat;
        lemma_line_start(v.text, above);
        let reach = line_content_len(v.text, above);
        lemma_line_content_len(v.text, above);
        let col = if v.col() < reach {
            v.col()
        } else {
            reach
        };
        lemma_position_on_line(v.text, above, col);
    }
}

/// A step down lands on the row below, at the cursor's column or at the
/// end of that row's content where the row is shorter. On the last row the
/// cursor stays.
pub proof fn lemma_cursor_down_lands_below(v: AppView)
    requires
        cursor_in_text(v),
    ensures
        cursor_in_text(v.move_cursor_down()),
        v.move_cursor_down().text == v.text,
        v.row() == count_breaks(v.text) ==> v.move_cursor_down().cursor == v.cursor,
        v.row() < count_breaks(v.text) ==> v.move_cursor_down().row() == v.row() + 1,
        v.row() < count_breaks(v.text) ==> v.move_cursor_down().col() == v.col() || (
        v.move_cursor_down().col() == line_content_len(v.text, v.row() + 1)
            && v.move_cursor_down().col() < v.col()),
{
    lemma_offset_within_line(v.text, v.cursor);
    if v.row() < count_breaks(v.text) {
        let below = v.row() + 1;
        let reach = line_content_len(v.text, below);
        lemma_line_content_len(v.text, below);
        let col = if v.col() < reach {
            v.col()
        } else {
            reach
        };
        lemma_position_on_line(v.text, below, col);
    }
}

/// The steps to the start and to the end of the line stay on the row: the
/// one lands at column 0, the other at the end of the row's content.
pub proof fn lemma_line_ends_stay_on_row(v: AppView)
    requires
        cursor_in_text(v),
    ensures
        cursor_in_text(v.move_to_line_start()),
        v.move_to_line_start().row() == v.row(),
        v.move_to_line_start().col() == 0,
        cursor_in_text(v.move_to_line_end()),
        v.move_to_line_end().row() == v.row(),
        v.move_to_line_end().col() == line_content_len(v.text, v.row()),
{
    lemma_offset_within_line(v.text, v.cursor);
    lemma_line_content_len(v.text, v.row());
    lemma_position_on_line(v.text, v.row(), 0);
    lemma_position_on_line(v.text, v.row(), line_content_len(v.text, v.row()));
}

/// The word-wise steps land within the document.
pub proof fn lemma_word_steps_stay_in_text(v: AppView)
    requires
        cursor_in_text(v),
    ensures
        cursor_in_text(v.move_word_left()),
        v.move_word_left().cursor <= v.cursor,
        cursor_in_text(v.move_word_right()),
        v.move_word_right().cursor >= v.cursor,
{
    lemma_skip_bounds(v.text, v.cursor, true);
    lemma_skip_bounds(v.text, skip_left(v.text, v.cursor, true), false);
    lemma_skip_bounds(v.text, v.cursor, false);
    lemma_skip_bounds(v.text, skip_right(v.text, v.cursor, false), true);
}

/// No key ever takes the cursor out of the document.
pub proof fn lemma_keys_keep_cursor_in_text(v: AppView, press: KeyPress)
    requires
        cursor_in_text(v),
    ensures
        cursor_in_text(after_key(v, press)),
{
    match press.key {
        Key::Char(c) => {
            lemma_insert_keeps_sides(v.clear_status(), c);
        },
        Key::Backspace => {
            lemma_delete_keeps_sides(v.clear_status());
        },
        Key::Left => {
            lemma_word_steps_stay_in_text(v);
        },
        Key::Right => {
            lemma_word_steps_stay_in_text(v);
        },
        Key::Up => {
            lemma_cursor_up_lands_above(v);
        },
        Key::Down => {
            lemma_cursor_down_lands_below(v);
        },
        Key::Home => {
            lemma_line_ends_stay_on_row(v);
        },
        Key::End => {
            lemma_line_ends_stay_on_row(v);
        },
        _ => {},
    }
}

/// A page feed is signalled once: right after the check no feed is due,
/// and a second check changes nothing.
pub proof fn lemma_page_feed_signals_once(v: AppView)
    ensures
        !v.check_and_play_page_feed().page_feed_due(),
        v.check_and_play_page_feed().check_and_play_page_feed() == v.check_and_play_page_feed(),
{
}

/// No feed is due while the cursor stays on a page that was signalled
/// before, wherever on that page it moves.
pub proof fn lemma_no_feed_on_a_known_page(v: AppView, w: AppView)
    requires
        w.last_page == v.check_and_play_page_feed().last_page,
        w.page() <= v.page(),
    ensures
        !w.page_feed_due(),
{
}

/// No key ever lowers the page mark.
pub proof fn lemma_page_mark_never_falls(v: AppView, press: KeyPress)
    ensures
        after_key(v, press).last_page >= v.last_page,
{
}

/// Loading what was saved gives back the document, character for
/// character, line terminators included.
pub proof fn lemma_save_load_round_trip(v: AppView, path: Seq<char>)
    ensures
        v.load_bytes(path, v.saved_bytes()) == Some(v.load(path, v.text)),
        v.load(path, v.text).text == v.text,
{
    encode_utf8_valid_utf8(v.text);
    encode_utf8_decode_utf8(v.text);
}

} // verus!
