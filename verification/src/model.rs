//! The session as a value: the document, the cursor and the switches, and
//! what every operation makes of them.
//!
//! The functions here say what the editor does; [`crate::app::App`] does
//! it on a rope and is proved to do the same.

use vstd::prelude::*;
use vstd::utf8::{decode_utf8, encode_utf8, valid_utf8};
use crate::config::Config;
use crate::sound::{enqueue, Sound, QUEUE_CAPACITY};
use crate::text::{
    column_of, count_breaks, line_content_len, line_len, line_of, line_start, word_left,
    word_right, LINE_FEED,
};
use crate::theme::{Theme, ThemeType};

verus! {

/// The file that an unnamed document is saved to.
pub const DEFAULT_FILE_NAME: &'static str = "output.md";

/// What became of a typed character.
#[derive(Clone, Copy, Debug, PartialEq, Eq)]
pub enum InsertOutcome {
    /// The character was inserted.
    Inserted,
    /// The character was inserted and its line has reached the bell column.
    MarginReached,
    /// The line was already at the bell column: nothing was inserted.
    Blocked,
}

/// What a session stands for: the value that [`crate::app::App`] shows as
/// its view.
pub ghost struct AppView {
    /// The document.
    pub text: Seq<char>,
    /// The cursor: an offset into the document.
    pub cursor: int,
    /// Whether the cursor's row is kept at the middle of the viewport.
    pub typewriter_mode: bool,
    /// Whether the lines without the cursor are dimmed.
    pub focus_mode: bool,
    /// Whether editing makes sounds.
    pub sound_enabled: bool,
    /// Whether a blank row follows every logical line.
    pub double_spacing: bool,
    /// Whether the audio queue keeps requests.
    pub audio_enabled: bool,
    /// The sound requests that wait for playback, oldest first.
    pub sounds: Seq<Sound>,
    /// Where the document is saved.
    pub file_path: Option<Seq<char>>,
    /// The name of the palette in use.
    pub theme_type: ThemeType,
    /// The palette in use.
    pub theme: Theme,
    /// The settings.
    pub config: Config,
    /// The highest page for which a page feed was signalled.
    pub last_page: int,
    /// Whether the document has changed since it was loaded or saved.
    pub unsaved: bool,
    /// The message shown to the user.
    pub status: Option<Seq<char>>,
}

impl AppView {
    /// The cursor is within the document, whose length is one that the
    /// machine can count; a page holds a line, the page mark is a page
    /// number, the palette goes by its name, and the audio queue is within
    /// its capacity.
    pub open spec fn inv(self) -> bool {
        &&& 0 <= self.cursor <= self.text.len() <= usize::MAX
        &&& self.config.valid()
        &&& self.last_page >= 1
        &&& self.theme == Theme::palette(self.theme_type)
        &&& self.sounds.len() <= QUEUE_CAPACITY
    }

    /// The cursor's row.
    pub open spec fn row(self) -> nat {
        line_of(self.text, self.cursor)
    }

    /// The cursor's column.
    pub open spec fn col(self) -> int {
        column_of(self.text, self.cursor)
    }

    /// The page of the cursor's row, counted from 1.
    pub open spec fn page(self) -> int {
        (self.row() as int) / (self.config.typewriter.lines_per_page as int) + 1
    }

    /// The session after a request for `sound`, which counts only while
    /// sound is switched on.
    pub open spec fn play(self, sound: Sound) -> AppView {
        if self.sound_enabled && self.audio_enabled {
            AppView { sounds: enqueue(self.sounds, sound), ..self }
        } else {
            self
        }
    }

    /// The session after `c` was put in at the cursor.
    pub open spec fn with_char(self, c: char) -> AppView {
        AppView {
            text: self.text.insert(self.cursor, c),
            cursor: self.cursor + 1,
            unsaved: true,
            ..self
        }
    }

    /// Whether the cursor's line is at or past the bell column.
    pub open spec fn at_margin(self) -> bool {
        line_len(self.text, self.row()) >= self.config.typewriter.bell_column
    }

    /// Whether the cursor's line is exactly as long as the bell column.
    pub open spec fn on_margin(self) -> bool {
        line_len(self.text, self.row()) == self.config.typewriter.bell_column
    }

    /// What becomes of `c` when it is typed.
    pub open spec fn insert_outcome(self, c: char) -> InsertOutcome {
        if self.at_margin() {
            InsertOutcome::Blocked
        } else if self.with_char(c).on_margin() {
            InsertOutcome::MarginReached
        } else {
            InsertOutcome::Inserted
        }
    }

    /// The session after `c` was typed. A line at the bell column takes no
    /// more characters and answers with the bell; otherwise the character
    /// goes in with the sound of its key, and the bell rings as well when
    /// the line has just reached the bell column.
    pub open spec fn insert_char(self, c: char) -> AppView {
        let key = if c == ' ' {
            Sound::Space
        } else {
            Sound::Key
        };
        match self.insert_outcome(c) {
            InsertOutcome::Blocked => self.play(Sound::Ding),
            InsertOutcome::MarginReached => self.with_char(c).play(key).play(Sound::Ding),
            InsertOutcome::Inserted => self.with_char(c).play(key),
        }
    }

    /// The session after a backspace: the character before the cursor is
    /// gone and the cursor has followed it; at the start nothing happens.
    pub open spec fn delete_char(self) -> AppView {
        if self.cursor > 0 {
            AppView {
                text: self.text.remove(self.cursor - 1),
                cursor: self.cursor - 1,
                unsaved: true,
                ..self
            }.play(Sound::Backspace)
        } else {
            self
        }
    }

    /// The session after a forward delete: the character at the cursor is
    /// gone and the cursor has stayed; at the end nothing happens.
    pub open spec fn delete_char_forward(self) -> AppView {
        if self.cursor < self.text.len() {
            AppView { text: self.text.remove(self.cursor), unsaved: true, ..self }.play(
                Sound::Backspace,
            )
        } else {
            self
        }
    }

    /// The session after the enter key: a line feed at the cursor, whatever
    /// the length of the line.
    pub open spec fn enter_key(self) -> AppView {
        self.with_char(LINE_FEED).play(Sound::Return)
    }

    /// The offset on `row` that is nearest to the cursor's column: the
    /// column itself where the row's content reaches it, else the end of
    /// the content.
    pub open spec fn row_target(self, row: nat) -> int {
        let reach = line_content_len(self.text, row);
        line_start(self.text, row) + if self.col() < reach {
            self.col()
        } else {
            reach
        }
    }

    /// The session with the cursor at `cursor`.
    pub open spec fn at(self, cursor: int) -> AppView {
        AppView { cursor, ..self }
    }

    /// The session after a step to the left; at the start nothing happens.
    pub open spec fn move_left(self) -> AppView {
        if self.cursor > 0 {
            self.at(self.cursor - 1)
        } else {
            self
        }
    }

    /// The session after a step to the right; at the end nothing happens.
    pub open spec fn move_right(self) -> AppView {
        if self.cursor < self.text.len() {
            self.at(self.cursor + 1)
        } else {
            self
        }
    }

    /// The session after a step to the row above; on the first row nothing
    /// happens.
    pub open spec fn move_cursor_up(self) -> AppView {
        if self.row() > 0 {
            self.at(self.row_target((self.row() - 1) as nat))
        } else {
            self
        }
    }

    /// Where a step to the row below puts the cursor; on the last row it
    /// stays.
    pub open spec fn stepped_down(self) -> AppView {
        if self.row() < count_breaks(self.text) {
            self.at(self.row_target(self.row() + 1))
        } else {
            self
        }
    }

    /// Whether a step to the row below leaves the cursor's page.
    pub open spec fn crosses_page_down(self) -> bool {
        self.stepped_down().page() > self.page()
    }

    /// The session after a step to the row below. A step onto the next
    /// page raises the page mark to that page, if it was lower.
    pub open spec fn move_cursor_down(self) -> AppView {
        let moved = self.stepped_down();
        if self.crosses_page_down() && moved.page() > self.last_page {
            AppView { last_page: moved.page(), ..moved }
        } else {
            moved
        }
    }

    /// The session with the cursor at the start of its line.
    pub open spec fn move_to_line_start(self) -> AppView {
        self.at(line_start(self.text, self.row()))
    }

    /// The session with the cursor at the end of its line, before the
    /// line's terminator.
    pub open spec fn move_to_line_end(self) -> AppView {
        self.at(line_start(self.text, self.row()) + line_content_len(self.text, self.row()))
    }

    /// The session after a word-wise step to the left.
    pub open spec fn move_word_left(self) -> AppView {
        self.at(word_left(self.text, self.cursor))
    }

    /// The session after a word-wise step to the right.
    pub open spec fn move_word_right(self) -> AppView {
        self.at(word_right(self.text, self.cursor))
    }

    /// Whether the cursor stands on a page past the page mark.
    pub open spec fn page_feed_due(self) -> bool {
        self.page() > self.last_page
    }

    /// The session after the page-feed check: where a feed is due, the
    /// page mark moves up to the cursor's page and the feed sound is
    /// requested.
    pub open spec fn check_and_play_page_feed(self) -> AppView {
        if self.page_feed_due() {
            AppView { last_page: self.page(), ..self }.play(Sound::Feed)
        } else {
            self
        }
    }

    /// The session after typewriter mode was switched over.
    pub open spec fn toggle_mode(self) -> AppView {
        AppView { typewriter_mode: !self.typewriter_mode, ..self }.play(Sound::Toggle)
    }

    /// The session after focus mode was switched over.
    pub open spec fn toggle_focus(self) -> AppView {
        AppView { focus_mode: !self.focus_mode, ..self }.play(Sound::Toggle)
    }

    /// The session after sound was switched over: switching it on is
    /// heard, switching it off is not.
    pub open spec fn toggle_sound(self) -> AppView {
        AppView { sound_enabled: !self.sound_enabled, ..self }.play(Sound::Toggle)
    }

    /// The session after double spacing was switched over.
    pub open spec fn toggle_double_spacing(self) -> AppView {
        AppView { double_spacing: !self.double_spacing, ..self }.play(Sound::Toggle)
    }

    /// The session after a step to the next palette.
    pub open spec fn cycle_theme(self) -> AppView {
        AppView {
            theme_type: self.theme_type.successor(),
            theme: Theme::palette(self.theme_type.successor()),
            ..self
        }.play(Sound::Toggle)
    }

    /// The session with `message` as its status.
    pub open spec fn set_error(self, message: Seq<char>) -> AppView {
        AppView { status: Some(message), ..self }
    }

    /// The session without a status.
    pub open spec fn clear_status(self) -> AppView {
        AppView { status: None, ..self }
    }

    /// The bytes that saving writes: the document in UTF-8.
    pub open spec fn saved_bytes(self) -> Seq<u8> {
        encode_utf8(self.text)
    }

    /// The name of the file that saving writes.
    pub open spec fn save_path(self) -> Seq<char> {
        match self.file_path {
            Some(path) => path,
            None => DEFAULT_FILE_NAME@,
        }
    }

    /// The session after a save went through.
    pub open spec fn mark_saved(self) -> AppView {
        AppView { unsaved: false, ..self }
    }

    /// The session after `text` was loaded as the document of `path`: the
    /// cursor is back at the start and nothing is unsaved.
    pub open spec fn load(self, path: Seq<char>, text: Seq<char>) -> AppView {
        AppView { text, cursor: 0, file_path: Some(path), unsaved: false, ..self }
    }

    /// The session after the bytes of the file `path` were loaded, if they
    /// are UTF-8.
    pub open spec fn load_bytes(self, path: Seq<char>, bytes: Seq<u8>) -> Option<AppView> {
        if valid_utf8(bytes) {
            Some(self.load(path, decode_utf8(bytes)))
        } else {
            None
        }
    }
}

} // verus!
