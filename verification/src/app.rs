//! The session: one document, one cursor, and the switches of the editor.

use vstd::prelude::*;
use ropey::Rope;
use crate::config::Config;
pub use crate::model::{AppView, InsertOutcome, DEFAULT_FILE_NAME};
use crate::rope::{rope_chars, rope_remove, rope_to_string, slice_to_string};
use crate::sound::{AudioEngine, Sound};
use crate::text::{
    count_breaks, lemma_line_start, lemma_offset_within_line, lemma_word_count_bound,
    lemma_word_count_step, line_content_len, line_count, line_len, line_start, line_text,
    skip_left, skip_right, whitespace, word_count, LINE_FEED,
};
use crate::theme::{Theme, ThemeType};
use vstd::string::{StrSliceExecFns, StringSliceAdditionalSpecFns};
use vstd::utf8::{encode_utf8_decode_utf8, valid_utf8};

verus! {

/// Why a file could not be loaded.
#[derive(Clone, Copy, Debug, PartialEq, Eq)]
pub enum LoadError {
    /// The file does not hold UTF-8 text.
    InvalidUtf8,
}

/// `core::str::Utf8Error`: why bytes are no UTF-8. Opaque here.
#[verifier::external_type_specification]
#[verifier::external_body]
pub struct ExUtf8Error(core::str::Utf8Error);

/// `core::str::from_utf8` checks that the bytes are UTF-8 and, if they are,
/// hands them back as a string slice.
pub assume_specification<'a>[ core::str::from_utf8 ](v: &'a [u8]) -> (r: Result<
    &'a str,
    core::str::Utf8Error,
>)
    ensures
        r is Ok <==> valid_utf8(v@),
        r matches Ok(s) ==> s.spec_bytes() == v@,
;

/// The switches that a session starts with.
#[derive(Clone, Debug, PartialEq, Eq)]
pub struct Preferences {
    pub typewriter_mode: bool,
    pub focus_mode: bool,
    pub sound_enabled: bool,
    pub double_spacing: bool,
    /// The palette, by its selector word.
    pub theme: String,
}

/// Word and character counts that are kept until the text changes.
struct CachedCounts {
    words: Option<usize>,
    chars: Option<usize>,
}

/// One editing session.
pub struct App {
    content: Rope,
    cursor_idx: usize,
    typewriter_mode: bool,
    focus_mode: bool,
    sound_enabled: bool,
    double_spacing: bool,
    audio: AudioEngine,
    file_path: Option<String>,
    current_theme_type: ThemeType,
    theme: Theme,
    config: Config,
    last_page_number: usize,
    unsaved_changes: bool,
    status_message: Option<String>,
    counts: CachedCounts,
}

impl View for App {
    type V = AppView;

    closed spec fn view(&self) -> AppView {
        AppView {
            text: rope_chars(self.content),
            cursor: self.cursor_idx as int,
            typewriter_mode: self.typewriter_mode,
            focus_mode: self.focus_mode,
            sound_enabled: self.sound_enabled,
            double_spacing: self.double_spacing,
            audio_enabled: self.audio.enabled(),
            sounds: self.audio.pending(),
            file_path: match self.file_path {
                Some(path) => Some(path@),
                None => None,
            },
            theme_type: self.current_theme_type,
            theme: self.theme,
            config: self.config,
            last_page: self.last_page_number as int,
            unsaved: self.unsaved_changes,
            status: match self.status_message {
                Some(message) => Some(message@),
                None => None,
            },
        }
    }
}

impl App {
    /// The kept counts, where there are any, are those of the document.
    pub closed spec fn counts_fresh(&self) -> bool {
        &&& self.counts.words matches Some(n) ==> n == word_count(rope_chars(self.content))
        &&& self.counts.chars matches Some(n) ==> n == rope_chars(self.content).len()
    }

    /// The session is in order.
    pub open spec fn wf(&self) -> bool {
        &&& self@.inv()
        &&& self.counts_fresh()
    }

    /// Requests `sound` if sound is switched on.
    pub fn trigger(&mut self, sound: Sound)
        requires
            old(self).wf(),
        ensures
            final(self).wf(),
            final(self)@ == old(self)@.play(sound),
    {
        if self.sound_enabled {
            proof {
                self.audio.lemma_wf();
            }
            self.audio.trigger(sound);
            proof {
                self.audio.lemma_wf();
            }
        }
    }

    /// Forgets the kept counts.
    fn invalidate_counts(&mut self)
        ensures
            final(self)@ == old(self)@,
            final(self).content == old(self).content,
            final(self).counts.words is None,
            final(self).counts.chars is None,
    {
        self.counts = CachedCounts { words: None, chars: None };
    }

    /// A session on an empty, unnamed document, with the default settings,
    /// the dark palette and sound switched on. The start-up sound is
    /// requested.
    pub fn new() -> (app: Self)
        ensures
            app.wf(),
            app@ == App::initial(),
    {
        let mut app = App {
            content: Rope::new(),
            cursor_idx: 0,
            typewriter_mode: false,
            focus_mode: false,
            sound_enabled: true,
            double_spacing: false,
            audio: AudioEngine::new(true),
            file_path: None,
            current_theme_type: ThemeType::Dark,
            theme: Theme::dark(),
            config: Config::new(),
            last_page_number: 1,
            unsaved_changes: false,
            status_message: None,
            counts: CachedCounts { words: None, chars: None },
        };
        app.trigger(Sound::Startup);
        assert(app@.sounds =~= seq![Sound::Startup]);
        app
    }

    /// A session on an empty, unnamed document, with the switches of
    /// `preferences` and the settings of `config`. The start-up sound is
    /// requested if sound is switched on.
    pub fn with_preferences(preferences: &Preferences, config: Config) -> (app: Self)
        requires
            config.valid(),
        ensures
            app.wf(),
            app@ == App::started(*preferences, config),
    {
        let kind = ThemeType::from_selector(preferences.theme.as_str());
        let mut app = App {
            content: Rope::new(),
            cursor_idx: 0,
            typewriter_mode: preferences.typewriter_mode,
            focus_mode: preferences.focus_mode,
            sound_enabled: preferences.sound_enabled,
            double_spacing: preferences.double_spacing,
            audio: AudioEngine::new(true),
            file_path: None,
            current_theme_type: kind,
            theme: Theme::for_type(kind),
            config,
            last_page_number: 1,
            unsaved_changes: false,
            status_message: None,
            counts: CachedCounts { words: None, chars: None },
        };
        app.trigger(Sound::Startup);
        app
    }

    /// The session that [`App::with_preferences`] makes.
    pub open spec fn started(preferences: Preferences, config: Config) -> AppView {
        AppView {
            text: Seq::empty(),
            cursor: 0,
            typewriter_mode: preferences.typewriter_mode,
            focus_mode: preferences.focus_mode,
            sound_enabled: preferences.sound_enabled,
            double_spacing: preferences.double_spacing,
            audio_enabled: true,
            sounds: Seq::empty(),
            file_path: None,
            theme_type: ThemeType::named(preferences.theme@),
            theme: Theme::palette(ThemeType::named(preferences.theme@)),
            config,
            last_page: 1,
            unsaved: false,
            status: None,
        }.play(Sound::Startup)
    }

    /// The session that [`App::new`] makes.
    pub open spec fn initial() -> AppView {
        AppView {
            text: Seq::empty(),
            cursor: 0,
            typewriter_mode: false,
            focus_mode: false,
            sound_enabled: true,
            double_spacing: false,
            audio_enabled: true,
            sounds: seq![Sound::Startup],
            file_path: None,
            theme_type: ThemeType::Dark,
            theme: Theme::palette(ThemeType::Dark),
            config: Config::defaults(),
            last_page: 1,
            unsaved: false,
            status: None,
        }
    }

    /// The cursor as column and row.
    pub fn get_cursor_position(&self) -> (pos: (usize, usize))
        requires
            self.wf(),
        ensures
            pos.0 == self@.col(),
            pos.1 == self@.row(),
            pos.1 <= count_breaks(self@.text),
    {
        proof {
            lemma_offset_within_line(self@.text, self@.cursor);
        }
        let row = self.content.char_to_line(self.cursor_idx);
        let row_start_idx = self.content.line_to_char(row);
        let col = self.cursor_idx - row_start_idx;
        (col, row)
    }

    /// Length of line `row`, its terminator included.
    fn line_len(&self, row: usize) -> (n: usize)
        requires
            row <= count_breaks(self@.text),
        ensures
            n == line_len(self@.text, row as nat),
    {
        proof {
            lemma_line_start(self@.text, row as nat);
            lemma_line_start(self@.text, (row + 1) as nat);
        }
        self.content.line(row).len_chars()
    }

    /// Puts `c` in at the cursor and moves the cursor behind it.
    fn put_char(&mut self, c: char)
        requires
            old(self).wf(),
        ensures
            final(self).wf(),
            final(self)@ == old(self)@.with_char(c),
    {
        self.invalidate_counts();
        self.content.insert_char(self.cursor_idx, c);
        let len = self.content.len_chars();
        assert(self.cursor_idx < len);
        self.cursor_idx = self.cursor_idx + 1;
        self.unsaved_changes = true;
    }

    /// Types `c` at the cursor, unless the cursor's line has reached the
    /// bell column.
    pub fn insert_char(&mut self, c: char) -> (outcome: InsertOutcome)
        requires
            old(self).wf(),
        ensures
            final(self).wf(),
            outcome == old(self)@.insert_outcome(c),
            final(self)@ == old(self)@.insert_char(c),
    {
        let (_col, row) = self.get_cursor_position();
        let line_len = self.line_len(row);
        if line_len >= self.config.typewriter.bell_column {
            self.trigger(Sound::Ding);
            return InsertOutcome::Blocked;
        }
        self.put_char(c);
        if c == ' ' {
            self.trigger(Sound::Space);
        } else {
            self.trigger(Sound::Key);
        }
        let (_col, row) = self.get_cursor_position();
        let line_len = self.line_len(row);
        if line_len == self.config.typewriter.bell_column {
            self.trigger(Sound::Ding);
            InsertOutcome::MarginReached
        } else {
            InsertOutcome::Inserted
        }
    }

    /// Deletes the character before the cursor.
    pub fn delete_char(&mut self)
        requires
            old(self).wf(),
        ensures
            final(self).wf(),
            final(self)@ == old(self)@.delete_char(),
    {
        if self.cursor_idx > 0 {
            self.invalidate_counts();
            let ghost before = self@.text;
            self.cursor_idx = self.cursor_idx - 1;
            rope_remove(&mut self.content, self.cursor_idx, self.cursor_idx + 1);
            assert(self@.text =~= before.remove(self@.cursor));
            self.unsaved_changes = true;
            self.trigger(Sound::Backspace);
        }
    }

    /// Deletes the character at the cursor.
    pub fn delete_char_forward(&mut self)
        requires
            old(self).wf(),
        ensures
            final(self).wf(),
            final(self)@ == old(self)@.delete_char_forward(),
    {
        if self.cursor_idx < self.content.len_chars() {
            self.invalidate_counts();
            let ghost before = self@.text;
            rope_remove(&mut self.content, self.cursor_idx, self.cursor_idx + 1);
            assert(self@.text =~= before.remove(self@.cursor));
            self.unsaved_changes = true;
            self.trigger(Sound::Backspace);
        }
    }

    /// Breaks the line at the cursor.
    pub fn enter_key(&mut self)
        requires
            old(self).wf(),
        ensures
            final(self).wf(),
            final(self)@ == old(self)@.enter_key(),
    {
        self.put_char(LINE_FEED);
        self.trigger(Sound::Return);
    }
}

impl App {
    /// Number of characters in the document.
    pub fn get_char_count(&mut self) -> (n: usize)
        requires
            old(self).wf(),
        ensures
            final(self).wf(),
            final(self)@ == old(self)@,
            n == old(self)@.text.len(),
    {
        match self.counts.chars {
            Some(n) => n,
            None => {
                let n = self.content.len_chars();
                self.counts.chars = Some(n);
                n
            },
        }
    }

    /// Number of words in the document.
    pub fn get_word_count(&mut self) -> (n: usize)
        requires
            old(self).wf(),
        ensures
            final(self).wf(),
            final(self)@ == old(self)@,
            n == word_count(old(self)@.text),
    {
        match self.counts.words {
            Some(n) => n,
            None => {
                let text = rope_to_string(&self.content);
                let n = count_words(text.as_str());
                self.counts.words = Some(n);
                n
            },
        }
    }

    /// The page of the cursor's row, counted from 1.
    pub fn get_current_page(&self) -> (page: usize)
        requires
            self.wf(),
        ensures
            page == self@.page(),
            page >= 1,
    {
        let (_col, row) = self.get_cursor_position();
        let lines = self.content.len_lines();
        assert(row < lines);
        row / self.config.typewriter.lines_per_page + 1
    }

    /// Says whether the cursor has reached a page past the page mark, and
    /// if so moves the mark up and requests the feed sound.
    pub fn check_and_play_page_feed(&mut self) -> (crossed: bool)
        requires
            old(self).wf(),
        ensures
            final(self).wf(),
            crossed == old(self)@.page_feed_due(),
            final(self)@ == old(self)@.check_and_play_page_feed(),
    {
        let page = self.get_current_page();
        if page > self.last_page_number {
            self.last_page_number = page;
            self.trigger(Sound::Feed);
            true
        } else {
            false
        }
    }

    /// Length of line `row` without its terminator.
    fn content_len(&self, row: usize) -> (n: usize)
        requires
            self.wf(),
            row <= count_breaks(self@.text),
        ensures
            n == line_content_len(self@.text, row as nat),
            line_start(self@.text, row as nat) + n <= self@.text.len(),
    {
        proof {
            lemma_line_start(self@.text, row as nat);
            lemma_line_start(self@.text, (row + 1) as nat);
        }
        let start = self.content.line_to_char(row);
        let len = self.line_len(row);
        if len > 0 {
            let last_char = self.content.char(start + len - 1);
            if last_char == LINE_FEED {
                len - 1
            } else {
                len
            }
        } else {
            0
        }
    }

    /// The offset on `row` that is nearest to column `col`.
    fn target_on_row(&self, row: usize, col: usize) -> (target: usize)
        requires
            self.wf(),
            row <= count_breaks(self@.text),
            col == self@.col(),
        ensures
            target == self@.row_target(row as nat),
            target <= self@.text.len(),
    {
        proof {
            lemma_line_start(self@.text, row as nat);
        }
        let start = self.content.line_to_char(row);
        let reach = self.content_len(row);
        let new_col = if col < reach {
            col
        } else {
            reach
        };
        start + new_col
    }

    /// Moves the cursor one character to the left.
    pub fn move_left(&mut self)
        requires
            old(self).wf(),
        ensures
            final(self).wf(),
            final(self)@ == old(self)@.move_left(),
    {
        if self.cursor_idx > 0 {
            self.cursor_idx = self.cursor_idx - 1;
        }
    }

    /// Moves the cursor one character to the right.
    pub fn move_right(&mut self)
        requires
            old(self).wf(),
        ensures
            final(self).wf(),
            final(self)@ == old(self)@.move_right(),
    {
        if self.cursor_idx < self.content.len_chars() {
            self.cursor_idx = self.cursor_idx + 1;
        }
    }

    /// Moves the cursor to the row above, keeping its column where the row
    /// is long enough.
    pub fn move_cursor_up(&mut self)
        requires
            old(self).wf(),
        ensures
            final(self).wf(),
            final(self)@ == old(self)@.move_cursor_up(),
    {
        let (col, row) = self.get_cursor_position();
        if row > 0 {
            self.cursor_idx = self.target_on_row(row - 1, col);
        }
    }

    /// Moves the cursor to the row below, keeping its column where the row
    /// is long enough, and says whether that step left the page.
    pub fn move_cursor_down(&mut self) -> (crossed: bool)
        requires
            old(self).wf(),
        ensures
            final(self).wf(),
            crossed == old(self)@.crosses_page_down(),
            final(self)@ == old(self)@.move_cursor_down(),
    {
        let (col, row) = self.get_cursor_position();
        let old_page = self.get_current_page();
        if row < self.content.len_lines() - 1 {
            self.cursor_idx = self.target_on_row(row + 1, col);
        }
        let new_page = self.get_current_page();
        if new_page > old_page {
            if new_page > self.last_page_number {
                self.last_page_number = new_page;
            }
            true
        } else {
            false
        }
    }

    /// Moves the cursor to the start of its line.
    pub fn move_to_line_start(&mut self)
        requires
            old(self).wf(),
        ensures
            final(self).wf(),
            final(self)@ == old(self)@.move_to_line_start(),
    {
        let (_col, row) = self.get_cursor_position();
        proof {
            lemma_line_start(self@.text, row as nat);
        }
        self.cursor_idx = self.content.line_to_char(row);
    }

    /// Moves the cursor to the end of its line, before the terminator.
    pub fn move_to_line_end(&mut self)
        requires
            old(self).wf(),
        ensures
            final(self).wf(),
            final(self)@ == old(self)@.move_to_line_end(),
    {
        let (_col, row) = self.get_cursor_position();
        let start = self.content.line_to_char(row);
        let reach = self.content_len(row);
        self.cursor_idx = start + reach;
    }

    /// Walks left from `from` over the characters whose whitespace
    /// property is `space`.
    fn walk_left(&self, from: usize, space: bool) -> (at: usize)
        requires
            from <= self@.text.len(),
        ensures
            at == skip_left(self@.text, from as int, space),
            at <= from,
    {
        let mut at: usize = from;
        while at > 0 && self.content.char(at - 1).is_whitespace() == space
            invariant
                at <= from <= self@.text.len(),
                skip_left(self@.text, at as int, space) == skip_left(
                    self@.text,
                    from as int,
                    space,
                ),
            decreases at,
        {
            at = at - 1;
        }
        at
    }

    /// Walks right from `from` over the characters whose whitespace
    /// property is `space`.
    fn walk_right(&self, from: usize, space: bool) -> (at: usize)
        requires
            from <= self@.text.len(),
        ensures
            at == skip_right(self@.text, from as int, space),
            from <= at <= self@.text.len(),
    {
        let len = self.content.len_chars();
        let mut at: usize = from;
        while at < len && self.content.char(at).is_whitespace() == space
            invariant
                len == self@.text.len(),
                from <= at <= len,
                skip_right(self@.text, at as int, space) == skip_right(
                    self@.text,
                    from as int,
                    space,
                ),
            decreases len - at,
        {
            at = at + 1;
        }
        at
    }

    /// Moves the cursor to the start of the word on its left.
    pub fn move_word_left(&mut self)
        requires
            old(self).wf(),
        ensures
            final(self).wf(),
            final(self)@ == old(self)@.move_word_left(),
    {
        let gap = self.walk_left(self.cursor_idx, true);
        self.cursor_idx = self.walk_left(gap, false);
    }

    /// Moves the cursor to the start of the word on its right.
    pub fn move_word_right(&mut self)
        requires
            old(self).wf(),
        ensures
            final(self).wf(),
            final(self)@ == old(self)@.move_word_right(),
    {
        let word_end = self.walk_right(self.cursor_idx, false);
        self.cursor_idx = self.walk_right(word_end, true);
    }

    /// Switches typewriter mode over.
    pub fn toggle_mode(&mut self)
        requires
            old(self).wf(),
        ensures
            final(self).wf(),
            final(self)@ == old(self)@.toggle_mode(),
    {
        self.typewriter_mode = !self.typewriter_mode;
        self.trigger(Sound::Toggle);
    }

    /// Switches focus mode over.
    pub fn toggle_focus(&mut self)
        requires
            old(self).wf(),
        ensures
            final(self).wf(),
            final(self)@ == old(self)@.toggle_focus(),
    {
        self.focus_mode = !self.focus_mode;
        self.trigger(Sound::Toggle);
    }

    /// Switches sound over.
    pub fn toggle_sound(&mut self)
        requires
            old(self).wf(),
        ensures
            final(self).wf(),
            final(self)@ == old(self)@.toggle_sound(),
    {
        self.sound_enabled = !self.sound_enabled;
        self.trigger(Sound::Toggle);
    }

    /// Switches double spacing over.
    pub fn toggle_double_spacing(&mut self)
        requires
            old(self).wf(),
        ensures
            final(self).wf(),
            final(self)@ == old(self)@.toggle_double_spacing(),
    {
        self.double_spacing = !self.double_spacing;
        self.trigger(Sound::Toggle);
    }

    /// Steps to the next palette.
    pub fn cycle_theme(&mut self)
        requires
            old(self).wf(),
        ensures
            final(self).wf(),
            final(self)@ == old(self)@.cycle_theme(),
    {
        self.current_theme_type = self.current_theme_type.next();
        self.theme = Theme::for_type(self.current_theme_type);
        self.trigger(Sound::Toggle);
    }

    /// Shows `message` as the status.
    pub fn set_error(&mut self, message: String)
        requires
            old(self).wf(),
        ensures
            final(self).wf(),
            final(self)@ == old(self)@.set_error(message@),
    {
        self.status_message = Some(message);
    }

    /// Takes the status away.
    pub fn clear_status(&mut self)
        requires
            old(self).wf(),
        ensures
            final(self).wf(),
            final(self)@ == old(self)@.clear_status(),
    {
        self.status_message = None;
    }

    /// The name of the file that saving writes: the document's own, or
    /// the default name for a document that has none.
    pub fn save_path(&self) -> (path: String)
        ensures
            path@ == self@.save_path(),
    {
        match &self.file_path {
            Some(p) => p.clone(),
            None => DEFAULT_FILE_NAME.to_owned(),
        }
    }

    /// The bytes that saving writes.
    pub fn save_bytes(&self) -> (bytes: Vec<u8>)
        ensures
            bytes@ == self@.saved_bytes(),
    {
        let text = rope_to_string(&self.content);
        text.as_str().as_bytes_vec()
    }

    /// Notes that the document was saved.
    pub fn mark_saved(&mut self)
        requires
            old(self).wf(),
        ensures
            final(self).wf(),
            final(self)@ == old(self)@.mark_saved(),
    {
        self.unsaved_changes = false;
    }

    /// Makes `content` the document of the file `path`.
    pub fn load(&mut self, path: String, content: &str)
        requires
            old(self).wf(),
        ensures
            final(self).wf(),
            final(self)@ == old(self)@.load(path@, content@),
    {
        self.invalidate_counts();
        self.cursor_idx = 0;
        self.content = Rope::from_str(content);
        let _len = self.content.len_chars();
        self.file_path = Some(path);
        self.unsaved_changes = false;
    }

    /// Makes the bytes of the file `path` the document, if they are UTF-8;
    /// if they are not, the session stays as it is.
    pub fn load_bytes(&mut self, path: String, bytes: &[u8]) -> (r: Result<(), LoadError>)
        requires
            old(self).wf(),
        ensures
            final(self).wf(),
            r is Ok <==> valid_utf8(bytes@),
            r is Err ==> r == Err::<(), LoadError>(LoadError::InvalidUtf8)
                && final(self)@ == old(self)@,
            r is Ok ==> Some(final(self)@) == old(self)@.load_bytes(path@, bytes@),
    {
        match core::str::from_utf8(bytes) {
            Ok(content) => {
                proof {
                    encode_utf8_decode_utf8(content@);
                }
                self.load(path, content);
                Ok(())
            },
            Err(_) => Err(LoadError::InvalidUtf8),
        }
    }

    /// Takes the pending sound requests out of the queue, oldest first.
    pub fn take_sounds(&mut self) -> (sounds: Vec<Sound>)
        requires
            old(self).wf(),
        ensures
            final(self).wf(),
            sounds@ == old(self)@.sounds,
            final(self)@ == (AppView { sounds: Seq::empty(), ..old(self)@ }),
    {
        proof {
            self.audio.lemma_wf();
        }
        let sounds = self.audio.drain();
        proof {
            self.audio.lemma_wf();
        }
        sounds
    }
}

impl App {
    /// The cursor's offset into the document.
    pub fn cursor_idx(&self) -> (idx: usize)
        ensures
            idx == self@.cursor,
    {
        self.cursor_idx
    }

    /// Whether the cursor's row is kept at the middle of the viewport.
    pub fn typewriter_mode(&self) -> (on: bool)
        ensures
            on == self@.typewriter_mode,
    {
        self.typewriter_mode
    }

    /// Whether the lines without the cursor are dimmed.
    pub fn focus_mode(&self) -> (on: bool)
        ensures
            on == self@.focus_mode,
    {
        self.focus_mode
    }

    /// Whether editing makes sounds.
    pub fn sound_enabled(&self) -> (on: bool)
        ensures
            on == self@.sound_enabled,
    {
        self.sound_enabled
    }

    /// Whether a blank row follows every logical line.
    pub fn double_spacing(&self) -> (on: bool)
        ensures
            on == self@.double_spacing,
    {
        self.double_spacing
    }

    /// The palette in use.
    pub fn theme(&self) -> (theme: &Theme)
        ensures
            *theme == self@.theme,
    {
        &self.theme
    }

    /// The name of the palette in use.
    pub fn current_theme_type(&self) -> (kind: ThemeType)
        ensures
            kind == self@.theme_type,
    {
        self.current_theme_type
    }

    /// The settings.
    pub fn config(&self) -> (config: &Config)
        ensures
            *config == self@.config,
    {
        &self.config
    }

    /// Where the document is saved, if it has a name.
    pub fn file_path(&self) -> (path: &Option<String>)
        ensures
            match *path {
                Some(p) => self@.file_path == Some(p@),
                None => self@.file_path is None,
            },
    {
        &self.file_path
    }

    /// The message shown to the user, if there is one.
    pub fn status_message(&self) -> (message: &Option<String>)
        ensures
            match *message {
                Some(m) => self@.status == Some(m@),
                None => self@.status is None,
            },
    {
        &self.status_message
    }

    /// Whether the document has changed since it was loaded or saved.
    pub fn has_unsaved_changes(&self) -> (unsaved: bool)
        ensures
            unsaved == self@.unsaved,
    {
        self.unsaved_changes
    }

    /// The highest page for which a page feed was signalled.
    pub fn last_page_number(&self) -> (page: usize)
        ensures
            page == self@.last_page,
    {
        self.last_page_number
    }

    /// Number of lines of the document.
    pub fn len_lines(&self) -> (n: usize)
        ensures
            n == line_count(self@.text),
    {
        self.content.len_lines()
    }

    /// The characters of line `row`, its terminator included.
    pub fn line(&self, row: usize) -> (line: String)
        requires
            row < line_count(self@.text),
        ensures
            line@ == line_text(self@.text, row as nat),
    {
        slice_to_string(self.content.line(row))
    }

    /// The document as one string.
    pub fn text(&self) -> (text: String)
        ensures
            text@ == self@.text,
    {
        rope_to_string(&self.content)
    }
}

/// Counts the words of `text`.
fn count_words(text: &str) -> (words: usize)
    requires
        text@.len() <= usize::MAX,
    ensures
        words == word_count(text@),
{
    let mut words: usize = 0;
    let mut in_word = false;
    for c in it: text.chars()
        invariant
            it.seq() == text@,
            in_word == (it.index() > 0 && !whitespace(it.seq()[it.index() - 1])),
            words + if in_word {
                1nat
            } else {
                0nat
            } == word_count(it.seq().take(it.index() as int)),
            it.seq().len() <= usize::MAX,
    {
        proof {
            lemma_word_count_step(text@, it.index() as int);
            lemma_word_count_bound(text@.take(it.index() as int));
        }
        if c.is_whitespace() {
            if in_word {
                words = words + 1;
                in_word = false;
            }
        } else {
            in_word = true;
        }
    }
    assert(text@.take(text@.len() as int) =~= text@);
    proof {
        lemma_word_count_bound(text@);
    }
    if in_word {
        words = words + 1;
    }
    words
}

} // verus!
