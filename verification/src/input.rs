//! What each key does.
//!
//! The event loop reads a key, hands it to [`App::handle_key`], and carries
//! out the action that comes back: it leaves, it saves the document, or it
//! pauses while the paper is fed.

use vstd::prelude::*;
use crate::app::{App, AppView};
use crate::sound::Sound;

verus! {

/// A key of the keyboard.
#[derive(Clone, Copy, Debug, PartialEq, Eq)]
pub enum Key {
    Esc,
    Enter,
    Backspace,
    Delete,
    Left,
    Right,
    Up,
    Down,
    Home,
    End,
    /// A function key, by its number.
    F(u8),
    /// A character key.
    Char(char),
    /// Any other key.
    Other,
}

/// A key, and whether the control key was held with it.
#[derive(Clone, Copy, Debug, PartialEq, Eq)]
pub struct KeyPress {
    pub key: Key,
    pub ctrl: bool,
}

/// What the event loop has to do after a key.
#[derive(Clone, Copy, Debug, PartialEq, Eq)]
pub enum Action {
    /// Nothing but the next pass.
    Continue,
    /// Leave the editor.
    Quit,
    /// Write the document to its file.
    Save,
    /// Wait for so many milliseconds while the paper is fed.
    Pause(u64),
}

/// The session after typing was followed by the page-feed check.
pub open spec fn typed(v: AppView) -> AppView {
    v.check_and_play_page_feed()
}

/// The pause that the page-feed check asks for.
pub open spec fn feed_pause(v: AppView) -> Action {
    if v.page_feed_due() {
        Action::Pause(v.config.typewriter.page_feed_pause_ms)
    } else {
        Action::Continue
    }
}

/// The session after the key `press`.
pub open spec fn after_key(v: AppView, press: KeyPress) -> AppView {
    match press.key {
        Key::Esc => v,
        Key::Char(c) => if press.ctrl && c == 't' {
            v.toggle_mode()
        } else if press.ctrl && c == 's' {
            v
        } else {
            typed(v.clear_status().insert_char(c))
        },
        Key::F(n) => if n == 2 {
            v.toggle_focus()
        } else if n == 3 {
            v.toggle_mode()
        } else if n == 4 {
            v.toggle_sound()
        } else if n == 5 {
            v.cycle_theme()
        } else if n == 6 {
            v.toggle_double_spacing()
        } else {
            v
        },
        Key::Enter => typed(v.clear_status().enter_key()),
        Key::Backspace => v.clear_status().delete_char(),
        Key::Delete => v.clear_status().delete_char_forward(),
        Key::Left => if press.ctrl {
            v.move_word_left()
        } else {
            v.move_left()
        },
        Key::Right => if press.ctrl {
            v.move_word_right()
        } else {
            v.move_right()
        },
        Key::Up => v.move_cursor_up(),
        Key::Down => if v.crosses_page_down() {
            v.move_cursor_down().play(Sound::Feed)
        } else {
            v.move_cursor_down()
        },
        Key::Home => v.move_to_line_start(),
        Key::End => v.move_to_line_end(),
        Key::Other => v,
    }
}

/// What the event loop has to do after the key `press`.
pub open spec fn action_for(v: AppView, press: KeyPress) -> Action {
    match press.key {
        Key::Esc => Action::Quit,
        Key::Char(c) => if press.ctrl && c == 't' {
            Action::Continue
        } else if press.ctrl && c == 's' {
            Action::Save
        } else {
            feed_pause(v.clear_status().insert_char(c))
        },
        Key::Enter => feed_pause(v.clear_status().enter_key()),
        Key::Down => if v.crosses_page_down() && v.sound_enabled {
            Action::Pause(v.config.typewriter.page_feed_pause_ms)
        } else {
            Action::Continue
        },
        _ => Action::Continue,
    }
}

impl App {
    /// Carries out the page-feed check after typing.
    fn feed_after_typing(&mut self) -> (action: Action)
        requires
            old(self).wf(),
        ensures
            final(self).wf(),
            final(self)@ == typed(old(self)@),
            action == feed_pause(old(self)@),
    {
        if self.check_and_play_page_feed() {
            Action::Pause(self.config().typewriter.page_feed_pause_ms)
        } else {
            Action::Continue
        }
    }

    /// Applies one key to the session and says what the event loop has to
    /// do next.
    pub fn handle_key(&mut self, press: KeyPress) -> (action: Action)
        requires
            old(self).wf(),
        ensures
            final(self).wf(),
            final(self)@ == after_key(old(self)@, press),
            action == action_for(old(self)@, press),
    {
        match press.key {
            Key::Esc => Action::Quit,
            Key::Char(c) => {
                if press.ctrl && c == 't' {
                    self.toggle_mode();
                    Action::Continue
                } else if press.ctrl && c == 's' {
                    Action::Save
                } else {
                    self.clear_status();
                    self.insert_char(c);
                    self.feed_after_typing()
                }
            },
            Key::F(n) => {
                if n == 2 {
                    self.toggle_focus();
                } else if n == 3 {
                    self.toggle_mode();
                } else if n == 4 {
                    self.toggle_sound();
                } else if n == 5 {
                    self.cycle_theme();
                } else if n == 6 {
                    self.toggle_double_spacing();
                }
                Action::Continue
            },
            Key::Enter => {
                self.clear_status();
                self.enter_key();
                self.feed_after_typing()
            },
            Key::Backspace => {
                self.clear_status();
                self.delete_char();
                Action::Continue
            },
            Key::Delete => {
                self.clear_status();
                self.delete_char_forward();
                Action::Continue
            },
            Key::Left => {
                if press.ctrl {
                    self.move_word_left();
                } else {
                    self.move_left();
                }
                Action::Continue
            },
            Key::Right => {
                if press.ctrl {
                    self.move_word_right();
                } else {
                    self.move_right();
                }
                Action::Continue
            },
            Key::Up => {
                self.move_cursor_up();
                Action::Continue
            },
            Key::Down => {
                let crossed_page = self.move_cursor_down();
                if crossed_page && self.sound_enabled() {
                    self.trigger(Sound::Feed);
                    Action::Pause(self.config().typewriter.page_feed_pause_ms)
                } else {
                    Action::Continue
                }
            },
            Key::Home => {
                self.move_to_line_start();
                Action::Continue
            },
            Key::End => {
                self.move_to_line_end();
                Action::Continue
            },
            Key::Other => Action::Continue,
        }
    }
}

} // verus!
