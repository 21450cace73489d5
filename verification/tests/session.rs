use clack::app::{App, Preferences};
use clack::config::{Config, LayoutConfig, TypewriterConfig};
use clack::input::{Action, Key, KeyPress};
use clack::markdown::Span;
use clack::sound::{AudioEngine, Sound, QUEUE_CAPACITY};
use clack::theme::{same_text, Color, Style, Theme, ThemeType};
use clack::ui::{
    compute_effective_width, compute_inner_height, compute_paper_area, compute_paper_width, draw,
    header_line, place_cursor, status_line, Rect,
};

fn press(key: Key) -> KeyPress {
    KeyPress { key, ctrl: false }
}

fn ctrl(key: Key) -> KeyPress {
    KeyPress { key, ctrl: true }
}

fn type_text(app: &mut App, text: &str) {
    for c in text.chars() {
        if c == '\n' {
            app.handle_key(press(Key::Enter));
        } else {
            app.handle_key(press(Key::Char(c)));
        }
    }
}

fn span_texts(spans: &Vec<Span>) -> Vec<String> {
    spans.iter().map(|span| span.content.iter().collect()).collect()
}

#[test]
fn default_layout_config() {
    let c = LayoutConfig::default();
    assert_eq!(c.text_width, 80);
    assert_eq!(c.pad_left, 2);
    assert_eq!(c.pad_right, 2);
    assert_eq!(c.pad_top, 1);
    assert_eq!(c.pad_bottom, 1);
    assert!(c.show_margin_guide);
    assert!(c.fancy_borders);
}

#[test]
fn default_typewriter_config() {
    let c = TypewriterConfig::default();
    assert_eq!(c.bell_column, 72);
    assert_eq!(c.lines_per_page, 54);
    assert_eq!(c.page_feed_pause_ms, 350);
}

#[test]
fn config_new_is_the_default() {
    let c = Config::new();
    assert_eq!(c, Config::default());
    assert_eq!(c.layout, LayoutConfig::default());
    assert_eq!(c.typewriter, TypewriterConfig::default());
}

#[test]
fn theme_type_cycles() {
    assert_eq!(ThemeType::Dark.next(), ThemeType::Light);
    assert_eq!(ThemeType::Light.next(), ThemeType::Retro);
    assert_eq!(ThemeType::Retro.next(), ThemeType::Dark);
}

#[test]
fn palettes() {
    let dark = Theme::dark();
    assert_eq!(dark._name, "Dark");
    assert_eq!(dark.base_bg, Color::Reset);
    assert_eq!(dark.base_fg, Color::White);
    assert_eq!(dark.accent, Color::Blue);
    assert_eq!(dark.dim_text, Color::Rgb(50, 50, 50));
    assert_eq!(dark.status_ok, Color::Green);
    assert_eq!(dark.status_bad, Color::Red);
    let light = Theme::light();
    assert_eq!(light._name, "Paper");
    assert_eq!(light.paper_bg, Color::Rgb(253, 246, 227));
    assert_eq!(light.base_fg, Color::Black);
    assert_eq!(light.border, Color::Rgb(180, 170, 150));
    let retro = Theme::retro();
    assert_eq!(retro._name, "Retro");
    assert_eq!(retro.base_fg, Color::Rgb(255, 176, 0));
    assert_eq!(retro.border, Color::Rgb(100, 70, 0));
    assert_eq!(retro.header_bg, Color::Rgb(40, 30, 0));
    assert_eq!(Theme::for_type(ThemeType::Dark), dark);
    assert_eq!(Theme::for_type(ThemeType::Light), light);
    assert_eq!(Theme::for_type(ThemeType::Retro), retro);
}

#[test]
fn same_text_compares_characters() {
    assert!(same_text("", ""));
    assert!(same_text("abc", "abc"));
    assert!(!same_text("abc", "abd"));
    assert!(!same_text("abc", "ab"));
    assert!(!same_text("ab", "abc"));
    assert!(same_text("\u{e9}\u{1f600}", "\u{e9}\u{1f600}"));
}

#[test]
fn audio_queue_keeps_requests_in_order() {
    let mut audio = AudioEngine::new(true);
    assert!(audio.is_enabled());
    audio.trigger(Sound::Key);
    audio.trigger(Sound::Ding);
    audio.trigger(Sound::Feed);
    assert_eq!(audio.drain(), vec![Sound::Key, Sound::Ding, Sound::Feed]);
    assert_eq!(audio.drain(), vec![]);
}

#[test]
fn disabled_audio_forgets_requests() {
    let mut audio = AudioEngine::new(false);
    assert!(!audio.is_enabled());
    audio.trigger(Sound::Key);
    assert_eq!(audio.drain(), vec![]);
}

#[test]
fn full_audio_queue_drops_the_oldest() {
    let mut audio = AudioEngine::new(true);
    audio.trigger(Sound::Startup);
    audio.trigger(Sound::Return);
    for _ in 0..QUEUE_CAPACITY - 2 {
        audio.trigger(Sound::Key);
    }
    audio.trigger(Sound::Ding);
    let sounds = audio.drain();
    assert_eq!(sounds.len(), QUEUE_CAPACITY);
    assert_eq!(sounds[0], Sound::Return);
    assert_eq!(sounds[1], Sound::Key);
    assert_eq!(sounds[QUEUE_CAPACITY - 1], Sound::Ding);
}

#[test]
fn escape_quits() {
    let mut app = App::new();
    assert_eq!(app.handle_key(press(Key::Esc)), Action::Quit);
    assert_eq!(app.text(), "");
}

#[test]
fn control_s_asks_for_a_save() {
    let mut app = App::new();
    assert_eq!(app.handle_key(ctrl(Key::Char('s'))), Action::Save);
    assert_eq!(app.text(), "");
    assert_eq!(app.handle_key(press(Key::Char('s'))), Action::Continue);
    assert_eq!(app.text(), "s");
}

#[test]
fn control_t_and_function_keys_switch() {
    let mut app = App::new();
    assert_eq!(app.handle_key(ctrl(Key::Char('t'))), Action::Continue);
    assert!(app.typewriter_mode());
    app.handle_key(press(Key::F(3)));
    assert!(!app.typewriter_mode());
    app.handle_key(press(Key::F(2)));
    assert!(app.focus_mode());
    app.handle_key(press(Key::F(4)));
    assert!(!app.sound_enabled());
    app.handle_key(press(Key::F(5)));
    assert_eq!(app.current_theme_type(), ThemeType::Light);
    app.handle_key(press(Key::F(6)));
    assert!(app.double_spacing());
    app.handle_key(press(Key::F(1)));
    app.handle_key(press(Key::F(7)));
    app.handle_key(press(Key::Other));
    assert_eq!(app.text(), "");
    assert!(!app.typewriter_mode());
    assert!(app.focus_mode());
    assert!(app.double_spacing());
}

#[test]
fn other_control_characters_are_typed() {
    let mut app = App::new();
    assert_eq!(app.handle_key(ctrl(Key::Char('a'))), Action::Continue);
    assert_eq!(app.text(), "a");
}

#[test]
fn typing_clears_the_status() {
    let mut app = App::new();
    app.set_error(String::from("oops"));
    app.handle_key(press(Key::Left));
    assert_eq!(*app.status_message(), Some(String::from("oops")));
    app.handle_key(press(Key::Char('x')));
    assert_eq!(*app.status_message(), None);
    app.set_error(String::from("oops"));
    app.handle_key(press(Key::Backspace));
    assert_eq!(*app.status_message(), None);
    app.set_error(String::from("oops"));
    app.handle_key(press(Key::Delete));
    assert_eq!(*app.status_message(), None);
    app.set_error(String::from("oops"));
    app.handle_key(press(Key::Enter));
    assert_eq!(*app.status_message(), None);
}

#[test]
fn keys_edit_and_move() {
    let mut app = App::new();
    type_text(&mut app, "hello world\nsecond");
    assert_eq!(app.text(), "hello world\nsecond");
    app.handle_key(press(Key::Home));
    assert_eq!(app.cursor_idx(), 12);
    app.handle_key(press(Key::Up));
    assert_eq!(app.cursor_idx(), 0);
    app.handle_key(press(Key::End));
    assert_eq!(app.cursor_idx(), 11);
    app.handle_key(ctrl(Key::Left));
    assert_eq!(app.cursor_idx(), 6);
    app.handle_key(press(Key::Left));
    assert_eq!(app.cursor_idx(), 5);
    app.handle_key(press(Key::Backspace));
    assert_eq!(app.text(), "hell world\nsecond");
    app.handle_key(press(Key::Delete));
    assert_eq!(app.text(), "hellworld\nsecond");
    app.handle_key(press(Key::Right));
    assert_eq!(app.cursor_idx(), 5);
    app.handle_key(ctrl(Key::Right));
    assert_eq!(app.cursor_idx(), 10);
    assert_eq!(app.get_cursor_position(), (0, 1));
    app.handle_key(press(Key::Up));
    assert_eq!(app.get_cursor_position(), (0, 0));
    app.handle_key(press(Key::End));
    assert_eq!(app.handle_key(press(Key::Down)), Action::Continue);
    assert_eq!(app.get_cursor_position(), (6, 1));
}

#[test]
fn enter_onto_a_new_page_pauses() {
    let mut app = App::new();
    for _ in 0..53 {
        assert_eq!(app.handle_key(press(Key::Enter)), Action::Continue);
    }
    app.take_sounds();
    assert_eq!(app.handle_key(press(Key::Enter)), Action::Pause(350));
    assert_eq!(app.take_sounds(), vec![Sound::Return, Sound::Feed]);
    assert_eq!(app.handle_key(press(Key::Enter)), Action::Continue);
    assert_eq!(app.handle_key(press(Key::Char('a'))), Action::Continue);
}

#[test]
fn down_onto_a_new_page_pauses_when_sound_is_on() {
    let mut config = Config::new();
    config.typewriter.lines_per_page = 2;
    config.typewriter.page_feed_pause_ms = 5;
    let preferences = Preferences {
        typewriter_mode: false,
        focus_mode: false,
        sound_enabled: true,
        double_spacing: false,
        theme: String::from("dark"),
    };
    let mut app = App::with_preferences(&preferences, config);
    app.load(String::from("x"), "a\nb\nc");
    app.take_sounds();
    assert_eq!(app.handle_key(press(Key::Down)), Action::Continue);
    assert_eq!(app.handle_key(press(Key::Down)), Action::Pause(5));
    assert_eq!(app.take_sounds(), vec![Sound::Feed]);
    app.handle_key(press(Key::Up));
    app.toggle_sound();
    assert_eq!(app.handle_key(press(Key::Down)), Action::Continue);
    assert_eq!(app.take_sounds(), vec![]);
    assert_eq!(app.get_cursor_position(), (0, 2));
}

#[test]
fn paper_geometry() {
    let c = LayoutConfig::default();
    assert_eq!(compute_paper_width(&c), 86);
    assert_eq!(compute_effective_width(&c), 80);
    assert_eq!(compute_inner_height(24, &c), 20);
    assert_eq!(compute_inner_height(4, &c), 0);
    assert_eq!(compute_inner_height(0, &c), 0);
    let wide = Rect { x: 0, y: 1, width: 120, height: 30 };
    assert_eq!(compute_paper_area(wide, &c), Rect { x: 17, y: 1, width: 86, height: 30 });
    let narrow = Rect { x: 3, y: 1, width: 40, height: 30 };
    assert_eq!(compute_paper_area(narrow, &c), Rect { x: 3, y: 1, width: 86, height: 30 });
}

#[test]
fn degenerate_geometry_is_clamped() {
    let mut c = LayoutConfig::default();
    c.text_width = 0;
    assert_eq!(compute_effective_width(&c), 1);
    c.text_width = u16::MAX;
    assert_eq!(compute_paper_width(&c), u16::MAX);
    assert_eq!(compute_effective_width(&c), 65529);
    c.pad_left = u16::MAX;
    c.pad_right = u16::MAX;
    assert_eq!(compute_effective_width(&c), 1);
}

#[test]
fn cursor_shows_only_in_view() {
    let c = LayoutConfig::default();
    let paper = Rect { x: 17, y: 1, width: 86, height: 30 };
    assert_eq!(place_cursor(paper, &c, 0, 0, 0, 26), Some((20, 2)));
    assert_eq!(place_cursor(paper, &c, 30, 5, 5, 26), Some((25, 27)));
    assert_eq!(place_cursor(paper, &c, 31, 5, 5, 26), None);
    assert_eq!(place_cursor(paper, &c, 3, 0, 3, 0), None);
    assert_eq!(place_cursor(paper, &c, 3, 70000, 3, 26), None);
    let far = Rect { x: u16::MAX, y: u16::MAX, width: 86, height: 30 };
    assert_eq!(place_cursor(far, &c, 0, 0, 0, 26), None);
}

#[test]
fn header_names_the_file() {
    let theme = Theme::dark();
    let header = header_line(&theme, Some("draft.md"));
    assert_eq!(span_texts(&header), vec![" Clack ", " draft.md"]);
    assert_eq!(header[0].style, Style::new().fg(Color::White).bg(Color::Blue).bold());
    assert_eq!(header[1].style, Style::new());
    let untitled = header_line(&theme, None);
    assert_eq!(span_texts(&untitled), vec![" Clack ", " Untitled.md"]);
}

#[test]
fn footer_shows_switches_and_counts() {
    let mut app = App::new();
    app.load(String::from("x"), "one two\nthree");
    app.toggle_focus();
    let footer = status_line(&mut app);
    assert_eq!(
        span_texts(&footer),
        vec![
            " TW: ", "OFF", " | ", " FOC: ", "ON", " | ", " SND: ", "ON", " | ",
            "3 w / 13 c", " | ", "F2:Foc F3:TW F4:Snd F5:Thm",
        ]
    );
    assert_eq!(footer[0].style, Style::new().fg(Color::White));
    assert_eq!(footer[1].style, Style::new().fg(Color::Red));
    assert_eq!(footer[4].style, Style::new().fg(Color::Green));
    assert_eq!(footer[2].style, Style::new());
    app.set_error(String::from("Failed to save: no"));
    let footer = status_line(&mut app);
    assert_eq!(footer.len(), 14);
    assert_eq!(span_texts(&footer)[13], "Failed to save: no");
    assert_eq!(footer[13].style, Style::new().fg(Color::Red));
}

#[test]
fn draw_puts_the_frame_together() {
    let mut app = App::new();
    app.load(String::from("x"), "ab\ncd");
    app.move_cursor_down();
    app.move_right();
    let body = Rect { x: 0, y: 1, width: 120, height: 30 };
    let screen = draw(&mut app, body, Some("x")).unwrap();
    assert_eq!(screen.text_area, Rect { x: 17, y: 1, width: 86, height: 30 });
    assert_eq!(screen.lines.len(), 2);
    assert_eq!(screen.scroll_offset, 0);
    assert_eq!(screen.cursor, Some((21, 3)));
    assert_eq!(span_texts(&screen.header), vec![" Clack ", " x"]);
    assert_eq!(span_texts(&screen.footer)[9], "2 w / 5 c");
}

#[test]
fn draw_scrolls_a_short_viewport() {
    let mut app = App::new();
    app.load(String::from("x"), "1\n2\n3\n4\n5\n6\n7\n8");
    for _ in 0..7 {
        app.move_cursor_down();
    }
    let body = Rect { x: 0, y: 1, width: 100, height: 8 };
    let screen = draw(&mut app, body, None).unwrap();
    assert_eq!(screen.scroll_offset, 4);
    assert_eq!(screen.cursor, Some((10, 5)));
    app.toggle_mode();
    let screen = draw(&mut app, body, None).unwrap();
    assert_eq!(screen.scroll_offset, 5);
    assert_eq!(screen.cursor, Some((10, 4)));
}
