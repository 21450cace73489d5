use clack::app::{App, Preferences};
use clack::config::Config;
use clack::layout::{
    flatten, layout, push_decimal, push_wrapped, resolve_style, scroll_offset, scroll_state_val,
    separator, try_layout, Cell,
};
use clack::markdown::parse_line;
use clack::theme::{Color, Style, Theme};

fn session(text: &str, offset: usize, config: Config, focus: bool, double: bool, typewriter: bool) -> App {
    let preferences = Preferences {
        typewriter_mode: typewriter,
        focus_mode: focus,
        sound_enabled: false,
        double_spacing: double,
        theme: String::from("dark"),
    };
    let mut app = App::with_preferences(&preferences, config);
    app.load(String::from("t.md"), text);
    for _ in 0..offset {
        app.move_right();
    }
    app
}

fn simple(text: &str, offset: usize) -> App {
    session(text, offset, Config::new(), false, false, false)
}

fn row_text(row: &Vec<Cell>) -> String {
    row.iter().map(|cell| cell.0).collect()
}

fn texts(rows: &Vec<Vec<Cell>>) -> Vec<String> {
    rows.iter().map(row_text).collect()
}

fn base() -> Style {
    Style::new().fg(Color::White)
}

#[test]
fn decimal_digits() {
    for n in [0usize, 7, 10, 42, 99, 100, 1234567890, usize::MAX] {
        let mut out = vec!['#'];
        push_decimal(&mut out, n);
        assert_eq!(out.iter().collect::<String>(), format!("#{}", n));
    }
}

#[test]
fn separator_is_centred_between_rules() {
    let theme = Theme::dark();
    let row = separator(2, 20, &theme);
    assert_eq!(row_text(&row), "────── Page 2 ──────");
    assert_eq!(row.len(), 20);
    let odd = separator(12, 16, &theme);
    assert_eq!(row_text(&odd), "─── Page 12 ────");
    assert!(row.iter().all(|cell| cell.1 == Style::new().fg(Color::DarkGray)));
}

#[test]
fn separator_on_a_narrow_row_keeps_its_label() {
    let theme = Theme::dark();
    assert_eq!(row_text(&separator(3, 8, &theme)), " Page 3 ");
    assert_eq!(row_text(&separator(3, 9, &theme)), " Page 3 ─");
    assert_eq!(row_text(&separator(3, 1, &theme)), " Page 3 ");
    assert_eq!(row_text(&separator(3, 0, &theme)), " Page 3 ");
}

#[test]
fn styles_resolve_against_the_theme() {
    let theme = Theme::light();
    assert_eq!(resolve_style(Style::new(), &theme, false), Style::new().fg(Color::Black));
    assert_eq!(
        resolve_style(Style::new().fg(Color::Reset).bold(), &theme, false),
        Style::new().fg(Color::Black).bold()
    );
    assert_eq!(
        resolve_style(Style::new().fg(Color::Red), &theme, false),
        Style::new().fg(Color::Red)
    );
    assert_eq!(
        resolve_style(Style::new().fg(Color::Red).italic(), &theme, true),
        Style::new().fg(Color::Rgb(200, 200, 190)).italic().dim()
    );
    assert_eq!(
        resolve_style(Style::new(), &theme, true),
        Style::new().fg(Color::Rgb(200, 200, 190)).dim()
    );
}

#[test]
fn flatten_gives_every_character_its_style() {
    let theme = Theme::dark();
    let cells = flatten(&parse_line("a*b*", &theme), &theme, false);
    assert_eq!(
        cells,
        vec![
            ('a', base()),
            ('*', Style::new().fg(Color::DarkGray)),
            ('b', base().italic()),
            ('*', Style::new().fg(Color::DarkGray)),
        ]
    );
}

#[test]
fn wrapping_packs_rows_greedily() {
    let theme = Theme::dark();
    let cells = flatten(&parse_line("abcdefgh", &theme), &theme, false);
    let mut rows: Vec<Vec<Cell>> = vec![vec![('x', base())]];
    push_wrapped(&mut rows, &cells, 3);
    assert_eq!(texts(&rows), vec!["x", "abc", "def", "gh"]);
    let mut exact: Vec<Vec<Cell>> = Vec::new();
    push_wrapped(&mut exact, &cells, 4);
    assert_eq!(texts(&exact), vec!["abcd", "efgh"]);
    let mut wide: Vec<Vec<Cell>> = Vec::new();
    push_wrapped(&mut wide, &cells, 8);
    assert_eq!(texts(&wide), vec!["abcdefgh"]);
    let mut none: Vec<Vec<Cell>> = Vec::new();
    push_wrapped(&mut none, &Vec::new(), 5);
    assert_eq!(texts(&none), vec![""]);
}

#[test]
fn every_logical_line_gets_a_row() {
    let app = simple("one\n\nthree\n", 0);
    let out = layout(&app, 80, 20);
    assert_eq!(texts(&out.lines), vec!["one", "", "three", ""]);
    assert_eq!((out.cursor_row, out.cursor_col), (0, 0));
    assert_eq!(out.scroll_offset, 0);
}

#[test]
fn empty_document_is_one_empty_row() {
    let app = App::new();
    let out = layout(&app, 80, 20);
    assert_eq!(texts(&out.lines), vec![""]);
    assert_eq!((out.cursor_row, out.cursor_col), (0, 0));
}

#[test]
fn long_lines_wrap_and_the_cursor_follows() {
    let app = simple("abcdefghij\nxy", 7);
    let out = layout(&app, 4, 20);
    assert_eq!(texts(&out.lines), vec!["abcd", "efgh", "ij", "xy"]);
    assert_eq!((out.cursor_row, out.cursor_col), (1, 3));
    let second = simple("abcdefghij\nxy", 12);
    let out = layout(&second, 4, 20);
    assert_eq!((out.cursor_row, out.cursor_col), (3, 1));
}

#[test]
fn cursor_at_a_wrap_boundary_gets_an_empty_row() {
    let app = simple("abcdefgh", 8);
    let out = layout(&app, 4, 20);
    assert_eq!(texts(&out.lines), vec!["abcd", "efgh", ""]);
    assert_eq!((out.cursor_row, out.cursor_col), (2, 0));
    let inside = simple("abcdefgh", 4);
    let out = layout(&inside, 4, 20);
    assert_eq!(texts(&out.lines), vec!["abcd", "efgh"]);
    assert_eq!((out.cursor_row, out.cursor_col), (1, 0));
}

#[test]
fn cursor_row_counts_the_rows_above() {
    let app = simple("abcdefgh\nab\nabcde", 14);
    let out = layout(&app, 4, 20);
    assert_eq!(texts(&out.lines), vec!["abcd", "efgh", "ab", "abcd", "e"]);
    assert_eq!((out.cursor_row, out.cursor_col), (3, 2));
}

#[test]
fn double_spacing_adds_a_blank_row_per_line() {
    let app = session("ab\ncd", 4, Config::new(), false, true, false);
    let out = layout(&app, 80, 20);
    assert_eq!(texts(&out.lines), vec!["ab", "", "cd", ""]);
    assert_eq!((out.cursor_row, out.cursor_col), (2, 1));
}

#[test]
fn double_spacing_row_serves_the_cursor_at_a_wrap_boundary() {
    let app = session("abcd", 4, Config::new(), false, true, false);
    let out = layout(&app, 4, 20);
    assert_eq!(texts(&out.lines), vec!["abcd", ""]);
    assert_eq!((out.cursor_row, out.cursor_col), (1, 0));
}

#[test]
fn page_breaks_follow_the_last_line_of_a_page() {
    let mut config = Config::new();
    config.typewriter.lines_per_page = 2;
    let app = session("a\nb\nc\nd\ne", 8, config, false, false, false);
    let out = layout(&app, 12, 20);
    assert_eq!(
        texts(&out.lines),
        vec![
            "a", "b", "", "── Page 2 ──", "",
            "c", "d", "", "── Page 3 ──", "",
            "e",
        ]
    );
    assert_eq!((out.cursor_row, out.cursor_col), (10, 0));
    assert!(out.lines[3].iter().all(|cell| cell.1 == Style::new().fg(Color::DarkGray)));
}

#[test]
fn page_break_with_double_spacing() {
    let mut config = Config::new();
    config.typewriter.lines_per_page = 1;
    let app = session("a\nb", 0, config, false, true, false);
    let out = layout(&app, 10, 20);
    assert_eq!(
        texts(&out.lines),
        vec!["a", "", "", "─ Page 2 ─", "", "b", "", "", "─ Page 3 ─", ""]
    );
}

#[test]
fn focus_mode_dims_the_other_lines() {
    let app = session("**a**\nb", 6, Config::new(), true, false, false);
    let out = layout(&app, 80, 20);
    let dim = Style::new().fg(Color::Rgb(50, 50, 50)).dim();
    assert_eq!(
        out.lines[0],
        vec![('*', dim), ('*', dim), ('a', dim.bold()), ('*', dim), ('*', dim)]
    );
    assert_eq!(out.lines[1], vec![('b', base())]);
    let off = session("**a**\nb", 6, Config::new(), false, false, false);
    let out = layout(&off, 80, 20);
    assert_eq!(out.lines[0][2], ('a', base().bold()));
    assert_eq!(out.lines[0][0], ('*', Style::new().fg(Color::DarkGray)));
}

#[test]
fn trailing_spaces_are_not_drawn_but_the_cursor_counts_them() {
    let app = simple("ab   ", 5);
    let out = layout(&app, 80, 20);
    assert_eq!(texts(&out.lines), vec!["ab"]);
    assert_eq!((out.cursor_row, out.cursor_col), (0, 5));
}

#[test]
fn zero_width_counts_as_one() {
    let app = simple("abc", 2);
    let out = layout(&app, 0, 20);
    assert_eq!(texts(&out.lines), vec!["a", "b", "c"]);
    assert_eq!((out.cursor_row, out.cursor_col), (2, 0));
}

#[test]
fn scroll_follows_the_cursor() {
    assert_eq!(scroll_state_val(7, 3), 0);
    assert_eq!(scroll_offset(false, 0, 10), 0);
    assert_eq!(scroll_offset(false, 9, 10), 0);
    assert_eq!(scroll_offset(false, 10, 10), 1);
    assert_eq!(scroll_offset(false, 25, 10), 16);
    assert_eq!(scroll_offset(false, 3, 1), 3);
    assert_eq!(scroll_offset(false, 3, 0), 3);
    assert_eq!(scroll_offset(false, 0, 0), 0);
}

#[test]
fn typewriter_scroll_pins_the_middle() {
    assert_eq!(scroll_offset(true, 0, 10), 0);
    assert_eq!(scroll_offset(true, 5, 10), 0);
    assert_eq!(scroll_offset(true, 6, 10), 1);
    assert_eq!(scroll_offset(true, 25, 10), 20);
    assert_eq!(scroll_offset(true, 25, 11), 20);
    assert_eq!(scroll_offset(true, 4, 0), 4);
    assert_eq!(scroll_offset(true, 4, 1), 4);
}

#[test]
fn layout_scrolls_by_mode() {
    let text = "1\n2\n3\n4\n5\n6\n7\n8";
    let normal = session(text, 14, Config::new(), false, false, false);
    let out = layout(&normal, 80, 4);
    assert_eq!(out.cursor_row, 7);
    assert_eq!(out.scroll_offset, 4);
    let pinned = session(text, 14, Config::new(), false, false, true);
    let out = layout(&pinned, 80, 4);
    assert_eq!(out.cursor_row, 7);
    assert_eq!(out.scroll_offset, 5);
}

#[test]
fn try_layout_lays_out_what_fits() {
    let mut app = simple("ab\ncd", 3);
    let out = try_layout(&mut app, 80, 10).unwrap();
    assert_eq!(out, layout(&app, 80, 10));
    assert_eq!(texts(&out.lines), vec!["ab", "cd"]);
}
