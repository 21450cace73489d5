use clack::markdown::{parse_chars, parse_line, Span};
use clack::theme::{Color, Style, Theme};

fn runs(line: &str) -> Vec<(String, Style)> {
    let theme = Theme::dark();
    parse_line(line, &theme)
        .into_iter()
        .map(|span: Span| (span.content.iter().collect::<String>(), span.style))
        .collect()
}

fn plain() -> Style {
    Style::new()
}

fn marker() -> Style {
    Style::new().fg(Theme::dark().guide_color)
}

fn bold() -> Style {
    Style::new().fg(Theme::dark().base_fg).bold()
}

fn italic() -> Style {
    Style::new().fg(Theme::dark().base_fg).italic()
}

fn run(text: &str, style: Style) -> (String, Style) {
    (String::from(text), style)
}

#[test]
fn style_builders_set_one_thing_each() {
    assert_eq!(plain(), Style { fg: None, bg: None, bold: false, italic: false, dim: false });
    assert_eq!(
        marker(),
        Style { fg: Some(Color::DarkGray), bg: None, bold: false, italic: false, dim: false }
    );
    assert_eq!(
        bold(),
        Style { fg: Some(Color::White), bg: None, bold: true, italic: false, dim: false }
    );
    assert_eq!(
        italic(),
        Style { fg: Some(Color::White), bg: None, bold: false, italic: true, dim: false }
    );
    assert_eq!(
        Style::new().bg(Color::Blue).dim(),
        Style { fg: None, bg: Some(Color::Blue), bold: false, italic: false, dim: true }
    );
}

#[test]
fn plain_text_is_one_run() {
    assert_eq!(runs("just some words"), vec![run("just some words", plain())]);
}

#[test]
fn empty_line_has_no_runs() {
    assert_eq!(runs(""), vec![]);
    assert_eq!(runs("   \t \n"), vec![]);
}

#[test]
fn trailing_whitespace_is_dropped() {
    assert_eq!(runs("word  \n"), vec![run("word", plain())]);
    assert_eq!(runs("  word"), vec![run("  word", plain())]);
}

#[test]
fn first_level_header() {
    assert_eq!(runs("# Title *here*\n"), vec![run("# ", marker()), run("Title *here*", bold())]);
}

#[test]
fn second_level_header() {
    assert_eq!(runs("## Sub __x__"), vec![run("## ", marker()), run("Sub __x__", bold())]);
}

#[test]
fn header_needs_its_space() {
    assert_eq!(runs("#Title"), vec![run("#Title", plain())]);
    assert_eq!(runs("# "), vec![run("#", plain())]);
    assert_eq!(runs("### deep"), vec![run("### deep", plain())]);
    assert_eq!(runs(" # late"), vec![run(" # late", plain())]);
    assert_eq!(runs("#  two"), vec![run("# ", marker()), run(" two", bold())]);
}

#[test]
fn bold_with_stars() {
    assert_eq!(
        runs("a **b c** d"),
        vec![
            run("a ", plain()),
            run("**", marker()),
            run("b c", bold()),
            run("**", marker()),
            run(" d", plain()),
        ]
    );
}

#[test]
fn bold_with_underscores() {
    assert_eq!(
        runs("__x__"),
        vec![run("__", marker()), run("x", bold()), run("__", marker())]
    );
}

#[test]
fn italic_with_star_and_underscore() {
    assert_eq!(
        runs("*a* and _b_"),
        vec![
            run("*", marker()),
            run("a", italic()),
            run("*", marker()),
            run(" and ", plain()),
            run("_", marker()),
            run("b", italic()),
            run("_", marker()),
        ]
    );
}

#[test]
fn unmatched_bold_is_literal() {
    assert_eq!(
        runs("see **this"),
        vec![run("see ", plain()), run("**", plain()), run("this", plain())]
    );
}

#[test]
fn unmatched_italic_is_literal() {
    assert_eq!(
        runs("2 * 3"),
        vec![run("2 ", plain()), run("*", plain()), run(" 3", plain())]
    );
    assert_eq!(runs("end_"), vec![run("end", plain()), run("_", plain()), run("", plain())]);
}

#[test]
fn bold_takes_single_markers_inside() {
    assert_eq!(
        runs("**a*b**"),
        vec![run("**", marker()), run("a*b", bold()), run("**", marker())]
    );
}

#[test]
fn markers_do_not_close_each_other() {
    assert_eq!(
        runs("*a_b*c_"),
        vec![
            run("*", marker()),
            run("a_b", italic()),
            run("*", marker()),
            run("c", plain()),
            run("_", plain()),
            run("", plain()),
        ]
    );
}

#[test]
fn nesting_is_not_followed() {
    assert_eq!(
        runs("**a _b_ c**"),
        vec![run("**", marker()), run("a _b_ c", bold()), run("**", marker())]
    );
    assert_eq!(
        runs("*a **b** c*"),
        vec![
            run("*", marker()),
            run("a ", italic()),
            run("*", marker()),
            run("*", marker()),
            run("b", italic()),
            run("*", marker()),
            run("*", marker()),
            run(" c", italic()),
            run("*", marker()),
        ]
    );
}

#[test]
fn empty_emphasis() {
    assert_eq!(
        runs("****"),
        vec![run("**", marker()), run("", bold()), run("**", marker())]
    );
    assert_eq!(
        runs("***"),
        vec![run("**", plain()), run("*", plain())]
    );
    assert_eq!(runs("**"), vec![run("**", plain()), run("", plain())]);
    assert_eq!(runs("*"), vec![run("*", plain()), run("", plain())]);
}

#[test]
fn scanning_resumes_behind_the_closing_marker() {
    assert_eq!(
        runs("**a***b*"),
        vec![
            run("**", marker()),
            run("a", bold()),
            run("**", marker()),
            run("*", marker()),
            run("b", italic()),
            run("*", marker()),
        ]
    );
}

#[test]
fn runs_spell_the_line() {
    let lines = ["a **b** _c_ *d", "## x", "__", "pl*ain_ te**xt  ", "\u{e9}t\u{e9} **\u{1f600}**"];
    for line in lines {
        let spelled: String = runs(line).into_iter().map(|(text, _)| text).collect();
        assert_eq!(spelled, line.trim_end());
    }
}

#[test]
fn themes_colour_the_runs() {
    let theme = Theme::retro();
    let spans = parse_chars("*x*".chars().collect(), &theme);
    assert_eq!(spans.len(), 3);
    assert_eq!(spans[0].style.fg, Some(Color::Rgb(100, 70, 0)));
    assert_eq!(spans[1].style.fg, Some(Color::Rgb(255, 176, 0)));
    assert!(spans[1].style.italic);
    assert_eq!(spans[1].content, vec!['x']);
}
