//! The picture of one frame: where the paper lies, what stands on it, where
//! the cursor shows, and the header and footer lines.

use vstd::prelude::*;
use crate::app::{App, AppView};
use crate::config::LayoutConfig;
use crate::layout::{
    at_least_one, decimal, push_decimal, row_views, scroll_rows, try_layout, visual_cursor_col,
    visual_cursor_row, visual_rows, Cell,
};
use crate::markdown::{plain_span, push_span, span_views, Span, SpanView};
use crate::text::{push_str, str_chars, word_count};
use crate::theme::{Color, Style, Theme};

verus! {

/// A rectangle of screen cells.
#[derive(Clone, Copy, Debug, PartialEq, Eq)]
pub struct Rect {
    pub x: u16,
    pub y: u16,
    pub width: u16,
    pub height: u16,
}

/// Everything the renderer paints in one frame.
#[derive(Clone, Debug, PartialEq, Eq)]
pub struct Screen {
    /// The paper: the bordered area that holds the text.
    pub text_area: Rect,
    /// The visual rows, top to bottom.
    pub lines: Vec<Vec<Cell>>,
    /// Number of rows that are scrolled out at the top.
    pub scroll_offset: usize,
    /// Where on the screen the cursor shows, as column and row, if it is
    /// in view.
    pub cursor: Option<(u16, u16)>,
    /// The header line.
    pub header: Vec<Span>,
    /// The footer line.
    pub footer: Vec<Span>,
}

/// The name shown for a document that has none.
pub const UNTITLED: &'static str = "Untitled.md";

/// The width of the paper: the text, the padding on both sides and the two
/// borders, as far as a screen coordinate can count.
pub open spec fn paper_width(c: LayoutConfig) -> int {
    let wide = c.text_width + c.pad_left + c.pad_right + 2;
    if wide > u16::MAX {
        u16::MAX as int
    } else {
        wide
    }
}

/// The paper within the body area `body`: centred where the body is wider
/// than the paper, else at the body's left edge, and as high as the body.
pub open spec fn paper_area(body: Rect, c: LayoutConfig) -> Rect {
    let width = paper_width(c);
    let x = if body.width > width {
        body.x + (body.width - width) / 2
    } else {
        body.x as int
    };
    Rect {
        x: (if x > u16::MAX {
            u16::MAX as int
        } else {
            x
        }) as u16,
        y: body.y,
        width: width as u16,
        height: body.height,
    }
}

/// Number of characters in one visual row: what the paper leaves between
/// its borders and padding, and never less than one.
pub open spec fn effective_width(c: LayoutConfig) -> int {
    at_least_one(paper_width(c) - 2 - c.pad_left - c.pad_right)
}

/// Number of rows in view: what a body of `height` rows leaves below its
/// frame rows and its padding at top and bottom.
pub open spec fn inner_height(height: int, c: LayoutConfig) -> int {
    let used = 2 + c.pad_top + c.pad_bottom;
    if height > used {
        height - used
    } else {
        0
    }
}

/// Where the cursor shows on the screen, if its row is in view and the
/// place is one that the screen can address.
pub open spec fn cursor_on_screen(
    paper: Rect,
    c: LayoutConfig,
    cursor_row: int,
    cursor_col: int,
    scroll: int,
    height: int,
) -> Option<(u16, u16)> {
    let row = cursor_row - scroll;
    let x = paper.x + 1 + c.pad_left + cursor_col;
    let y = paper.y + c.pad_top + row;
    if 0 <= row < height && x <= u16::MAX && y <= u16::MAX {
        Some((x as u16, y as u16))
    } else {
        None
    }
}

/// The style of the program's name in the header.
pub open spec fn title_style(theme: Theme) -> Style {
    Style { bg: Some(theme.accent), bold: true, ..Style::colored(Color::White) }
}

/// The header line: the program's name, and the file's name behind a
/// space.
pub open spec fn header_spans(theme: Theme, file_name: Option<Seq<char>>) -> Seq<SpanView> {
    let name = match file_name {
        Some(name) => name,
        None => UNTITLED@,
    };
    seq![
        SpanView { content: " Clack "@, style: title_style(theme) },
        plain_span(seq![' '] + name),
    ]
}

/// How a switch reads in the footer.
pub open spec fn on_off(on: bool) -> Seq<char> {
    if on {
        "ON"@
    } else {
        "OFF"@
    }
}

/// The style of a switch in the footer.
pub open spec fn switch_style(on: bool, theme: Theme) -> Style {
    Style::colored(
        if on {
            theme.status_ok
        } else {
            theme.status_bad
        },
    )
}

/// How the counts read in the footer.
pub open spec fn counts_text(words: nat, chars: nat) -> Seq<char> {
    decimal(words) + " w / "@ + decimal(chars) + " c"@
}

/// The footer line: the three switches, the counts and the key help, and
/// behind them the status message where there is one.
pub open spec fn footer_spans(v: AppView) -> Seq<SpanView> {
    let label = Style::colored(v.theme.header_fg);
    let bar = plain_span(" | "@);
    let line = seq![
        SpanView { content: " TW: "@, style: label },
        SpanView {
            content: on_off(v.typewriter_mode),
            style: switch_style(v.typewriter_mode, v.theme),
        },
        bar,
        SpanView { content: " FOC: "@, style: label },
        SpanView { content: on_off(v.focus_mode), style: switch_style(v.focus_mode, v.theme) },
        bar,
        SpanView { content: " SND: "@, style: label },
        SpanView {
            content: on_off(v.sound_enabled),
            style: switch_style(v.sound_enabled, v.theme),
        },
        bar,
        SpanView {
            content: counts_text(word_count(v.text), v.text.len()),
            style: label,
        },
        bar,
        SpanView { content: "F2:Foc F3:TW F4:Snd F5:Thm"@, style: label },
    ];
    match v.status {
        Some(message) => line + seq![
            bar,
            SpanView { content: message, style: Style::colored(v.theme.status_bad) },
        ],
        None => line,
    }
}

/// Computes [`paper_width`].
pub fn compute_paper_width(c: &LayoutConfig) -> (width: u16)
    ensures
        width == paper_width(*c),
{
    let wide: u32 = c.text_width as u32 + c.pad_left as u32 + c.pad_right as u32 + 2;
    if wide > u16::MAX as u32 {
        u16::MAX
    } else {
        wide as u16
    }
}

/// Computes [`paper_area`].
pub fn compute_paper_area(body: Rect, c: &LayoutConfig) -> (paper: Rect)
    ensures
        paper == paper_area(body, *c),
{
    let width = compute_paper_width(c);
    let x: u32 = if body.width > width {
        body.x as u32 + (body.width - width) as u32 / 2
    } else {
        body.x as u32
    };
    let x: u16 = if x > u16::MAX as u32 {
        u16::MAX
    } else {
        x as u16
    };
    Rect { x, y: body.y, width, height: body.height }
}

/// Computes [`effective_width`].
pub fn compute_effective_width(c: &LayoutConfig) -> (width: usize)
    ensures
        width == effective_width(*c),
        width >= 1,
{
    let paper = compute_paper_width(c) as u32;
    let used: u32 = 2 + c.pad_left as u32 + c.pad_right as u32;
    if paper > used {
        (paper - used) as usize
    } else {
        1
    }
}

/// Computes [`inner_height`].
pub fn compute_inner_height(height: u16, c: &LayoutConfig) -> (rows: usize)
    ensures
        rows == inner_height(height as int, *c),
{
    let used: u32 = 2 + c.pad_top as u32 + c.pad_bottom as u32;
    if height as u32 > used {
        (height as u32 - used) as usize
    } else {
        0
    }
}

/// Computes [`cursor_on_screen`].
pub fn place_cursor(
    paper: Rect,
    c: &LayoutConfig,
    cursor_row: usize,
    cursor_col: usize,
    scroll: usize,
    height: usize,
) -> (at: Option<(u16, u16)>)
    requires
        scroll <= cursor_row,
    ensures
        at == cursor_on_screen(
            paper,
            *c,
            cursor_row as int,
            cursor_col as int,
            scroll as int,
            height as int,
        ),
{
    let row = cursor_row - scroll;
    let limit = u16::MAX as usize;
    if row < height && row <= limit && cursor_col <= limit {
        let x: u32 = paper.x as u32 + 1 + c.pad_left as u32 + cursor_col as u32;
        let y: u32 = paper.y as u32 + c.pad_top as u32 + row as u32;
        if x <= u16::MAX as u32 && y <= u16::MAX as u32 {
            Some((x as u16, y as u16))
        } else {
            None
        }
    } else {
        None
    }
}

/// Builds the header line.
pub fn header_line(theme: &Theme, file_name: Option<&str>) -> (spans: Vec<Span>)
    ensures
        span_views(spans@) == header_spans(
            *theme,
            match file_name {
                Some(name) => Some(name@),
                None => None,
            },
        ),
{
    let mut spans: Vec<Span> = Vec::new();
    assert(span_views(spans@) =~= Seq::<SpanView>::empty());
    push_span(
        &mut spans,
        str_chars(" Clack "),
        Style::new().fg(Color::White).bg(theme.accent).bold(),
    );
    let mut name: Vec<char> = Vec::new();
    name.push(' ');
    match file_name {
        Some(n) => push_str(&mut name, n),
        None => push_str(&mut name, UNTITLED),
    }
    push_span(&mut spans, name, Style::new());
    assert(span_views(spans@) =~= header_spans(
        *theme,
        match file_name {
            Some(name) => Some(name@),
            None => None,
        },
    ));
    spans
}

/// Appends a switch of the footer.
fn push_switch(spans: &mut Vec<Span>, on: bool, theme: &Theme)
    ensures
        span_views(final(spans)@) == span_views(old(spans)@).push(
            SpanView { content: on_off(on), style: switch_style(on, *theme) },
        ),
{
    if on {
        push_span(spans, str_chars("ON"), Style::new().fg(theme.status_ok));
    } else {
        push_span(spans, str_chars("OFF"), Style::new().fg(theme.status_bad));
    }
}

/// Builds the footer line.
pub fn status_line(app: &mut App) -> (spans: Vec<Span>)
    requires
        old(app).wf(),
    ensures
        final(app).wf(),
        final(app)@ == old(app)@,
        span_views(spans@) == footer_spans(old(app)@),
{
    let word_count = app.get_word_count();
    let char_count = app.get_char_count();
    let theme = *app.theme();
    let label = Style::new().fg(theme.header_fg);
    let mut spans: Vec<Span> = Vec::new();
    assert(span_views(spans@) =~= Seq::<SpanView>::empty());
    push_span(&mut spans, str_chars(" TW: "), label);
    push_switch(&mut spans, app.typewriter_mode(), &theme);
    push_span(&mut spans, str_chars(" | "), Style::new());
    push_span(&mut spans, str_chars(" FOC: "), label);
    push_switch(&mut spans, app.focus_mode(), &theme);
    push_span(&mut spans, str_chars(" | "), Style::new());
    push_span(&mut spans, str_chars(" SND: "), label);
    push_switch(&mut spans, app.sound_enabled(), &theme);
    push_span(&mut spans, str_chars(" | "), Style::new());
    let mut counts: Vec<char> = Vec::new();
    push_decimal(&mut counts, word_count);
    push_str(&mut counts, " w / ");
    push_decimal(&mut counts, char_count);
    push_str(&mut counts, " c");
    assert(counts@ =~= counts_text(word_count as nat, char_count as nat));
    push_span(&mut spans, counts, label);
    push_span(&mut spans, str_chars(" | "), Style::new());
    push_span(&mut spans, str_chars("F2:Foc F3:TW F4:Snd F5:Thm"), label);
    match app.status_message() {
        Some(message) => {
            push_span(&mut spans, str_chars(" | "), Style::new());
            push_span(&mut spans, str_chars(message.as_str()), Style::new().fg(theme.status_bad));
        },
        None => {},
    }
    assert(span_views(spans@) =~= footer_spans(app@));
    spans
}

/// The picture of the session on a body area `body`, for a document small
/// enough to be laid out: at most a sixth of the machine's range, counting
/// one more than its characters. `file_name` is the last part of the
/// document's path, if it has one.
pub fn draw(app: &mut App, body: Rect, file_name: Option<&str>) -> (out: Option<Screen>)
    requires
        old(app).wf(),
    ensures
        final(app).wf(),
        final(app)@ == old(app)@,
        out is Some <==> 6 * (old(app)@.text.len() + 1) <= usize::MAX,
        out matches Some(screen) ==> {
            let v = old(app)@;
            let c = v.config.layout;
            let width = effective_width(c);
            let height = inner_height(body.height as int, c);
            &&& screen.text_area == paper_area(body, c)
            &&& row_views(screen.lines@) == visual_rows(v, width)
            &&& screen.scroll_offset == scroll_rows(
                v.typewriter_mode,
                visual_cursor_row(v, width),
                height,
            )
            &&& screen.cursor == cursor_on_screen(
                screen.text_area,
                c,
                visual_cursor_row(v, width),
                visual_cursor_col(v, width),
                screen.scroll_offset as int,
                height,
            )
            &&& span_views(screen.header@) == header_spans(
                v.theme,
                match file_name {
                    Some(name) => Some(name@),
                    None => None,
                },
            )
            &&& span_views(screen.footer@) == footer_spans(v)
        },
{
    let config = app.config().layout;
    let text_area = compute_paper_area(body, &config);
    let effective_width = compute_effective_width(&config);
    let inner_height = compute_inner_height(body.height, &config);
    match try_layout(app, effective_width, inner_height) {
        Some(laid) => {
            let cursor = place_cursor(
                text_area,
                &config,
                laid.cursor_row,
                laid.cursor_col,
                laid.scroll_offset,
                inner_height,
            );
            let header = header_line(app.theme(), file_name);
            let footer = status_line(app);
            Some(
                Screen {
                    text_area,
                    lines: laid.lines,
                    scroll_offset: laid.scroll_offset,
                    cursor,
                    header,
                    footer,
                },
            )
        },
        None => None,
    }
}

} // verus!
