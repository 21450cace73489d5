//! The visual layout: wrapped rows, page separators, the visual cursor and
//! the scroll offset.
//!
//! Nothing is kept between two passes: the rows are computed anew from the
//! document, the cursor and the settings every time.

use vstd::prelude::*;
use crate::app::{App, AppView};
use crate::markdown::{
    lemma_parse_preserves_text, line_spans, marker_style, parse_line, span_views, spans_text,
    trim_end, Span, SpanView,
};
use crate::text::{
    lemma_count_breaks_bound, lemma_line_start, lemma_offset_within_line, line_count, line_start,
    line_text,
};
use crate::theme::{Color, Style, Theme};

verus! {

/// One character on the screen, and the style it is drawn in.
pub type Cell = (char, Style);

/// The rule character that flanks a page separator.
pub const RULE: char = '─';

/// The views of a sequence of rows.
pub open spec fn row_views(rows: Seq<Vec<Cell>>) -> Seq<Seq<Cell>> {
    rows.map_values(|row: Vec<Cell>| row@)
}

/// The style in which a run is drawn. A run without a colour of its own
/// takes the base colour. On a dimmed line the colour gives way to the dim
/// colour and the dim attribute is added; bold and italic stay.
pub open spec fn cell_style(style: Style, theme: Theme, dimmed: bool) -> Style {
    let base = if style.fg is None || style.fg == Some(Color::Reset) {
        Style { fg: Some(theme.base_fg), ..style }
    } else {
        style
    };
    if dimmed {
        Style { fg: Some(theme.dim_text), dim: true, ..base }
    } else {
        base
    }
}

/// The characters of `text`, each in `style`.
pub open spec fn cells_in(text: Seq<char>, style: Style) -> Seq<Cell> {
    text.map_values(|ch: char| (ch, style))
}

/// The characters of the runs `spans`, one after the other, each in the
/// style of its run.
pub open spec fn line_cells(spans: Seq<SpanView>, theme: Theme, dimmed: bool) -> Seq<Cell>
    decreases spans.len(),
{
    if spans.len() == 0 {
        Seq::empty()
    } else {
        line_cells(spans.drop_last(), theme, dimmed) + cells_in(
            spans.last().content,
            cell_style(spans.last().style, theme, dimmed),
        )
    }
}

/// `cells` packed greedily into rows of at most `width` cells. No cells
/// give one empty row.
pub open spec fn wrap(cells: Seq<Cell>, width: int) -> Seq<Seq<Cell>>
    decreases cells.len(),
{
    if width <= 0 || cells.len() <= width {
        seq![cells]
    } else {
        seq![cells.take(width)] + wrap(cells.skip(width), width)
    }
}

/// The character of the digit `d`.
pub open spec fn digit_char(d: int) -> char {
    if d == 0 {
        '0'
    } else if d == 1 {
        '1'
    } else if d == 2 {
        '2'
    } else if d == 3 {
        '3'
    } else if d == 4 {
        '4'
    } else if d == 5 {
        '5'
    } else if d == 6 {
        '6'
    } else if d == 7 {
        '7'
    } else if d == 8 {
        '8'
    } else {
        '9'
    }
}

/// `n` in decimal digits.
pub open spec fn decimal(n: nat) -> Seq<char>
    decreases n,
{
    if n < 10 {
        seq![digit_char(n as int)]
    } else {
        decimal(n / 10).push(digit_char((n % 10) as int))
    }
}

/// The words of a page separator.
pub open spec fn page_label(page: nat) -> Seq<char> {
    seq!['P', 'a', 'g', 'e', ' '] + decimal(page)
}

/// The text of the separator in front of page `page`: the label between
/// two spaces, centred between two rules that fill the row up to `width`
/// characters. The left rule is the shorter one where the two differ, and
/// a row too narrow for any rule holds the label and its spaces alone.
pub open spec fn separator_text(page: nat, width: int) -> Seq<char> {
    let label = page_label(page);
    let rule = if width > label.len() + 2 {
        width - (label.len() + 2)
    } else {
        0
    };
    let left = rule / 2;
    Seq::new(left as nat, |i: int| RULE) + seq![' '] + label + seq![' '] + Seq::new(
        (rule - left) as nat,
        |i: int| RULE,
    )
}

/// The separator row in front of page `page`, in the style of markers.
pub open spec fn separator_row(page: nat, width: int, theme: Theme) -> Seq<Cell> {
    cells_in(separator_text(page, width), marker_style(theme))
}

/// Computes [`cell_style`].
pub fn resolve_style(style: Style, theme: &Theme, dimmed: bool) -> (resolved: Style)
    ensures
        resolved == cell_style(style, *theme, dimmed),
{
    let needs_base = match style.fg {
        None => true,
        Some(Color::Reset) => true,
        Some(_) => false,
    };
    let base = if needs_base {
        style.fg(theme.base_fg)
    } else {
        style
    };
    if dimmed {
        base.fg(theme.dim_text).dim()
    } else {
        base
    }
}

/// Appends the characters of `text`, each in `style`, to `cells`.
fn push_cells(cells: &mut Vec<Cell>, text: &Vec<char>, style: Style)
    ensures
        final(cells)@ == old(cells)@ + cells_in(text@, style),
{
    let mut i: usize = 0;
    while i < text.len()
        invariant
            i <= text.len(),
            cells@ == old(cells)@ + cells_in(text@.take(i as int), style),
        decreases text.len() - i,
    {
        cells.push((text[i], style));
        assert(cells_in(text@.take(i + 1), style) =~= cells_in(text@.take(i as int), style).push(
            (text@[i as int], style),
        ));
        i = i + 1;
    }
    assert(text@.take(text.len() as int) =~= text@);
}

/// Lays the runs of one line out as cells.
pub fn flatten(spans: &Vec<Span>, theme: &Theme, dimmed: bool) -> (cells: Vec<Cell>)
    ensures
        cells@ == line_cells(span_views(spans@), *theme, dimmed),
{
    let mut cells: Vec<Cell> = Vec::new();
    let mut i: usize = 0;
    while i < spans.len()
        invariant
            i <= spans.len(),
            cells@ == line_cells(span_views(spans@.take(i as int)), *theme, dimmed),
        decreases spans.len() - i,
    {
        let style = resolve_style(spans[i].style, theme, dimmed);
        push_cells(&mut cells, &spans[i].content, style);
        proof {
            let next = span_views(spans@.take(i + 1));
            assert(next.drop_last() =~= span_views(spans@.take(i as int)));
            assert(next.last() == spans@[i as int]@);
        }
        i = i + 1;
    }
    assert(spans@.take(spans.len() as int) =~= spans@);
    cells
}

/// Copies the cells of `cells` from `from` up to `to`.
fn copy_cells(cells: &Vec<Cell>, from: usize, to: usize) -> (part: Vec<Cell>)
    requires
        from <= to <= cells.len(),
    ensures
        part@ == cells@.subrange(from as int, to as int),
{
    let mut part: Vec<Cell> = Vec::new();
    let mut i: usize = from;
    while i < to
        invariant
            from <= i <= to <= cells.len(),
            part@ == cells@.subrange(from as int, i as int),
        decreases to - i,
    {
        part.push(cells[i]);
        i = i + 1;
    }
    part
}

/// Appends `row` to `rows`.
fn push_row(rows: &mut Vec<Vec<Cell>>, row: Vec<Cell>)
    ensures
        row_views(final(rows)@) == row_views(old(rows)@).push(row@),
        final(rows)@.len() == old(rows)@.len() + 1,
{
    rows.push(row);
    assert(row_views(rows@) =~= row_views(old(rows)@).push(row@));
}

/// Appends the rows of [`wrap`] to `rows`.
pub fn push_wrapped(rows: &mut Vec<Vec<Cell>>, cells: &Vec<Cell>, width: usize)
    requires
        width >= 1,
    ensures
        row_views(final(rows)@) == row_views(old(rows)@) + wrap(cells@, width as int),
        final(rows)@.len() == old(rows)@.len() + wrap(cells@, width as int).len(),
{
    let n = cells.len();
    let mut start: usize = 0;
    assert(cells@.skip(0) =~= cells@);
    while n - start > width
        invariant
            n == cells.len(),
            width >= 1,
            start <= n,
            row_views(rows@) + wrap(cells@.skip(start as int), width as int) == row_views(
                old(rows)@,
            ) + wrap(cells@, width as int),
            rows@.len() + wrap(cells@.skip(start as int), width as int).len() == old(rows)@.len()
                + wrap(cells@, width as int).len(),
        decreases n - start,
    {
        let ghost before = row_views(rows@);
        let ghost rest = cells@.skip(start as int);
        push_row(rows, copy_cells(cells, start, start + width));
        proof {
            assert(rest.take(width as int) =~= cells@.subrange(
                start as int,
                start + width as int,
            ));
            assert(rest.skip(width as int) =~= cells@.skip(start + width));
            assert(before + wrap(rest, width as int) =~= row_views(rows@) + wrap(
                cells@.skip(start + width),
                width as int,
            ));
        }
        start = start + width;
    }
    let ghost before = row_views(rows@);
    push_row(rows, copy_cells(cells, start, n));
    proof {
        let rest = cells@.skip(start as int);
        assert(rest =~= cells@.subrange(start as int, n as int));
        assert(before + wrap(rest, width as int) =~= row_views(rows@));
    }
}

/// The character of the digit `d`.
fn digit(d: usize) -> (c: char)
    requires
        d < 10,
    ensures
        c == digit_char(d as int),
{
    if d == 0 {
        '0'
    } else if d == 1 {
        '1'
    } else if d == 2 {
        '2'
    } else if d == 3 {
        '3'
    } else if d == 4 {
        '4'
    } else if d == 5 {
        '5'
    } else if d == 6 {
        '6'
    } else if d == 7 {
        '7'
    } else if d == 8 {
        '8'
    } else {
        '9'
    }
}

/// Appends `n` in decimal digits to `out`.
pub fn push_decimal(out: &mut Vec<char>, n: usize)
    ensures
        final(out)@ == old(out)@ + decimal(n as nat),
    decreases n,
{
    if n >= 10 {
        push_decimal(out, n / 10);
    }
    out.push(digit(n % 10));
    assert(out@ =~= old(out)@ + decimal(n as nat));
}

/// Builds the separator row in front of page `page`.
pub fn separator(page: usize, width: usize, theme: &Theme) -> (row: Vec<Cell>)
    ensures
        row@ == separator_row(page as nat, width as int, *theme),
{
    let mut label: Vec<char> = Vec::new();
    label.push('P');
    label.push('a');
    label.push('g');
    label.push('e');
    label.push(' ');
    push_decimal(&mut label, page);
    assert(label@ =~= page_label(page as nat));
    let used = label.len();
    let rule: usize = if used <= usize::MAX - 2 && width > used + 2 {
        width - (used + 2)
    } else {
        0
    };
    let left = rule / 2;
    let right = rule - left;
    let mut text: Vec<char> = Vec::new();
    let mut i: usize = 0;
    while i < left
        invariant
            i <= left,
            text@ == Seq::new(i as nat, |k: int| RULE),
        decreases left - i,
    {
        text.push(RULE);
        assert(text@ =~= Seq::new((i + 1) as nat, |k: int| RULE));
        i = i + 1;
    }
    text.push(' ');
    let mut j: usize = 0;
    while j < used
        invariant
            j <= used,
            used == label.len(),
            text@ == Seq::new(left as nat, |k: int| RULE) + seq![' '] + label@.take(j as int),
        decreases used - j,
    {
        text.push(label[j]);
        assert(text@ =~= Seq::new(left as nat, |k: int| RULE) + seq![' '] + label@.take(j + 1));
        j = j + 1;
    }
    assert(label@.take(used as int) =~= label@);
    text.push(' ');
    let ghost head = text@;
    let mut k: usize = 0;
    while k < right
        invariant
            k <= right,
            text@ == head + Seq::new(k as nat, |m: int| RULE),
        decreases right - k,
    {
        text.push(RULE);
        assert(text@ =~= head + Seq::new((k + 1) as nat, |m: int| RULE));
        k = k + 1;
    }
    assert(text@ =~= separator_text(page as nat, width as int));
    let style = Style::new().fg(theme.guide_color);
    let mut row: Vec<Cell> = Vec::new();
    push_cells(&mut row, &text, style);
    row
}

/// What one layout pass hands to the renderer.
#[derive(Clone, Debug, PartialEq, Eq)]
pub struct VisualLayout {
    /// The visual rows, top to bottom.
    pub lines: Vec<Vec<Cell>>,
    /// The visual row of the cursor.
    pub cursor_row: usize,
    /// The visual column of the cursor.
    pub cursor_col: usize,
    /// Number of rows that are scrolled out at the top.
    pub scroll_offset: usize,
}

/// A width or a height of nothing counts as one.
pub open spec fn at_least_one(n: int) -> int {
    if n < 1 {
        1
    } else {
        n
    }
}

/// Whether line `row` is dimmed: in focus mode, every line but the
/// cursor's.
pub open spec fn is_dimmed(v: AppView, row: nat) -> bool {
    v.focus_mode && row != v.row()
}

/// The wrapped rows of line `row`.
pub open spec fn wrapped_rows(v: AppView, row: nat, width: int) -> Seq<Seq<Cell>> {
    wrap(
        line_cells(line_spans(line_text(v.text, row), v.theme), v.theme, is_dimmed(v, row)),
        width,
    )
}

/// The blank row that double spacing puts behind every line.
pub open spec fn spacing_rows(v: AppView) -> Seq<Seq<Cell>> {
    if v.double_spacing {
        seq![Seq::empty()]
    } else {
        Seq::empty()
    }
}

/// Whether line `row` is the last of its page.
pub open spec fn ends_page(v: AppView, row: nat) -> bool {
    (row + 1) as int % (v.config.typewriter.lines_per_page as int) == 0
}

/// The number of the page that starts behind line `row`.
pub open spec fn next_page(v: AppView, row: nat) -> nat {
    ((row + 1) as int / (v.config.typewriter.lines_per_page as int) + 1) as nat
}

/// The rows between two pages, behind the last line of a page: a blank
/// row, the separator of the next page, a blank row.
pub open spec fn page_break_rows(v: AppView, row: nat, width: int) -> Seq<Seq<Cell>> {
    if ends_page(v, row) {
        seq![Seq::empty(), separator_row(next_page(v, row), width, v.theme), Seq::empty()]
    } else {
        Seq::empty()
    }
}

/// The rows that line `row` has of its own: its wrapped rows, the blank
/// row of double spacing, and the page break.
pub open spec fn line_rows(v: AppView, row: nat, width: int) -> Seq<Seq<Cell>> {
    wrapped_rows(v, row, width) + spacing_rows(v) + page_break_rows(v, row, width)
}

/// Whether the cursor stands on line `row` and past the rows the line has
/// of its own.
pub open spec fn needs_cursor_row(v: AppView, row: nat, width: int) -> bool {
    row == v.row() && v.col() / width >= line_rows(v, row, width).len()
}

/// All rows that line `row` gives: its own, and one more blank row where
/// the cursor needs it.
pub open spec fn line_block(v: AppView, row: nat, width: int) -> Seq<Seq<Cell>> {
    if needs_cursor_row(v, row, width) {
        line_rows(v, row, width).push(Seq::empty())
    } else {
        line_rows(v, row, width)
    }
}

/// The rows of all lines before line `row`.
pub open spec fn rows_before(v: AppView, row: nat, width: int) -> Seq<Seq<Cell>>
    decreases row,
{
    if row == 0 {
        Seq::empty()
    } else {
        rows_before(v, (row - 1) as nat, width) + line_block(v, (row - 1) as nat, width)
    }
}

/// The rows of the whole document.
pub open spec fn visual_rows(v: AppView, width: int) -> Seq<Seq<Cell>> {
    rows_before(v, line_count(v.text), width)
}

/// The visual row of the cursor: the first row of its line, and one row
/// further for every full width of its column.
pub open spec fn visual_cursor_row(v: AppView, width: int) -> int {
    rows_before(v, v.row(), width).len() + v.col() / width
}

/// The visual column of the cursor.
pub open spec fn visual_cursor_col(v: AppView, width: int) -> int {
    v.col() % width
}

/// Number of rows that are scrolled out at the top of a viewport of
/// `height` rows. In typewriter mode the cursor's row stays on the middle
/// row once it has got past it. Otherwise the view follows the cursor: it
/// scrolls by as little as keeps the cursor's row on the last row in view.
pub open spec fn scroll_rows(typewriter: bool, cursor_row: int, height: int) -> int {
    let height = at_least_one(height);
    if typewriter {
        if cursor_row > height / 2 {
            cursor_row - height / 2
        } else {
            0
        }
    } else {
        if cursor_row >= height {
            cursor_row - height + 1
        } else {
            0
        }
    }
}

/// Whether the row numbers of the layout are ones that the machine can
/// count: the cursor's visual row, and the number of the page behind the
/// last line.
pub open spec fn layout_fits(v: AppView, width: int) -> bool {
    &&& visual_cursor_row(v, width) <= usize::MAX
    &&& line_count(v.text) < usize::MAX
}

/// The rows of `rows`, one after the other.
pub open spec fn joined(rows: Seq<Seq<Cell>>) -> Seq<Cell>
    decreases rows.len(),
{
    if rows.len() == 0 {
        Seq::empty()
    } else {
        rows[0] + joined(rows.drop_first())
    }
}

/// Wrapping loses nothing and keeps the order: there is at least one row,
/// no row is wider than `width`, no more rows than cells where there are
/// cells, and the rows one after the other are the cells.
pub proof fn lemma_wrap(cells: Seq<Cell>, width: int)
    requires
        width >= 1,
    ensures
        1 <= wrap(cells, width).len(),
        wrap(cells, width).len() <= cells.len() || wrap(cells, width).len() == 1,
        forall|k: int| 0 <= k < wrap(cells, width).len() ==> #[trigger] wrap(cells, width)[k].len()
            <= width,
        joined(wrap(cells, width)) == cells,
    decreases cells.len(),
{
    let rows = wrap(cells, width);
    if cells.len() <= width {
        assert(rows.drop_first() =~= Seq::<Seq<Cell>>::empty());
        assert(joined(rows) =~= cells) by {
            reveal_with_fuel(joined, 2);
        }
    } else {
        let rest = cells.skip(width);
        lemma_wrap(rest, width);
        assert(rows.drop_first() =~= wrap(rest, width));
        assert(rows[0] == cells.take(width));
        assert(cells.take(width) + rest =~= cells);
        assert forall|k: int| 0 <= k < rows.len() implies #[trigger] rows[k].len() <= width by {
            if k > 0 {
                assert(rows[k] == wrap(rest, width)[k - 1]);
            }
        }
    }
}

/// The characters of `cells`, without their styles.
pub open spec fn cell_chars(cells: Seq<Cell>) -> Seq<char> {
    cells.map_values(|cell: Cell| cell.0)
}

/// A line's cells spell the text of its runs.
pub proof fn lemma_line_cells_chars(spans: Seq<SpanView>, theme: Theme, dimmed: bool)
    ensures
        cell_chars(line_cells(spans, theme, dimmed)) == spans_text(spans),
        line_cells(spans, theme, dimmed).len() == spans_text(spans).len(),
    decreases spans.len(),
{
    if spans.len() > 0 {
        lemma_line_cells_chars(spans.drop_last(), theme, dimmed);
        let head = line_cells(spans.drop_last(), theme, dimmed);
        let tail = cells_in(spans.last().content, cell_style(spans.last().style, theme, dimmed));
        assert(cell_chars(tail) =~= spans.last().content);
        assert(cell_chars(head + tail) =~= cell_chars(head) + cell_chars(tail));
    }
    assert(cell_chars(line_cells(spans, theme, dimmed)).len() == line_cells(
        spans,
        theme,
        dimmed,
    ).len());
}

/// The wrapped rows of a line, one after the other, spell the line without
/// the whitespace at its end: the layout shows every character of the
/// document's line, once and in order.
pub proof fn lemma_rows_spell_the_line(v: AppView, row: nat, width: int)
    requires
        width >= 1,
    ensures
        cell_chars(joined(wrapped_rows(v, row, width))) == trim_end(line_text(v.text, row)),
{
    let line = line_text(v.text, row);
    let spans = line_spans(line, v.theme);
    lemma_parse_preserves_text(line, v.theme);
    lemma_line_cells_chars(spans, v.theme, is_dimmed(v, row));
    lemma_wrap(line_cells(spans, v.theme, is_dimmed(v, row)), width);
}

/// A line has at least one row of its own, and no more rows than it has
/// characters, but for the five rows that an empty line, double spacing
/// and a page break can add.
pub proof fn lemma_line_rows_len(v: AppView, row: nat, width: int)
    requires
        width >= 1,
    ensures
        1 <= line_rows(v, row, width).len() <= line_text(v.text, row).len() + 5,
{
    let line = line_text(v.text, row);
    let spans = line_spans(line, v.theme);
    lemma_parse_preserves_text(line, v.theme);
    lemma_line_cells_chars(spans, v.theme, is_dimmed(v, row));
    lemma_wrap(line_cells(spans, v.theme, is_dimmed(v, row)), width);
}

/// The rows before a line at or above the cursor's are no more than the
/// characters before the line and five for every line.
pub proof fn lemma_rows_before_len(v: AppView, row: nat, width: int)
    requires
        width >= 1,
        row <= v.row(),
    ensures
        rows_before(v, row, width).len() <= line_start(v.text, row) + 5 * row,
    decreases row,
{
    if row > 0 {
        let prev = (row - 1) as nat;
        lemma_rows_before_len(v, prev, width);
        lemma_line_rows_len(v, prev, width);
        lemma_line_start(v.text, prev);
        lemma_line_start(v.text, row);
    }
}

/// A document of a sixth of the machine's range fits, whatever the width.
pub proof fn lemma_layout_fits(v: AppView, width: int)
    requires
        v.inv(),
        width >= 1,
        6 * (v.text.len() + 1) <= usize::MAX,
    ensures
        layout_fits(v, width),
{
    lemma_rows_before_len(v, v.row(), width);
    lemma_offset_within_line(v.text, v.cursor);
    lemma_count_breaks_bound(v.text);
    assert(0 <= v.col() / width <= v.col()) by (nonlinear_arith)
        requires
            v.col() >= 0,
            width >= 1,
    ;
}

/// The row at which a viewport starts before any scrolling.
pub fn scroll_state_val(_y: usize, _h: usize) -> (first: usize)
    ensures
        first == 0,
{
    0
}

/// Computes [`scroll_rows`].
pub fn scroll_offset(typewriter: bool, cursor_row: usize, height: usize) -> (offset: usize)
    ensures
        offset == scroll_rows(typewriter, cursor_row as int, height as int),
{
    let inner_height = if height < 1 {
        1
    } else {
        height
    };
    if typewriter {
        let center_line = inner_height / 2;
        if cursor_row > center_line {
            cursor_row - center_line
        } else {
            0
        }
    } else {
        if cursor_row - scroll_state_val(cursor_row, inner_height) >= inner_height {
            cursor_row - inner_height + 1
        } else {
            0
        }
    }
}

/// Lays the document out in rows of `width` characters for a viewport of
/// `height` rows.
pub fn layout(app: &App, width: usize, height: usize) -> (out: VisualLayout)
    requires
        app.wf(),
        layout_fits(app@, at_least_one(width as int)),
    ensures
        row_views(out.lines@) == visual_rows(app@, at_least_one(width as int)),
        out.cursor_row == visual_cursor_row(app@, at_least_one(width as int)),
        out.cursor_col == visual_cursor_col(app@, at_least_one(width as int)),
        out.scroll_offset == scroll_rows(
            app@.typewriter_mode,
            out.cursor_row as int,
            height as int,
        ),
{
    let effective_width = if width < 1 {
        1
    } else {
        width
    };
    let ghost v = app@;
    let ghost w = effective_width as int;
    let (cursor_col, cursor_row) = app.get_cursor_position();
    let theme = app.theme();
    let lines_per_page = app.config().typewriter.lines_per_page;
    let focus_mode = app.focus_mode();
    let double_spacing = app.double_spacing();
    let count = app.len_lines();
    let mut visual_lines: Vec<Vec<Cell>> = Vec::new();
    let mut visual_cursor_y: usize = 0;
    let mut visual_cursor_x: usize = 0;
    let mut i: usize = 0;
    assert(row_views(visual_lines@) =~= rows_before(v, 0, w));
    while i < count
        invariant
            app.wf(),
            v == app@,
            w == effective_width as int,
            w >= 1,
            *theme == v.theme,
            lines_per_page == v.config.typewriter.lines_per_page,
            focus_mode == v.focus_mode,
            double_spacing == v.double_spacing,
            cursor_col == v.col(),
            cursor_row == v.row(),
            cursor_row < count,
            count == line_count(v.text),
            i <= count,
            layout_fits(v, w),
            row_views(visual_lines@) == rows_before(v, i as nat, w),
            i > cursor_row ==> visual_cursor_y == visual_cursor_row(v, w) && visual_cursor_x
                == visual_cursor_col(v, w),
        decreases count - i,
    {
        let ghost before = row_views(visual_lines@);
        let line = app.line(i);
        let parsed_line = parse_line(line.as_str(), theme);
        let dimmed = focus_mode && i != cursor_row;
        let cells = flatten(&parsed_line, theme, dimmed);
        let start_index = visual_lines.len();
        assert(start_index == before.len());
        push_wrapped(&mut visual_lines, &cells, effective_width);
        if double_spacing {
            push_row(&mut visual_lines, Vec::new());
        }
        assert(row_views(visual_lines@) =~= before + wrapped_rows(v, i as nat, w) + spacing_rows(
            v,
        ));
        if (i + 1) % lines_per_page == 0 {
            push_row(&mut visual_lines, Vec::new());
            push_row(&mut visual_lines, separator((i + 1) / lines_per_page + 1, effective_width, theme));
            push_row(&mut visual_lines, Vec::new());
        }
        assert(row_views(visual_lines@) =~= before + line_rows(v, i as nat, w));
        if i == cursor_row {
            let row_offset = cursor_col / effective_width;
            let target_visual_row_idx = start_index + row_offset;
            if target_visual_row_idx >= visual_lines.len() {
                push_row(&mut visual_lines, Vec::new());
            }
            visual_cursor_y = target_visual_row_idx;
            visual_cursor_x = cursor_col % effective_width;
        }
        assert(row_views(visual_lines@) =~= before + line_block(v, i as nat, w));
        i = i + 1;
    }
    let scroll = scroll_offset(app.typewriter_mode(), visual_cursor_y, height);
    VisualLayout {
        lines: visual_lines,
        cursor_row: visual_cursor_y,
        cursor_col: visual_cursor_x,
        scroll_offset: scroll,
    }
}

/// Lays the document out if it is small enough to be sure that it fits:
/// at most a sixth of the machine's range, counting one more than its
/// characters.
pub fn try_layout(app: &mut App, width: usize, height: usize) -> (out: Option<VisualLayout>)
    requires
        old(app).wf(),
    ensures
        final(app).wf(),
        final(app)@ == old(app)@,
        out is Some <==> 6 * (old(app)@.text.len() + 1) <= usize::MAX,
        out matches Some(l) ==> {
            let w = at_least_one(width as int);
            &&& row_views(l.lines@) == visual_rows(old(app)@, w)
            &&& l.cursor_row == visual_cursor_row(old(app)@, w)
            &&& l.cursor_col == visual_cursor_col(old(app)@, w)
            &&& l.scroll_offset == scroll_rows(
                old(app)@.typewriter_mode,
                l.cursor_row as int,
                height as int,
            )
        },
{
    let chars = app.get_char_count();
    if chars < usize::MAX / 6 {
        proof {
            lemma_layout_fits(app@, at_least_one(width as int));
        }
        Some(layout(app, width, height))
    } else {
        None
    }
}

} // verus!
