//! The inline emphasis parser.
//!
//! One logical line becomes a sequence of styled runs. The scan is a single
//! pass from left to right and never nests: the first opening marker
//! governs until its own closing marker is found, or until the line ends
//! without one, in which case everything from the marker on is plain text.

use vstd::prelude::*;
use crate::text::{lemma_skip_bounds, skip_left, str_chars};
use crate::theme::{Style, Theme};

verus! {

/// A run of text in one style.
#[derive(Clone, Debug, PartialEq, Eq)]
pub struct Span {
    pub content: Vec<char>,
    pub style: Style,
}

/// What a [`Span`] stands for.
pub ghost struct SpanView {
    pub content: Seq<char>,
    pub style: Style,
}

impl View for Span {
    type V = SpanView;

    open spec fn view(&self) -> SpanView {
        SpanView { content: self.content@, style: self.style }
    }
}

/// The views of a sequence of spans.
pub open spec fn span_views(spans: Seq<Span>) -> Seq<SpanView> {
    spans.map_values(|s: Span| s@)
}

/// The style of markup markers: the guide colour, nothing else.
pub open spec fn marker_style(theme: Theme) -> Style {
    Style::colored(theme.guide_color)
}

/// The style of bold text: the base colour, bold.
pub open spec fn bold_style(theme: Theme) -> Style {
    Style { bold: true, ..Style::colored(theme.base_fg) }
}

/// The style of italic text: the base colour, italic.
pub open spec fn italic_style(theme: Theme) -> Style {
    Style { italic: true, ..Style::colored(theme.base_fg) }
}

/// A low-emphasis run that shows a marker.
pub open spec fn marker_span(text: Seq<char>, theme: Theme) -> SpanView {
    SpanView { content: text, style: marker_style(theme) }
}

/// A bold run.
pub open spec fn bold_span(text: Seq<char>, theme: Theme) -> SpanView {
    SpanView { content: text, style: bold_style(theme) }
}

/// An italic run.
pub open spec fn italic_span(text: Seq<char>, theme: Theme) -> SpanView {
    SpanView { content: text, style: italic_style(theme) }
}

/// A run without styling.
pub open spec fn plain_span(text: Seq<char>) -> SpanView {
    SpanView { content: text, style: Style::plain() }
}

/// The two emphasis markers.
pub open spec fn is_marker(c: char) -> bool {
    c == '*' || c == '_'
}

/// `s` without the whitespace at its end.
pub open spec fn trim_end(s: Seq<char>) -> Seq<char> {
    s.take(skip_left(s, s.len() as int, true))
}

/// The first position at or after `from` that holds a marker, or the end
/// of `s`.
pub open spec fn plain_end(s: Seq<char>, from: int) -> int
    decreases s.len() - from,
{
    if from < 0 || from >= s.len() {
        s.len() as int
    } else if is_marker(s[from]) {
        from
    } else {
        plain_end(s, from + 1)
    }
}

/// The first position at or after `from` that holds `m`, or the end of `s`.
pub open spec fn find_single(s: Seq<char>, from: int, m: char) -> int
    decreases s.len() - from,
{
    if from < 0 || from >= s.len() {
        s.len() as int
    } else if s[from] == m {
        from
    } else {
        find_single(s, from + 1, m)
    }
}

/// The first position at or after `from` where `m` stands twice in a row,
/// or the end of `s`.
pub open spec fn find_double(s: Seq<char>, from: int, m: char) -> int
    decreases s.len() - from,
{
    if from < 0 || from + 1 >= s.len() {
        s.len() as int
    } else if s[from] == m && s[from + 1] == m {
        from
    } else {
        find_double(s, from + 1, m)
    }
}

/// The runs of the body text `s` from position `i` on.
///
/// Text up to the next marker is one plain run. A doubled marker with a
/// doubled closing marker gives marker, bold text, marker; a single marker
/// with a closing marker gives marker, italic text, marker; in both cases
/// the scan goes on behind the closing marker. An opening marker without a
/// closing one gives the marker and the rest of the line as two plain runs.
pub open spec fn parse_from(s: Seq<char>, i: int, theme: Theme) -> Seq<SpanView>
    decreases s.len() - i,
    via parse_from_decreases
{
    if i < 0 || i >= s.len() {
        Seq::empty()
    } else if !is_marker(s[i]) {
        let end = plain_end(s, i + 1);
        seq![plain_span(s.subrange(i, end))] + parse_from(s, end, theme)
    } else if i + 1 < s.len() && s[i + 1] == s[i] {
        let marker = seq![s[i], s[i]];
        let close = find_double(s, i + 2, s[i]);
        if close < s.len() {
            seq![
                marker_span(marker, theme),
                bold_span(s.subrange(i + 2, close), theme),
                marker_span(marker, theme),
            ] + parse_from(s, close + 2, theme)
        } else {
            seq![plain_span(marker), plain_span(s.subrange(i + 2, s.len() as int))]
        }
    } else {
        let marker = seq![s[i]];
        let close = find_single(s, i + 1, s[i]);
        if close < s.len() {
            seq![
                marker_span(marker, theme),
                italic_span(s.subrange(i + 1, close), theme),
                marker_span(marker, theme),
            ] + parse_from(s, close + 1, theme)
        } else {
            seq![plain_span(marker), plain_span(s.subrange(i + 1, s.len() as int))]
        }
    }
}

#[via_fn]
proof fn parse_from_decreases(s: Seq<char>, i: int, theme: Theme) {
    if 0 <= i < s.len() {
        lemma_find_bounds(s, i + 1, s[i]);
        if i + 1 < s.len() {
            lemma_find_bounds(s, i + 2, s[i]);
        }
    }
}

/// The searches move forward and stay within the text.
pub proof fn lemma_find_bounds(s: Seq<char>, from: int, m: char)
    requires
        0 <= from <= s.len(),
    ensures
        from <= plain_end(s, from) <= s.len(),
        from <= find_single(s, from, m) <= s.len(),
        from <= find_double(s, from, m) <= s.len(),
        find_double(s, from, m) < s.len() ==> find_double(s, from, m) + 2 <= s.len(),
    decreases s.len() - from,
{
    if from < s.len() {
        lemma_find_bounds(s, from + 1, m);
    }
}

/// Whether `s` opens with the marker of a first-level header.
pub open spec fn is_header1(s: Seq<char>) -> bool {
    s.len() >= 2 && s[0] == '#' && s[1] == ' '
}

/// Whether `s` opens with the marker of a second-level header.
pub open spec fn is_header2(s: Seq<char>) -> bool {
    s.len() >= 3 && s[0] == '#' && s[1] == '#' && s[2] == ' '
}

/// The runs of one logical line.
///
/// Whitespace at the end of the line is dropped first. A header line is
/// its marker as a low-emphasis run and all the rest as one bold run;
/// any other line is body text.
pub open spec fn line_spans(line: Seq<char>, theme: Theme) -> Seq<SpanView> {
    let s = trim_end(line);
    if is_header2(s) {
        seq![marker_span(s.take(3), theme), bold_span(s.skip(3), theme)]
    } else if is_header1(s) {
        seq![marker_span(s.take(2), theme), bold_span(s.skip(2), theme)]
    } else {
        parse_from(s, 0, theme)
    }
}

/// The characters of the runs `spans`, one after the other.
pub open spec fn spans_text(spans: Seq<SpanView>) -> Seq<char>
    decreases spans.len(),
{
    if spans.len() == 0 {
        Seq::empty()
    } else {
        spans_text(spans.drop_last()) + spans.last().content
    }
}

/// The text of two sequences of runs, one after the other, is the text of
/// the first followed by the text of the second.
pub proof fn lemma_spans_text_concat(a: Seq<SpanView>, b: Seq<SpanView>)
    ensures
        spans_text(a + b) == spans_text(a) + spans_text(b),
    decreases b.len(),
{
    if b.len() == 0 {
        assert(a + b =~= a);
        assert(spans_text(a) + spans_text(b) =~= spans_text(a));
    } else {
        assert((a + b).drop_last() =~= a + b.drop_last());
        lemma_spans_text_concat(a, b.drop_last());
        assert(spans_text(a + b) =~= spans_text(a) + spans_text(b));
    }
}

/// A search that stops within the text has found what it looked for.
pub proof fn lemma_find_hits(s: Seq<char>, from: int, m: char)
    requires
        0 <= from <= s.len(),
    ensures
        find_single(s, from, m) < s.len() ==> s[find_single(s, from, m)] == m,
        find_double(s, from, m) < s.len() ==> s[find_double(s, from, m)] == m && s[find_double(
            s,
            from,
            m,
        ) + 1] == m,
    decreases s.len() - from,
{
    if from < s.len() {
        lemma_find_hits(s, from + 1, m);
    }
}

proof fn lemma_spans_text_one(a: SpanView)
    ensures
        spans_text(seq![a]) == a.content,
{
    reveal_with_fuel(spans_text, 2);
    assert(seq![a].drop_last() =~= Seq::<SpanView>::empty());
    assert(spans_text(seq![a]) =~= a.content);
}

proof fn lemma_spans_text_two(a: SpanView, b: SpanView)
    ensures
        spans_text(seq![a, b]) == a.content + b.content,
{
    let two = seq![a, b];
    assert(two.drop_last() =~= seq![a]);
    lemma_spans_text_one(a);
    assert(spans_text(two) =~= a.content + b.content);
}

proof fn lemma_spans_text_three(a: SpanView, b: SpanView, c: SpanView)
    ensures
        spans_text(seq![a, b, c]) == a.content + b.content + c.content,
{
    let three = seq![a, b, c];
    assert(three.drop_last() =~= seq![a, b]);
    lemma_spans_text_two(a, b);
}

/// The runs of body text spell the text they were parsed from.
pub proof fn lemma_parse_from_text(s: Seq<char>, i: int, theme: Theme)
    requires
        0 <= i <= s.len(),
    ensures
        spans_text(parse_from(s, i, theme)) == s.skip(i),
    decreases s.len() - i,
{
    let n = s.len() as int;
    if i >= n {
        assert(s.skip(i) =~= Seq::<char>::empty());
    } else if !is_marker(s[i]) {
        let end = plain_end(s, i + 1);
        lemma_find_bounds(s, i + 1, s[i]);
        lemma_parse_from_text(s, end, theme);
        let head = seq![plain_span(s.subrange(i, end))];
        lemma_spans_text_concat(head, parse_from(s, end, theme));
        lemma_spans_text_one(head[0]);
        assert(s.subrange(i, end) + s.skip(end) =~= s.skip(i));
    } else if i + 1 < n && s[i + 1] == s[i] {
        let m = s[i];
        let marker = seq![m, m];
        let close = find_double(s, i + 2, m);
        lemma_find_bounds(s, i + 2, m);
        lemma_find_hits(s, i + 2, m);
        if close < n {
            lemma_parse_from_text(s, close + 2, theme);
            let head = seq![
                marker_span(marker, theme),
                bold_span(s.subrange(i + 2, close), theme),
                marker_span(marker, theme),
            ];
            lemma_spans_text_three(head[0], head[1], head[2]);
            lemma_spans_text_concat(head, parse_from(s, close + 2, theme));
            assert(marker + s.subrange(i + 2, close) + marker + s.skip(close + 2) =~= s.skip(i));
        } else {
            lemma_spans_text_two(plain_span(marker), plain_span(s.subrange(i + 2, n)));
            assert(marker + s.subrange(i + 2, n) =~= s.skip(i));
        }
    } else {
        let m = s[i];
        let marker = seq![m];
        let close = find_single(s, i + 1, m);
        lemma_find_bounds(s, i + 1, m);
        lemma_find_hits(s, i + 1, m);
        if close < n {
            lemma_parse_from_text(s, close + 1, theme);
            let head = seq![
                marker_span(marker, theme),
                italic_span(s.subrange(i + 1, close), theme),
                marker_span(marker, theme),
            ];
            lemma_spans_text_three(head[0], head[1], head[2]);
            lemma_spans_text_concat(head, parse_from(s, close + 1, theme));
            assert(marker + s.subrange(i + 1, close) + marker + s.skip(close + 1) =~= s.skip(i));
        } else {
            lemma_spans_text_two(plain_span(marker), plain_span(s.subrange(i + 1, n)));
            assert(marker + s.subrange(i + 1, n) =~= s.skip(i));
        }
    }
}

/// The parser neither drops nor invents a character: the runs of a line
/// spell the line without the whitespace at its end.
pub proof fn lemma_parse_preserves_text(line: Seq<char>, theme: Theme)
    ensures
        spans_text(line_spans(line, theme)) == trim_end(line),
        trim_end(line).len() <= line.len(),
{
    lemma_skip_bounds(line, line.len() as int, true);
    let s = trim_end(line);
    if is_header2(s) {
        lemma_spans_text_two(marker_span(s.take(3), theme), bold_span(s.skip(3), theme));
        assert(s.take(3) + s.skip(3) =~= s);
    } else if is_header1(s) {
        lemma_spans_text_two(marker_span(s.take(2), theme), bold_span(s.skip(2), theme));
        assert(s.take(2) + s.skip(2) =~= s);
    } else {
        lemma_parse_from_text(s, 0, theme);
        assert(s.skip(0) =~= s);
    }
}

/// Copies the characters of `v` from `from` up to `to`.
pub fn copy_range(v: &Vec<char>, from: usize, to: usize) -> (part: Vec<char>)
    requires
        from <= to <= v.len(),
    ensures
        part@ == v@.subrange(from as int, to as int),
{
    let mut part: Vec<char> = Vec::new();
    let mut i: usize = from;
    while i < to
        invariant
            from <= i <= to <= v.len(),
            part@ == v@.subrange(from as int, i as int),
        decreases to - i,
    {
        part.push(v[i]);
        i = i + 1;
    }
    part
}

/// Length of `v` without the whitespace at its end.
pub fn trimmed_len(v: &Vec<char>) -> (n: usize)
    ensures
        n == skip_left(v@, v.len() as int, true),
        n <= v.len(),
{
    let mut n: usize = v.len();
    while n > 0 && v[n - 1].is_whitespace()
        invariant
            n <= v.len(),
            skip_left(v@, n as int, true) == skip_left(v@, v.len() as int, true),
        decreases n,
    {
        n = n - 1;
    }
    n
}

fn locate_plain_end(s: &Vec<char>, from: usize) -> (at: usize)
    requires
        from <= s.len(),
    ensures
        at == plain_end(s@, from as int),
        from <= at <= s.len(),
{
    let mut at: usize = from;
    while at < s.len() && !(s[at] == '*' || s[at] == '_')
        invariant
            from <= at <= s.len(),
            plain_end(s@, at as int) == plain_end(s@, from as int),
        decreases s.len() - at,
    {
        at = at + 1;
    }
    at
}

fn locate_single(s: &Vec<char>, from: usize, m: char) -> (at: usize)
    requires
        from <= s.len(),
    ensures
        at == find_single(s@, from as int, m),
        from <= at <= s.len(),
{
    let mut at: usize = from;
    while at < s.len() && s[at] != m
        invariant
            from <= at <= s.len(),
            find_single(s@, at as int, m) == find_single(s@, from as int, m),
        decreases s.len() - at,
    {
        at = at + 1;
    }
    at
}

fn locate_double(s: &Vec<char>, from: usize, m: char) -> (at: usize)
    requires
        from <= s.len(),
    ensures
        at == find_double(s@, from as int, m),
        from <= at <= s.len(),
        at < s.len() ==> at + 2 <= s.len(),
{
    let n = s.len();
    let mut at: usize = from;
    while at < n && !(at + 1 < n && s[at] == m && s[at + 1] == m)
        invariant
            n == s.len(),
            from <= at <= n,
            at < n ==> find_double(s@, at as int, m) == find_double(s@, from as int, m),
            at == n ==> find_double(s@, from as int, m) == n,
        decreases n - at,
    {
        at = at + 1;
    }
    at
}

pub(crate) fn push_span(spans: &mut Vec<Span>, content: Vec<char>, style: Style)
    ensures
        span_views(final(spans)@) == span_views(old(spans)@).push(
            SpanView { content: content@, style },
        ),
{
    let span = Span { content, style };
    spans.push(span);
    assert(span_views(spans@) =~= span_views(old(spans)@).push(span@));
}

/// Parses the body text `s`.
fn parse_body(s: &Vec<char>, theme: &Theme) -> (spans: Vec<Span>)
    ensures
        span_views(spans@) == parse_from(s@, 0, *theme),
{
    let n = s.len();
    let marker_style = Style::new().fg(theme.guide_color);
    let bold_style = Style::new().fg(theme.base_fg).bold();
    let italic_style = Style::new().fg(theme.base_fg).italic();
    let plain_style = Style::new();
    let mut spans: Vec<Span> = Vec::new();
    let mut i: usize = 0;
    assert(span_views(spans@) =~= Seq::<SpanView>::empty());
    while i < n
        invariant
            n == s.len(),
            i <= n,
            marker_style == self::marker_style(*theme),
            bold_style == self::bold_style(*theme),
            italic_style == self::italic_style(*theme),
            plain_style == Style::plain(),
            span_views(spans@) + parse_from(s@, i as int, *theme) == parse_from(s@, 0, *theme),
        decreases n - i,
    {
        let ghost before = span_views(spans@);
        let c = s[i];
        if !(c == '*' || c == '_') {
            let end = locate_plain_end(s, i + 1);
            push_span(&mut spans, copy_range(s, i, end), plain_style);
            assert(before + parse_from(s@, i as int, *theme) =~= span_views(spans@) + parse_from(
                s@,
                end as int,
                *theme,
            ));
            i = end;
        } else if i + 1 < n && s[i + 1] == c {
            let close = locate_double(s, i + 2, c);
            let mut marker: Vec<char> = Vec::new();
            marker.push(c);
            marker.push(c);
            assert(marker@ =~= seq![c, c]);
            if close < n {
                push_span(&mut spans, marker.clone(), marker_style);
                push_span(&mut spans, copy_range(s, i + 2, close), bold_style);
                push_span(&mut spans, marker, marker_style);
                assert(before + parse_from(s@, i as int, *theme) =~= span_views(spans@)
                    + parse_from(s@, close + 2, *theme));
                i = close + 2;
            } else {
                push_span(&mut spans, marker, plain_style);
                push_span(&mut spans, copy_range(s, i + 2, n), plain_style);
                assert(before + parse_from(s@, i as int, *theme) =~= span_views(spans@));
                i = n;
            }
        } else {
            let close = locate_single(s, i + 1, c);
            let mut marker: Vec<char> = Vec::new();
            marker.push(c);
            assert(marker@ =~= seq![c]);
            if close < n {
                push_span(&mut spans, marker.clone(), marker_style);
                push_span(&mut spans, copy_range(s, i + 1, close), italic_style);
                push_span(&mut spans, marker, marker_style);
                assert(before + parse_from(s@, i as int, *theme) =~= span_views(spans@)
                    + parse_from(s@, close + 1, *theme));
                i = close + 1;
            } else {
                push_span(&mut spans, marker, plain_style);
                push_span(&mut spans, copy_range(s, i + 1, n), plain_style);
                assert(before + parse_from(s@, i as int, *theme) =~= span_views(spans@));
                i = n;
            }
        }
    }
    assert(parse_from(s@, n as int, *theme) =~= Seq::<SpanView>::empty());
    assert(span_views(spans@) + Seq::<SpanView>::empty() =~= span_views(spans@));
    spans
}

/// Parses a line that is given by its characters.
pub fn parse_chars(line: Vec<char>, theme: &Theme) -> (spans: Vec<Span>)
    ensures
        span_views(spans@) == line_spans(line@, *theme),
{
    let mut s = line;
    let n = trimmed_len(&s);
    s.truncate(n);
    assert(s@ == trim_end(line@));
    let marker_style = Style::new().fg(theme.guide_color);
    let bold_style = Style::new().fg(theme.base_fg).bold();
    if n >= 3 && s[0] == '#' && s[1] == '#' && s[2] == ' ' {
        let mut spans: Vec<Span> = Vec::new();
        assert(span_views(spans@) =~= Seq::<SpanView>::empty());
        push_span(&mut spans, copy_range(&s, 0, 3), marker_style);
        push_span(&mut spans, copy_range(&s, 3, n), bold_style);
        assert(span_views(spans@) =~= line_spans(line@, *theme));
        spans
    } else if n >= 2 && s[0] == '#' && s[1] == ' ' {
        let mut spans: Vec<Span> = Vec::new();
        assert(span_views(spans@) =~= Seq::<SpanView>::empty());
        push_span(&mut spans, copy_range(&s, 0, 2), marker_style);
        push_span(&mut spans, copy_range(&s, 2, n), bold_style);
        assert(span_views(spans@) =~= line_spans(line@, *theme));
        spans
    } else {
        parse_body(&s, theme)
    }
}

/// Parses one logical line into styled runs.
pub fn parse_line(line: &str, theme: &Theme) -> (spans: Vec<Span>)
    ensures
        span_views(spans@) == line_spans(line@, *theme),
{
    parse_chars(str_chars(line), theme)
}

} // verus!
