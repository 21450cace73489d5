//! Colours, text styles and the three palettes.

use vstd::prelude::*;
use crate::text::str_chars;

verus! {

/// A terminal colour.
#[derive(Clone, Copy, Debug, PartialEq, Eq)]
pub enum Color {
    /// The terminal's own default.
    Reset,
    Black,
    Red,
    Green,
    Blue,
    DarkGray,
    White,
    Rgb(u8, u8, u8),
}

/// How a piece of text is drawn.
#[derive(Clone, Copy, Debug, PartialEq, Eq)]
pub struct Style {
    /// Foreground colour; `None` leaves the choice to the surroundings.
    pub fg: Option<Color>,
    /// Background colour; `None` leaves the choice to the surroundings.
    pub bg: Option<Color>,
    pub bold: bool,
    pub italic: bool,
    pub dim: bool,
}

impl Style {
    /// The style that sets nothing.
    pub open spec fn plain() -> Style {
        Style { fg: None, bg: None, bold: false, italic: false, dim: false }
    }

    /// The plain style with a foreground colour.
    pub open spec fn colored(fg: Color) -> Style {
        Style { fg: Some(fg), ..Style::plain() }
    }

    /// Builds the style that sets nothing.
    pub fn new() -> (s: Style)
        ensures
            s == Style::plain(),
    {
        Style { fg: None, bg: None, bold: false, italic: false, dim: false }
    }

    /// This style with the foreground colour `color`.
    pub fn fg(self, color: Color) -> (s: Style)
        ensures
            s == (Style { fg: Some(color), ..self }),
    {
        Style { fg: Some(color), bg: self.bg, bold: self.bold, italic: self.italic, dim: self.dim }
    }

    /// This style with the background colour `color`.
    pub fn bg(self, color: Color) -> (s: Style)
        ensures
            s == (Style { bg: Some(color), ..self }),
    {
        Style { fg: self.fg, bg: Some(color), bold: self.bold, italic: self.italic, dim: self.dim }
    }

    /// This style, bold.
    pub fn bold(self) -> (s: Style)
        ensures
            s == (Style { bold: true, ..self }),
    {
        Style { fg: self.fg, bg: self.bg, bold: true, italic: self.italic, dim: self.dim }
    }

    /// This style, italic.
    pub fn italic(self) -> (s: Style)
        ensures
            s == (Style { italic: true, ..self }),
    {
        Style { fg: self.fg, bg: self.bg, bold: self.bold, italic: true, dim: self.dim }
    }

    /// This style, dimmed.
    pub fn dim(self) -> (s: Style)
        ensures
            s == (Style { dim: true, ..self }),
    {
        Style { fg: self.fg, bg: self.bg, bold: self.bold, italic: self.italic, dim: true }
    }
}

/// One palette.
#[derive(Clone, Copy, Debug, PartialEq, Eq)]
pub struct Theme {
    pub _name: &'static str,
    pub base_bg: Color,
    pub base_fg: Color,
    pub paper_bg: Color,
    pub border: Color,
    pub header_bg: Color,
    pub header_fg: Color,
    /// Title and active toggles.
    pub accent: Color,
    /// Lines out of focus.
    pub dim_text: Color,
    /// Margin guide and markup markers.
    pub guide_color: Color,
    pub status_ok: Color,
    pub status_bad: Color,
}

/// Whether `a` and `b` hold the same characters.
pub fn same_text(a: &str, b: &str) -> (same: bool)
    ensures
        same == (a@ == b@),
{
    let left = str_chars(a);
    let right = str_chars(b);
    if left.len() != right.len() {
        return false;
    }
    let mut i: usize = 0;
    while i < left.len()
        invariant
            left@ == a@,
            right@ == b@,
            left.len() == right.len(),
            i <= left.len(),
            left@.take(i as int) == right@.take(i as int),
        decreases left.len() - i,
    {
        if left[i] != right[i] {
            return false;
        }
        assert(left@.take(i + 1) =~= left@.take(i as int).push(left@[i as int]));
        assert(right@.take(i + 1) =~= right@.take(i as int).push(right@[i as int]));
        i = i + 1;
    }
    assert(left@.take(left.len() as int) =~= left@);
    assert(right@.take(right.len() as int) =~= right@);
    true
}

/// The names of the palettes, in cycling order.
#[derive(Clone, Copy, Debug, PartialEq, Eq)]
pub enum ThemeType {
    Dark,
    Light,
    Retro,
}

impl ThemeType {
    /// The palette after this one: dark, light, retro, and dark again.
    pub open spec fn successor(self) -> ThemeType {
        match self {
            ThemeType::Dark => ThemeType::Light,
            ThemeType::Light => ThemeType::Retro,
            ThemeType::Retro => ThemeType::Dark,
        }
    }

    /// The palette that a preference names: `light` and `retro` name
    /// theirs, and every other word names the dark palette.
    pub open spec fn named(selector: Seq<char>) -> ThemeType {
        if selector == "light"@ {
            ThemeType::Light
        } else if selector == "retro"@ {
            ThemeType::Retro
        } else {
            ThemeType::Dark
        }
    }

    /// Reads a theme selector.
    pub fn from_selector(selector: &str) -> (t: Self)
        ensures
            t == ThemeType::named(selector@),
    {
        if same_text(selector, "light") {
            ThemeType::Light
        } else if same_text(selector, "retro") {
            ThemeType::Retro
        } else {
            ThemeType::Dark
        }
    }

    /// Steps to the next palette.
    pub fn next(&self) -> (t: Self)
        ensures
            t == self.successor(),
    {
        match self {
            ThemeType::Dark => ThemeType::Light,
            ThemeType::Light => ThemeType::Retro,
            ThemeType::Retro => ThemeType::Dark,
        }
    }
}

impl Theme {
    /// The palette that goes by the name `kind`.
    pub open spec fn palette(kind: ThemeType) -> Theme {
        match kind {
            ThemeType::Dark => Theme {
                _name: "Dark",
                base_bg: Color::Reset,
                base_fg: Color::White,
                paper_bg: Color::Reset,
                border: Color::DarkGray,
                header_bg: Color::DarkGray,
                header_fg: Color::White,
                accent: Color::Blue,
                dim_text: Color::Rgb(50, 50, 50),
                guide_color: Color::DarkGray,
                status_ok: Color::Green,
                status_bad: Color::Red,
            },
            ThemeType::Light => Theme {
                _name: "Paper",
                base_bg: Color::Rgb(30, 30, 30),
                base_fg: Color::Black,
                paper_bg: Color::Rgb(253, 246, 227),
                border: Color::Rgb(180, 170, 150),
                header_bg: Color::Rgb(238, 232, 213),
                header_fg: Color::Black,
                accent: Color::Rgb(38, 139, 210),
                dim_text: Color::Rgb(200, 200, 190),
                guide_color: Color::Rgb(180, 170, 150),
                status_ok: Color::Rgb(133, 153, 0),
                status_bad: Color::Rgb(220, 50, 47),
            },
            ThemeType::Retro => Theme {
                _name: "Retro",
                base_bg: Color::Black,
                base_fg: Color::Rgb(255, 176, 0),
                paper_bg: Color::Black,
                border: Color::Rgb(100, 70, 0),
                header_bg: Color::Rgb(40, 30, 0),
                header_fg: Color::Rgb(255, 176, 0),
                accent: Color::Rgb(255, 176, 0),
                dim_text: Color::Rgb(100, 70, 0),
                guide_color: Color::Rgb(100, 70, 0),
                status_ok: Color::Rgb(255, 176, 0),
                status_bad: Color::Red,
            },
        }
    }

    /// White on the terminal's own background.
    pub fn dark() -> (t: Self)
        ensures
            t == Theme::palette(ThemeType::Dark),
    {
        Theme {
            _name: "Dark",
            base_bg: Color::Reset,
            base_fg: Color::White,
            paper_bg: Color::Reset,
            border: Color::DarkGray,
            header_bg: Color::DarkGray,
            header_fg: Color::White,
            accent: Color::Blue,
            dim_text: Color::Rgb(50, 50, 50),
            guide_color: Color::DarkGray,
            status_ok: Color::Green,
            status_bad: Color::Red,
        }
    }

    /// Black on cream paper, on a dark desk.
    pub fn light() -> (t: Self)
        ensures
            t == Theme::palette(ThemeType::Light),
    {
        Theme {
            _name: "Paper",
            base_bg: Color::Rgb(30, 30, 30),
            base_fg: Color::Black,
            paper_bg: Color::Rgb(253, 246, 227),
            border: Color::Rgb(180, 170, 150),
            header_bg: Color::Rgb(238, 232, 213),
            header_fg: Color::Black,
            accent: Color::Rgb(38, 139, 210),
            dim_text: Color::Rgb(200, 200, 190),
            guide_color: Color::Rgb(180, 170, 150),
            status_ok: Color::Rgb(133, 153, 0),
            status_bad: Color::Rgb(220, 50, 47),
        }
    }

    /// Amber on black.
    pub fn retro() -> (t: Self)
        ensures
            t == Theme::palette(ThemeType::Retro),
    {
        let amber = Color::Rgb(255, 176, 0);
        let dim_amber = Color::Rgb(100, 70, 0);
        Theme {
            _name: "Retro",
            base_bg: Color::Black,
            base_fg: amber,
            paper_bg: Color::Black,
            border: dim_amber,
            header_bg: Color::Rgb(40, 30, 0),
            header_fg: amber,
            accent: amber,
            dim_text: dim_amber,
            guide_color: dim_amber,
            status_ok: amber,
            status_bad: Color::Red,
        }
    }

    /// Builds the palette that goes by the name `kind`.
    pub fn for_type(kind: ThemeType) -> (t: Self)
        ensures
            t == Theme::palette(kind),
    {
        match kind {
            ThemeType::Dark => Theme::dark(),
            ThemeType::Light => Theme::light(),
            ThemeType::Retro => Theme::retro(),
        }
    }
}

} // verus!
