//! Layout and typewriter settings.

use vstd::prelude::*;

verus! {

/// Text area and layout settings.
#[derive(Clone, Copy, Debug, PartialEq, Eq)]
pub struct LayoutConfig {
    /// Target width of the text area, in characters.
    pub text_width: u16,
    /// Left padding inside the paper border.
    pub pad_left: u16,
    /// Right padding inside the paper border.
    pub pad_right: u16,
    /// Top padding inside the paper border.
    pub pad_top: u16,
    /// Bottom padding inside the paper border.
    pub pad_bottom: u16,
    /// Whether a margin guide is shown at the bell column.
    pub show_margin_guide: bool,
    /// Whether the paper is drawn with decorated borders.
    pub fancy_borders: bool,
}

impl Default for LayoutConfig {
    fn default() -> (c: Self)
        ensures
            c.text_width == 80,
            c.pad_left == 2,
            c.pad_right == 2,
            c.pad_top == 1,
            c.pad_bottom == 1,
            c.show_margin_guide,
            c.fancy_borders,
    {
        LayoutConfig {
            text_width: 80,
            pad_left: 2,
            pad_right: 2,
            pad_top: 1,
            pad_bottom: 1,
            show_margin_guide: true,
            fancy_borders: true,
        }
    }
}

/// Typewriter behaviour settings.
#[derive(Clone, Copy, Debug, PartialEq, Eq)]
pub struct TypewriterConfig {
    /// Line length at which the bell rings and typing stops.
    pub bell_column: usize,
    /// Number of logical lines on one page.
    pub lines_per_page: usize,
    /// Pause, in milliseconds, while a new page is fed.
    pub page_feed_pause_ms: u64,
}

impl Default for TypewriterConfig {
    fn default() -> (c: Self)
        ensures
            c.bell_column == 72,
            c.lines_per_page == 54,
            c.page_feed_pause_ms == 350,
    {
        TypewriterConfig { bell_column: 72, lines_per_page: 54, page_feed_pause_ms: 350 }
    }
}

/// All settings of one editing session.
#[derive(Clone, Copy, Debug, PartialEq, Eq)]
pub struct Config {
    pub layout: LayoutConfig,
    pub typewriter: TypewriterConfig,
}

impl Default for Config {
    fn default() -> (c: Self)
        ensures
            c == Config::defaults(),
    {
        Config { layout: LayoutConfig::default(), typewriter: TypewriterConfig::default() }
    }
}

impl Config {
    /// The documented default settings.
    pub open spec fn defaults() -> Config {
        Config {
            layout: LayoutConfig {
                text_width: 80,
                pad_left: 2,
                pad_right: 2,
                pad_top: 1,
                pad_bottom: 1,
                show_margin_guide: true,
                fancy_borders: true,
            },
            typewriter: TypewriterConfig {
                bell_column: 72,
                lines_per_page: 54,
                page_feed_pause_ms: 350,
            },
        }
    }

    /// A page holds at least one line.
    pub open spec fn valid(self) -> bool {
        self.typewriter.lines_per_page >= 1
    }

    /// Builds the default settings.
    pub fn new() -> (c: Self)
        ensures
            c == Config::defaults(),
            c.valid(),
    {
        Config::default()
    }
}

} // verus!
