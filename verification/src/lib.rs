//! Clack: the editing core of a typewriter-style text editor.
//!
//! The crate holds a document with a single cursor, an inline emphasis
//! parser, and the layout engine that re-flows the document into wrapped,
//! paginated visual rows. Its functions are verified against contracts
//! stated over the character sequence of the document.
//!
//! - [`text`]: lines, columns and words of a character sequence.
//! - [`rope`]: the document store, `ropey::Rope`, and what is taken on
//!   trust about it.
//! - [`model`]: the session as a value, and what every operation makes of
//!   it.
//! - [`app`]: the session itself.
//! - [`input`]: what each key does.
//! - [`markdown`]: the inline emphasis parser.
//! - [`layout`]: wrapping, pagination, the visual cursor and scrolling.
//! - [`ui`]: the picture of one frame.
//! - [`laws`]: what holds of every session.
//! - [`config`], [`theme`], [`sound`]: settings, palettes and sound
//!   requests.

pub mod config;
pub mod theme;
pub mod sound;
pub mod text;
pub mod rope;
pub mod markdown;
pub mod model;
pub mod app;
pub mod layout;
pub mod ui;
pub mod input;
pub mod laws;
