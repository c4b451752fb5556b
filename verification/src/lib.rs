//! A line filter for tagged text. A line that starts with a bracketed
//! emotion name, such as `[curious]`, is rewritten to a framed box with the
//! emotion's title and ASCII art, followed by the rest of the line. Only the
//! first such tag of a session is honoured; every other line passes through
//! unchanged.
//!
//! - [`emotion`] holds the catalogue: six emotions with a title and an art
//!   block each, and the lookup by name.
//! - [`tag`] splits a leading tag from a line; [`pattern`] holds the calls
//!   into the regular-expression engine that it rests on.
//! - [`render`] lays out the box.
//! - [`session`] is the per-line policy of a filtering session.
//! - [`shell`] computes the change to a shell's start-up file.
//! - [`text`] holds the text handling underneath.

pub mod emotion;
pub mod pattern;
pub mod render;
pub mod session;
pub mod shell;
pub mod tag;
pub mod text;

pub use emotion::Emotion;
pub use render::format_emotion_box;
pub use session::process_line;
pub use tag::parse_emotion_tag;
