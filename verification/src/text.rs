//! Text handling over sequences of characters: lower-casing, trimming, line
//! splitting, padding and search.

pub mod case;
pub mod lines;
pub mod pad;
pub mod search;
pub mod trim;

pub use case::lowercase_of;
pub use lines::{lines, lines_of, without_carriage_return};
pub use pad::{centered, fill, left_aligned, push_centered, push_left_aligned, push_spaces, spaces};
pub use search::{chars_of, contains, contains_text, occurs_at};
pub use trim::{is_whitespace, trim, trim_end, trim_start, trimmed, white_space};
