//! Finding the entry that follows a given one in an ordered list of names.

pub mod finder;
pub mod successor;
pub mod text;

pub use crate::finder::next_language;
