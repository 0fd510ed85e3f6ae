//! Conversion of identifiers and prose between naming conventions:
//! snake_case, PascalCase, camelCase and sentence case.
//!
//! Every conversion reads its input once, left to right, and is total: any
//! text is accepted, and characters to which no rule applies pass through
//! unchanged.

pub mod unicode;
pub mod piece;
pub mod sentence;
pub mod convert;
pub mod select;
pub mod laws;

pub use convert::Case;
pub use piece::Piece;
pub use select::case;
pub use sentence::SentenceState;
