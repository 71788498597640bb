//! Searches office documents for paragraphs that match a regular expression.
//!
//! The library holds the decisions of the search: which files are documents,
//! how extracted text is cut into paragraphs, which paragraphs match, and the
//! text reported for a matching file.

pub mod classify;
pub mod pattern;
pub mod paragraphs;
pub mod response;
pub mod search;

pub use classify::{extractor_for, is_valid, DocFormat};
pub use pattern::{Pattern, PatternError};
pub use paragraphs::get_paragraphs;
pub use response::build_response;
pub use search::{search_file, SearchError};
