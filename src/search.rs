//! What becomes of one document once its text has been extracted, or has
//! failed to be.

use vstd::prelude::*;
use crate::paragraphs::matching_paragraphs;
use crate::pattern::Pattern;
use crate::response::{build_response, response};

verus! {

/// Why a document produced no report. Neither reason is shown to the user:
/// the document is left out of the output.
#[derive(Debug)]
pub enum SearchError {
    /// The document's text could not be extracted; the extractor's message.
    Extraction(String),
    /// The text was extracted and the pattern matches nowhere in it.
    NoMatch,
}

/// Decides the outcome for the document at `path` (as displayed), given what
/// text extraction gave. A document matches when the pattern matches
/// somewhere in its whole text; its report is then `build_response`'s.
pub fn search_file(path: &str, extracted: Result<String, String>, pattern: &Pattern, verbosity: &i8) -> (r:
    Result<String, SearchError>)
    ensures
        extracted is Err ==> (r matches Err(SearchError::Extraction(m)) && m@ == extracted->Err_0@),
        extracted is Ok && !pattern@.matches(extracted->Ok_0@) ==> r matches Err(
            SearchError::NoMatch,
        ),
        extracted is Ok && pattern@.matches(extracted->Ok_0@) ==> (r matches Ok(s) && s@
            == response(path@, matching_paragraphs(extracted->Ok_0@, pattern@), *verbosity)),
{
    match extracted {
        Err(message) => Err(SearchError::Extraction(message)),
        Ok(text) => {
            if pattern.is_match(text.as_str()) {
                Ok(build_response(path, text.as_str(), pattern, verbosity))
            } else {
                Err(SearchError::NoMatch)
            }
        },
    }
}

} // verus!
