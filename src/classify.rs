//! Deciding from a file name whether a file is a document, and of which format.

use vstd::prelude::*;

verus! {

/// The document formats that text can be extracted from.
#[derive(Clone, Copy, Debug, PartialEq, Eq, Structural)]
pub enum DocFormat {
    /// OpenDocument text (`.odt`).
    Odt,
    /// Legacy binary word-processor document (`.doc`).
    Doc,
    /// Zipped XML word-processor document (`.docx`).
    Docx,
    /// Any other file: no extractor applies.
    Unrecognized,
}

/// `s` ends with `suffix`, compared character by character.
pub open spec fn has_suffix(s: Seq<char>, suffix: Seq<char>) -> bool {
    suffix.len() <= s.len() && s.subrange(s.len() - suffix.len(), s.len() as int) == suffix
}

/// The format that a file name denotes, by its suffix alone.
pub open spec fn format_of(name: Seq<char>) -> DocFormat {
    if has_suffix(name, ".odt"@) {
        DocFormat::Odt
    } else if has_suffix(name, ".docx"@) {
        DocFormat::Docx
    } else if has_suffix(name, ".doc"@) {
        DocFormat::Doc
    } else {
        DocFormat::Unrecognized
    }
}

/// Case-sensitive suffix test.
pub fn ends_with(s: &str, suffix: &str) -> (r: bool)
    ensures
        r == has_suffix(s@, suffix@),
{
    let n = s.unicode_len();
    let k = suffix.unicode_len();
    if k > n {
        return false;
    }
    let off = n - k;
    let mut i: usize = 0;
    while i < k
        invariant
            n == s@.len(),
            k == suffix@.len(),
            off + k == n,
            i <= k,
            forall|j: int| 0 <= j < i ==> s@[off + j] == suffix@[j],
        decreases k - i,
    {
        if s.get_char(off + i) != suffix.get_char(i) {
            assert(s@.subrange(off as int, n as int)[i as int] != suffix@[i as int]);
            return false;
        }
        i = i + 1;
    }
    assert(s@.subrange(off as int, n as int) =~= suffix@);
    true
}

/// The extractor that applies to a file of this name: decided by its suffix,
/// case-sensitively, without reading the file.
pub fn extractor_for(file_name: &str) -> (r: DocFormat)
    ensures
        r == format_of(file_name@),
{
    if ends_with(file_name, ".odt") {
        DocFormat::Odt
    } else if ends_with(file_name, ".docx") {
        DocFormat::Docx
    } else if ends_with(file_name, ".doc") {
        DocFormat::Doc
    } else {
        DocFormat::Unrecognized
    }
}

/// Whether a file of this name is a document to search: its name ends,
/// case-sensitively, in `.odt`, `.doc` or `.docx`.
pub fn is_valid(file_name: &str) -> (r: bool)
    ensures
        r == (has_suffix(file_name@, ".odt"@) || has_suffix(file_name@, ".doc"@) || has_suffix(
            file_name@,
            ".docx"@,
        )),
        r == (format_of(file_name@) != DocFormat::Unrecognized),
{
    let f = extractor_for(file_name);
    !matches!(f, DocFormat::Unrecognized)
}

} // verus!
