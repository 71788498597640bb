//! Compiled regular expressions, as the search uses them.

use vstd::prelude::*;

verus! {

#[verifier::external_type_specification]
#[verifier::external_body]
pub struct ExRegex(regex::Regex);

#[verifier::external_type_specification]
#[verifier::external_body]
pub struct ExRegexError(regex::Error);

/// Whether `source`, with the given flags, is a regular expression that the
/// regex crate accepts.
pub uninterp spec fn regex_compiles(source: Seq<char>, multi_line: bool, case_insensitive: bool) -> bool;

/// Whether the regular expression `source`, compiled with the given flags,
/// matches somewhere in `haystack`.
pub uninterp spec fn regex_is_match(
    source: Seq<char>,
    multi_line: bool,
    case_insensitive: bool,
    haystack: Seq<char>,
) -> bool;

/// Relies on regex::RegexBuilder::build: it compiles `source` with the given
/// flags, and fails exactly on the sources that it does not accept.
#[verifier::external_body]
fn compile(source: &str, multi_line: bool, case_insensitive: bool) -> (r: Result<
    regex::Regex,
    regex::Error,
>)
    ensures
        r is Ok <==> regex_compiles(source@, multi_line, case_insensitive),
{
    regex::RegexBuilder::new(source).multi_line(multi_line).case_insensitive(
        case_insensitive,
    ).build()
}

/// Relies on regex::Error's Display impl, for a message to show the user.
#[verifier::external_body]
fn error_text(e: &regex::Error) -> (r: String) {
    e.to_string()
}

/// What a pattern is: its source text and the flags it was compiled with.
pub struct PatternView {
    pub source: Seq<char>,
    pub multi_line: bool,
    pub case_insensitive: bool,
}

impl PatternView {
    /// Whether the pattern matches somewhere in `text`.
    pub open spec fn matches(self, text: Seq<char>) -> bool {
        regex_is_match(self.source, self.multi_line, self.case_insensitive, text)
    }
}

/// A pattern that failed to compile, with the reason.
#[derive(Debug)]
pub struct PatternError {
    pub message: String,
}

/// A compiled regular expression. It is only ever built from its own
/// `source` and flags, so that a match test on `regex` is one on them.
#[derive(Debug)]
pub struct Pattern {
    regex: regex::Regex,
    source: String,
    multi_line: bool,
    case_insensitive: bool,
}

impl View for Pattern {
    type V = PatternView;

    closed spec fn view(&self) -> PatternView {
        PatternView {
            source: self.source@,
            multi_line: self.multi_line,
            case_insensitive: self.case_insensitive,
        }
    }
}

impl Pattern {
    /// Compiles `source` with the given flags. `multi_line` makes `^` and `$`
    /// match at the start and end of each line.
    pub fn with_options(source: &str, multi_line: bool, case_insensitive: bool) -> (r: Result<
        Pattern,
        PatternError,
    >)
        ensures
            r is Ok <==> regex_compiles(source@, multi_line, case_insensitive),
            r matches Ok(p) ==> p@ == (PatternView {
                source: source@,
                multi_line,
                case_insensitive,
            }),
    {
        match compile(source, multi_line, case_insensitive) {
            Ok(regex) => Ok(
                Pattern { regex, source: String::from_str(source), multi_line, case_insensitive },
            ),
            Err(e) => Err(PatternError { message: error_text(&e) }),
        }
    }

    /// Compiles `source` with no flags set.
    pub fn new(source: &str) -> (r: Result<Pattern, PatternError>)
        ensures
            r is Ok <==> regex_compiles(source@, false, false),
            r matches Ok(p) ==> p@ == (PatternView {
                source: source@,
                multi_line: false,
                case_insensitive: false,
            }),
    {
        Pattern::with_options(source, false, false)
    }

    /// Relies on regex::Regex::is_match: whether the regex matches somewhere in
    /// `text`. Sound because `regex` was compiled from `source` and the flags.
    #[verifier::external_body]
    pub(crate) fn is_match(&self, text: &str) -> (r: bool)
        ensures
            r == regex_is_match(self@.source, self@.multi_line, self@.case_insensitive, text@),
            r == self@.matches(text@),
    {
        self.regex.is_match(text)
    }
}

} // verus!
