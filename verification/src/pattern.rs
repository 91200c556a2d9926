//! The boundary pattern: a compiled regular expression paired with the text
//! it was compiled from. Matching is modelled by the uninterpreted functions
//! `pattern_valid` and `pattern_matches`, which the trusted items below tie
//! to the regex engine.

use crate::events::EngineError;
use vstd::prelude::*;

verus! {

#[verifier::external_type_specification]
#[verifier::external_body]
pub struct ExRegex(regex::Regex);

#[verifier::external_type_specification]
#[verifier::external_body]
pub struct ExRegexError(regex::Error);

/// Whether the pattern text compiles to a valid pattern. `regex::Regex::new`
/// decides this from the text alone.
pub uninterp spec fn pattern_valid(pattern: Seq<char>) -> bool;

/// Whether a line matches the pattern. `regex::Regex::is_match` decides this
/// from the pattern text and the line alone.
pub uninterp spec fn pattern_matches(pattern: Seq<char>, line: Seq<char>) -> bool;

/// A compiled boundary pattern; immutable once compiled. The regex it holds
/// is always the compilation of its own text.
pub struct BoundaryPattern {
    re: regex::Regex,
    text: String,
}

impl View for BoundaryPattern {
    type V = Seq<char>;

    /// The pattern text the regex was compiled from.
    closed spec fn view(&self) -> Seq<char> {
        self.text@
    }
}

/// Relies on regex::Regex::new: compilation succeeds exactly when the pattern
/// text is valid syntax within the default size limit, a function of the text
/// alone; on success the returned value pairs the compiled regex with that
/// same text.
#[verifier::external_body]
fn regex_new(pattern: &String) -> (r: Result<BoundaryPattern, regex::Error>)
    ensures
        r is Ok <==> pattern_valid(pattern@),
        r is Ok ==> r->Ok_0@ == pattern@,
{
    match regex::Regex::new(pattern.as_str()) {
        Ok(re) => Ok(BoundaryPattern { re, text: pattern.clone() }),
        Err(e) => Err(e),
    }
}

/// Relies on regex::Regex::is_match: the result is a function of the pattern
/// text and the line alone, and a `BoundaryPattern`'s regex is the
/// compilation of its own text.
#[verifier::external_body]
fn regex_is_match(p: &BoundaryPattern, line: &str) -> (r: bool)
    ensures
        r == pattern_matches(p@, line@),
{
    p.re.is_match(line)
}

/// Relies on the Display implementation of regex::Error for the
/// human-readable diagnostic text.
#[verifier::external_body]
fn regex_error_text(e: &regex::Error) -> (r: String) {
    format!("{}", e)
}

impl BoundaryPattern {
    /// Compiles the pattern text; fails with `EngineError::Pattern` exactly
    /// when the text is not valid pattern syntax.
    pub fn compile(pattern: &String) -> (r: Result<BoundaryPattern, EngineError>)
        ensures
            r is Ok <==> pattern_valid(pattern@),
            r is Ok ==> r->Ok_0@ == pattern@,
            r is Err ==> r->Err_0 is Pattern,
    {
        match regex_new(pattern) {
            Ok(p) => Ok(p),
            Err(e) => Err(EngineError::Pattern(regex_error_text(&e))),
        }
    }

    /// Whether the line matches this pattern.
    pub fn is_match(&self, line: &str) -> (r: bool)
        ensures
            r == pattern_matches(self@, line@),
    {
        regex_is_match(self, line)
    }
}

} // verus!
