use vstd::prelude::*;

use crate::InvalidPatternSyntax;
use crate::MatcherTrait;

verus! {

/// Declares `regex::Regex`, the compiled form of an extended regular
/// expression, so that it can be held in a field. Opaque to verification;
/// what is known of it is said through `ere_pattern` below.
#[verifier::external_type_specification]
#[verifier::external_body]
pub struct ExRegex(regex::Regex);

/// Declares `regex::Error`, the error `regex::Regex::new` reports for a
/// pattern the engine does not accept.
#[verifier::external_type_specification]
#[verifier::external_body]
pub struct ExRegexError(regex::Error);

// Whether the regex engine accepts `pattern` as an extended regular
// expression: compilation succeeds exactly on these patterns, a fact of the
// pattern text alone.
pub uninterp spec fn ere_valid(pattern: Seq<char>) -> bool;

// The pattern text a compiled regex was built from. `regex::Regex::as_str`
// shows that a compiled regex determines this text.
pub uninterp spec fn ere_pattern(re: regex::Regex) -> Seq<char>;

// Whether the extended regular expression `pattern` matches anywhere within
// `line` (unanchored search): true exactly when some span of `line` matches,
// a fact of the pattern and line texts alone.
pub uninterp spec fn ere_match(pattern: Seq<char>, line: Seq<char>) -> bool;

/// Relies on `regex::Regex::new`: it compiles the pattern, returns `Ok`
/// exactly when the engine accepts it, and the compiled value keeps the
/// pattern text it was built from. Compilation is deterministic in the
/// pattern text.
#[verifier::external_body]
fn regex_compile(pattern: &str) -> (r: Result<regex::Regex, regex::Error>)
    ensures
        r is Ok <==> ere_valid(pattern@),
        r is Ok ==> ere_pattern(r->Ok_0) == pattern@,
{
    regex::Regex::new(pattern)
}

/// Relies on `regex::Regex::is_match`: true if and only if there is a match
/// for the compiled pattern anywhere in the line, determined by the pattern
/// and the line alone.
#[verifier::external_body]
fn regex_is_match(re: &regex::Regex, line: &str) -> (r: bool)
    ensures
        r == ere_match(ere_pattern(*re), line@),
{
    re.is_match(line)
}

/// Relies on the `Display` impl of `regex::Error` for a human-readable
/// account of why compilation failed.
#[verifier::external_body]
fn regex_error_detail(e: &regex::Error) -> String {
    format!("{}", e)
}

/// Extended-regular-expression strategy: compiles the pattern once, at
/// construction, and reports whether the compiled pattern matches anywhere
/// within a line (unanchored search).
pub struct ExtendedRegexpMatcher {
    pattern: regex::Regex,
}

impl ExtendedRegexpMatcher {
    /// The pattern text the held compiled regex was built from.
    pub closed spec fn pattern_spec(&self) -> Seq<char> {
        ere_pattern(self.pattern)
    }

    /// Compiles `pattern`; returns the matcher exactly when the engine
    /// accepts the pattern, and otherwise the recoverable error, carrying
    /// the offending pattern text.
    pub fn new(pattern: String) -> (r: Result<ExtendedRegexpMatcher, InvalidPatternSyntax>)
        ensures
            r is Ok <==> ere_valid(pattern@),
            r is Ok ==> r->Ok_0.pattern_spec() == pattern@,
            r is Err ==> r->Err_0.pattern@ == pattern@,
    {
        match regex_compile(pattern.as_str()) {
            Ok(re) => Ok(ExtendedRegexpMatcher { pattern: re }),
            Err(e) => {
                let detail = regex_error_detail(&e);
                Err(InvalidPatternSyntax { pattern, detail })
            },
        }
    }
}

impl MatcherTrait for ExtendedRegexpMatcher {
    open spec fn matches_line(&self, line: Seq<char>) -> bool {
        ere_match(self.pattern_spec(), line)
    }

    fn execute(&self, line: &str) -> (r: bool) {
        regex_is_match(&self.pattern, line)
    }
}

} // verus!
