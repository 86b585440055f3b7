use vstd::prelude::*;

mod ere;
mod fixed;
mod substring;

pub use ere::ExtendedRegexpMatcher;
pub use ere::ere_match;
pub use ere::ere_valid;
pub use fixed::FixedStringsMatcher;
pub use substring::contains_pattern;
pub use substring::lemma_empty_pattern_matches;
pub use substring::occurs_at;
pub use substring::str_contains;

verus! {

/// The capability that every matching strategy offers: `execute` tests one
/// line, and `matches_line` is the mathematical meaning of a positive answer.
pub trait MatcherTrait {
    /// What it means for this matcher to match the given line.
    spec fn matches_line(&self, line: Seq<char>) -> bool;

    /// Tests a line; the answer is determined by the matcher and the line's
    /// characters alone.
    fn execute(&self, line: &str) -> (r: bool)
        ensures
            r == self.matches_line(line@),
    ;
}

/// The one construction error: the pattern is not an extended regular
/// expression the engine accepts. Carries the offending pattern text and the
/// engine's account of the failure.
#[derive(Debug)]
pub struct InvalidPatternSyntax {
    /// The pattern that was rejected, verbatim.
    pub pattern: String,
    /// The engine's description of what is wrong with the pattern.
    pub detail: String,
}

/// A line matcher: exactly one of two strategies, chosen once at
/// construction and immutable afterwards.
pub enum Matcher {
    ExtendedRegex(ExtendedRegexpMatcher),
    FixedStrings(FixedStringsMatcher),
}

impl Matcher {
    /// The pattern text this matcher was built from.
    pub open spec fn pattern_spec(&self) -> Seq<char> {
        match self {
            Matcher::ExtendedRegex(m) => m.pattern_spec(),
            Matcher::FixedStrings(m) => m.pattern_spec(),
        }
    }

    /// What it means for this matcher to match a line: literal substring
    /// containment in fixed-strings mode, an unanchored match of the compiled
    /// extended regular expression otherwise.
    pub open spec fn matches_line(&self, line: Seq<char>) -> bool {
        match self {
            Matcher::ExtendedRegex(m) => m.matches_line(line),
            Matcher::FixedStrings(m) => m.matches_line(line),
        }
    }

    /// Builds the matcher for `pattern`. In fixed-strings mode this never
    /// fails and the pattern is taken verbatim; otherwise the pattern is
    /// compiled as an extended regular expression, and a pattern the engine
    /// does not accept is reported as a recoverable error.
    pub fn new(pattern: String, is_fixed_strings_mode: bool) -> (r: Result<
        Matcher,
        InvalidPatternSyntax,
    >)
        ensures
            is_fixed_strings_mode ==> r is Ok && r->Ok_0 is FixedStrings,
            !is_fixed_strings_mode ==> (r is Ok <==> ere_valid(pattern@)),
            !is_fixed_strings_mode && r is Ok ==> r->Ok_0 is ExtendedRegex,
            r is Ok ==> r->Ok_0.pattern_spec() == pattern@,
            r is Err ==> r->Err_0.pattern@ == pattern@,
    {
        if is_fixed_strings_mode {
            Ok(Matcher::FixedStrings(FixedStringsMatcher::new(pattern)))
        } else {
            match ExtendedRegexpMatcher::new(pattern) {
                Ok(m) => Ok(Matcher::ExtendedRegex(m)),
                Err(e) => Err(e),
            }
        }
    }

    /// Tests one line against the active strategy. Never fails, changes no
    /// state, and the answer is determined by the matcher and the line alone.
    pub fn execute(&self, line: &str) -> (r: bool)
        ensures
            r == self.matches_line(line@),
    {
        match self {
            Matcher::FixedStrings(m) => m.execute(line),
            Matcher::ExtendedRegex(m) => m.execute(line),
        }
    }
}

/// Repeated queries agree: the answer `execute` is specified to give is a
/// function of the matcher and the line alone, so any two results obtained
/// for the same matcher and the same line are equal.
pub proof fn lemma_execute_idempotent(m: &Matcher, line: Seq<char>, r1: bool, r2: bool)
    requires
        r1 == m.matches_line(line),
        r2 == m.matches_line(line),
    ensures
        r1 == r2,
{
}

} // verus!
