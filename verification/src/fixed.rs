use vstd::prelude::*;

use crate::MatcherTrait;
use crate::substring::contains_pattern;
use crate::substring::str_contains;

verus! {

/// Literal-substring strategy: holds the pattern text verbatim and reports
/// whether a line contains it as a contiguous substring. No escaping, no
/// case folding, no anchoring.
pub struct FixedStringsMatcher {
    pattern: String,
}

impl FixedStringsMatcher {
    /// The pattern text this matcher searches for, as a sequence of characters.
    pub closed spec fn pattern_spec(&self) -> Seq<char> {
        self.pattern@
    }

    /// Wraps the pattern verbatim; never fails, any text is a valid literal
    /// pattern.
    pub fn new(pattern: String) -> (m: FixedStringsMatcher)
        ensures
            m.pattern_spec() == pattern@,
    {
        FixedStringsMatcher { pattern }
    }
}

impl MatcherTrait for FixedStringsMatcher {
    open spec fn matches_line(&self, line: Seq<char>) -> bool {
        contains_pattern(line, self.pattern_spec())
    }

    fn execute(&self, line: &str) -> (r: bool) {
        str_contains(line, self.pattern.as_str())
    }
}

} // verus!
