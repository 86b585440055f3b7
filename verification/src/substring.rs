use vstd::prelude::*;

verus! {

/// `pat` occurs in `line` as a contiguous run of characters starting at
/// position `i`.
pub open spec fn occurs_at(line: Seq<char>, pat: Seq<char>, i: int) -> bool {
    0 <= i && i + pat.len() <= line.len() && line.subrange(i, i + pat.len() as int) == pat
}

/// `line` contains `pat` as a contiguous substring, character for character.
/// The empty pattern is contained in every line.
pub open spec fn contains_pattern(line: Seq<char>, pat: Seq<char>) -> bool {
    exists|i: int| occurs_at(line, pat, i)
}

/// The empty pattern occurs in every line, at position zero.
pub proof fn lemma_empty_pattern_matches(line: Seq<char>)
    ensures
        contains_pattern(line, Seq::<char>::empty()),
{
    assert(line.subrange(0, 0) =~= Seq::<char>::empty());
    assert(occurs_at(line, Seq::<char>::empty(), 0));
}

/// Compares `pat` against the characters of `line` starting at position `i`.
fn match_at(line: &str, pat: &str, i: usize) -> (r: bool)
    requires
        i + pat@.len() <= line@.len(),
        line@.len() <= usize::MAX,
    ensures
        r == occurs_at(line@, pat@, i as int),
{
    let n = pat.unicode_len();
    let mut j: usize = 0;
    while j < n
        invariant
            n == pat@.len(),
            i + n <= line@.len() <= usize::MAX,
            0 <= j <= n,
            forall|k: int| 0 <= k < j ==> line@[i + k] == pat@[k],
        decreases n - j,
    {
        if line.get_char(i + j) != pat.get_char(j) {
            proof {
                assert(line@.subrange(i as int, i + pat@.len() as int)[j as int] == line@[i + j]);
            }
            return false;
        }
        j = j + 1;
    }
    proof {
        assert(line@.subrange(i as int, i + pat@.len() as int) =~= pat@);
    }
    true
}

/// Reports whether `pat` occurs anywhere in `line` as a contiguous substring,
/// character for character; the empty pattern occurs in every line.
pub fn str_contains(line: &str, pat: &str) -> (r: bool)
    ensures
        r == contains_pattern(line@, pat@),
{
    let ll = line.unicode_len();
    let pl = pat.unicode_len();
    if pl == 0 {
        proof {
            lemma_empty_pattern_matches(line@);
            assert(pat@ =~= Seq::<char>::empty());
        }
        return true;
    }
    if pl > ll {
        proof {
            assert(forall|k: int| !occurs_at(line@, pat@, k));
        }
        return false;
    }
    let bound = ll - pl;
    let mut i: usize = 0;
    while i <= bound
        invariant
            ll == line@.len(),
            pl == pat@.len(),
            1 <= pl <= ll <= usize::MAX,
            bound == ll - pl,
            0 <= i <= bound + 1,
            forall|k: int| 0 <= k < i ==> !occurs_at(line@, pat@, k),
        decreases bound + 1 - i,
    {
        if match_at(line, pat, i) {
            return true;
        }
        i = i + 1;
    }
    proof {
        assert(forall|k: int| !occurs_at(line@, pat@, k));
    }
    false
}

} // verus!
