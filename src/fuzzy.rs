use fuzzy_matcher::FuzzyMatcher;
use vstd::prelude::*;

verus! {

pub open spec fn is_ascii_upper(c: char) -> bool {
    'A' <= c && c <= 'Z'
}

/// Whether the pattern holds an ASCII capital, which makes matching exact.
pub open spec fn has_ascii_upper(s: Seq<char>) -> bool {
    exists|i: int| 0 <= i < s.len() && is_ascii_upper(#[trigger] s[i])
}

/// Two characters are alike: equal, or when case is ignored, equal up to
/// ASCII case.
pub open spec fn chars_alike(a: char, b: char, case_sensitive: bool) -> bool {
    ||| a == b
    ||| !case_sensitive && is_ascii_upper(a) && (a as u32) + 32 == (b as u32)
    ||| !case_sensitive && is_ascii_upper(b) && (b as u32) + 32 == (a as u32)
}

/// Whether `pattern` occurs in `choice` as a subsequence, found greedily
/// from the left.
pub open spec fn subsequence(choice: Seq<char>, pattern: Seq<char>, case_sensitive: bool) -> bool
    decreases choice.len(),
{
    if pattern.len() == 0 {
        true
    } else if choice.len() == 0 {
        false
    } else if chars_alike(choice[0], pattern[0], case_sensitive) {
        subsequence(choice.drop_first(), pattern.drop_first(), case_sensitive)
    } else {
        subsequence(choice.drop_first(), pattern, case_sensitive)
    }
}

/// Whether `pattern` fuzzy-matches `choice`: its characters occur in order,
/// compared exactly when the pattern holds an ASCII capital and ignoring
/// ASCII case otherwise.
pub open spec fn skim_match(choice: Seq<char>, pattern: Seq<char>) -> bool {
    subsequence(choice, pattern, has_ascii_upper(pattern))
}

/// Relies on `fuzzy_matcher::skim::SkimMatcherV2::fuzzy_match` with the default
/// configuration (smart case): it returns `Some(score)` exactly when the greedy
/// left-to-right scan of `cheap_matches` finds every pattern character, and an
/// empty pattern always matches.
#[verifier::external_body]
pub fn fuzzy_matches(choice: &str, pattern: &str) -> (r: bool)
    ensures
        r == skim_match(choice@, pattern@),
{
    fuzzy_matcher::skim::SkimMatcherV2::default().fuzzy_match(choice, pattern).is_some()
}

} // verus!
