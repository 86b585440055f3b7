use line_matcher::ExtendedRegexpMatcher;
use line_matcher::FixedStringsMatcher;
use line_matcher::Matcher;
use line_matcher::MatcherTrait;
use line_matcher::str_contains;

#[test]
fn test_extended_regexp_matcher() {
    let matcher = Matcher::new("Z".to_string(), false).unwrap();
    assert_eq!(false, matcher.execute("abcdefg"));
    let matcher = Matcher::new("a+.b+".to_string(), false).unwrap();
    assert_eq!(true, matcher.execute("aaa bbb"));
}

#[test]
fn test_fixed_strings_matcher() {
    let matcher = Matcher::new("fg".to_string(), true).unwrap();
    assert_eq!(true, matcher.execute("abcdefg"));
    let matcher = Matcher::new("Z".to_string(), true).unwrap();
    assert_eq!(false, matcher.execute("abcdefg"));
    let matcher = Matcher::new("a+.b+".to_string(), true).unwrap();
    assert_eq!(false, matcher.execute("aaa bbb"));
}

#[test]
fn anchored_pattern_matches_only_whole_line() {
    let matcher = Matcher::new("^abc$".to_string(), false).unwrap();
    assert_eq!(true, matcher.execute("abc"));
    assert_eq!(false, matcher.execute("xabcx"));
    let matcher = Matcher::new("abc".to_string(), false).unwrap();
    assert_eq!(true, matcher.execute("xabcx"));
}

#[test]
fn unanchored_search_matches_inside_longer_line() {
    let matcher = Matcher::new("b+".to_string(), false).unwrap();
    assert_eq!(true, matcher.execute("aaa bbb ccc"));
    assert_eq!(false, matcher.execute("aaa ccc"));
}

#[test]
fn invalid_regex_pattern_is_a_recoverable_error() {
    let err = match Matcher::new("a(".to_string(), false) {
        Ok(_) => panic!("an unbalanced group must be rejected"),
        Err(e) => e,
    };
    assert_eq!("a(", err.pattern);
    assert!(!err.detail.is_empty());
}

#[test]
fn invalid_regex_pattern_is_a_valid_literal_pattern() {
    let matcher = Matcher::new("a(".to_string(), true).unwrap();
    assert_eq!(true, matcher.execute("xa(y"));
    assert_eq!(false, matcher.execute("ay"));
}

#[test]
fn empty_pattern_matches_every_line() {
    let matcher = Matcher::new("".to_string(), true).unwrap();
    assert_eq!(true, matcher.execute("abcdefg"));
    assert_eq!(true, matcher.execute(""));
}

#[test]
fn pattern_longer_than_line_never_matches() {
    let matcher = Matcher::new("abcdefg".to_string(), true).unwrap();
    assert_eq!(false, matcher.execute("abc"));
    assert_eq!(true, matcher.execute("abcdefg"));
}

#[test]
fn repeated_execute_calls_agree() {
    let fixed = Matcher::new("fg".to_string(), true).unwrap();
    let regex = Matcher::new("a+.b+".to_string(), false).unwrap();
    let first_fixed = fixed.execute("abcdefg");
    let first_regex = regex.execute("aaa bbb");
    for _ in 0..10 {
        assert_eq!(first_fixed, fixed.execute("abcdefg"));
        assert_eq!(first_regex, regex.execute("aaa bbb"));
    }
}

#[test]
fn fixed_strings_strategy_directly() {
    let matcher = FixedStringsMatcher::new("cde".to_string());
    assert_eq!(true, matcher.execute("abcdefg"));
    assert_eq!(false, matcher.execute("abdceg"));
}

#[test]
fn extended_regexp_strategy_directly() {
    let matcher = ExtendedRegexpMatcher::new("c.e".to_string()).unwrap();
    assert_eq!(true, matcher.execute("abcdefg"));
    assert_eq!(false, matcher.execute("abcefg"));
    let err = match ExtendedRegexpMatcher::new("[".to_string()) {
        Ok(_) => panic!("an unclosed class must be rejected"),
        Err(e) => e,
    };
    assert_eq!("[", err.pattern);
}

#[test]
fn str_contains_finds_substrings_exactly() {
    assert!(str_contains("abc", "abc"));
    assert!(str_contains("xabcx", "abc"));
    assert!(str_contains("abcx", "abc"));
    assert!(str_contains("xabc", "abc"));
    assert!(str_contains("aaa", "aa"));
    assert!(str_contains("anything", ""));
    assert!(str_contains("", ""));
    assert!(!str_contains("", "a"));
    assert!(!str_contains("abc", "abcd"));
    assert!(!str_contains("abdc", "abc"));
    assert!(!str_contains("ABC", "abc"));
}

#[test]
fn str_contains_is_character_exact_on_unicode() {
    assert!(str_contains("naïve café", "ïve"));
    assert!(str_contains("naïve café", "café"));
    assert!(!str_contains("naïve café", "naive"));
}
