use radial::similar::{find_similar_id, levenshtein_distance};

#[test]
fn test_levenshtein_distance() {
    assert_eq!(levenshtein_distance("hello", "hello"), 0);
    assert_eq!(levenshtein_distance("hello", "hallo"), 1);
    assert_eq!(levenshtein_distance("hello", "hall"), 2);
    assert_eq!(levenshtein_distance("t8zwaRO1", "t8zwaROl"), 1);
}

#[test]
fn test_find_similar_id() {
    let candidates = vec![
        "t8zwaROl".to_string(),
        "xYz9Kp2m".to_string(),
        "V1StGXR8".to_string(),
    ];

    assert_eq!(
        find_similar_id("t8zwaRO1", &candidates),
        Some("t8zwaROl".to_string())
    );

    assert_eq!(
        find_similar_id("xYz9Kp2n", &candidates),
        Some("xYz9Kp2m".to_string())
    );

    // Very different ID should return None
    assert_eq!(find_similar_id("zzzzz", &candidates), None);
}

#[test]
fn levenshtein_known_values() {
    assert_eq!(levenshtein_distance("", ""), 0);
    assert_eq!(levenshtein_distance("", "abc"), 3);
    assert_eq!(levenshtein_distance("abc", ""), 3);
    assert_eq!(levenshtein_distance("kitten", "sitting"), 3);
    assert_eq!(levenshtein_distance("flaw", "lawn"), 2);
}

#[test]
fn matcher_prefers_closest_and_caps_at_two() {
    // one candidate at distance 1, one at distance 5
    let candidates = vec!["abcdx".to_string(), "vwxyz".to_string()];
    assert_eq!(find_similar_id("abcde", &candidates), Some("abcdx".to_string()));

    // only a far candidate: nothing is suggested
    let far_only = vec!["vwxyz".to_string()].into_iter().collect();
    assert_eq!(find_similar_id("abcde", &far_only), None);
}

#[test]
fn matcher_takes_first_of_equally_close() {
    let candidates = vec!["abcx".to_string(), "abcy".to_string()];
    assert_eq!(find_similar_id("abcd", &candidates), Some("abcx".to_string()));
}
