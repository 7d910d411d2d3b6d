use hoards::fuzzy::{fuzzy_match, fuzzy_match_positions};

#[test]
fn test_fuzzy_match_exact() {
    assert!(fuzzy_match("ripgrep", "ripgrep").is_some());
    let score = fuzzy_match("ripgrep", "ripgrep").unwrap();
    assert!(score > 100); // Exact match bonus
}

#[test]
fn test_fuzzy_match_prefix() {
    assert!(fuzzy_match("rip", "ripgrep").is_some());
    let score = fuzzy_match("rip", "ripgrep").unwrap();
    assert!(score > 50); // Prefix bonus
}

#[test]
fn test_fuzzy_match_subsequence() {
    assert!(fuzzy_match("rg", "ripgrep").is_some());
    assert!(fuzzy_match("fdf", "fd-find").is_some());
}

#[test]
fn test_fuzzy_match_no_match() {
    assert!(fuzzy_match("xyz", "ripgrep").is_none());
    assert!(fuzzy_match("abc", "ripgrep").is_none());
    assert!(fuzzy_match("gr", "ripgrep").is_some());
}

#[test]
fn test_fuzzy_match_case_insensitive() {
    assert!(fuzzy_match("RIP", "ripgrep").is_some());
    assert!(fuzzy_match("rip", "RIPGREP").is_some());
}

#[test]
fn test_fuzzy_match_word_boundary_bonus() {
    let boundary_score = fuzzy_match("f", "fd-find").unwrap();
    let mid_score = fuzzy_match("i", "fd-find").unwrap();
    assert!(boundary_score > mid_score);
}

#[test]
fn test_fuzzy_match_consecutive_bonus() {
    let consecutive = fuzzy_match("rip", "ripgrep").unwrap();
    let spread = fuzzy_match("rgp", "ripgrep").unwrap();
    assert!(consecutive > spread);
}

#[test]
fn fuzzy_exact_scores() {
    // r: 1 + 3 (boundary); i: 1 + 2 (run); p: 1 + 4 (run); prefix bonus 50
    assert_eq!(fuzzy_match("rip", "ripgrep"), Some(62));
    // exact: 7 matches, run bonuses 2+4+...+12 = 42, boundary 3, exact 100
    assert_eq!(fuzzy_match("ripgrep", "ripgrep"), Some(7 + 42 + 3 + 100));
    assert_eq!(fuzzy_match("", "anything"), Some(0));
    assert_eq!(fuzzy_match("", ""), Some(0));
    assert_eq!(fuzzy_match("a", ""), None);
}

#[test]
fn fuzzy_positions_are_the_matches() {
    let (score, positions) = fuzzy_match_positions("fdf", "fd-find").unwrap();
    assert_eq!(positions, vec![0, 1, 3]);
    assert_eq!(Some(score), fuzzy_match("fdf", "fd-find"));
    // 'f' boundary 4, 'd' run 1+2, 'f' after '-' boundary 1+3, prefix? "fdf" no
    assert_eq!(score, 4 + 3 + 4);
    assert_eq!(fuzzy_match_positions("", "x"), Some((0, vec![])));
    assert_eq!(fuzzy_match_positions("zz", "fd-find"), None);
}

#[test]
fn fuzzy_greedy_takes_first_occurrence() {
    let (_, positions) = fuzzy_match_positions("rg", "ripgrep").unwrap();
    assert_eq!(positions, vec![0, 3]);
}

#[test]
fn fuzzy_long_exact_match_is_scored() {
    // n equal characters: n matches, run bonuses 2+4+...+2(n-1), one
    // boundary bonus and the exact bonus: n*n + 103.
    let text = "a".repeat(40001);
    assert_eq!(fuzzy_match(&text, &text), Some(40001 * 40001 + 103));
    let longest = "a".repeat(46340);
    let (score, positions) = fuzzy_match_positions(&longest, &longest).unwrap();
    assert_eq!(score, 46340 * 46340 + 103);
    assert_eq!(positions.len(), 46340);
    assert_eq!(positions[46339], 46339);
}

#[test]
fn fuzzy_score_beyond_i32_is_none() {
    let text = "a".repeat(46341);
    assert_eq!(fuzzy_match(&text, &text), None);
    assert_eq!(fuzzy_match_positions(&text, &text), None);
}

#[test]
fn fuzzy_positions_are_leftmost_after_each_match() {
    let (_, positions) = fuzzy_match_positions("aa", "baaa").unwrap();
    assert_eq!(positions, vec![1, 2]);
    let (_, positions) = fuzzy_match_positions("ab", "xaxbab").unwrap();
    assert_eq!(positions, vec![1, 3]);
}
