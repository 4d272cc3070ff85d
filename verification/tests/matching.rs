use stockwatch::matching::{codes_match, normalize_code_for_match};

fn key_of(code: &str) -> String {
    normalize_code_for_match(code).into_iter().collect()
}

#[test]
fn match_key_strips_marker_and_market_and_upper_cases() {
    assert_eq!(key_of("x105.NVDA"), "NVDA".to_string());
    assert_eq!(key_of("X105.nvda"), "NVDA".to_string());
    assert_eq!(key_of("600519"), "600519".to_string());
    assert_eq!(key_of("x1.600519"), "600519".to_string());
}

#[test]
fn match_key_of_trailing_dot_is_empty() {
    assert_eq!(key_of("RR."), String::new());
}

#[test]
fn codes_match_across_spellings() {
    assert!(codes_match("600519", "x1.600519"));
    assert!(codes_match("nvda", "NVDA"));
    assert!(codes_match("x105.NVDA", "NVDA"));
}

#[test]
fn codes_match_is_exact_not_substring() {
    assert!(!codes_match("00700", "700"));
    assert!(!codes_match("NVDA", "NVD"));
}
