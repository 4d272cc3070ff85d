use stockwatch::api::to_secid;

#[test]
fn to_secid_manual_x_prefix() {
    assert_eq!(to_secid("x105.NVDA"), "105.NVDA".to_string());
}

#[test]
fn to_secid_numeric_blind() {
    assert_eq!(
        to_secid("600519"),
        "1.600519,0.600519,116.600519".to_string()
    );
}

#[test]
fn to_secid_alpha_blind() {
    assert_eq!(
        to_secid("NVDA"),
        "105.NVDA,106.NVDA,107.NVDA,155.NVDA".to_string()
    );
}

#[test]
fn to_secid_uk_trailing_dot() {
    assert_eq!(
        to_secid("RR."),
        "105.RR.,106.RR.,107.RR.,155.RR.".to_string()
    );
}

#[test]
fn to_secid_upper_case_manual_marker() {
    assert_eq!(to_secid("X105.NVDA"), "105.NVDA".to_string());
}

#[test]
fn to_secid_manual_marker_consumes_one_char() {
    assert_eq!(to_secid("xx1.A"), "x1.A".to_string());
}

#[test]
fn to_secid_empty_counts_as_numeric() {
    assert_eq!(to_secid(""), "1.,0.,116.".to_string());
}

#[test]
fn to_secid_mixed_goes_symbolic() {
    assert_eq!(to_secid("9988b"), "105.9988b,106.9988b,107.9988b,155.9988b".to_string());
}
