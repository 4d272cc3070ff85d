use stockwatch::api::{fetch_url, parse_fetch_body, FetchError};

#[test]
fn fetch_url_joins_resolved_identifiers() {
    let codes = vec!["600519".to_string(), "x105.NVDA".to_string()];
    let url = fetch_url(&codes);
    let want = "https://push2.eastmoney.com/api/qt/ulist.np/get?secids=\
1.600519,0.600519,116.600519,105.NVDA\
&fields=f2,f3,f4,f5,f6,f7,f8,f9,f10,f11,f12,f13,f14,f15,f16,f17,f18,f20,f21,f22,f23,f24,f25";
    assert_eq!(url, want.to_string());
}

#[test]
fn parse_fetch_body_normalizes_each_record() {
    let body = "{\"data\":{\"diff\":[\
{\"f12\":\"00700\",\"f13\":116,\"f14\":\"Tencent\",\"f2\":123000,\"f3\":250},\
{\"f12\":\"600519\",\"f13\":1,\"f14\":\"Moutai\",\"f2\":170000,\"f3\":null}\
]}}";
    let stocks = parse_fetch_body(body).unwrap();
    assert_eq!(stocks.len(), 2);
    assert_eq!(stocks[0].code, "00700".to_string());
    assert_eq!(stocks[0].title, "Tencent".to_string());
    // market 116: price divisor 1000, so 123000 is a displayed 123.0
    assert_eq!(stocks[0].price, 123_000);
    assert_eq!(stocks[0].percent, 2_500);
    // market 1: price divisor 100, so 170000 is a displayed 1700.0
    assert_eq!(stocks[1].price, 1_700_000);
    // null percent normalizes to zero
    assert_eq!(stocks[1].percent, 0);
}

#[test]
fn parse_fetch_body_rejects_unparseable_text() {
    assert!(parse_fetch_body("callback({})").is_err());
    assert!(parse_fetch_body("").is_err());
}

#[test]
fn parse_fetch_body_rejects_missing_result_array() {
    assert!(matches!(
        parse_fetch_body("{\"data\":null}"),
        Err(FetchError::ResponseFormat(_))
    ));
    assert!(matches!(
        parse_fetch_body("{\"data\":{}}"),
        Err(FetchError::ResponseFormat(_))
    ));
    assert!(matches!(
        parse_fetch_body("{\"data\":{\"diff\":7}}"),
        Err(FetchError::ResponseFormat(_))
    ));
}

#[test]
fn parse_fetch_body_rejects_record_without_identity() {
    let body = "{\"data\":{\"diff\":[{\"f13\":1,\"f14\":\"x\"}]}}";
    assert!(parse_fetch_body(body).is_err());
}

#[test]
fn parse_fetch_body_is_all_or_nothing() {
    // one good record followed by one without a code: the whole batch fails
    let body = "{\"data\":{\"diff\":[\
{\"f12\":\"00700\",\"f13\":116,\"f14\":\"Tencent\",\"f2\":123000},\
{\"f13\":1,\"f14\":\"nameless\"}\
]}}";
    assert!(parse_fetch_body(body).is_err());
}

#[test]
fn fetch_error_messages_carry_their_text() {
    let transport = FetchError::Transport("connection refused".to_string());
    assert_eq!(transport.message(), "connection refused".to_string());
    let format_err = parse_fetch_body("{}").unwrap_err();
    assert!(!format_err.message().is_empty());
}
