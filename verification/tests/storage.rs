use stockwatch::app::App;
use stockwatch::storage::{decode_stocks, encode_stocks, StorageError};

#[test]
fn storage_save_and_load_roundtrip() {
    let input = vec!["600519".to_string(), "NVDA".to_string()];
    let saved = encode_stocks(&input);
    let output = decode_stocks(saved.as_str()).unwrap();
    assert_eq!(input, output);
}

#[test]
fn storage_invalid_json_returns_error() {
    let result = decode_stocks("{not valid json");
    assert!(result.is_err());
}

#[test]
fn storage_encoding_is_the_documented_schema() {
    let input = vec!["600519".to_string(), "NVDA".to_string()];
    assert_eq!(
        encode_stocks(&input),
        "{\"stocks\":[{\"code\":\"600519\"},{\"code\":\"NVDA\"}]}".to_string()
    );
    let empty: Vec<String> = Vec::new();
    assert_eq!(encode_stocks(&empty), "{\"stocks\":[]}".to_string());
}

#[test]
fn storage_roundtrip_escapes_quotes_and_backslashes() {
    let input = vec!["a\"b".to_string(), "c\\d".to_string()];
    let saved = encode_stocks(&input);
    let output = decode_stocks(saved.as_str()).unwrap();
    assert_eq!(input, output);
}

#[test]
fn storage_load_tolerates_whitespace_and_extra_keys() {
    let text = "{ \"version\": 2, \"stocks\" : [ { \"code\" : \"RR.\" } , { \"code\": \"0700\" } ] }";
    let output = decode_stocks(text).unwrap();
    assert_eq!(output, vec!["RR.".to_string(), "0700".to_string()]);
}

#[test]
fn storage_load_rejects_wrong_shapes() {
    assert!(decode_stocks("{}").is_err());
    assert!(decode_stocks("{\"stocks\": 3}").is_err());
    assert!(decode_stocks("{\"stocks\": [{\"name\": \"x\"}]}").is_err());
    assert!(decode_stocks("{\"stocks\": [{\"code\": 7}]}").is_err());
}

#[test]
fn storage_roundtrip_through_the_application() {
    let mut app = App::new();
    assert!(app.add_stock("600519"));
    assert!(app.add_stock("NVDA"));
    let saved = app.save_payload();
    let loaded = decode_stocks(saved.as_str()).unwrap();
    assert_eq!(loaded, vec!["600519".to_string(), "NVDA".to_string()]);
}

#[test]
fn storage_error_carries_a_message() {
    let err = decode_stocks("{not valid json").unwrap_err();
    let StorageError::Malformed(msg) = err;
    assert!(!msg.is_empty());
}
