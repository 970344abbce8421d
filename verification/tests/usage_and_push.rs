use banyan_cli::error::NativeError;
use banyan_cli::push::{PushContent, PushContentError};
use banyan_cli::usage::usage_tables;

#[test]
fn usage_needs_some_answer() {
    match usage_tables(None, None) {
        Err(NativeError::Custom(m)) => assert_eq!(m, "Unable to obtain usage stats. Check your authentication!"),
        _ => panic!("expected an error"),
    }
}

#[test]
fn usage_tables_print_amounts() {
    let tables = usage_tables(Some((512, 0)), Some((999, 1_500_000))).unwrap();
    assert_eq!(tables.len(), 2);
    assert_eq!(tables[0].title, "Current Usage");
    assert_eq!(tables[0].rows[0].label, "Hot");
    assert_eq!(tables[0].rows[0].amount, "512 B");
    assert_eq!(tables[0].rows[1].label, "Archival");
    assert_eq!(tables[0].rows[1].amount, "0 B");
    assert_eq!(tables[1].title, "Usage Limits");
    assert_eq!(tables[1].rows[0].label, "Soft Hot");
    assert_eq!(tables[1].rows[0].amount, "999 B");
    assert_eq!(tables[1].rows[1].label, "Hard Hot");
    assert_eq!(tables[1].rows[1].amount, "1.5 MB");
    let only_limits = usage_tables(None, Some((1, 2))).unwrap();
    assert_eq!(only_limits.len(), 1);
    assert_eq!(only_limits[0].title, "Usage Limits");
}

#[test]
fn push_content_request() {
    let push = PushContent {
        host_url: "https://storage.example.com/some/path?x=1".to_string(),
        metadata_id: 0x0123_4567_89ab_cdef_0123_4567_89ab_cdef,
        content_len: 1000,
        content_hash: "abc\"def".to_string(),
    };
    assert_eq!(push.upload_url(), Some("https://storage.example.com/api/v1/upload".to_string()));
    assert_eq!(
        push.request_data(),
        "{\"metadata_id\":\"01234567-89ab-cdef-0123-456789abcdef\",\"content_hash\":\"abc\\\"def\"}"
    );
    assert_eq!(push.content_length(), 1546);
    assert!(push.requires_authentication());
    let bad = PushContent { host_url: "not a url".to_string(), metadata_id: 0, content_len: 0, content_hash: String::new() };
    assert_eq!(bad.upload_url(), None);
}

#[test]
fn push_error_message() {
    let e = PushContentError::new("quota exceeded".to_string());
    assert_eq!(e.message(), "quota exceeded");
}

#[test]
fn push_request_data_escapes_the_hash() {
    let push = PushContent {
        host_url: "https://h".to_string(),
        metadata_id: 1,
        content_len: 0,
        content_hash: "a\\b\nc\u{1}\té".to_string(),
    };
    assert_eq!(
        push.request_data(),
        "{\"metadata_id\":\"00000000-0000-0000-0000-000000000001\",\"content_hash\":\"a\\\\b\\nc\\u0001\\té\"}"
    );
}
