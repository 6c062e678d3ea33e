use http::header::HeaderValue;
use http::HeaderMap;
use log_pipeline::normalize::{
    accept_fields, accept_plaintext, body_kind, handle_json, handle_plaintext, normalize,
    BodyKind, NormalizeError,
};

fn headers_of(pairs: &[(&'static str, &'static str)]) -> HeaderMap {
    let mut headers = HeaderMap::new();
    for (name, value) in pairs {
        headers.insert(*name, HeaderValue::from_static(value));
    }
    headers
}

#[test]
fn test_handle_json() {
    let body = r#"{"tenant_id":"test","log_id":"123","text":"hello"}"#.to_string();

    let result = handle_json(&body).unwrap();
    assert_eq!(result.tenant_id, "test");
}

#[test]
fn main_test_handle_json() {
    let mut headers = HeaderMap::new();
    headers.insert("content-type", "application/json".parse().unwrap());

    let body = r#"{"tenant_id":"test","log_id":"123","text":"hello"}"#.to_string();

    let result = handle_json(&body).unwrap();
    assert_eq!(result.tenant_id, "test");
}

#[test]
fn test_handle_plaintext() {
    let mut headers = HeaderMap::new();
    headers.insert("X-Tenant-ID", "test".parse().unwrap());

    let body = "abcdefghijklmnop".to_string();
    let result = handle_plaintext(&headers, &body).unwrap();

    assert_eq!(result.tenant_id, "test");
}

#[test]
fn json_request_keeps_the_client_log_id() {
    let headers = headers_of(&[("content-type", "application/json")]);
    let body = br#"{"tenant_id":"t1","log_id":"abc","text":"call 555-1234"}"#;
    let log = normalize(&headers, body).unwrap();
    assert_eq!(log.tenant_id, "t1");
    assert_eq!(log.text, "call 555-1234");
    assert_eq!(log.source.as_deref(), Some("json"));
    assert!(log.timestamp.is_none());
    assert!(log.tags.is_none());
    let metadata = log.metadata.unwrap();
    assert_eq!(metadata.get("log_id").map(String::as_str), Some("abc"));
    assert_eq!(metadata.entries().len(), 1);
}

#[test]
fn plaintext_request_gets_a_new_log_id() {
    let headers = headers_of(&[("content-type", "text/plain"), ("x-tenant-id", "acme")]);
    let first = normalize(&headers, b"disk full on node 7").unwrap();
    let second = normalize(&headers, b"disk full on node 7").unwrap();
    assert_eq!(first.tenant_id, "acme");
    assert_eq!(first.text, "disk full on node 7");
    assert_eq!(first.source.as_deref(), Some("plaintext"));
    assert!(first.timestamp.is_none());
    assert!(first.tags.is_none());
    let first_id = first.metadata.unwrap().get("log_id").cloned().unwrap();
    let second_id = second.metadata.unwrap().get("log_id").cloned().unwrap();
    assert_eq!(first_id.len(), 36);
    assert_eq!(second_id.len(), 36);
    assert_ne!(first_id, second_id);
    assert_ne!(first_id, "00000000-0000-0000-0000-000000000000");
    for (i, c) in first_id.chars().enumerate() {
        if i == 8 || i == 13 || i == 18 || i == 23 {
            assert_eq!(c, '-');
        } else {
            assert!(c.is_ascii_digit() || ('a'..='f').contains(&c));
        }
    }
    assert_eq!(first_id.chars().nth(14), Some('4'));
}

#[test]
fn missing_content_type_is_rejected() {
    let headers = headers_of(&[("x-tenant-id", "acme")]);
    assert!(matches!(normalize(&headers, b"hello"), Err(NormalizeError::MissingContentType)));
}

#[test]
fn unsupported_content_type_is_rejected_with_its_value() {
    let headers = headers_of(&[("content-type", "text/html"), ("x-tenant-id", "acme")]);
    match normalize(&headers, b"<p>hello</p>") {
        Err(NormalizeError::UnsupportedContentType { content_type }) => {
            assert_eq!(content_type, "text/html")
        }
        other => panic!("unexpected outcome: {:?}", other),
    }
}

#[test]
fn plaintext_without_tenant_is_rejected() {
    let headers = headers_of(&[("content-type", "text/plain")]);
    assert!(matches!(normalize(&headers, b"hello"), Err(NormalizeError::MissingTenant)));
}

#[test]
fn plaintext_with_empty_tenant_is_rejected() {
    let headers = headers_of(&[("content-type", "text/plain"), ("x-tenant-id", "")]);
    assert!(matches!(normalize(&headers, b"hello"), Err(NormalizeError::MissingTenant)));
}

#[test]
fn body_that_is_not_utf8_is_rejected_first() {
    let headers = headers_of(&[("x-tenant-id", "acme")]);
    assert!(matches!(normalize(&headers, &[0xff, 0xfe]), Err(NormalizeError::Decode)));
    let headers = headers_of(&[("content-type", "text/plain"), ("x-tenant-id", "acme")]);
    assert!(matches!(normalize(&headers, &[b'a', 0x80]), Err(NormalizeError::Decode)));
}

#[test]
fn json_without_a_field_is_rejected() {
    let headers = headers_of(&[("content-type", "application/json")]);
    let missing_text = br#"{"tenant_id":"t1","log_id":"abc"}"#;
    assert!(matches!(normalize(&headers, missing_text), Err(NormalizeError::Schema)));
    let missing_tenant = br#"{"log_id":"abc","text":"x"}"#;
    assert!(matches!(normalize(&headers, missing_tenant), Err(NormalizeError::Schema)));
    let missing_log_id = br#"{"tenant_id":"t1","text":"x"}"#;
    assert!(matches!(normalize(&headers, missing_log_id), Err(NormalizeError::Schema)));
}

#[test]
fn json_of_the_wrong_structure_is_rejected() {
    assert!(matches!(handle_json("not json"), Err(NormalizeError::Schema)));
    assert!(matches!(handle_json(""), Err(NormalizeError::Schema)));
    assert!(matches!(handle_json(r#"["t1","abc","x"]"#), Err(NormalizeError::Schema)));
    assert!(matches!(
        handle_json(r#"{"tenant_id":1,"log_id":"abc","text":"x"}"#),
        Err(NormalizeError::Schema)
    ));
    assert!(matches!(
        handle_json(r#"{"tenant_id":"t1","log_id":"abc","text":null}"#),
        Err(NormalizeError::Schema)
    ));
    assert!(matches!(
        handle_json(r#"{"tenant_id":"t1","log_id":"abc","text":"x"} trailing"#),
        Err(NormalizeError::Schema)
    ));
}

#[test]
fn json_with_an_empty_tenant_is_rejected() {
    assert!(matches!(
        handle_json(r#"{"tenant_id":"","log_id":"abc","text":"x"}"#),
        Err(NormalizeError::Schema)
    ));
}

#[test]
fn json_may_hold_other_members_and_empty_text() {
    let log = handle_json(r#"{"extra":[1,2],"text":"","log_id":"","tenant_id":"t9"}"#).unwrap();
    assert_eq!(log.tenant_id, "t9");
    assert_eq!(log.text, "");
    assert_eq!(log.metadata.unwrap().get("log_id").map(String::as_str), Some(""));
}

#[test]
fn json_strings_are_unescaped() {
    let log = handle_json(r#"{"tenant_id":"té","log_id":"a\"b","text":"line1\nline2"}"#)
        .unwrap();
    assert_eq!(log.tenant_id, "t\u{e9}");
    assert_eq!(log.text, "line1\nline2");
    assert_eq!(log.metadata.unwrap().get("log_id").map(String::as_str), Some("a\"b"));
}

#[test]
fn content_type_is_found_under_either_spelling() {
    let body = br#"{"tenant_id":"t1","log_id":"abc","text":"x"}"#;
    let mut headers = HeaderMap::new();
    headers.insert("Content-Type", HeaderValue::from_static("application/json"));
    assert_eq!(normalize(&headers, body).unwrap().tenant_id, "t1");
    let mut headers = HeaderMap::new();
    headers.insert("CONTENT-TYPE", HeaderValue::from_static("application/json"));
    assert_eq!(normalize(&headers, body).unwrap().tenant_id, "t1");
}

#[test]
fn content_type_is_compared_exactly() {
    let headers = headers_of(&[("content-type", "application/json; charset=utf-8")]);
    let body = br#"{"tenant_id":"t1","log_id":"abc","text":"x"}"#;
    match normalize(&headers, body) {
        Err(NormalizeError::UnsupportedContentType { content_type }) => {
            assert_eq!(content_type, "application/json; charset=utf-8")
        }
        other => panic!("unexpected outcome: {:?}", other),
    }
    let headers = headers_of(&[("content-type", "Text/Plain"), ("x-tenant-id", "acme")]);
    assert!(matches!(
        normalize(&headers, b"x"),
        Err(NormalizeError::UnsupportedContentType { .. })
    ));
}

#[test]
fn header_that_is_not_text_counts_as_absent() {
    let mut headers = HeaderMap::new();
    headers.insert("content-type", HeaderValue::from_bytes(b"text/plain\xff").unwrap());
    assert!(matches!(normalize(&headers, b"x"), Err(NormalizeError::MissingContentType)));
    let mut headers = headers_of(&[("content-type", "text/plain")]);
    headers.insert("x-tenant-id", HeaderValue::from_bytes(b"acm\xe9").unwrap());
    assert!(matches!(normalize(&headers, b"x"), Err(NormalizeError::MissingTenant)));
}

#[test]
fn first_value_of_a_repeated_header_decides() {
    let mut headers = headers_of(&[("content-type", "text/plain")]);
    headers.append("x-tenant-id", HeaderValue::from_static("first"));
    headers.append("x-tenant-id", HeaderValue::from_static("second"));
    assert_eq!(normalize(&headers, b"x").unwrap().tenant_id, "first");
}

#[test]
fn plaintext_body_is_kept_exactly() {
    let headers = headers_of(&[("content-type", "text/plain"), ("x-tenant-id", "acme")]);
    let body = "  caf\u{e9} \u{1F600}\n555-1234\t".as_bytes();
    let log = normalize(&headers, body).unwrap();
    assert_eq!(log.text, "  caf\u{e9} \u{1F600}\n555-1234\t");
    let empty = normalize(&headers, b"").unwrap();
    assert_eq!(empty.text, "");
}

#[test]
fn rejection_is_repeatable() {
    let headers = headers_of(&[("content-type", "text/plain")]);
    for _ in 0..3 {
        assert!(matches!(normalize(&headers, b"hello"), Err(NormalizeError::MissingTenant)));
    }
    assert_eq!(headers.len(), 1);
}

#[test]
fn fields_are_accepted_only_together() {
    let some = |text: &str| Some(text.to_string());
    let log = accept_fields(some("t1"), some("abc"), some("hello")).unwrap();
    assert_eq!(log.tenant_id, "t1");
    assert_eq!(log.text, "hello");
    assert_eq!(log.source.as_deref(), Some("json"));
    assert_eq!(log.metadata.unwrap().get("log_id").map(String::as_str), Some("abc"));
    assert!(matches!(accept_fields(None, some("abc"), some("x")), Err(NormalizeError::Schema)));
    assert!(matches!(accept_fields(some("t1"), None, some("x")), Err(NormalizeError::Schema)));
    assert!(matches!(accept_fields(some("t1"), some("abc"), None), Err(NormalizeError::Schema)));
    assert!(matches!(accept_fields(some(""), some("abc"), some("x")), Err(NormalizeError::Schema)));
}

#[test]
fn plaintext_record_carries_the_given_id() {
    let log = accept_plaintext(Some("acme".to_string()), "id-1".to_string(), "hello").unwrap();
    assert_eq!(log.tenant_id, "acme");
    assert_eq!(log.text, "hello");
    assert_eq!(log.source.as_deref(), Some("plaintext"));
    assert_eq!(log.metadata.unwrap().get("log_id").map(String::as_str), Some("id-1"));
    assert!(matches!(
        accept_plaintext(None, "id-1".to_string(), "hello"),
        Err(NormalizeError::MissingTenant)
    ));
    assert!(matches!(
        accept_plaintext(Some(String::new()), "id-1".to_string(), "hello"),
        Err(NormalizeError::MissingTenant)
    ));
}

#[test]
fn errors_are_reported_in_words() {
    assert_eq!(NormalizeError::MissingContentType.message(), "Missing Content-Type header");
    assert_eq!(
        NormalizeError::UnsupportedContentType { content_type: "text/html".to_string() }.message(),
        "Unsupported content-type: text/html"
    );
    assert_eq!(NormalizeError::Decode.message(), "Invalid UTF-8 in body");
    assert_eq!(NormalizeError::Schema.message(), "Failed to parse JSON body");
    assert_eq!(NormalizeError::MissingTenant.message(), "Missing X-Tenant-ID header");
}

#[test]
fn content_type_decides_the_kind_of_body() {
    assert_eq!(body_kind(Some("text/plain".to_string())).unwrap(), BodyKind::Plaintext);
    assert_eq!(body_kind(Some("application/json".to_string())).unwrap(), BodyKind::Json);
    assert!(matches!(body_kind(None), Err(NormalizeError::MissingContentType)));
    match body_kind(Some(String::new())) {
        Err(NormalizeError::UnsupportedContentType { content_type }) => {
            assert_eq!(content_type, "")
        }
        other => panic!("unexpected outcome: {:?}", other),
    }
    assert!(matches!(
        body_kind(Some("text/plain ".to_string())),
        Err(NormalizeError::UnsupportedContentType { .. })
    ));
    assert_eq!(BodyKind::Plaintext.source(), "plaintext");
    assert_eq!(BodyKind::Json.source(), "json");
}
