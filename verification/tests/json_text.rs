use plugin3_hosts::json::decimal_string;
use plugin3_hosts::{PreCompactResponse, UserPromptSubmitResponse};

#[test]
fn decimal_string_writes_numerals() {
    assert_eq!(decimal_string(0), "0");
    assert_eq!(decimal_string(7), "7");
    assert_eq!(decimal_string(10), "10");
    assert_eq!(decimal_string(42), "42");
    assert_eq!(decimal_string(1234567890), "1234567890");
    assert_eq!(decimal_string(usize::MAX), usize::MAX.to_string());
}

#[test]
fn decimal_string_agrees_with_serde_json_numbers() {
    for n in [0usize, 1, 9, 99, 100, 65535, 4294967296] {
        let v: serde_json::Value = serde_json::from_str(&decimal_string(n)).unwrap();
        assert_eq!(v, serde_json::Value::from(n));
    }
}

#[test]
fn prompt_verdict_texts_are_exact() {
    assert_eq!(UserPromptSubmitResponse::Allow.to_json(), "{\"kind\":\"allow\"}");
    assert_eq!(
        UserPromptSubmitResponse::Warn { remaining: 42 }.to_json(),
        "{\"kind\":\"warn\",\"remaining\":42}"
    );
    assert_eq!(
        UserPromptSubmitResponse::Slice {
            target_key: "abc".to_string(),
            slice_to: 100
        }
        .to_json(),
        "{\"kind\":\"slice\",\"target_key\":\"abc\",\"slice_to\":100}"
    );
    assert_eq!(
        UserPromptSubmitResponse::Compact {
            reason: "session at 100/100 tokens".to_string()
        }
        .to_json(),
        "{\"kind\":\"compact\",\"reason\":\"session at 100/100 tokens\"}"
    );
}

#[test]
fn escaped_reason_reads_back() {
    let reason = "tab\there \"quoted\" back\\slash \u{1}";
    let text = UserPromptSubmitResponse::Compact {
        reason: reason.to_string(),
    }
    .to_json();
    assert!(text.contains("\\\"quoted\\\""), "{text}");
    let v: serde_json::Value = serde_json::from_str(&text).unwrap();
    assert_eq!(v["reason"], reason);
}

#[test]
fn pre_compact_response_embeds_its_hint() {
    let r = PreCompactResponse {
        hint: "{\"summary\":\"s\",\"turns\":3}".to_string(),
    };
    assert_eq!(r.to_json(), "{\"hint\":{\"summary\":\"s\",\"turns\":3}}");
}
