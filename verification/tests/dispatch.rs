use plugin3_hosts::{
    emit_to, supports, unsupported_envelope, Event, Host, Payload, PostToolUsePayload,
    PreCompactPayload, Turn, UserPromptSubmitPayload, UserPromptSubmitResponse,
};
use serde_json::Value;

fn parse(text: &str) -> Value {
    serde_json::from_str(text).unwrap_or_else(|e| panic!("not JSON: {text:?}: {e}"))
}

fn obj(pairs: Vec<(&str, Value)>) -> Value {
    let mut m = serde_json::Map::new();
    for (k, v) in pairs {
        m.insert(k.to_string(), v);
    }
    Value::Object(m)
}

fn s(text: &str) -> Value {
    Value::String(text.to_string())
}

fn post_tool_use(tool_name: &str, key: &str, content: &str, session: &str) -> Payload {
    Payload::PostToolUse(PostToolUsePayload {
        tool_name: tool_name.to_string(),
        tool_result_key: key.to_string(),
        content: content.to_string(),
        session_id: session.to_string(),
    })
}

#[test]
fn emit_to_routes_post_tool_use_to_claude_code_shim() {
    let input = post_tool_use("cargo test", "abc", "running 1 test\n", "s1");
    let out = parse(&emit_to(Host::ClaudeCode, Event::PostToolUse, input));
    assert!(
        out["content"].is_string(),
        "expected content field, got: {out}"
    );
    assert!(
        out["note"].is_null() || out["note"].is_string(),
        "expected nullable note, got: {out}"
    );
}

#[test]
fn emit_to_routes_user_prompt_submit_to_claude_code_shim() {
    let input = Payload::UserPromptSubmit(UserPromptSubmitPayload {
        prompt: "hi".to_string(),
        session_id: "s1".to_string(),
    });
    let out = parse(&emit_to(Host::ClaudeCode, Event::UserPromptSubmit, input));
    assert_eq!(out["kind"], "allow");
}

#[test]
fn emit_to_routes_pre_compact_to_claude_code_shim() {
    let input = Payload::PreCompact(PreCompactPayload {
        history_turns: vec![Turn {
            index: 0,
            role: "user".to_string(),
            content_preview: "hi".to_string(),
        }],
    });
    let out = parse(&emit_to(Host::ClaudeCode, Event::PreCompact, input));
    assert_eq!(out["hint"]["turns"], 1);
}

#[test]
fn emit_to_unsupported_branch_pins_stub_wire_shape() {
    let out = parse(&emit_to(Host::Cursor, Event::PostToolUse, Payload::Unread));
    assert_eq!(
        out,
        obj(vec![("unsupported", s("Cursor/PostToolUse"))]),
        "Cursor/PostToolUse stub must serialise to the exact shape \
         `{{\"unsupported\": \"Cursor/PostToolUse\"}}`"
    );

    for (host, event) in [
        (Host::Cursor, Event::PostToolUse),
        (Host::Cursor, Event::UserPromptSubmit),
        (Host::Cursor, Event::PreCompact),
        (Host::Aider, Event::PostToolUse),
        (Host::Aider, Event::UserPromptSubmit),
        (Host::Aider, Event::PreCompact),
    ] {
        let out = parse(&emit_to(host, event, Payload::Unread));
        let v = out
            .get("unsupported")
            .and_then(|x| x.as_str())
            .unwrap_or_else(|| {
                panic!(
                    "{host:?}/{event:?} stub must carry a string `unsupported` \
                     field, got: {out}"
                )
            });
        let parts: Vec<&str> = v.split('/').collect();
        assert_eq!(
            parts.len(),
            2,
            "{host:?}/{event:?} stub value must split on '/' into exactly 2 parts, got: {v:?}"
        );
        assert!(
            parts[0].contains("Cursor") || parts[0].contains("Aider"),
            "{host:?}/{event:?} stub first half must name the host variant, got: {parts:?}"
        );
        assert!(
            parts[1].contains("PostToolUse")
                || parts[1].contains("UserPromptSubmit")
                || parts[1].contains("PreCompact"),
            "{host:?}/{event:?} stub second half must name the event variant, got: {parts:?}",
        );
    }
}

#[test]
fn emit_to_supported_branch_does_not_return_stub_shape() {
    let out = parse(&emit_to(
        Host::ClaudeCode,
        Event::PostToolUse,
        post_tool_use("x", "k", "hi", "s"),
    ));
    assert!(
        out.get("unsupported").is_none(),
        "supported combination must not return stub shape, got: {out}"
    );
}

#[test]
fn user_prompt_submit_response_wire_shape_pins_all_four_variants() {
    let allow = parse(&UserPromptSubmitResponse::Allow.to_json());
    assert_eq!(
        allow,
        obj(vec![("kind", s("allow"))]),
        "Allow must serialise as a tagged-enum {{kind: allow}} object"
    );

    let warn = parse(&UserPromptSubmitResponse::Warn { remaining: 42 }.to_json());
    assert_eq!(
        warn,
        obj(vec![("kind", s("warn")), ("remaining", Value::from(42))]),
        "Warn must serialise with kind=warn and inline `remaining` field"
    );

    let slice = parse(
        &UserPromptSubmitResponse::Slice {
            target_key: "abc".into(),
            slice_to: 100,
        }
        .to_json(),
    );
    assert_eq!(
        slice,
        obj(vec![
            ("kind", s("slice")),
            ("target_key", s("abc")),
            ("slice_to", Value::from(100)),
        ]),
        "Slice must serialise with kind=slice and inline `target_key` and `slice_to` fields"
    );

    let compact = parse(
        &UserPromptSubmitResponse::Compact {
            reason: "session at 100/100 tokens".into(),
        }
        .to_json(),
    );
    assert_eq!(
        compact,
        obj(vec![
            ("kind", s("compact")),
            ("reason", s("session at 100/100 tokens")),
        ]),
        "Compact must serialise with kind=compact and inline `reason` field"
    );
}

#[test]
fn only_claude_code_has_a_shim() {
    for e in [Event::PostToolUse, Event::UserPromptSubmit, Event::PreCompact] {
        assert!(supports(Host::ClaudeCode, e));
        assert!(!supports(Host::Cursor, e));
        assert!(!supports(Host::Aider, e));
    }
}

#[test]
fn unsupported_envelope_texts_are_exact() {
    let cases = [
        (Host::Cursor, Event::PostToolUse, "{\"unsupported\":\"Cursor/PostToolUse\"}"),
        (Host::Cursor, Event::UserPromptSubmit, "{\"unsupported\":\"Cursor/UserPromptSubmit\"}"),
        (Host::Cursor, Event::PreCompact, "{\"unsupported\":\"Cursor/PreCompact\"}"),
        (Host::Aider, Event::PostToolUse, "{\"unsupported\":\"Aider/PostToolUse\"}"),
        (Host::Aider, Event::UserPromptSubmit, "{\"unsupported\":\"Aider/UserPromptSubmit\"}"),
        (Host::Aider, Event::PreCompact, "{\"unsupported\":\"Aider/PreCompact\"}"),
        (Host::ClaudeCode, Event::PreCompact, "{\"unsupported\":\"ClaudeCode/PreCompact\"}"),
    ];
    for (h, e, expected) in cases {
        assert_eq!(unsupported_envelope(h, e), expected);
    }
    assert_eq!(
        emit_to(Host::Aider, Event::PreCompact, Payload::Unread),
        "{\"unsupported\":\"Aider/PreCompact\"}"
    );
}

#[test]
fn unsupported_values_decompose_into_host_and_event() {
    let hosts = [Host::ClaudeCode, Host::Cursor, Host::Aider];
    let events = [Event::PostToolUse, Event::UserPromptSubmit, Event::PreCompact];
    let mut seen: Vec<String> = Vec::new();
    for h in hosts {
        for e in events {
            let out = parse(&unsupported_envelope(h, e));
            let v = out["unsupported"].as_str().unwrap().to_string();
            assert_eq!(v.matches('/').count(), 1);
            let (left, right) = v.split_once('/').unwrap();
            assert_eq!(left, h.name());
            assert_eq!(right, e.name());
            assert!(!seen.contains(&v), "{v} written for two pairs");
            seen.push(v);
        }
    }
}

#[test]
fn supported_envelopes_never_open_like_the_stub() {
    let outs = [
        emit_to(Host::ClaudeCode, Event::PostToolUse, post_tool_use("t", "", "{\"unsupported\":", "")),
        emit_to(
            Host::ClaudeCode,
            Event::UserPromptSubmit,
            Payload::UserPromptSubmit(UserPromptSubmitPayload {
                prompt: "p".to_string(),
                session_id: String::new(),
            }),
        ),
        emit_to(
            Host::ClaudeCode,
            Event::PreCompact,
            Payload::PreCompact(PreCompactPayload { history_turns: vec![] }),
        ),
    ];
    for out in outs {
        assert!(!out.starts_with("{\"unsupported\":"), "{out}");
    }
    assert!(unsupported_envelope(Host::Cursor, Event::PreCompact).starts_with("{\"unsupported\":"));
}
