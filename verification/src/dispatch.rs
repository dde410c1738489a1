//! The single entry point: routes a host's event to its shim, or answers
//! with the `unsupported` envelope where the host has no shim yet.
use vstd::prelude::*;

use crate::canonical::{PostToolUsePayload, PreCompactPayload, UserPromptSubmitPayload};
use crate::claude_code::{
    handle_post_tool_use, handle_pre_compact, handle_user_prompt_submit, lemma_null_note_tail,
    post_tool_use_json, pre_compact_envelope, user_prompt_submit_envelope,
};
use crate::host::{event_name, host_name, Event, Host};
use crate::json::{json_quote, json_string_literal, plain_text, quoted};

verus! {

/// A hook payload as the shim received it: read into the canonical payload
/// of its event, or left unread.
pub enum Payload {
    PostToolUse(PostToolUsePayload),
    UserPromptSubmit(UserPromptSubmitPayload),
    PreCompact(PreCompactPayload),
    /// A payload the shim has not read, as for a host with no shim.
    Unread,
}

/// Whether the payload was read as the canonical payload of `e`.
pub open spec fn payload_matches(p: Payload, e: Event) -> bool {
    match (p, e) {
        (Payload::PostToolUse(_), Event::PostToolUse) => true,
        (Payload::UserPromptSubmit(_), Event::UserPromptSubmit) => true,
        (Payload::PreCompact(_), Event::PreCompact) => true,
        _ => false,
    }
}

/// Whether a real shim answers `e` from `h`: only `ClaudeCode` has one.
pub open spec fn is_supported(h: Host, e: Event) -> bool {
    h == Host::ClaudeCode
}

/// The value of the `unsupported` envelope: host and event names, split by
/// a single `/`.
pub open spec fn unsupported_value(h: Host, e: Event) -> Seq<char> {
    host_name(h) + "/"@ + event_name(e)
}

/// The envelope that answers a host with no shim.
pub open spec fn unsupported_json(h: Host, e: Event) -> Seq<char> {
    "{\"unsupported\":"@ + quoted(unsupported_value(h, e)) + "}"@
}

/// What `emit_to` writes for `e` from `h` with payload `p`.
pub open spec fn emit_json(h: Host, e: Event, p: Payload) -> Seq<char> {
    if is_supported(h, e) {
        match p {
            Payload::PostToolUse(pl) => post_tool_use_json(pl.content@, None),
            Payload::UserPromptSubmit(_) => user_prompt_submit_envelope(),
            Payload::PreCompact(pl) => pre_compact_envelope(pl.history_turns@.len()),
            Payload::Unread => Seq::empty(),
        }
    } else {
        unsupported_json(h, e)
    }
}

/// Whether `e` from `h` reaches a real shim.
pub fn supports(h: Host, e: Event) -> (r: bool)
    ensures
        r == is_supported(h, e),
{
    match h {
        Host::ClaudeCode => true,
        _ => false,
    }
}

/// Writes the `unsupported` envelope for `e` from `h`.
pub fn unsupported_envelope(h: Host, e: Event) -> (r: String)
    ensures
        r@ == unsupported_json(h, e),
{
    let mut value = String::from_str(h.name());
    value.append("/");
    value.append(e.name());
    proof {
        lemma_names_plain(h, e);
    }
    let mut s = String::from_str("{\"unsupported\":");
    let q = json_quote(value.as_str());
    s.append(q.as_str());
    s.append("}");
    s
}

/// Routes `e` from `h` to the host's shim; a host with no shim gets the
/// `unsupported` envelope and its payload is not read.
pub fn emit_to(host: Host, event: Event, payload: Payload) -> (r: String)
    requires
        is_supported(host, event) ==> payload_matches(payload, event),
    ensures
        r@ == emit_json(host, event, payload),
        is_supported(host, event) ==> (payload matches Payload::PostToolUse(pl) ==> {
            &&& r@ == "{\"content\":"@ + json_string_literal(pl.content@) + ",\"note\":null}"@
            &&& plain_text(pl.content@) ==> r@ == "{\"content\":"@ + quoted(pl.content@)
                + ",\"note\":null}"@
            &&& forall|t: Seq<char>| #[trigger] post_tool_use_json(t, None) == r@ ==> t == pl.content@
        }),
{
    match host {
        Host::ClaudeCode => match payload {
            Payload::PostToolUse(p) => handle_post_tool_use(p),
            Payload::UserPromptSubmit(p) => handle_user_prompt_submit(p),
            Payload::PreCompact(p) => handle_pre_compact(p),
            Payload::Unread => {
                proof {
                    assert(false);
                }
                String::new()
            },
        },
        _ => unsupported_envelope(host, event),
    }
}

proof fn lemma_names_plain(h: Host, e: Event)
    ensures
        plain_text(unsupported_value(h, e)),
        !host_name(h).contains('/'),
        !event_name(e).contains('/'),
{
    reveal_strlit("ClaudeCode");
    reveal_strlit("Cursor");
    reveal_strlit("Aider");
    reveal_strlit("PostToolUse");
    reveal_strlit("UserPromptSubmit");
    reveal_strlit("PreCompact");
    reveal_strlit("/");
}

/// The opening of the `unsupported` envelope.
pub open spec fn stub_prefix() -> Seq<char> {
    "{\"unsupported\":"@
}

/// Whether `s` has the shape of the `unsupported` envelope.
pub open spec fn is_stub(s: Seq<char>) -> bool {
    s.len() >= stub_prefix().len() && s.subrange(0, stub_prefix().len() as int) == stub_prefix()
}

/// The `unsupported` value holds exactly one `/`, right after the host's
/// name; before it stands the host's name, after it the event's; so the value
/// gives back the host and the event it was written for.
pub proof fn lemma_unsupported_value_splits(h: Host, e: Event, h2: Host, e2: Event)
    ensures
        ({
            let v = unsupported_value(h, e);
            let k = host_name(h).len() as int;
            &&& forall|i: int| 0 <= i < v.len() ==> (#[trigger] v[i] == '/' <==> i == k)
            &&& v.subrange(0, k) == host_name(h)
            &&& v.subrange(k + 1, v.len() as int) == event_name(e)
        }),
        unsupported_value(h, e) == unsupported_value(h2, e2) ==> h == h2 && e == e2,
{
    lemma_names_plain(h, e);
    lemma_names_plain(h2, e2);
    let v = unsupported_value(h, e);
    let k = host_name(h).len() as int;
    reveal_strlit("/");
    assert forall|i: int| 0 <= i < v.len() implies (#[trigger] v[i] == '/' <==> i == k) by {
        if i < k {
            assert(v[i] == host_name(h)[i]);
            assert(host_name(h).contains(host_name(h)[i]));
        } else if i > k {
            assert(v[i] == event_name(e)[i - k - 1]);
            assert(event_name(e).contains(event_name(e)[i - k - 1]));
        }
    }
    assert(v.subrange(0, k) =~= host_name(h));
    assert(v.subrange(k + 1, v.len() as int) =~= event_name(e));
    if unsupported_value(h, e) == unsupported_value(h2, e2) {
        let v2 = unsupported_value(h2, e2);
        let k2 = host_name(h2).len() as int;
        assert(v2[k2] == '/');
        assert(k == k2);
        assert(v2.subrange(0, k2) =~= host_name(h2));
        assert(v2.subrange(k2 + 1, v2.len() as int) =~= event_name(e2));
        lemma_names_distinct(h, e, h2, e2);
    }
}

proof fn lemma_names_distinct(h: Host, e: Event, h2: Host, e2: Event)
    ensures
        host_name(h) == host_name(h2) ==> h == h2,
        event_name(e) == event_name(e2) ==> e == e2,
{
    reveal_strlit("ClaudeCode");
    reveal_strlit("Cursor");
    reveal_strlit("Aider");
    reveal_strlit("PostToolUse");
    reveal_strlit("UserPromptSubmit");
    reveal_strlit("PreCompact");
    assert("ClaudeCode"@.len() != "Cursor"@.len());
    assert("ClaudeCode"@.len() != "Aider"@.len());
    assert("Cursor"@.len() != "Aider"@.len());
    assert("PostToolUse"@.len() != "UserPromptSubmit"@.len());
    assert("PostToolUse"@.len() != "PreCompact"@.len());
    assert("UserPromptSubmit"@.len() != "PreCompact"@.len());
}

/// A host with a shim never gets the `unsupported` envelope, and a host
/// without one always does.
pub proof fn lemma_stub_only_without_shim(h: Host, e: Event, p: Payload)
    requires
        is_supported(h, e) ==> payload_matches(p, e),
    ensures
        is_stub(emit_json(h, e, p)) <==> !is_supported(h, e),
{
    let out = emit_json(h, e, p);
    let n = stub_prefix().len() as int;
    reveal_strlit("{\"unsupported\":");
    if is_supported(h, e) {
        reveal_strlit("{\"content\":");
        reveal_strlit("{\"kind\":\"allow\"}");
        reveal_strlit("{\"hint\":");
        assert(out[2] != 'u');
        assert(stub_prefix()[2] == 'u');
        if out.len() >= n {
            assert(out.subrange(0, n)[2] == out[2]);
        }
    } else {
        assert(out.subrange(0, n) =~= stub_prefix());
    }
}

/// A host with a shim answers a tool result with the content's string literal
/// under `content` and a null note: the tool's name, its result key and the
/// session play no part, and two payloads with the same content get the same
/// envelope.
pub proof fn lemma_emit_passes_content_through(h: Host, pl: PostToolUsePayload, other: PostToolUsePayload)
    requires
        is_supported(h, Event::PostToolUse),
    ensures
        emit_json(h, Event::PostToolUse, Payload::PostToolUse(pl))
            == "{\"content\":"@ + json_string_literal(pl.content@) + ",\"note\":null}"@,
        other.content@ == pl.content@ ==> emit_json(h, Event::PostToolUse, Payload::PostToolUse(other))
            == emit_json(h, Event::PostToolUse, Payload::PostToolUse(pl)),
{
    lemma_null_note_tail();
}

} // verus!
