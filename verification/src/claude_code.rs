//! The `ClaudeCode` shim: canonical payload in, the host's JSON envelope out.
use vstd::prelude::*;

use crate::canonical::{
    pre_compact_response_json, turns_hint, turns_hint_json, user_prompt_submit_json,
    PostToolUsePayload, PostToolUseResponse, PreCompactPayload, PreCompactResponse,
    UserPromptSubmitPayload, UserPromptSubmitResponse,
};
use crate::json::{
    decimal, json_quote, json_string_literal, lemma_decimal_numeral, lemma_three_parts,
    numeral_of, plain_text, quoted,
};

verus! {

/// The note as JSON: `null` when absent, else its string literal.
pub open spec fn note_json(note: Option<Seq<char>>) -> Seq<char> {
    match note {
        Some(n) => json_string_literal(n),
        None => "null"@,
    }
}

/// The envelope of a tool-result response: `content` and `note`.
pub open spec fn post_tool_use_json(content: Seq<char>, note: Option<Seq<char>>) -> Seq<char> {
    "{\"content\":"@ + json_string_literal(content) + ",\"note\":"@ + note_json(note) + "}"@
}

/// The note of a response, by its view.
pub open spec fn note_view(note: Option<String>) -> Option<Seq<char>> {
    match note {
        Some(n) => Some(n@),
        None => None,
    }
}

/// The envelope of a prompt submission: the verdict is always `allow`.
pub open spec fn user_prompt_submit_envelope() -> Seq<char> {
    user_prompt_submit_json(UserPromptSubmitResponse::Allow)
}

/// The envelope of a compaction: the hint counts the turns.
pub open spec fn pre_compact_envelope(turns: nat) -> Seq<char> {
    pre_compact_response_json(turns_hint_json(turns))
}

/// Answers a tool result by passing its content through, with no note.
pub fn handle_post_tool_use(payload: PostToolUsePayload) -> (r: String)
    ensures
        r@ == post_tool_use_json(payload.content@, None),
        r@ == "{\"content\":"@ + json_string_literal(payload.content@) + ",\"note\":null}"@,
        plain_text(payload.content@) ==> r@ == "{\"content\":"@ + quoted(payload.content@)
            + ",\"note\":null}"@,
        forall|t: Seq<char>| #[trigger] post_tool_use_json(t, None) == r@ ==> t == payload.content@,
{
    proof {
        lemma_null_note_tail();
    }
    let response = PostToolUseResponse { content: payload.content, note: None };
    translate_post_tool_use_response(response)
}

/// Answers a prompt submission with the `allow` verdict.
pub fn handle_user_prompt_submit(payload: UserPromptSubmitPayload) -> (r: String)
    ensures
        r@ == user_prompt_submit_envelope(),
{
    let _canonical = payload;
    let response = UserPromptSubmitResponse::Allow;
    response.to_json()
}

/// Answers a compaction with a hint that counts the history's turns.
pub fn handle_pre_compact(payload: PreCompactPayload) -> (r: String)
    ensures
        r@ == pre_compact_envelope(payload.history_turns@.len()),
        ({
            let p = "{\"hint\":"@ + "{\"turns\":"@;
            let q = "}"@ + "}"@;
            &&& r@.len() > p.len() + q.len()
            &&& r@.subrange(0, p.len() as int) == p
            &&& numeral_of(r@.subrange(p.len() as int, r@.len() - q.len()), payload.history_turns@.len())
            &&& r@.subrange(r@.len() - q.len(), r@.len() as int) == q
        }),
{
    proof {
        lemma_pre_compact_counts_turns(payload.history_turns@.len());
    }
    let response = PreCompactResponse { hint: turns_hint(payload.history_turns.len()) };
    response.to_json()
}

/// Writes a tool-result response in the host's envelope.
pub fn translate_post_tool_use_response(r: PostToolUseResponse) -> (out: String)
    ensures
        out@ == post_tool_use_json(r.content@, note_view(r.note)),
        plain_text(r.content@) && r.note is None ==> out@ == "{\"content\":"@ + quoted(r.content@)
            + ",\"note\":null}"@,
        forall|t: Seq<char>| #[trigger] post_tool_use_json(t, note_view(r.note)) == out@ ==> t == r.content@,
{
    let mut s = String::from_str("{\"content\":");
    let c = json_quote(r.content.as_str());
    s.append(c.as_str());
    s.append(",\"note\":");
    match &r.note {
        Some(n) => {
            let q = json_quote(n.as_str());
            s.append(q.as_str());
        },
        None => {
            s.append("null");
        },
    }
    s.append("}");
    proof {
        lemma_null_note_tail();
        let n = note_view(r.note);
        assert forall|t: Seq<char>| #[trigger] post_tool_use_json(t, n) == s@ implies t == r.content@ by {
            lemma_post_tool_use_envelope(t, n);
            lemma_post_tool_use_envelope(r.content@, n);
            let p = "{\"content\":"@;
            let k = json_string_literal(t).len();
            assert(json_string_literal(t).len() == c@.len());
            assert(json_string_literal(t) == s@.subrange(p.len() as int, (p.len() + k) as int));
            assert(json_string_literal(t) == c@);
        }
    }
    s
}

pub(crate) proof fn lemma_null_note_tail()
    ensures
        ",\"note\":"@ + "null"@ + "}"@ == ",\"note\":null}"@,
{
    reveal_strlit(",\"note\":");
    reveal_strlit("null");
    reveal_strlit("}");
    reveal_strlit(",\"note\":null}");
    assert(",\"note\":"@ + "null"@ + "}"@ =~= ",\"note\":null}"@);
}

/// A tool-result envelope holds, in order, `{"content":`, the content's string
/// literal, `,"note":`, `null` or the note's string literal, and `}`.
pub proof fn lemma_post_tool_use_envelope(content: Seq<char>, note: Option<Seq<char>>)
    ensures
        ({
            let out = post_tool_use_json(content, note);
            let p = "{\"content\":"@;
            let j = json_string_literal(content);
            let q = ",\"note\":"@;
            let nj = match note {
                Some(n) => json_string_literal(n),
                None => "null"@,
            };
            &&& out == p + j + (q + nj + "}"@)
            &&& out.len() == p.len() + j.len() + q.len() + nj.len() + 1
            &&& out.subrange(0, p.len() as int) == p
            &&& out.subrange(p.len() as int, (p.len() + j.len()) as int) == j
            &&& out.subrange((p.len() + j.len()) as int, out.len() as int) == q + nj + "}"@
        }),
{
    let p = "{\"content\":"@;
    let j = json_string_literal(content);
    let q = ",\"note\":"@;
    let nj = note_json(note);
    assert(post_tool_use_json(content, note) =~= p + j + (q + nj + "}"@));
    lemma_three_parts(p, j, q + nj + "}"@);
    reveal_strlit("}");
}

/// A compaction envelope holds, after `{"hint":{"turns":`, the decimal
/// numeral of the turn count, and then `}}`.
pub proof fn lemma_pre_compact_counts_turns(turns: nat)
    ensures
        ({
            let out = pre_compact_envelope(turns);
            let p = "{\"hint\":"@ + "{\"turns\":"@;
            let q = "}"@ + "}"@;
            &&& out.len() > p.len() + q.len()
            &&& out.subrange(0, p.len() as int) == p
            &&& numeral_of(out.subrange(p.len() as int, out.len() - q.len()), turns)
            &&& out.subrange(out.len() - q.len(), out.len() as int) == q
        }),
{
    let p = "{\"hint\":"@ + "{\"turns\":"@;
    let q = "}"@ + "}"@;
    let m = decimal(turns);
    lemma_decimal_numeral(turns);
    assert(pre_compact_envelope(turns) =~= p + m + q);
    lemma_three_parts(p, m, q);
}

} // verus!
