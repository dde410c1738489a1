//! The host-independent payloads and responses of the three hook events,
//! and the JSON text of each response.
use vstd::prelude::*;

use crate::json::{
    decimal, decimal_string, json_quote, json_string_literal, lemma_decimal_numeral,
    lemma_three_parts, numeral_of,
};

verus! {

/// A tool result handed over after a tool ran.
#[derive(Clone, Debug, PartialEq, Eq)]
pub struct PostToolUsePayload {
    pub tool_name: String,
    /// Empty where the host gives none.
    pub tool_result_key: String,
    pub content: String,
    /// Empty where the host does not tag sessions.
    pub session_id: String,
}

/// What replaces a tool result, with an optional note for the user.
#[derive(Clone, Debug, PartialEq, Eq)]
pub struct PostToolUseResponse {
    /// The content the host keeps in place of the tool result.
    pub content: String,
    /// An optional human-readable note.
    pub note: Option<String>,
}

/// A prompt about to be submitted.
#[derive(Clone, Debug, PartialEq, Eq)]
pub struct UserPromptSubmitPayload {
    pub prompt: String,
    /// Empty where the host does not tag sessions.
    pub session_id: String,
}

/// The verdict on a submitted prompt.
#[derive(Clone, Debug, PartialEq, Eq)]
pub enum UserPromptSubmitResponse {
    Allow,
    Warn { remaining: usize },
    Slice { target_key: String, slice_to: usize },
    Compact { reason: String },
}

/// The conversation history before a compaction.
#[derive(Clone, Debug, PartialEq, Eq)]
pub struct PreCompactPayload {
    pub history_turns: Vec<Turn>,
}

/// One turn of the history.
#[derive(Clone, Debug, PartialEq, Eq)]
pub struct Turn {
    pub index: usize,
    /// `user`, `assistant` or `tool`.
    pub role: String,
    /// The first characters of the turn.
    pub content_preview: String,
}

/// A compaction hint: JSON text in whatever shape the host reads.
#[derive(Clone, Debug, PartialEq, Eq)]
pub struct PreCompactResponse {
    pub hint: String,
}

/// A verdict as JSON: `kind` holds the variant's tag, and the variant's own
/// members come after it.
pub open spec fn user_prompt_submit_json(r: UserPromptSubmitResponse) -> Seq<char> {
    match r {
        UserPromptSubmitResponse::Allow => "{\"kind\":\"allow\"}"@,
        UserPromptSubmitResponse::Warn { remaining } =>
            "{\"kind\":\"warn\",\"remaining\":"@ + decimal(remaining as nat) + "}"@,
        UserPromptSubmitResponse::Slice { target_key, slice_to } =>
            "{\"kind\":\"slice\",\"target_key\":"@ + json_string_literal(target_key@)
                + ",\"slice_to\":"@ + decimal(slice_to as nat) + "}"@,
        UserPromptSubmitResponse::Compact { reason } =>
            "{\"kind\":\"compact\",\"reason\":"@ + json_string_literal(reason@) + "}"@,
    }
}

/// The JSON text of a compaction response: the hint under `hint`.
pub open spec fn pre_compact_response_json(hint: Seq<char>) -> Seq<char> {
    "{\"hint\":"@ + hint + "}"@
}

/// The JSON text of the hint that counts the turns of a history.
pub open spec fn turns_hint_json(turns: nat) -> Seq<char> {
    "{\"turns\":"@ + decimal(turns) + "}"@
}

impl UserPromptSubmitResponse {
    /// Writes the verdict as JSON text.
    pub fn to_json(&self) -> (r: String)
        ensures
            r@ == user_prompt_submit_json(*self),
            self matches UserPromptSubmitResponse::Warn { remaining } ==> {
                let p = "{\"kind\":\"warn\",\"remaining\":"@;
                &&& r@.subrange(0, p.len() as int) == p
                &&& numeral_of(r@.subrange(p.len() as int, r@.len() - 1), remaining as nat)
            },
            self matches UserPromptSubmitResponse::Slice { target_key, slice_to } ==> {
                let at = "{\"kind\":\"slice\",\"target_key\":"@.len()
                    + json_string_literal(target_key@).len() + ",\"slice_to\":"@.len();
                numeral_of(r@.subrange(at as int, r@.len() - 1), slice_to as nat)
            },
    {
        proof {
            lemma_verdict_json_fields(*self);
        }
        match self {
            UserPromptSubmitResponse::Allow => String::from_str("{\"kind\":\"allow\"}"),
            UserPromptSubmitResponse::Warn { remaining } => {
                let mut s = String::from_str("{\"kind\":\"warn\",\"remaining\":");
                let n = decimal_string(*remaining);
                s.append(n.as_str());
                s.append("}");
                s
            },
            UserPromptSubmitResponse::Slice { target_key, slice_to } => {
                let mut s = String::from_str("{\"kind\":\"slice\",\"target_key\":");
                let k = json_quote(target_key.as_str());
                s.append(k.as_str());
                s.append(",\"slice_to\":");
                let n = decimal_string(*slice_to);
                s.append(n.as_str());
                s.append("}");
                s
            },
            UserPromptSubmitResponse::Compact { reason } => {
                let mut s = String::from_str("{\"kind\":\"compact\",\"reason\":");
                let q = json_quote(reason.as_str());
                s.append(q.as_str());
                s.append("}");
                s
            },
        }
    }
}

impl PreCompactResponse {
    /// Writes the response as JSON text, the hint inserted as it is.
    pub fn to_json(&self) -> (r: String)
        ensures
            r@ == pre_compact_response_json(self.hint@),
            r@.len() == "{\"hint\":"@.len() + self.hint@.len() + 1,
            r@.subrange(0, "{\"hint\":"@.len() as int) == "{\"hint\":"@,
            r@.subrange("{\"hint\":"@.len() as int, ("{\"hint\":"@.len() + self.hint@.len()) as int)
                == self.hint@,
    {
        proof {
            lemma_hint_embedded_verbatim(self.hint@);
        }
        let mut s = String::from_str("{\"hint\":");
        s.append(self.hint.as_str());
        s.append("}");
        s
    }
}

/// Writes the hint that counts `turns` turns.
pub fn turns_hint(turns: usize) -> (r: String)
    ensures
        r@ == turns_hint_json(turns as nat),
{
    let mut s = String::from_str("{\"turns\":");
    let n = decimal_string(turns);
    s.append(n.as_str());
    s.append("}");
    s
}

/// A warning's JSON holds, after its opening, the decimal numeral of the
/// remaining budget and then the closing brace; a slice's holds the target
/// key's string literal and then the numeral of `slice_to`; a compaction's
/// holds the reason's string literal.
pub proof fn lemma_verdict_json_fields(r: UserPromptSubmitResponse)
    ensures
        ({
            let out = user_prompt_submit_json(r);
            match r {
                UserPromptSubmitResponse::Allow => out == "{\"kind\":\"allow\"}"@,
                UserPromptSubmitResponse::Warn { remaining } => {
                    let p = "{\"kind\":\"warn\",\"remaining\":"@;
                    &&& out.len() > p.len() + 1
                    &&& out.subrange(0, p.len() as int) == p
                    &&& numeral_of(out.subrange(p.len() as int, out.len() - 1), remaining as nat)
                    &&& out.subrange(out.len() - 1, out.len() as int) == "}"@
                },
                UserPromptSubmitResponse::Slice { target_key, slice_to } => {
                    let p = "{\"kind\":\"slice\",\"target_key\":"@;
                    let k = json_string_literal(target_key@);
                    let q = ",\"slice_to\":"@;
                    let at = p.len() + k.len() + q.len();
                    &&& out.len() > at + 1
                    &&& out.subrange(0, p.len() as int) == p
                    &&& out.subrange(p.len() as int, (p.len() + k.len()) as int) == k
                    &&& out.subrange((p.len() + k.len()) as int, at as int) == q
                    &&& numeral_of(out.subrange(at as int, out.len() - 1), slice_to as nat)
                    &&& out.subrange(out.len() - 1, out.len() as int) == "}"@
                },
                UserPromptSubmitResponse::Compact { reason } => {
                    let p = "{\"kind\":\"compact\",\"reason\":"@;
                    let j = json_string_literal(reason@);
                    &&& out.len() == p.len() + j.len() + 1
                    &&& out.subrange(0, p.len() as int) == p
                    &&& out.subrange(p.len() as int, (p.len() + j.len()) as int) == j
                    &&& out.subrange(out.len() - 1, out.len() as int) == "}"@
                },
            }
        }),
{
    reveal_strlit("}");
    match r {
        UserPromptSubmitResponse::Allow => {},
        UserPromptSubmitResponse::Warn { remaining } => {
            let p = "{\"kind\":\"warn\",\"remaining\":"@;
            lemma_decimal_numeral(remaining as nat);
            lemma_three_parts(p, decimal(remaining as nat), "}"@);
        },
        UserPromptSubmitResponse::Slice { target_key, slice_to } => {
            let p = "{\"kind\":\"slice\",\"target_key\":"@;
            let k = json_string_literal(target_key@);
            let q = ",\"slice_to\":"@;
            let m = decimal(slice_to as nat);
            lemma_decimal_numeral(slice_to as nat);
            let out = user_prompt_submit_json(r);
            assert(out == (p + k + q) + m + "}"@);
            lemma_three_parts(p + k + q, m, "}"@);
            lemma_three_parts(p, k, q);
            assert(out.subrange(0, p.len() as int) =~= (p + k + q).subrange(0, p.len() as int));
            assert(out.subrange(p.len() as int, (p.len() + k.len()) as int)
                =~= (p + k + q).subrange(p.len() as int, (p.len() + k.len()) as int));
            assert(out.subrange((p.len() + k.len()) as int, (p.len() + k.len() + q.len()) as int)
                =~= (p + k + q).subrange((p.len() + k.len()) as int, (p.len() + k.len() + q.len()) as int));
        },
        UserPromptSubmitResponse::Compact { reason } => {
            let p = "{\"kind\":\"compact\",\"reason\":"@;
            lemma_three_parts(p, json_string_literal(reason@), "}"@);
        },
    }
}

/// A compaction response holds the hint unchanged between `{"hint":` and the
/// closing brace, whatever the hint's text.
pub proof fn lemma_hint_embedded_verbatim(hint: Seq<char>)
    ensures
        ({
            let out = pre_compact_response_json(hint);
            let p = "{\"hint\":"@;
            &&& out.len() == p.len() + hint.len() + 1
            &&& out.subrange(0, p.len() as int) == p
            &&& out.subrange(p.len() as int, (p.len() + hint.len()) as int) == hint
            &&& out.subrange(out.len() - 1, out.len() as int) == "}"@
        }),
{
    reveal_strlit("}");
    lemma_three_parts("{\"hint\":"@, hint, "}"@);
}

/// The turns hint holds the decimal numeral of the turn count between
/// `{"turns":` and the closing brace.
pub proof fn lemma_turns_hint_counts(turns: nat)
    ensures
        ({
            let out = turns_hint_json(turns);
            let p = "{\"turns\":"@;
            &&& out.len() > p.len() + 1
            &&& out.subrange(0, p.len() as int) == p
            &&& numeral_of(out.subrange(p.len() as int, out.len() - 1), turns)
            &&& out.subrange(out.len() - 1, out.len() as int) == "}"@
        }),
{
    reveal_strlit("}");
    lemma_decimal_numeral(turns);
    lemma_three_parts("{\"turns\":"@, decimal(turns), "}"@);
}

} // verus!
