use vstd::prelude::*;

use crate::json::{json_quote, plain_text, quoted};

verus! {

/// The agent hosts a hook invocation can come from.
#[derive(Clone, Copy, Debug, PartialEq, Eq)]
pub enum Host {
    ClaudeCode,
    Cursor,
    Aider,
}

/// The hook events the shim answers.
#[derive(Clone, Copy, Debug, PartialEq, Eq)]
pub enum Event {
    PostToolUse,
    UserPromptSubmit,
    PreCompact,
}

/// A source of environment flags: whether a variable is set.
///
/// An implementation gives `spec_is_set`, which says which variables are set,
/// and `is_set`, which answers by it.
pub trait EnvSource {
    /// Whether the variable named `key` is set in this source.
    spec fn spec_is_set(&self, key: &str) -> bool;

    /// Answers whether the variable named `key` is set.
    fn is_set(&self, key: &str) -> (r: bool)
        ensures
            r == self.spec_is_set(key),
    ;
}

/// The host chosen from the three detection flags: `CLAUDE_CODE` wins over
/// `CURSOR_TRACE_ID`, which wins over `AIDER`; with none set it is `ClaudeCode`.
pub open spec fn spec_host_from_flags(claude_code: bool, cursor_trace_id: bool, aider: bool) -> Host {
    if claude_code {
        Host::ClaudeCode
    } else if cursor_trace_id {
        Host::Cursor
    } else if aider {
        Host::Aider
    } else {
        Host::ClaudeCode
    }
}

/// Picks the host from whether `CLAUDE_CODE`, `CURSOR_TRACE_ID` and `AIDER`
/// are set.
pub fn host_from_flags(claude_code: bool, cursor_trace_id: bool, aider: bool) -> (h: Host)
    ensures
        h == spec_host_from_flags(claude_code, cursor_trace_id, aider),
{
    if claude_code {
        Host::ClaudeCode
    } else if cursor_trace_id {
        Host::Cursor
    } else if aider {
        Host::Aider
    } else {
        Host::ClaudeCode
    }
}

/// Detects the host from the variables that `env` reports as set.
///
/// It asks `env` about `CLAUDE_CODE`, then `CURSOR_TRACE_ID`, then `AIDER`,
/// stopping at the first one set, and `host_from_flags` decides on the
/// answers.
pub fn detect_host_with(env: &dyn EnvSource) -> (h: Host)
    ensures
        h == spec_host_from_flags(
            env.spec_is_set("CLAUDE_CODE"),
            env.spec_is_set("CURSOR_TRACE_ID"),
            env.spec_is_set("AIDER"),
        ),
{
    let claude_code = env.is_set("CLAUDE_CODE");
    let cursor_trace_id = if claude_code {
        false
    } else {
        env.is_set("CURSOR_TRACE_ID")
    };
    let aider = if claude_code || cursor_trace_id {
        false
    } else {
        env.is_set("AIDER")
    };
    host_from_flags(claude_code, cursor_trace_id, aider)
}

/// The name of a host as `Debug` prints it.
pub open spec fn host_name(h: Host) -> Seq<char> {
    match h {
        Host::ClaudeCode => "ClaudeCode"@,
        Host::Cursor => "Cursor"@,
        Host::Aider => "Aider"@,
    }
}

/// The name of an event as `Debug` prints it.
pub open spec fn event_name(e: Event) -> Seq<char> {
    match e {
        Event::PostToolUse => "PostToolUse"@,
        Event::UserPromptSubmit => "UserPromptSubmit"@,
        Event::PreCompact => "PreCompact"@,
    }
}

/// Whether `c` is an ASCII capital letter.
pub open spec fn is_ascii_upper(c: char) -> bool {
    'A' <= c <= 'Z'
}

/// `c` with an ASCII capital letter turned into its small letter.
pub open spec fn ascii_lower(c: char) -> char {
    if is_ascii_upper(c) {
        ((c as u32) + 32) as char
    } else {
        c
    }
}

/// The kebab-case form of an identifier: every capital letter but a leading
/// one gets a `-` before it, and all letters become small.
pub open spec fn kebab_case(s: Seq<char>) -> Seq<char>
    decreases s.len(),
{
    if s.len() == 0 {
        Seq::empty()
    } else {
        let c = s.last();
        let front = kebab_case(s.drop_last());
        if is_ascii_upper(c) && s.len() > 1 {
            front.push('-').push(ascii_lower(c))
        } else {
            front.push(ascii_lower(c))
        }
    }
}

/// The kebab-case name a host has on the wire.
pub open spec fn host_wire_name(h: Host) -> Seq<char> {
    kebab_case(host_name(h))
}

/// The host whose wire name is `s`, if any.
pub open spec fn host_from_wire_name(s: Seq<char>) -> Option<Host> {
    if s == host_wire_name(Host::ClaudeCode) {
        Some(Host::ClaudeCode)
    } else if s == host_wire_name(Host::Cursor) {
        Some(Host::Cursor)
    } else if s == host_wire_name(Host::Aider) {
        Some(Host::Aider)
    } else {
        None
    }
}

/// The kebab-case form of text without control characters, quotes or
/// backslashes has none either.
proof fn lemma_kebab_plain(s: Seq<char>)
    requires
        plain_text(s),
    ensures
        plain_text(kebab_case(s)),
        kebab_case(s).len() >= s.len(),
    decreases s.len(),
{
    if s.len() > 0 {
        assert(plain_text(s.drop_last()));
        lemma_kebab_plain(s.drop_last());
        let c = s.last();
        assert(c == s[s.len() - 1]);
        assert(ascii_lower(c) != '"' && ascii_lower(c) != '\\' && (ascii_lower(c) as u32) >= 0x20);
    }
}

proof fn lemma_wire_names(h: Host)
    ensures
        plain_text(host_wire_name(h)),
        host_wire_name(Host::ClaudeCode).len() >= 10,
        host_wire_name(Host::Cursor).len() == 6,
        host_wire_name(Host::Aider).len() == 5,
{
    reveal_strlit("ClaudeCode");
    reveal_strlit("Cursor");
    reveal_strlit("Aider");
    lemma_kebab_plain(host_name(h));
    lemma_kebab_plain(host_name(Host::ClaudeCode));
    lemma_kebab_len_lower("Cursor"@);
    lemma_kebab_len_lower("Aider"@);
}

/// An identifier whose only capital letter leads keeps its length.
proof fn lemma_kebab_len_lower(s: Seq<char>)
    requires
        forall|i: int| 1 <= i < s.len() ==> !is_ascii_upper(#[trigger] s[i]),
    ensures
        kebab_case(s).len() == s.len(),
    decreases s.len(),
{
    if s.len() > 0 {
        let t = s.drop_last();
        assert forall|i: int| 1 <= i < t.len() implies !is_ascii_upper(#[trigger] t[i]) by {
            assert(t[i] == s[i]);
        }
        lemma_kebab_len_lower(t);
        if s.len() > 1 {
            assert(!is_ascii_upper(s[s.len() - 1]));
        }
    }
}

/// The small letter of an ASCII capital, other characters unchanged.
fn ascii_lower_char(c: char) -> (r: char)
    ensures
        r == ascii_lower(c),
{
    if 'A' <= c && c <= 'Z' {
        ((c as u8) + 32) as char
    } else {
        c
    }
}

/// Collects characters into a `String`.
///
/// Calls `String::from_iter` over the characters; std documents that the
/// string holds exactly those characters, in order.
#[verifier::external_body]
fn string_from_chars(chars: &Vec<char>) -> (r: String)
    ensures
        r@ == chars@,
{
    String::from_iter(chars.iter())
}

/// Writes the kebab-case form of the identifier `s`.
pub fn to_kebab_case(s: &str) -> (r: String)
    ensures
        r@ == kebab_case(s@),
{
    let n = s.unicode_len();
    let mut out: Vec<char> = Vec::new();
    let mut i: usize = 0;
    while i < n
        invariant
            n == s@.len(),
            i <= n,
            out@ == kebab_case(s@.subrange(0, i as int)),
        decreases n - i,
    {
        let c = s.get_char(i);
        let ghost front = s@.subrange(0, i as int);
        assert(s@.subrange(0, i + 1).drop_last() =~= front);
        assert(s@.subrange(0, i + 1).last() == c);
        if 'A' <= c && c <= 'Z' && i > 0 {
            out.push('-');
        }
        out.push(ascii_lower_char(c));
        i = i + 1;
    }
    assert(s@.subrange(0, n as int) =~= s@);
    string_from_chars(&out)
}

impl Host {
    /// The host's name as `Debug` prints it.
    pub fn name(&self) -> (r: &'static str)
        ensures
            r@ == host_name(*self),
    {
        match self {
            Host::ClaudeCode => "ClaudeCode",
            Host::Cursor => "Cursor",
            Host::Aider => "Aider",
        }
    }

    /// The host's kebab-case name on the wire.
    pub fn wire_name(&self) -> (r: String)
        ensures
            r@ == host_wire_name(*self),
    {
        to_kebab_case(self.name())
    }

    /// Reads a host from its wire name; `None` for any other text.
    pub fn from_wire_name(s: &str) -> (r: Option<Host>)
        ensures
            r == host_from_wire_name(s@),
    {
        let owned = String::from_str(s);
        if owned == Host::ClaudeCode.wire_name() {
            Some(Host::ClaudeCode)
        } else if owned == Host::Cursor.wire_name() {
            Some(Host::Cursor)
        } else if owned == Host::Aider.wire_name() {
            Some(Host::Aider)
        } else {
            None
        }
    }

    /// The host as JSON text: its wire name as a string literal.
    pub fn to_json(&self) -> (r: String)
        ensures
            r@ == quoted(host_wire_name(*self)),
    {
        let name = self.wire_name();
        proof {
            lemma_wire_names(*self);
        }
        json_quote(name.as_str())
    }
}

impl Event {
    /// The event's name as `Debug` prints it.
    pub fn name(&self) -> (r: &'static str)
        ensures
            r@ == event_name(*self),
    {
        match self {
            Event::PostToolUse => "PostToolUse",
            Event::UserPromptSubmit => "UserPromptSubmit",
            Event::PreCompact => "PreCompact",
        }
    }
}

/// Reading a host's wire name gives the host back, and no two hosts share a
/// wire name.
pub proof fn lemma_wire_name_round_trip(h: Host, g: Host)
    ensures
        host_from_wire_name(host_wire_name(h)) == Some(h),
        host_wire_name(h) == host_wire_name(g) ==> h == g,
{
    lemma_wire_names(h);
}

} // verus!
