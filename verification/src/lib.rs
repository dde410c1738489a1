//! Per-host payload translation: host detection, event routing and the
//! JSON envelopes each supported host expects.

pub mod canonical;
pub mod claude_code;
pub mod dispatch;
pub mod host;
pub mod json;

pub use canonical::{
    PostToolUsePayload, PostToolUseResponse, PreCompactPayload, PreCompactResponse, Turn,
    UserPromptSubmitPayload, UserPromptSubmitResponse,
};
pub use dispatch::{emit_to, supports, unsupported_envelope, Payload};
pub use host::{detect_host_with, host_from_flags, EnvSource, Event, Host};
