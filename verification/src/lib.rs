//! Verified core of an on-device, single-process text-generation engine.
//!
//! The library owns the logic of the engine: formatting a conversation into
//! a model prompt, the per-request generation session and its stopping rules,
//! the once-only model instance manager, the model artifact locator, and the
//! in-memory session store of the surrounding application.  Calls into the
//! native inference backend are performed by the (unverified) application
//! shell, which drives the verified state machines step by step.

pub mod api;
pub mod generation;
pub mod locate;
pub mod manager;
pub mod messages;
pub mod prompt;
pub mod session;
pub mod text;

pub use api::{LlmChatRequest, LlmChatResponse, LlmStatus};
pub use generation::{GenerationSession, Phase, TokenEvent};
pub use manager::{InstanceManager, LlmInstance};
pub use prompt::format_prompt;
pub use session::{get_db_path, SessionStore, UserDemographics};

use vstd::prelude::*;

verus! {

/// One turn of a conversation: who spoke, and what was said.
#[derive(Debug)]
pub struct LlmChatMessage {
    pub role: String,
    pub content: String,
}

} // verus!
