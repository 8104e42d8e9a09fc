//! AI assistants that suggest plist edits: the shared response model and the pure parts
//! of each provider (request payloads, reply parsing).
pub mod anthropic;
pub mod claude_agent_sidecar;
pub mod google;
pub mod json;
pub mod openai_compat;
pub mod provider;
