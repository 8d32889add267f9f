//! Verified core of an OpenAI-compatible chat proxy backed by a single
//! upstream conversational service.
//!
//! The library holds the logic of the proxy: the message model and prompt
//! renderer, the model-name mapping, the upstream request builder (URL,
//! identity header values and JSON body), and the translator that turns the
//! upstream's tagged SSE frames into the semantic chat-completion events the
//! adapter re-serializes for its own client.  Transport (HTTP, the SSE
//! connection, the channel and the task that drains it) lives outside the
//! library and hands it plain values.

pub mod error;
pub mod event;
pub mod frame;
pub mod laws;
pub mod message;
pub mod model;
pub mod strings;
pub mod translate;
pub mod upstream;
