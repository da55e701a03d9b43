//! OpenAI-compatible chat payloads. The gateway routes them by model and by
//! streaming mode and otherwise carries their JSON text unchanged.
use vstd::prelude::*;

verus! {

/// A chat completion request.
pub struct ChatRequest {
    /// The model the request is addressed to.
    pub model: String,
    /// Whether the answer is to be streamed as chunks.
    pub stream: bool,
    /// The whole request as JSON text.
    pub json: String,
}

/// A complete chat answer, as JSON text.
pub struct ChatCompletion {
    pub json: String,
}

/// One streamed piece of a chat answer, as JSON text.
pub struct ChatCompletionChunk {
    pub json: String,
}

} // verus!
