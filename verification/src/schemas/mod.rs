//! The messages exchanged between the gateway, its users and its backends.
pub mod chat;
pub mod model;

use vstd::prelude::*;

pub use chat::{ChatCompletion, ChatCompletionChunk, ChatRequest};
pub use model::{ListModelsResponse, ModelInfo};

verus! {

/// The kind of a failure reported to a user; on the wire it is a number.
#[derive(PartialEq, Eq, Structural, Debug, Clone, Copy)]
pub enum ErrorCode {
    /// The model was not found.
    ModelNotFound,
    /// Internal server error.
    InternalError,
    /// The service is unhealthy.
    Unhealthy,
    /// Backend service error.
    BackendError,
}

/// The number that stands for an error code on the wire.
pub open spec fn error_code_number(c: ErrorCode) -> u16 {
    match c {
        ErrorCode::ModelNotFound => 1000,
        ErrorCode::InternalError => 2000,
        ErrorCode::Unhealthy => 3000,
        ErrorCode::BackendError => 4000,
    }
}

/// The error code a wire number stands for, if any.
pub open spec fn error_code_of(n: u16) -> Option<ErrorCode> {
    if n == 1000 {
        Some(ErrorCode::ModelNotFound)
    } else if n == 2000 {
        Some(ErrorCode::InternalError)
    } else if n == 3000 {
        Some(ErrorCode::Unhealthy)
    } else if n == 4000 {
        Some(ErrorCode::BackendError)
    } else {
        None
    }
}

impl ErrorCode {
    /// The number that stands for this code on the wire.
    pub fn code(&self) -> (n: u16)
        ensures
            n == error_code_number(*self),
    {
        match self {
            ErrorCode::ModelNotFound => 1000,
            ErrorCode::InternalError => 2000,
            ErrorCode::Unhealthy => 3000,
            ErrorCode::BackendError => 4000,
        }
    }

    /// The code a wire number stands for; `None` for any other number.
    pub fn from_code(n: u16) -> (c: Option<ErrorCode>)
        ensures
            c == error_code_of(n),
    {
        if n == 1000 {
            Some(ErrorCode::ModelNotFound)
        } else if n == 2000 {
            Some(ErrorCode::InternalError)
        } else if n == 3000 {
            Some(ErrorCode::Unhealthy)
        } else if n == 4000 {
            Some(ErrorCode::BackendError)
        } else {
            None
        }
    }
}

/// Reading back the wire number of an error code gives the same code, and a
/// number that reads as a code is that code's number.
pub proof fn lemma_error_code_roundtrip(c: ErrorCode, n: u16)
    ensures
        error_code_of(error_code_number(c)) == Some(c),
        error_code_of(n) matches Some(k) ==> error_code_number(k) == n,
{
}

/// A failure reported to a user.
pub struct ErrorResponse {
    pub error: ErrorCode,
    pub message: String,
}

/// A request handed to a backend, numbered by the gateway.
pub struct APIRequest {
    pub id: usize,
    pub body: APIRequestBody,
}

/// What a backend is asked to do.
pub enum APIRequestBody {
    OpenAIChat(ChatRequest),
}

/// A backend's answer to the request numbered `id`. `once` marks the only
/// answer to a request that is not streamed.
pub struct APIResponse {
    pub id: usize,
    pub body: APIResponseBody,
    pub once: bool,
}

/// The content of a backend answer.
pub enum APIResponseBody {
    Success(APIResponseBodySuccess),
    Error(ErrorResponse),
    Done,
}

impl APIResponseBody {
    pub fn from_openai_chat_completion(chat_completion: ChatCompletion) -> (r: Self)
        ensures
            r == APIResponseBody::Success(APIResponseBodySuccess::OpenAIChatCompletion(chat_completion)),
    {
        APIResponseBody::Success(APIResponseBodySuccess::OpenAIChatCompletion(chat_completion))
    }

    pub fn from_openai_chat_completion_chunk(chat_completion_chunk: ChatCompletionChunk) -> (r: Self)
        ensures
            r == APIResponseBody::Success(
                APIResponseBodySuccess::OpenAIChatCompletionChunk(chat_completion_chunk),
            ),
    {
        APIResponseBody::Success(APIResponseBodySuccess::OpenAIChatCompletionChunk(chat_completion_chunk))
    }

    pub fn from_error(error: ErrorResponse) -> (r: Self)
        ensures
            r == APIResponseBody::Error(error),
    {
        APIResponseBody::Error(error)
    }

    /// Whether this answer is the last of its exchange: the stream is done or it failed.
    pub fn is_done_or_error(&self) -> (r: bool)
        ensures
            r == (*self is Done || *self is Error),
    {
        match self {
            APIResponseBody::Done => true,
            APIResponseBody::Error(_) => true,
            APIResponseBody::Success(_) => false,
        }
    }
}

/// A successful answer: a complete completion or one streamed chunk.
pub enum APIResponseBodySuccess {
    OpenAIChatCompletion(ChatCompletion),
    OpenAIChatCompletionChunk(ChatCompletionChunk),
}

/// A failed answer.
pub enum APIResponseError {
    ErrorResponse(ErrorResponse),
}

} // verus!
