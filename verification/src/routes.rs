//! What the gateway's HTTP routes answer: health, the model list, and chat
//! completions, streamed or not.
use vstd::prelude::*;

use crate::manager::{unique_ids, ClientManager, ClientManagerError};
use crate::schemas::{
    APIResponse, APIResponseBody, APIResponseBodySuccess, ChatCompletion, ChatCompletionChunk,
    ErrorCode, ErrorResponse, ListModelsResponse, ModelInfo,
};

verus! {

/// HTTP status 404 Not Found.
pub const NOT_FOUND: u16 = 404;
/// HTTP status 500 Internal Server Error.
pub const INTERNAL_SERVER_ERROR: u16 = 500;
/// HTTP status 424 Failed Dependency: the backend failed to generate an answer.
pub const FAILED_DEPENDENCY: u16 = 424;
/// HTTP status 503 Service Unavailable.
pub const SERVICE_UNAVAILABLE: u16 = 503;

/// A failed answer: its HTTP status and its JSON body.
pub struct ErrorReply {
    pub status: u16,
    pub body: ErrorResponse,
}

/// `r` is the failed answer with this status, code and text.
pub open spec fn is_error_reply(r: ErrorReply, status: u16, code: ErrorCode, msg: Seq<char>) -> bool {
    r.status == status && r.body.error == code && r.body.message@ == msg
}

fn error_reply(status: u16, code: ErrorCode, msg: String) -> (r: ErrorReply)
    ensures
        is_error_reply(r, status, code, msg@),
{
    ErrorReply { status, body: ErrorResponse { error: code, message: msg } }
}

/// The answer of the health route. A failed check is reported with the code
/// that `ErrorCode` documents for an unhealthy service (`Unhealthy`, 3000);
/// `ModelNotFound` (1000) would name a missing model, which this is not.
pub fn healthz_reply(healthy: bool) -> (r: Result<(), ErrorReply>)
    ensures
        healthy ==> r is Ok,
        !healthy ==> (r matches Err(e) && is_error_reply(e, SERVICE_UNAVAILABLE, ErrorCode::Unhealthy, "Health check failed"@)),
{
    if healthy {
        Ok(())
    } else {
        Err(error_reply(SERVICE_UNAVAILABLE, ErrorCode::Unhealthy, String::from_str("Health check failed")))
    }
}

/// The answer of the health route for the gateway as it stands.
pub fn healthz(manager: &ClientManager) -> (r: Result<(), ErrorReply>)
    ensures
        r is Ok,
{
    healthz_reply(manager.check_healthz())
}

/// The model list answer for the models `models`.
pub fn list_models_reply(models: Vec<ModelInfo>) -> (r: ListModelsResponse)
    ensures
        r.object@ == "list"@,
        r.data@ == models@,
{
    ListModelsResponse { object: String::from_str("list"), data: models }
}

/// The answer of the model list route: every registered model.
pub fn list_models(manager: &ClientManager) -> (r: ListModelsResponse)
    ensures
        r.object@ == "list"@,
        r.data@ == manager.models(),
        manager.wf() ==> unique_ids(r.data@),
{
    list_models_reply(manager.list_models())
}

/// How many answers may wait for a chat request: a stream may run ahead by a
/// few chunks, a single answer needs one place.
pub fn response_channel_capacity(stream: bool) -> (n: usize)
    ensures
        n == (if stream { 4usize } else { 1usize }),
        n > 0,
{
    if stream { 4 } else { 1 }
}

/// The answer to a chat request that could not be handed to a backend.
pub fn send_error_reply(err: ClientManagerError) -> (r: ErrorReply)
    ensures
        match err {
            ClientManagerError::ModelNotFound(m) => is_error_reply(r, NOT_FOUND, ErrorCode::ModelNotFound,
                "Model not found: `"@ + m@ + "`"@),
            ClientManagerError::InternalError => is_error_reply(r, INTERNAL_SERVER_ERROR, ErrorCode::InternalError,
                "Internal error"@),
        },
{
    match err {
        ClientManagerError::ModelNotFound(m) => {
            let mut s = String::from_str("Model not found: `");
            s.append(m.as_str());
            s.append("`");
            error_reply(NOT_FOUND, ErrorCode::ModelNotFound, s)
        },
        ClientManagerError::InternalError => error_reply(
            INTERNAL_SERVER_ERROR,
            ErrorCode::InternalError,
            String::from_str("Internal error"),
        ),
    }
}

/// What a streamed chat answer does with the next backend answer.
pub enum StreamReply {
    /// Pass the chunk on and wait for the next answer.
    Chunk(ChatCompletionChunk),
    /// Pass the error on and end the stream.
    Error(ErrorResponse),
    /// The backend finished the answer: end the stream.
    Done,
    /// The answer broke off (an answer of the wrong kind, or the backend
    /// side of the channel is gone): end the stream.
    Stop,
}

/// What a streamed chat answer does with the next backend answer (`None` when
/// the backend side of the channel is gone): chunks are passed on, an error
/// is passed on and ends the stream, the done marker ends it, and anything
/// else breaks it off.
pub fn stream_reply(resp: Option<APIResponse>) -> (r: StreamReply)
    ensures
        match resp {
            Some(APIResponse { body: APIResponseBody::Success(APIResponseBodySuccess::OpenAIChatCompletionChunk(c)), .. }) =>
                r == StreamReply::Chunk(c),
            Some(APIResponse { body: APIResponseBody::Error(e), .. }) => r == StreamReply::Error(e),
            Some(APIResponse { body: APIResponseBody::Done, .. }) => r == StreamReply::Done,
            _ => r == StreamReply::Stop,
        },
{
    match resp {
        Some(APIResponse { body, .. }) => match body {
            APIResponseBody::Success(APIResponseBodySuccess::OpenAIChatCompletionChunk(c)) => StreamReply::Chunk(c),
            APIResponseBody::Success(APIResponseBodySuccess::OpenAIChatCompletion(_)) => StreamReply::Stop,
            APIResponseBody::Error(e) => StreamReply::Error(e),
            APIResponseBody::Done => StreamReply::Done,
        },
        None => StreamReply::Stop,
    }
}

/// The answer to a chat request that is not streamed, from the backend's
/// single answer (`None` when the backend side of the channel is gone): the
/// completion, or a generation error (424) carrying the backend's error. A
/// done marker never answers such a request, which `requires` excludes.
pub fn unary_reply(resp: Option<APIResponse>) -> (r: Result<ChatCompletion, ErrorReply>)
    requires
        !(resp matches Some(a) && a.body is Done),
    ensures
        match resp {
            Some(APIResponse { body: APIResponseBody::Success(APIResponseBodySuccess::OpenAIChatCompletion(c)), .. }) =>
                r == Ok::<ChatCompletion, ErrorReply>(c),
            Some(APIResponse { body: APIResponseBody::Success(APIResponseBodySuccess::OpenAIChatCompletionChunk(_)), .. }) =>
                r matches Err(e) && is_error_reply(e, INTERNAL_SERVER_ERROR, ErrorCode::BackendError, "Invalid response from backend"@),
            Some(APIResponse { body: APIResponseBody::Error(err), .. }) =>
                r matches Err(e) && e.status == FAILED_DEPENDENCY && e.body == err,
            Some(APIResponse { body: APIResponseBody::Done, .. }) => false,
            None =>
                r matches Err(e) && is_error_reply(e, INTERNAL_SERVER_ERROR, ErrorCode::InternalError, "Channel closed unexpectedly"@),
        },
{
    match resp {
        Some(APIResponse { body, .. }) => match body {
            APIResponseBody::Success(APIResponseBodySuccess::OpenAIChatCompletion(c)) => Ok(c),
            APIResponseBody::Success(APIResponseBodySuccess::OpenAIChatCompletionChunk(_)) => Err(error_reply(
                INTERNAL_SERVER_ERROR,
                ErrorCode::BackendError,
                String::from_str("Invalid response from backend"),
            )),
            APIResponseBody::Error(err) => Err(ErrorReply { status: FAILED_DEPENDENCY, body: err }),
            APIResponseBody::Done => Err(error_reply(
                INTERNAL_SERVER_ERROR,
                ErrorCode::InternalError,
                String::from_str("Invalid response from backend"),
            )),
        },
        None => Err(error_reply(
            INTERNAL_SERVER_ERROR,
            ErrorCode::InternalError,
            String::from_str("Channel closed unexpectedly"),
        )),
    }
}

} // verus!
