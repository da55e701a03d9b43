//! The backend client's side of the gateway connection: reading the
//! gateway's frames, the heartbeat it sends, and turning what the API backend
//! answers into responses for the gateway.
use vstd::prelude::*;

use std::ops::ControlFlow;

use crate::clock::now_timestamp;
use crate::frame::{i64_be_bytes, i64_to_be, Frame};
use crate::schemas::{
    APIRequest, APIResponse, APIResponseBody, APIResponseBodySuccess, ChatCompletion,
    ChatCompletionChunk, ErrorCode, ErrorResponse,
};
use crate::text::{decimal, decimal_string, str_eq};

verus! {

/// What the client sends back to the gateway.
pub enum Response {
    APIResponse(APIResponse),
    Heartbeat,
}

impl Response {
    pub fn from_api_response(resp: APIResponse) -> (r: Self)
        ensures
            r == Response::APIResponse(resp),
    {
        Response::APIResponse(resp)
    }

    pub fn heartbeat() -> (r: Self)
        ensures
            r == Response::Heartbeat,
    {
        Response::Heartbeat
    }
}

/// The payload of a heartbeat frame sent at time `now`: its big-endian bytes.
pub fn heartbeat_payload_at(now: i64) -> (b: Vec<u8>)
    ensures
        b@ == i64_be_bytes(now as int),
        b@.len() == 8,
        crate::frame::i64_from_be(b@) == now as int,
{
    proof {
        crate::frame::lemma_i64_be_roundtrip(now);
    }
    i64_to_be(now)
}

/// The payload of a heartbeat frame: the current time, big-endian; `None`
/// when the system clock cannot be read.
pub fn heartbeat_payload() -> (b: Option<Vec<u8>>)
    ensures
        b matches Some(p) ==> exists|t: i64| t >= 0 && p@ == #[trigger] i64_be_bytes(t as int),
{
    match now_timestamp() {
        Some(now) => Some(heartbeat_payload_at(now)),
        None => None,
    }
}

/// The meaning of a frame received from the gateway.
pub open spec fn incoming(msg: Frame<APIRequest>) -> ControlFlow<(), Option<APIRequest>> {
    match msg {
        Frame::Text(Some(req)) => ControlFlow::Continue(Some(req)),
        Frame::Close => ControlFlow::Break(()),
        _ => ControlFlow::Continue(None),
    }
}

/// Reads a frame received from the gateway: a request to serve, the end of the
/// connection (a close frame), or nothing to act on (text that is not a
/// request, binary, ping, pong and other frames).
pub fn process_message(msg: Frame<APIRequest>) -> (r: ControlFlow<(), Option<APIRequest>>)
    ensures
        r == incoming(msg),
        msg matches Frame::Text(Some(req)) ==> r == ControlFlow::<(), Option<APIRequest>>::Continue(Some(req)),
        r is Break <==> msg is Close,
{
    match msg {
        Frame::Text(Some(req)) => ControlFlow::Continue(Some(req)),
        Frame::Text(None) => ControlFlow::Continue(None),
        Frame::Binary(_) => ControlFlow::Continue(None),
        Frame::Ping => ControlFlow::Continue(None),
        Frame::Pong => ControlFlow::Continue(None),
        Frame::Close => ControlFlow::Break(()),
        Frame::Other => ControlFlow::Continue(None),
    }
}

/// Whether the gateway opened the connection properly: its first frame
/// (`None` when the connection ended or failed) must be a ping.
pub fn is_ping<T>(msg: &Option<Frame<T>>) -> (r: bool)
    ensures
        r == (*msg matches Some(Frame::Ping)),
{
    match msg {
        Some(Frame::Ping) => true,
        _ => false,
    }
}

fn join(base: &str, path: &str) -> (s: String)
    ensures
        s@ == base@ + path@,
{
    let mut s = String::from_str(base);
    s.append(path);
    s
}

/// The health endpoint of the API backend at `api_url`.
pub fn health_url(api_url: &str) -> (s: String)
    ensures
        s@ == api_url@ + "/health"@,
{
    join(api_url, "/health")
}

/// The model listing endpoint of the API backend at `api_url`.
pub fn models_url(api_url: &str) -> (s: String)
    ensures
        s@ == api_url@ + "/v1/models"@,
{
    join(api_url, "/v1/models")
}

/// The chat completion endpoint of the API backend at `api_url`.
pub fn chat_completions_url(api_url: &str) -> (s: String)
    ensures
        s@ == api_url@ + "/v1/chat/completions"@,
{
    join(api_url, "/v1/chat/completions")
}

/// The outcome of a health check: a success status means healthy, otherwise
/// the body of the answer says what is wrong.
pub fn health_check_result(success: bool, body: String) -> (r: Result<(), String>)
    ensures
        success ==> r == Ok::<(), String>(()),
        !success ==> r == Err::<(), String>(body),
{
    if success { Ok(()) } else { Err(body) }
}

/// The outcome of a request for the backend's model list: with a success
/// status the body is the list to read (`Ok`), otherwise it says why the
/// backend is unhealthy (`Err`).
pub fn model_listing_result(success: bool, body: String) -> (r: Result<String, String>)
    ensures
        success ==> r == Ok::<String, String>(body),
        !success ==> r == Err::<String, String>(body),
{
    if success { Ok(body) } else { Err(body) }
}

/// After a failed health check, the new count of failures and whether to give
/// up: the client tolerates `retry` failures in all.
pub fn health_failure_step(failures: u64, retry: u64) -> (r: (u64, bool))
    requires
        failures < u64::MAX,
    ensures
        r.0 == failures + 1,
        r.1 == (failures + 1 > retry),
{
    let count = failures + 1;
    (count, count > retry)
}

/// One event of the stream of a streamed chat completion.
pub enum StreamEvent {
    /// The stream opened.
    Open,
    /// A message arrived; `chunk` is its data read as a chunk, if it is one.
    Message { data: String, chunk: Option<ChatCompletionChunk> },
    /// The stream ended.
    StreamEnded,
    /// The stream failed.
    Failed,
}

/// `resp` reports a backend failure with the text `msg` for request `id`.
pub open spec fn backend_error(resp: APIResponse, id: usize, once: bool, msg: Seq<char>) -> bool {
    &&& resp.id == id
    &&& resp.once == once
    &&& resp.body matches APIResponseBody::Error(e)
    &&& e.error == ErrorCode::BackendError
    &&& e.message@ == msg
}

fn backend_error_response(id: usize, once: bool, msg: &str) -> (r: APIResponse)
    ensures
        backend_error(r, id, once, msg@),
{
    APIResponse {
        id,
        body: APIResponseBody::from_error(ErrorResponse {
            error: ErrorCode::BackendError,
            message: String::from_str(msg),
        }),
        once,
    }
}

/// The data of the message that ends a stream.
pub open spec fn done_marker() -> Seq<char> {
    seq!['[', 'D', 'O', 'N', 'E', ']']
}

/// `r` is what the client does for `event` in the stream answering request
/// `id`, `done` saying whether the stream was over before: the response to
/// send to the gateway, if any, and whether the stream is over now.
pub open spec fn stream_step(id: usize, done: bool, event: StreamEvent, r: (Option<APIResponse>, bool)) -> bool {
    match event {
        StreamEvent::Open => (r.0 is None) && r.1 == done,
        StreamEvent::Message { data, chunk } => if data@ == done_marker() {
            &&& r.0 == Some(APIResponse { id, body: APIResponseBody::Done, once: false })
            &&& r.1
        } else {
            match chunk {
                Some(c) => {
                    &&& r.0 == Some(APIResponse {
                        id,
                        body: APIResponseBody::Success(APIResponseBodySuccess::OpenAIChatCompletionChunk(c)),
                        once: false,
                    })
                    &&& r.1 == done
                },
                None => (r.0 matches Some(resp) && backend_error(resp, id, false, "Failed to parse response"@)) && r.1,
            }
        },
        StreamEvent::StreamEnded => if !done {
            (r.0 matches Some(resp) && backend_error(resp, id, false, "EventSource stream ended unexpectedly"@)) && r.1
        } else {
            (r.0 matches Some(resp) && backend_error(resp, id, false, "EventSource internal error"@)) && r.1
        },
        StreamEvent::Failed => (r.0 matches Some(resp) && backend_error(resp, id, false, "EventSource internal error"@)) && r.1,
    }
}

/// What to send to the gateway for one event of the stream answering request
/// `id`, and whether the stream is over; `done` says whether it was over
/// before this event.
pub fn stream_event_response(id: usize, done: bool, event: StreamEvent) -> (r: (Option<APIResponse>, bool))
    ensures
        stream_step(id, done, event, r),
        event matches StreamEvent::Message { data, chunk: Some(c) } ==> (data@ != done_marker() ==> r == (
            Some(APIResponse {
                id,
                body: APIResponseBody::Success(APIResponseBodySuccess::OpenAIChatCompletionChunk(c)),
                once: false,
            }),
            done,
        )),
{
    match event {
        StreamEvent::Open => (None, done),
        StreamEvent::Message { data, chunk } => {
            proof {
                reveal_strlit("[DONE]");
                assert("[DONE]"@ =~= done_marker());
            }
            if str_eq(data.as_str(), "[DONE]") {
                (Some(APIResponse { id, body: APIResponseBody::Done, once: false }), true)
            } else {
                match chunk {
                    Some(c) => (
                        Some(APIResponse {
                            id,
                            body: APIResponseBody::from_openai_chat_completion_chunk(c),
                            once: false,
                        }),
                        done,
                    ),
                    None => (Some(backend_error_response(id, false, "Failed to parse response")), true),
                }
            }
        },
        StreamEvent::StreamEnded => {
            if !done {
                (Some(backend_error_response(id, false, "EventSource stream ended unexpectedly")), true)
            } else {
                (Some(backend_error_response(id, false, "EventSource internal error")), true)
            }
        },
        StreamEvent::Failed => (Some(backend_error_response(id, false, "EventSource internal error")), true),
    }
}

/// How a request that is not streamed fared at the API backend.
pub enum BackendReply {
    /// The request could not be sent.
    SendFailed,
    /// The answer's body could not be read.
    ReadFailed,
    /// The body is not a chat completion.
    ParseFailed,
    /// The body is this completion.
    Parsed(ChatCompletion),
}

/// `"Request ID: <id>, <what>"`, the shape of the messages that report a
/// failed request without revealing the backend's own error.
pub open spec fn request_failure_text(id: usize, what: Seq<char>) -> Seq<char> {
    "Request ID: "@ + decimal(id as nat) + ", "@ + what
}

fn request_failure_message(id: usize, what: &str) -> (s: String)
    ensures
        s@ == request_failure_text(id, what@),
{
    let mut s = String::from_str("Request ID: ");
    let n = decimal_string(id);
    s.append(n.as_str());
    s.append(", ");
    s.append(what);
    s
}

/// `r` is the single response to request `id`, which was not streamed, when
/// the API backend's reply was `reply`.
pub open spec fn unary_step(id: usize, reply: BackendReply, r: APIResponse) -> bool {
    match reply {
        BackendReply::Parsed(c) => r == APIResponse {
            id,
            body: APIResponseBody::Success(APIResponseBodySuccess::OpenAIChatCompletion(c)),
            once: true,
        },
        BackendReply::ParseFailed => backend_error(r, id, true, request_failure_text(id, "Failed to parse response body."@)),
        BackendReply::ReadFailed => backend_error(r, id, true, request_failure_text(id, "Failed to read response body."@)),
        BackendReply::SendFailed => backend_error(r, id, true, request_failure_text(id, "Backend error."@)),
    }
}

/// The single response to request `id` that was not streamed.
pub fn unary_response(id: usize, reply: BackendReply) -> (r: APIResponse)
    ensures
        unary_step(id, reply, r),
        reply matches BackendReply::Parsed(c) ==> r == (APIResponse {
            id,
            body: APIResponseBody::Success(APIResponseBodySuccess::OpenAIChatCompletion(c)),
            once: true,
        }),
{
    let msg = match reply {
        BackendReply::Parsed(c) => {
            return APIResponse { id, body: APIResponseBody::from_openai_chat_completion(c), once: true };
        },
        BackendReply::ParseFailed => request_failure_message(id, "Failed to parse response body."),
        BackendReply::ReadFailed => request_failure_message(id, "Failed to read response body."),
        BackendReply::SendFailed => request_failure_message(id, "Backend error."),
    };
    APIResponse {
        id,
        body: APIResponseBody::from_error(ErrorResponse { error: ErrorCode::BackendError, message: msg }),
        once: true,
    }
}

/// While a stream runs, the client stops reading exactly when the response it
/// sends ends the exchange, that is, when the gateway closes the route of the
/// request on receiving it; every response it sends carries the request's
/// number.
pub proof fn lemma_stream_ends_with_closing_response(id: usize, event: StreamEvent, r: (Option<APIResponse>, bool))
    requires
        stream_step(id, false, event, r),
    ensures
        r.1 <==> (r.0 matches Some(resp) && crate::ws::ends_exchange(resp)),
        r.0 matches Some(resp) ==> resp.id == id && !resp.once,
{
}

/// A streamed chunk reaches the gateway as it came from the backend: for a
/// message that is not the done marker and reads as the chunk `c`, the client
/// sends exactly `c`, under the request's number, and the stream goes on as
/// it was.
pub proof fn lemma_stream_chunks_pass_through(
    id: usize,
    done: bool,
    data: String,
    c: ChatCompletionChunk,
    r: (Option<APIResponse>, bool),
)
    requires
        stream_step(id, done, (StreamEvent::Message { data, chunk: Some(c) }), r),
        data@ != done_marker(),
    ensures
        r == (
            Some(APIResponse {
                id,
                body: APIResponseBody::Success(APIResponseBodySuccess::OpenAIChatCompletionChunk(c)),
                once: false,
            }),
            done,
        ),
{
}

/// The done marker is passed on as such, whatever came with it, and ends the
/// stream.
pub proof fn lemma_stream_done_marker(
    id: usize,
    done: bool,
    data: String,
    chunk: Option<ChatCompletionChunk>,
    r: (Option<APIResponse>, bool),
)
    requires
        stream_step(id, done, (StreamEvent::Message { data, chunk }), r),
        data@ == done_marker(),
    ensures
        r == (Some(APIResponse { id, body: APIResponseBody::Done, once: false }), true),
{
}

/// No event invents a chunk: when the client sends the chunk `k`, the event
/// was a message, other than the done marker, that read as `k`; and the
/// stream goes on.
pub proof fn lemma_stream_sends_only_received_chunks(
    id: usize,
    done: bool,
    event: StreamEvent,
    k: ChatCompletionChunk,
    r: (Option<APIResponse>, bool),
)
    requires
        stream_step(id, done, event, r),
        r.0 is Some,
        r.0->0.body == APIResponseBody::Success(APIResponseBodySuccess::OpenAIChatCompletionChunk(k)),
    ensures
        event is Message,
        event->chunk == Some(k),
        event->data@ != done_marker(),
        r.1 == done,
{
}

/// Every response sent while streaming carries the request's number and is
/// not the only one; a completion is never sent, and an error is always a
/// backend error that ends the stream.
pub proof fn lemma_stream_responses_shape(id: usize, done: bool, event: StreamEvent, r: (Option<APIResponse>, bool))
    requires
        stream_step(id, done, event, r),
        r.0 is Some,
    ensures
        r.0->0.id == id,
        !r.0->0.once,
        !(r.0->0.body is Success) || r.0->0.body->Success_0 is OpenAIChatCompletionChunk,
        r.0->0.body is Error ==> r.1 && r.0->0.body->Error_0.error == ErrorCode::BackendError,
{
}

/// The single answer to a request that is not streamed carries the backend's
/// completion as it came: for a reply read as the completion `c`, it is
/// exactly `c` under the request's number, marked as the only answer.
pub proof fn lemma_unary_completion_passes_through(id: usize, c: ChatCompletion, r: APIResponse)
    requires
        unary_step(id, BackendReply::Parsed(c), r),
    ensures
        r == (APIResponse {
            id,
            body: APIResponseBody::Success(APIResponseBodySuccess::OpenAIChatCompletion(c)),
            once: true,
        }),
{
}

/// No reply invents a completion: when the single answer is the completion
/// `k`, the backend's reply was read as `k`.
pub proof fn lemma_unary_sends_only_received_completion(id: usize, reply: BackendReply, k: ChatCompletion, r: APIResponse)
    requires
        unary_step(id, reply, r),
        r.body == APIResponseBody::Success(APIResponseBodySuccess::OpenAIChatCompletion(k)),
    ensures
        reply == BackendReply::Parsed(k),
{
}

/// Every reply other than a completion gives a backend error whose message
/// starts with `"Request ID: "` and the request's number; the answer always
/// carries the request's number, is the only one, and is never a chunk or a
/// done marker.
pub proof fn lemma_unary_failures_name_request(id: usize, reply: BackendReply, r: APIResponse)
    requires
        unary_step(id, reply, r),
    ensures
        r.id == id,
        r.once,
        !(r.body is Done),
        !(r.body is Success) || r.body->Success_0 is OpenAIChatCompletion,
        !(reply is Parsed) ==> r.body is Error,
        !(reply is Parsed) ==> r.body->Error_0.error == ErrorCode::BackendError,
        !(reply is Parsed) ==> r.body->Error_0.message@.subrange(0, 12) == "Request ID: "@,
        !(reply is Parsed) ==> r.body->Error_0.message@.subrange(12, 12 + decimal(id as nat).len() as int) == decimal(id as nat),
{
    if !(reply is Parsed) {
        reveal_strlit("Request ID: ");
        let p = "Request ID: "@;
        let d = decimal(id as nat);
        let what: Seq<char> = match reply {
            BackendReply::ParseFailed => "Failed to parse response body."@,
            BackendReply::ReadFailed => "Failed to read response body."@,
            _ => "Backend error."@,
        };
        let m = p + d + ", "@ + what;
        assert(r.body->Error_0.message@ == m);
        assert(p.len() == 12);
        assert(m.subrange(0, 12) =~= p);
        assert(m.subrange(12, 12 + d.len() as int) =~= d);
    }
}


/// The single answer to a request that is not streamed always ends its
/// exchange, so the gateway closes the route on receiving it.
pub proof fn lemma_unary_response_ends_exchange(id: usize, reply: BackendReply, r: APIResponse)
    requires
        unary_step(id, reply, r),
    ensures
        crate::ws::ends_exchange(r),
        r.id == id,
{
}

} // verus!
