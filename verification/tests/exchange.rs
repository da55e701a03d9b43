use std::ops::ControlFlow;

use llm_gateway::client::{
    self, chat_completions_url, health_check_result, health_failure_step, health_url,
    heartbeat_payload, heartbeat_payload_at, is_ping, models_url, stream_event_response,
    unary_response, BackendReply, StreamEvent,
};
use llm_gateway::frame::{i64_from_be_bytes, Frame};
use llm_gateway::schemas::{
    APIRequest, APIRequestBody, APIResponse, APIResponseBody, APIResponseBodySuccess,
    ChatCompletion, ChatCompletionChunk, ChatRequest, ErrorCode, ErrorResponse, ListModelsResponse,
    ModelInfo,
};
use llm_gateway::ws::{
    self, clock_drift_suspicious, closes_route, farther_than, heartbeat_lost, heartbeat_lost_now,
    heartbeat_received, is_pong, model_announcement, request_is_stale, request_is_stale_now,
    ResponseRoutes,
};

fn chunk(s: &str) -> ChatCompletionChunk {
    ChatCompletionChunk { json: s.to_string() }
}

fn api(id: usize, body: APIResponseBody, once: bool) -> APIResponse {
    APIResponse { id, body, once }
}

fn error_message(r: &APIResponse) -> (ErrorCode, String) {
    match &r.body {
        APIResponseBody::Error(e) => (e.error, e.message.clone()),
        _ => panic!("not an error"),
    }
}

#[test]
fn constructors_and_done_or_error() {
    let b = APIResponseBody::from_openai_chat_completion(ChatCompletion { json: "{}".to_string() });
    assert!(matches!(b, APIResponseBody::Success(APIResponseBodySuccess::OpenAIChatCompletion(_))));
    assert!(!b.is_done_or_error());
    let c = APIResponseBody::from_openai_chat_completion_chunk(chunk("{}"));
    assert!(matches!(c, APIResponseBody::Success(APIResponseBodySuccess::OpenAIChatCompletionChunk(_))));
    let e = APIResponseBody::from_error(ErrorResponse { error: ErrorCode::BackendError, message: "x".to_string() });
    assert!(e.is_done_or_error());
    assert!(APIResponseBody::Done.is_done_or_error());
    assert!(matches!(client::Response::heartbeat(), client::Response::Heartbeat));
    let r = client::Response::from_api_response(api(3, APIResponseBody::Done, false));
    assert!(matches!(r, client::Response::APIResponse(APIResponse { id: 3, .. })));
}

#[test]
fn gateway_reads_backend_frames() {
    let hb = ws::process_message(Frame::Binary(vec![0, 0, 0, 0, 0, 0, 0, 42]));
    assert!(matches!(hb, ControlFlow::Continue(ws::Response::Heartbeat(42))));
    let short = ws::process_message(Frame::Binary(vec![1, 2, 3]));
    assert!(matches!(short, ControlFlow::Continue(ws::Response::Ignore)));
    let text = ws::process_message(Frame::Text(Some(api(9, APIResponseBody::Done, false))));
    assert!(matches!(text, ControlFlow::Continue(ws::Response::Api(APIResponse { id: 9, .. }))));
    assert!(matches!(ws::process_message(Frame::Text(None)), ControlFlow::Continue(ws::Response::Ignore)));
    assert!(matches!(ws::process_message(Frame::Ping), ControlFlow::Continue(ws::Response::Ignore)));
    assert!(matches!(ws::process_message(Frame::Pong), ControlFlow::Continue(ws::Response::Ignore)));
    assert!(matches!(ws::process_message(Frame::Close), ControlFlow::Break(())));
}

#[test]
fn heartbeat_roundtrip_through_frames() {
    let payload = heartbeat_payload_at(1_700_000_123);
    assert_eq!(payload, 1_700_000_123i64.to_be_bytes().to_vec());
    let read = ws::process_message(Frame::Binary(payload));
    assert!(matches!(read, ControlFlow::Continue(ws::Response::Heartbeat(1_700_000_123))));
    let now = heartbeat_payload().unwrap();
    assert_eq!(now.len(), 8);
    assert!(i64_from_be_bytes(&now) > 0);
}

#[test]
fn handshake_frames() {
    assert!(is_pong::<()>(&Some(Frame::Pong)));
    assert!(!is_pong::<()>(&Some(Frame::Ping)));
    assert!(!is_pong::<()>(&None));
    assert!(is_ping::<()>(&Some(Frame::Ping)));
    assert!(!is_ping::<()>(&Some(Frame::Close)));
    let models = ListModelsResponse {
        object: "list".to_string(),
        data: vec![ModelInfo { id: "m".to_string(), created: 1, object: "model".to_string(), owned_by: "o".to_string() }],
    };
    let got = model_announcement(Some(Frame::Text(Some(models)))).unwrap();
    assert_eq!(got.len(), 1);
    assert_eq!(got[0].id, "m");
    assert!(model_announcement(Some(Frame::Text(None))).is_none());
    assert!(model_announcement(Some(Frame::Binary(vec![]))).is_none());
    assert!(model_announcement(None).is_none());
}

#[test]
fn freshness_rules() {
    assert!(!request_is_stale(1000, 400));
    assert!(request_is_stale(1001, 400));
    assert!(request_is_stale(400, 1001));
    assert!(!heartbeat_lost(0, 1_000_000));
    assert!(!heartbeat_lost(100, 110));
    assert!(heartbeat_lost(100, 111));
    assert!(clock_drift_suspicious(100, 89));
    assert!(!clock_drift_suspicious(100, 90));
    assert!(farther_than(i64::MAX, i64::MIN, 10));
    assert!(!farther_than(i64::MIN, i64::MIN, 0));
}

#[test]
fn freshness_against_the_clock() {
    let now = heartbeat_received(0).unwrap().0;
    assert!(now > 1_600_000_000);
    assert_eq!(request_is_stale_now(now), Some(false));
    assert_eq!(request_is_stale_now(now - 3600), Some(true));
    assert_eq!(heartbeat_lost_now(0), Some(false));
    assert_eq!(heartbeat_lost_now(now), Some(false));
    assert_eq!(heartbeat_lost_now(now - 60), Some(true));
    let (_, drifting) = heartbeat_received(now + 100).unwrap();
    assert!(drifting);
    let (_, drifting) = heartbeat_received(now).unwrap();
    assert!(!drifting);
}

#[test]
fn routes_close_on_final_answers() {
    assert!(closes_route(&api(1, APIResponseBody::Done, false)));
    assert!(closes_route(&api(1, APIResponseBody::from_openai_chat_completion(ChatCompletion { json: String::new() }), true)));
    assert!(!closes_route(&api(1, APIResponseBody::from_openai_chat_completion_chunk(chunk("{}")), false)));
    let err = APIResponseBody::from_error(ErrorResponse { error: ErrorCode::BackendError, message: String::new() });
    assert!(closes_route(&api(1, err, false)));
}

#[test]
fn response_routes_table() {
    let (tx, _rx) = tokio::sync::mpsc::channel::<APIResponse>(1);
    let mut routes = ResponseRoutes::new();
    assert!(routes.sender_for(7).is_none());
    routes.register(7, tx);
    assert!(routes.sender_for(7).is_some());
    assert!(routes.sender_for(8).is_none());
    routes.finish(7);
    assert!(routes.sender_for(7).is_none());
}

#[test]
fn answer_delivery() {
    let (tx, mut rx) = tokio::sync::mpsc::channel::<APIResponse>(4);
    let (tx2, _rx2) = tokio::sync::mpsc::channel::<APIResponse>(4);
    let mut routes = ResponseRoutes::new();
    routes.register(3, tx);
    routes.register(4, tx2);
    let chunk_answer = api(3, APIResponseBody::from_openai_chat_completion_chunk(chunk("{}")), false);
    let (sender, closes) = routes.delivery_for(&chunk_answer).unwrap();
    assert!(!closes);
    sender.try_send(chunk_answer).ok().unwrap();
    routes.complete_delivery(3, closes);
    assert!(routes.sender_for(3).is_some());
    let done = api(3, APIResponseBody::Done, false);
    let (sender, closes) = routes.delivery_for(&done).unwrap();
    assert!(closes);
    sender.try_send(done).ok().unwrap();
    routes.complete_delivery(3, closes);
    assert!(routes.delivery_for(&api(3, APIResponseBody::Done, false)).is_none());
    assert!(routes.sender_for(4).is_some());
    assert!(matches!(rx.try_recv().ok().unwrap().body, APIResponseBody::Success(_)));
    assert!(matches!(rx.try_recv().ok().unwrap().body, APIResponseBody::Done));
    assert!(routes.delivery_for(&api(9, APIResponseBody::Done, false)).is_none());
}

#[test]
fn model_listing_outcome() {
    assert_eq!(client::model_listing_result(true, "{}".to_string()), Ok("{}".to_string()));
    assert_eq!(client::model_listing_result(false, "down".to_string()), Err("down".to_string()));
}

#[test]
fn client_reads_gateway_frames() {
    let req = APIRequest {
        id: 4,
        body: APIRequestBody::OpenAIChat(ChatRequest { model: "m".to_string(), stream: false, json: "{}".to_string() }),
    };
    assert!(matches!(client::process_message(Frame::Text(Some(req))), ControlFlow::Continue(Some(APIRequest { id: 4, .. }))));
    assert!(matches!(client::process_message(Frame::Text(None)), ControlFlow::Continue(None)));
    assert!(matches!(client::process_message(Frame::Binary(vec![1])), ControlFlow::Continue(None)));
    assert!(matches!(client::process_message(Frame::Other), ControlFlow::Continue(None)));
    assert!(matches!(client::process_message(Frame::Close), ControlFlow::Break(())));
}

#[test]
fn backend_urls() {
    assert_eq!(health_url("http://h:1"), "http://h:1/health");
    assert_eq!(models_url("http://h:1"), "http://h:1/v1/models");
    assert_eq!(chat_completions_url("https://api.openai.com"), "https://api.openai.com/v1/chat/completions");
}

#[test]
fn health_checks() {
    assert_eq!(health_check_result(true, "x".to_string()), Ok(()));
    assert_eq!(health_check_result(false, "down".to_string()), Err("down".to_string()));
    assert_eq!(health_failure_step(0, 5), (1, false));
    assert_eq!(health_failure_step(4, 5), (5, false));
    assert_eq!(health_failure_step(5, 5), (6, true));
    assert_eq!(health_failure_step(0, 0), (1, true));
}

#[test]
fn stream_events() {
    let (r, done) = stream_event_response(2, false, StreamEvent::Open);
    assert!(r.is_none() && !done);
    let (r, done) = stream_event_response(2, false, StreamEvent::Message { data: "[DONE]".to_string(), chunk: None });
    assert!(matches!(r, Some(APIResponse { id: 2, body: APIResponseBody::Done, once: false })));
    assert!(done);
    let (r, done) = stream_event_response(2, false, StreamEvent::Message { data: "{\"a\":1}".to_string(), chunk: Some(chunk("{\"a\":1}")) });
    assert!(matches!(r, Some(APIResponse { id: 2, body: APIResponseBody::Success(APIResponseBodySuccess::OpenAIChatCompletionChunk(_)), once: false })));
    assert!(!done);
    let (r, done) = stream_event_response(2, false, StreamEvent::Message { data: "junk".to_string(), chunk: None });
    assert_eq!(error_message(&r.unwrap()), (ErrorCode::BackendError, "Failed to parse response".to_string()));
    assert!(done);
    let (r, done) = stream_event_response(2, false, StreamEvent::StreamEnded);
    assert_eq!(error_message(&r.unwrap()), (ErrorCode::BackendError, "EventSource stream ended unexpectedly".to_string()));
    assert!(done);
    let (r, _) = stream_event_response(2, true, StreamEvent::StreamEnded);
    assert_eq!(error_message(&r.unwrap()).1, "EventSource internal error");
    let (r, done) = stream_event_response(2, false, StreamEvent::Failed);
    assert_eq!(error_message(&r.unwrap()).1, "EventSource internal error");
    assert!(done);
}

#[test]
fn unary_backend_answers() {
    let ok = unary_response(5, BackendReply::Parsed(ChatCompletion { json: "{}".to_string() }));
    assert!(matches!(ok, APIResponse { id: 5, once: true, body: APIResponseBody::Success(APIResponseBodySuccess::OpenAIChatCompletion(_)) }));
    let r = unary_response(5, BackendReply::SendFailed);
    assert!(r.once);
    assert_eq!(error_message(&r), (ErrorCode::BackendError, "Request ID: 5, Backend error.".to_string()));
    let r = unary_response(12, BackendReply::ReadFailed);
    assert_eq!(error_message(&r).1, "Request ID: 12, Failed to read response body.");
    let r = unary_response(0, BackendReply::ParseFailed);
    assert_eq!(error_message(&r).1, "Request ID: 0, Failed to parse response body.");
}

#[test]
fn client_final_answers_close_gateway_routes() {
    let events = vec![
        StreamEvent::Open,
        StreamEvent::Message { data: "{}".to_string(), chunk: Some(chunk("{}")) },
        StreamEvent::Message { data: "[DONE]".to_string(), chunk: None },
    ];
    let mut done = false;
    let mut sent = Vec::new();
    for e in events {
        let (r, now_done) = stream_event_response(11, done, e);
        done = now_done;
        if let Some(r) = r {
            sent.push(r);
        }
        if done {
            break;
        }
    }
    assert_eq!(sent.len(), 2);
    assert!(!closes_route(&sent[0]));
    assert!(closes_route(&sent[1]));
    for reply in [BackendReply::SendFailed, BackendReply::ParseFailed, BackendReply::Parsed(ChatCompletion { json: "{}".to_string() })] {
        assert!(closes_route(&unary_response(11, reply)));
    }
}
