use llm_gateway::auth::{check_authorization, extract_bearer, AuthError};
use llm_gateway::manager::{ClientManager, ClientManagerError};
use llm_gateway::routes::{
    healthz, healthz_reply, list_models, response_channel_capacity, send_error_reply, stream_reply,
    unary_reply, StreamReply,
};
use llm_gateway::schemas::{
    APIRequestBody, APIResponse, APIResponseBody, ChatCompletion, ChatCompletionChunk, ChatRequest,
    ErrorCode, ErrorResponse, ModelInfo,
};
use llm_gateway::frame::Frame;
use llm_gateway::schemas::ListModelsResponse;
use llm_gateway::server::{cors_policy, token_from_bytes, AllowedOrigins, AppState};
use llm_gateway::ws::accept_models;

fn model(id: &str, owner: &str) -> ModelInfo {
    ModelInfo { id: id.to_string(), created: 1_700_000_000, object: "model".to_string(), owned_by: owner.to_string() }
}

fn chat(model: &str) -> APIRequestBody {
    APIRequestBody::OpenAIChat(ChatRequest { model: model.to_string(), stream: false, json: "{}".to_string() })
}

fn state() -> AppState {
    AppState { access_token: "user-secret".to_string(), client_token: "client-secret".to_string() }
}

#[test]
fn bearer_extraction() {
    assert_eq!(extract_bearer("Bearer abc"), Some("abc"));
    assert_eq!(extract_bearer("Bearer "), Some(""));
    assert_eq!(extract_bearer("bearer abc"), None);
    assert_eq!(extract_bearer("Basic abc"), None);
    assert_eq!(extract_bearer("Bear"), None);
    assert_eq!(extract_bearer("Bearer ünï"), Some("ünï"));
}

#[test]
fn authorization_rules() {
    let s = state();
    assert_eq!(check_authorization(&s, "/v1/models", None), Err(AuthError::MissingAuthorizationHeader));
    assert_eq!(check_authorization(&s, "/v1/models", Some("Token user-secret")), Err(AuthError::MissingAuthorizationHeader));
    assert_eq!(check_authorization(&s, "/v1/models", Some("Bearer user-secret")), Ok(()));
    assert_eq!(check_authorization(&s, "/v1/models", Some("Bearer client-secret")), Err(AuthError::InvalidAccessToken));
    assert_eq!(check_authorization(&s, "/ws", Some("Bearer client-secret")), Ok(()));
    assert_eq!(check_authorization(&s, "/ws", Some("Bearer user-secret")), Err(AuthError::InvalidAccessToken));
    assert_eq!(AuthError::InvalidAccessToken.status(), 401);
    assert_eq!(AuthError::MissingAuthorizationHeader.message(), "Missing Authorization header");
    assert_eq!(AuthError::InvalidAccessToken.message(), "Invalid access token");
}

#[test]
fn registry_registers_once_per_model() {
    let mut m = ClientManager::new();
    assert!(m.list_models().is_empty());
    let _rx1 = m.add_client(model("a", "first"));
    let _rx2 = m.add_client(model("b", "x"));
    let _rx3 = m.add_client(model("a", "second"));
    let models = m.list_models();
    assert_eq!(models.len(), 2);
    assert_eq!(models[0].id, "a");
    assert_eq!(models[0].owned_by, "first");
    assert_eq!(models[1].id, "b");
    assert!(m.check_healthz());
    let listed = list_models(&m);
    assert_eq!(listed.object, "list");
    assert_eq!(listed.data.len(), 2);
}

#[test]
fn register_models_in_order() {
    let mut m = ClientManager::new();
    let rxs = m.register_models(vec![model("x", "1"), model("y", "2"), model("x", "3")]);
    assert_eq!(rxs.len(), 3);
    let models = m.list_models();
    assert_eq!(models.len(), 2);
    assert_eq!(models[0].owned_by, "1");
    assert!(m.register_models(vec![]).is_empty());
}

#[test]
fn requests_are_numbered_and_routed() {
    let mut m = ClientManager::new();
    let _rx = m.add_client(model("a", "o"));
    let (tx, _resp_rx) = tokio::sync::mpsc::channel::<APIResponse>(1);
    let req = m.send_request("a".to_string(), chat("a"), tx.clone()).ok().unwrap();
    assert_eq!(req.body.id, 0);
    assert!(req.timestamp > 0);
    let req2 = m.send_request("a".to_string(), chat("a"), tx.clone()).ok().unwrap();
    assert_eq!(req2.body.id, 1);
    assert!(m.sender_of("a").is_some());
    assert!(m.sender_of("b").is_none());
    let missing = m.send_request("b".to_string(), chat("b"), tx);
    assert!(matches!(missing, Err(ClientManagerError::ModelNotFound(ref s)) if s == "b"));
}

#[test]
fn abandoned_model_is_dropped() {
    let mut m = ClientManager::new();
    let rx = m.add_client(model("a", "o"));
    drop(rx);
    let (tx, _resp_rx) = tokio::sync::mpsc::channel::<APIResponse>(1);
    let r = m.send_request("a".to_string(), chat("a"), tx);
    assert!(matches!(r, Err(ClientManagerError::ModelNotFound(_))));
    assert!(m.list_models().is_empty());
}

#[test]
fn route_request_decisions() {
    let mut m = ClientManager::new();
    let _rx = m.add_client(model("a", "o"));
    let (tx, _resp_rx) = tokio::sync::mpsc::channel::<APIResponse>(1);
    let ok = m.route_request("a".to_string(), chat("a"), tx.clone(), 2, 77).ok().unwrap();
    assert_eq!(ok.body.id, 0);
    assert_eq!(ok.timestamp, 77);
    let gone = m.route_request("a".to_string(), chat("a"), tx, 1, 78);
    assert!(matches!(gone, Err(ClientManagerError::ModelNotFound(_))));
    assert!(m.list_models().is_empty());
}

#[test]
fn try_remove_client_rules() {
    let mut m = ClientManager::new();
    let rx = m.add_client(model("a", "o"));
    m.try_remove_client("a");
    assert_eq!(m.list_models().len(), 1);
    drop(rx);
    m.try_remove_client("a");
    assert!(m.list_models().is_empty());
    let _rx = m.add_client(model("b", "o"));
    m.try_remove_client_with("b", 3);
    assert_eq!(m.list_models().len(), 1);
    m.try_remove_client_with("b", 1);
    assert!(m.list_models().is_empty());
    assert_eq!(ClientManagerError::ModelNotFound("q".to_string()).message(), "Model not found: q");
    assert_eq!(ClientManagerError::InternalError.message(), "Internal error");
}

#[test]
fn route_answers() {
    assert!(healthz_reply(true).is_ok());
    let e = healthz_reply(false).err().unwrap();
    assert_eq!(e.status, 503);
    assert_eq!(e.body.error, ErrorCode::Unhealthy);
    assert_eq!(e.body.message, "Health check failed");
    assert!(healthz(&ClientManager::new()).is_ok());
    assert_eq!(response_channel_capacity(true), 4);
    assert_eq!(response_channel_capacity(false), 1);
    let nf = send_error_reply(ClientManagerError::ModelNotFound("gpt".to_string()));
    assert_eq!(nf.status, 404);
    assert_eq!(nf.body.error, ErrorCode::ModelNotFound);
    assert_eq!(nf.body.message, "Model not found: `gpt`");
    let ie = send_error_reply(ClientManagerError::InternalError);
    assert_eq!((ie.status, ie.body.error, ie.body.message.as_str()), (500, ErrorCode::InternalError, "Internal error"));
}

#[test]
fn chat_answers() {
    let chunk = APIResponse { id: 1, body: APIResponseBody::from_openai_chat_completion_chunk(ChatCompletionChunk { json: "c".to_string() }), once: false };
    assert!(matches!(stream_reply(Some(chunk)), StreamReply::Chunk(_)));
    let err = APIResponse { id: 1, body: APIResponseBody::from_error(ErrorResponse { error: ErrorCode::BackendError, message: "m".to_string() }), once: false };
    assert!(matches!(stream_reply(Some(err)), StreamReply::Error(_)));
    assert!(matches!(stream_reply(Some(APIResponse { id: 1, body: APIResponseBody::Done, once: false })), StreamReply::Done));
    let full = APIResponse { id: 1, body: APIResponseBody::from_openai_chat_completion(ChatCompletion { json: "x".to_string() }), once: true };
    assert!(matches!(stream_reply(Some(full)), StreamReply::Stop));
    assert!(matches!(stream_reply(None), StreamReply::Stop));

    let full = APIResponse { id: 1, body: APIResponseBody::from_openai_chat_completion(ChatCompletion { json: "x".to_string() }), once: true };
    assert_eq!(unary_reply(Some(full)).ok().unwrap().json, "x");
    let chunk = APIResponse { id: 1, body: APIResponseBody::from_openai_chat_completion_chunk(ChatCompletionChunk { json: "c".to_string() }), once: false };
    let e = unary_reply(Some(chunk)).err().unwrap();
    assert_eq!((e.status, e.body.error, e.body.message.as_str()), (500, ErrorCode::BackendError, "Invalid response from backend"));
    let err = APIResponse { id: 1, body: APIResponseBody::from_error(ErrorResponse { error: ErrorCode::BackendError, message: "m".to_string() }), once: true };
    let e = unary_reply(Some(err)).err().unwrap();
    assert_eq!((e.status, e.body.error, e.body.message.as_str()), (424, ErrorCode::BackendError, "m"));
    let e = unary_reply(None).err().unwrap();
    assert_eq!((e.status, e.body.error, e.body.message.as_str()), (500, ErrorCode::InternalError, "Channel closed unexpectedly"));
}

#[test]
fn backend_admission() {
    let mut m = ClientManager::new();
    let list = ListModelsResponse { object: "list".to_string(), data: vec![model("a", "o"), model("b", "o")] };
    let rxs = accept_models(&mut m, Some(Frame::Text(Some(list)))).unwrap();
    assert_eq!(rxs.len(), 2);
    assert_eq!(m.list_models().len(), 2);
    let empty = ListModelsResponse { object: "list".to_string(), data: vec![] };
    assert!(accept_models(&mut m, Some(Frame::Text(Some(empty)))).is_none());
    assert!(accept_models(&mut m, Some(Frame::Text(None))).is_none());
    assert!(accept_models(&mut m, Some(Frame::Close)).is_none());
    assert!(accept_models(&mut m, None).is_none());
    assert_eq!(m.list_models().len(), 2);
}

#[test]
fn registered_receivers_get_the_model_requests() {
    let mut m = ClientManager::new();
    let rx = m.add_client(model("a", "o"));
    let _other = m.add_client(model("b", "o"));
    let again = m.add_client(model("a", "later"));
    let (tx, _resp_rx) = tokio::sync::mpsc::channel::<APIResponse>(1);
    let req = m.send_request("a".to_string(), chat("a"), tx.clone()).ok().unwrap();
    assert!(m.sender_of("a").unwrap().try_send(req).is_ok());
    let got = rx.try_recv().ok().unwrap();
    assert_eq!(got.body.id, 0);
    assert!(_other.try_recv().is_err());
    let req = m.send_request("a".to_string(), chat("a"), tx).ok().unwrap();
    assert!(m.sender_of("a").unwrap().try_send(req).is_ok());
    assert_eq!(again.try_recv().ok().unwrap().body.id, 1);
    assert_eq!(m.sender_of("a").unwrap().capacity(), Some(32));
}

#[test]
fn announced_receivers_match_their_models() {
    let mut m = ClientManager::new();
    let rxs = m.register_models(vec![model("x", "1"), model("y", "2"), model("x", "3")]);
    let (tx, _resp_rx) = tokio::sync::mpsc::channel::<APIResponse>(4);
    let req = m.send_request("x".to_string(), chat("x"), tx.clone()).ok().unwrap();
    m.sender_of("x").unwrap().try_send(req).ok().unwrap();
    let req = m.send_request("y".to_string(), chat("y"), tx).ok().unwrap();
    m.sender_of("y").unwrap().try_send(req).ok().unwrap();
    assert_eq!(rxs[1].try_recv().ok().unwrap().body.id, 1);
    assert_eq!(rxs[2].try_recv().ok().unwrap().body.id, 0);
    assert!(rxs[0].try_recv().is_err());
}

#[test]
fn cross_origin_policy() {
    let p = cors_policy(None);
    assert!(matches!(p.origins, AllowedOrigins::Any));
    assert_eq!(p.methods, vec!["GET", "POST", "PUT", "DELETE"]);
    assert_eq!(p.headers, vec!["authorization", "content-type"]);
    let p = cors_policy(Some(vec!["https://a.example".to_string()]));
    assert!(matches!(p.origins, AllowedOrigins::List(ref l) if l == &vec!["https://a.example".to_string()]));
}

#[test]
fn token_assembly() {
    assert_eq!(token_from_bytes(&b"aZ09".to_vec()), "aZ09");
    assert_eq!(token_from_bytes(&Vec::new()), "");
}

#[test]
fn models_get_distinct_channels() {
    let mut m = ClientManager::new();
    let rx_a = m.add_client(model("a", "o"));
    let rx_b = m.add_client(model("b", "o"));
    let (tx, _resp_rx) = tokio::sync::mpsc::channel::<APIResponse>(2);
    let req = m.send_request("b".to_string(), chat("b"), tx).ok().unwrap();
    m.sender_of("b").unwrap().try_send(req).ok().unwrap();
    assert!(rx_a.try_recv().is_err());
    assert_eq!(rx_b.try_recv().ok().unwrap().body.id, 0);
    assert!(!m.sender_of("a").unwrap().same_channel(m.sender_of("b").unwrap()));
}
