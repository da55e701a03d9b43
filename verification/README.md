# llm_gateway

A gateway that puts many OpenAI-compatible chat backends behind one HTTP API.
Backends connect to the gateway over a websocket, announce the models they
serve, and receive the chat requests addressed to those models; users call the
gateway's `/v1/models` and `/v1/chat/completions` routes with a bearer token.

- `src/` is the verified library: the message schemas, the registry of
  connected models and the numbering of requests (`manager`), the routing of
  answers back to users and the heartbeat rules (`ws`), the backend client's
  decisions (`client`), the route answers (`routes`), bearer-token
  authentication (`auth`), token and thread-pool settings (`server`), log
  settings (`logging`), and the heartbeat codec (`frame`).
- `app/` is the program around it: `llm_gateway server` runs the gateway with
  axum, `llm_gateway client` connects a backend with reqwest and
  tokio-tungstenite. It holds the JSON forms of the messages, the network
  loops and the log subscriber.
- `tests/` exercise the library on concrete values.
