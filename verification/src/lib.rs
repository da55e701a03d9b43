//! Verified core of an LLM API gateway: the wire schemas shared by the gateway
//! server and its backend clients, the registry of connected model backends,
//! request routing and reply decisions, and the small codecs they rely on.
pub mod auth;
pub mod client;
mod clock;
pub mod frame;
pub mod logging;
pub mod manager;
pub mod routes;
pub mod schemas;
pub mod server;
pub mod text;
pub mod ws;
