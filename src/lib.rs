//! A client for a websocket event gateway: the session state that survives
//! reconnects, the handshake choice, the router of inbound frames, the
//! heartbeat schedule and the JSON text of the frames it sends.

pub mod session;
pub mod gateway;
pub mod json;
pub mod protocol;
pub mod handler;
pub mod service;
pub mod application;
