//! The decisions behind the HTTP and WebSocket handlers.

pub mod ws;
