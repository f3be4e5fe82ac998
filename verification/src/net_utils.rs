//! Reconnection and retry decisions, and the handling of WebSocket messages.
pub mod retry;
pub mod ws;
