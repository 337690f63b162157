//! The web interface.

pub mod websocket;
