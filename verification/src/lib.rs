//! Real-time connection management for a finance tracker service: the registry of live
//! WebSocket clients, the messages exchanged with them, and the rules of the account domain.

pub mod application;
pub mod domain;
pub mod infrastructure;
pub mod text;
