//! Live connections: the registry that tracks them, the messages they exchange, and what
//! their pumps and the background service decide.

pub mod connection_manager;
pub mod heartbeat;
pub mod wire;

pub use connection_manager::{
    ConnectionId, ConnectionInfo, ConnectionManager, Eviction, Millis, WebSocketMessage,
};
pub use heartbeat::{
    handle_client_message, handle_client_message_at, handle_frame, handle_frame_at,
    run_service_tick, ConnectionPump, Flow, InboundFrame, PumpAction, PumpEvent, ServiceTick,
    TickReport,
};
pub use wire::{decode, encode, DecodeError};
