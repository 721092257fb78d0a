//! Client-side real-time synchronization core for a chat service.
//!
//! The library owns the session state (current user, rooms, per-room
//! messages), the wire-frame codec for the realtime connection, the event
//! reconciler that folds inbound events into the state, the heartbeat
//! driver that keeps the connection live, and the bootstrap state machine
//! that sequences login, snapshot fetch, connection and identification.
//! All I/O (HTTP, the socket, credential storage, rendering) lives outside
//! and talks to this core through plain values.

pub mod models;
pub mod state;
pub mod reconcile;
pub mod heartbeat;
pub mod codec;
pub mod wire;
pub mod bootstrap;
pub mod components;
