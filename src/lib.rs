//! A WebSocket broadcast server's decision logic: the registry of open
//! connections, the single running server, the per-connection lifecycle, the
//! broadcast that stops at the first failed send, and the texts that the host
//! shows.
pub mod dispatch;
pub mod events;
pub mod handler;
pub mod registry;
pub mod server;
pub mod text;
