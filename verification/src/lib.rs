//! A message-driven server core for a turn-steppable pursuit simulation.
//!
//! Clients manage independent simulation sessions over a text protocol:
//! they create a session, advance it by an explicit tick count, query its
//! state, and close it. This crate holds the verified core: the session
//! registry, the protocol dispatcher, the snapshot builder, the maze-grid
//! serializer, and the connection state machine. The transport and the
//! simulation engine live outside the crate and feed the core plain
//! values; coordinates travel as raw bit patterns that the core never
//! computes on.

pub mod conn;
pub mod dispatch;
pub mod grid;
pub mod laws;
pub mod messages;
pub mod registry;
pub mod session;

pub use messages::AgentSnapshot;
pub use messages::ClientMessage;
pub use messages::GameStateSnapshot;
pub use messages::MazeInfo;
pub use messages::ServerMessage;
