//! A small multi-peer shared-drawing-canvas protocol.
//!
//! Each node owns one canvas (keyed by its own peer id) and may hold follower
//! copies of canvases owned by other peers. Membership and drawn points are
//! synchronized by exchanging typed protocol messages; this crate holds the
//! protocol's state machine, verified: every handler is a pure transition from
//! a node's state and an incoming event to the next state plus the outbound
//! effects (replies, fire-and-forget sends, UI pushes) that the transport
//! layer must perform.

pub mod canvas;
pub mod codec;
pub mod laws;
pub mod point;
pub mod protocol;
pub mod store;
