//! The peer-to-peer layer: messages, sessions and the node that coordinates them.

pub mod decimal;
pub mod engine;
pub mod node;
pub mod session;
pub mod signaling_types;
pub mod trace;
pub mod wire;

pub use node::P2PNode;
