//! Serializable mirrors of a Raft node's state, and the conversions between a
//! node and its mirror.
//!
//! - `eraftpb`, `raft_state`, `tracker`: the node's state and its messages.
//! - `serde_messages`, `serde_state`, `serde_tracker`, `serde_log`,
//!   `serde_node`: the mirrors and the conversions both ways; `serde` gathers
//!   the mirror types.
//! - `laws`: what a round trip through a mirror gives back.
//! - `pb`, `seq_util`: the protobuf runtime types, and copying helpers.

pub mod confchange;
pub mod eraftpb;
pub mod field_laws;
pub mod laws;
pub mod pb;
pub mod raft_state;
pub mod seq_util;
pub mod serde;
pub mod serde_log;
pub mod serde_messages;
pub mod serde_node;
pub mod serde_state;
pub mod serde_tracker;
pub mod tracker;
