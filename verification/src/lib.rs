//! Decision logic of a Subtensor node service: which consensus tasks a node
//! runs, how its frontier database is laid out, how block timestamps and slots
//! are derived, and how newly imported extrinsics are relayed to RPC
//! subscribers.

pub mod executor;
pub mod extrinsic;
pub mod hash_text;
pub mod service;
pub mod timestamp;
