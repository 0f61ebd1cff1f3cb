//! A replicated calculator: the deterministic state machine that every replica of a
//! Byzantine-fault-tolerant service runs, the byte encodings of its messages and of its
//! state, and the sizes of the cluster and of its quorums.

pub mod app;
pub mod arith;
pub mod state;
pub mod tolerance;
pub mod wire;
