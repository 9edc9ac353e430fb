//! Verified core of an RL-coached fuzzing bridge.
//!
//! A fuzzing worker and an out-of-process predictor exchange
//! length-prefixed, optionally compressed messages over TCP.  This crate
//! holds the logic of that bridge: the wire codec, the handshakes, the
//! round protocol between worker and predictor, the broker fan-out rules,
//! the heatmap-indexed mutation operators and the reward bookkeeping of
//! the RL mutation stage.  Socket and channel plumbing stays outside.

use vstd::prelude::*;

pub mod broker;
pub mod codec;
pub mod handshake;
pub mod service;
pub mod mutators;
pub mod protocol;
pub mod seed;
pub mod stage;
pub mod error;
pub mod messages;
pub mod wire;

verus! {

/// Size of the edge-coverage map carried in `Predict` and
/// `MapAfterMutation` messages.
pub const MAP_SIZE: usize = 65536;

} // verus!
