//! The message registry of the bridge: identifiers and flag bits shared
//! by both protocols, the handshake and round messages of the active
//! protocol, and the carrier messages of the passive protocol.  Each
//! message has an exact encoding specification, a writer proved to emit
//! it, a reader proved to accept exactly it, and a round-trip law.

use vstd::prelude::*;

pub mod active;
pub mod error;
pub mod passive;

verus! {

/// Identifier of a stored corpus input, assigned by the fuzzer.
#[derive(Debug, Clone, Copy, PartialEq, Eq, Structural, Hash)]
pub struct CorpusId(pub u64);

/// Identity of a client on the pub/sub fabric.
#[derive(Debug, Clone, Copy, PartialEq, Eq, Structural, Hash)]
pub struct ClientId(pub u32);

/// Flag bits carried beside every envelope payload.
pub const LLMP_FLAG_INITIALIZED: u16 = 0x0;

/// The payload is compressed.
pub const LLMP_FLAG_COMPRESSED: u16 = 0x1;

/// The message was injected into the pub/sub fabric on behalf of the
/// predictor.
pub const LLMP_FLAG_FROM_NN: u16 = 0x4;

/// Payloads of the passive protocol at least this large are compressed.
pub const COMPRESS_THRESHOLD: usize = 1024;

} // verus!
