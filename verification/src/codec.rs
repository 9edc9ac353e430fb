//! The envelope layer: payloads above a per-protocol threshold travel
//! compressed, and the flag bits say so.  The compressor is DEFLATE from
//! an outside crate; the two calls into it are the only trusted items of
//! this crate.

use vstd::prelude::*;

use crate::error::Error;
use crate::messages::active::{
    RLProtoMessage, RLProtoMessageView, TcpNewMessage, TcpNewMessageView, COMPRESSION_THRESHOLD,
};
use crate::messages::passive::{TcpRemoteNewMessage, TcpRemoteNewMessageView};
use crate::messages::{ClientId, COMPRESS_THRESHOLD, LLMP_FLAG_COMPRESSED, LLMP_FLAG_INITIALIZED};
use crate::wire::{make_frame, spec_frame};

verus! {

/// What DEFLATE at the given level makes of the given bytes.
pub uninterp spec fn deflate_of(b: Seq<u8>, level: u8) -> Seq<u8>;

/// What inflating the given bytes yields: `None` where they are not a
/// DEFLATE stream.
pub uninterp spec fn inflate_of(b: Seq<u8>) -> Option<Seq<u8>>;

/// Compression level applied to every payload the bridge compresses.
pub const COMPRESSION_LEVEL: u8 = 6;

/// Relies on miniz_oxide::deflate::compress_to_vec: DEFLATE compression
/// at the given level, a function of its arguments alone; by the DEFLATE
/// contract, miniz_oxide::inflate::decompress_to_vec restores the input
/// from its output.
#[verifier::external_body]
fn deflate(input: &[u8], level: u8) -> (r: Vec<u8>)
    ensures
        r@ == deflate_of(input@, level),
        inflate_of(r@) == Some(input@),
{
    miniz_oxide::deflate::compress_to_vec(input, level)
}

/// Relies on miniz_oxide::inflate::decompress_to_vec: the inverse of
/// DEFLATE, a function of its input alone; it fails on bytes that are
/// not a DEFLATE stream.
#[verifier::external_body]
fn inflate(input: &[u8]) -> (r: Option<Vec<u8>>)
    ensures
        match r {
            Some(v) => inflate_of(input@) == Some(v@),
            None => inflate_of(input@) is None,
        },
{
    match miniz_oxide::inflate::decompress_to_vec(input) {
        Ok(v) => Some(v),
        Err(_) => None,
    }
}

/// Whether flag bits say the payload is compressed.
pub open spec fn spec_is_compressed(flags: u16) -> bool {
    flags & LLMP_FLAG_COMPRESSED == LLMP_FLAG_COMPRESSED
}

/// What opening an envelope yields: the payload itself, or what it
/// inflates to.
pub open spec fn spec_open_envelope(flags: u16, payload: Seq<u8>) -> Option<Seq<u8>> {
    if spec_is_compressed(flags) {
        inflate_of(payload)
    } else {
        Some(payload)
    }
}

/// Wraps serialized message bytes in an envelope, compressing them when
/// they reach `threshold`.  Opening the envelope restores the bytes; the
/// flag word is exactly the initialized word, with the compression bit
/// added if and only if the bytes reached the threshold.
pub fn pack_envelope(inner: Vec<u8>, threshold: usize) -> (r: TcpNewMessage)
    ensures
        spec_open_envelope(r.flags, r.payload@) == Some(inner@),
        r.flags == if inner@.len() >= threshold {
            LLMP_FLAG_INITIALIZED | LLMP_FLAG_COMPRESSED
        } else {
            LLMP_FLAG_INITIALIZED
        },
        spec_is_compressed(r.flags) <==> inner@.len() >= threshold,
{
    proof {
        lemma_compressed_flag_bits();
    }
    if inner.len() >= threshold {
        let payload = deflate(inner.as_slice(), COMPRESSION_LEVEL);
        TcpNewMessage { flags: LLMP_FLAG_INITIALIZED | LLMP_FLAG_COMPRESSED, payload }
    } else {
        TcpNewMessage { flags: LLMP_FLAG_INITIALIZED, payload: inner }
    }
}

/// Opens an envelope: hands the payload back, inflated where the flags
/// say so.
pub fn open_envelope(flags: u16, payload: &Vec<u8>) -> (r: Result<Vec<u8>, Error>)
    ensures
        match r {
            Ok(v) => spec_open_envelope(flags, payload@) == Some(v@),
            Err(e) => spec_open_envelope(flags, payload@) is None && e is Compression,
        },
{
    if flags & LLMP_FLAG_COMPRESSED == LLMP_FLAG_COMPRESSED {
        match inflate(payload.as_slice()) {
            Some(v) => Ok(v),
            None => Err(Error::Compression("error while decompressing buffer".to_owned())),
        }
    } else {
        Ok(payload.clone())
    }
}

/// The initialized and compressed flag words differ exactly in the
/// compression bit.
proof fn lemma_compressed_flag_bits()
    ensures
        spec_is_compressed(LLMP_FLAG_INITIALIZED | LLMP_FLAG_COMPRESSED),
        !spec_is_compressed(LLMP_FLAG_INITIALIZED),
{
    assert((0u16 | 1u16) & 1u16 == 1u16) by (bit_vector);
    assert(0u16 & 1u16 == 0u16) by (bit_vector);
}

// ---------------------------------------------------------------------
// the active protocol's envelopes
// ---------------------------------------------------------------------

/// Packs one round message into an envelope, compressing it above the
/// active protocol's threshold.
pub fn pack_rl_message(msg: &RLProtoMessage) -> (r: TcpNewMessage)
    ensures
        spec_open_envelope(r.flags, r.payload@) == Some(msg@.spec_encode()),
        r.flags == if msg@.spec_encode().len() >= COMPRESSION_THRESHOLD {
            LLMP_FLAG_INITIALIZED | LLMP_FLAG_COMPRESSED
        } else {
            LLMP_FLAG_INITIALIZED
        },
        spec_is_compressed(r.flags) <==> msg@.spec_encode().len() >= COMPRESSION_THRESHOLD,
{
    let inner = msg.encode();
    pack_envelope(inner, COMPRESSION_THRESHOLD)
}

/// Opens an envelope and decodes the round message in it.
pub fn unpack_rl_message(msg: &TcpNewMessage) -> (r: Result<RLProtoMessage, Error>)
    ensures
        match r {
            Ok(m) => {
                &&& spec_open_envelope(msg.flags, msg.payload@) is Some
                &&& RLProtoMessageView::spec_decode(
                    spec_open_envelope(msg.flags, msg.payload@).unwrap(),
                ) == Some(m@)
            },
            Err(e) => match spec_open_envelope(msg.flags, msg.payload@) {
                None => e is Compression,
                Some(s) => RLProtoMessageView::spec_decode(s) is None && e is Serialize,
            },
        },
{
    let inner = match open_envelope(msg.flags, &msg.payload) {
        Ok(v) => v,
        Err(e) => {
            return Err(e);
        },
    };
    match RLProtoMessage::decode(inner.as_slice()) {
        Ok(m) => Ok(m),
        Err(_) => Err(Error::Serialize("payload does not decode as a round message".to_owned())),
    }
}

/// Whatever envelope carries the encoding of a round message, opening
/// and decoding it yields that message back: the framing round trip,
/// above and below the compression threshold alike.
pub proof fn lemma_rl_envelope_round_trip(flags: u16, payload: Seq<u8>, m: RLProtoMessageView)
    requires
        m.wf(),
        spec_open_envelope(flags, payload) == Some(m.spec_encode()),
    ensures
        RLProtoMessageView::spec_decode(spec_open_envelope(flags, payload).unwrap()) == Some(m),
{
    crate::messages::active::lemma_rl_round_trip(m);
}

// ---------------------------------------------------------------------
// the passive protocol's carriers
// ---------------------------------------------------------------------

/// Builds the carrier for one serialized pub/sub event, compressing the
/// payload above the passive protocol's threshold.
pub fn pack_remote_message(client_id: ClientId, tag: u32, serialized: Vec<u8>) -> (r:
    TcpRemoteNewMessage)
    ensures
        r.client_id == client_id,
        r.tag == tag,
        spec_open_envelope(r.flags, r.payload@) == Some(serialized@),
        r.flags == if serialized@.len() >= COMPRESS_THRESHOLD {
            LLMP_FLAG_INITIALIZED | LLMP_FLAG_COMPRESSED
        } else {
            LLMP_FLAG_INITIALIZED
        },
        spec_is_compressed(r.flags) <==> serialized@.len() >= COMPRESS_THRESHOLD,
{
    let env = pack_envelope(serialized, COMPRESS_THRESHOLD);
    TcpRemoteNewMessage { client_id, tag, flags: env.flags, payload: env.payload }
}

/// Opens the carrier of one pub/sub event: the serialized event bytes.
pub fn unpack_remote_message(msg: &TcpRemoteNewMessage) -> (r: Result<Vec<u8>, Error>)
    ensures
        match r {
            Ok(v) => spec_open_envelope(msg.flags, msg.payload@) == Some(v@),
            Err(e) => spec_open_envelope(msg.flags, msg.payload@) is None && e is Compression,
        },
{
    open_envelope(msg.flags, &msg.payload)
}

/// What a failed socket read surfaces as: a timed-out read is
/// `NotAvailable`, and exactly that; every other read failure is an IO
/// error.
pub fn read_failure(timed_out: bool) -> (e: Error)
    ensures
        e is NotAvailable <==> timed_out,
        !timed_out ==> e is IO,
{
    if timed_out {
        Error::NotAvailable()
    } else {
        Error::IO("socket read failed".to_owned())
    }
}

// ---------------------------------------------------------------------
// framing
// ---------------------------------------------------------------------

/// Frames one serialized message for the socket: four big-endian length
/// bytes, then the payload.  Payloads whose length does not fit in 32
/// bits are refused as an IO error, and nothing else is.
pub fn frame_message(payload: &Vec<u8>) -> (r: Result<Vec<u8>, Error>)
    ensures
        match r {
            Ok(v) => payload@.len() <= u32::MAX && v@ == spec_frame(payload@),
            Err(e) => payload@.len() > u32::MAX && e is IO,
        },
{
    if payload.len() > u32::MAX as usize {
        Err(Error::IO("message too large for one frame".to_owned()))
    } else {
        Ok(make_frame(payload.as_slice()))
    }
}

} // verus!
