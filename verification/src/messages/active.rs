//! Messages of the active protocol: the handshake between a fuzzing
//! worker and the predictor, the round messages, and the envelope that
//! carries them.  Textual fields are UTF-8 bytes; the reward score is
//! carried as the bit pattern of a 64-bit float.

use vstd::prelude::*;

use crate::messages::error::Error;
use crate::messages::CorpusId;
use crate::wire::{
    lemma_le_bytes_len, lemma_pow_le_vals, lemma_read_le_at, lemma_read_lp_at, lemma_read_u32_list_at,
    lemma_read_varint_at, read_le_bytes, read_lp_bytes, read_u32_list, read_varint, spec_le_bytes,
    spec_lp_bytes, spec_read_le, spec_read_lp, spec_read_u32_list, spec_read_varint, spec_u32_list,
    spec_varint, write_le_bytes, write_lp_bytes, write_u32_list, write_varint,
};

verus! {

/// Payloads of the active protocol at least this large are compressed.
pub const COMPRESSION_THRESHOLD: usize = 0x1000;

// ---------------------------------------------------------------------
// handshake messages
// ---------------------------------------------------------------------

/// What the fuzzer sends during the active handshake.
#[derive(Debug, Clone, PartialEq)]
pub enum TcpResponce {
    /// Greeting sent on a fresh connection.
    Hello { name: Vec<u8> },
    /// The predictor has been accepted.
    Accepted {},
    /// Something went wrong; the peer should start over.
    Error { description: Vec<u8> },
}

/// The view of a [`TcpResponce`]: the same shape over mathematical
/// sequences.
pub enum TcpResponceView {
    Hello { name: Seq<u8> },
    Accepted {},
    Error { description: Seq<u8> },
}

impl View for TcpResponce {
    type V = TcpResponceView;

    open spec fn view(&self) -> TcpResponceView {
        match self {
            TcpResponce::Hello { name } => TcpResponceView::Hello { name: name@ },
            TcpResponce::Accepted {} => TcpResponceView::Accepted {},
            TcpResponce::Error { description } => TcpResponceView::Error {
                description: description@,
            },
        }
    }
}

impl TcpResponceView {
    /// Every field fits its length prefix.
    pub open spec fn wf(self) -> bool {
        match self {
            TcpResponceView::Hello { name } => name.len() <= u64::MAX,
            TcpResponceView::Accepted {} => true,
            TcpResponceView::Error { description } => description.len() <= u64::MAX,
        }
    }

    /// The encoding: a variant tag, then the fields.
    pub open spec fn spec_encode(self) -> Seq<u8> {
        match self {
            TcpResponceView::Hello { name } => spec_varint(0) + spec_lp_bytes(name),
            TcpResponceView::Accepted {} => spec_varint(1),
            TcpResponceView::Error { description } => spec_varint(2) + spec_lp_bytes(description),
        }
    }

    /// What decoding a whole buffer yields.
    pub open spec fn spec_decode(b: Seq<u8>) -> Option<TcpResponceView> {
        match spec_read_varint(b, 0) {
            None => None,
            Some((tag, j)) => if tag == 0 {
                match spec_read_lp(b, j) {
                    None => None,
                    Some((name, j2)) => if j2 == b.len() {
                        Some(TcpResponceView::Hello { name })
                    } else {
                        None
                    },
                }
            } else if tag == 1 {
                if j == b.len() {
                    Some(TcpResponceView::Accepted {})
                } else {
                    None
                }
            } else if tag == 2 {
                match spec_read_lp(b, j) {
                    None => None,
                    Some((description, j2)) => if j2 == b.len() {
                        Some(TcpResponceView::Error { description })
                    } else {
                        None
                    },
                }
            } else {
                None
            },
        }
    }
}

/// Decoding an encoded handshake response yields it back.
pub proof fn lemma_tcp_responce_round_trip(m: TcpResponceView)
    requires
        m.wf(),
    ensures
        TcpResponceView::spec_decode(m.spec_encode()) == Some(m),
{
    let e = m.spec_encode();
    match m {
        TcpResponceView::Hello { name } => {
            assert(e =~= Seq::empty() + spec_varint(0) + spec_lp_bytes(name));
            lemma_read_varint_at(e, Seq::empty(), 0, spec_lp_bytes(name));
            assert(e =~= spec_varint(0) + spec_lp_bytes(name) + Seq::empty());
            lemma_read_lp_at(e, spec_varint(0), name, Seq::empty());
        },
        TcpResponceView::Accepted {} => {
            assert(e =~= Seq::empty() + spec_varint(1) + Seq::empty());
            lemma_read_varint_at(e, Seq::empty(), 1, Seq::empty());
        },
        TcpResponceView::Error { description } => {
            assert(e =~= Seq::empty() + spec_varint(2) + spec_lp_bytes(description));
            lemma_read_varint_at(e, Seq::empty(), 2, spec_lp_bytes(description));
            assert(e =~= spec_varint(2) + spec_lp_bytes(description) + Seq::empty());
            lemma_read_lp_at(e, spec_varint(2), description, Seq::empty());
        },
    }
}

impl TcpResponce {
    /// Serializes the message.
    pub fn encode(&self) -> (r: Vec<u8>)
        ensures
            r@ == self@.spec_encode(),
    {
        let mut out: Vec<u8> = Vec::new();
        match self {
            TcpResponce::Hello { name } => {
                write_varint(&mut out, 0);
                write_lp_bytes(&mut out, name.as_slice());
            },
            TcpResponce::Accepted {} => {
                write_varint(&mut out, 1);
            },
            TcpResponce::Error { description } => {
                write_varint(&mut out, 2);
                write_lp_bytes(&mut out, description.as_slice());
            },
        }
        assert(out@ =~= self@.spec_encode());
        out
    }

    /// Deserializes a whole buffer; rejects exactly what
    /// [`TcpResponceView::spec_decode`] rejects.
    pub fn decode(b: &[u8]) -> (r: Result<Self, Error>)
        ensures
            match r {
                Ok(m) => TcpResponceView::spec_decode(b@) == Some(m@),
                Err(e) => TcpResponceView::spec_decode(b@) is None && e is SerializeError,
            },
    {
        match read_varint(b, 0) {
            None => Err(Error::SerializeError("message does not decode".to_owned())),
            Some((tag, j)) => {
                if tag == 0 {
                    match read_lp_bytes(b, j) {
                        None => Err(Error::SerializeError("message does not decode".to_owned())),
                        Some((name, j2)) => {
                            if j2 == b.len() {
                                Ok(TcpResponce::Hello { name })
                            } else {
                                Err(Error::SerializeError("message does not decode".to_owned()))
                            }
                        },
                    }
                } else if tag == 1 {
                    if j == b.len() {
                        Ok(TcpResponce::Accepted {})
                    } else {
                        Err(Error::SerializeError("message does not decode".to_owned()))
                    }
                } else if tag == 2 {
                    match read_lp_bytes(b, j) {
                        None => Err(Error::SerializeError("message does not decode".to_owned())),
                        Some((description, j2)) => {
                            if j2 == b.len() {
                                Ok(TcpResponce::Error { description })
                            } else {
                                Err(Error::SerializeError("message does not decode".to_owned()))
                            }
                        },
                    }
                } else {
                    Err(Error::SerializeError("message does not decode".to_owned()))
                }
            },
        }
    }
}

/// What the predictor sends during the active handshake.
#[derive(Debug, Clone, PartialEq)]
pub enum TcpRequest {
    Hello { name: Vec<u8> },
}

/// The view of a [`TcpRequest`].
pub enum TcpRequestView {
    Hello { name: Seq<u8> },
}

impl View for TcpRequest {
    type V = TcpRequestView;

    open spec fn view(&self) -> TcpRequestView {
        match self {
            TcpRequest::Hello { name } => TcpRequestView::Hello { name: name@ },
        }
    }
}

impl TcpRequestView {
    pub open spec fn wf(self) -> bool {
        match self {
            TcpRequestView::Hello { name } => name.len() <= u64::MAX,
        }
    }

    pub open spec fn spec_encode(self) -> Seq<u8> {
        match self {
            TcpRequestView::Hello { name } => spec_varint(0) + spec_lp_bytes(name),
        }
    }

    pub open spec fn spec_decode(b: Seq<u8>) -> Option<TcpRequestView> {
        match spec_read_varint(b, 0) {
            None => None,
            Some((tag, j)) => if tag == 0 {
                match spec_read_lp(b, j) {
                    None => None,
                    Some((name, j2)) => if j2 == b.len() {
                        Some(TcpRequestView::Hello { name })
                    } else {
                        None
                    },
                }
            } else {
                None
            },
        }
    }
}

/// Decoding an encoded handshake request yields it back.
pub proof fn lemma_tcp_request_round_trip(m: TcpRequestView)
    requires
        m.wf(),
    ensures
        TcpRequestView::spec_decode(m.spec_encode()) == Some(m),
{
    let e = m.spec_encode();
    match m {
        TcpRequestView::Hello { name } => {
            assert(e =~= Seq::empty() + spec_varint(0) + spec_lp_bytes(name));
            lemma_read_varint_at(e, Seq::empty(), 0, spec_lp_bytes(name));
            assert(e =~= spec_varint(0) + spec_lp_bytes(name) + Seq::empty());
            lemma_read_lp_at(e, spec_varint(0), name, Seq::empty());
        },
    }
}

impl TcpRequest {
    pub fn encode(&self) -> (r: Vec<u8>)
        ensures
            r@ == self@.spec_encode(),
    {
        let mut out: Vec<u8> = Vec::new();
        match self {
            TcpRequest::Hello { name } => {
                write_varint(&mut out, 0);
                write_lp_bytes(&mut out, name.as_slice());
            },
        }
        assert(out@ =~= self@.spec_encode());
        out
    }

    pub fn decode(b: &[u8]) -> (r: Result<Self, Error>)
        ensures
            match r {
                Ok(m) => TcpRequestView::spec_decode(b@) == Some(m@),
                Err(e) => TcpRequestView::spec_decode(b@) is None && e is SerializeError,
            },
    {
        match read_varint(b, 0) {
            None => Err(Error::SerializeError("message does not decode".to_owned())),
            Some((tag, j)) => {
                if tag == 0 {
                    match read_lp_bytes(b, j) {
                        None => Err(Error::SerializeError("message does not decode".to_owned())),
                        Some((name, j2)) => {
                            if j2 == b.len() {
                                Ok(TcpRequest::Hello { name })
                            } else {
                                Err(Error::SerializeError("message does not decode".to_owned()))
                            }
                        },
                    }
                } else {
                    Err(Error::SerializeError("message does not decode".to_owned()))
                }
            },
        }
    }
}

// ---------------------------------------------------------------------
// round messages
// ---------------------------------------------------------------------

/// One message of the reinforcement-learning round protocol.
#[derive(Debug, Clone, PartialEq)]
pub enum RLProtoMessage {
    /// Worker to predictor: predict a heatmap for this input.
    Predict { id: CorpusId, input: Vec<u8>, map: Vec<u8> },
    /// Predictor to worker: the byte offsets expected to pay off.
    HeatMap { id: CorpusId, idxs: Vec<u32> },
    /// Worker to predictor: the coverage map after one mutation.
    MapAfterMutation { id: CorpusId, input: Vec<u8>, map: Vec<u8> },
    /// Worker to predictor: the reward closing the round.  The score is
    /// the bit pattern of a 64-bit float.
    Reward { id: CorpusId, score_bits: u64 },
    /// Advisory error text.
    Error(Vec<u8>),
}

/// The view of an [`RLProtoMessage`].
pub enum RLProtoMessageView {
    Predict { id: CorpusId, input: Seq<u8>, map: Seq<u8> },
    HeatMap { id: CorpusId, idxs: Seq<u32> },
    MapAfterMutation { id: CorpusId, input: Seq<u8>, map: Seq<u8> },
    Reward { id: CorpusId, score_bits: u64 },
    Error(Seq<u8>),
}

impl View for RLProtoMessage {
    type V = RLProtoMessageView;

    open spec fn view(&self) -> RLProtoMessageView {
        match self {
            RLProtoMessage::Predict { id, input, map } => RLProtoMessageView::Predict {
                id: *id,
                input: input@,
                map: map@,
            },
            RLProtoMessage::HeatMap { id, idxs } => RLProtoMessageView::HeatMap {
                id: *id,
                idxs: idxs@,
            },
            RLProtoMessage::MapAfterMutation { id, input, map } => {
                RLProtoMessageView::MapAfterMutation { id: *id, input: input@, map: map@ }
            },
            RLProtoMessage::Reward { id, score_bits } => RLProtoMessageView::Reward {
                id: *id,
                score_bits: *score_bits,
            },
            RLProtoMessage::Error(text) => RLProtoMessageView::Error(text@),
        }
    }
}

impl RLProtoMessageView {
    /// The corpus id the message speaks of, if any.
    pub open spec fn id(self) -> Option<CorpusId> {
        match self {
            RLProtoMessageView::Predict { id, .. } => Some(id),
            RLProtoMessageView::HeatMap { id, .. } => Some(id),
            RLProtoMessageView::MapAfterMutation { id, .. } => Some(id),
            RLProtoMessageView::Reward { id, .. } => Some(id),
            RLProtoMessageView::Error(_) => None,
        }
    }

    pub open spec fn wf(self) -> bool {
        match self {
            RLProtoMessageView::Predict { id, input, map } => input.len() <= u64::MAX && map.len()
                <= u64::MAX,
            RLProtoMessageView::HeatMap { id, idxs } => idxs.len() <= u64::MAX,
            RLProtoMessageView::MapAfterMutation { id, input, map } => input.len() <= u64::MAX
                && map.len() <= u64::MAX,
            RLProtoMessageView::Reward { .. } => true,
            RLProtoMessageView::Error(text) => text.len() <= u64::MAX,
        }
    }

    pub open spec fn spec_encode(self) -> Seq<u8> {
        match self {
            RLProtoMessageView::Predict { id, input, map } => spec_varint(0) + spec_varint(id.0)
                + spec_lp_bytes(input) + spec_lp_bytes(map),
            RLProtoMessageView::HeatMap { id, idxs } => spec_varint(1) + spec_varint(id.0)
                + spec_u32_list(idxs),
            RLProtoMessageView::MapAfterMutation { id, input, map } => spec_varint(2) + spec_varint(
                id.0,
            ) + spec_lp_bytes(input) + spec_lp_bytes(map),
            RLProtoMessageView::Reward { id, score_bits } => spec_varint(3) + spec_varint(id.0)
                + spec_le_bytes(score_bits as int, 8),
            RLProtoMessageView::Error(text) => spec_varint(4) + spec_lp_bytes(text),
        }
    }

    pub open spec fn spec_decode(b: Seq<u8>) -> Option<RLProtoMessageView> {
        match spec_read_varint(b, 0) {
            None => None,
            Some((tag, j)) => if tag == 0 || tag == 2 {
                match spec_read_varint(b, j) {
                    None => None,
                    Some((id, j2)) => match spec_read_lp(b, j2) {
                        None => None,
                        Some((input, j3)) => match spec_read_lp(b, j3) {
                            None => None,
                            Some((map, j4)) => if j4 == b.len() {
                                if tag == 0 {
                                    Some(
                                        RLProtoMessageView::Predict {
                                            id: CorpusId(id),
                                            input,
                                            map,
                                        },
                                    )
                                } else {
                                    Some(
                                        RLProtoMessageView::MapAfterMutation {
                                            id: CorpusId(id),
                                            input,
                                            map,
                                        },
                                    )
                                }
                            } else {
                                None
                            },
                        },
                    },
                }
            } else if tag == 1 {
                match spec_read_varint(b, j) {
                    None => None,
                    Some((id, j2)) => match spec_read_u32_list(b, j2) {
                        None => None,
                        Some((idxs, j3)) => if j3 == b.len() {
                            Some(RLProtoMessageView::HeatMap { id: CorpusId(id), idxs })
                        } else {
                            None
                        },
                    },
                }
            } else if tag == 3 {
                match spec_read_varint(b, j) {
                    None => None,
                    Some((id, j2)) => match spec_read_le(b, j2, 8) {
                        None => None,
                        Some((score, j3)) => if j3 == b.len() && 0 <= score <= u64::MAX {
                            Some(
                                RLProtoMessageView::Reward {
                                    id: CorpusId(id),
                                    score_bits: score as u64,
                                },
                            )
                        } else {
                            None
                        },
                    },
                }
            } else if tag == 4 {
                match spec_read_lp(b, j) {
                    None => None,
                    Some((text, j2)) => if j2 == b.len() {
                        Some(RLProtoMessageView::Error(text))
                    } else {
                        None
                    },
                }
            } else {
                None
            },
        }
    }
}

/// Decoding an encoded round message yields it back.
#[verifier::rlimit(60)]
pub proof fn lemma_rl_round_trip(m: RLProtoMessageView)
    requires
        m.wf(),
    ensures
        RLProtoMessageView::spec_decode(m.spec_encode()) == Some(m),
{
    let e = m.spec_encode();
    match m {
        RLProtoMessageView::Predict { id, input, map } => {
            let t = spec_varint(0);
            let f1 = spec_varint(id.0);
            let f2 = spec_lp_bytes(input);
            let f3 = spec_lp_bytes(map);
            assert(e =~= Seq::empty() + t + (f1 + f2 + f3));
            lemma_read_varint_at(e, Seq::empty(), 0, f1 + f2 + f3);
            assert(e =~= t + f1 + (f2 + f3));
            lemma_read_varint_at(e, t, id.0, f2 + f3);
            assert(e =~= (t + f1) + f2 + f3);
            lemma_read_lp_at(e, t + f1, input, f3);
            assert(e =~= (t + f1 + f2) + f3 + Seq::empty());
            lemma_read_lp_at(e, t + f1 + f2, map, Seq::empty());
        },
        RLProtoMessageView::MapAfterMutation { id, input, map } => {
            let t = spec_varint(2);
            let f1 = spec_varint(id.0);
            let f2 = spec_lp_bytes(input);
            let f3 = spec_lp_bytes(map);
            assert(e =~= Seq::empty() + t + (f1 + f2 + f3));
            lemma_read_varint_at(e, Seq::empty(), 2, f1 + f2 + f3);
            assert(e =~= t + f1 + (f2 + f3));
            lemma_read_varint_at(e, t, id.0, f2 + f3);
            assert(e =~= (t + f1) + f2 + f3);
            lemma_read_lp_at(e, t + f1, input, f3);
            assert(e =~= (t + f1 + f2) + f3 + Seq::empty());
            lemma_read_lp_at(e, t + f1 + f2, map, Seq::empty());
        },
        RLProtoMessageView::HeatMap { id, idxs } => {
            let t = spec_varint(1);
            let f1 = spec_varint(id.0);
            let f2 = spec_u32_list(idxs);
            assert(e =~= Seq::empty() + t + (f1 + f2));
            lemma_read_varint_at(e, Seq::empty(), 1, f1 + f2);
            assert(e =~= t + f1 + f2);
            lemma_read_varint_at(e, t, id.0, f2);
            assert(e =~= (t + f1) + f2 + Seq::empty());
            lemma_read_u32_list_at(e, t + f1, idxs, Seq::empty());
        },
        RLProtoMessageView::Reward { id, score_bits } => {
            let t = spec_varint(3);
            let f1 = spec_varint(id.0);
            let f2 = spec_le_bytes(score_bits as int, 8);
            assert(e =~= Seq::empty() + t + (f1 + f2));
            lemma_read_varint_at(e, Seq::empty(), 3, f1 + f2);
            assert(e =~= t + f1 + f2);
            lemma_read_varint_at(e, t, id.0, f2);
            assert(e =~= (t + f1) + f2 + Seq::empty());
            lemma_pow_le_vals();
            lemma_le_bytes_len(score_bits as int, 8);
            lemma_read_le_at(e, t + f1, score_bits as int, 8, Seq::empty());
        },
        RLProtoMessageView::Error(text) => {
            let t = spec_varint(4);
            assert(e =~= Seq::empty() + t + spec_lp_bytes(text));
            lemma_read_varint_at(e, Seq::empty(), 4, spec_lp_bytes(text));
            assert(e =~= t + spec_lp_bytes(text) + Seq::empty());
            lemma_read_lp_at(e, t, text, Seq::empty());
        },
    }
}

impl RLProtoMessage {
    pub fn encode(&self) -> (r: Vec<u8>)
        ensures
            r@ == self@.spec_encode(),
    {
        let mut out: Vec<u8> = Vec::new();
        match self {
            RLProtoMessage::Predict { id, input, map } => {
                write_varint(&mut out, 0);
                write_varint(&mut out, id.0);
                write_lp_bytes(&mut out, input.as_slice());
                write_lp_bytes(&mut out, map.as_slice());
            },
            RLProtoMessage::HeatMap { id, idxs } => {
                write_varint(&mut out, 1);
                write_varint(&mut out, id.0);
                write_u32_list(&mut out, idxs);
            },
            RLProtoMessage::MapAfterMutation { id, input, map } => {
                write_varint(&mut out, 2);
                write_varint(&mut out, id.0);
                write_lp_bytes(&mut out, input.as_slice());
                write_lp_bytes(&mut out, map.as_slice());
            },
            RLProtoMessage::Reward { id, score_bits } => {
                write_varint(&mut out, 3);
                write_varint(&mut out, id.0);
                write_le_bytes(&mut out, *score_bits, 8);
            },
            RLProtoMessage::Error(text) => {
                write_varint(&mut out, 4);
                write_lp_bytes(&mut out, text.as_slice());
            },
        }
        assert(out@ =~= self@.spec_encode());
        out
    }

    pub fn decode(b: &[u8]) -> (r: Result<Self, Error>)
        ensures
            match r {
                Ok(m) => RLProtoMessageView::spec_decode(b@) == Some(m@),
                Err(e) => RLProtoMessageView::spec_decode(b@) is None && e is SerializeError,
            },
    {
        let (tag, j) = match read_varint(b, 0) {
            None => {
                return Err(Error::SerializeError("message does not decode".to_owned()));
            },
            Some(x) => x,
        };
        if tag == 0 || tag == 2 {
            let (id, j2) = match read_varint(b, j) {
                None => {
                    return Err(Error::SerializeError("message does not decode".to_owned()));
                },
                Some(x) => x,
            };
            let (input, j3) = match read_lp_bytes(b, j2) {
                None => {
                    return Err(Error::SerializeError("message does not decode".to_owned()));
                },
                Some(x) => x,
            };
            let (map, j4) = match read_lp_bytes(b, j3) {
                None => {
                    return Err(Error::SerializeError("message does not decode".to_owned()));
                },
                Some(x) => x,
            };
            if j4 != b.len() {
                return Err(Error::SerializeError("message does not decode".to_owned()));
            }
            if tag == 0 {
                Ok(RLProtoMessage::Predict { id: CorpusId(id), input, map })
            } else {
                Ok(RLProtoMessage::MapAfterMutation { id: CorpusId(id), input, map })
            }
        } else if tag == 1 {
            let (id, j2) = match read_varint(b, j) {
                None => {
                    return Err(Error::SerializeError("message does not decode".to_owned()));
                },
                Some(x) => x,
            };
            let (idxs, j3) = match read_u32_list(b, j2) {
                None => {
                    return Err(Error::SerializeError("message does not decode".to_owned()));
                },
                Some(x) => x,
            };
            if j3 != b.len() {
                return Err(Error::SerializeError("message does not decode".to_owned()));
            }
            Ok(RLProtoMessage::HeatMap { id: CorpusId(id), idxs })
        } else if tag == 3 {
            let (id, j2) = match read_varint(b, j) {
                None => {
                    return Err(Error::SerializeError("message does not decode".to_owned()));
                },
                Some(x) => x,
            };
            let (score_bits, j3) = match read_le_bytes(b, j2, 8) {
                None => {
                    return Err(Error::SerializeError("message does not decode".to_owned()));
                },
                Some(x) => x,
            };
            if j3 != b.len() {
                return Err(Error::SerializeError("message does not decode".to_owned()));
            }
            Ok(RLProtoMessage::Reward { id: CorpusId(id), score_bits })
        } else if tag == 4 {
            let (text, j2) = match read_lp_bytes(b, j) {
                None => {
                    return Err(Error::SerializeError("message does not decode".to_owned()));
                },
                Some(x) => x,
            };
            if j2 != b.len() {
                return Err(Error::SerializeError("message does not decode".to_owned()));
            }
            Ok(RLProtoMessage::Error(text))
        } else {
            Err(Error::SerializeError("message does not decode".to_owned()))
        }
    }
}

// ---------------------------------------------------------------------
// the envelope
// ---------------------------------------------------------------------

/// The envelope around every framed payload of the active protocol:
/// flag bits, then the serialized message, compressed or not.
#[derive(Debug, Clone, PartialEq)]
pub struct TcpNewMessage {
    /// The flag bits.
    pub flags: u16,
    /// The carried bytes.
    pub payload: Vec<u8>,
}

/// The view of a [`TcpNewMessage`].
pub struct TcpNewMessageView {
    pub flags: u16,
    pub payload: Seq<u8>,
}

impl View for TcpNewMessage {
    type V = TcpNewMessageView;

    open spec fn view(&self) -> TcpNewMessageView {
        TcpNewMessageView { flags: self.flags, payload: self.payload@ }
    }
}

impl TcpNewMessageView {
    pub open spec fn wf(self) -> bool {
        self.payload.len() <= u64::MAX
    }

    pub open spec fn spec_encode(self) -> Seq<u8> {
        spec_varint(self.flags as u64) + spec_lp_bytes(self.payload)
    }

    pub open spec fn spec_decode(b: Seq<u8>) -> Option<TcpNewMessageView> {
        match spec_read_varint(b, 0) {
            None => None,
            Some((flags, j)) => if flags <= u16::MAX {
                match spec_read_lp(b, j) {
                    None => None,
                    Some((payload, j2)) => if j2 == b.len() {
                        Some(TcpNewMessageView { flags: flags as u16, payload })
                    } else {
                        None
                    },
                }
            } else {
                None
            },
        }
    }
}

/// Decoding an encoded envelope yields it back.
pub proof fn lemma_envelope_round_trip(m: TcpNewMessageView)
    requires
        m.wf(),
    ensures
        TcpNewMessageView::spec_decode(m.spec_encode()) == Some(m),
{
    let e = m.spec_encode();
    let t = spec_varint(m.flags as u64);
    assert(e =~= Seq::empty() + t + spec_lp_bytes(m.payload));
    lemma_read_varint_at(e, Seq::empty(), m.flags as u64, spec_lp_bytes(m.payload));
    assert(e =~= t + spec_lp_bytes(m.payload) + Seq::empty());
    lemma_read_lp_at(e, t, m.payload, Seq::empty());
}

impl TcpNewMessage {
    pub fn encode(&self) -> (r: Vec<u8>)
        ensures
            r@ == self@.spec_encode(),
    {
        let mut out: Vec<u8> = Vec::new();
        write_varint(&mut out, self.flags as u64);
        write_lp_bytes(&mut out, self.payload.as_slice());
        assert(out@ =~= self@.spec_encode());
        out
    }

    pub fn decode(b: &[u8]) -> (r: Result<Self, Error>)
        ensures
            match r {
                Ok(m) => TcpNewMessageView::spec_decode(b@) == Some(m@),
                Err(e) => TcpNewMessageView::spec_decode(b@) is None && e is SerializeError,
            },
    {
        let (flags, j) = match read_varint(b, 0) {
            None => {
                return Err(Error::SerializeError("message does not decode".to_owned()));
            },
            Some(x) => x,
        };
        if flags > u16::MAX as u64 {
            return Err(Error::SerializeError("message does not decode".to_owned()));
        }
        let (payload, j2) = match read_lp_bytes(b, j) {
            None => {
                return Err(Error::SerializeError("message does not decode".to_owned()));
            },
            Some(x) => x,
        };
        if j2 != b.len() {
            return Err(Error::SerializeError("message does not decode".to_owned()));
        }
        Ok(TcpNewMessage { flags: flags as u16, payload })
    }
}

} // verus!
