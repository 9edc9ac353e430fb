//! Messages of the passive protocol: the handshake between the broker
//! and a remote predictor, and the carrier that duplicates the pub/sub
//! fabric onto the TCP link.

use vstd::prelude::*;

use crate::messages::error::Error;
use crate::messages::ClientId;
use crate::wire::{
    lemma_read_lp_at, lemma_read_varint_at, read_lp_bytes, read_varint, spec_lp_bytes,
    spec_read_lp, spec_read_varint, spec_varint, write_lp_bytes, write_varint,
};

verus! {

/// What the fuzzer offers a connecting predictor.
#[derive(Debug, Clone, PartialEq)]
pub struct FuzzerDescription {
    /// Size of the edge-coverage map.
    pub ec_size: usize,
    /// How many fuzzing instances run.
    pub instances: usize,
    /// The fuzzed target, as UTF-8 bytes.
    pub fuzz_target: Vec<u8>,
}

/// The view of a [`FuzzerDescription`].
pub struct FuzzerDescriptionView {
    pub ec_size: usize,
    pub instances: usize,
    pub fuzz_target: Seq<u8>,
}

impl View for FuzzerDescription {
    type V = FuzzerDescriptionView;

    open spec fn view(&self) -> FuzzerDescriptionView {
        FuzzerDescriptionView {
            ec_size: self.ec_size,
            instances: self.instances,
            fuzz_target: self.fuzz_target@,
        }
    }
}

impl FuzzerDescriptionView {
    pub open spec fn wf(self) -> bool {
        self.fuzz_target.len() <= u64::MAX
    }

    pub open spec fn spec_encode(self) -> Seq<u8> {
        spec_varint(self.ec_size as u64) + spec_varint(self.instances as u64) + spec_lp_bytes(
            self.fuzz_target,
        )
    }
}

/// What the predictor reports about itself during the passive handshake.
#[derive(Debug, Clone, PartialEq)]
pub struct NNDescription {
    /// Name of the model, as UTF-8 bytes.
    pub nn_name: Vec<u8>,
    /// Version of the model, as UTF-8 bytes.
    pub nn_version: Vec<u8>,
}

/// Carrier of one pub/sub event over the TCP link.
#[derive(Debug, Clone, PartialEq)]
pub struct TcpRemoteNewMessage {
    /// The pub/sub identity the event originated from.
    pub client_id: ClientId,
    /// The pub/sub tag of the event.
    pub tag: u32,
    /// The flag bits of the event.
    pub flags: u16,
    /// The serialized event itself.
    pub payload: Vec<u8>,
}

/// The view of a [`TcpRemoteNewMessage`].
pub struct TcpRemoteNewMessageView {
    pub client_id: ClientId,
    pub tag: u32,
    pub flags: u16,
    pub payload: Seq<u8>,
}

impl View for TcpRemoteNewMessage {
    type V = TcpRemoteNewMessageView;

    open spec fn view(&self) -> TcpRemoteNewMessageView {
        TcpRemoteNewMessageView {
            client_id: self.client_id,
            tag: self.tag,
            flags: self.flags,
            payload: self.payload@,
        }
    }
}

impl TcpRemoteNewMessageView {
    pub open spec fn wf(self) -> bool {
        self.payload.len() <= u64::MAX
    }

    pub open spec fn spec_encode(self) -> Seq<u8> {
        spec_varint(self.client_id.0 as u64) + spec_varint(self.tag as u64) + spec_varint(
            self.flags as u64,
        ) + spec_lp_bytes(self.payload)
    }

    pub open spec fn spec_decode(b: Seq<u8>) -> Option<TcpRemoteNewMessageView> {
        match spec_read_varint(b, 0) {
            None => None,
            Some((client_id, j)) => if client_id <= u32::MAX {
                match spec_read_varint(b, j) {
                    None => None,
                    Some((tag, j2)) => if tag <= u32::MAX {
                        match spec_read_varint(b, j2) {
                            None => None,
                            Some((flags, j3)) => if flags <= u16::MAX {
                                match spec_read_lp(b, j3) {
                                    None => None,
                                    Some((payload, j4)) => if j4 == b.len() {
                                        Some(
                                            TcpRemoteNewMessageView {
                                                client_id: ClientId(client_id as u32),
                                                tag: tag as u32,
                                                flags: flags as u16,
                                                payload,
                                            },
                                        )
                                    } else {
                                        None
                                    },
                                }
                            } else {
                                None
                            },
                        }
                    } else {
                        None
                    },
                }
            } else {
                None
            },
        }
    }
}

/// Decoding an encoded carrier yields it back.
pub proof fn lemma_remote_round_trip(m: TcpRemoteNewMessageView)
    requires
        m.wf(),
    ensures
        TcpRemoteNewMessageView::spec_decode(m.spec_encode()) == Some(m),
{
    let e = m.spec_encode();
    let f1 = spec_varint(m.client_id.0 as u64);
    let f2 = spec_varint(m.tag as u64);
    let f3 = spec_varint(m.flags as u64);
    let f4 = spec_lp_bytes(m.payload);
    assert(e =~= Seq::empty() + f1 + (f2 + f3 + f4));
    lemma_read_varint_at(e, Seq::empty(), m.client_id.0 as u64, f2 + f3 + f4);
    assert(e =~= f1 + f2 + (f3 + f4));
    lemma_read_varint_at(e, f1, m.tag as u64, f3 + f4);
    assert(e =~= (f1 + f2) + f3 + f4);
    lemma_read_varint_at(e, f1 + f2, m.flags as u64, f4);
    assert(e =~= (f1 + f2 + f3) + f4 + Seq::empty());
    lemma_read_lp_at(e, f1 + f2 + f3, m.payload, Seq::empty());
}

impl TcpRemoteNewMessage {
    pub fn encode(&self) -> (r: Vec<u8>)
        ensures
            r@ == self@.spec_encode(),
    {
        let mut out: Vec<u8> = Vec::new();
        write_varint(&mut out, self.client_id.0 as u64);
        write_varint(&mut out, self.tag as u64);
        write_varint(&mut out, self.flags as u64);
        write_lp_bytes(&mut out, self.payload.as_slice());
        assert(out@ =~= self@.spec_encode());
        out
    }

    pub fn decode(b: &[u8]) -> (r: Result<Self, Error>)
        ensures
            match r {
                Ok(m) => TcpRemoteNewMessageView::spec_decode(b@) == Some(m@),
                Err(e) => TcpRemoteNewMessageView::spec_decode(b@) is None && e is SerializeError,
            },
    {
        let (client_id, j) = match read_varint(b, 0) {
            None => {
                return Err(Error::SerializeError("message does not decode".to_owned()));
            },
            Some(x) => x,
        };
        if client_id > u32::MAX as u64 {
            return Err(Error::SerializeError("message does not decode".to_owned()));
        }
        let (tag, j2) = match read_varint(b, j) {
            None => {
                return Err(Error::SerializeError("message does not decode".to_owned()));
            },
            Some(x) => x,
        };
        if tag > u32::MAX as u64 {
            return Err(Error::SerializeError("message does not decode".to_owned()));
        }
        let (flags, j3) = match read_varint(b, j2) {
            None => {
                return Err(Error::SerializeError("message does not decode".to_owned()));
            },
            Some(x) => x,
        };
        if flags > u16::MAX as u64 {
            return Err(Error::SerializeError("message does not decode".to_owned()));
        }
        let (payload, j4) = match read_lp_bytes(b, j3) {
            None => {
                return Err(Error::SerializeError("message does not decode".to_owned()));
            },
            Some(x) => x,
        };
        if j4 != b.len() {
            return Err(Error::SerializeError("message does not decode".to_owned()));
        }
        Ok(
            TcpRemoteNewMessage {
                client_id: ClientId(client_id as u32),
                tag: tag as u32,
                flags: flags as u16,
                payload,
            },
        )
    }
}

/// What the broker sends during the passive handshake.
#[derive(Debug, Clone, PartialEq)]
pub enum TcpResponce {
    /// Greeting with the fuzzer's description.
    RemoteFuzzerHello { fuzz_description: FuzzerDescription },
    /// The predictor has been accepted under this pub/sub identity.
    RemoteNNAccepted { client_id: ClientId },
    /// Something went wrong when processing the request.
    Error { description: Vec<u8> },
}

/// The view of a passive [`TcpResponce`].
pub enum TcpResponceView {
    RemoteFuzzerHello { fuzz_description: FuzzerDescriptionView },
    RemoteNNAccepted { client_id: ClientId },
    Error { description: Seq<u8> },
}

impl View for TcpResponce {
    type V = TcpResponceView;

    open spec fn view(&self) -> TcpResponceView {
        match self {
            TcpResponce::RemoteFuzzerHello { fuzz_description } => {
                TcpResponceView::RemoteFuzzerHello { fuzz_description: fuzz_description@ }
            },
            TcpResponce::RemoteNNAccepted { client_id } => TcpResponceView::RemoteNNAccepted {
                client_id: *client_id,
            },
            TcpResponce::Error { description } => TcpResponceView::Error {
                description: description@,
            },
        }
    }
}

impl TcpResponceView {
    pub open spec fn wf(self) -> bool {
        match self {
            TcpResponceView::RemoteFuzzerHello { fuzz_description } => fuzz_description.wf(),
            TcpResponceView::RemoteNNAccepted { .. } => true,
            TcpResponceView::Error { description } => description.len() <= u64::MAX,
        }
    }

    pub open spec fn spec_encode(self) -> Seq<u8> {
        match self {
            TcpResponceView::RemoteFuzzerHello { fuzz_description } => spec_varint(0)
                + fuzz_description.spec_encode(),
            TcpResponceView::RemoteNNAccepted { client_id } => spec_varint(1) + spec_varint(
                client_id.0 as u64,
            ),
            TcpResponceView::Error { description } => spec_varint(2) + spec_lp_bytes(description),
        }
    }

    pub open spec fn spec_decode(b: Seq<u8>) -> Option<TcpResponceView> {
        match spec_read_varint(b, 0) {
            None => None,
            Some((tag, j)) => if tag == 0 {
                match spec_read_varint(b, j) {
                    None => None,
                    Some((ec_size, j2)) => if ec_size <= usize::MAX {
                        match spec_read_varint(b, j2) {
                            None => None,
                            Some((instances, j3)) => if instances <= usize::MAX {
                                match spec_read_lp(b, j3) {
                                    None => None,
                                    Some((fuzz_target, j4)) => if j4 == b.len() {
                                        Some(
                                            TcpResponceView::RemoteFuzzerHello {
                                                fuzz_description: FuzzerDescriptionView {
                                                    ec_size: ec_size as usize,
                                                    instances: instances as usize,
                                                    fuzz_target,
                                                },
                                            },
                                        )
                                    } else {
                                        None
                                    },
                                }
                            } else {
                                None
                            },
                        }
                    } else {
                        None
                    },
                }
            } else if tag == 1 {
                match spec_read_varint(b, j) {
                    None => None,
                    Some((client_id, j2)) => if client_id <= u32::MAX && j2 == b.len() {
                        Some(TcpResponceView::RemoteNNAccepted { client_id: ClientId(client_id as u32) })
                    } else {
                        None
                    },
                }
            } else if tag == 2 {
                match spec_read_lp(b, j) {
                    None => None,
                    Some((description, j2)) => if j2 == b.len() {
                        Some(TcpResponceView::Error { description })
                    } else {
                        None
                    },
                }
            } else {
                None
            },
        }
    }
}

/// Decoding an encoded passive handshake response yields it back.
pub proof fn lemma_passive_responce_round_trip(m: TcpResponceView)
    requires
        m.wf(),
    ensures
        TcpResponceView::spec_decode(m.spec_encode()) == Some(m),
{
    let e = m.spec_encode();
    match m {
        TcpResponceView::RemoteFuzzerHello { fuzz_description } => {
            let t = spec_varint(0);
            let f1 = spec_varint(fuzz_description.ec_size as u64);
            let f2 = spec_varint(fuzz_description.instances as u64);
            let f3 = spec_lp_bytes(fuzz_description.fuzz_target);
            assert(e =~= Seq::empty() + t + (f1 + f2 + f3));
            lemma_read_varint_at(e, Seq::empty(), 0, f1 + f2 + f3);
            assert(e =~= t + f1 + (f2 + f3));
            lemma_read_varint_at(e, t, fuzz_description.ec_size as u64, f2 + f3);
            assert(e =~= (t + f1) + f2 + f3);
            lemma_read_varint_at(e, t + f1, fuzz_description.instances as u64, f3);
            assert(e =~= (t + f1 + f2) + f3 + Seq::empty());
            lemma_read_lp_at(e, t + f1 + f2, fuzz_description.fuzz_target, Seq::empty());
        },
        TcpResponceView::RemoteNNAccepted { client_id } => {
            let t = spec_varint(1);
            let f1 = spec_varint(client_id.0 as u64);
            assert(e =~= Seq::empty() + t + f1);
            lemma_read_varint_at(e, Seq::empty(), 1, f1);
            assert(e =~= t + f1 + Seq::empty());
            lemma_read_varint_at(e, t, client_id.0 as u64, Seq::empty());
        },
        TcpResponceView::Error { description } => {
            let t = spec_varint(2);
            assert(e =~= Seq::empty() + t + spec_lp_bytes(description));
            lemma_read_varint_at(e, Seq::empty(), 2, spec_lp_bytes(description));
            assert(e =~= t + spec_lp_bytes(description) + Seq::empty());
            lemma_read_lp_at(e, t, description, Seq::empty());
        },
    }
}

impl TcpResponce {
    pub fn encode(&self) -> (r: Vec<u8>)
        ensures
            r@ == self@.spec_encode(),
    {
        let mut out: Vec<u8> = Vec::new();
        match self {
            TcpResponce::RemoteFuzzerHello { fuzz_description } => {
                write_varint(&mut out, 0);
                write_varint(&mut out, fuzz_description.ec_size as u64);
                write_varint(&mut out, fuzz_description.instances as u64);
                write_lp_bytes(&mut out, fuzz_description.fuzz_target.as_slice());
            },
            TcpResponce::RemoteNNAccepted { client_id } => {
                write_varint(&mut out, 1);
                write_varint(&mut out, client_id.0 as u64);
            },
            TcpResponce::Error { description } => {
                write_varint(&mut out, 2);
                write_lp_bytes(&mut out, description.as_slice());
            },
        }
        assert(out@ =~= self@.spec_encode());
        out
    }

    pub fn decode(b: &[u8]) -> (r: Result<Self, Error>)
        ensures
            match r {
                Ok(m) => TcpResponceView::spec_decode(b@) == Some(m@),
                Err(e) => TcpResponceView::spec_decode(b@) is None && e is SerializeError,
            },
    {
        let (tag, j) = match read_varint(b, 0) {
            None => {
                return Err(Error::SerializeError("message does not decode".to_owned()));
            },
            Some(x) => x,
        };
        if tag == 0 {
            let (ec_size, j2) = match read_varint(b, j) {
                None => {
                    return Err(Error::SerializeError("message does not decode".to_owned()));
                },
                Some(x) => x,
            };
            if ec_size > usize::MAX as u64 {
                return Err(Error::SerializeError("message does not decode".to_owned()));
            }
            let (instances, j3) = match read_varint(b, j2) {
                None => {
                    return Err(Error::SerializeError("message does not decode".to_owned()));
                },
                Some(x) => x,
            };
            if instances > usize::MAX as u64 {
                return Err(Error::SerializeError("message does not decode".to_owned()));
            }
            let (fuzz_target, j4) = match read_lp_bytes(b, j3) {
                None => {
                    return Err(Error::SerializeError("message does not decode".to_owned()));
                },
                Some(x) => x,
            };
            if j4 != b.len() {
                return Err(Error::SerializeError("message does not decode".to_owned()));
            }
            Ok(
                TcpResponce::RemoteFuzzerHello {
                    fuzz_description: FuzzerDescription {
                        ec_size: ec_size as usize,
                        instances: instances as usize,
                        fuzz_target,
                    },
                },
            )
        } else if tag == 1 {
            let (client_id, j2) = match read_varint(b, j) {
                None => {
                    return Err(Error::SerializeError("message does not decode".to_owned()));
                },
                Some(x) => x,
            };
            if client_id > u32::MAX as u64 || j2 != b.len() {
                return Err(Error::SerializeError("message does not decode".to_owned()));
            }
            Ok(TcpResponce::RemoteNNAccepted { client_id: ClientId(client_id as u32) })
        } else if tag == 2 {
            let (description, j2) = match read_lp_bytes(b, j) {
                None => {
                    return Err(Error::SerializeError("message does not decode".to_owned()));
                },
                Some(x) => x,
            };
            if j2 != b.len() {
                return Err(Error::SerializeError("message does not decode".to_owned()));
            }
            Ok(TcpResponce::Error { description })
        } else {
            Err(Error::SerializeError("message does not decode".to_owned()))
        }
    }
}

/// What a connecting peer asks of the broker.
#[derive(Debug, Clone, PartialEq)]
pub enum TcpRequest {
    /// A remote predictor introduces itself.
    RemoteNnHello { nn_name: Vec<u8>, nn_version: Vec<u8> },
    /// A local fuzzer instance introduces itself.
    LocalHello { client_id: ClientId },
}

/// The view of a passive [`TcpRequest`].
pub enum TcpRequestView {
    RemoteNnHello { nn_name: Seq<u8>, nn_version: Seq<u8> },
    LocalHello { client_id: ClientId },
}

impl View for TcpRequest {
    type V = TcpRequestView;

    open spec fn view(&self) -> TcpRequestView {
        match self {
            TcpRequest::RemoteNnHello { nn_name, nn_version } => TcpRequestView::RemoteNnHello {
                nn_name: nn_name@,
                nn_version: nn_version@,
            },
            TcpRequest::LocalHello { client_id } => TcpRequestView::LocalHello {
                client_id: *client_id,
            },
        }
    }
}

impl TcpRequestView {
    pub open spec fn wf(self) -> bool {
        match self {
            TcpRequestView::RemoteNnHello { nn_name, nn_version } => nn_name.len() <= u64::MAX
                && nn_version.len() <= u64::MAX,
            TcpRequestView::LocalHello { .. } => true,
        }
    }

    pub open spec fn spec_encode(self) -> Seq<u8> {
        match self {
            TcpRequestView::RemoteNnHello { nn_name, nn_version } => spec_varint(0) + spec_lp_bytes(
                nn_name,
            ) + spec_lp_bytes(nn_version),
            TcpRequestView::LocalHello { client_id } => spec_varint(1) + spec_varint(
                client_id.0 as u64,
            ),
        }
    }

    pub open spec fn spec_decode(b: Seq<u8>) -> Option<TcpRequestView> {
        match spec_read_varint(b, 0) {
            None => None,
            Some((tag, j)) => if tag == 0 {
                match spec_read_lp(b, j) {
                    None => None,
                    Some((nn_name, j2)) => match spec_read_lp(b, j2) {
                        None => None,
                        Some((nn_version, j3)) => if j3 == b.len() {
                            Some(TcpRequestView::RemoteNnHello { nn_name, nn_version })
                        } else {
                            None
                        },
                    },
                }
            } else if tag == 1 {
                match spec_read_varint(b, j) {
                    None => None,
                    Some((client_id, j2)) => if client_id <= u32::MAX && j2 == b.len() {
                        Some(TcpRequestView::LocalHello { client_id: ClientId(client_id as u32) })
                    } else {
                        None
                    },
                }
            } else {
                None
            },
        }
    }
}

/// Decoding an encoded passive handshake request yields it back.
pub proof fn lemma_passive_request_round_trip(m: TcpRequestView)
    requires
        m.wf(),
    ensures
        TcpRequestView::spec_decode(m.spec_encode()) == Some(m),
{
    let e = m.spec_encode();
    match m {
        TcpRequestView::RemoteNnHello { nn_name, nn_version } => {
            let t = spec_varint(0);
            let f1 = spec_lp_bytes(nn_name);
            let f2 = spec_lp_bytes(nn_version);
            assert(e =~= Seq::empty() + t + (f1 + f2));
            lemma_read_varint_at(e, Seq::empty(), 0, f1 + f2);
            assert(e =~= t + f1 + f2);
            lemma_read_lp_at(e, t, nn_name, f2);
            assert(e =~= (t + f1) + f2 + Seq::empty());
            lemma_read_lp_at(e, t + f1, nn_version, Seq::empty());
        },
        TcpRequestView::LocalHello { client_id } => {
            let t = spec_varint(1);
            let f1 = spec_varint(client_id.0 as u64);
            assert(e =~= Seq::empty() + t + f1);
            lemma_read_varint_at(e, Seq::empty(), 1, f1);
            assert(e =~= t + f1 + Seq::empty());
            lemma_read_varint_at(e, t, client_id.0 as u64, Seq::empty());
        },
    }
}

impl TcpRequest {
    pub fn encode(&self) -> (r: Vec<u8>)
        ensures
            r@ == self@.spec_encode(),
    {
        let mut out: Vec<u8> = Vec::new();
        match self {
            TcpRequest::RemoteNnHello { nn_name, nn_version } => {
                write_varint(&mut out, 0);
                write_lp_bytes(&mut out, nn_name.as_slice());
                write_lp_bytes(&mut out, nn_version.as_slice());
            },
            TcpRequest::LocalHello { client_id } => {
                write_varint(&mut out, 1);
                write_varint(&mut out, client_id.0 as u64);
            },
        }
        assert(out@ =~= self@.spec_encode());
        out
    }

    pub fn decode(b: &[u8]) -> (r: Result<Self, Error>)
        ensures
            match r {
                Ok(m) => TcpRequestView::spec_decode(b@) == Some(m@),
                Err(e) => TcpRequestView::spec_decode(b@) is None && e is SerializeError,
            },
    {
        let (tag, j) = match read_varint(b, 0) {
            None => {
                return Err(Error::SerializeError("message does not decode".to_owned()));
            },
            Some(x) => x,
        };
        if tag == 0 {
            let (nn_name, j2) = match read_lp_bytes(b, j) {
                None => {
                    return Err(Error::SerializeError("message does not decode".to_owned()));
                },
                Some(x) => x,
            };
            let (nn_version, j3) = match read_lp_bytes(b, j2) {
                None => {
                    return Err(Error::SerializeError("message does not decode".to_owned()));
                },
                Some(x) => x,
            };
            if j3 != b.len() {
                return Err(Error::SerializeError("message does not decode".to_owned()));
            }
            Ok(TcpRequest::RemoteNnHello { nn_name, nn_version })
        } else if tag == 1 {
            let (client_id, j2) = match read_varint(b, j) {
                None => {
                    return Err(Error::SerializeError("message does not decode".to_owned()));
                },
                Some(x) => x,
            };
            if client_id > u32::MAX as u64 || j2 != b.len() {
                return Err(Error::SerializeError("message does not decode".to_owned()));
            }
            Ok(TcpRequest::LocalHello { client_id: ClientId(client_id as u32) })
        } else {
            Err(Error::SerializeError("message does not decode".to_owned()))
        }
    }
}

} // verus!
