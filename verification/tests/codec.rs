//! Wire-format tests: round trips, compatibility with the compact
//! serialization the peers use, framing, and the compression envelope.

use nn_fuzz::codec::{frame_message, open_envelope, pack_envelope, pack_rl_message,
    pack_remote_message, unpack_remote_message, unpack_rl_message};
use nn_fuzz::error::Error;
use nn_fuzz::messages::active::{RLProtoMessage, TcpNewMessage, TcpRequest, TcpResponce,
    COMPRESSION_THRESHOLD};
use nn_fuzz::messages::passive::{FuzzerDescription, TcpRemoteNewMessage};
use nn_fuzz::messages::passive::TcpRequest as PassiveRequest;
use nn_fuzz::messages::passive::TcpResponce as PassiveResponce;
use nn_fuzz::messages::{ClientId, CorpusId, COMPRESS_THRESHOLD, LLMP_FLAG_COMPRESSED};
use nn_fuzz::wire::{make_frame, parse_frame_len};

#[test]
fn varint_matches_postcard() {
    for n in [0u64, 1, 127, 128, 300, 65535, 65536, u64::MAX] {
        let mut ours: Vec<u8> = Vec::new();
        nn_fuzz::wire::write_varint(&mut ours, n);
        let theirs = postcard::to_allocvec(&n).unwrap();
        assert_eq!(ours, theirs, "varint encoding of {n}");
        let (v, used) = nn_fuzz::wire::read_varint(&ours, 0).unwrap();
        assert_eq!(v, n);
        assert_eq!(used, ours.len());
    }
}

#[test]
fn remote_message_matches_postcard() {
    let m = TcpRemoteNewMessage {
        client_id: ClientId(9),
        tag: 0x2b0741,
        flags: 1,
        payload: vec![1, 2, 3, 250],
    };
    let ours = m.encode();
    let theirs =
        postcard::to_allocvec(&(9u32, 0x2b0741u32, 1u16, vec![1u8, 2, 3, 250])).unwrap();
    assert_eq!(ours, theirs);
    assert_eq!(TcpRemoteNewMessage::decode(&ours).unwrap(), m);
}

#[test]
fn predict_matches_postcard() {
    let m = RLProtoMessage::Predict {
        id: CorpusId(7),
        input: b"abc".to_vec(),
        map: vec![0u8; 300],
    };
    let ours = m.encode();
    let mut theirs = vec![0u8];
    theirs.extend(postcard::to_allocvec(&(7u64, b"abc".to_vec(), vec![0u8; 300])).unwrap());
    assert_eq!(ours, theirs);
}

#[test]
fn reward_matches_postcard() {
    let score = 0.5f64;
    let m = RLProtoMessage::Reward { id: CorpusId(3), score_bits: score.to_bits() };
    let ours = m.encode();
    let mut theirs = vec![3u8];
    theirs.extend(postcard::to_allocvec(&(3u64, score)).unwrap());
    assert_eq!(ours, theirs);
}

#[test]
fn rl_message_round_trips() {
    let messages = vec![
        RLProtoMessage::Predict { id: CorpusId(7), input: b"abc".to_vec(), map: vec![0; 16] },
        RLProtoMessage::HeatMap { id: CorpusId(7), idxs: vec![0, 1, 2, 99, 100] },
        RLProtoMessage::MapAfterMutation {
            id: CorpusId(7),
            input: Vec::new(),
            map: vec![1, 2, 3],
        },
        RLProtoMessage::Reward { id: CorpusId(7), score_bits: 0.0f64.to_bits() },
        RLProtoMessage::Error(b"advisory".to_vec()),
    ];
    for m in messages {
        let bytes = m.encode();
        assert_eq!(RLProtoMessage::decode(&bytes).unwrap(), m);
    }
}

#[test]
fn handshake_messages_round_trip() {
    for m in [
        TcpResponce::Hello { name: b"nn_slave_7879".to_vec() },
        TcpResponce::Accepted {},
        TcpResponce::Error { description: b"bad".to_vec() },
    ] {
        let bytes = m.encode();
        assert_eq!(TcpResponce::decode(&bytes).unwrap(), m);
    }
    let rq = TcpRequest::Hello { name: b"markov_chain".to_vec() };
    assert_eq!(TcpRequest::decode(&rq.encode()).unwrap(), rq);
}

#[test]
fn passive_messages_round_trip() {
    let hello = PassiveResponce::RemoteFuzzerHello {
        fuzz_description: FuzzerDescription {
            ec_size: 65536,
            instances: 0,
            fuzz_target: Vec::new(),
        },
    };
    assert_eq!(PassiveResponce::decode(&hello.encode()).unwrap(), hello);
    let accepted = PassiveResponce::RemoteNNAccepted { client_id: ClientId(4) };
    assert_eq!(PassiveResponce::decode(&accepted.encode()).unwrap(), accepted);
    let rq = PassiveRequest::RemoteNnHello {
        nn_name: b"markov_chain".to_vec(),
        nn_version: b"1.0".to_vec(),
    };
    assert_eq!(PassiveRequest::decode(&rq.encode()).unwrap(), rq);
    let lh = PassiveRequest::LocalHello { client_id: ClientId(11) };
    assert_eq!(PassiveRequest::decode(&lh.encode()).unwrap(), lh);
}

#[test]
fn garbage_is_a_serialize_error() {
    assert!(matches!(
        RLProtoMessage::decode(&[250, 1, 2]),
        Err(nn_fuzz::messages::error::Error::SerializeError(_))
    ));
    assert!(matches!(
        TcpResponce::decode(&[]),
        Err(nn_fuzz::messages::error::Error::SerializeError(_))
    ));
    // trailing bytes after a well-formed message are refused too
    let mut bytes = TcpResponce::Accepted {}.encode();
    bytes.push(0);
    assert!(TcpResponce::decode(&bytes).is_err());
}

#[test]
fn frame_carries_its_length() {
    let framed = make_frame(&[1, 2, 3]);
    assert_eq!(framed, vec![0, 0, 0, 3, 1, 2, 3]);
    assert_eq!(parse_frame_len(&framed[0..4]), 3);
    let empty = frame_message(&Vec::new()).unwrap();
    assert_eq!(empty, vec![0, 0, 0, 0]);
}

#[test]
fn envelope_below_threshold_is_plain() {
    let m = RLProtoMessage::HeatMap { id: CorpusId(1), idxs: vec![1, 2, 3] };
    let env = pack_rl_message(&m);
    assert_eq!(env.flags & LLMP_FLAG_COMPRESSED, 0);
    assert_eq!(env.payload, m.encode());
    assert_eq!(unpack_rl_message(&env).unwrap(), m);
}

#[test]
fn envelope_above_threshold_is_compressed() {
    let m = RLProtoMessage::Predict {
        id: CorpusId(7),
        input: b"abc".to_vec(),
        map: vec![0u8; 65536],
    };
    let inner = m.encode();
    assert!(inner.len() >= COMPRESSION_THRESHOLD);
    let env = pack_rl_message(&m);
    assert_eq!(env.flags & LLMP_FLAG_COMPRESSED, LLMP_FLAG_COMPRESSED);
    // a compressor that handed its input back unchanged would fail here
    assert_ne!(env.payload, inner);
    assert!(env.payload.len() < inner.len());
    assert_eq!(unpack_rl_message(&env).unwrap(), m);
}

#[test]
fn compression_boundary_is_exact() {
    // grow the heatmap until the serialized message straddles the
    // threshold by exactly one byte on each side
    let below = RLProtoMessage::Error(vec![65u8; COMPRESSION_THRESHOLD - 4]);
    assert_eq!(below.encode().len(), COMPRESSION_THRESHOLD - 1);
    let env = pack_rl_message(&below);
    assert_eq!(env.flags & LLMP_FLAG_COMPRESSED, 0);
    assert_eq!(unpack_rl_message(&env).unwrap(), below);

    let at = RLProtoMessage::Error(vec![65u8; COMPRESSION_THRESHOLD - 3]);
    assert_eq!(at.encode().len(), COMPRESSION_THRESHOLD);
    let env = pack_rl_message(&at);
    assert_eq!(env.flags & LLMP_FLAG_COMPRESSED, LLMP_FLAG_COMPRESSED);
    assert_eq!(unpack_rl_message(&env).unwrap(), at);
}

#[test]
fn envelope_codec_round_trips() {
    let env = TcpNewMessage { flags: 5, payload: vec![9, 8, 7] };
    let bytes = env.encode();
    assert_eq!(TcpNewMessage::decode(&bytes).unwrap(), env);
}

#[test]
fn corrupt_compressed_payload_is_a_compression_error() {
    let msg = TcpNewMessage { flags: LLMP_FLAG_COMPRESSED, payload: vec![0xAA; 40] };
    assert!(matches!(
        unpack_rl_message(&msg),
        Err(Error::Compression(_))
    ));
    assert!(matches!(
        open_envelope(LLMP_FLAG_COMPRESSED, &vec![0xAA; 40]),
        Err(Error::Compression(_))
    ));
}

#[test]
fn remote_payload_compression_follows_its_threshold() {
    let small = vec![1u8; COMPRESS_THRESHOLD - 1];
    let m = pack_remote_message(ClientId(2), 0, small.clone());
    assert_eq!(m.flags & LLMP_FLAG_COMPRESSED, 0);
    assert_eq!(unpack_remote_message(&m).unwrap(), small);

    let big = vec![1u8; COMPRESS_THRESHOLD];
    let m = pack_remote_message(ClientId(2), 0, big.clone());
    assert_eq!(m.flags & LLMP_FLAG_COMPRESSED, LLMP_FLAG_COMPRESSED);
    assert_ne!(m.payload, big);
    assert_eq!(unpack_remote_message(&m).unwrap(), big);
}

#[test]
fn pack_envelope_reports_the_inner_size() {
    let env = pack_envelope(vec![0u8; 10], 11);
    assert_eq!(env.flags & LLMP_FLAG_COMPRESSED, 0);
    let env = pack_envelope(vec![0u8; 10], 10);
    assert_eq!(env.flags & LLMP_FLAG_COMPRESSED, LLMP_FLAG_COMPRESSED);
}
