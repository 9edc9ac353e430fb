//! Broker fan-out, handshake, error taxonomy and seed-list tests.

use nn_fuzz::broker::{forwarder_inbound, handle_in_broker, inbound_injection, outbound_batch,
    should_forward, BrokerEventResult, EventKind, ForwarderAction, InboundEvent, PredictorSlot};
use nn_fuzz::error::Error;
use nn_fuzz::handshake::{broker_accept, expect_active_accept, expect_active_hello,
    expect_fuzzer_hello, expect_nn_accepted};
use nn_fuzz::messages::active::TcpRequest as ActiveRequest;
use nn_fuzz::messages::active::TcpResponce as ActiveResponce;
use nn_fuzz::messages::error::Error as MsgError;
use nn_fuzz::messages::passive::{FuzzerDescription, TcpRemoteNewMessage};
use nn_fuzz::messages::passive::TcpRequest as PassiveRequest;
use nn_fuzz::messages::passive::TcpResponce as PassiveResponce;
use nn_fuzz::messages::{ClientId, LLMP_FLAG_FROM_NN};
use nn_fuzz::seed::{parse_timeout, parse_u64, split_bytes, Seeds};
use nn_fuzz::service::NnService;

fn event_from(client: u32) -> TcpRemoteNewMessage {
    TcpRemoteNewMessage {
        client_id: ClientId(client),
        tag: 1,
        flags: 0,
        payload: vec![client as u8],
    }
}

#[test]
fn broker_fan_out() {
    let p = ClientId(9);
    // three events from fuzzer clients a, b and c while the predictor
    // holds identity p: exactly those three leave, in arrival order
    let batch = outbound_batch(vec![event_from(1), event_from(2), event_from(3)], p);
    assert_eq!(batch.len(), 3);
    assert_eq!(
        batch.iter().map(|m| m.client_id.0).collect::<Vec<_>>(),
        vec![1, 2, 3]
    );

    // the predictor sends one message under its own identity: it enters
    // the fabric marked as predictor traffic
    let injected = inbound_injection(event_from(9), p);
    assert_eq!(injected.client_id, p);
    assert_ne!(injected.flags & LLMP_FLAG_FROM_NN, 0);

    // and it is not echoed back on the TCP link
    let echo = outbound_batch(vec![injected], p);
    assert!(echo.is_empty());
}

#[test]
fn broker_filters_only_its_own() {
    let p = ClientId(4);
    assert!(should_forward(&event_from(3), p));
    assert!(!should_forward(&event_from(4), p));
}

#[test]
fn only_one_predictor_session_per_broker() {
    let mut slot = PredictorSlot::new();
    assert!(slot.try_claim());
    assert!(!slot.try_claim());
    assert!(!slot.try_claim());
}

#[test]
fn read_failures_classify_by_timeout() {
    assert!(matches!(
        nn_fuzz::codec::read_failure(true),
        Error::NotAvailable()
    ));
    assert!(matches!(nn_fuzz::codec::read_failure(false), Error::IO(_)));
}

#[test]
fn forwarder_absorbs_timeouts_and_dies_on_errors() {
    let p = ClientId(9);
    // a timed-out read is silently absorbed so outbound keeps flowing
    assert!(matches!(
        forwarder_inbound(p, InboundEvent::TimedOut),
        ForwarderAction::Continue
    ));
    // a framing or serialization error terminates the session
    assert!(matches!(
        forwarder_inbound(p, InboundEvent::Failed),
        ForwarderAction::Terminate
    ));
    // a message is injected under the predictor's identity and mark
    match forwarder_inbound(p, InboundEvent::Message(event_from(3))) {
        ForwarderAction::Inject(m) => {
            assert_eq!(m.client_id, p);
            assert_ne!(m.flags & LLMP_FLAG_FROM_NN, 0);
            assert_eq!(m.payload, vec![3u8]);
        }
        other => panic!("expected an injection, got {other:?}"),
    }
}

#[test]
fn broker_event_dispositions() {
    assert_eq!(handle_in_broker(EventKind::NewTestcase), BrokerEventResult::Forward);
    assert_eq!(handle_in_broker(EventKind::CustomBuf), BrokerEventResult::Forward);
    assert_eq!(handle_in_broker(EventKind::UpdateExecStats), BrokerEventResult::Handled);
    assert_eq!(handle_in_broker(EventKind::UpdateUserStats), BrokerEventResult::Handled);
    assert_eq!(handle_in_broker(EventKind::Objective), BrokerEventResult::Handled);
    assert_eq!(handle_in_broker(EventKind::Log), BrokerEventResult::Handled);
}

#[test]
fn active_handshake_names_are_sticky() {
    let mut service = NnService::new();
    let hello = ActiveRequest::Hello { name: b"markov_chain".to_vec() };
    assert!(matches!(service.on_hello(&hello), ActiveResponce::Accepted {}));

    // the same model may reconnect
    let mut service2 = NnService::new();
    assert!(matches!(service2.on_hello(&hello), ActiveResponce::Accepted {}));
    let _ = service2.on_session_error();
    assert!(matches!(service2.on_hello(&hello), ActiveResponce::Accepted {}));

    // a different name after a session existed is turned away
    let mut service3 = NnService::new();
    assert!(matches!(service3.on_hello(&hello), ActiveResponce::Accepted {}));
    let _ = service3.on_session_error();
    let other = ActiveRequest::Hello { name: b"other_model".to_vec() };
    assert!(matches!(service3.on_hello(&other), ActiveResponce::Error { .. }));
}

#[test]
fn predictor_side_handshake_checks() {
    assert!(expect_active_hello(&ActiveResponce::Hello { name: vec![] }).is_ok());
    assert!(matches!(
        expect_active_hello(&ActiveResponce::Accepted {}),
        Err(Error::IllegalState(_))
    ));
    assert!(expect_active_accept(&ActiveResponce::Accepted {}).is_ok());
    assert!(expect_active_accept(&ActiveResponce::Hello { name: vec![] }).is_err());

    let desc = FuzzerDescription { ec_size: 65536, instances: 2, fuzz_target: b"t".to_vec() };
    let hello = PassiveResponce::RemoteFuzzerHello { fuzz_description: desc.clone() };
    assert_eq!(expect_fuzzer_hello(hello).unwrap(), desc);
    assert!(expect_fuzzer_hello(PassiveResponce::Error { description: vec![] }).is_err());

    let accepted = PassiveResponce::RemoteNNAccepted { client_id: ClientId(5) };
    assert_eq!(expect_nn_accepted(&accepted).unwrap(), ClientId(5));
    assert!(expect_nn_accepted(&PassiveResponce::Error { description: vec![] }).is_err());
}

#[test]
fn broker_accepts_a_remote_predictor() {
    let req = PassiveRequest::RemoteNnHello {
        nn_name: b"markov_chain".to_vec(),
        nn_version: b"1.0".to_vec(),
    };
    let (resp, desc) = broker_accept(req, ClientId(12)).unwrap();
    assert!(matches!(
        resp,
        PassiveResponce::RemoteNNAccepted { client_id: ClientId(12) }
    ));
    assert_eq!(desc.nn_name, b"markov_chain".to_vec());
    assert_eq!(desc.nn_version, b"1.0".to_vec());

    let local = PassiveRequest::LocalHello { client_id: ClientId(1) };
    assert!(matches!(
        broker_accept(local, ClientId(12)),
        Err(Error::IllegalState(_))
    ));
}

#[test]
fn error_constructors_carry_their_kind() {
    assert!(matches!(Error::io("x".to_string()), Error::IO(_)));
    assert!(matches!(Error::not_available(), Error::NotAvailable()));
    assert!(matches!(Error::stop_iteration(), Error::StopIteration()));
    assert!(matches!(Error::invalid_format("x".to_string()), Error::InvalidFormat(_)));
    assert!(matches!(Error::illegal_state("x".to_string()), Error::IllegalState(_)));
    assert!(matches!(Error::serialize("x".to_string()), Error::Serialize(_)));
    assert!(matches!(Error::compression("x".to_string()), Error::Compression(_)));
    assert_eq!(Error::io("x".to_string()).describe(), "io error");

    assert!(matches!(MsgError::io_error("x".to_string()), MsgError::IOError(_)));
    assert!(matches!(MsgError::serialize_error("x".to_string()), MsgError::SerializeError(_)));
    assert!(matches!(MsgError::not_available(), MsgError::NotAvailable()));
    assert_eq!(MsgError::not_available().describe(), "not available to read");
    let via: Error = Error::from(MsgError::not_available());
    assert!(matches!(via, Error::NotAvailable()));
    let via: Error = Error::from(MsgError::io_error("y".to_string()));
    assert!(matches!(via, Error::IO(_)));
}

#[test]
fn seeds_parse_numbers_ranges_and_auto() {
    let auto = Seeds::from_cmdline(b"auto").unwrap();
    assert_eq!(auto.vals, None);
    assert_eq!(auto.cmdline, b"auto".to_vec());

    let plain = Seeds::from_cmdline(b"7").unwrap();
    assert_eq!(plain.vals, Some(vec![7]));

    let list = Seeds::from_cmdline(b"1,3-5,3").unwrap();
    assert_eq!(list.vals, Some(vec![1, 3, 4, 5]));

    let single_range = Seeds::from_cmdline(b"9-9").unwrap();
    assert_eq!(single_range.vals, Some(vec![9]));
}

#[test]
fn seeds_reject_junk_and_empty_lists() {
    assert!(matches!(Seeds::from_cmdline(b""), Err(Error::InvalidFormat(_))));
    assert!(matches!(Seeds::from_cmdline(b"x"), Err(Error::InvalidFormat(_))));
    assert!(matches!(Seeds::from_cmdline(b"1,,2"), Err(Error::InvalidFormat(_))));
    // a backwards range spells no seeds at all
    assert!(matches!(Seeds::from_cmdline(b"5-3"), Err(Error::InvalidFormat(_))));
    // an entry of three parts spells nothing, but a neighbour can save it
    let odd = Seeds::from_cmdline(b"1-2-3,4").unwrap();
    assert_eq!(odd.vals, Some(vec![4]));
}

#[test]
fn decimal_parsing_is_exact() {
    assert_eq!(parse_u64(b"0"), Some(0));
    assert_eq!(parse_u64(b"1000"), Some(1000));
    assert_eq!(parse_u64(b"18446744073709551615"), Some(u64::MAX));
    assert_eq!(parse_u64(b"18446744073709551616"), None);
    assert_eq!(parse_u64(b""), None);
    assert_eq!(parse_u64(b"12x"), None);
    assert_eq!(parse_timeout(b"1000").unwrap(), 1000);
    assert!(matches!(parse_timeout(b"abc"), Err(Error::InvalidFormat(_))));
}

#[test]
fn splitting_keeps_empty_pieces() {
    let pieces = split_bytes(b"a,,b", b',');
    assert_eq!(pieces, vec![b"a".to_vec(), b"".to_vec(), b"b".to_vec()]);
    let lone = split_bytes(b"", b',');
    assert_eq!(lone, vec![b"".to_vec()]);
}
