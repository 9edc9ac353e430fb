//! Handshake steps on both protocols, as decisions over already decoded
//! messages.  The connecting predictor checks each greeting it receives;
//! the broker answers a connecting peer and assigns its pub/sub
//! identity.

use vstd::prelude::*;

use crate::error::Error;
use crate::messages::active;
use crate::messages::passive;
use crate::messages::passive::{FuzzerDescription, NNDescription};
use crate::messages::ClientId;

verus! {

/// The first step of the active handshake, on the predictor side: the
/// fuzzer must greet with `Hello`; anything else is a protocol
/// violation.
pub fn expect_active_hello(msg: &active::TcpResponce) -> (r: Result<(), Error>)
    ensures
        r is Ok <==> msg is Hello,
        r matches Err(e) ==> e is IllegalState,
{
    match msg {
        active::TcpResponce::Hello { .. } => Ok(()),
        _ => Err(Error::IllegalState("incorrect hello message".to_owned())),
    }
}

/// The last step of the active handshake, on the predictor side: the
/// fuzzer must accept; anything else is a protocol violation.
pub fn expect_active_accept(msg: &active::TcpResponce) -> (r: Result<(), Error>)
    ensures
        r is Ok <==> msg is Accepted,
        r matches Err(e) ==> e is IllegalState,
{
    match msg {
        active::TcpResponce::Accepted {} => Ok(()),
        _ => Err(Error::IllegalState("got incorrect message while waiting for acceptance".to_owned())),
    }
}

/// The first step of the passive handshake, on the predictor side: the
/// broker must greet with the fuzzer's description.
pub fn expect_fuzzer_hello(msg: passive::TcpResponce) -> (r: Result<FuzzerDescription, Error>)
    ensures
        match r {
            Ok(d) => msg@ matches passive::TcpResponceView::RemoteFuzzerHello {
                fuzz_description,
            } && fuzz_description == d@,
            Err(e) => !(msg is RemoteFuzzerHello) && e is IllegalState,
        },
{
    match msg {
        passive::TcpResponce::RemoteFuzzerHello { fuzz_description } => Ok(fuzz_description),
        _ => Err(Error::IllegalState("incorrect hello message".to_owned())),
    }
}

/// The last step of the passive handshake, on the predictor side: the
/// broker must accept and assign the pub/sub identity the predictor will
/// send under.
pub fn expect_nn_accepted(msg: &passive::TcpResponce) -> (r: Result<ClientId, Error>)
    ensures
        match r {
            Ok(id) => (msg@ matches passive::TcpResponceView::RemoteNNAccepted { client_id }
                && client_id == id),
            Err(e) => !(msg is RemoteNNAccepted) && e is IllegalState,
        },
{
    match msg {
        passive::TcpResponce::RemoteNNAccepted { client_id } => Ok(*client_id),
        _ => Err(Error::IllegalState("got incorrect message while waiting for acceptance".to_owned())),
    }
}

/// The broker's answer to a connecting peer.  A remote predictor is
/// accepted under the fresh identity and its description is recorded; a
/// local fuzzer instance does not connect over this port and is turned
/// away.
pub fn broker_accept(req: passive::TcpRequest, fresh_id: ClientId) -> (r: Result<
    (passive::TcpResponce, NNDescription),
    Error,
>)
    ensures
        match r {
            Ok((resp, desc)) => {
                &&& req@ matches passive::TcpRequestView::RemoteNnHello { nn_name, nn_version }
                    && desc.nn_name@ == nn_name && desc.nn_version@ == nn_version
                &&& resp@ matches passive::TcpResponceView::RemoteNNAccepted { client_id }
                    && client_id == fresh_id
            },
            Err(e) => !(req is RemoteNnHello) && e is IllegalState,
        },
{
    match req {
        passive::TcpRequest::RemoteNnHello { nn_name, nn_version } => {
            let desc = NNDescription { nn_name, nn_version };
            Ok((passive::TcpResponce::RemoteNNAccepted { client_id: fresh_id }, desc))
        },
        passive::TcpRequest::LocalHello { .. } => Err(
            Error::IllegalState("only a remote predictor connects on this port".to_owned()),
        ),
    }
}

} // verus!
