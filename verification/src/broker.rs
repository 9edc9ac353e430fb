//! The broker's forwarding rules: which pub/sub messages go out to the
//! predictor, how predictor traffic is marked on its way in, and which
//! event kinds the broker handles itself.

use vstd::prelude::*;

use crate::messages::passive::TcpRemoteNewMessage;
use crate::messages::{ClientId, LLMP_FLAG_FROM_NN};

verus! {

/// Whether one pub/sub message leaves on the TCP link: everything except
/// the predictor's own traffic, which would loop.
pub fn should_forward(msg: &TcpRemoteNewMessage, local_id: ClientId) -> (r: bool)
    ensures
        r <==> msg.client_id != local_id,
{
    msg.client_id.0 != local_id.0
}

/// One outbound drain: of the messages taken off the pub/sub fabric,
/// exactly those not bearing the predictor's own identity are forwarded,
/// in arrival order.
#[verifier::loop_isolation(false)]
pub fn outbound_batch(msgs: Vec<TcpRemoteNewMessage>, local_id: ClientId) -> (r: Vec<
    TcpRemoteNewMessage,
>)
    ensures
        r@ == msgs@.filter(|m: TcpRemoteNewMessage| m.client_id != local_id),
        forall|k: int| 0 <= k < r@.len() ==> (#[trigger] r@[k]).client_id != local_id,
{
    let ghost spred = |m: TcpRemoteNewMessage| m.client_id != local_id;
    let ghost orig = msgs@;
    let mut rest = msgs;
    let mut out: Vec<TcpRemoteNewMessage> = Vec::new();
    let ghost mut i: int = 0;
    proof {
        assert(orig.subrange(0, 0) =~= Seq::<TcpRemoteNewMessage>::empty());
        assert(Seq::<TcpRemoteNewMessage>::empty().filter(spred) =~= Seq::<
            TcpRemoteNewMessage,
        >::empty());
        assert(rest@ =~= orig.skip(0));
    }
    while rest.len() > 0
        invariant
            0 <= i <= orig.len(),
            rest@ == orig.skip(i),
            out@ == orig.subrange(0, i).filter(spred),
        decreases rest@.len(),
    {
        let m = rest.remove(0);
        proof {
            assert(m == orig[i]);
            let sub0 = orig.subrange(0, i);
            let sub1 = orig.subrange(0, i + 1);
            assert(sub1.drop_last() =~= sub0);
            assert(sub1.last() == orig[i]);
            assert(rest@ =~= orig.skip(i + 1));
            reveal_with_fuel(Seq::<_>::filter, 2);
            assert(sub1.filter(spred) == if spred(orig[i]) {
                sub0.filter(spred).push(orig[i])
            } else {
                sub0.filter(spred)
            });
            assert(m.client_id == ClientId(m.client_id.0));
            assert(local_id == ClientId(local_id.0));
        }
        if m.client_id.0 != local_id.0 {
            out.push(m);
        }
        proof {
            i = i + 1;
        }
    }
    proof {
        assert(orig.subrange(0, orig.len() as int) =~= orig);
    }
    out
}

/// The flag word of a message injected on the predictor's behalf: the
/// original flags with the predictor mark set.
pub fn inject_flags(flags: u16) -> (r: u16)
    ensures
        r == flags | LLMP_FLAG_FROM_NN,
        r & LLMP_FLAG_FROM_NN != 0,
{
    let r = flags | LLMP_FLAG_FROM_NN;
    assert(r & 4u16 != 0) by (bit_vector)
        requires
            r == flags | 4u16,
    ;
    r
}

/// A predictor message readied for injection into the pub/sub fabric:
/// same tag and payload, flags marked as predictor traffic, and the
/// predictor's own pub/sub identity as origin.
pub fn inbound_injection(msg: TcpRemoteNewMessage, local_id: ClientId) -> (r: TcpRemoteNewMessage)
    ensures
        r.client_id == local_id,
        r.tag == msg.tag,
        r.payload@ == msg.payload@,
        r.flags == msg.flags | LLMP_FLAG_FROM_NN,
        r.flags & LLMP_FLAG_FROM_NN != 0,
{
    TcpRemoteNewMessage {
        client_id: local_id,
        tag: msg.tag,
        flags: inject_flags(msg.flags),
        payload: msg.payload,
    }
}

/// The broker's one predictor seat: at most one predictor session
/// exists per broker instance.
#[derive(Debug, Clone, Copy, PartialEq, Eq, Structural)]
pub struct PredictorSlot {
    /// Whether a predictor already holds the seat.
    pub taken: bool,
}

impl PredictorSlot {
    /// A free seat.
    pub fn new() -> (r: Self)
        ensures
            !r.taken,
    {
        Self { taken: false }
    }

    /// Claims the seat for a connecting predictor: succeeds exactly once.
    pub fn try_claim(&mut self) -> (r: bool)
        ensures
            r <==> !old(self).taken,
            final(self).taken,
    {
        let free = !self.taken;
        self.taken = true;
        free
    }
}

/// What one inbound attempt of the forwarder observed.
#[derive(Debug)]
pub enum InboundEvent {
    /// A carrier message arrived from the predictor.
    Message(TcpRemoteNewMessage),
    /// The read timed out: there was nothing to take in.
    TimedOut,
    /// The read or the decoding failed.
    Failed,
}

/// What the forwarder does next.
#[derive(Debug)]
pub enum ForwarderAction {
    /// Put this message on the pub/sub fabric, then drain outbound again.
    Inject(TcpRemoteNewMessage),
    /// Nothing arrived in time: drain outbound again so the fuzzer's own
    /// traffic keeps flowing.
    Continue,
    /// A framing or serialization error ends the session.
    Terminate,
}

/// The forwarder's inbound step, between two outbound drains: a message
/// from the predictor is injected under the predictor's identity with
/// the predictor mark set; a timeout is silently absorbed; any other
/// failure terminates the session.
pub fn forwarder_inbound(local_id: ClientId, ev: InboundEvent) -> (a: ForwarderAction)
    ensures
        match ev {
            InboundEvent::Message(m) => (a matches ForwarderAction::Inject(r) && r.client_id
                == local_id && r.tag == m.tag && r.flags == (m.flags | LLMP_FLAG_FROM_NN)
                && r.flags & LLMP_FLAG_FROM_NN != 0 && r.payload@ == m.payload@),
            InboundEvent::TimedOut => a is Continue,
            InboundEvent::Failed => a is Terminate,
        },
{
    match ev {
        InboundEvent::Message(m) => ForwarderAction::Inject(inbound_injection(m, local_id)),
        InboundEvent::TimedOut => ForwarderAction::Continue,
        InboundEvent::Failed => ForwarderAction::Terminate,
    }
}

/// The top-level kinds of events the fuzzer's runtime publishes.
#[derive(Debug, Clone, Copy, PartialEq, Eq, Structural)]
pub enum EventKind {
    /// A new corpus entry, with its input and observations.
    NewTestcase,
    /// Periodic execution statistics.
    UpdateExecStats,
    /// A named user statistic.
    UpdateUserStats,
    /// An objective was hit.
    Objective,
    /// A log line.
    Log,
    /// An opaque custom buffer.
    CustomBuf,
}

/// What the broker does with one event after its monitor bookkeeping.
#[derive(Debug, Clone, Copy, PartialEq, Eq, Structural)]
pub enum BrokerEventResult {
    /// Hand the event on to the other clients.
    Forward,
    /// It was only for the broker.
    Handled,
}

/// The broker's disposition per event kind: new test cases and custom
/// buffers travel on; statistics, objectives and log lines stay with the
/// monitor.
pub fn handle_in_broker(kind: EventKind) -> (r: BrokerEventResult)
    ensures
        r is Forward <==> (kind is NewTestcase || kind is CustomBuf),
{
    match kind {
        EventKind::NewTestcase => BrokerEventResult::Forward,
        EventKind::CustomBuf => BrokerEventResult::Forward,
        EventKind::UpdateExecStats => BrokerEventResult::Handled,
        EventKind::UpdateUserStats => BrokerEventResult::Handled,
        EventKind::Objective => BrokerEventResult::Handled,
        EventKind::Log => BrokerEventResult::Handled,
    }
}

} // verus!
