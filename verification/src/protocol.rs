//! The worker side of the round protocol: a session state machine that
//! only ever emits and accepts messages in round order.  The trace of a
//! session is kept as ghost state, and every reachable session's trace
//! satisfies the round-order discipline: a `HeatMap` directly follows
//! the `Predict` of its id, maps and the `Reward` follow under the same
//! id, and a new `Predict` opens only after the previous round's
//! `Reward`.

use vstd::prelude::*;

use crate::error::Error;
use crate::messages::active::{RLProtoMessage, RLProtoMessageView};
use crate::messages::CorpusId;

verus! {

/// The round-order discipline over a session trace.  Each message is
/// constrained by its predecessor: a `HeatMap` answers the `Predict`
/// just before it and carries its id; a `MapAfterMutation` or `Reward`
/// continues a round under the same id; a `Predict` stands first or
/// right after a `Reward`.  Advisory `Error` messages never enter a
/// round trace.
pub open spec fn round_ordered(t: Seq<RLProtoMessageView>) -> bool {
    forall|i: int|
        0 <= i < t.len() ==> match #[trigger] t[i] {
            RLProtoMessageView::Predict { .. } => i == 0 || t[i - 1] is Reward,
            RLProtoMessageView::HeatMap { id, .. } => i >= 1 && t[i - 1] is Predict && t[i
                - 1].id() == Some(id),
            RLProtoMessageView::MapAfterMutation { id, .. } => i >= 1 && (t[i - 1] is HeatMap || t[
                i - 1] is MapAfterMutation) && t[i - 1].id() == Some(id),
            RLProtoMessageView::Reward { id, .. } => i >= 1 && (t[i - 1] is HeatMap || t[i
                - 1] is MapAfterMutation) && t[i - 1].id() == Some(id),
            RLProtoMessageView::Error(_) => false,
        }
}

/// Id coherence: inside one round, every message carries the id of the
/// `Predict` that opened it.  In an ordered trace, any stretch after a
/// `Predict` that contains no further `Predict` stays on its id.
pub proof fn lemma_round_id_coherence(t: Seq<RLProtoMessageView>, i: int, j: int)
    requires
        round_ordered(t),
        0 <= i <= j < t.len(),
        t[i] is Predict,
        forall|k: int| i < k <= j ==> !(#[trigger] t[k] is Predict),
    ensures
        forall|k: int| i <= k <= j ==> #[trigger] t[k].id() == t[i].id(),
    decreases j - i,
{
    if j > i {
        lemma_round_id_coherence(t, i, j - 1);
        assert(!(t[j] is Predict));
        assert(t[j].id() == t[i].id()) by {
            match t[j] {
                RLProtoMessageView::HeatMap { id, .. } => {
                    assert(t[j - 1].id() == Some(id));
                },
                RLProtoMessageView::MapAfterMutation { id, .. } => {
                    assert(t[j - 1].id() == Some(id));
                },
                RLProtoMessageView::Reward { id, .. } => {
                    assert(t[j - 1].id() == Some(id));
                },
                _ => {},
            }
        }
    }
}

/// Where a worker session stands.
#[derive(Debug, Clone, Copy, PartialEq, Eq, Structural)]
pub enum SessionState {
    /// No round is open.
    Idle,
    /// A `Predict` with this id is outstanding.
    PredictSent(CorpusId),
    /// The heatmap for this id arrived; maps and the reward may go out.
    HeatMapRecv(CorpusId),
    /// The session died: a wrong message, a mismatched id, or a timeout.
    Failed,
}

/// One worker-side session over the active protocol.  The messages it
/// has emitted and accepted stand in the ghost trace, in order.
pub struct WorkerSession {
    state: SessionState,
    trace: Ghost<Seq<RLProtoMessageView>>,
}

impl WorkerSession {
    pub closed spec fn state(&self) -> SessionState {
        self.state
    }

    pub closed spec fn trace(&self) -> Seq<RLProtoMessageView> {
        self.trace@
    }

    /// Every reachable session is ordered, and its state agrees with the
    /// end of its trace.
    pub closed spec fn wf(&self) -> bool {
        &&& round_ordered(self.trace@)
        &&& match self.state {
            SessionState::Idle => self.trace@.len() == 0 || self.trace@.last() is Reward,
            SessionState::PredictSent(id) => self.trace@.len() >= 1 && self.trace@.last() is Predict
                && self.trace@.last().id() == Some(id),
            SessionState::HeatMapRecv(id) => self.trace@.len() >= 1 && (
            self.trace@.last() is HeatMap || self.trace@.last() is MapAfterMutation)
                && self.trace@.last().id() == Some(id),
            SessionState::Failed => true,
        }
    }

    /// A fresh session: idle, with an empty trace.
    pub fn new() -> (s: Self)
        ensures
            s.wf(),
            s.state() is Idle,
            s.trace() == Seq::<RLProtoMessageView>::empty(),
    {
        Self { state: SessionState::Idle, trace: Ghost(Seq::empty()) }
    }

    /// Opens a round: builds the `Predict` for this entry and awaits its
    /// heatmap.
    pub fn send_predict(&mut self, id: CorpusId, input: Vec<u8>, map: Vec<u8>) -> (m:
        RLProtoMessage)
        requires
            old(self).wf(),
            old(self).state() is Idle,
        ensures
            final(self).wf(),
            final(self).state() == SessionState::PredictSent(id),
            m@ == (RLProtoMessageView::Predict { id, input: input@, map: map@ }),
            final(self).trace() == old(self).trace().push(m@),
    {
        let m = RLProtoMessage::Predict { id, input, map };
        proof {
            self.trace@ = self.trace@.push(m@);
        }
        self.state = SessionState::PredictSent(id);
        m
    }

    /// Accepts the answer to an outstanding `Predict`.  A `HeatMap`
    /// carrying the same id yields its offsets; anything else, and a
    /// heatmap for another id, fails the session and leaves the trace.
    pub fn recv_heatmap(&mut self, m: RLProtoMessage) -> (r: Result<Vec<u32>, Error>)
        requires
            old(self).wf(),
            old(self).state() is PredictSent,
        ensures
            final(self).wf(),
            match r {
                Ok(idxs) => {
                    &&& m@ matches RLProtoMessageView::HeatMap { id, idxs: mi } && Some(id) == old(
                        self,
                    ).trace().last().id() && mi == idxs@ && final(self).state()
                        == SessionState::HeatMapRecv(id)
                    &&& final(self).trace() == old(self).trace().push(m@)
                },
                Err(e) => {
                    &&& !(m@ matches RLProtoMessageView::HeatMap { id, .. } && Some(id) == old(
                        self,
                    ).trace().last().id())
                    &&& e is IllegalState
                    &&& final(self).state() is Failed
                    &&& final(self).trace() == old(self).trace()
                },
            },
    {
        let expected = match self.state {
            SessionState::PredictSent(id) => id,
            _ => unreached(),
        };
        match m {
            RLProtoMessage::HeatMap { id, idxs } => {
                if id.0 == expected.0 {
                    proof {
                        self.trace@ = self.trace@.push(
                            RLProtoMessageView::HeatMap { id, idxs: idxs@ },
                        );
                    }
                    self.state = SessionState::HeatMapRecv(id);
                    Ok(idxs)
                } else {
                    self.state = SessionState::Failed;
                    Err(Error::IllegalState("heatmap for another id".to_owned()))
                }
            },
            _ => {
                self.state = SessionState::Failed;
                Err(Error::IllegalState("unexpected message while awaiting a heatmap".to_owned()))
            },
        }
    }

    /// Reports one mutated execution's coverage map inside the open
    /// round.
    pub fn send_map(&mut self, input: Vec<u8>, map: Vec<u8>) -> (m: RLProtoMessage)
        requires
            old(self).wf(),
            old(self).state() is HeatMapRecv,
        ensures
            final(self).wf(),
            final(self).state() == old(self).state(),
            m@ matches RLProtoMessageView::MapAfterMutation { id, input: i2, map: m2 } && Some(id)
                == old(self).trace().last().id() && i2 == input@ && m2 == map@,
            final(self).trace() == old(self).trace().push(m@),
    {
        let id = match self.state {
            SessionState::HeatMapRecv(id) => id,
            _ => unreached(),
        };
        let m = RLProtoMessage::MapAfterMutation { id, input, map };
        proof {
            self.trace@ = self.trace@.push(m@);
        }
        m
    }

    /// Closes the round with its reward.
    pub fn send_reward(&mut self, score_bits: u64) -> (m: RLProtoMessage)
        requires
            old(self).wf(),
            old(self).state() is HeatMapRecv,
        ensures
            final(self).wf(),
            final(self).state() is Idle,
            m@ matches RLProtoMessageView::Reward { id, score_bits: s2 } && Some(id) == old(
                self,
            ).trace().last().id() && s2 == score_bits,
            final(self).trace() == old(self).trace().push(m@),
    {
        let id = match self.state {
            SessionState::HeatMapRecv(id) => id,
            _ => unreached(),
        };
        let m = RLProtoMessage::Reward { id, score_bits };
        proof {
            self.trace@ = self.trace@.push(m@);
        }
        self.state = SessionState::Idle;
        m
    }

    /// Kills the session: a timeout or a socket error.  The trace stays
    /// as it was; the worker surfaces the loss as `NnDropped`.
    pub fn fail(&mut self)
        requires
            old(self).wf(),
        ensures
            final(self).wf(),
            final(self).state() is Failed,
            final(self).trace() == old(self).trace(),
    {
        self.state = SessionState::Failed;
    }

    /// The round order of every reachable session's trace: `Predict`
    /// precedes `HeatMap` precedes maps precedes `Reward`, each round on
    /// one id, with no second `Predict` inside a round.
    pub proof fn lemma_trace_round_ordered(&self)
        requires
            self.wf(),
        ensures
            round_ordered(self.trace()),
    {
    }
}

/// The predictor's side of one round: which corpus entry it currently
/// works on, set by the `Predict` that opened the round.
pub struct PredictorSession {
    current_id: Option<CorpusId>,
}

impl PredictorSession {
    /// The id of the round in progress, if one is.
    pub closed spec fn current(&self) -> Option<CorpusId> {
        self.current_id
    }

    /// A fresh predictor session: no round in progress.
    pub fn new() -> (s: Self)
        ensures
            s.current() is None,
    {
        Self { current_id: None }
    }

    /// Accepts the message that opens a round: only a `Predict` does,
    /// and its id becomes the round in progress.  Anything else is a
    /// protocol violation and changes nothing.
    pub fn recv_input(&mut self, m: RLProtoMessage) -> (r: Result<(Vec<u8>, Vec<u8>), Error>)
        ensures
            match r {
                Ok((input, map)) => (m@ matches RLProtoMessageView::Predict {
                    id,
                    input: i2,
                    map: m2,
                } && i2 == input@ && m2 == map@ && final(self).current() == Some(id)),
                Err(e) => {
                    &&& !(m is Predict)
                    &&& e is IllegalState
                    &&& final(self).current() == old(self).current()
                },
            },
    {
        match m {
            RLProtoMessage::Predict { id, input, map } => {
                self.current_id = Some(id);
                Ok((input, map))
            },
            _ => Err(Error::IllegalState("incorrect message while awaiting an input".to_owned())),
        }
    }

    /// Accepts the messages inside the round it awaits maps for.  A
    /// `MapAfterMutation` under the round's id yields its input and map;
    /// the `Reward` under the round's id ends the iteration cleanly as
    /// `StopIteration`; a mismatched id or any other message is a
    /// protocol violation.  The round in progress never changes here.
    pub fn recv_map(&mut self, m: RLProtoMessage) -> (r: Result<(Vec<u8>, Vec<u8>), Error>)
        requires
            old(self).current() is Some,
        ensures
            final(self).current() == old(self).current(),
            match r {
                Ok((input, map)) => (m@ matches RLProtoMessageView::MapAfterMutation {
                    id,
                    input: i2,
                    map: m2,
                } && Some(id) == old(self).current() && i2 == input@ && m2 == map@),
                Err(e) => match m@ {
                    RLProtoMessageView::MapAfterMutation { id, .. } => Some(id) != old(
                        self,
                    ).current() && e is IllegalState,
                    RLProtoMessageView::Reward { id, .. } => if Some(id) == old(self).current() {
                        e is StopIteration
                    } else {
                        e is IllegalState
                    },
                    _ => e is IllegalState,
                },
            },
    {
        let expected = match self.current_id {
            Some(id) => id,
            None => unreached(),
        };
        match m {
            RLProtoMessage::MapAfterMutation { id, input, map } => {
                if id.0 == expected.0 {
                    Ok((input, map))
                } else {
                    Err(Error::IllegalState("unexpected id from the fuzzer".to_owned()))
                }
            },
            RLProtoMessage::Reward { id, .. } => {
                if id.0 == expected.0 {
                    Err(Error::StopIteration())
                } else {
                    Err(Error::IllegalState("unexpected id from the fuzzer".to_owned()))
                }
            },
            _ => Err(Error::IllegalState("incorrect message while awaiting a map".to_owned())),
        }
    }
}

} // verus!
