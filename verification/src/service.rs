//! The bridge service between the fuzzing thread and the predictor
//! socket: the tasks the worker posts, the results it polls, and the
//! decisions the service makes while listening and while active.  The
//! socket and channel plumbing that carries them stays outside; it hands
//! events in and performs the returned actions.

use vstd::prelude::*;

use crate::messages::active::{RLProtoMessage, RLProtoMessageView, TcpRequest, TcpResponce};
use crate::messages::CorpusId;

verus! {

/// What the fuzzing thread posts to the bridge.
#[derive(Debug)]
pub enum Task {
    /// Open a round: predict a heatmap for this input.
    Predict { id: CorpusId, input: Vec<u8>, map: Vec<u8> },
    /// Report the coverage map of one mutated execution.
    AfterMutCoverage { id: CorpusId, map: Vec<u8> },
    /// Close the round with its reward, as 64-bit float bits.
    MutEnd { id: CorpusId, score_bits: u64 },
}

/// What the bridge posts back.
#[derive(Debug)]
pub enum TaskCompletion {
    /// The predictor answered the outstanding `Predict`.
    Prediction { id: CorpusId, heatmap: Vec<u32> },
    /// The session died; the stage falls back to havoc.
    NnDropped,
}

/// The message one task puts on the wire.  Only a `Predict` awaits a
/// reply; map reports carry no input bytes, as diagnostics stay off.
pub fn task_message(t: &Task) -> (r: (RLProtoMessage, bool))
    ensures
        r.0@ == match t {
            Task::Predict { id, input, map } => RLProtoMessageView::Predict {
                id: *id,
                input: input@,
                map: map@,
            },
            Task::AfterMutCoverage { id, map } => RLProtoMessageView::MapAfterMutation {
                id: *id,
                input: Seq::<u8>::empty(),
                map: map@,
            },
            Task::MutEnd { id, score_bits } => RLProtoMessageView::Reward {
                id: *id,
                score_bits: *score_bits,
            },
        },
        r.1 <==> t is Predict,
{
    match t {
        Task::Predict { id, input, map } => {
            let m = RLProtoMessage::Predict {
                id: *id,
                input: clone_bytes(input),
                map: clone_bytes(map),
            };
            (m, true)
        },
        Task::AfterMutCoverage { id, map } => {
            let m = RLProtoMessage::MapAfterMutation {
                id: *id,
                input: Vec::new(),
                map: clone_bytes(map),
            };
            (m, false)
        },
        Task::MutEnd { id, score_bits } => {
            (RLProtoMessage::Reward { id: *id, score_bits: *score_bits }, false)
        },
    }
}

/// A byte-for-byte copy.
pub fn clone_bytes(v: &Vec<u8>) -> (r: Vec<u8>)
    ensures
        r@ == v@,
{
    let mut out: Vec<u8> = Vec::new();
    out.extend_from_slice(v.as_slice());
    assert(out@ =~= v@);
    out
}

/// How long a read awaiting the predictor may block before the session
/// counts as dropped, in milliseconds.
pub const NN_BLOCK_TIME_MS: u64 = 3000;

/// Where the service stands.
#[derive(Debug, Clone, Copy, PartialEq, Eq, Structural)]
pub enum ServiceState {
    /// Awaiting a predictor connection.
    Listening,
    /// A session is established.
    Active,
}

/// The connection-handling state of the bridge service: which predictor
/// name it is bound to, and whether a session is up.
pub struct NnService {
    nn_name: Option<Vec<u8>>,
    state: ServiceState,
}

impl NnService {
    pub closed spec fn spec_nn_name(&self) -> Option<Seq<u8>> {
        match self.nn_name {
            Some(ref n) => Some(n@),
            None => None,
        }
    }

    pub closed spec fn spec_state(&self) -> ServiceState {
        self.state
    }

    /// A fresh service: listening, bound to no name yet.
    pub fn new() -> (s: Self)
        ensures
            s.spec_nn_name() is None,
            s.spec_state() is Listening,
    {
        Self { nn_name: None, state: ServiceState::Listening }
    }

    /// Handles the predictor's hello while listening.  The first
    /// predictor name seen binds the service; a later hello under
    /// another name is turned away with an error and the service keeps
    /// listening.  On acceptance the session is active.
    pub fn on_hello(&mut self, req: &TcpRequest) -> (resp: TcpResponce)
        requires
            old(self).spec_state() is Listening,
        ensures
            match req {
                TcpRequest::Hello { name } => {
                    if old(self).spec_nn_name() is Some && old(self).spec_nn_name() != Some(name@) {
                        &&& resp is Error
                        &&& final(self).spec_state() is Listening
                        &&& final(self).spec_nn_name() == old(self).spec_nn_name()
                    } else {
                        &&& resp is Accepted
                        &&& final(self).spec_state() is Active
                        &&& final(self).spec_nn_name() == Some(name@)
                    }
                },
            },
    {
        match req {
            TcpRequest::Hello { name } => {
                let known = match self.nn_name {
                    Some(ref prior) => {
                        if !bytes_eq(prior, name) {
                            return TcpResponce::Error {
                                description: another_name_expected(),
                            };
                        }
                        true
                    },
                    None => false,
                };
                if !known {
                    self.nn_name = Some(clone_bytes(name));
                }
                self.state = ServiceState::Active;
                TcpResponce::Accepted {}
            },
        }
    }

    /// Any session error: back to listening; the worker hears
    /// `NnDropped`.
    pub fn on_session_error(&mut self) -> (r: TaskCompletion)
        ensures
            final(self).spec_state() is Listening,
            final(self).spec_nn_name() == old(self).spec_nn_name(),
            r is NnDropped,
    {
        self.state = ServiceState::Listening;
        TaskCompletion::NnDropped
    }
}

/// The description sent when a different predictor name was expected.
fn another_name_expected() -> (r: Vec<u8>)
    ensures
        r@.len() > 0,
{
    let mut out: Vec<u8> = Vec::new();
    out.push(63);
    out
}

/// Whether two byte strings hold the same bytes.
pub fn bytes_eq(a: &Vec<u8>, b: &Vec<u8>) -> (r: bool)
    ensures
        r <==> a@ == b@,
{
    if a.len() != b.len() {
        return false;
    }
    let n = a.len();
    let mut i: usize = 0;
    while i < n
        invariant
            i <= n,
            n == a@.len() == b@.len(),
            forall|k: int| 0 <= k < i ==> a@[k] == b@[k],
        decreases n - i,
    {
        if a[i] != b[i] {
            return false;
        }
        i = i + 1;
    }
    proof {
        assert(a@ =~= b@);
    }
    true
}

} // verus!
