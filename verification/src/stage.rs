//! The RL mutation stage: what it decides per invocation, how a round
//! accumulates coverage deltas, and how the reward is computed.  The
//! stage never touches the network; it exchanges plain tasks and results
//! with the bridge and hands every execution's coverage map in here.

use vstd::prelude::*;

use crate::messages::CorpusId;

verus! {

/// Most mutations one stage invocation runs: iteration counts are drawn
/// from 1 to this bound.
pub const DEFAULT_MUTATIONAL_MAX_ITERATIONS: u64 = 128;

/// How many iterations a draw yields: between 1 and the bound.
pub fn iterations(draw: u64) -> (r: u64)
    ensures
        r == 1 + draw % DEFAULT_MUTATIONAL_MAX_ITERATIONS,
        1 <= r <= DEFAULT_MUTATIONAL_MAX_ITERATIONS,
{
    1 + draw % DEFAULT_MUTATIONAL_MAX_ITERATIONS
}

/// Mutation-chain depth metadata attached to corpus entries.
#[derive(Debug, Clone, PartialEq, Eq, Structural)]
pub struct MutationMeta {
    /// How many mutations deep the chain that produced the entry is.
    pub depth: u64,
}

impl MutationMeta {
    pub fn new() -> (r: Self)
        ensures
            r.depth == 0,
    {
        Self { depth: 0 }
    }

    /// A metadata record carrying the given depth.
    pub fn with_depth(depth: u64) -> (r: Self)
        ensures
            r.depth == depth,
    {
        Self { depth }
    }

    pub fn depth(&self) -> (r: &u64)
        ensures
            r == self.depth,
    {
        &self.depth
    }

    /// Replaces the recorded depth.
    pub fn set_depth(&mut self, depth: u64)
        ensures
            final(self).depth == depth,
    {
        self.depth = depth;
    }

    /// The depth a child mutated from this entry carries: one more,
    /// saturating at the top.
    pub fn child_depth(&self) -> (r: u64)
        ensures
            self.depth < u64::MAX ==> r == self.depth + 1,
            self.depth == u64::MAX ==> r == u64::MAX,
    {
        if self.depth < u64::MAX {
            self.depth + 1
        } else {
            u64::MAX
        }
    }
}

// ---------------------------------------------------------------------
// coverage deltas and the reward
// ---------------------------------------------------------------------

/// The summed per-edge gain of `post` over `base` across the first `n`
/// edges: negative differences count as zero.
pub open spec fn spec_partial_delta(base: Seq<u8>, post: Seq<u8>, n: int) -> int
    decreases n,
{
    if n <= 0 {
        0
    } else {
        spec_partial_delta(base, post, n - 1) + if post[n - 1] > base[n - 1] {
            post[n - 1] - base[n - 1]
        } else {
            0
        }
    }
}

/// The coverage delta of one execution: the summed per-edge gain over
/// the whole map.
pub open spec fn spec_coverage_delta(base: Seq<u8>, post: Seq<u8>) -> int {
    spec_partial_delta(base, post, base.len() as int)
}

pub proof fn lemma_partial_delta_bound(base: Seq<u8>, post: Seq<u8>, n: int)
    requires
        0 <= n <= base.len(),
    ensures
        0 <= spec_partial_delta(base, post, n) <= 255 * n,
    decreases n,
{
    if n > 0 {
        lemma_partial_delta_bound(base, post, n - 1);
    }
}

/// Sums the per-edge gain of `post` over `base`.  The maps must be the
/// same size, as coverage maps of one target are.
pub fn coverage_delta(base: &Vec<u8>, post: &Vec<u8>) -> (r: u64)
    requires
        base@.len() == post@.len(),
        base@.len() <= 0x1_0000_0000,
    ensures
        r == spec_coverage_delta(base@, post@),
        r <= 255 * base@.len(),
{
    let n = base.len();
    let mut acc: u64 = 0;
    let mut k: usize = 0;
    while k < n
        invariant
            k <= n == base@.len() == post@.len(),
            n <= 0x1_0000_0000,
            acc == spec_partial_delta(base@, post@, k as int),
            acc <= 255 * k,
        decreases n - k,
    {
        let b = base[k];
        let p = post[k];
        if p > b {
            acc = acc + (p - b) as u64;
        }
        k = k + 1;
    }
    proof {
        lemma_partial_delta_bound(base@, post@, n as int);
    }
    acc
}

/// One open round: its corpus id, how many mutations it has recorded,
/// and the accumulated coverage delta.
#[derive(Debug, Clone, PartialEq, Eq, Structural)]
pub struct Round {
    /// The corpus entry this round is about.
    pub id: CorpusId,
    /// How many mutated executions have been recorded.
    pub mutations: u32,
    /// The summed coverage deltas of those executions.
    pub accumulated: u64,
}

impl Round {
    /// The accumulator stays far from overflow while the mutation count
    /// respects the iteration bound.
    pub open spec fn wf(self) -> bool {
        self.mutations <= DEFAULT_MUTATIONAL_MAX_ITERATIONS
            && self.accumulated <= self.mutations * 0xFF_0000_0000
    }

    /// Opens a round for the given corpus entry.
    pub fn begin(id: CorpusId) -> (r: Round)
        ensures
            r.id == id,
            r.mutations == 0,
            r.accumulated == 0,
            r.wf(),
    {
        Round { id, mutations: 0, accumulated: 0 }
    }

    /// Records one mutated execution: its coverage delta accumulates.
    pub fn record(&mut self, delta: u64)
        requires
            old(self).wf(),
            old(self).mutations < DEFAULT_MUTATIONAL_MAX_ITERATIONS,
            delta <= 0xFF_0000_0000,
        ensures
            final(self).id == old(self).id,
            final(self).mutations == old(self).mutations + 1,
            final(self).accumulated == old(self).accumulated + delta,
            final(self).wf(),
    {
        self.mutations = self.mutations + 1;
        self.accumulated = self.accumulated + delta;
    }

    /// The reward closing the round: the mean accumulated delta, with
    /// integer division.  With at least one mutation recorded and the
    /// deltas summed without loss, the score is well defined and never
    /// negative.
    pub fn score(&self) -> (r: u64)
        requires
            self.mutations >= 1,
        ensures
            r == self.accumulated as int / self.mutations as int,
            r >= 0,
    {
        self.accumulated / (self.mutations as u64)
    }
}

/// Records one mutated execution into the round: the coverage delta of
/// its map over the baseline accumulates.
pub fn record_execution(round: &mut Round, baseline: &Vec<u8>, post: &Vec<u8>)
    requires
        old(round).wf(),
        old(round).mutations < DEFAULT_MUTATIONAL_MAX_ITERATIONS,
        baseline@.len() == post@.len(),
        baseline@.len() <= 0x1_0000_0000,
    ensures
        final(round).id == old(round).id,
        final(round).mutations == old(round).mutations + 1,
        final(round).accumulated == old(round).accumulated + spec_coverage_delta(
            baseline@,
            post@,
        ),
        final(round).wf(),
{
    let delta = coverage_delta(baseline, post);
    round.record(delta);
}

// ---------------------------------------------------------------------
// the stage's decisions
// ---------------------------------------------------------------------

/// What the non-blocking poll of the bridge's results yielded.
#[derive(Debug)]
pub enum StagePoll {
    /// No result is ready.
    Empty,
    /// The bridge lost the predictor.
    Dropped,
    /// A prediction arrived for this corpus entry.
    Prediction { id: CorpusId, heatmap: Vec<u32> },
}

/// What the stage does this invocation.
#[derive(Debug)]
pub enum StageAction {
    /// Snapshot the selected input, execute it, and post a `Predict`.
    SendPredict,
    /// Run a predictor round on this entry with this heatmap.
    RunRound { id: CorpusId, heatmap: Vec<u32> },
    /// Run the scheduled-havoc fallback.
    Havoc,
}

/// The stage's cross-invocation state: whether a `Predict` is
/// outstanding, and the deepest mutation chain seen.
#[derive(Debug, Clone, PartialEq, Eq, Structural)]
pub struct RlStage {
    /// A `Predict` is outstanding; do not issue another.
    pub pending: bool,
    /// The deepest mutation chain observed, a monitoring statistic.
    pub max_depth: u64,
}

impl RlStage {
    pub fn new() -> (r: Self)
        ensures
            !r.pending,
            r.max_depth == 0,
    {
        Self { pending: false, max_depth: 0 }
    }

    /// One invocation's decision.  With no `Predict` outstanding the
    /// stage posts one and marks it pending, whatever the poll held.
    /// With one outstanding: an empty poll falls back to havoc and keeps
    /// waiting; a drop falls back to havoc and clears the mark; a
    /// prediction clears the mark and runs the round under the
    /// prediction's own id.
    pub fn step(&mut self, poll: StagePoll) -> (a: StageAction)
        ensures
            final(self).max_depth == old(self).max_depth,
            !old(self).pending ==> a is SendPredict && final(self).pending,
            old(self).pending ==> match poll {
                StagePoll::Empty => a is Havoc && final(self).pending,
                StagePoll::Dropped => a is Havoc && !final(self).pending,
                StagePoll::Prediction { id, heatmap } => match a {
                    StageAction::RunRound { id: rid, heatmap: rh } => rid == id && rh@ == heatmap@
                        && !final(self).pending,
                    _ => false,
                },
            },
    {
        if !self.pending {
            self.pending = true;
            return StageAction::SendPredict;
        }
        match poll {
            StagePoll::Empty => StageAction::Havoc,
            StagePoll::Dropped => {
                self.pending = false;
                StageAction::Havoc
            },
            StagePoll::Prediction { id, heatmap } => {
                self.pending = false;
                StageAction::RunRound { id, heatmap }
            },
        }
    }

    /// Records a newly observed chain depth; reports whether it is a new
    /// maximum, which the caller publishes as a statistic.
    pub fn update_max_depth(&mut self, depth: u64) -> (fired: bool)
        ensures
            final(self).pending == old(self).pending,
            final(self).max_depth == if depth > old(self).max_depth {
                depth
            } else {
                old(self).max_depth
            },
            fired <==> depth > old(self).max_depth,
    {
        if depth > self.max_depth {
            self.max_depth = depth;
            true
        } else {
            false
        }
    }
}

} // verus!
