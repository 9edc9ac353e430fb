//! Round-protocol and stage tests: the happy round, timeout recovery,
//! the id mismatch, and the reward arithmetic.

use nn_fuzz::codec::{pack_rl_message, unpack_rl_message};
use nn_fuzz::error::Error;
use nn_fuzz::messages::active::RLProtoMessage;
use nn_fuzz::messages::CorpusId;
use nn_fuzz::protocol::{PredictorSession, WorkerSession};
use nn_fuzz::service::{task_message, NnService, Task, TaskCompletion};
use nn_fuzz::stage::{coverage_delta, iterations, record_execution, MutationMeta, RlStage,
    Round, StageAction, StagePoll};

#[test]
fn happy_round() {
    let mut session = WorkerSession::new();
    let id = CorpusId(7);

    // worker opens the round
    let predict = session.send_predict(id, b"abc".to_vec(), vec![0u8; 65536]);
    let env = pack_rl_message(&predict);
    let seen = unpack_rl_message(&env).unwrap();
    assert!(matches!(
        seen,
        RLProtoMessage::Predict { id: CorpusId(7), ref input, ref map }
            if input == b"abc" && map.len() == 65536
    ));

    // the predictor answers with a heatmap for the same id
    let answer = RLProtoMessage::HeatMap { id, idxs: vec![0, 1, 2] };
    let idxs = session.recv_heatmap(answer).unwrap();
    assert_eq!(idxs, vec![0, 1, 2]);

    // three mutated executions, then the reward
    for _ in 0..3 {
        let m = session.send_map(Vec::new(), vec![0u8; 65536]);
        assert!(matches!(m, RLProtoMessage::MapAfterMutation { id: CorpusId(7), .. }));
    }
    let reward = session.send_reward(0.0f64.to_bits());
    assert!(matches!(
        reward,
        RLProtoMessage::Reward { id: CorpusId(7), score_bits } if score_bits == 0.0f64.to_bits()
    ));

    // the session remains open for the next round
    let again = session.send_predict(CorpusId(8), b"xyz".to_vec(), vec![0u8; 16]);
    assert!(matches!(again, RLProtoMessage::Predict { id: CorpusId(8), .. }));
}

#[test]
fn id_mismatch_closes_the_session() {
    let mut session = WorkerSession::new();
    session.send_predict(CorpusId(7), b"abc".to_vec(), vec![0u8; 16]);
    let wrong = RLProtoMessage::HeatMap { id: CorpusId(8), idxs: vec![0] };
    let r = session.recv_heatmap(wrong);
    assert!(matches!(r, Err(Error::IllegalState(_))));
    // the worker surfaces this as a dropped predictor, not a crash
    let mut service = NnService::new();
    let dropped = service.on_session_error();
    assert!(matches!(dropped, TaskCompletion::NnDropped));
}

#[test]
fn wrong_message_type_closes_the_session() {
    let mut session = WorkerSession::new();
    session.send_predict(CorpusId(7), Vec::new(), Vec::new());
    let wrong = RLProtoMessage::Error(b"no model loaded".to_vec());
    assert!(session.recv_heatmap(wrong).is_err());
}

#[test]
fn timeout_recovery() {
    let mut stage = RlStage::new();

    // first invocation: nothing pending, so a predict goes out
    assert!(matches!(stage.step(StagePoll::Empty), StageAction::SendPredict));

    // the predictor never answers: the bridge times out and reports the
    // drop; the stage falls back to havoc without error
    assert!(matches!(stage.step(StagePoll::Dropped), StageAction::Havoc));

    // a later retry with a responsive predictor succeeds
    assert!(matches!(stage.step(StagePoll::Empty), StageAction::SendPredict));
    let action = stage.step(StagePoll::Prediction { id: CorpusId(7), heatmap: vec![1, 2] });
    assert!(matches!(
        action,
        StageAction::RunRound { id: CorpusId(7), ref heatmap } if heatmap == &vec![1, 2]
    ));
}

#[test]
fn pending_poll_falls_back_to_havoc() {
    let mut stage = RlStage::new();
    assert!(matches!(stage.step(StagePoll::Empty), StageAction::SendPredict));
    // no result yet: havoc, and the predict stays outstanding
    assert!(matches!(stage.step(StagePoll::Empty), StageAction::Havoc));
    assert!(matches!(stage.step(StagePoll::Empty), StageAction::Havoc));
}

#[test]
fn prediction_for_another_id_focuses_that_id() {
    let mut stage = RlStage::new();
    stage.step(StagePoll::Empty);
    let action = stage.step(StagePoll::Prediction { id: CorpusId(40), heatmap: vec![9] });
    assert!(matches!(action, StageAction::RunRound { id: CorpusId(40), .. }));
}

#[test]
fn reward_is_the_mean_delta() {
    let mut round = Round::begin(CorpusId(7));
    round.record(4);
    round.record(3);
    round.record(4);
    assert_eq!(round.mutations, 3);
    assert_eq!(round.accumulated, 11);
    assert_eq!(round.score(), 3); // integer division
}

#[test]
fn zero_delta_round_scores_zero() {
    let mut round = Round::begin(CorpusId(1));
    round.record(0);
    assert_eq!(round.score(), 0);
}

#[test]
fn round_records_each_executions_delta() {
    let mut round = Round::begin(CorpusId(2));
    let base = vec![0u8, 5, 3];
    record_execution(&mut round, &base, &vec![2u8, 1, 7]);
    record_execution(&mut round, &base, &vec![0u8, 5, 3]);
    assert_eq!(round.mutations, 2);
    assert_eq!(round.accumulated, 6);
    assert_eq!(round.score(), 3);
}

#[test]
fn coverage_delta_counts_only_gains() {
    let base = vec![0u8, 5, 3, 200];
    let post = vec![2u8, 1, 7, 200];
    assert_eq!(coverage_delta(&base, &post), 2 + 0 + 4 + 0);
    assert_eq!(coverage_delta(&post, &post), 0);
}

#[test]
fn iteration_count_is_bounded() {
    assert_eq!(iterations(0), 1);
    assert_eq!(iterations(127), 128);
    assert_eq!(iterations(128), 1);
    for d in [0u64, 1, 42, 1_000_000] {
        let n = iterations(d);
        assert!((1..=128).contains(&n));
    }
}

#[test]
fn tasks_map_to_their_messages() {
    let (m, reply) = task_message(&Task::Predict {
        id: CorpusId(7),
        input: b"abc".to_vec(),
        map: vec![0; 4],
    });
    assert!(reply);
    assert!(matches!(m, RLProtoMessage::Predict { id: CorpusId(7), .. }));

    let (m, reply) = task_message(&Task::AfterMutCoverage { id: CorpusId(7), map: vec![1] });
    assert!(!reply);
    assert!(matches!(
        m,
        RLProtoMessage::MapAfterMutation { id: CorpusId(7), ref input, .. } if input.is_empty()
    ));

    let (m, reply) = task_message(&Task::MutEnd { id: CorpusId(7), score_bits: 7 });
    assert!(!reply);
    assert!(matches!(m, RLProtoMessage::Reward { id: CorpusId(7), score_bits: 7 }));
}

#[test]
fn depth_metadata_tracks_chains() {
    let mut meta = MutationMeta::new();
    assert_eq!(*meta.depth(), 0);
    meta.set_depth(3);
    assert_eq!(meta.child_depth(), 4);
    let top = MutationMeta::with_depth(u64::MAX);
    assert_eq!(top.child_depth(), u64::MAX);

    let mut stage = RlStage::new();
    assert!(stage.update_max_depth(4));
    assert!(!stage.update_max_depth(4));
    assert!(!stage.update_max_depth(2));
    assert!(stage.update_max_depth(5));
    assert_eq!(stage.max_depth, 5);
}

#[test]
fn predictor_side_follows_the_round() {
    let mut session = PredictorSession::new();
    let open = RLProtoMessage::Predict {
        id: CorpusId(7),
        input: b"abc".to_vec(),
        map: vec![0u8; 8],
    };
    let (input, map) = session.recv_input(open).unwrap();
    assert_eq!(input, b"abc".to_vec());
    assert_eq!(map.len(), 8);

    // maps under the round's id keep arriving
    let step = RLProtoMessage::MapAfterMutation {
        id: CorpusId(7),
        input: Vec::new(),
        map: vec![1u8],
    };
    let (_, map) = session.recv_map(step).unwrap();
    assert_eq!(map, vec![1u8]);

    // the reward ends the iteration cleanly
    let done = RLProtoMessage::Reward { id: CorpusId(7), score_bits: 0 };
    assert!(matches!(session.recv_map(done), Err(Error::StopIteration())));

    // a mismatched id or a wrong kind is a protocol violation
    let stray = RLProtoMessage::MapAfterMutation {
        id: CorpusId(9),
        input: Vec::new(),
        map: Vec::new(),
    };
    assert!(matches!(session.recv_map(stray), Err(Error::IllegalState(_))));
    let wrong = RLProtoMessage::Error(b"x".to_vec());
    assert!(matches!(session.recv_map(wrong), Err(Error::IllegalState(_))));

    // only a predict opens a round
    let mut fresh = PredictorSession::new();
    let not_open = RLProtoMessage::HeatMap { id: CorpusId(1), idxs: vec![] };
    assert!(matches!(fresh.recv_input(not_open), Err(Error::IllegalState(_))));
}

#[test]
fn session_states_follow_the_round() {
    let mut session = WorkerSession::new();
    session.send_predict(CorpusId(1), Vec::new(), Vec::new());
    let _ = session.recv_heatmap(RLProtoMessage::HeatMap { id: CorpusId(1), idxs: vec![] });
    let _ = session.send_reward(0.0f64.to_bits());
    // a full round later the session accepts the next predict
    let m = session.send_predict(CorpusId(2), Vec::new(), Vec::new());
    assert!(matches!(m, RLProtoMessage::Predict { id: CorpusId(2), .. }));
}
