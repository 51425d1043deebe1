use deckgym::game_records::{GameOutcome, GameRandomness};
use deckgym::game_results::GameCompletion;
use deckgym::result_ledger::{LifecycleFailure, ResultLedger};

#[test]
fn a_clean_game_is_completed_without_failures() {
    let mut ledger = ResultLedger::new();
    assert_eq!(ledger.on_game_start(7), None);
    assert_eq!(ledger.on_game_randomness(7, GameRandomness::new(1)), None);
    assert_eq!(ledger.on_action(7, 0), None);
    assert_eq!(ledger.on_action(7, 1), None);
    assert_eq!(ledger.on_action(7, 0), None);
    let (finished, failures) = ledger.on_game_end(7, Some(GameOutcome::Win(0)), Some(GameOutcome::Win(0)));
    assert!(failures.is_empty());
    let finished = finished.unwrap();
    assert_eq!(finished.completion, GameCompletion::Completed);
    assert_eq!(finished.plies, 3);
    assert_eq!(finished.actions_by_player, [2, 1]);
    assert_eq!(finished.lifecycle_errors, 0);
    assert!(finished.randomness.is_some());
    assert!(ledger.active.is_none());
    assert_eq!(ledger.failure_count, 0);
}

#[test]
fn lifecycle_failures_are_counted() {
    let mut ledger = ResultLedger::new();
    assert_eq!(ledger.on_action(3, 0), Some(LifecycleFailure::ActionWithoutGame { game_id: 3 }));
    assert_eq!(ledger.on_game_start(4), None);
    assert_eq!(ledger.on_game_start(5), Some(LifecycleFailure::StartedWhileActive { game_id: 5, previous: 4 }));
    assert_eq!(ledger.on_action(4, 0), Some(LifecycleFailure::ActionForUnexpectedGame { game_id: 4, active: 5 }));
    assert_eq!(ledger.on_action(5, 2), Some(LifecycleFailure::InvalidActor { game_id: 5, actor: 2 }));
    assert_eq!(ledger.on_game_randomness(5, GameRandomness::new(2)), None);
    assert_eq!(
        ledger.on_game_randomness(5, GameRandomness::new(2)),
        Some(LifecycleFailure::DuplicateRandomness { game_id: 5 })
    );
    assert_eq!(ledger.failure_count, 5);
    let (finished, failures) = ledger.on_game_end(5, Some(GameOutcome::Tie), None);
    assert_eq!(
        failures,
        vec![LifecycleFailure::Disagreement { game_id: 5, completion: GameCompletion::Inconsistent }]
    );
    let finished = finished.unwrap();
    assert_eq!(finished.lifecycle_errors, 4);
    assert_eq!(ledger.failure_count, 6);
    assert_eq!(ledger.on_simulation_end(), None);
}

#[test]
fn a_game_without_randomness_or_end_is_reported() {
    let mut ledger = ResultLedger::new();
    ledger.on_game_start(9);
    let (finished, failures) = ledger.on_game_end(9, None, None);
    assert_eq!(finished.unwrap().completion, GameCompletion::Incomplete);
    assert_eq!(
        failures,
        vec![
            LifecycleFailure::MissingRandomness { game_id: 9 },
            LifecycleFailure::Disagreement { game_id: 9, completion: GameCompletion::Incomplete }
        ]
    );
    ledger.on_game_start(10);
    assert_eq!(ledger.on_simulation_end(), Some(LifecycleFailure::SimulationEndedDuringGame { game_id: 10 }));
    let mut other = ResultLedger::new();
    other.on_game_start(11);
    assert_eq!(ledger.merge(&other), Some(LifecycleFailure::MergedUnfinishedGame));
    assert_eq!(ledger.failure_count, 4);
    let (none, failures) = ledger.on_game_end(12, None, None);
    assert!(none.is_none());
    assert_eq!(failures, vec![LifecycleFailure::EndWithoutGame { game_id: 12 }]);
}
