//! The bookkeeping of the game-result exporter: which game is in progress, what it has been
//! told about it, and which lifecycle failures it has counted. Each callback is a transition of
//! this ledger; writing the record and the failure messages is left to the caller.
use vstd::prelude::*;

use crate::game_records::{GameOutcome, GameRandomness};
use crate::game_results::{spec_completion, completion, GameCompletion};

verus! {

/// A lifecycle failure the exporter counts, with the game ids (as 128-bit values) involved.
#[derive(Debug, Clone, Copy, PartialEq, Eq, Structural)]
pub enum LifecycleFailure {
    StartedWhileActive { game_id: u128, previous: u128 },
    RandomnessWithoutGame { game_id: u128 },
    RandomnessForUnexpectedGame { game_id: u128, active: u128 },
    DuplicateRandomness { game_id: u128 },
    ActionWithoutGame { game_id: u128 },
    ActionForUnexpectedGame { game_id: u128, active: u128 },
    InvalidActor { game_id: u128, actor: usize },
    EndWithoutGame { game_id: u128 },
    EndForUnexpectedGame { game_id: u128, active: u128 },
    MissingRandomness { game_id: u128 },
    Disagreement { game_id: u128, completion: GameCompletion },
    SimulationEndedDuringGame { game_id: u128 },
    MergedUnfinishedGame,
}

/// The game in progress.
#[derive(Debug, Clone)]
pub struct ActiveGame {
    pub game_id: u128,
    pub randomness: Option<GameRandomness>,
    pub plies: u32,
    pub actions_by_player: [u32; 2],
    pub failure_count_at_start: usize,
}

/// What a finished game contributes to its result record.
#[derive(Debug, Clone)]
pub struct FinishedGame {
    pub game_id: u128,
    pub randomness: Option<GameRandomness>,
    pub outcome: Option<GameOutcome>,
    pub state_winner: Option<GameOutcome>,
    pub completion: GameCompletion,
    pub lifecycle_errors: usize,
    pub plies: u32,
    pub actions_by_player: [u32; 2],
}

/// The exporter's state between callbacks.
#[derive(Debug, Clone)]
pub struct ResultLedger {
    pub active: Option<ActiveGame>,
    pub failure_count: usize,
}

/// `n + 1`, staying at `usize::MAX`.
pub open spec fn bumped(n: usize) -> usize {
    if n == usize::MAX {
        n
    } else {
        (n + 1) as usize
    }
}

pub open spec fn bumped32(n: u32) -> u32 {
    if n == u32::MAX {
        n
    } else {
        (n + 1) as u32
    }
}

/// `after` is `before` with one more ply, and one more action for `actor`.
pub open spec fn counted_action(before: ActiveGame, after: Option<ActiveGame>, actor: usize) -> bool {
    match after {
        Some(a) => {
            &&& a.game_id == before.game_id
            &&& a.randomness == before.randomness
            &&& a.failure_count_at_start == before.failure_count_at_start
            &&& a.plies == bumped32(before.plies)
            &&& a.actions_by_player[actor as int] == bumped32(before.actions_by_player[actor as int])
            &&& a.actions_by_player[1 - actor] == before.actions_by_player[1 - actor]
        },
        None => false,
    }
}

impl ResultLedger {
    pub fn new() -> (r: ResultLedger)
        ensures
            r.active is None,
            r.failure_count == 0,
    {
        ResultLedger { active: None, failure_count: 0 }
    }

    /// Count one failure.
    pub fn record_failure(&mut self)
        ensures
            final(self).failure_count == bumped(old(self).failure_count),
            final(self).active == old(self).active,
    {
        self.failure_count = self.failure_count.saturating_add(1);
    }

    /// A game starts; a game still in progress is abandoned as a failure.
    pub fn on_game_start(&mut self, game_id: u128) -> (failure: Option<LifecycleFailure>)
        ensures
            match old(self).active {
                Some(previous) => failure == Some(
                    LifecycleFailure::StartedWhileActive { game_id, previous: previous.game_id },
                ) && final(self).failure_count == bumped(old(self).failure_count),
                None => failure is None && final(self).failure_count == old(self).failure_count,
            },
            final(self).active matches Some(a) && a.game_id == game_id && a.randomness is None && a.plies == 0
                && a.actions_by_player == [0u32, 0u32] && a.failure_count_at_start == final(self).failure_count,
    {
        let mut failure: Option<LifecycleFailure> = None;
        if let Some(previous) = self.active.take() {
            failure = Some(LifecycleFailure::StartedWhileActive { game_id, previous: previous.game_id });
            self.failure_count = self.failure_count.saturating_add(1);
        }
        self.active = Some(
            ActiveGame {
                game_id,
                randomness: None,
                plies: 0,
                actions_by_player: [0, 0],
                failure_count_at_start: self.failure_count,
            },
        );
        failure
    }

    /// The game's replay identity arrives; it is kept only for the game in progress, once.
    pub fn on_game_randomness(&mut self, game_id: u128, randomness: GameRandomness) -> (failure: Option<
        LifecycleFailure,
    >)
        ensures
            match old(self).active {
                None => failure == Some(LifecycleFailure::RandomnessWithoutGame { game_id }),
                Some(a) => if a.game_id != game_id {
                    failure == Some(LifecycleFailure::RandomnessForUnexpectedGame { game_id, active: a.game_id })
                } else if a.randomness is Some {
                    failure == Some(LifecycleFailure::DuplicateRandomness { game_id })
                } else {
                    failure is None
                },
            },
            failure is Some ==> final(self).failure_count == bumped(old(self).failure_count) && final(self).active
                == old(self).active,
            failure is None ==> final(self).failure_count == old(self).failure_count && final(self).active == Some(
                ActiveGame { randomness: Some(randomness), ..old(self).active->0 },
            ),
    {
        let (active_id, has_randomness) = match &self.active {
            Some(a) => (a.game_id, a.randomness.is_some()),
            None => {
                self.failure_count = self.failure_count.saturating_add(1);
                return Some(LifecycleFailure::RandomnessWithoutGame { game_id });
            },
        };
        if active_id != game_id {
            self.failure_count = self.failure_count.saturating_add(1);
            return Some(LifecycleFailure::RandomnessForUnexpectedGame { game_id, active: active_id });
        }
        if has_randomness {
            self.failure_count = self.failure_count.saturating_add(1);
            return Some(LifecycleFailure::DuplicateRandomness { game_id });
        }
        let mut active = self.active.take().unwrap();
        active.randomness = Some(randomness);
        self.active = Some(active);
        None
    }

    /// One action of `actor` in the game: counted as a ply and for that player.
    pub fn on_action(&mut self, game_id: u128, actor: usize) -> (failure: Option<LifecycleFailure>)
        ensures
            match old(self).active {
                None => failure == Some(LifecycleFailure::ActionWithoutGame { game_id }),
                Some(a) => if a.game_id != game_id {
                    failure == Some(LifecycleFailure::ActionForUnexpectedGame { game_id, active: a.game_id })
                } else if actor >= 2 {
                    failure == Some(LifecycleFailure::InvalidActor { game_id, actor })
                } else {
                    failure is None
                },
            },
            failure is Some ==> final(self).failure_count == bumped(old(self).failure_count) && final(self).active
                == old(self).active,
            failure is None ==> final(self).failure_count == old(self).failure_count && counted_action(
                old(self).active->0,
                final(self).active,
                actor,
            ),
    {
        let active_id = match &self.active {
            Some(a) => a.game_id,
            None => {
                self.failure_count = self.failure_count.saturating_add(1);
                return Some(LifecycleFailure::ActionWithoutGame { game_id });
            },
        };
        if active_id != game_id {
            self.failure_count = self.failure_count.saturating_add(1);
            return Some(LifecycleFailure::ActionForUnexpectedGame { game_id, active: active_id });
        }
        if actor >= 2 {
            self.failure_count = self.failure_count.saturating_add(1);
            return Some(LifecycleFailure::InvalidActor { game_id, actor });
        }
        let mut active = self.active.take().unwrap();
        active.plies = active.plies.saturating_add(1);
        active.actions_by_player[actor] = active.actions_by_player[actor].saturating_add(1);
        self.active = Some(active);
        None
    }

    /// The game ends with the reported `outcome` and the final state's winner. The finished game
    /// is handed back for its record, with the failures noticed: no replay identity, and an
    /// outcome that disagrees with the final state.
    pub fn on_game_end(&mut self, game_id: u128, outcome: Option<GameOutcome>, state_winner: Option<GameOutcome>) -> (r: (
        Option<FinishedGame>,
        Vec<LifecycleFailure>,
    ))
        ensures
            match old(self).active {
                None => r.0 is None && r.1@ == seq![LifecycleFailure::EndWithoutGame { game_id }]
                    && final(self).failure_count == bumped(old(self).failure_count) && final(self).active
                    == old(self).active,
                Some(a) => if a.game_id != game_id {
                    &&& r.0 is None
                    &&& r.1@ == seq![LifecycleFailure::EndForUnexpectedGame { game_id, active: a.game_id }]
                    &&& final(self).failure_count == bumped(old(self).failure_count)
                    &&& final(self).active == old(self).active
                } else {
                    let c = spec_completion(outcome, state_winner);
                    let missing = if a.randomness is None {
                        seq![LifecycleFailure::MissingRandomness { game_id }]
                    } else {
                        Seq::empty()
                    };
                    let disagree = if c != GameCompletion::Completed {
                        seq![LifecycleFailure::Disagreement { game_id, completion: c }]
                    } else {
                        Seq::empty()
                    };
                    let count = if a.randomness is None {
                        bumped(old(self).failure_count)
                    } else {
                        old(self).failure_count
                    };
                    let final_count = if c != GameCompletion::Completed {
                        bumped(count)
                    } else {
                        count
                    };
                    &&& final(self).active is None
                    &&& r.1@ == missing + disagree
                    &&& final(self).failure_count == final_count
                    &&& r.0 == Some(
                        FinishedGame {
                            game_id,
                            randomness: a.randomness,
                            outcome,
                            state_winner,
                            completion: c,
                            lifecycle_errors: if final_count >= a.failure_count_at_start {
                                (final_count - a.failure_count_at_start) as usize
                            } else {
                                0
                            },
                            plies: a.plies,
                            actions_by_player: a.actions_by_player,
                        },
                    )
                },
            },
    {
        let mut failures: Vec<LifecycleFailure> = Vec::new();
        let active_id = match &self.active {
            Some(a) => a.game_id,
            None => {
                self.failure_count = self.failure_count.saturating_add(1);
                failures.push(LifecycleFailure::EndWithoutGame { game_id });
                return (None, failures);
            },
        };
        if active_id != game_id {
            self.failure_count = self.failure_count.saturating_add(1);
            failures.push(LifecycleFailure::EndForUnexpectedGame { game_id, active: active_id });
            return (None, failures);
        }
        let active = self.active.take().unwrap();
        let agreement = completion(outcome, state_winner);
        if active.randomness.is_none() {
            self.failure_count = self.failure_count.saturating_add(1);
            failures.push(LifecycleFailure::MissingRandomness { game_id });
        }
        if agreement != GameCompletion::Completed {
            self.failure_count = self.failure_count.saturating_add(1);
            failures.push(LifecycleFailure::Disagreement { game_id, completion: agreement });
        }
        let lifecycle_errors = self.failure_count.saturating_sub(active.failure_count_at_start);
        proof {
            assert(failures@ =~= (if active.randomness is None {
                seq![LifecycleFailure::MissingRandomness { game_id }]
            } else {
                Seq::empty()
            }) + (if agreement != GameCompletion::Completed {
                seq![LifecycleFailure::Disagreement { game_id, completion: agreement }]
            } else {
                Seq::empty()
            }));
        }
        (
            Some(
                FinishedGame {
                    game_id,
                    randomness: active.randomness,
                    outcome,
                    state_winner,
                    completion: agreement,
                    lifecycle_errors,
                    plies: active.plies,
                    actions_by_player: active.actions_by_player,
                },
            ),
            failures,
        )
    }

    /// The simulation ends; a game still in progress never ended and is dropped as a failure.
    pub fn on_simulation_end(&mut self) -> (failure: Option<LifecycleFailure>)
        ensures
            final(self).active is None,
            match old(self).active {
                Some(a) => failure == Some(LifecycleFailure::SimulationEndedDuringGame { game_id: a.game_id })
                    && final(self).failure_count == bumped(old(self).failure_count),
                None => failure is None && final(self).failure_count == old(self).failure_count,
            },
    {
        match self.active.take() {
            Some(active) => {
                self.failure_count = self.failure_count.saturating_add(1);
                Some(LifecycleFailure::SimulationEndedDuringGame { game_id: active.game_id })
            },
            None => None,
        }
    }

    /// Fold another game's ledger into this one: its failures are added, and a game it never
    /// finished is one more failure.
    pub fn merge(&mut self, other: &ResultLedger) -> (failure: Option<LifecycleFailure>)
        ensures
            final(self).active == old(self).active,
            other.active is Some ==> failure == Some(LifecycleFailure::MergedUnfinishedGame) && final(self).failure_count
                == bumped(
                if old(self).failure_count + other.failure_count > usize::MAX {
                    usize::MAX
                } else {
                    (old(self).failure_count + other.failure_count) as usize
                },
            ),
            other.active is None ==> failure is None && final(self).failure_count == if old(self).failure_count
                + other.failure_count > usize::MAX {
                usize::MAX
            } else {
                (old(self).failure_count + other.failure_count) as usize
            },
    {
        self.failure_count = self.failure_count.saturating_add(other.failure_count);
        if other.active.is_some() {
            self.failure_count = self.failure_count.saturating_add(1);
            return Some(LifecycleFailure::MergedUnfinishedGame);
        }
        None
    }
}

} // verus!
