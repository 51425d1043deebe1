//! Pilot telemetry: the label of each chosen action and the tally one root decision adds to
//! the counters.
use vstd::prelude::*;

use crate::actions::SimpleAction;

verus! {

/// The coarse label of an action; turn-ending kinds carry a `*`.
pub open spec fn spec_action_kind(action: SimpleAction) -> &'static str {
    match action {
        SimpleAction::Attack(_) => "Attack*",
        SimpleAction::EndTurn => "EndTurn*",
        SimpleAction::Retreat(_) => "Retreat",
        SimpleAction::UseAbility { .. } => "UseAbility",
        SimpleAction::Attach { .. } => "Attach",
        SimpleAction::Play { .. } => "PlayTrainer",
        SimpleAction::Place(..) => "Place",
        SimpleAction::Evolve { .. } => "Evolve",
        SimpleAction::AttachTool { .. } => "AttachTool",
        SimpleAction::DrawCard { .. } => "DrawCard",
        _ => "Other",
    }
}

pub fn action_kind(action: &SimpleAction) -> (r: &'static str)
    ensures
        r == spec_action_kind(*action),
{
    match action {
        SimpleAction::Attack(_) => "Attack*",
        SimpleAction::EndTurn => "EndTurn*",
        SimpleAction::Retreat(_) => "Retreat",
        SimpleAction::UseAbility { .. } => "UseAbility",
        SimpleAction::Attach { .. } => "Attach",
        SimpleAction::Play { .. } => "PlayTrainer",
        SimpleAction::Place(..) => "Place",
        SimpleAction::Evolve { .. } => "Evolve",
        SimpleAction::AttachTool { .. } => "AttachTool",
        SimpleAction::DrawCard { .. } => "DrawCard",
        _ => "Other",
    }
}

/// What one root decision adds to its actor's counters.
#[derive(Debug, Clone, Copy, PartialEq, Eq)]
pub struct DecisionTally {
    /// The label of the chosen action.
    pub kind: &'static str,
    /// Candidates offered.
    pub candidates: usize,
    /// Candidates whose evaluation crossed into the opponent ply.
    pub candidates_priced: usize,
    /// The candidates held both priced and unpriced actions.
    pub mixed: bool,
    /// Mixed, and the chosen candidate was unpriced.
    pub chose_unpriced_when_mixed: bool,
}

/// Number of `true` entries of `s`.
pub open spec fn count_true(s: Seq<bool>) -> nat
    decreases s.len(),
{
    if s.len() == 0 {
        0
    } else {
        count_true(s.drop_last()) + if s.last() {
            1nat
        } else {
            0nat
        }
    }
}


/// The tally of a root decision: `priced` marks, per candidate, whether evaluating it crossed
/// the turn boundary; `best_idx` is the chosen candidate.
pub open spec fn spec_decision_tally(chosen: SimpleAction, priced: Seq<bool>, best_idx: int) -> DecisionTally {
    let n_priced = count_true(priced);
    let mixed = n_priced > 0 && n_priced < priced.len();
    DecisionTally {
        kind: spec_action_kind(chosen),
        candidates: priced.len() as usize,
        candidates_priced: n_priced as usize,
        mixed,
        chose_unpriced_when_mixed: mixed && !priced[best_idx],
    }
}

/// The counters one root decision adds. When the candidates are mixed the chosen index is
/// read, so it must then lie among them.
pub fn decision_tally(chosen: &SimpleAction, priced: &[bool], best_idx: usize) -> (r: DecisionTally)
    requires
        0 < count_true(priced@) < priced@.len() ==> best_idx < priced@.len(),
    ensures
        r == spec_decision_tally(*chosen, priced@, best_idx as int),
{
    let n = priced.len();
    let mut n_priced: usize = 0;
    for i in 0..n
        invariant
            n == priced@.len(),
            n_priced == count_true(priced@.take(i as int)),
            n_priced <= i,
    {
        proof {
            assert(priced@.take(i + 1).drop_last() =~= priced@.take(i as int));
        }
        if priced[i] {
            n_priced += 1;
        }
    }
    proof {
        assert(priced@.take(n as int) =~= priced@);
    }
    let mixed = n_priced > 0 && n_priced < n;
    let chose_unpriced_when_mixed = mixed && !priced[best_idx];
    DecisionTally {
        kind: action_kind(chosen),
        candidates: n,
        candidates_priced: n_priced,
        mixed,
        chose_unpriced_when_mixed,
    }
}

} // verus!
