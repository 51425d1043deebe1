//! Exporting a game as (state, action) pairs, one per ply: the ply numbering, the record held
//! until its action has resolved, and which reveal records may still join it. Writing a
//! finished ply to a file is the caller's.
use vstd::prelude::*;

use crate::actions::Action;
use crate::game_records::{DecisionRandomness, GameRandomness, LuxuryCoinResolutionRecord, PrivateRevealRecord, PublicRevealRecord};
use crate::state::State;
use crate::text::{decimal, push_zero_padded, str_equal, zero_padded};

verus! {

/// One exported ply: the state before the action, the choices the actor had and the one taken,
/// with the randomness and reveal records that belong to it.
#[derive(Debug, Clone)]
pub struct ExportedDataPoint {
    pub game_id: String,
    pub ply: u32,
    pub actor: usize,
    pub state: State,
    pub playable_actions: Vec<Action>,
    pub chosen_action: Action,
    pub randomness: Option<GameRandomness>,
    pub decision_randomness: Option<DecisionRandomness>,
    pub information_model: Option<String>,
    pub private_reveals: Vec<PrivateRevealRecord>,
    pub public_reveals: Vec<PublicRevealRecord>,
    pub luxury_coin_resolutions: Vec<LuxuryCoinResolutionRecord>,
}

/// What became of a batch of reveal records.
#[derive(Debug, Clone, Copy, PartialEq, Eq, Structural)]
pub enum RevealAdmission {
    /// The batch was empty.
    Empty,
    /// The batch names another game than the one being exported; it is ignored.
    UnexpectedGame,
    /// No ply is waiting for its results; the batch is ignored.
    NoPendingPly,
    /// The batch joined the waiting ply.
    Attached,
}

/// The exporter's bookkeeping across a game.
pub struct DataExporter {
    pub ply_counter: u32,
    pub current_game_id: Option<String>,
    pub randomness: Option<GameRandomness>,
    pub decision_randomness: Option<DecisionRandomness>,
    pub information_model: Option<String>,
    /// The last ply, held until its action has resolved so that every reveal result is in it
    /// before it is written.
    pub pending_data_point: Option<ExportedDataPoint>,
}

/// Whether `game_id` is the game being exported.
pub open spec fn is_current_game(current: Option<String>, game_id: Seq<char>) -> bool {
    current matches Some(g) && g@ == game_id
}

/// How a batch of `n` reveal records for `game_id` is admitted.
pub open spec fn spec_reveal_admission(exporter: DataExporter, game_id: Seq<char>, n: nat) -> RevealAdmission {
    if n == 0 {
        RevealAdmission::Empty
    } else if !is_current_game(exporter.current_game_id, game_id) {
        RevealAdmission::UnexpectedGame
    } else if exporter.pending_data_point is None {
        RevealAdmission::NoPendingPly
    } else {
        RevealAdmission::Attached
    }
}

/// `b` is `a` with at most the waiting ply changed.
pub open spec fn same_bookkeeping(a: DataExporter, b: DataExporter) -> bool {
    &&& b.ply_counter == a.ply_counter
    &&& b.current_game_id == a.current_game_id
    &&& b.randomness == a.randomness
    &&& b.decision_randomness == a.decision_randomness
    &&& b.information_model == a.information_model
}

/// `b` is the waiting ply `a` with at most its reveal records changed.
pub open spec fn same_ply(a: ExportedDataPoint, b: ExportedDataPoint) -> bool {
    &&& b.game_id == a.game_id
    &&& b.ply == a.ply
    &&& b.actor == a.actor
    &&& b.state == a.state
    &&& b.playable_actions == a.playable_actions
    &&& b.chosen_action == a.chosen_action
    &&& b.randomness == a.randomness
    &&& b.decision_randomness == a.decision_randomness
    &&& b.information_model == a.information_model
}

/// The file a ply is written to: `ply_` and its number in at least four digits.
pub open spec fn spec_ply_file_name(ply: u32) -> Seq<char> {
    "ply_"@ + zero_padded(decimal(ply as nat), 4) + ".json"@
}

pub fn ply_file_name(ply: u32) -> (r: String)
    ensures
        r@ == spec_ply_file_name(ply),
{
    let mut name = "ply_".to_owned();
    push_zero_padded(&mut name, ply as usize, 4);
    name.append(".json");
    name
}

impl DataExporter {
    pub fn new() -> (r: DataExporter)
        ensures
            r.ply_counter == 0,
            r.current_game_id is None,
            r.randomness is None,
            r.decision_randomness is None,
            r.information_model is None,
            r.pending_data_point is None,
    {
        DataExporter {
            ply_counter: 0,
            current_game_id: None,
            randomness: None,
            decision_randomness: None,
            information_model: None,
            pending_data_point: None,
        }
    }

    /// Take the waiting ply, if any, to be written.
    fn flush_pending(&mut self) -> (flushed: Option<ExportedDataPoint>)
        ensures
            flushed == old(self).pending_data_point,
            final(self).pending_data_point is None,
            same_bookkeeping(*old(self), *final(self)),
    {
        self.pending_data_point.take()
    }

    /// A new game starts: the waiting ply of the previous one is given back to be written, and
    /// plies count from zero for `game_id`.
    pub fn on_game_start(&mut self, game_id: String) -> (flushed: Option<ExportedDataPoint>)
        ensures
            flushed == old(self).pending_data_point,
            final(self).pending_data_point is None,
            final(self).current_game_id == Some(game_id),
            final(self).ply_counter == 0,
            final(self).randomness == old(self).randomness,
            final(self).decision_randomness == old(self).decision_randomness,
            final(self).information_model == old(self).information_model,
    {
        let flushed = self.flush_pending();
        self.current_game_id = Some(game_id);
        self.ply_counter = 0;
        flushed
    }

    /// The game's randomness, recorded in every later ply.
    pub fn on_game_randomness(&mut self, randomness: GameRandomness)
        ensures
            final(self).randomness == Some(randomness),
            final(self).ply_counter == old(self).ply_counter,
            final(self).current_game_id == old(self).current_game_id,
            final(self).decision_randomness == old(self).decision_randomness,
            final(self).information_model == old(self).information_model,
            final(self).pending_data_point == old(self).pending_data_point,
    {
        self.randomness = Some(randomness);
    }

    /// The randomness of the next decision, recorded in the next ply only.
    pub fn on_decision_randomness(&mut self, randomness: Option<DecisionRandomness>)
        ensures
            final(self).decision_randomness == randomness,
            final(self).ply_counter == old(self).ply_counter,
            final(self).current_game_id == old(self).current_game_id,
            final(self).randomness == old(self).randomness,
            final(self).information_model == old(self).information_model,
            final(self).pending_data_point == old(self).pending_data_point,
    {
        self.decision_randomness = randomness;
    }

    /// The information model the deciding player used, recorded from the next ply on.
    pub fn on_decision_information(&mut self, model: String)
        ensures
            final(self).information_model == Some(model),
            final(self).ply_counter == old(self).ply_counter,
            final(self).current_game_id == old(self).current_game_id,
            final(self).randomness == old(self).randomness,
            final(self).decision_randomness == old(self).decision_randomness,
            final(self).pending_data_point == old(self).pending_data_point,
    {
        self.information_model = Some(model);
    }

    /// An action is taken: the previous ply is given back to be written, and a new one waits
    /// with the next number, the decision's randomness (used up) and no reveal records yet.
    pub fn on_action(
        &mut self,
        game_id: String,
        state_before_action: State,
        actor: usize,
        playable_actions: Vec<Action>,
        action: Action,
    ) -> (flushed: Option<ExportedDataPoint>)
        requires
            old(self).ply_counter < u32::MAX,
        ensures
            flushed == old(self).pending_data_point,
            final(self).pending_data_point matches Some(p) && {
                &&& p.game_id == game_id
                &&& p.ply == old(self).ply_counter
                &&& p.actor == actor
                &&& p.state == state_before_action
                &&& p.playable_actions == playable_actions
                &&& p.chosen_action == action
                &&& (p.randomness is Some <==> old(self).randomness is Some)
                &&& p.decision_randomness == old(self).decision_randomness
                &&& (p.information_model is Some <==> old(self).information_model is Some)
                &&& p.private_reveals@.len() == 0
                &&& p.public_reveals@.len() == 0
                &&& p.luxury_coin_resolutions@.len() == 0
            },
            final(self).ply_counter == old(self).ply_counter + 1,
            final(self).decision_randomness is None,
            final(self).current_game_id == old(self).current_game_id,
            final(self).randomness == old(self).randomness,
            final(self).information_model == old(self).information_model,
    {
        let flushed = self.flush_pending();
        let randomness = match &self.randomness {
            Some(r) => Some(r.clone()),
            None => None,
        };
        let information_model = match &self.information_model {
            Some(m) => Some(m.clone()),
            None => None,
        };
        let decision_randomness = self.decision_randomness.take();
        self.pending_data_point = Some(
            ExportedDataPoint {
                game_id,
                ply: self.ply_counter,
                actor,
                state: state_before_action,
                playable_actions,
                chosen_action: action,
                randomness,
                decision_randomness,
                information_model,
                private_reveals: Vec::new(),
                public_reveals: Vec::new(),
                luxury_coin_resolutions: Vec::new(),
            },
        );
        self.ply_counter = self.ply_counter + 1;
        flushed
    }

    /// Whether `game_id` is the game being exported.
    fn is_current(&self, game_id: &str) -> (r: bool)
        ensures
            r == is_current_game(self.current_game_id, game_id@),
    {
        match &self.current_game_id {
            Some(g) => str_equal(g.as_str(), game_id),
            None => false,
        }
    }

    /// Private reveal results for the waiting ply of `game_id`.
    pub fn on_private_reveals(&mut self, game_id: &str, reveals: Vec<PrivateRevealRecord>) -> (r: RevealAdmission)
        ensures
            r == spec_reveal_admission(*old(self), game_id@, reveals@.len()),
            r == RevealAdmission::Attached ==> (final(self).pending_data_point matches Some(after) && {
                let before = old(self).pending_data_point->0;
                &&& same_ply(before, after)
                &&& after.private_reveals@ == before.private_reveals@ + reveals@
                &&& after.public_reveals == before.public_reveals
                &&& after.luxury_coin_resolutions == before.luxury_coin_resolutions
            }),
            r != RevealAdmission::Attached ==> final(self).pending_data_point == old(self).pending_data_point,
            same_bookkeeping(*old(self), *final(self)),
    {
        let mut reveals = reveals;
        if reveals.len() == 0 {
            return RevealAdmission::Empty;
        }
        if !self.is_current(game_id) {
            return RevealAdmission::UnexpectedGame;
        }
        match self.pending_data_point.take() {
            None => RevealAdmission::NoPendingPly,
            Some(mut p) => {
                p.private_reveals.append(&mut reveals);
                self.pending_data_point = Some(p);
                RevealAdmission::Attached
            },
        }
    }

    /// Public reveal results for the waiting ply of `game_id`.
    pub fn on_public_reveals(&mut self, game_id: &str, reveals: Vec<PublicRevealRecord>) -> (r: RevealAdmission)
        ensures
            r == spec_reveal_admission(*old(self), game_id@, reveals@.len()),
            r == RevealAdmission::Attached ==> (final(self).pending_data_point matches Some(after) && {
                let before = old(self).pending_data_point->0;
                &&& same_ply(before, after)
                &&& after.public_reveals@ == before.public_reveals@ + reveals@
                &&& after.private_reveals == before.private_reveals
                &&& after.luxury_coin_resolutions == before.luxury_coin_resolutions
            }),
            r != RevealAdmission::Attached ==> final(self).pending_data_point == old(self).pending_data_point,
            same_bookkeeping(*old(self), *final(self)),
    {
        let mut reveals = reveals;
        if reveals.len() == 0 {
            return RevealAdmission::Empty;
        }
        if !self.is_current(game_id) {
            return RevealAdmission::UnexpectedGame;
        }
        match self.pending_data_point.take() {
            None => RevealAdmission::NoPendingPly,
            Some(mut p) => {
                p.public_reveals.append(&mut reveals);
                self.pending_data_point = Some(p);
                RevealAdmission::Attached
            },
        }
    }

    /// Luxury Coin resolutions for the waiting ply of `game_id`.
    pub fn on_luxury_coin_resolutions(&mut self, game_id: &str, records: Vec<LuxuryCoinResolutionRecord>) -> (r:
        RevealAdmission)
        ensures
            r == spec_reveal_admission(*old(self), game_id@, records@.len()),
            r == RevealAdmission::Attached ==> (final(self).pending_data_point matches Some(after) && {
                let before = old(self).pending_data_point->0;
                &&& same_ply(before, after)
                &&& after.luxury_coin_resolutions@ == before.luxury_coin_resolutions@ + records@
                &&& after.private_reveals == before.private_reveals
                &&& after.public_reveals == before.public_reveals
            }),
            r != RevealAdmission::Attached ==> final(self).pending_data_point == old(self).pending_data_point,
            same_bookkeeping(*old(self), *final(self)),
    {
        let mut records = records;
        if records.len() == 0 {
            return RevealAdmission::Empty;
        }
        if !self.is_current(game_id) {
            return RevealAdmission::UnexpectedGame;
        }
        match self.pending_data_point.take() {
            None => RevealAdmission::NoPendingPly,
            Some(mut p) => {
                p.luxury_coin_resolutions.append(&mut records);
                self.pending_data_point = Some(p);
                RevealAdmission::Attached
            },
        }
    }

    /// The action of `game_id` has resolved: its ply is complete and is given back to be
    /// written. For another game nothing happens.
    pub fn on_action_resolved(&mut self, game_id: &str) -> (flushed: Option<ExportedDataPoint>)
        ensures
            is_current_game(old(self).current_game_id, game_id@) ==> flushed == old(self).pending_data_point
                && final(self).pending_data_point is None,
            !is_current_game(old(self).current_game_id, game_id@) ==> flushed is None
                && final(self).pending_data_point == old(self).pending_data_point,
            same_bookkeeping(*old(self), *final(self)),
    {
        if self.is_current(game_id) {
            self.flush_pending()
        } else {
            None
        }
    }

    /// The game ended: its waiting ply is given back to be written, and everything of the game
    /// is forgotten (the information model stays).
    pub fn on_game_end(&mut self) -> (flushed: Option<ExportedDataPoint>)
        ensures
            flushed == old(self).pending_data_point,
            final(self).pending_data_point is None,
            final(self).ply_counter == 0,
            final(self).current_game_id is None,
            final(self).randomness is None,
            final(self).decision_randomness is None,
            final(self).information_model == old(self).information_model,
    {
        let flushed = self.flush_pending();
        self.ply_counter = 0;
        self.current_game_id = None;
        self.randomness = None;
        self.decision_randomness = None;
        flushed
    }

    /// The simulation ended: the waiting ply, if any, is given back to be written.
    pub fn on_simulation_end(&mut self) -> (flushed: Option<ExportedDataPoint>)
        ensures
            flushed == old(self).pending_data_point,
            final(self).pending_data_point is None,
            same_bookkeeping(*old(self), *final(self)),
    {
        self.flush_pending()
    }
}

} // verus!
