//! The board: both players' zones, the Active Spot and Bench, and the turn-scoped bookkeeping
//! the rules read.
use vstd::prelude::*;

use crate::actions::SimpleAction;
use crate::effects::TurnEffect;
use crate::game_records::GameOutcome;
use crate::models::{Card, Deck, EnergyType, PlayedCard};

verus! {

/// Number of in-play slots per player: the Active Spot (index 0) and three Bench spots.
pub const IN_PLAY_SLOTS: usize = 4;

#[derive(Debug, Clone)]
pub struct State {
    pub turn_count: u8,
    pub current_player: usize,
    pub points: [u8; 2],
    /// Set once the game is decided.
    pub winner: Option<GameOutcome>,
    pub hands: [Vec<Card>; 2],
    pub decks: [Deck; 2],
    pub discard_piles: [Vec<Card>; 2],
    pub discard_energies: [Vec<EnergyType>; 2],
    /// Per player: index 0 is the Active Spot, 1..4 the Bench.
    pub in_play_pokemon: [[Option<PlayedCard>; 4]; 2],
    /// The Energy the current player may attach from the Energy Zone this turn, if not yet used.
    pub current_energy: Option<EnergyType>,
    pub has_retreated: bool,
    pub active_stadium: Option<Card>,
    pub active_stadium_owner: Option<usize>,
    /// `(turn, effect)`: the effect is in force during `turn`.
    pub turn_effects: Vec<(u8, TurnEffect)>,
    /// Pending forced choices: `(actor, choices)`, the last one on top.
    pub move_generation_stack: Vec<(usize, Vec<SimpleAction>)>,
    pub has_used_stadium: [bool; 2],
    pub luxury_coin_used_this_turn: [bool; 2],
    pub victory_star_used_this_turn: [bool; 2],
    /// During setup, whether the opponent's placements are still face down.
    pub setup_opponent_hidden: bool,
    /// Whether a Pokémon in play blocks all healing (Heal Block).
    pub healing_blocked: bool,
}

/// `b` is `a` with at most the turn effects changed.
pub open spec fn same_except_turn_effects(a: State, b: State) -> bool {
    &&& b.turn_count == a.turn_count
    &&& b.current_player == a.current_player
    &&& b.points == a.points
    &&& b.winner == a.winner
    &&& b.hands == a.hands
    &&& b.decks == a.decks
    &&& b.discard_piles == a.discard_piles
    &&& b.discard_energies == a.discard_energies
    &&& b.in_play_pokemon == a.in_play_pokemon
    &&& b.current_energy == a.current_energy
    &&& b.has_retreated == a.has_retreated
    &&& b.active_stadium == a.active_stadium
    &&& b.active_stadium_owner == a.active_stadium_owner
    &&& b.move_generation_stack == a.move_generation_stack
    &&& b.has_used_stadium == a.has_used_stadium
    &&& b.luxury_coin_used_this_turn == a.luxury_coin_used_this_turn
    &&& b.victory_star_used_this_turn == a.victory_star_used_this_turn
    &&& b.setup_opponent_hidden == a.setup_opponent_hidden
    &&& b.healing_blocked == a.healing_blocked
}

/// The total `ReducedRetreatCost` discount among `effects` in force during `turn`.
pub open spec fn retreat_discount_in(effects: Seq<(u8, TurnEffect)>, turn: u8) -> int
    decreases effects.len(),
{
    if effects.len() == 0 {
        0
    } else {
        let last = effects.last();
        retreat_discount_in(effects.drop_last(), turn) + match last.1 {
            TurnEffect::ReducedRetreatCost { amount } => if last.0 == turn {
                amount as int
            } else {
                0
            },
            _ => 0,
        }
    }
}

pub proof fn lemma_retreat_discount_nonneg(effects: Seq<(u8, TurnEffect)>, turn: u8)
    ensures
        retreat_discount_in(effects, turn) >= 0,
    decreases effects.len(),
{
    if effects.len() > 0 {
        lemma_retreat_discount_nonneg(effects.drop_last(), turn);
    }
}

/// Whether some effect in force during `turn` forbids attaching Energy from the Zone to the
/// Active Pokémon.
pub open spec fn active_zone_attach_blocked(effects: Seq<(u8, TurnEffect)>, turn: u8) -> bool {
    exists|i: int|
        0 <= i < effects.len() && effects[i].0 == turn && effects[i].1 is NoEnergyFromZoneToActive
}

/// The indices `lo <= i < hi` of the occupied slots whose Pokémon satisfies `pred`, ascending.
pub open spec fn slots_where(
    slots: [Option<PlayedCard>; 4],
    pred: spec_fn(PlayedCard) -> bool,
    lo: int,
    hi: int,
) -> Seq<usize>
    decreases hi - lo,
{
    if hi <= lo {
        Seq::empty()
    } else {
        let prev = slots_where(slots, pred, lo, hi - 1);
        match slots[hi - 1] {
            Some(p) => if pred(p) {
                prev.push((hi - 1) as usize)
            } else {
                prev
            },
            None => prev,
        }
    }
}

/// Slot `i` is among `slots_where(slots, pred, lo, hi)` exactly when `lo <= i < hi` and it holds
/// a Pokémon satisfying `pred`.
pub proof fn lemma_slots_where_contains(
    slots: [Option<PlayedCard>; 4],
    pred: spec_fn(PlayedCard) -> bool,
    lo: int,
    hi: int,
    i: int,
)
    requires
        0 <= lo,
        hi <= 4,
        0 <= i < 4,
    ensures
        slots_where(slots, pred, lo, hi).contains(i as usize) <==> (lo <= i < hi && (slots[i] matches Some(p)
            && pred(p))),
    decreases hi - lo,
{
    if hi > lo {
        lemma_slots_where_contains(slots, pred, lo, hi - 1, i);
        let prev = slots_where(slots, pred, lo, hi - 1);
        match slots[hi - 1] {
            Some(p) => if pred(p) {
                let s = prev.push((hi - 1) as usize);
                if s.contains(i as usize) {
                    let k = choose|k: int| 0 <= k < s.len() && s[k] == i as usize;
                    if k < prev.len() {
                        assert(prev[k] == i as usize);
                    }
                }
                if prev.contains(i as usize) {
                    let k = choose|k: int| 0 <= k < prev.len() && prev[k] == i as usize;
                    assert(s[k] == i as usize);
                }
                if i == hi - 1 {
                    assert(s[prev.len() as int] == i as usize);
                }
            },
            None => {},
        }
    }
}

impl State {
    pub open spec fn wf(&self) -> bool {
        self.current_player < 2
    }

    pub open spec fn slot(&self, player: int, idx: int) -> Option<PlayedCard> {
        self.in_play_pokemon[player][idx]
    }

    pub open spec fn spec_opponent(&self) -> usize {
        ((self.current_player + 1) % 2) as usize
    }

    /// Whether `player` has a Pokémon on the Bench.
    pub open spec fn spec_has_bench(&self, player: int) -> bool {
        exists|i: int| 1 <= i < 4 && self.in_play_pokemon[player][i] is Some
    }

    pub open spec fn spec_retreat_discount(&self) -> int {
        retreat_discount_in(self.turn_effects@, self.turn_count)
    }

    pub open spec fn spec_is_users_first_turn(&self) -> bool {
        self.turn_count <= 2
    }

    pub fn maybe_get_active(&self, player: usize) -> (r: Option<&PlayedCard>)
        requires
            player < 2,
        ensures
            r matches Some(p) ==> self.in_play_pokemon[player as int][0] == Some(*p),
            r is None <==> self.in_play_pokemon[player as int][0] is None,
    {
        match &self.in_play_pokemon[player][0] {
            Some(p) => Some(p),
            None => None,
        }
    }

    pub fn get_active(&self, player: usize) -> (r: &PlayedCard)
        requires
            player < 2,
            self.in_play_pokemon[player as int][0] is Some,
        ensures
            self.in_play_pokemon[player as int][0] == Some(*r),
    {
        match &self.in_play_pokemon[player][0] {
            Some(p) => p,
            None => {
                proof {
                    assert(false);
                }
                &self.in_play_pokemon[player][0].as_ref().unwrap()
            },
        }
    }

    pub fn is_users_first_turn(&self) -> (r: bool)
        ensures
            r == self.spec_is_users_first_turn(),
    {
        self.turn_count <= 2
    }

    pub fn is_healing_blocked(&self) -> (r: bool)
        ensures
            r == self.healing_blocked,
    {
        self.healing_blocked
    }

    /// Whether `player` has at least one Benched Pokémon.
    pub fn has_bench_pokemon(&self, player: usize) -> (r: bool)
        requires
            player < 2,
        ensures
            r == self.spec_has_bench(player as int),
    {
        let mut i: usize = 1;
        while i < IN_PLAY_SLOTS
            invariant
                player < 2,
                1 <= i <= 4,
                forall|j: int| 1 <= j < i ==> self.in_play_pokemon[player as int][j] is None,
            decreases 4 - i,
        {
            if self.in_play_pokemon[player][i].is_some() {
                return true;
            }
            i += 1;
        }
        false
    }

    /// The sum of the current turn's `ReducedRetreatCost` discounts.
    pub fn current_retreat_discount(&self) -> (r: u64)
        ensures
            r as int == if self.spec_retreat_discount() < u64::MAX as int {
                self.spec_retreat_discount()
            } else {
                u64::MAX as int
            },
    {
        let mut total: u64 = 0;
        let n = self.turn_effects.len();
        for i in 0..n
            invariant
                n == self.turn_effects@.len(),
                total as int == if retreat_discount_in(self.turn_effects@.take(i as int), self.turn_count) < u64::MAX as int {
                    retreat_discount_in(self.turn_effects@.take(i as int), self.turn_count)
                } else {
                    u64::MAX as int
                },
        {
            proof {
                let s = self.turn_effects@;
                assert(s.take(i + 1).drop_last() =~= s.take(i as int));
                lemma_retreat_discount_nonneg(s.take(i as int), self.turn_count);
            }
            let (turn, effect) = &self.turn_effects[i];
            match effect {
                TurnEffect::ReducedRetreatCost { amount } => {
                    if *turn == self.turn_count {
                        total = total.saturating_add(*amount as u64);
                    }
                },
                _ => {},
            }
        }
        proof {
            assert(self.turn_effects@.take(n as int) =~= self.turn_effects@);
        }
        total
    }

    /// Whether Energy from the Energy Zone can be attached to the Pokémon in `in_play_idx`
    /// this turn: the turn's Energy is still available and, for the Active Spot, no effect in
    /// force forbids it.
    pub fn can_attach_energy_from_zone(&self, in_play_idx: usize) -> (r: bool)
        ensures
            r == (self.current_energy is Some && !(in_play_idx == 0 && active_zone_attach_blocked(
                self.turn_effects@,
                self.turn_count,
            ))),
    {
        if self.current_energy.is_none() {
            return false;
        }
        if in_play_idx != 0 {
            return true;
        }
        let n = self.turn_effects.len();
        for i in 0..n
            invariant
                n == self.turn_effects@.len(),
                in_play_idx == 0,
                self.current_energy is Some,
                forall|j: int|
                    0 <= j < i ==> !(self.turn_effects@[j].0 == self.turn_count
                        && self.turn_effects@[j].1 is NoEnergyFromZoneToActive),
        {
            let entry = &self.turn_effects[i];
            if entry.0 == self.turn_count && matches!(entry.1, TurnEffect::NoEnergyFromZoneToActive) {
                proof {
                    let ii = i as int;
                    assert(self.turn_effects@[ii].0 == self.turn_count);
                    assert(self.turn_effects@[ii].1 is NoEnergyFromZoneToActive);
                    assert(0 <= ii < self.turn_effects@.len());
                    assert(active_zone_attach_blocked(self.turn_effects@, self.turn_count));
                }
                return false;
            }
        }
        true
    }

    /// Put `effect` in force for this turn and the `duration` turns after it. The entry for
    /// this turn is `effect` itself; the later turns hold clones of it.
    pub fn add_turn_effect(&mut self, effect: TurnEffect, duration: u8)
        requires
            old(self).turn_count as int + duration as int <= u8::MAX as int,
        ensures
            final(self).turn_effects@.len() == old(self).turn_effects@.len() + duration + 1,
            final(self).turn_effects@.subrange(0, old(self).turn_effects@.len() as int)
                == old(self).turn_effects@,
            forall|k: int|
                0 <= k < duration ==> {
                    let e = #[trigger] final(self).turn_effects@[old(self).turn_effects@.len() + k];
                    e.0 == old(self).turn_count + k + 1 && cloned(effect, e.1)
                },
            final(self).turn_effects@.last() == (old(self).turn_count, effect),
            same_except_turn_effects(*old(self), *final(self)),
    {
        let ghost start = self.turn_effects@;
        let mut k: u8 = 0;
        while k < duration
            invariant
                k <= duration,
                same_except_turn_effects(*old(self), *self),
                start == old(self).turn_effects@,
                self.turn_count as int + duration as int <= u8::MAX as int,
                self.turn_effects@.len() == start.len() + k,
                self.turn_effects@.subrange(0, start.len() as int) == start,
                forall|m: int|
                    0 <= m < k ==> {
                        let e = #[trigger] self.turn_effects@[start.len() + m];
                        e.0 == self.turn_count + m + 1 && cloned(effect, e.1)
                    },
            decreases duration - k,
        {
            let copy = effect.clone();
            self.turn_effects.push((self.turn_count + k + 1, copy));
            k += 1;
        }
        let t = self.turn_count;
        let ghost before = self.turn_effects@;
        self.turn_effects.push((t, effect));
        proof {
            assert(self.turn_effects@ == before.push((t, effect)));
            assert forall|m: int| 0 <= m < duration implies {
                let e = #[trigger] self.turn_effects@[start.len() + m];
                e.0 == self.turn_count + m + 1 && cloned(effect, e.1)
            } by {
                assert(self.turn_effects@[start.len() + m] == before[start.len() + m]);
            }
            assert(self.turn_effects@.subrange(0, start.len() as int) =~= before.subrange(0, start.len() as int));
        }
    }
}

impl Default for State {
    fn default() -> (r: State)
        ensures
            r.turn_count == 0,
            r.current_player == 0,
            r.points == [0u8, 0u8],
            r.winner is None,
            r.hands[0]@.len() == 0 && r.hands[1]@.len() == 0,
            r.decks[0].cards@.len() == 0 && r.decks[1].cards@.len() == 0,
            r.discard_piles[0]@.len() == 0 && r.discard_piles[1]@.len() == 0,
            r.discard_energies[0]@.len() == 0 && r.discard_energies[1]@.len() == 0,
            forall|p: int, i: int| 0 <= p < 2 && 0 <= i < 4 ==> r.in_play_pokemon[p][i] is None,
            r.current_energy is None,
            !r.has_retreated,
            r.active_stadium is None,
            r.active_stadium_owner is None,
            r.turn_effects@.len() == 0,
            r.move_generation_stack@.len() == 0,
            r.has_used_stadium == [false, false],
            r.luxury_coin_used_this_turn == [false, false],
            r.victory_star_used_this_turn == [false, false],
            !r.setup_opponent_hidden,
            !r.healing_blocked,
    {
        State {
            turn_count: 0,
            current_player: 0,
            points: [0, 0],
            winner: None,
            hands: [Vec::new(), Vec::new()],
            decks: [
                Deck { cards: Vec::new(), energy_types: Vec::new() },
                Deck { cards: Vec::new(), energy_types: Vec::new() },
            ],
            discard_piles: [Vec::new(), Vec::new()],
            discard_energies: [Vec::new(), Vec::new()],
            in_play_pokemon: [[None, None, None, None], [None, None, None, None]],
            current_energy: None,
            has_retreated: false,
            active_stadium: None,
            active_stadium_owner: None,
            turn_effects: Vec::new(),
            move_generation_stack: Vec::new(),
            has_used_stadium: [false, false],
            luxury_coin_used_this_turn: [false, false],
            victory_star_used_this_turn: [false, false],
            setup_opponent_hidden: false,
            healing_blocked: false,
        }
    }
}

} // verus!
