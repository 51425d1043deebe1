//! Replay identity of a game: its versioned seeding scheme and the per-decision search seeds
//! derived from it, plus the forensic records a game keeps.
use vstd::prelude::*;
use vstd::string::*;
use vstd::wrapping::u64_specs::{wrapping_add, wrapping_mul};

use crate::models::Card;

verus! {

/// How a game ended.
#[derive(Debug, Clone, Copy, PartialEq, Eq, Structural)]
pub enum GameOutcome {
    Win(usize),
    Tie,
}

/// The player's answer to a Luxury Coin prompt.
#[derive(Debug, Clone, Copy, PartialEq, Eq, Structural)]
pub enum LuxuryCoinDecision {
    Keep,
    Reroll,
}

/// Versioned replay identity. Search seeds never come from the gameplay RNG.
#[derive(Debug, Clone, PartialEq, Eq)]
pub struct GameRandomness {
    pub scheme: String,
    pub game_seed: u64,
    pub player_search_seeds: [u64; 2],
}

#[derive(Debug, Clone, Copy, PartialEq, Eq, Structural)]
pub struct DecisionRandomness {
    pub actor: usize,
    pub decision_index: u64,
    pub search_seed: u64,
}

/// Information a card effect revealed to one player only; for replay exporters, never part of
/// a player's policy observation.
#[derive(Debug, Clone, PartialEq, Eq)]
pub struct PrivateRevealRecord {
    pub viewer: usize,
    pub zone_owner: usize,
    pub cause: String,
    pub scope: String,
    pub cards: Vec<Card>,
}

/// A public reveal, in the order it happened.
#[derive(Debug, Clone, PartialEq, Eq)]
pub struct PublicRevealRecord {
    pub zone_owner: usize,
    pub cause: String,
    pub scope: String,
    pub cards: Vec<Card>,
}

/// Public evidence of a resolved Luxury Coin decision: the batches and the choice.
#[derive(Debug, Clone, PartialEq, Eq)]
pub struct LuxuryCoinResolutionRecord {
    pub actor: usize,
    pub initial_faces: Vec<bool>,
    pub decision: LuxuryCoinDecision,
    pub replacement_faces: Option<Vec<bool>>,
}

/// The SplitMix64 finalizer.
pub open spec fn spec_mix_seed(value: u64) -> u64 {
    let a = wrapping_mul(value ^ (value >> 30u64), 0xbf58476d1ce4e5b9u64);
    let b = wrapping_mul(a ^ (a >> 27u64), 0x94d049bb133111ebu64);
    b ^ (b >> 31u64)
}

pub fn mix_seed(value: u64) -> (r: u64)
    ensures
        r == spec_mix_seed(value),
{
    let a = (value ^ (value >> 30)).wrapping_mul(0xbf58476d1ce4e5b9);
    let b = (a ^ (a >> 27)).wrapping_mul(0x94d049bb133111eb);
    b ^ (b >> 31)
}

/// The domain tags of the two players' search seeds.
pub const PLAYER_ZERO_SEED_TAG: u64 = 0x50444c5f53454130;
pub const PLAYER_ONE_SEED_TAG: u64 = 0x50444c5f53454131;

/// The multiplier that spreads decision indices over the seed space.
pub const DECISION_STRIDE: u64 = 0x9e3779b97f4a7c15;

impl GameRandomness {
    /// The replay identity of a game seeded with `game_seed`.
    pub fn new(game_seed: u64) -> (r: GameRandomness)
        ensures
            r.scheme@ == "pdl-search-v1/rand-0.8-StdRng"@,
            r.game_seed == game_seed,
            r.player_search_seeds[0] == spec_mix_seed(game_seed ^ PLAYER_ZERO_SEED_TAG),
            r.player_search_seeds[1] == spec_mix_seed(game_seed ^ PLAYER_ONE_SEED_TAG),
    {
        GameRandomness {
            scheme: String::from_str("pdl-search-v1/rand-0.8-StdRng"),
            game_seed,
            player_search_seeds: [mix_seed(game_seed ^ PLAYER_ZERO_SEED_TAG), mix_seed(game_seed ^ PLAYER_ONE_SEED_TAG)],
        }
    }

    /// The search seed of `actor`'s decision number `decision_index`.
    pub fn decision(&self, actor: usize, decision_index: u64) -> (r: DecisionRandomness)
        requires
            actor < 2,
        ensures
            r.actor == actor,
            r.decision_index == decision_index,
            r.search_seed == spec_mix_seed(
                wrapping_add(self.player_search_seeds[actor as int], wrapping_mul(decision_index, DECISION_STRIDE)),
            ),
    {
        DecisionRandomness {
            actor,
            decision_index,
            search_seed: mix_seed(
                self.player_search_seeds[actor].wrapping_add(decision_index.wrapping_mul(DECISION_STRIDE)),
            ),
        }
    }
}

} // verus!
