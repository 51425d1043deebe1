//! Which Trainer cards produce coin batches Luxury Coin may reroll, and where the Luxury Coin
//! Ability sits.
use vstd::prelude::*;

use crate::abilities::AbilityMechanic;
use crate::ability_lookup::{get_in_play_ability_mechanic, spec_get_in_play_ability_mechanic};
use crate::card_ids::CardId;
use crate::state::State;

verus! {

pub fn is_misty(id: CardId) -> (r: bool)
    ensures
        r == (id == CardId::A1220Misty || id == CardId::A1267Misty),
{
    matches!(id, CardId::A1220Misty | CardId::A1267Misty)
}

pub fn is_master_plan(id: CardId) -> (r: bool)
    ensures
        r == (id == CardId::B4a070TeamRocketsMasterPlan || id == CardId::B4a086TeamRocketsMasterPlan || id
            == CardId::B4a094TeamRocketsMasterPlan),
{
    matches!(
        id,
        CardId::B4a070TeamRocketsMasterPlan | CardId::B4a086TeamRocketsMasterPlan | CardId::B4a094TeamRocketsMasterPlan
    )
}

pub fn is_ice_pop(id: CardId) -> (r: bool)
    ensures
        r == (id == CardId::B2145LuckyIcePop),
{
    id == CardId::B2145LuckyIcePop
}

/// The Trainer printings whose own coin batches Luxury Coin may reroll.
pub const REGISTERED_DIRECT_PRODUCERS: [CardId; 19] = [
    CardId::A1220Misty,
    CardId::A1267Misty,
    CardId::A2b072TeamRocketGrunt,
    CardId::A2b091TeamRocketGrunt,
    CardId::A4159Fisher,
    CardId::A4199Fisher,
    CardId::B1215HittingHammer,
    CardId::B2145LuckyIcePop,
    CardId::B2a086ElectricGenerator,
    CardId::B2a131ElectricGenerator,
    CardId::B2a091Arven,
    CardId::B2a108Arven,
    CardId::B2a115Arven,
    CardId::B4145OrderPad,
    CardId::B4a069TeamRocketsResearcher,
    CardId::B4a085TeamRocketsResearcher,
    CardId::B4a070TeamRocketsMasterPlan,
    CardId::B4a086TeamRocketsMasterPlan,
    CardId::B4a094TeamRocketsMasterPlan,
];

/// Whether `id` is one of the registered direct producers.
pub fn is_registered_direct_producer(id: CardId) -> (r: bool)
    ensures
        r == REGISTERED_DIRECT_PRODUCERS@.contains(id),
{
    let producers = REGISTERED_DIRECT_PRODUCERS;
    let mut i: usize = 0;
    while i < 19
        invariant
            i <= 19,
            producers == REGISTERED_DIRECT_PRODUCERS,
            forall|j: int| 0 <= j < i ==> producers@[j] != id,
        decreases 19 - i,
    {
        if producers[i] == id {
            proof {
                assert(REGISTERED_DIRECT_PRODUCERS@[i as int] == id);
            }
            return true;
        }
        i += 1;
    }
    false
}

/// Lucky Ice Pop can heal: healing is not blocked and `actor`'s Active Pokémon is damaged.
pub open spec fn spec_ice_pop_can_heal(state: State, actor: int) -> bool {
    !state.healing_blocked && match state.in_play_pokemon[actor][0] {
        Some(active) => active.spec_damage_counters() > 0,
        None => false,
    }
}

pub fn ice_pop_can_heal(state: &State, actor: usize) -> (r: bool)
    requires
        actor < 2,
    ensures
        r == spec_ice_pop_can_heal(*state, actor as int),
{
    !state.is_healing_blocked() && match state.maybe_get_active(actor) {
        Some(active) => active.get_damage_counters() > 0,
        None => false,
    }
}

/// The first of `actor`'s slots `i..4` whose Pokémon has Luxury Coin right now.
pub open spec fn first_luxury_coin_slot(state: State, actor: int, i: int) -> Option<usize>
    decreases 4 - i,
{
    if i >= 4 || i < 0 {
        None
    } else {
        match state.in_play_pokemon[actor][i] {
            Some(p) => if spec_get_in_play_ability_mechanic(state, p) == Some(AbilityMechanic::LuxuryCoin) {
                Some(i as usize)
            } else {
                first_luxury_coin_slot(state, actor, i + 1)
            },
            None => first_luxury_coin_slot(state, actor, i + 1),
        }
    }
}

/// The slot of `actor`'s Luxury Coin holder, unless Luxury Coin was already used this turn.
pub open spec fn spec_luxury_coin_source(state: State, actor: int) -> Option<usize> {
    if state.luxury_coin_used_this_turn[actor] {
        None
    } else {
        first_luxury_coin_slot(state, actor, 0)
    }
}

pub fn luxury_coin_source(state: &State, actor: usize) -> (r: Option<usize>)
    requires
        actor < 2,
    ensures
        r == spec_luxury_coin_source(*state, actor as int),
{
    if state.luxury_coin_used_this_turn[actor] {
        return None;
    }
    let mut i: usize = 0;
    while i < 4
        invariant
            actor < 2,
            i <= 4,
            !state.luxury_coin_used_this_turn[actor as int],
            first_luxury_coin_slot(*state, actor as int, 0) == first_luxury_coin_slot(*state, actor as int, i as int),
        decreases 4 - i,
    {
        if let Some(pokemon) = &state.in_play_pokemon[actor][i] {
            if matches!(get_in_play_ability_mechanic(state, pokemon), Some(AbilityMechanic::LuxuryCoin)) {
                return Some(i);
            }
        }
        i += 1;
    }
    None
}

} // verus!
