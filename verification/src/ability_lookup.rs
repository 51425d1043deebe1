//! Which Ability a card has, and which one a Pokémon in play actually has right now once
//! board-wide and per-Pokémon suppression is applied.
use vstd::prelude::*;

use crate::abilities::{mechanic_eq, mechanic_same, AbilityMechanic};
use crate::ability_registry::{ability_mechanic_from_effect, spec_ability_mechanic_from_effect};
use crate::effects::CardEffect;
use crate::models::{Card, PlayedCard};
use crate::state::State;

verus! {

/// The mechanic of the card's printed Ability, if the card has an Ability and it is implemented.
pub open spec fn spec_get_ability_mechanic(card: Card) -> Option<AbilityMechanic> {
    match card {
        Card::Pokemon(p) => match p.ability {
            Some(a) => spec_ability_mechanic_from_effect(a.effect@),
            None => None,
        },
        _ => None,
    }
}

/// The slot holds a Pokémon whose printed Ability switches off the Abilities of Basic Pokémon.
pub open spec fn slot_suppresses_basic_abilities(slot: Option<PlayedCard>) -> bool {
    match slot {
        Some(pc) => match spec_get_ability_mechanic(pc.card) {
            Some(m) => m is SuppressBasicAbilities,
            None => false,
        },
        None => false,
    }
}

/// Some Pokémon in play, on either side, switches off the Abilities of Basic Pokémon.
pub open spec fn spec_basic_abilities_suppressed(state: State) -> bool {
    exists|p: int, i: int|
        0 <= p < 2 && 0 <= i < 4 && slot_suppresses_basic_abilities(#[trigger] state.in_play_pokemon[p][i])
}

/// The Pokémon in play has lost its printed Ability: it is Basic while Basic Abilities are
/// suppressed, or a `NoAbilities` effect is stored on it.
pub open spec fn spec_abilities_switched_off(state: State, pokemon: PlayedCard) -> bool {
    (pokemon.card.spec_is_basic() && spec_basic_abilities_suppressed(state))
        || pokemon.spec_has_no_abilities_effect()
}

/// The Ability a Pokémon in play has right now.
pub open spec fn spec_get_in_play_ability_mechanic(state: State, pokemon: PlayedCard) -> Option<AbilityMechanic> {
    if spec_abilities_switched_off(state, pokemon) {
        None
    } else {
        spec_get_ability_mechanic(pokemon.card)
    }
}

/// The Ability a card entering play (placed or evolved into) has.
pub open spec fn spec_get_entering_play_ability_mechanic(state: State, card: Card) -> Option<AbilityMechanic> {
    if card.spec_is_basic() && spec_basic_abilities_suppressed(state) {
        None
    } else {
        spec_get_ability_mechanic(card)
    }
}

/// The defensive passive Abilities that present as an effect on their holder.
pub open spec fn spec_card_effect_from_ability_mechanic(mechanic: AbilityMechanic) -> Option<CardEffect> {
    match mechanic {
        AbilityMechanic::ReduceDamageFromAttacks { amount } => Some(CardEffect::ReduceDamageFromAttacks { amount }),
        AbilityMechanic::ReduceOpponentActiveDamage { amount } => Some(CardEffect::ReduceOpponentActiveDamage { amount }),
        AbilityMechanic::PreventAllDamageFromEx => Some(CardEffect::PreventAllDamageFromEx),
        AbilityMechanic::PreventDamageWhileBenched => Some(CardEffect::PreventDamageWhileBenched),
        AbilityMechanic::CoinFlipToPreventDamage => Some(CardEffect::CoinFlipToPreventIncomingDamage),
        AbilityMechanic::CoinFlipToReduceDamage { amount } => Some(CardEffect::CoinFlipToReduceIncomingDamage { amount }),
        _ => None,
    }
}

/// The raw printed lookup: correct for cards not in play yet, or that can never be Basic.
pub fn get_ability_mechanic(card: &Card) -> (r: Option<AbilityMechanic>)
    ensures
        r == spec_get_ability_mechanic(*card),
{
    match card {
        Card::Pokemon(pokemon) => match &pokemon.ability {
            Some(ability) => ability_mechanic_from_effect(ability.effect.as_str()),
            None => None,
        },
        _ => None,
    }
}

pub fn has_ability_mechanic(card: &Card, mechanic: &AbilityMechanic) -> (r: bool)
    ensures
        r == (spec_get_ability_mechanic(*card) matches Some(m) && mechanic_same(m, *mechanic)),
{
    match get_ability_mechanic(card) {
        Some(m) => mechanic_eq(&m, mechanic),
        None => false,
    }
}

/// Whether any Pokémon in play (either side) is switching off the Abilities of Basic Pokémon.
/// Uses the raw printed lookup, so the question never refers back to itself.
pub fn basic_abilities_suppressed(state: &State) -> (r: bool)
    ensures
        r == spec_basic_abilities_suppressed(*state),
{
    let mut player: usize = 0;
    while player < 2
        invariant
            player <= 2,
            forall|p: int, i: int|
                0 <= p < player && 0 <= i < 4 ==> !slot_suppresses_basic_abilities(#[trigger] state.in_play_pokemon[p][i]),
        decreases 2 - player,
    {
        let mut idx: usize = 0;
        while idx < 4
            invariant
                player < 2,
                idx <= 4,
                forall|p: int, i: int|
                    (0 <= p < player && 0 <= i < 4) || (p == player && 0 <= i < idx)
                    ==> !slot_suppresses_basic_abilities(#[trigger] state.in_play_pokemon[p][i]),
            decreases 4 - idx,
        {
            if let Some(pokemon) = &state.in_play_pokemon[player][idx] {
                if matches!(get_ability_mechanic(&pokemon.card), Some(AbilityMechanic::SuppressBasicAbilities)) {
                    proof {
                        assert(slot_suppresses_basic_abilities(state.in_play_pokemon[player as int][idx as int]));
                    }
                    return true;
                }
            }
            idx += 1;
        }
        player += 1;
    }
    false
}

/// The two ways an in-play Pokémon loses its printed Ability: board-wide suppression of Basic
/// Pokémon, and a `NoAbilities` effect stored on it.
pub fn abilities_switched_off(state: &State, pokemon: &PlayedCard) -> (r: bool)
    ensures
        r == spec_abilities_switched_off(*state, *pokemon),
{
    if pokemon.card.is_basic() && basic_abilities_suppressed(state) {
        return true;
    }
    pokemon.has_no_abilities_effect()
}

/// The Ability a Pokémon in play actually has right now. Every read of an in-play Pokémon's
/// Ability goes through here, so suppression is never half-applied.
pub fn get_in_play_ability_mechanic(state: &State, pokemon: &PlayedCard) -> (r: Option<AbilityMechanic>)
    ensures
        r == spec_get_in_play_ability_mechanic(*state, *pokemon),
        spec_abilities_switched_off(*state, *pokemon) ==> r is None,
        !spec_abilities_switched_off(*state, *pokemon) ==> r == spec_get_ability_mechanic(pokemon.card),
{
    if abilities_switched_off(state, pokemon) {
        return None;
    }
    get_ability_mechanic(&pokemon.card)
}

/// The suppression-aware lookup for a card entering play, where there is no `PlayedCard` yet.
pub fn get_entering_play_ability_mechanic(state: &State, card: &Card) -> (r: Option<AbilityMechanic>)
    ensures
        r == spec_get_entering_play_ability_mechanic(*state, *card),
{
    if card.is_basic() && basic_abilities_suppressed(state) {
        return None;
    }
    get_ability_mechanic(card)
}

/// Whether an in-play Pokémon has any Ability at all right now: keyed on the printed Ability,
/// implemented or not, and taken away only by suppression.
pub fn has_any_in_play_ability(state: &State, pokemon: &PlayedCard) -> (r: bool)
    ensures
        r == (pokemon.card.spec_ability() is Some && !spec_abilities_switched_off(*state, *pokemon)),
{
    pokemon.card.get_ability().is_some() && !abilities_switched_off(state, pokemon)
}

/// [`get_in_play_ability_mechanic`] compared with `mechanic`.
pub fn has_in_play_ability_mechanic(
    state: &State,
    pokemon: &PlayedCard,
    mechanic: &AbilityMechanic,
) -> (r: bool)
    ensures
        r == (spec_get_in_play_ability_mechanic(*state, *pokemon) matches Some(m) && mechanic_same(m, *mechanic)),
{
    match get_in_play_ability_mechanic(state, pokemon) {
        Some(m) => mechanic_eq(&m, mechanic),
        None => false,
    }
}

/// The effect a self-scoped defensive passive Ability presents as while its holder is in play;
/// `None` for every other mechanic.
pub fn card_effect_from_ability_mechanic(mechanic: &AbilityMechanic) -> (r: Option<CardEffect>)
    ensures
        r == spec_card_effect_from_ability_mechanic(*mechanic),
{
    match mechanic {
        AbilityMechanic::ReduceDamageFromAttacks { amount } => Some(CardEffect::ReduceDamageFromAttacks { amount: *amount }),
        AbilityMechanic::ReduceOpponentActiveDamage { amount } => Some(CardEffect::ReduceOpponentActiveDamage { amount: *amount }),
        AbilityMechanic::PreventAllDamageFromEx => Some(CardEffect::PreventAllDamageFromEx),
        AbilityMechanic::PreventDamageWhileBenched => Some(CardEffect::PreventDamageWhileBenched),
        AbilityMechanic::CoinFlipToPreventDamage => Some(CardEffect::CoinFlipToPreventIncomingDamage),
        AbilityMechanic::CoinFlipToReduceDamage { amount } => Some(CardEffect::CoinFlipToReduceIncomingDamage { amount: *amount }),
        _ => None,
    }
}

} // verus!
