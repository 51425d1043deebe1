//! Rules applied while resolving actions: which action reaches Portrait, where Victory Star and
//! Buggy Evolution trigger, which actions Will applies to, and the turn effects some actions
//! schedule.
use vstd::prelude::*;

use crate::abilities::{AbilityMechanic, RandomEvolutionTrigger};
use crate::ability_lookup::{
    get_ability_mechanic, get_in_play_ability_mechanic, spec_get_ability_mechanic, spec_get_in_play_ability_mechanic,
};
use crate::actions::{Action, SimpleAction};
use crate::board::{pokemon_is_type, spec_pokemon_types};
use crate::effects::TurnEffect;
use crate::models::EnergyType;
use crate::state::{same_except_turn_effects, State};

verus! {

/// The action uses the Ability of a Pokémon whose printed Ability is Portrait.
pub open spec fn spec_action_uses_portrait(state: State, action: Action) -> bool {
    match action.action {
        SimpleAction::UseAbility { in_play_idx } => match state.in_play_pokemon[action.actor as int][in_play_idx as int] {
            Some(p) => spec_get_ability_mechanic(p.card) == Some(AbilityMechanic::CopyRandomOpponentHandSupporter),
            None => false,
        },
        _ => false,
    }
}

pub fn action_uses_portrait(state: &State, action: &Action) -> (r: bool)
    requires
        action.actor < 2,
        action.action matches SimpleAction::UseAbility { in_play_idx } ==> in_play_idx < 4,
    ensures
        r == spec_action_uses_portrait(*state, *action),
{
    match &action.action {
        SimpleAction::UseAbility { in_play_idx } => match &state.in_play_pokemon[action.actor][*in_play_idx] {
            Some(pokemon) => matches!(get_ability_mechanic(&pokemon.card), Some(AbilityMechanic::CopyRandomOpponentHandSupporter)),
            None => false,
        },
        _ => false,
    }
}

/// The first of `actor`'s slots `i..4` whose Pokémon has Victory Star right now.
pub open spec fn first_victory_star_slot(state: State, actor: int, i: int) -> Option<usize>
    decreases 4 - i,
{
    if i >= 4 || i < 0 {
        None
    } else {
        match state.in_play_pokemon[actor][i] {
            Some(p) => if spec_get_in_play_ability_mechanic(state, p) == Some(AbilityMechanic::VictoryStar) {
                Some(i as usize)
            } else {
                first_victory_star_slot(state, actor, i + 1)
            },
            None => first_victory_star_slot(state, actor, i + 1),
        }
    }
}

/// The slot of `actor`'s Victory Star holder, when Victory Star is unused this turn and the
/// Active Pokémon is a [R] Pokémon.
pub open spec fn spec_victory_star_source(state: State, actor: int) -> Option<usize> {
    if state.victory_star_used_this_turn[actor] {
        None
    } else {
        match state.in_play_pokemon[actor][0] {
            Some(active) => if spec_pokemon_types(state, active).contains(EnergyType::Fire) {
                first_victory_star_slot(state, actor, 0)
            } else {
                None
            },
            None => None,
        }
    }
}

pub fn victory_star_source(state: &State, actor: usize) -> (r: Option<usize>)
    requires
        actor < 2,
    ensures
        r == spec_victory_star_source(*state, actor as int),
{
    if state.victory_star_used_this_turn[actor] {
        return None;
    }
    let active = match &state.in_play_pokemon[actor][0] {
        Some(p) => p,
        None => {
            return None;
        },
    };
    if !pokemon_is_type(state, active, EnergyType::Fire) {
        return None;
    }
    let mut i: usize = 0;
    while i < 4
        invariant
            actor < 2,
            i <= 4,
            spec_victory_star_source(*state, actor as int) == first_victory_star_slot(*state, actor as int, i as int),
        decreases 4 - i,
    {
        if let Some(pokemon) = &state.in_play_pokemon[actor][i] {
            if matches!(get_in_play_ability_mechanic(state, pokemon), Some(AbilityMechanic::VictoryStar)) {
                return Some(i);
            }
        }
        i += 1;
    }
    None
}

/// Will applies to attacks, Abilities, playing a Trainer and using a Stadium.
pub open spec fn spec_is_will_eligible_action(action: SimpleAction) -> bool {
    match action {
        SimpleAction::Attack(_) => true,
        SimpleAction::UseAbility { .. } => true,
        SimpleAction::Play { .. } => true,
        SimpleAction::UseStadium => true,
        _ => false,
    }
}

pub fn is_will_eligible_action(action: &SimpleAction) -> (r: bool)
    ensures
        r == spec_is_will_eligible_action(*action),
{
    matches!(
        action,
        SimpleAction::Attack(_) | SimpleAction::UseAbility { .. } | SimpleAction::Play { .. } | SimpleAction::UseStadium
    )
}

/// The Pokémon in slot `idx` of `actor` has Buggy Evolution right now.
pub open spec fn has_buggy_evolution(state: State, actor: int, idx: int) -> bool {
    match state.in_play_pokemon[actor][idx] {
        Some(p) => spec_get_in_play_ability_mechanic(state, p) == Some(
            AbilityMechanic::RandomEvolutionFromDeck { trigger: RandomEvolutionTrigger::OnEnergyZoneAttachToSelf },
        ),
        None => false,
    }
}

/// The first attachment target, from position `k` on, that has Buggy Evolution.
pub open spec fn first_buggy_target(state: State, actor: int, attachments: Seq<(u32, EnergyType, usize)>, k: int) -> Option<
    usize,
>
    decreases attachments.len() - k,
{
    if k >= attachments.len() || k < 0 {
        None
    } else if has_buggy_evolution(state, actor, attachments[k].2 as int) {
        Some(attachments[k].2)
    } else {
        first_buggy_target(state, actor, attachments, k + 1)
    }
}

/// The in-play index Buggy Evolution would fire on for this attachment list, if any.
pub fn buggy_evolution_target(state: &State, actor: usize, attachments: &[(u32, EnergyType, usize)]) -> (r: Option<
    usize,
>)
    requires
        actor < 2,
        forall|k: int| 0 <= k < attachments@.len() ==> (#[trigger] attachments@[k]).2 < 4,
    ensures
        r == first_buggy_target(*state, actor as int, attachments@, 0),
{
    let n = attachments.len();
    let mut k: usize = 0;
    while k < n
        invariant
            actor < 2,
            n == attachments@.len(),
            k <= n,
            forall|m: int| 0 <= m < attachments@.len() ==> (#[trigger] attachments@[m]).2 < 4,
            first_buggy_target(*state, actor as int, attachments@, 0) == first_buggy_target(
                *state,
                actor as int,
                attachments@,
                k as int,
            ),
        decreases n - k,
    {
        let idx = attachments[k].2;
        let fires = match &state.in_play_pokemon[actor][idx] {
            Some(pokemon) => matches!(
                get_in_play_ability_mechanic(state, pokemon),
                Some(AbilityMechanic::RandomEvolutionFromDeck { trigger: RandomEvolutionTrigger::OnEnergyZoneAttachToSelf })
            ),
            None => false,
        };
        if fires {
            return Some(idx);
        }
        k += 1;
    }
    None
}

/// What scheduling spot damage for the next turn does to the game.
pub open spec fn schedule_delayed_spot_damage_post(pre: State, post: State, source_player: usize, target_player: usize, target_in_play_idx: usize, amount: u32, knock_out: bool) -> bool {
    &&& post.turn_effects@.len() == pre.turn_effects@.len() + 2
    &&& post.turn_effects@.subrange(0, pre.turn_effects@.len() as int) == pre.turn_effects@
    &&& post.turn_effects@[pre.turn_effects@.len() as int].0 == pre.turn_count + 1
    &&& cloned(
        TurnEffect::DelayedSpotDamage { source_player, target_player, target_in_play_idx, amount, knock_out },
        post.turn_effects@[pre.turn_effects@.len() as int].1,
    )
    &&& post.turn_effects@.last() == (
        pre.turn_count,
        TurnEffect::DelayedSpotDamage { source_player, target_player, target_in_play_idx, amount, knock_out },
    )
    &&& same_except_turn_effects(pre, post)
}

/// Schedule spot damage for the next turn (in force during the current and the next turn).
pub fn apply_schedule_delayed_spot_damage(
    state: &mut State,
    source_player: usize,
    target_player: usize,
    target_in_play_idx: usize,
    amount: u32,
    knock_out: bool,
)
    requires
        old(state).turn_count < u8::MAX,
    ensures
        schedule_delayed_spot_damage_post(*old(state), *final(state), source_player, target_player, target_in_play_idx, amount, knock_out),
{
    let effect = TurnEffect::DelayedSpotDamage { source_player, target_player, target_in_play_idx, amount, knock_out };
    state.add_turn_effect(effect, 1);
    proof {
        let e = state.turn_effects@[old(state).turn_effects@.len() + 0int];
        assert(cloned(effect, e.1));
    }
}

/// What Eevee Bag's first option does to the game.
pub open spec fn eevee_bag_damage_boost_post(pre: State, post: State) -> bool {
    &&& post.turn_effects@ == pre.turn_effects@.push(
        (pre.turn_count, TurnEffect::IncreasedDamageForEeveeEvolutions { amount: 10 }),
    )
    &&& same_except_turn_effects(pre, post)
}

/// Eevee Bag's first option: Eevee evolutions do 10 more damage this turn.
pub fn apply_eevee_bag_damage_boost(state: &mut State)
    ensures
        eevee_bag_damage_boost_post(*old(state), *final(state)),
{
    state.add_turn_effect(TurnEffect::IncreasedDamageForEeveeEvolutions { amount: 10 }, 0);
    proof {
        assert(state.turn_effects@ =~= old(state).turn_effects@.push(
            (old(state).turn_count, TurnEffect::IncreasedDamageForEeveeEvolutions { amount: 10 }),
        ));
    }
}

} // verus!
