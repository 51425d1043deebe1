//! Applying the deterministic actions whose rules the library holds: drawing, placing and
//! evolving, healing and curing, moving damage and Energy, discarding Energy, Tools, the
//! Stadium or a Fossil, taking cards back from the discard pile, switching and retreating,
//! scheduling spot damage, Eevee Bag, and a Pokémon leaving play. Each gives back what the turn
//! engine still does afterwards.
use vstd::prelude::*;

use crate::action_rules::{
    apply_eevee_bag_damage_boost, apply_schedule_delayed_spot_damage, eevee_bag_damage_boost_post,
    schedule_delayed_spot_damage_post,
};
use crate::actions::{Action, SimpleAction};
use crate::board_steps::{
    activate_post, all_conditions, apply_activate, apply_discard_active_stadium, apply_discard_fossil,
    apply_discard_last_active_energy, apply_discard_own_benched_then_damage, apply_discard_tool, apply_draw_cards,
    apply_heal_all_eevee_evolutions, apply_heal_and_cure_conditions, apply_heal_and_discard_energy, apply_healing,
    damage_lifted_post, heal_eevee_evolutions_post,
    discard_benched_then_damage_post, discard_from_play_post, discard_last_active_energy_post, discard_stadium_post,
    discard_tool_post, draw_post, heal_and_discard_post, heal_post, lift_damage, apply_put_card_from_discard_to_hand,
    apply_bench_opponent_from_discard, apply_place_card, apply_evolve, discard_to_hand_post, bench_from_discard_post,
    spec_flute_benches, place_post, evolve_post,
};
use crate::models::Card;
use crate::energy_moves::{
    apply_consolidate_energy_to_pokemon, apply_move_energies, apply_move_energy, apply_move_last_energy,
    consolidate_post, move_energies_post, move_energy_post, move_last_energy_post,
};
use crate::leaving_play::{
    apply_return_pokemon_to_hand, apply_shuffle_in_play_pokemon_into_deck, return_to_hand_post,
    shuffle_into_deck_post,
};
use crate::retreat::{
    pay_retreat_cost, retreat_cost_in_range, retreat_paid_post, retreat_payment, spec_retreat_cost_for_player,
};
use crate::state::State;

verus! {

/// What the turn engine still does after a deterministic action.
#[derive(Debug, Clone, Copy, PartialEq, Eq, Structural)]
pub enum EngineFollowUp {
    /// Nothing more.
    Nothing,
    /// Energy entered `player`'s Pokémon in `in_play_idx`: its entering-Energy passive
    /// Abilities (Soothing Wind) apply again.
    EnergyEntered { player: usize, in_play_idx: usize },
    /// `player`'s Pokémon left play from `in_play_idx`: HP bonuses are refreshed and, when it
    /// was the Active Pokémon, a promotion follows or the winner is declared.
    LeftPlay { player: usize, in_play_idx: usize },
    /// `player`'s Active Pokémon retreated: Snapping Trap's damage to the new Active Pokémon
    /// follows.
    Retreated { player: usize },
    /// A Pokémon entered `player`'s slot `in_play_idx` from the discard pile: HP bonuses are
    /// refreshed.
    BenchedFromDiscard { player: usize, in_play_idx: usize },
    /// `player` put a Pokémon from their hand into `in_play_idx`: HP bonuses are refreshed,
    /// entering-play Abilities (Soothing Wind) apply and, on the Bench, the Bench hooks run.
    Placed { player: usize, in_play_idx: usize },
    /// `player`'s Pokémon in `in_play_idx` evolved: HP bonuses are refreshed and the evolution
    /// hooks run (`from_hand`: the card came from the hand, not the deck).
    Evolved { player: usize, in_play_idx: usize, from_hand: bool },
    /// `amount` damage, taken off `source_player`'s Pokémon in `source_idx`, is dealt to
    /// `target_player`'s Pokémon in `target_idx` through the damage pipeline (Knock Outs,
    /// counterattacks), not as an attack.
    DealMovedDamage {
        source_player: usize,
        source_idx: usize,
        amount: u32,
        target_player: usize,
        target_idx: usize,
    },
}

/// The actions this module applies, on the inputs the rules allow: every slot index names one of
/// the four slots, a Pokémon that an action acts on is there, a paid Retreat can be paid
/// (`double_grass`: the player's Grass Energy counts double, as the Ability check answers), a
/// Tool to discard is attached, a recorded Stadium owner is a player, and an evolution card is a
/// Stage 1 or Stage 2 Pokémon.
///
/// Some deterministic kinds are applied by turn-engine steps whose rules this library does not
/// hold, so no post-state can be stated for them; each arm below names the step. The remaining
/// kinds are not deterministic at all (they are forecast with coins or random choices, or
/// handled by the turn loop) and are never applied here.
pub open spec fn deterministic_action_defined(state: State, action: Action, double_grass: bool) -> bool {
    let actor = action.actor;
    actor < 2 && match action.action {
        SimpleAction::Noop => true,
        SimpleAction::DrawCard { .. } => true,
        SimpleAction::MoveEnergy { from_in_play_idx, to_in_play_idx, .. } => from_in_play_idx < 4 && to_in_play_idx
            < 4,
        SimpleAction::MoveEnergies { from_in_play_idx, to_in_play_idx, .. } => from_in_play_idx < 4 && to_in_play_idx
            < 4,
        SimpleAction::ConsolidateEnergyToPokemon { to_in_play_idx, transfers } => to_in_play_idx < 4 && forall|k: int|
            0 <= k < transfers@.len() ==> #[trigger] transfers@[k].0 < 4,
        SimpleAction::MoveRandomOpponentEnergyToActive { from_in_play_idx } => from_in_play_idx < 4,
        SimpleAction::ScheduleDelayedSpotDamage { .. } => state.turn_count < u8::MAX,
        SimpleAction::ApplyEeveeBagDamageBoost => true,
        SimpleAction::HealAllEeveeEvolutions => true,
        SimpleAction::PutCardFromDiscardToHand { .. } => true,
        SimpleAction::BenchOpponentFromDiscard { bench_idx, .. } => bench_idx < 4,
        SimpleAction::Place(_, index) => index < 4,
        SimpleAction::Evolve { evolution, in_play_idx, .. } => {
            &&& in_play_idx < 4
            &&& state.in_play_pokemon[actor as int][in_play_idx as int] is Some
            &&& evolution matches Card::Pokemon(p)
            &&& p.stage != 0
        },
        SimpleAction::ReturnPokemonToHand { in_play_idx } => in_play_idx < 4
            && state.in_play_pokemon[actor as int][in_play_idx as int] is Some,
        SimpleAction::ShuffleInPlayPokemonIntoDeck { in_play_idx } => in_play_idx < 4
            && state.in_play_pokemon[actor as int][in_play_idx as int] is Some,
        SimpleAction::DiscardFossil { in_play_idx } => in_play_idx < 4
            && state.in_play_pokemon[actor as int][in_play_idx as int] is Some,
        SimpleAction::Heal { in_play_idx, .. } => in_play_idx < 4
            && state.in_play_pokemon[actor as int][in_play_idx as int] is Some,
        SimpleAction::HealAndDiscardEnergy { in_play_idx, .. } => in_play_idx < 4
            && state.in_play_pokemon[actor as int][in_play_idx as int] is Some,
        SimpleAction::HealAndCureConditions { in_play_idx, .. } => in_play_idx < 4
            && state.in_play_pokemon[actor as int][in_play_idx as int] is Some,
        SimpleAction::Activate { player, in_play_idx } => player < 2 && 1 <= in_play_idx < 4,
        SimpleAction::Promote { player, in_play_idx } => player < 2 && 1 <= in_play_idx < 4,
        SimpleAction::Retreat(position) => {
            &&& 1 <= position < 4
            &&& state.wf()
            &&& state.in_play_pokemon[actor as int][0] matches Some(active)
            &&& retreat_cost_in_range(state, state.current_player as int, active, true)
            &&& retreat_payment(active.attached_energy@, double_grass) >= spec_retreat_cost_for_player(
                state,
                state.current_player as int,
                active,
                true,
            ).len()
        },
        SimpleAction::DiscardToolFromPokemon { player, in_play_idx, tool_idx } => {
            &&& player < 2
            &&& in_play_idx < 4
            &&& state.in_play_pokemon[player as int][in_play_idx as int] matches Some(p)
            &&& tool_idx < p.attached_tools@.len()
        },
        SimpleAction::DiscardActiveStadium => state.active_stadium_owner matches Some(o) ==> o < 2,
        SimpleAction::DiscardRandomOpponentActiveEnergy => state.in_play_pokemon[1 - actor][0] is Some,
        SimpleAction::MoveAllDamage { from, to } => from < 4 && to < 4
            && state.in_play_pokemon[actor as int][from as int] is Some,
        SimpleAction::MoveDamageToOpponentActive { from_in_play_idx, .. } => from_in_play_idx < 4
            && state.in_play_pokemon[actor as int][from_in_play_idx as int] is Some,
        SimpleAction::DiscardOwnBenchedThenDamage { in_play_idxs, .. } => forall|k: int|
            0 <= k < in_play_idxs@.len() ==> #[trigger] in_play_idxs@[k] < 4,
        // Zone attachment (`attach_energy_from_zone`) consumes the turn's Energy and triggers
        // on-attach Abilities in the engine.
        SimpleAction::Attach { .. } => false,
        // Tool slots and Tool identities come from the engine's Tool registry (`tools`).
        SimpleAction::AttachTool { .. } => false,
        // Benching several Basic Pokémon from the opponent's hand places each through the
        // engine's placement with its entering-play Abilities and Bench hooks, one after the
        // other, so each placement sees the hooks of the ones before.
        SimpleAction::BenchOpponentHandBasics { .. } => false,
        // A Special Condition from an attack passes the engine's attack-effect gate
        // (`apply_attack_status_condition`).
        SimpleAction::ApplyStatusToOpponentActive { .. } => false,
        // Not deterministic: forecast with coins or random choices, or run by the turn loop.
        SimpleAction::Play { .. } => false,
        SimpleAction::UseAbility { .. } => false,
        SimpleAction::Attack(_) => false,
        SimpleAction::EndTurn => false,
        SimpleAction::ApplyDamage { .. } => false,
        SimpleAction::ApplyQueuedAttackDamage { .. } => false,
        SimpleAction::CommunicatePokemon { .. } => false,
        SimpleAction::ShufflePokemonIntoDeck { .. } => false,
        SimpleAction::ShuffleOwnCardsIntoDeck { .. } => false,
        SimpleAction::SwitchHandCardForRandomTool { .. } => false,
        SimpleAction::ShuffleOpponentHandCard { .. } => false,
        SimpleAction::DiscardOpponentSupporter { .. } => false,
        SimpleAction::DiscardOwnCards { .. } => false,
        SimpleAction::DiscardOwnCardsForAttackDamage { .. } => false,
        SimpleAction::AttachFromDiscard { .. } => false,
        SimpleAction::AttachTypedFromDiscard { .. } => false,
        SimpleAction::SadaAttach { .. } => false,
        SimpleAction::UseStadium => false,
        SimpleAction::PutRandomCardsFromDiscardToHand { .. } => false,
        SimpleAction::ShuffleRandomOpponentHandCard => false,
        SimpleAction::OpponentShuffleHandAndDrawRemainingPoints => false,
        SimpleAction::KeepAttackCoinResults => false,
        SimpleAction::RerollAttackCoins { .. } => false,
        SimpleAction::KeepTrainerCoinResults => false,
        SimpleAction::RerollTrainerCoins { .. } => false,
        SimpleAction::ChooseMistyTarget { .. } => false,
    }
}

/// The follow-up after Energy may have entered `player`'s Pokémon in `in_play_idx`.
pub open spec fn energy_follow_up(moved: bool, player: usize, in_play_idx: usize) -> EngineFollowUp {
    if moved {
        EngineFollowUp::EnergyEntered { player, in_play_idx }
    } else {
        EngineFollowUp::Nothing
    }
}

/// What applying `action` to `pre` does: the game afterwards is `post`, and `follow_up` is what
/// the turn engine does next. "Random" Energy moves and discards take the last Energy attached;
/// a paid Retreat counts Grass Energy double when `double_grass`.
pub open spec fn spec_deterministic_effect(
    pre: State,
    action: Action,
    double_grass: bool,
    post: State,
    follow_up: EngineFollowUp,
) -> bool {
    let actor = action.actor;
    let moved = follow_up is EnergyEntered;
    match action.action {
        SimpleAction::Noop => post == pre && follow_up == EngineFollowUp::Nothing,
        SimpleAction::MoveEnergy { from_in_play_idx, to_in_play_idx, energy_type, amount } => move_energy_post(
            pre,
            post,
            actor,
            from_in_play_idx,
            to_in_play_idx,
            energy_type,
            amount,
            moved,
        ) && follow_up == energy_follow_up(moved, actor, to_in_play_idx),
        SimpleAction::MoveEnergies { from_in_play_idx, to_in_play_idx, energies } => move_energies_post(
            pre,
            post,
            actor,
            from_in_play_idx,
            to_in_play_idx,
            energies@,
            moved,
        ) && follow_up == energy_follow_up(moved, actor, to_in_play_idx),
        SimpleAction::ConsolidateEnergyToPokemon { to_in_play_idx, transfers } => consolidate_post(
            pre,
            post,
            actor,
            to_in_play_idx,
            transfers@,
            moved,
        ) && follow_up == energy_follow_up(moved, actor, to_in_play_idx),
        SimpleAction::MoveRandomOpponentEnergyToActive { from_in_play_idx } => move_last_energy_post(
            pre,
            post,
            (1 - actor) as usize,
            from_in_play_idx,
            0,
            moved,
        ) && follow_up == energy_follow_up(moved, (1 - actor) as usize, 0),
        SimpleAction::ScheduleDelayedSpotDamage { target_player, target_in_play_idx, amount, knock_out } =>
            schedule_delayed_spot_damage_post(pre, post, actor, target_player, target_in_play_idx, amount, knock_out)
            && follow_up == EngineFollowUp::Nothing,
        SimpleAction::ApplyEeveeBagDamageBoost => eevee_bag_damage_boost_post(pre, post) && follow_up
            == EngineFollowUp::Nothing,
        SimpleAction::ReturnPokemonToHand { in_play_idx } => return_to_hand_post(pre, post, actor, in_play_idx)
            && follow_up == (EngineFollowUp::LeftPlay { player: actor, in_play_idx }),
        SimpleAction::ShuffleInPlayPokemonIntoDeck { in_play_idx } => shuffle_into_deck_post(
            pre,
            post,
            actor,
            in_play_idx,
        ) && follow_up == (EngineFollowUp::LeftPlay { player: actor, in_play_idx }),
        SimpleAction::DiscardFossil { in_play_idx } => discard_from_play_post(pre, post, actor, in_play_idx)
            && follow_up == (EngineFollowUp::LeftPlay { player: actor, in_play_idx }),
        SimpleAction::DrawCard { amount } => draw_post(pre, post, actor, amount) && follow_up == EngineFollowUp::Nothing,
        SimpleAction::Heal { in_play_idx, amount, cure_status } => heal_post(
            pre,
            post,
            actor,
            in_play_idx,
            amount,
            if cure_status {
                all_conditions()
            } else {
                Seq::empty()
            },
        ) && follow_up == EngineFollowUp::Nothing,
        SimpleAction::HealAndDiscardEnergy { in_play_idx, heal_amount, discard_energies } => heal_and_discard_post(
            pre,
            post,
            actor,
            in_play_idx,
            heal_amount,
            discard_energies@,
        ) && follow_up == EngineFollowUp::Nothing,
        SimpleAction::HealAndCureConditions { in_play_idx, amount, conditions } => heal_post(
            pre,
            post,
            actor,
            in_play_idx,
            amount,
            conditions@,
        ) && follow_up == EngineFollowUp::Nothing,
        SimpleAction::Activate { player, in_play_idx } => activate_post(pre, post, player, in_play_idx) && follow_up
            == EngineFollowUp::Nothing,
        SimpleAction::Promote { player, in_play_idx } => activate_post(pre, post, player, in_play_idx) && follow_up
            == EngineFollowUp::Nothing,
        SimpleAction::Retreat(position) => (exists|paid: State|
            retreat_paid_post(pre, paid, actor, double_grass) && #[trigger] activate_post(paid, post, actor, position))
            && follow_up == (EngineFollowUp::Retreated { player: actor }),
        SimpleAction::DiscardToolFromPokemon { player, in_play_idx, tool_idx } => discard_tool_post(
            pre,
            post,
            player,
            in_play_idx,
            tool_idx,
        ) && follow_up == EngineFollowUp::Nothing,
        SimpleAction::DiscardActiveStadium => discard_stadium_post(pre, post, actor) && follow_up
            == EngineFollowUp::Nothing,
        SimpleAction::DiscardRandomOpponentActiveEnergy => discard_last_active_energy_post(
            pre,
            post,
            (1 - actor) as usize,
        ) && follow_up == EngineFollowUp::Nothing,
        SimpleAction::MoveAllDamage { from, to } => {
            let moved = pre.in_play_pokemon[actor as int][from as int]->0.spec_damage_counters();
            if moved == 0 {
                post == pre && follow_up == EngineFollowUp::Nothing
            } else {
                damage_lifted_post(pre, post, actor, from, moved) && follow_up == (EngineFollowUp::DealMovedDamage {
                    source_player: actor,
                    source_idx: from,
                    amount: moved as u32,
                    target_player: actor,
                    target_idx: to,
                })
            }
        },
        SimpleAction::MoveDamageToOpponentActive { from_in_play_idx, amount } => {
            let damage = pre.in_play_pokemon[actor as int][from_in_play_idx as int]->0.spec_damage_counters();
            let moved = if (amount as int) < damage {
                amount as int
            } else {
                damage
            };
            if pre.in_play_pokemon[1 - actor][0] is None || moved == 0 {
                post == pre && follow_up == EngineFollowUp::Nothing
            } else {
                damage_lifted_post(pre, post, actor, from_in_play_idx, moved) && follow_up == (
                EngineFollowUp::DealMovedDamage {
                    source_player: actor,
                    source_idx: from_in_play_idx,
                    amount: moved as u32,
                    target_player: (1 - actor) as usize,
                    target_idx: 0,
                })
            }
        },
        SimpleAction::HealAllEeveeEvolutions => heal_eevee_evolutions_post(pre, post, actor, 20) && follow_up
            == EngineFollowUp::Nothing,
        SimpleAction::PutCardFromDiscardToHand { card } => discard_to_hand_post(pre, post, actor, card) && follow_up
            == EngineFollowUp::Nothing,
        SimpleAction::BenchOpponentFromDiscard { card, bench_idx } => bench_from_discard_post(
            pre,
            post,
            actor,
            card,
            bench_idx,
        ) && follow_up == if spec_flute_benches(pre, actor, card, bench_idx) {
            EngineFollowUp::BenchedFromDiscard { player: (1 - actor) as usize, in_play_idx: bench_idx }
        } else {
            EngineFollowUp::Nothing
        },
        SimpleAction::Place(card, index) => place_post(pre, post, actor, card, index) && follow_up
            == (EngineFollowUp::Placed { player: actor, in_play_idx: index }),
        SimpleAction::Evolve { evolution, in_play_idx, from_deck } => evolve_post(
            pre,
            post,
            actor,
            evolution,
            in_play_idx,
            from_deck,
        ) && follow_up == (EngineFollowUp::Evolved { player: actor, in_play_idx, from_hand: !from_deck }),
        SimpleAction::DiscardOwnBenchedThenDamage { in_play_idxs, damage } => discard_benched_then_damage_post(
            pre,
            post,
            actor,
            in_play_idxs@,
            damage,
        ) && follow_up == EngineFollowUp::Nothing,
        _ => false,
    }
}

/// Apply a deterministic action of the kinds above, by the rules of each; returns what the turn
/// engine does next. `double_grass` tells whether the acting player's Grass Energy counts double
/// for a paid Retreat.
pub fn apply_deterministic_action(state: &mut State, action: &Action, double_grass: bool) -> (follow_up:
    EngineFollowUp)
    requires
        deterministic_action_defined(*old(state), *action, double_grass),
    ensures
        spec_deterministic_effect(*old(state), *action, double_grass, *final(state), follow_up),
{
    let actor = action.actor;
    match &action.action {
        SimpleAction::Noop => EngineFollowUp::Nothing,
        SimpleAction::MoveEnergy { from_in_play_idx, to_in_play_idx, energy_type, amount } => {
            let moved = apply_move_energy(state, actor, *from_in_play_idx, *to_in_play_idx, *energy_type, *amount);
            follow_up_after_energy(moved, actor, *to_in_play_idx)
        },
        SimpleAction::MoveEnergies { from_in_play_idx, to_in_play_idx, energies } => {
            let moved = apply_move_energies(state, actor, *from_in_play_idx, *to_in_play_idx, energies.as_slice());
            follow_up_after_energy(moved, actor, *to_in_play_idx)
        },
        SimpleAction::ConsolidateEnergyToPokemon { to_in_play_idx, transfers } => {
            let moved = apply_consolidate_energy_to_pokemon(actor, state, *to_in_play_idx, transfers.as_slice());
            follow_up_after_energy(moved, actor, *to_in_play_idx)
        },
        SimpleAction::MoveRandomOpponentEnergyToActive { from_in_play_idx } => {
            // The last Energy attached stands for the random one, so the search tree does not
            // branch on it.
            let opponent = 1 - actor;
            let moved = apply_move_last_energy(state, opponent, *from_in_play_idx, 0);
            follow_up_after_energy(moved, opponent, 0)
        },
        SimpleAction::ScheduleDelayedSpotDamage { target_player, target_in_play_idx, amount, knock_out } => {
            apply_schedule_delayed_spot_damage(state, actor, *target_player, *target_in_play_idx, *amount, *knock_out);
            EngineFollowUp::Nothing
        },
        SimpleAction::ApplyEeveeBagDamageBoost => {
            apply_eevee_bag_damage_boost(state);
            EngineFollowUp::Nothing
        },
        SimpleAction::ReturnPokemonToHand { in_play_idx } => {
            apply_return_pokemon_to_hand(actor, state, *in_play_idx);
            EngineFollowUp::LeftPlay { player: actor, in_play_idx: *in_play_idx }
        },
        SimpleAction::ShuffleInPlayPokemonIntoDeck { in_play_idx } => {
            apply_shuffle_in_play_pokemon_into_deck(actor, state, *in_play_idx);
            EngineFollowUp::LeftPlay { player: actor, in_play_idx: *in_play_idx }
        },
        SimpleAction::DiscardFossil { in_play_idx } => {
            apply_discard_fossil(actor, state, *in_play_idx);
            EngineFollowUp::LeftPlay { player: actor, in_play_idx: *in_play_idx }
        },
        SimpleAction::DrawCard { amount } => {
            apply_draw_cards(state, actor, *amount);
            EngineFollowUp::Nothing
        },
        SimpleAction::Heal { in_play_idx, amount, cure_status } => {
            apply_healing(actor, state, *in_play_idx, *amount, *cure_status);
            EngineFollowUp::Nothing
        },
        SimpleAction::HealAndDiscardEnergy { in_play_idx, heal_amount, discard_energies } => {
            apply_heal_and_discard_energy(actor, state, *in_play_idx, *heal_amount, discard_energies.as_slice());
            EngineFollowUp::Nothing
        },
        SimpleAction::HealAndCureConditions { in_play_idx, amount, conditions } => {
            apply_heal_and_cure_conditions(actor, state, *in_play_idx, *amount, conditions.as_slice());
            EngineFollowUp::Nothing
        },
        SimpleAction::Activate { player, in_play_idx } | SimpleAction::Promote { player, in_play_idx } => {
            apply_activate(*player, state, *in_play_idx);
            EngineFollowUp::Nothing
        },
        SimpleAction::Retreat(position) => {
            pay_retreat_cost(state, actor, double_grass);
            let ghost paid = *state;
            apply_activate(actor, state, *position);
            assert(retreat_paid_post(*old(state), paid, actor, double_grass) && activate_post(
                paid,
                *state,
                actor,
                *position,
            ));
            EngineFollowUp::Retreated { player: actor }
        },
        SimpleAction::DiscardToolFromPokemon { player, in_play_idx, tool_idx } => {
            apply_discard_tool(state, *player, *in_play_idx, *tool_idx);
            EngineFollowUp::Nothing
        },
        SimpleAction::DiscardActiveStadium => {
            apply_discard_active_stadium(actor, state);
            EngineFollowUp::Nothing
        },
        SimpleAction::DiscardRandomOpponentActiveEnergy => {
            // The last Energy attached stands for the random one.
            apply_discard_last_active_energy(state, 1 - actor);
            EngineFollowUp::Nothing
        },
        SimpleAction::MoveAllDamage { from, to } => {
            let moved = match &state.in_play_pokemon[actor][*from] {
                Some(p) => p.get_damage_counters(),
                None => 0,
            };
            if moved == 0 {
                return EngineFollowUp::Nothing;
            }
            lift_damage(state, actor, *from, moved);
            EngineFollowUp::DealMovedDamage {
                source_player: actor,
                source_idx: *from,
                amount: moved,
                target_player: actor,
                target_idx: *to,
            }
        },
        SimpleAction::MoveDamageToOpponentActive { from_in_play_idx, amount } => {
            // Acerola: at most `amount` of the damage moves, and only onto an Active Pokémon.
            let opponent = 1 - actor;
            if state.in_play_pokemon[opponent][0].is_none() {
                return EngineFollowUp::Nothing;
            }
            let damage = match &state.in_play_pokemon[actor][*from_in_play_idx] {
                Some(p) => p.get_damage_counters(),
                None => 0,
            };
            let moved = if *amount < damage {
                *amount
            } else {
                damage
            };
            if moved == 0 {
                return EngineFollowUp::Nothing;
            }
            lift_damage(state, actor, *from_in_play_idx, moved);
            EngineFollowUp::DealMovedDamage {
                source_player: actor,
                source_idx: *from_in_play_idx,
                amount: moved,
                target_player: opponent,
                target_idx: 0,
            }
        },
        SimpleAction::HealAllEeveeEvolutions => {
            apply_heal_all_eevee_evolutions(actor, state);
            EngineFollowUp::Nothing
        },
        SimpleAction::PutCardFromDiscardToHand { card } => {
            apply_put_card_from_discard_to_hand(actor, state, card);
            EngineFollowUp::Nothing
        },
        SimpleAction::BenchOpponentFromDiscard { card, bench_idx } => {
            if apply_bench_opponent_from_discard(actor, state, card, *bench_idx) {
                EngineFollowUp::BenchedFromDiscard { player: 1 - actor, in_play_idx: *bench_idx }
            } else {
                EngineFollowUp::Nothing
            }
        },
        SimpleAction::Place(card, index) => {
            apply_place_card(state, actor, card, *index);
            EngineFollowUp::Placed { player: actor, in_play_idx: *index }
        },
        SimpleAction::Evolve { evolution, in_play_idx, from_deck } => {
            apply_evolve(actor, state, evolution, *in_play_idx, *from_deck);
            EngineFollowUp::Evolved { player: actor, in_play_idx: *in_play_idx, from_hand: !*from_deck }
        },
        SimpleAction::DiscardOwnBenchedThenDamage { in_play_idxs, damage } => {
            apply_discard_own_benched_then_damage(actor, state, in_play_idxs.as_slice(), *damage);
            EngineFollowUp::Nothing
        },
        _ => {
            proof {
                assert(false);
            }
            EngineFollowUp::Nothing
        },
    }
}

fn follow_up_after_energy(moved: bool, player: usize, in_play_idx: usize) -> (r: EngineFollowUp)
    ensures
        r == energy_follow_up(moved, player, in_play_idx),
{
    if moved {
        EngineFollowUp::EnergyEntered { player, in_play_idx }
    } else {
        EngineFollowUp::Nothing
    }
}

} // verus!
