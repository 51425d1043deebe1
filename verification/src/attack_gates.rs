//! Attack-generation rules that depend on Abilities and Tools: the Bench requirement that seals
//! an attacker, and the attacks Time Recall and Memory Light grant from previous Evolutions.
use vstd::prelude::*;

use crate::abilities::AbilityMechanic;
use crate::ability_lookup::{get_ability_mechanic, spec_get_ability_mechanic};
use crate::board::{has_tool, slot_is_named, spec_tool_count};
use crate::card_ids::CardId;
use crate::models::{Attack, Card, PlayedCard};
use crate::state::State;
use crate::text::str_equal;

verus! {

/// `player` has a Pokémon named `name` on the Bench.
pub open spec fn name_on_bench(state: State, player: int, name: Seq<char>) -> bool {
    exists|i: int| 1 <= i < 4 && #[trigger] slot_is_named(state, player, i, name)
}

/// The Active Pokémon's own Ability forbids it to attack while one of the required names is
/// missing from its owner's Bench (a Pokémon in the Active Spot does not count).
pub open spec fn spec_is_sealed_by_bench_requirement(state: State, player: int, active: PlayedCard) -> bool {
    match spec_get_ability_mechanic(active.card) {
        Some(AbilityMechanic::CannotAttackWithoutBenchedNames { required_bench_names }) => !(forall|k: int|
            0 <= k < required_bench_names@.len() ==> name_on_bench(state, player, (#[trigger] required_bench_names@[k])@)),
        _ => false,
    }
}

fn bench_has_name(state: &State, player: usize, name: &str) -> (r: bool)
    requires
        player < 2,
    ensures
        r == name_on_bench(*state, player as int, name@),
{
    for i in 1..4
        invariant
            player < 2,
            forall|j: int| 1 <= j < i ==> !#[trigger] slot_is_named(*state, player as int, j, name@),
    {
        if let Some(pokemon) = &state.in_play_pokemon[player][i] {
            if pokemon.name_is(name) {
                proof {
                    assert(slot_is_named(*state, player as int, i as int, name@));
                }
                return true;
            }
        }
    }
    false
}

pub fn is_sealed_by_bench_requirement(state: &State, player: usize, active_pokemon: &PlayedCard) -> (r: bool)
    requires
        player < 2,
    ensures
        r == spec_is_sealed_by_bench_requirement(*state, player as int, *active_pokemon),
{
    let required = match get_ability_mechanic(&active_pokemon.card) {
        Some(AbilityMechanic::CannotAttackWithoutBenchedNames { required_bench_names }) => required_bench_names,
        _ => {
            return false;
        },
    };
    let n = required.len();
    for k in 0..n
        invariant
            player < 2,
            n == required@.len(),
            spec_get_ability_mechanic(active_pokemon.card) == Some(
                AbilityMechanic::CannotAttackWithoutBenchedNames { required_bench_names: required },
            ),
            forall|j: int| 0 <= j < k ==> name_on_bench(*state, player as int, (#[trigger] required@[j])@),
    {
        if !bench_has_name(state, player, required[k]) {
            proof {
                assert(!name_on_bench(*state, player as int, required@[k as int]@));
                let m = spec_get_ability_mechanic(active_pokemon.card);
                assert(m->0->required_bench_names == required);
            }
            return true;
        }
    }
    false
}

/// The attacks printed on `cards`, in order.
pub open spec fn attacks_of(cards: Seq<Card>) -> Seq<Attack>
    decreases cards.len(),
{
    if cards.len() == 0 {
        Seq::empty()
    } else {
        attacks_of(cards.drop_last()) + cards.last().spec_attacks()
    }
}

/// Some Pokémon of `player` in play has Time Recall printed.
pub open spec fn time_recall_in_play(state: State, player: int) -> bool {
    exists|i: int| 0 <= i < 4 && #[trigger] slot_has_time_recall(state, player, i)
}

pub open spec fn slot_has_time_recall(state: State, player: int, i: int) -> bool {
    match state.in_play_pokemon[player][i] {
        Some(p) => spec_get_ability_mechanic(p.card) == Some(AbilityMechanic::TimeRecall),
        None => false,
    }
}

/// The previous-Evolution attacks the Active Pokémon may use: with Time Recall in play or Memory
/// Light attached, those printed on the cards under it; otherwise none.
pub open spec fn granted_attacks(state: State, player: int, active: PlayedCard) -> Seq<Attack> {
    if time_recall_in_play(state, player) || spec_tool_count(active, CardId::A4a068MemoryLight) > 0 {
        attacks_of(active.cards_behind@)
    } else {
        Seq::empty()
    }
}

/// Time Recall works from anywhere in play: when any of `player`'s Pokémon, on the Bench or in
/// the Active Spot, has Time Recall, the Active Pokémon may use every attack printed on the
/// cards under it, in order. Without Time Recall in play and without Memory Light, it may use
/// none of them.
pub proof fn lemma_time_recall_anywhere_grants_previous_attacks(state: State, player: int, active: PlayedCard, i: int)
    requires
        0 <= i < 4,
        state.in_play_pokemon[player][i] matches Some(p) && spec_get_ability_mechanic(p.card) == Some(
            AbilityMechanic::TimeRecall,
        ),
    ensures
        granted_attacks(state, player, active) == attacks_of(active.cards_behind@),
{
    assert(slot_has_time_recall(state, player, i));
}

/// Memory Light lets the Pokémon it is attached to use every attack of the cards under it.
pub proof fn lemma_memory_light_grants_previous_attacks(state: State, player: int, active: PlayedCard)
    requires
        spec_tool_count(active, CardId::A4a068MemoryLight) > 0,
    ensures
        granted_attacks(state, player, active) == attacks_of(active.cards_behind@),
{
}

/// Without a Pokémon with Time Recall in play and without Memory Light, no previous-Evolution
/// attack is granted.
pub proof fn lemma_no_recall_grants_nothing(state: State, player: int, active: PlayedCard)
    requires
        forall|i: int|
            0 <= i < 4 ==> !(#[trigger] state.in_play_pokemon[player][i] matches Some(p) && spec_get_ability_mechanic(
                p.card,
            ) == Some(AbilityMechanic::TimeRecall)),
        spec_tool_count(active, CardId::A4a068MemoryLight) == 0,
    ensures
        granted_attacks(state, player, active).len() == 0,
{
    assert forall|i: int| 0 <= i < 4 implies !#[trigger] slot_has_time_recall(state, player, i) by {
        assert(!(state.in_play_pokemon[player][i] matches Some(p) && spec_get_ability_mechanic(p.card) == Some(
            AbilityMechanic::TimeRecall,
        )));
    }
}

fn time_recall_active(state: &State, player: usize) -> (r: bool)
    requires
        player < 2,
    ensures
        r == time_recall_in_play(*state, player as int),
{
    for i in 0..4
        invariant
            player < 2,
            forall|j: int| 0 <= j < i ==> !#[trigger] slot_has_time_recall(*state, player as int, j),
    {
        if let Some(pokemon) = &state.in_play_pokemon[player][i] {
            if matches!(get_ability_mechanic(&pokemon.card), Some(AbilityMechanic::TimeRecall)) {
                proof {
                    assert(slot_has_time_recall(*state, player as int, i as int));
                }
                return true;
            }
        }
    }
    false
}

/// The attacks Time Recall or Memory Light grant the Active Pokémon, each a clone of the printed
/// attack.
pub fn time_recall_attacks(state: &State, player: usize, active_pokemon: &PlayedCard) -> (r: Vec<Attack>)
    requires
        player < 2,
    ensures
        r@.len() == granted_attacks(*state, player as int, *active_pokemon).len(),
        forall|k: int|
            0 <= k < r@.len() ==> cloned(granted_attacks(*state, player as int, *active_pokemon)[k], #[trigger] r@[k]),
{
    let recall = time_recall_active(state, player);
    let memory_light = has_tool(active_pokemon, CardId::A4a068MemoryLight);
    let mut out: Vec<Attack> = Vec::new();
    if !recall && !memory_light {
        return out;
    }
    let cards = &active_pokemon.cards_behind;
    let n = cards.len();
    for c in 0..n
        invariant
            n == cards@.len(),
            out@.len() == attacks_of(cards@.take(c as int)).len(),
            forall|k: int| 0 <= k < out@.len() ==> cloned(attacks_of(cards@.take(c as int))[k], #[trigger] out@[k]),
    {
        let attacks = cards[c].get_attacks();
        let m = attacks.len();
        let ghost before = attacks_of(cards@.take(c as int));
        proof {
            assert(cards@.take(c + 1).drop_last() =~= cards@.take(c as int));
            assert(attacks_of(cards@.take(c + 1)) == before + cards@[c as int].spec_attacks());
        }
        for a in 0..m
            invariant
                m == attacks@.len(),
                attacks@ == cards@[c as int].spec_attacks(),
                out@.len() == before.len() + a,
                forall|k: int| 0 <= k < before.len() ==> cloned(before[k], #[trigger] out@[k]),
                forall|k: int| 0 <= k < a ==> cloned(attacks@[k], #[trigger] out@[before.len() + k]),
        {
            let copy = attacks[a].clone();
            out.push(copy);
        }
        proof {
            let after = attacks_of(cards@.take(c + 1));
            assert forall|k: int| 0 <= k < out@.len() implies cloned(after[k], #[trigger] out@[k]) by {
                if k >= before.len() {
                    assert(out@[k] == out@[before.len() + (k - before.len())]);
                }
            }
        }
    }
    proof {
        assert(cards@.take(n as int) =~= cards@);
    }
    out
}

} // verus!
