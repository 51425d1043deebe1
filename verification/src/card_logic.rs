//! Target selection for the Supporters that pick among specific Pokémon.
use vstd::prelude::*;

use crate::models::{EnergyType, PlayedCard};
use crate::state::{lemma_slots_where_contains, slots_where, State};
use crate::text::str_equal;

verus! {

/// Acerola can move damage off a damaged Palossand or Mimikyu.
pub open spec fn is_acerola_target(p: PlayedCard) -> bool {
    (p.spec_name() == "Palossand"@ || p.spec_name() == "Mimikyu"@) && p.spec_is_damaged()
}

/// Mallow can fully heal a damaged Shiinotic or Tsareena.
pub open spec fn is_mallow_target(p: PlayedCard) -> bool {
    (p.spec_name() == "Shiinotic"@ || p.spec_name() == "Tsareena"@) && p.spec_is_damaged()
}

/// Whitney helps a Miltank that is damaged, Asleep, Paralyzed or Confused.
pub open spec fn is_whitney_target(p: PlayedCard) -> bool {
    p.spec_name() == "Miltank"@ && (p.spec_is_damaged() || p.asleep || p.paralyzed || p.confused)
}

/// A Pokémon with Energy attached.
pub open spec fn has_attached_energy(p: PlayedCard) -> bool {
    p.attached_energy@.len() > 0
}

/// The Psychic Supporter needs the Active Pokémon to have an attack titled "Psychic".
pub open spec fn spec_active_has_psychic_attack(state: State, player: int) -> bool {
    match state.in_play_pokemon[player][0] {
        Some(active) => exists|i: int|
            0 <= i < active.card.spec_attacks().len() && (#[trigger] active.card.spec_attacks()[i]).title@
                == "Psychic"@,
        None => false,
    }
}

/// Acerola's targets are the player's damaged Palossand and Mimikyu: a slot is offered exactly
/// when it holds a Pokémon named Palossand or Mimikyu with less HP left than its total.
pub proof fn lemma_acerola_offers_damaged_palossand_and_mimikyu(state: State, player: int, i: int)
    requires
        0 <= i < 4,
    ensures
        slots_where(state.in_play_pokemon[player], |p: PlayedCard| is_acerola_target(p), 0, 4).contains(i as usize)
            <==> (state.in_play_pokemon[player][i] matches Some(p) && (p.card.spec_name() == "Palossand"@
            || p.card.spec_name() == "Mimikyu"@) && p.remaining_hp < p.total_hp),
{
    lemma_slots_where_contains(state.in_play_pokemon[player], |p: PlayedCard| is_acerola_target(p), 0, 4, i);
}

/// Mallow's targets are the player's damaged Shiinotic and Tsareena: a slot is offered exactly
/// when it holds a Pokémon named Shiinotic or Tsareena with less HP left than its total.
pub proof fn lemma_mallow_offers_damaged_shiinotic_and_tsareena(state: State, player: int, i: int)
    requires
        0 <= i < 4,
    ensures
        slots_where(state.in_play_pokemon[player], |p: PlayedCard| is_mallow_target(p), 0, 4).contains(i as usize)
            <==> (state.in_play_pokemon[player][i] matches Some(p) && (p.card.spec_name() == "Shiinotic"@
            || p.card.spec_name() == "Tsareena"@) && p.remaining_hp < p.total_hp),
{
    lemma_slots_where_contains(state.in_play_pokemon[player], |p: PlayedCard| is_mallow_target(p), 0, 4, i);
}

/// Whitney's targets are the player's Miltank that need her: a slot is offered exactly when it
/// holds a Pokémon named Miltank that is damaged, Asleep, Paralyzed or Confused.
pub proof fn lemma_whitney_offers_miltank_in_need(state: State, player: int, i: int)
    requires
        0 <= i < 4,
    ensures
        slots_where(state.in_play_pokemon[player], |p: PlayedCard| is_whitney_target(p), 0, 4).contains(i as usize)
            <==> (state.in_play_pokemon[player][i] matches Some(p) && p.card.spec_name() == "Miltank"@ && (p.remaining_hp
            < p.total_hp || p.asleep || p.paralyzed || p.confused)),
{
    lemma_slots_where_contains(state.in_play_pokemon[player], |p: PlayedCard| is_whitney_target(p), 0, 4, i);
}

/// Acerola (A3 148): "Choose 1 of your Palossand or Mimikyu that has damage on it, and move 40 of
/// its damage to your opponent's Active Pokémon." Only Pokémon that carry damage are offered.
pub fn acerola_targets(state: &State, player: usize) -> (r: Vec<usize>)
    requires
        player < 2,
    ensures
        r@ == slots_where(state.in_play_pokemon[player as int], |p: PlayedCard| is_acerola_target(p), 0, 4),
{
    let mut out: Vec<usize> = Vec::new();
    for i in 0..4
        invariant
            player < 2,
            out@ == slots_where(state.in_play_pokemon[player as int], |p: PlayedCard| is_acerola_target(p), 0, i as int),
    {
        if let Some(pokemon) = &state.in_play_pokemon[player][i] {
            let name = pokemon.get_name();
            if (str_equal(name.as_str(), "Palossand") || str_equal(name.as_str(), "Mimikyu"))
                && pokemon.is_damaged() {
                out.push(i);
            }
        }
    }
    out
}

/// Mallow (A3 154): "Heal all damage from 1 of your Shiinotic or Tsareena. If you do, discard all
/// Energy from that Pokémon." Returns `(in_play_idx, damage_to_heal, energy_to_discard)` for each
/// damaged target, read off the Pokémon so the queued choice stays deterministic.
pub fn mallow_targets(state: &State, player: usize) -> (r: Vec<(usize, u32, Vec<EnergyType>)>)
    requires
        player < 2,
    ensures
        r@.map_values(|t: (usize, u32, Vec<EnergyType>)| t.0) == slots_where(
            state.in_play_pokemon[player as int],
            |p: PlayedCard| is_mallow_target(p),
            0,
            4,
        ),
        forall|k: int|
            0 <= k < r@.len() ==> {
                let t = #[trigger] r@[k];
                &&& t.0 < 4
                &&& state.in_play_pokemon[player as int][t.0 as int] matches Some(p)
                &&& t.1 as int == p.spec_damage_counters()
                &&& t.2@ == p.attached_energy@
            },
{
    let mut out: Vec<(usize, u32, Vec<EnergyType>)> = Vec::new();
    for i in 0..4
        invariant
            player < 2,
            out@.map_values(|t: (usize, u32, Vec<EnergyType>)| t.0) == slots_where(
                state.in_play_pokemon[player as int],
                |p: PlayedCard| is_mallow_target(p),
                0,
                i as int,
            ),
            forall|k: int|
                0 <= k < out@.len() ==> {
                    let t = #[trigger] out@[k];
                    &&& t.0 < 4
                    &&& state.in_play_pokemon[player as int][t.0 as int] matches Some(p)
                    &&& t.1 as int == p.spec_damage_counters()
                    &&& t.2@ == p.attached_energy@
                },
    {
        if let Some(pokemon) = &state.in_play_pokemon[player][i] {
            let name = pokemon.get_name();
            if (str_equal(name.as_str(), "Shiinotic") || str_equal(name.as_str(), "Tsareena"))
                && pokemon.is_damaged() {
                let damage = pokemon.get_effective_total_hp().saturating_sub(pokemon.get_remaining_hp());
                let energy = pokemon.attached_energy.clone();
                let ghost before = out@;
                out.push((i, damage, energy));
                proof {
                    assert(out@.map_values(|t: (usize, u32, Vec<EnergyType>)| t.0) =~= before.map_values(
                        |t: (usize, u32, Vec<EnergyType>)| t.0,
                    ).push(i));
                }
            }
        }
    }
    out
}

/// Psychic (Supporter) can only be used if the player's Active Pokémon has the Psychic attack.
pub fn active_has_psychic_attack(state: &State, player: usize) -> (r: bool)
    requires
        player < 2,
    ensures
        r == spec_active_has_psychic_attack(*state, player as int),
{
    match state.maybe_get_active(player) {
        Some(active) => {
            let attacks = active.card.get_attacks();
            let n = attacks.len();
            for i in 0..n
                invariant
                    n == attacks@.len(),
                    attacks@ == active.card.spec_attacks(),
                    player < 2,
                    state.in_play_pokemon[player as int][0] == Some(*active),
                    forall|j: int| 0 <= j < i ==> (#[trigger] attacks@[j]).title@ != "Psychic"@,
            {
                if str_equal(attacks[i].title.as_str(), "Psychic") {
                    proof {
                        assert((attacks@[i as int]).title@ == "Psychic"@);
                    }
                    return true;
                }
            }
            false
        },
        None => false,
    }
}

/// The opponent's Benched Pokémon that have Energy to move to their Active Pokémon; none when the
/// opponent has no Active Pokémon.
pub fn psychic_energy_sources(state: &State, opponent: usize) -> (r: Vec<usize>)
    requires
        opponent < 2,
    ensures
        state.in_play_pokemon[opponent as int][0] is None ==> r@.len() == 0,
        state.in_play_pokemon[opponent as int][0] is Some ==> r@ == slots_where(
            state.in_play_pokemon[opponent as int],
            |p: PlayedCard| has_attached_energy(p),
            1,
            4,
        ),
{
    let mut out: Vec<usize> = Vec::new();
    if state.maybe_get_active(opponent).is_none() {
        return out;
    }
    for i in 1..4
        invariant
            opponent < 2,
            out@ == slots_where(state.in_play_pokemon[opponent as int], |p: PlayedCard| has_attached_energy(p), 1, i as int),
    {
        if let Some(pokemon) = &state.in_play_pokemon[opponent][i] {
            if pokemon.attached_energy.len() > 0 {
                out.push(i);
            }
        }
    }
    out
}

/// Whitney (A4a 069): "Heal 60 damage from 1 of your Miltank, and it recovers from being Asleep,
/// Paralyzed, and Confused." A Miltank that would gain nothing is not offered.
pub fn whitney_targets(state: &State, player: usize) -> (r: Vec<usize>)
    requires
        player < 2,
    ensures
        r@ == slots_where(state.in_play_pokemon[player as int], |p: PlayedCard| is_whitney_target(p), 0, 4),
{
    let mut out: Vec<usize> = Vec::new();
    for i in 0..4
        invariant
            player < 2,
            out@ == slots_where(state.in_play_pokemon[player as int], |p: PlayedCard| is_whitney_target(p), 0, i as int),
    {
        if let Some(pokemon) = &state.in_play_pokemon[player][i] {
            if pokemon.name_is("Miltank") && (pokemon.is_damaged() || pokemon.is_asleep()
                || pokemon.is_paralyzed() || pokemon.is_confused()) {
                out.push(i);
            }
        }
    }
    out
}

} // verus!
