//! Which activated Abilities the current player may use now, and the move list they give.
use vstd::prelude::*;

use crate::abilities::{AbilityMechanic, DeckSearchKind};
use crate::ability_lookup::basic_abilities_suppressed;
use crate::ability_lookup::spec_basic_abilities_suppressed;
use crate::ability_registry::{ability_mechanic_from_effect, spec_ability_mechanic_from_effect};
use crate::actions::SimpleAction;
use crate::models::{Card, EnergyType, PlayedCard};
use crate::state::State;
use crate::text::str_equal;

verus! {

/// Slot `i` of `slots` holds a Pokémon `p` with `pred(i, p)`.
pub open spec fn slot_satisfies(
    slots: [Option<PlayedCard>; 4],
    i: int,
    pred: spec_fn(int, PlayedCard) -> bool,
) -> bool {
    match slots[i] {
        Some(p) => pred(i, p),
        None => false,
    }
}

/// Some slot `lo <= i < hi` holds a Pokémon satisfying `pred`.
pub open spec fn any_slot(slots: [Option<PlayedCard>; 4], lo: int, hi: int, pred: spec_fn(int, PlayedCard) -> bool) -> bool {
    exists|i: int| lo <= i < hi && #[trigger] slot_satisfies(slots, i, pred)
}

pub open spec fn opponent_of(state: State) -> int {
    (state.current_player + 1) % 2
}

pub open spec fn current_active(state: State) -> Option<PlayedCard> {
    state.in_play_pokemon[state.current_player as int][0]
}

/// The names of the Ultra Beasts.
pub open spec fn spec_is_ultra_beast(name: Seq<char>) -> bool {
    name == "Nihilego"@ || name == "Buzzwole"@ || name == "Buzzwole ex"@ || name == "Pheromosa"@
        || name == "Xurkitree"@ || name == "Celesteela"@ || name == "Kartana"@ || name == "Guzzlord"@
        || name == "Guzzlord ex"@ || name == "Poipole"@ || name == "Naganadel"@ || name == "Stakataka"@
        || name == "Blacephalon"@
}

pub fn is_ultra_beast(name: &str) -> (r: bool)
    ensures
        r == spec_is_ultra_beast(name@),
{
    str_equal(name, "Nihilego") || str_equal(name, "Buzzwole") || str_equal(name, "Buzzwole ex")
        || str_equal(name, "Pheromosa") || str_equal(name, "Xurkitree") || str_equal(name, "Celesteela")
        || str_equal(name, "Kartana") || str_equal(name, "Guzzlord") || str_equal(name, "Guzzlord ex")
        || str_equal(name, "Poipole") || str_equal(name, "Naganadel") || str_equal(name, "Stakataka")
        || str_equal(name, "Blacephalon")
}

/// Accept Pain: from the Bench, once, while your Active Pokémon has at least `amount` damage.
pub open spec fn spec_can_use_accept_pain(state: State, in_play_index: int, card: PlayedCard, amount: u32) -> bool {
    in_play_index != 0 && !card.ability_used && match current_active(state) {
        Some(active) => active.spec_damage_counters() >= amount,
        None => false,
    }
}

fn can_use_accept_pain(state: &State, in_play_index: usize, card: &PlayedCard, amount: u32) -> (r: bool)
    requires
        state.wf(),
    ensures
        r == spec_can_use_accept_pain(*state, in_play_index as int, *card, amount),
{
    in_play_index != 0 && !card.ability_used && match state.maybe_get_active(state.current_player) {
        Some(active) => active.get_damage_counters() >= amount,
        None => false,
    }
}

/// Ultra Thrusters: once, your Active Pokémon is an Ultra Beast and so is one on your Bench.
pub open spec fn spec_can_use_celesteela_ultra_thrusters(state: State, card: PlayedCard) -> bool {
    !card.ability_used && match current_active(state) {
        Some(active) => spec_is_ultra_beast(active.spec_name()) && any_slot(
            state.in_play_pokemon[state.current_player as int],
            1,
            4,
            |i: int, p: PlayedCard| spec_is_ultra_beast(p.spec_name()),
        ),
        None => false,
    }
}

fn can_use_celesteela_ultra_thrusters(state: &State, card: &PlayedCard) -> (r: bool)
    requires
        state.wf(),
        !card.ability_used ==> current_active(*state) is Some,
    ensures
        r == spec_can_use_celesteela_ultra_thrusters(*state, *card),
{
    if card.ability_used {
        return false;
    }
    let active = state.get_active(state.current_player);
    let active_name = active.get_name();
    if !is_ultra_beast(active_name.as_str()) {
        return false;
    }
    let player = state.current_player;
    let ghost pred = |i: int, p: PlayedCard| spec_is_ultra_beast(p.spec_name());
    for i in 1..4
        invariant
            player == state.current_player,
            player < 2,
            pred == (|i: int, p: PlayedCard| spec_is_ultra_beast(p.spec_name())),
            !card.ability_used,
            current_active(*state) is Some,
            spec_is_ultra_beast(current_active(*state)->0.spec_name()),
            forall|j: int| 1 <= j < i ==> !#[trigger] slot_satisfies(state.in_play_pokemon[player as int], j, pred),
    {
        if let Some(pokemon) = &state.in_play_pokemon[player][i] {
            let name = pokemon.get_name();
            if is_ultra_beast(name.as_str()) {
                proof {
                    assert(slot_satisfies(state.in_play_pokemon[player as int], i as int, pred));
                }
                return true;
            }
        }
    }
    false
}

/// Switch your Active Pokémon of type `energy_type` with a Benched one, once.
pub open spec fn spec_can_use_switch_active_typed_with_bench(state: State, card: PlayedCard, energy_type: EnergyType) -> bool {
    !card.ability_used && match current_active(state) {
        Some(active) => active.card.spec_type() == Some(energy_type) && state.spec_has_bench(
            state.current_player as int,
        ),
        None => false,
    }
}

fn can_use_switch_active_typed_with_bench(state: &State, card: &PlayedCard, energy_type: EnergyType) -> (r: bool)
    requires
        state.wf(),
        !card.ability_used ==> current_active(*state) is Some,
    ensures
        r == spec_can_use_switch_active_typed_with_bench(*state, *card, energy_type),
{
    if card.ability_used {
        return false;
    }
    let active = state.get_active(state.current_player);
    if active.get_energy_type() != Some(energy_type) {
        return false;
    }
    state.has_bench_pokemon(state.current_player)
}

/// Remove a random Special Condition from your Active Pokémon, once, when it has one.
pub open spec fn spec_can_use_remove_random_special_condition_from_active(state: State, card: PlayedCard) -> bool {
    !card.ability_used && match current_active(state) {
        Some(active) => active.spec_has_any_status(),
        None => false,
    }
}

fn can_use_remove_random_special_condition_from_active(state: &State, card: &PlayedCard) -> (r: bool)
    requires
        state.wf(),
    ensures
        r == spec_can_use_remove_random_special_condition_from_active(*state, *card),
{
    !card.ability_used && match state.maybe_get_active(state.current_player) {
        Some(active) => active.is_poisoned() || active.is_paralyzed() || active.is_asleep() || active.is_burned()
            || active.is_confused(),
        None => false,
    }
}

/// A damaged Pokémon ex with Energy attached.
pub open spec fn damaged_ex_with_energy(p: PlayedCard) -> bool {
    p.card.spec_is_ex() && p.spec_is_damaged() && p.attached_energy@.len() > 0
}

pub open spec fn spec_can_use_heal_one_your_pokemon_ex_and_discard_random_energy(state: State, card: PlayedCard) -> bool {
    !card.ability_used && any_slot(
        state.in_play_pokemon[state.current_player as int],
        0,
        4,
        |i: int, p: PlayedCard| damaged_ex_with_energy(p),
    )
}

fn can_use_heal_one_your_pokemon_ex_and_discard_random_energy(state: &State, card: &PlayedCard) -> (r: bool)
    requires
        state.wf(),
    ensures
        r == spec_can_use_heal_one_your_pokemon_ex_and_discard_random_energy(*state, *card),
{
    if card.ability_used {
        return false;
    }
    let player = state.current_player;
    let ghost pred = |i: int, p: PlayedCard| damaged_ex_with_energy(p);
    for i in 0..4
        invariant
            player == state.current_player,
            player < 2,
            !card.ability_used,
            pred == (|i: int, p: PlayedCard| damaged_ex_with_energy(p)),
            forall|j: int| 0 <= j < i ==> !#[trigger] slot_satisfies(state.in_play_pokemon[player as int], j, pred),
    {
        if let Some(pokemon) = &state.in_play_pokemon[player][i] {
            if pokemon.card.is_ex() && pokemon.is_damaged() && pokemon.attached_energy.len() > 0 {
                proof {
                    assert(slot_satisfies(state.in_play_pokemon[player as int], i as int, pred));
                }
                return true;
            }
        }
    }
    false
}

/// Attach Energy from the Zone to your Active Pokémon of type `energy_type`, once, when the
/// turn's Energy may still go to the Active Spot.
pub open spec fn spec_can_use_attach_energy_from_zone_to_active_typed(state: State, card: PlayedCard, energy_type: EnergyType) -> bool {
    !card.ability_used && state.current_energy is Some && !crate::state::active_zone_attach_blocked(
        state.turn_effects@,
        state.turn_count,
    ) && match current_active(state) {
        Some(active) => active.card.spec_type() == Some(energy_type),
        None => false,
    }
}

fn can_use_attach_energy_from_zone_to_active_typed(state: &State, card: &PlayedCard, energy_type: EnergyType) -> (r: bool)
    requires
        state.wf(),
        !card.ability_used && state.current_energy is Some && !crate::state::active_zone_attach_blocked(
            state.turn_effects@,
            state.turn_count,
        ) ==> current_active(*state) is Some,
    ensures
        r == spec_can_use_attach_energy_from_zone_to_active_typed(*state, *card, energy_type),
{
    if card.ability_used || !state.can_attach_energy_from_zone(0) {
        return false;
    }
    let active = state.get_active(state.current_player);
    active.get_energy_type() == Some(energy_type)
}

/// Slot `i` holds a damaged Pokémon and is not slot `other`.
pub open spec fn slot_damaged_besides(slots: [Option<PlayedCard>; 4], i: int, other: int) -> bool {
    match slots[i] {
        Some(p) => p.spec_is_damaged() && i != other,
        None => false,
    }
}

/// Shadow Void: another of your Pokémon has damage to move.
pub open spec fn spec_can_use_dusknoir_shadow_void(state: State, dusknoir_idx: int) -> bool {
    exists|i: int|
        0 <= i < 4 && #[trigger] slot_damaged_besides(
            state.in_play_pokemon[state.current_player as int],
            i,
            dusknoir_idx,
        )
}

fn can_use_dusknoir_shadow_void(state: &State, dusknoir_idx: usize) -> (r: bool)
    requires
        state.wf(),
    ensures
        r == spec_can_use_dusknoir_shadow_void(*state, dusknoir_idx as int),
{
    let player = state.current_player;
    for i in 0..4
        invariant
            player == state.current_player,
            player < 2,
            forall|j: int|
                0 <= j < i ==> !#[trigger] slot_damaged_besides(state.in_play_pokemon[player as int], j, dusknoir_idx as int),
    {
        if let Some(pokemon) = &state.in_play_pokemon[player][i] {
            if pokemon.is_damaged() && i != dusknoir_idx {
                proof {
                    assert(slot_damaged_besides(state.in_play_pokemon[player as int], i as int, dusknoir_idx as int));
                }
                return true;
            }
        }
    }
    false
}

/// Dismantling Keys: from the Bench, once, while the opponent's Active Pokémon has a Tool.
pub open spec fn spec_can_use_dismantling_keys(state: State, in_play_idx: int, card: PlayedCard) -> bool {
    in_play_idx != 0 && !card.ability_used && match state.in_play_pokemon[opponent_of(state)][0] {
        Some(active) => active.attached_tools@.len() > 0,
        None => false,
    }
}

fn can_use_dismantling_keys(state: &State, in_play_idx: usize, card: &PlayedCard) -> (r: bool)
    requires
        state.wf(),
    ensures
        r == spec_can_use_dismantling_keys(*state, in_play_idx as int, *card),
{
    if in_play_idx == 0 || card.ability_used {
        return false;
    }
    let opponent = (state.current_player + 1) % 2;
    match state.maybe_get_active(opponent) {
        Some(active) => active.has_tool_attached(),
        None => false,
    }
}

/// The Pokémon is named Arceus or Arceus ex.
pub open spec fn is_arceus(p: PlayedCard) -> bool {
    p.spec_name() == "Arceus"@ || p.spec_name() == "Arceus ex"@
}

/// Cunning Link: once, while you have Arceus or Arceus ex in play.
pub open spec fn spec_can_use_crobat_cunning_link(state: State, card: PlayedCard) -> bool {
    !card.ability_used && any_slot(
        state.in_play_pokemon[state.current_player as int],
        0,
        4,
        |i: int, p: PlayedCard| is_arceus(p),
    )
}

fn can_use_crobat_cunning_link(state: &State, card: &PlayedCard) -> (r: bool)
    requires
        state.wf(),
    ensures
        r == spec_can_use_crobat_cunning_link(*state, *card),
{
    if card.ability_used {
        return false;
    }
    let player = state.current_player;
    let ghost pred = |i: int, p: PlayedCard| is_arceus(p);
    for i in 0..4
        invariant
            player == state.current_player,
            player < 2,
            !card.ability_used,
            pred == (|i: int, p: PlayedCard| is_arceus(p)),
            forall|j: int| 0 <= j < i ==> !#[trigger] slot_satisfies(state.in_play_pokemon[player as int], j, pred),
    {
        if let Some(pokemon) = &state.in_play_pokemon[player][i] {
            let name = pokemon.get_name();
            if str_equal(name.as_str(), "Arceus") || str_equal(name.as_str(), "Arceus ex") {
                proof {
                    assert(slot_satisfies(state.in_play_pokemon[player as int], i as int, pred));
                }
                return true;
            }
        }
    }
    false
}

/// The card is one a deck search for `kind` can find.
pub open spec fn searchable(card: Card, kind: DeckSearchKind) -> bool {
    match kind {
        DeckSearchKind::Pokemon => card is Pokemon,
        DeckSearchKind::Tool => card.spec_is_tool(),
    }
}

/// The current player's deck still holds a card the search can find.
pub open spec fn spec_deck_has_searchable_card(state: State, card_kind: DeckSearchKind) -> bool {
    exists|k: int|
        0 <= k < state.decks[state.current_player as int].cards@.len() && searchable(
            #[trigger] state.decks[state.current_player as int].cards@[k],
            card_kind,
        )
}

fn deck_has_searchable_card(state: &State, card_kind: DeckSearchKind) -> (r: bool)
    requires
        state.wf(),
    ensures
        r == spec_deck_has_searchable_card(*state, card_kind),
{
    let player = state.current_player;
    let cards = &state.decks[player].cards;
    let n = cards.len();
    for k in 0..n
        invariant
            player == state.current_player,
            player < 2,
            cards@ == state.decks[player as int].cards@,
            n == cards@.len(),
            forall|j: int| 0 <= j < k ==> !searchable(#[trigger] cards@[j], card_kind),
    {
        let found = match card_kind {
            DeckSearchKind::Pokemon => matches!(&cards[k], Card::Pokemon(_)),
            DeckSearchKind::Tool => cards[k].is_tool(),
        };
        if found {
            proof {
                assert(searchable(cards@[k as int], card_kind));
            }
            return true;
        }
    }
    false
}

/// Looking at the top card needs a top card: of your deck, or of either deck.
pub open spec fn spec_can_look_at_top_card(state: State, card: PlayedCard, either_player: bool) -> bool {
    !card.ability_used && (state.decks[state.current_player as int].cards@.len() > 0 || (either_player
        && state.decks[opponent_of(state)].cards@.len() > 0))
}

fn can_look_at_top_card(state: &State, card: &PlayedCard, either_player: bool) -> (r: bool)
    requires
        state.wf(),
    ensures
        r == spec_can_look_at_top_card(*state, *card, either_player),
{
    if card.ability_used {
        return false;
    }
    let opponent = (state.current_player + 1) % 2;
    state.decks[state.current_player].cards.len() > 0 || (either_player && state.decks[opponent].cards.len() > 0)
}

/// Slot `i` is not `other` and holds a Pokémon with `energy_type` Energy attached.
pub open spec fn slot_holds_energy_besides(slots: [Option<PlayedCard>; 4], i: int, other: int, energy_type: EnergyType) -> bool {
    match slots[i] {
        Some(p) => i != other && p.attached_energy@.contains(energy_type),
        None => false,
    }
}

/// Energy Plunder: once, while another of your Pokémon holds `energy_type` Energy.
pub open spec fn spec_can_use_move_all_typed_energy_to_self(
    state: State,
    self_idx: int,
    card: PlayedCard,
    energy_type: EnergyType,
) -> bool {
    !card.ability_used && exists|i: int|
        0 <= i < 4 && #[trigger] slot_holds_energy_besides(
            state.in_play_pokemon[state.current_player as int],
            i,
            self_idx,
            energy_type,
        )
}

fn can_use_move_all_typed_energy_to_self(
    state: &State,
    self_idx: usize,
    card: &PlayedCard,
    energy_type: EnergyType,
) -> (r: bool)
    requires
        state.wf(),
    ensures
        r == spec_can_use_move_all_typed_energy_to_self(*state, self_idx as int, *card, energy_type),
{
    if card.ability_used {
        return false;
    }
    let player = state.current_player;
    for i in 0..4
        invariant
            player == state.current_player,
            player < 2,
            !card.ability_used,
            forall|j: int|
                0 <= j < i ==> !#[trigger] slot_holds_energy_besides(
                    state.in_play_pokemon[player as int],
                    j,
                    self_idx as int,
                    energy_type,
                ),
    {
        if let Some(pokemon) = &state.in_play_pokemon[player][i] {
            if i != self_idx && pokemon.has_energy(energy_type) {
                proof {
                    assert(slot_holds_energy_besides(state.in_play_pokemon[player as int], i as int, self_idx as int, energy_type));
                }
                return true;
            }
        }
    }
    false
}

/// The opponent has a Benched Pokémon to switch in.
pub open spec fn spec_opponent_has_benched_pokemon(state: State) -> bool {
    state.spec_has_bench(opponent_of(state))
}

fn opponent_has_benched_pokemon(state: &State) -> (r: bool)
    requires
        state.wf(),
    ensures
        r == spec_opponent_has_benched_pokemon(*state),
{
    let opponent = (state.current_player + 1) % 2;
    state.has_bench_pokemon(opponent)
}

/// The opponent's Active Pokémon is a Basic.
pub open spec fn spec_opponent_active_is_basic(state: State) -> bool {
    match state.in_play_pokemon[opponent_of(state)][0] {
        Some(active) => active.card.spec_is_basic(),
        None => false,
    }
}

fn opponent_active_is_basic(state: &State) -> (r: bool)
    requires
        state.wf(),
    ensures
        r == spec_opponent_active_is_basic(*state),
{
    let opponent = (state.current_player + 1) % 2;
    match state.maybe_get_active(opponent) {
        Some(active) => active.card.is_basic(),
        None => false,
    }
}

/// Dark Chase: once, while the opponent has a damaged Benched Pokémon.
pub open spec fn spec_can_use_umbreon_dark_chase(state: State, card: PlayedCard) -> bool {
    !card.ability_used && any_slot(
        state.in_play_pokemon[opponent_of(state)],
        1,
        4,
        |i: int, p: PlayedCard| p.spec_is_damaged(),
    )
}

fn can_use_umbreon_dark_chase(state: &State, card: &PlayedCard) -> (r: bool)
    requires
        state.wf(),
    ensures
        r == spec_can_use_umbreon_dark_chase(*state, *card),
{
    if card.ability_used {
        return false;
    }
    let opponent = (state.current_player + 1) % 2;
    let ghost pred = |i: int, p: PlayedCard| p.spec_is_damaged();
    for i in 1..4
        invariant
            opponent == opponent_of(*state),
            opponent < 2,
            !card.ability_used,
            pred == (|i: int, p: PlayedCard| p.spec_is_damaged()),
            forall|j: int| 1 <= j < i ==> !#[trigger] slot_satisfies(state.in_play_pokemon[opponent as int], j, pred),
    {
        if let Some(pokemon) = &state.in_play_pokemon[opponent][i] {
            if pokemon.is_damaged() {
                proof {
                    assert(slot_satisfies(state.in_play_pokemon[opponent as int], i as int, pred));
                }
                return true;
            }
        }
    }
    false
}

/// A Pokémon of type `energy_type` with `energy_type` Energy attached.
pub open spec fn typed_with_typed_energy(p: PlayedCard, energy_type: EnergyType) -> bool {
    p.card.spec_type() == Some(energy_type) && p.attached_energy@.contains(energy_type)
}

/// The current player has a Benched Pokémon of `energy_type` holding `energy_type` Energy.
pub open spec fn spec_has_benched_typed_pokemon_with_typed_energy(state: State, energy_type: EnergyType) -> bool {
    any_slot(
        state.in_play_pokemon[state.current_player as int],
        1,
        4,
        |i: int, p: PlayedCard| typed_with_typed_energy(p, energy_type),
    )
}

fn has_benched_typed_pokemon_with_typed_energy(state: &State, energy_type: EnergyType) -> (r: bool)
    requires
        state.wf(),
    ensures
        r == spec_has_benched_typed_pokemon_with_typed_energy(*state, energy_type),
{
    let player = state.current_player;
    let ghost pred = |i: int, p: PlayedCard| typed_with_typed_energy(p, energy_type);
    for i in 1..4
        invariant
            player == state.current_player,
            player < 2,
            pred == (|i: int, p: PlayedCard| typed_with_typed_energy(p, energy_type)),
            forall|j: int| 1 <= j < i ==> !#[trigger] slot_satisfies(state.in_play_pokemon[player as int], j, pred),
    {
        if let Some(pokemon) = &state.in_play_pokemon[player][i] {
            if pokemon.card.get_type() == Some(energy_type) && pokemon.has_energy(energy_type) {
                proof {
                    assert(slot_satisfies(state.in_play_pokemon[player as int], i as int, pred));
                }
                return true;
            }
        }
    }
    false
}

/// Wash Out: your Active Pokémon is [W] and a Benched [W] Pokémon holds [W] Energy.
pub open spec fn spec_can_use_vaporeon_wash_out(state: State) -> bool {
    match current_active(state) {
        Some(active) => active.card.spec_type() == Some(EnergyType::Water)
            && spec_has_benched_typed_pokemon_with_typed_energy(state, EnergyType::Water),
        None => false,
    }
}

fn can_use_vaporeon_wash_out(state: &State) -> (r: bool)
    requires
        state.wf(),
        current_active(*state) is Some,
    ensures
        r == spec_can_use_vaporeon_wash_out(*state),
{
    let active = state.get_active(state.current_player);
    if active.get_energy_type() != Some(EnergyType::Water) {
        return false;
    }
    has_benched_typed_pokemon_with_typed_energy(state, EnergyType::Water)
}

/// Fragrance Trap: once, while the opponent has a Basic Pokémon on the Bench.
pub open spec fn spec_can_use_victreebel_fragrance_trap(state: State, card: PlayedCard) -> bool {
    !card.ability_used && any_slot(
        state.in_play_pokemon[opponent_of(state)],
        1,
        4,
        |i: int, p: PlayedCard| p.card.spec_is_basic(),
    )
}

fn can_use_victreebel_fragrance_trap(state: &State, card: &PlayedCard) -> (r: bool)
    requires
        state.wf(),
    ensures
        r == spec_can_use_victreebel_fragrance_trap(*state, *card),
{
    if card.ability_used {
        return false;
    }
    let opponent = (state.current_player + 1) % 2;
    let ghost pred = |i: int, p: PlayedCard| p.card.spec_is_basic();
    for i in 1..4
        invariant
            opponent == opponent_of(*state),
            opponent < 2,
            !card.ability_used,
            pred == (|i: int, p: PlayedCard| p.card.spec_is_basic()),
            forall|j: int| 1 <= j < i ==> !#[trigger] slot_satisfies(state.in_play_pokemon[opponent as int], j, pred),
    {
        if let Some(pokemon) = &state.in_play_pokemon[opponent][i] {
            if pokemon.card.is_basic() {
                proof {
                    assert(slot_satisfies(state.in_play_pokemon[opponent as int], i as int, pred));
                }
                return true;
            }
        }
    }
    false
}

/// Heal one of your Pokémon: once, under the printing's conditions, while one is damaged.
pub open spec fn spec_can_use_heal_one_your_pokemon(
    state: State,
    card: PlayedCard,
    is_active: bool,
    require_active: bool,
    require_tool_attached: bool,
) -> bool {
    !card.ability_used && (!require_active || is_active) && (!require_tool_attached || card.attached_tools@.len() > 0)
        && any_slot(
        state.in_play_pokemon[state.current_player as int],
        0,
        4,
        |i: int, p: PlayedCard| p.spec_is_damaged(),
    )
}

fn can_use_heal_one_your_pokemon(
    state: &State,
    card: &PlayedCard,
    is_active: bool,
    require_active: bool,
    require_tool_attached: bool,
) -> (r: bool)
    requires
        state.wf(),
    ensures
        r == spec_can_use_heal_one_your_pokemon(*state, *card, is_active, require_active, require_tool_attached),
{
    if card.ability_used || (require_active && !is_active) || (require_tool_attached && !card.has_tool_attached()) {
        return false;
    }
    let player = state.current_player;
    let ghost pred = |i: int, p: PlayedCard| p.spec_is_damaged();
    for i in 0..4
        invariant
            player == state.current_player,
            player < 2,
            !card.ability_used && (!require_active || is_active) && (!require_tool_attached
                || card.attached_tools@.len() > 0),
            pred == (|i: int, p: PlayedCard| p.spec_is_damaged()),
            forall|j: int| 0 <= j < i ==> !#[trigger] slot_satisfies(state.in_play_pokemon[player as int], j, pred),
    {
        if let Some(pokemon) = &state.in_play_pokemon[player][i] {
            if pokemon.is_damaged() {
                proof {
                    assert(slot_satisfies(state.in_play_pokemon[player as int], i as int, pred));
                }
                return true;
            }
        }
    }
    false
}

/// The mechanic's gate reads the current player's Active Pokémon, which must then be in play.
pub open spec fn mechanic_check_reads_active(state: State, mechanic: AbilityMechanic, card: PlayedCard) -> bool {
    match mechanic {
        AbilityMechanic::SwitchActiveTypedWithBench { .. } => !card.ability_used,
        AbilityMechanic::SwitchActiveUltraBeastWithBench => !card.ability_used,
        AbilityMechanic::MoveTypedEnergyFromBenchToActive { .. } => true,
        AbilityMechanic::AttachEnergyFromZoneToActiveTypedPokemon { .. } => !card.ability_used
            && state.current_energy is Some && !crate::state::active_zone_attach_blocked(
            state.turn_effects@,
            state.turn_count,
        ),
        _ => false,
    }
}

/// Whether the Ability with `mechanic` of the current player's Pokémon `card`, in slot
/// `in_play_index`, may be used now. Passive and triggered Abilities are never used this way.
pub open spec fn spec_can_use_ability_by_mechanic(
    state: State,
    mechanic: AbilityMechanic,
    in_play_index: int,
    card: PlayedCard,
) -> bool {
    let is_active = in_play_index == 0;
    let used = card.ability_used;
    match mechanic {
        AbilityMechanic::VictreebelFragranceTrap => is_active && spec_can_use_victreebel_fragrance_trap(state, card),
        AbilityMechanic::HealAllYourPokemon { .. } => !used,
        AbilityMechanic::HealOneYourPokemon { require_active, require_tool_attached, .. } => spec_can_use_heal_one_your_pokemon(
            state,
            card,
            is_active,
            require_active,
            require_tool_attached,
        ),
        AbilityMechanic::HealOneYourPokemonExAndDiscardRandomEnergy { .. } => spec_can_use_heal_one_your_pokemon_ex_and_discard_random_energy(
            state,
            card,
        ),
        AbilityMechanic::DamageOneOpponentPokemon { .. } => !used,
        AbilityMechanic::DamageOpponentActiveIfArceusInPlay { .. } => spec_can_use_crobat_cunning_link(state, card),
        AbilityMechanic::SwitchDamagedOpponentBenchToActive => is_active && spec_can_use_umbreon_dark_chase(state, card),
        AbilityMechanic::CoinFlipSwitchInOpponentBenchToActive => !used && spec_opponent_has_benched_pokemon(state),
        AbilityMechanic::SwitchThisBenchWithActive => !is_active && !used,
        AbilityMechanic::SwitchActiveTypedWithBench { energy_type } => spec_can_use_switch_active_typed_with_bench(
            state,
            card,
            energy_type,
        ),
        AbilityMechanic::SwitchActiveUltraBeastWithBench => spec_can_use_celesteela_ultra_thrusters(state, card),
        AbilityMechanic::MoveTypedEnergyFromBenchToActive { .. } => spec_can_use_vaporeon_wash_out(state),
        AbilityMechanic::MoveAllTypedEnergyFromBenchToActive { energy_type } => !used
            && spec_has_benched_typed_pokemon_with_typed_energy(state, energy_type),
        AbilityMechanic::MoveAllTypedEnergyFromYourPokemonToSelf { energy_type } => spec_can_use_move_all_typed_energy_to_self(
            state,
            in_play_index,
            card,
            energy_type,
        ),
        AbilityMechanic::AttachEnergyFromZoneToActiveTypedPokemon { energy_type } => spec_can_use_attach_energy_from_zone_to_active_typed(
            state,
            card,
            energy_type,
        ),
        AbilityMechanic::AttachEnergyFromZoneToYourTypedPokemon { .. } => is_active && !used,
        AbilityMechanic::AttachEnergyFromZoneToSelf { .. } => !used,
        AbilityMechanic::AttachEnergyFromZoneToSelfAndEndTurn { .. } => !used,
        AbilityMechanic::AttachEnergyFromZoneToSelfAndDamage { .. } => !used,
        AbilityMechanic::AttachEnergyFromDiscardToSelfAndDamage { energy_type, .. } => !used
            && state.discard_energies[state.current_player as int]@.contains(energy_type),
        AbilityMechanic::SearchRandomCardFromDeck { card_kind } => !used && spec_deck_has_searchable_card(state, card_kind),
        AbilityMechanic::LookAtTopCardOfDeck { either_player } => spec_can_look_at_top_card(state, card, either_player),
        AbilityMechanic::MoveDamageFromOneYourPokemonToThisPokemon => spec_can_use_dusknoir_shadow_void(state, in_play_index),
        AbilityMechanic::DiscardOpponentActiveToolsAndDiscardSelf => spec_can_use_dismantling_keys(state, in_play_index, card),
        AbilityMechanic::DiscardTopCardOpponentDeck => !used && state.decks[opponent_of(state)].cards@.len() > 0,
        AbilityMechanic::CoinFlipStatusOpponentActive { .. } => !used,
        AbilityMechanic::DiscardEnergyToIncreaseTypeDamage { discard_energy, .. } => !used
            && card.attached_energy@.contains(discard_energy),
        AbilityMechanic::PoisonOpponentActive => is_active && !used,
        AbilityMechanic::ConfuseOpponentActive => is_active && !used,
        AbilityMechanic::BurnOpponentActive => !used,
        AbilityMechanic::RemoveRandomSpecialConditionFromActive => spec_can_use_remove_random_special_condition_from_active(
            state,
            card,
        ),
        AbilityMechanic::HealActiveYourPokemon { .. } => !used,
        AbilityMechanic::SwitchOutOpponentActiveToBench { require_active, require_opponent_active_basic } => !used && (
        !require_active || is_active) && spec_opponent_has_benched_pokemon(state) && (!require_opponent_active_basic
            || spec_opponent_active_is_basic(state)),
        AbilityMechanic::DiscardFromHandToDrawCard => !used && state.hands[state.current_player as int]@.len() > 0,
        AbilityMechanic::MoveFixedDamageFromActiveToThisBenched { amount } => spec_can_use_accept_pain(
            state,
            in_play_index,
            card,
            amount,
        ),
        AbilityMechanic::CopyRandomOpponentHandSupporter => is_active && !used,
        AbilityMechanic::RevealRandomOpponentHandCard => !used,
        _ => false,
    }
}

fn can_use_ability_by_mechanic(state: &State, mechanic: &AbilityMechanic, in_play_index: usize, card: &PlayedCard) -> (r: bool)
    requires
        state.wf(),
        mechanic_check_reads_active(*state, *mechanic, *card) ==> current_active(*state) is Some,
    ensures
        r == spec_can_use_ability_by_mechanic(*state, *mechanic, in_play_index as int, *card),
{
    let is_active = in_play_index == 0;
    let used = card.ability_used;
    let player = state.current_player;
    match mechanic {
        AbilityMechanic::VictreebelFragranceTrap => is_active && can_use_victreebel_fragrance_trap(state, card),
        AbilityMechanic::HealAllYourPokemon { .. } => !used,
        AbilityMechanic::HealOneYourPokemon { require_active, require_tool_attached, .. } => can_use_heal_one_your_pokemon(
            state,
            card,
            is_active,
            *require_active,
            *require_tool_attached,
        ),
        AbilityMechanic::HealOneYourPokemonExAndDiscardRandomEnergy { .. } => can_use_heal_one_your_pokemon_ex_and_discard_random_energy(
            state,
            card,
        ),
        AbilityMechanic::DamageOneOpponentPokemon { .. } => !used,
        AbilityMechanic::DamageOpponentActiveIfArceusInPlay { .. } => can_use_crobat_cunning_link(state, card),
        AbilityMechanic::SwitchDamagedOpponentBenchToActive => is_active && can_use_umbreon_dark_chase(state, card),
        AbilityMechanic::CoinFlipSwitchInOpponentBenchToActive => !used && opponent_has_benched_pokemon(state),
        AbilityMechanic::SwitchThisBenchWithActive => !is_active && !used,
        AbilityMechanic::SwitchActiveTypedWithBench { energy_type } => can_use_switch_active_typed_with_bench(
            state,
            card,
            *energy_type,
        ),
        AbilityMechanic::SwitchActiveUltraBeastWithBench => can_use_celesteela_ultra_thrusters(state, card),
        AbilityMechanic::MoveTypedEnergyFromBenchToActive { .. } => can_use_vaporeon_wash_out(state),
        AbilityMechanic::MoveAllTypedEnergyFromBenchToActive { energy_type } => !used
            && has_benched_typed_pokemon_with_typed_energy(state, *energy_type),
        AbilityMechanic::MoveAllTypedEnergyFromYourPokemonToSelf { energy_type } => can_use_move_all_typed_energy_to_self(
            state,
            in_play_index,
            card,
            *energy_type,
        ),
        AbilityMechanic::AttachEnergyFromZoneToActiveTypedPokemon { energy_type } => can_use_attach_energy_from_zone_to_active_typed(
            state,
            card,
            *energy_type,
        ),
        AbilityMechanic::AttachEnergyFromZoneToYourTypedPokemon { .. } => is_active && !used,
        AbilityMechanic::AttachEnergyFromZoneToSelf { .. } => !used,
        AbilityMechanic::AttachEnergyFromZoneToSelfAndEndTurn { .. } => !used,
        AbilityMechanic::AttachEnergyFromZoneToSelfAndDamage { .. } => !used,
        AbilityMechanic::AttachEnergyFromDiscardToSelfAndDamage { energy_type, .. } => !used
            && crate::models::energy_list_contains(state.discard_energies[player].as_slice(), *energy_type),
        AbilityMechanic::SearchRandomCardFromDeck { card_kind } => !used && deck_has_searchable_card(state, *card_kind),
        AbilityMechanic::LookAtTopCardOfDeck { either_player } => can_look_at_top_card(state, card, *either_player),
        AbilityMechanic::MoveDamageFromOneYourPokemonToThisPokemon => can_use_dusknoir_shadow_void(state, in_play_index),
        AbilityMechanic::DiscardOpponentActiveToolsAndDiscardSelf => can_use_dismantling_keys(state, in_play_index, card),
        AbilityMechanic::DiscardTopCardOpponentDeck => !used && state.decks[(player + 1) % 2].cards.len() > 0,
        AbilityMechanic::CoinFlipStatusOpponentActive { .. } => !used,
        AbilityMechanic::DiscardEnergyToIncreaseTypeDamage { discard_energy, .. } => !used && card.has_energy(
            *discard_energy,
        ),
        AbilityMechanic::PoisonOpponentActive => is_active && !used,
        AbilityMechanic::ConfuseOpponentActive => is_active && !used,
        AbilityMechanic::BurnOpponentActive => !used,
        AbilityMechanic::RemoveRandomSpecialConditionFromActive => can_use_remove_random_special_condition_from_active(
            state,
            card,
        ),
        AbilityMechanic::HealActiveYourPokemon { .. } => !used,
        AbilityMechanic::SwitchOutOpponentActiveToBench { require_active, require_opponent_active_basic } => !used && (
        !*require_active || is_active) && opponent_has_benched_pokemon(state) && (!*require_opponent_active_basic
            || opponent_active_is_basic(state)),
        AbilityMechanic::DiscardFromHandToDrawCard => !used && state.hands[player].len() > 0,
        AbilityMechanic::MoveFixedDamageFromActiveToThisBenched { amount } => can_use_accept_pain(
            state,
            in_play_index,
            card,
            *amount,
        ),
        AbilityMechanic::CopyRandomOpponentHandSupporter => is_active && !used,
        AbilityMechanic::RevealRandomOpponentHandCard => !used,
        // Passive and triggered Abilities are never used from the move list.
        _ => false,
    }
}

/// The Ability of `card` can be judged: it has none, it is switched off by Basic suppression, or
/// it is implemented and its gate has the Active Pokémon it reads.
pub open spec fn ability_gate_defined(state: State, card: PlayedCard) -> bool {
    match card.card.spec_ability() {
        None => true,
        Some(a) => (spec_basic_abilities_suppressed(state) && card.card.spec_is_basic()) || match spec_ability_mechanic_from_effect(
            a.effect@,
        ) {
            Some(m) => mechanic_check_reads_active(state, m, card) ==> current_active(state) is Some,
            None => false,
        },
    }
}

/// Whether the current player may use the Ability of `card`, in slot `in_play_index`, now.
pub open spec fn spec_can_use_ability(state: State, in_play_index: int, card: PlayedCard) -> bool {
    match card.card.spec_ability() {
        None => false,
        Some(a) => if spec_basic_abilities_suppressed(state) && card.card.spec_is_basic() {
            false
        } else {
            match spec_ability_mechanic_from_effect(a.effect@) {
                Some(m) => spec_can_use_ability_by_mechanic(state, m, in_play_index, card),
                None => false,
            }
        },
    }
}

fn can_use_ability(state: &State, in_play_index: usize, card: &PlayedCard) -> (r: bool)
    requires
        state.wf(),
        ability_gate_defined(*state, *card),
    ensures
        r == spec_can_use_ability(*state, in_play_index as int, *card),
{
    let ability = match card.card.get_ability() {
        Some(a) => a,
        None => {
            return false;
        },
    };
    // Power of Alchemy: a Basic Pokémon has no Abilities while it is in force. An Ability that is
    // merely unimplemented is ruled out by the precondition instead.
    if basic_abilities_suppressed(state) && card.card.is_basic() {
        return false;
    }
    match ability_mechanic_from_effect(ability.effect.as_str()) {
        Some(mechanic) => can_use_ability_by_mechanic(state, &mechanic, in_play_index, card),
        None => false,
    }
}

/// The move list of Ability actions over slots `0..hi` of the current player: discarding each
/// Fossil, and using each Ability that may be used now.
pub open spec fn ability_actions_upto(state: State, hi: int) -> Seq<SimpleAction>
    decreases hi,
{
    if hi <= 0 {
        Seq::empty()
    } else {
        let prev = ability_actions_upto(state, hi - 1);
        match state.in_play_pokemon[state.current_player as int][hi - 1] {
            Some(card) => if card.card.spec_is_fossil() {
                prev.push(SimpleAction::DiscardFossil { in_play_idx: (hi - 1) as usize })
            } else if spec_can_use_ability(state, hi - 1, card) {
                prev.push(SimpleAction::UseAbility { in_play_idx: (hi - 1) as usize })
            } else {
                prev
            },
            None => prev,
        }
    }
}

/// Every Pokémon of the current player that is not a Fossil has an Ability that can be judged.
pub open spec fn abilities_judgeable(state: State) -> bool {
    forall|i: int|
        0 <= i < 4 ==> match #[trigger] state.in_play_pokemon[state.current_player as int][i] {
            Some(card) => card.card.spec_is_fossil() || ability_gate_defined(state, card),
            None => true,
        }
}

/// The Ability actions of the current player, by slot from the Active Spot.
pub fn generate_ability_actions(state: &State) -> (r: Vec<SimpleAction>)
    requires
        state.wf(),
        abilities_judgeable(*state),
    ensures
        r@ == ability_actions_upto(*state, 4),
{
    let current_player = state.current_player;
    let mut actions: Vec<SimpleAction> = Vec::new();
    for in_play_idx in 0..4
        invariant
            current_player == state.current_player,
            state.wf(),
            abilities_judgeable(*state),
            actions@ == ability_actions_upto(*state, in_play_idx as int),
    {
        if let Some(card) = &state.in_play_pokemon[current_player][in_play_idx] {
            assert(match state.in_play_pokemon[state.current_player as int][in_play_idx as int] {
                Some(card) => card.card.spec_is_fossil() || ability_gate_defined(*state, card),
                None => true,
            });
            if card.card.is_fossil() {
                actions.push(SimpleAction::DiscardFossil { in_play_idx });
            } else if can_use_ability(state, in_play_idx, card) {
                actions.push(SimpleAction::UseAbility { in_play_idx });
            }
        }
    }
    actions
}

/// Slot `i` of the current player is occupied, by a Fossil exactly when `fossil`.
pub open spec fn slot_holds_fossil(state: State, i: int, fossil: bool) -> bool {
    match state.in_play_pokemon[state.current_player as int][i] {
        Some(p) => p.card.spec_is_fossil() == fossil,
        None => false,
    }
}

/// "Once during your turn": after its Ability was used, a Pokémon can use it again only when
/// the Ability may be used as often as you like (Wash Out, Shadow Void).
pub proof fn lemma_used_ability_is_spent(state: State, mechanic: AbilityMechanic, in_play_index: int, card: PlayedCard)
    requires
        card.ability_used,
        !(mechanic is MoveTypedEnergyFromBenchToActive),
        !(mechanic is MoveDamageFromOneYourPokemonToThisPokemon),
    ensures
        !spec_can_use_ability_by_mechanic(state, mechanic, in_play_index, card),
{
}

/// The opponent's slot `i` holds a Basic Pokémon.
pub open spec fn opponent_slot_holds_basic(state: State, i: int) -> bool {
    state.in_play_pokemon[opponent_of(state)][i] matches Some(p) && p.card.spec_is_basic()
}

/// Fragrance Trap switches in one of the opponent's Benched Basic Pokémon, so Victreebel may use
/// it exactly when it is the Active Pokémon, has not used it this turn, and the opponent has a
/// Basic Pokémon on the Bench (slots 1 to 3); with only evolved Pokémon there, it is not offered.
pub proof fn lemma_fragrance_trap_needs_a_benched_basic(state: State, in_play_index: int, card: PlayedCard)
    ensures
        spec_can_use_ability_by_mechanic(state, AbilityMechanic::VictreebelFragranceTrap, in_play_index, card) <==> (
        in_play_index == 0 && !card.ability_used && exists|i: int|
            1 <= i < 4 && #[trigger] opponent_slot_holds_basic(state, i)),
{
    let pred = |i: int, p: PlayedCard| p.card.spec_is_basic();
    let slots = state.in_play_pokemon[opponent_of(state)];
    assert forall|i: int| #[trigger] opponent_slot_holds_basic(state, i) == slot_satisfies(slots, i, pred) by {}
    if exists|i: int| 1 <= i < 4 && #[trigger] opponent_slot_holds_basic(state, i) {
        let i = choose|i: int| 1 <= i < 4 && #[trigger] opponent_slot_holds_basic(state, i);
        assert(slot_satisfies(slots, i, pred));
    }
    if any_slot(slots, 1, 4, pred) {
        let i = choose|i: int| 1 <= i < 4 && #[trigger] slot_satisfies(slots, i, pred);
        assert(opponent_slot_holds_basic(state, i));
    }
}

/// A Fossil in play is only ever offered for discard, and every action offered is the current
/// player's Fossil discard or Ability use for one of their occupied slots.
pub proof fn lemma_ability_actions_target_occupied_slots(state: State, hi: int)
    requires
        0 <= hi <= 4,
    ensures
        forall|k: int|
            0 <= k < ability_actions_upto(state, hi).len() ==> match #[trigger] ability_actions_upto(state, hi)[k] {
                SimpleAction::DiscardFossil { in_play_idx } => in_play_idx < hi && slot_holds_fossil(
                    state,
                    in_play_idx as int,
                    true,
                ),
                SimpleAction::UseAbility { in_play_idx } => in_play_idx < hi && slot_holds_fossil(
                    state,
                    in_play_idx as int,
                    false,
                ),
                _ => false,
            },
    decreases hi,
{
    if hi > 0 {
        lemma_ability_actions_target_occupied_slots(state, hi - 1);
    }
}

} // verus!
