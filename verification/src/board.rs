//! Board queries shared by several rules: attached Tools, a Pokémon's types, names in play and
//! the Stadium in play.
use vstd::prelude::*;

use crate::abilities::AbilityMechanic;
use crate::ability_lookup::{get_in_play_ability_mechanic, spec_get_in_play_ability_mechanic};
use crate::card_ids::CardId;
use crate::models::{Card, EnergyType, PlayedCard, TrainerType};
use crate::state::State;
use crate::text::str_equal;

verus! {

/// How many of `cards` carry the printed id `code`.
pub open spec fn count_cards_with_id(cards: Seq<Card>, code: Seq<char>) -> nat
    decreases cards.len(),
{
    if cards.len() == 0 {
        0
    } else {
        count_cards_with_id(cards.drop_last(), code) + if cards.last().spec_id() == code {
            1nat
        } else {
            0nat
        }
    }
}

/// Number of copies of the Tool `id` attached to `card`.
pub open spec fn spec_tool_count(card: PlayedCard, id: CardId) -> nat {
    count_cards_with_id(card.attached_tools@, id.spec_code())
}

pub fn tool_count(card: &PlayedCard, id: CardId) -> (r: usize)
    ensures
        r == spec_tool_count(*card, id),
{
    let code = id.code();
    let mut count: usize = 0;
    let n = card.attached_tools.len();
    for i in 0..n
        invariant
            n == card.attached_tools@.len(),
            code@ == id.spec_code(),
            count == count_cards_with_id(card.attached_tools@.take(i as int), code@),
            count <= i,
    {
        proof {
            assert(card.attached_tools@.take(i + 1).drop_last() =~= card.attached_tools@.take(i as int));
        }
        if card.attached_tools[i].has_id(code) {
            count += 1;
        }
    }
    proof {
        assert(card.attached_tools@.take(n as int) =~= card.attached_tools@);
    }
    count
}

pub fn has_tool(card: &PlayedCard, id: CardId) -> (r: bool)
    ensures
        r == (spec_tool_count(*card, id) > 0),
{
    tool_count(card, id) > 0
}

/// The types of a Pokémon in play: both types of a Dual Type Ability, otherwise its printed type.
pub open spec fn spec_pokemon_types(state: State, card: PlayedCard) -> Seq<EnergyType> {
    match spec_get_in_play_ability_mechanic(state, card) {
        Some(AbilityMechanic::DualType { types }) => seq![types[0], types[1]],
        _ => match card.card.spec_type() {
            Some(t) => seq![t],
            None => Seq::empty(),
        },
    }
}

pub fn pokemon_energy_types(state: &State, card: &PlayedCard) -> (r: Vec<EnergyType>)
    ensures
        r@ == spec_pokemon_types(*state, *card),
{
    match get_in_play_ability_mechanic(state, card) {
        Some(AbilityMechanic::DualType { types }) => {
            let v = vec![types[0], types[1]];
            v
        },
        _ => match card.card.get_type() {
            Some(t) => {
                let v = vec![t];
                v
            },
            None => Vec::new(),
        },
    }
}

pub fn pokemon_is_type(state: &State, card: &PlayedCard, energy_type: EnergyType) -> (r: bool)
    ensures
        r == spec_pokemon_types(*state, *card).contains(energy_type),
{
    let types = pokemon_energy_types(state, card);
    let n = types.len();
    for i in 0..n
        invariant
            n == types@.len(),
            types@ == spec_pokemon_types(*state, *card),
            forall|j: int| 0 <= j < i ==> types@[j] != energy_type,
    {
        if types[i] == energy_type {
            proof {
                assert(types@[i as int] == energy_type);
            }
            return true;
        }
    }
    false
}

/// `player` has a Pokémon in play whose name is one of `names`.
pub open spec fn spec_has_named_pokemon_in_play(state: State, player: int, names: Seq<&'static str>) -> bool {
    exists|i: int, k: int|
        0 <= i < 4 && 0 <= k < names.len() && #[trigger] slot_is_named(state, player, i, names[k]@)
}

/// Slot `i` of `player` holds a Pokémon named `name`.
pub open spec fn slot_is_named(state: State, player: int, i: int, name: Seq<char>) -> bool {
    match state.in_play_pokemon[player][i] {
        Some(p) => p.spec_name() == name,
        None => false,
    }
}

fn name_in(name: &str, names: &[&'static str]) -> (r: bool)
    ensures
        r == exists|k: int| 0 <= k < names@.len() && name@ == (#[trigger] names@[k])@,
{
    let n = names.len();
    for k in 0..n
        invariant
            n == names@.len(),
            forall|j: int| 0 <= j < k ==> name@ != (#[trigger] names@[j])@,
    {
        if str_equal(name, names[k]) {
            return true;
        }
    }
    false
}

pub fn has_named_pokemon_in_play(state: &State, player: usize, names: &[&'static str]) -> (r: bool)
    requires
        player < 2,
    ensures
        r == spec_has_named_pokemon_in_play(*state, player as int, names@),
{
    for i in 0..4
        invariant
            player < 2,
            forall|j: int, k: int|
                0 <= j < i && 0 <= k < names@.len() ==> !#[trigger] slot_is_named(*state, player as int, j, names@[k]@),
    {
        if let Some(pokemon) = &state.in_play_pokemon[player][i] {
            let name = pokemon.get_name();
            if name_in(name.as_str(), names) {
                proof {
                    let k = choose|k: int| 0 <= k < names@.len() && name@ == (#[trigger] names@[k])@;
                    assert(slot_is_named(*state, player as int, i as int, names@[k]@));
                }
                return true;
            }
        }
    }
    false
}

/// The in-play indices of `player`'s Pokémon named `name`, counted over slots `0..hi`.
pub open spec fn count_named_in_play(state: State, player: int, name: Seq<char>, hi: int) -> nat
    decreases hi,
{
    if hi <= 0 {
        0
    } else {
        count_named_in_play(state, player, name, hi - 1) + match state.in_play_pokemon[player][hi - 1] {
            Some(p) => if p.spec_name() == name {
                1nat
            } else {
                0nat
            },
            None => 0nat,
        }
    }
}

/// `player` has at least two Pokémon named `name` in play: the holder and another.
pub open spec fn spec_has_another_pokemon_named_in_play(state: State, player: int, name: Seq<char>) -> bool {
    count_named_in_play(state, player, name, 4) >= 2
}

pub fn has_another_pokemon_named_in_play(state: &State, player: usize, name: &str) -> (r: bool)
    requires
        player < 2,
    ensures
        r == spec_has_another_pokemon_named_in_play(*state, player as int, name@),
{
    let mut count: usize = 0;
    for i in 0..4
        invariant
            player < 2,
            count == count_named_in_play(*state, player as int, name@, i as int),
            count <= i,
    {
        if let Some(pokemon) = &state.in_play_pokemon[player][i] {
            if pokemon.name_is(name) {
                count += 1;
            }
        }
    }
    count >= 2
}

/// Whether the Stadium in play is Peculiar Plaza.
pub open spec fn spec_peculiar_plaza_in_play(state: State) -> bool {
    match state.active_stadium {
        Some(Card::Trainer(t)) => t.trainer_card_type == TrainerType::Stadium && t.name@ == "Peculiar Plaza"@,
        _ => false,
    }
}

/// Peculiar Plaza: the Retreat Cost of [P] Pokémon is 2 less.
pub open spec fn spec_peculiar_plaza_retreat_reduction(state: State, energy_type: EnergyType) -> u8 {
    if spec_peculiar_plaza_in_play(state) && energy_type == EnergyType::Psychic {
        2
    } else {
        0
    }
}

pub fn get_peculiar_plaza_retreat_reduction(state: &State, energy_type: EnergyType) -> (r: u8)
    ensures
        r == spec_peculiar_plaza_retreat_reduction(*state, energy_type),
{
    let plaza = match &state.active_stadium {
        Some(Card::Trainer(t)) => t.trainer_card_type == TrainerType::Stadium && str_equal(t.name.as_str(), "Peculiar Plaza"),
        _ => false,
    };
    if plaza && energy_type == EnergyType::Psychic {
        2
    } else {
        0
    }
}

} // verus!
