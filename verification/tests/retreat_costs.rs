use deckgym::ability_lookup::get_in_play_ability_mechanic;
use deckgym::effects::{CardEffect, TurnEffect};
use deckgym::models::{to_playable_card, Ability, Attack, Card, EnergyType, PlayedCard, PokemonCard, TrainerCard, TrainerType};
use deckgym::retreat::{
    can_retreat, get_board_retreat_cost_for_player, get_retreat_cost, get_retreat_cost_for_player, pay_retreat_cost,
};
use deckgym::state::State;

fn pokemon(id: &str, name: &str, stage: u8, energy_type: EnergyType, retreat: usize, ability: Option<&str>) -> Card {
    Card::Pokemon(PokemonCard {
        id: id.to_string(),
        name: name.to_string(),
        stage,
        evolves_from: None,
        hp: 150,
        energy_type,
        ability: ability.map(|effect| Ability { title: "Ability".to_string(), effect: effect.to_string() }),
        attacks: vec![Attack {
            energy_required: vec![EnergyType::Colorless],
            title: "Tackle".to_string(),
            fixed_damage: 10,
            effect: None,
        }],
        weakness: None,
        retreat_cost: vec![EnergyType::Colorless; retreat],
    })
}

fn blastoise() -> Card {
    Card::Pokemon(PokemonCard {
        id: "A1 055".to_string(),
        name: "Blastoise".to_string(),
        stage: 2,
        evolves_from: Some("Wartortle".to_string()),
        hp: 150,
        energy_type: EnergyType::Water,
        ability: None,
        attacks: vec![Attack {
            energy_required: vec![EnergyType::Water, EnergyType::Water, EnergyType::Colorless],
            title: "Hydro Pump".to_string(),
            fixed_damage: 80,
            effect: Some("If this Pokémon has at least 2 extra [W] Energy attached, this attack does 60 more damage.".to_string()),
        }],
        weakness: Some(EnergyType::Lightning),
        retreat_cost: vec![EnergyType::Colorless, EnergyType::Colorless, EnergyType::Colorless],
    })
}

fn snorlax() -> Card {
    Card::Pokemon(PokemonCard {
        id: "A1 211".to_string(),
        name: "Snorlax".to_string(),
        stage: 0,
        evolves_from: None,
        hp: 150,
        energy_type: EnergyType::Colorless,
        ability: None,
        attacks: vec![Attack {
            energy_required: vec![EnergyType::Colorless, EnergyType::Colorless, EnergyType::Colorless],
            title: "Rollout".to_string(),
            fixed_damage: 70,
            effect: None,
        }],
        weakness: Some(EnergyType::Fighting),
        retreat_cost: vec![EnergyType::Colorless; 4],
    })
}

fn tool(id: &str, name: &str, effect: &str) -> Card {
    Card::Trainer(TrainerCard {
        id: id.to_string(),
        name: name.to_string(),
        effect: effect.to_string(),
        trainer_card_type: TrainerType::Tool,
    })
}

fn inflatable_boat() -> Card {
    tool("A4a 067", "Inflatable Boat", "The Retreat Cost of the [W] Pokémon this card is attached to is 1 less.")
}

fn stadium(name: &str) -> Card {
    Card::Trainer(TrainerCard {
        id: "B1 000".to_string(),
        name: name.to_string(),
        effect: "Stadium".to_string(),
        trainer_card_type: TrainerType::Stadium,
    })
}

#[test]
fn test_retreat_costs() {
    let state = State::default();
    let card = blastoise();
    let playable_card = to_playable_card(&card, false);
    let retreat_cost = get_retreat_cost(&state, &playable_card);
    assert_eq!(
        retreat_cost,
        vec![EnergyType::Colorless, EnergyType::Colorless, EnergyType::Colorless]
    );
}

#[test]
fn test_retreat_costs_with_xspeed() {
    let mut state = State::default();
    state.add_turn_effect(TurnEffect::ReducedRetreatCost { amount: 1 }, 0);
    let card = blastoise();
    let playable_card = to_playable_card(&card, false);
    let retreat_cost = get_retreat_cost(&state, &playable_card);
    assert_eq!(retreat_cost, vec![EnergyType::Colorless, EnergyType::Colorless]);
}

#[test]
fn test_retreat_costs_with_two_xspeed_and_two_leafs() {
    let mut state = State::default();
    state.add_turn_effect(TurnEffect::ReducedRetreatCost { amount: 1 }, 0);
    state.add_turn_effect(TurnEffect::ReducedRetreatCost { amount: 1 }, 0);
    state.add_turn_effect(TurnEffect::ReducedRetreatCost { amount: 2 }, 0);
    let card = snorlax();
    let playable_card = to_playable_card(&card, false);
    let retreat_cost = get_retreat_cost(&state, &playable_card);
    assert_eq!(retreat_cost, vec![]);
}

#[test]
fn test_retreat_costs_with_inflatable_boat() {
    let state = State::default();
    let card = blastoise();
    let mut playable_card = to_playable_card(&card, false);
    playable_card.attached_tools = vec![inflatable_boat()];
    let retreat_cost = get_retreat_cost(&state, &playable_card);
    assert_eq!(retreat_cost, vec![EnergyType::Colorless, EnergyType::Colorless]);
}

#[test]
fn inflatable_boat_does_nothing_for_a_non_water_pokemon() {
    let state = State::default();
    let mut snorlax = to_playable_card(&snorlax(), false);
    snorlax.attached_tools = vec![inflatable_boat()];
    assert_eq!(get_retreat_cost(&state, &snorlax).len(), 4);
}

#[test]
fn discounts_of_an_earlier_turn_do_not_apply() {
    let mut state = State::default();
    state.add_turn_effect(TurnEffect::ReducedRetreatCost { amount: 2 }, 0);
    state.turn_count = 1;
    let card = to_playable_card(&blastoise(), false);
    assert_eq!(get_retreat_cost(&state, &card).len(), 3);
}

#[test]
fn board_cost_leaves_out_this_turns_discount() {
    let mut state = State::default();
    state.add_turn_effect(TurnEffect::ReducedRetreatCost { amount: 1 }, 0);
    let card = to_playable_card(&blastoise(), false);
    assert_eq!(get_retreat_cost_for_player(&state, 0, &card).len(), 2);
    assert_eq!(get_board_retreat_cost_for_player(&state, 0, &card).len(), 3);
    // The player not taking the turn never gets the discount.
    assert_eq!(get_retreat_cost_for_player(&state, 1, &card).len(), 3);
}

#[test]
fn increased_retreat_cost_and_opponent_trap_add_colorless() {
    let mut state = State::default();
    let mut card = to_playable_card(&blastoise(), false);
    card.effects.push((CardEffect::IncreasedRetreatCost { amount: 1 }, 1));
    assert_eq!(get_retreat_cost(&state, &card).len(), 4);
    let ariados = pokemon("A3a 999", "Ariados", 1, EnergyType::Grass, 1, Some("Your opponent's Active Pokémon's Retreat Cost is 1 more."));
    state.in_play_pokemon[1][0] = Some(to_playable_card(&ariados, false));
    assert_eq!(get_retreat_cost(&state, &card).len(), 5);
}

#[test]
fn peculiar_plaza_reduces_psychic_pokemon_only() {
    let mut state = State::default();
    state.active_stadium = Some(stadium("Peculiar Plaza"));
    let psychic = to_playable_card(&pokemon("A1 100", "Mewtwo", 0, EnergyType::Psychic, 2, None), false);
    assert_eq!(get_retreat_cost(&state, &psychic), vec![]);
    let water = to_playable_card(&blastoise(), false);
    assert_eq!(get_retreat_cost(&state, &water).len(), 3);
}

#[test]
fn sky_support_reduces_only_a_basic_active() {
    let mut state = State::default();
    let shaymin = pokemon("A2a 010", "Shaymin", 0, EnergyType::Grass, 1, Some("As long as this Pokémon is on your Bench, your Active Basic Pokémon's Retreat Cost is 1 less."));
    state.in_play_pokemon[0][1] = Some(to_playable_card(&shaymin, false));
    let basic = to_playable_card(&snorlax(), false);
    assert_eq!(get_retreat_cost(&state, &basic).len(), 3);
    let stage2 = to_playable_card(&blastoise(), false);
    assert_eq!(get_retreat_cost(&state, &stage2).len(), 3);
}

#[test]
fn energy_attached_removes_the_cost_of_a_holder_with_that_ability() {
    let state = State::default();
    let card = pokemon("A1 200", "Flier", 0, EnergyType::Colorless, 2, Some("If this Pokémon has any Energy attached, it has no Retreat Cost."));
    let mut played = to_playable_card(&card, false);
    assert_eq!(get_retreat_cost(&state, &played).len(), 2);
    played.attached_energy.push(EnergyType::Colorless);
    assert_eq!(get_retreat_cost(&state, &played), vec![]);
}

#[test]
fn your_active_no_retreat_cost_from_the_bench() {
    let mut state = State::default();
    let granter = pokemon("A1 201", "Granter", 0, EnergyType::Colorless, 1, Some("Your Active Pokémon has no Retreat Cost."));
    let active = to_playable_card(&blastoise(), false);
    state.in_play_pokemon[0][0] = Some(active.clone());
    state.in_play_pokemon[0][1] = Some(to_playable_card(&granter, false));
    assert!(get_in_play_ability_mechanic(&state, state.in_play_pokemon[0][1].as_ref().unwrap()).is_some());
    assert_eq!(get_retreat_cost(&state, &active), vec![]);
    // The granter must be the owner's: on the opponent's side it does nothing.
    let mut other = State::default();
    other.in_play_pokemon[1][1] = Some(to_playable_card(&granter, false));
    assert_eq!(get_retreat_cost(&other, &active).len(), 3);
}

#[test]
fn can_retreat_needs_an_unused_retreat_and_no_lock() {
    let mut state = State::default();
    state.in_play_pokemon[0][0] = Some(to_playable_card(&blastoise(), false));
    assert!(can_retreat(&state));
    state.has_retreated = true;
    assert!(!can_retreat(&state));
    state.has_retreated = false;
    if let Some(p) = state.in_play_pokemon[0][0].as_mut() {
        p.effects.push((CardEffect::NoRetreat, 1));
    }
    assert!(!can_retreat(&state));
    let fossil = Card::Trainer(TrainerCard {
        id: "A1 216".to_string(),
        name: "Helix Fossil".to_string(),
        effect: "Play this card as if it were a 40-HP Basic [C] Pokémon.".to_string(),
        trainer_card_type: TrainerType::Fossil,
    });
    let fossil_played: PlayedCard = to_playable_card(&fossil, false);
    state.in_play_pokemon[0][0] = Some(fossil_played);
    assert!(!can_retreat(&state));
}

#[test]
fn trainer_cards_have_no_retreat_cost() {
    let state = State::default();
    let card = to_playable_card(&inflatable_boat(), false);
    assert_eq!(get_retreat_cost(&state, &card), vec![]);
}

fn retreating_blastoise(energy: Vec<EnergyType>) -> State {
    let mut state = State::default();
    let mut active = to_playable_card(&blastoise(), false);
    active.attached_energy = energy;
    state.in_play_pokemon[0][0] = Some(active);
    state.in_play_pokemon[0][1] = Some(to_playable_card(&snorlax(), false));
    state
}

#[test]
fn paying_retreat_keeps_grass_and_discards_from_the_end() {
    let mut state = retreating_blastoise(vec![
        EnergyType::Water,
        EnergyType::Grass,
        EnergyType::Fire,
        EnergyType::Water,
        EnergyType::Grass,
    ]);
    pay_retreat_cost(&mut state, 0, false);
    let active = state.in_play_pokemon[0][0].as_ref().unwrap();
    // Grass first: [Grass, Grass, Water, Fire, Water]; three are taken from the end.
    assert_eq!(active.attached_energy, vec![EnergyType::Grass, EnergyType::Grass]);
    assert_eq!(state.discard_energies[0], vec![EnergyType::Water, EnergyType::Fire, EnergyType::Water]);
    assert!(state.has_retreated);
    assert!(state.in_play_pokemon[0][1].is_some());
}

#[test]
fn double_grass_pays_two_per_grass_energy() {
    let mut state = retreating_blastoise(vec![EnergyType::Grass, EnergyType::Water, EnergyType::Grass]);
    pay_retreat_cost(&mut state, 0, true);
    let active = state.in_play_pokemon[0][0].as_ref().unwrap();
    // [Grass, Grass, Water]: the Water pays one, then a Grass pays two.
    assert_eq!(active.attached_energy, vec![EnergyType::Grass]);
    assert_eq!(state.discard_energies[0], vec![EnergyType::Water, EnergyType::Grass]);
}
