use deckgym::actions::{Action, SimpleAction};
use deckgym::deterministic_actions::{apply_deterministic_action, EngineFollowUp};
use deckgym::energy_combinations::generate_energy_combinations;
use deckgym::energy_moves::{
    apply_consolidate_energy_to_pokemon, apply_move_energies, apply_move_energy, apply_move_last_energy,
};
use deckgym::models::{to_playable_card, Attack, Card, EnergyType, PokemonCard};
use deckgym::state::State;

#[test]
fn test_generate_energy_combinations_all_same_type() {
    let energies = vec![EnergyType::Grass, EnergyType::Grass, EnergyType::Grass];
    let combinations = generate_energy_combinations(&energies);
    assert_eq!(combinations.len(), 1);
    let (combo, count) = &combinations[0];
    assert_eq!(combo, &vec![EnergyType::Grass, EnergyType::Grass]);
    assert_eq!(*count, 3);
}

#[test]
fn test_generate_energy_combinations_mixed_types() {
    let energies = vec![EnergyType::Grass, EnergyType::Grass, EnergyType::Fire];
    let combinations = generate_energy_combinations(&energies);
    assert_eq!(combinations.len(), 2);
    let fire_grass = combinations
        .iter()
        .find(|(combo, _)| {
            combo.len() == 2
                && combo.contains(&EnergyType::Fire)
                && combo.contains(&EnergyType::Grass)
                && combo[0] != combo[1]
        })
        .expect("Should have Fire-Grass combo");
    assert_eq!(fire_grass.1, 2);
    let grass_grass = combinations
        .iter()
        .find(|(combo, _)| combo == &vec![EnergyType::Grass, EnergyType::Grass])
        .expect("Should have Grass-Grass combo");
    assert_eq!(grass_grass.1, 1);
}

#[test]
fn test_generate_energy_combinations_all_different() {
    let energies = vec![EnergyType::Grass, EnergyType::Fire, EnergyType::Water];
    let combinations = generate_energy_combinations(&energies);
    assert_eq!(combinations.len(), 3);
    for (_, count) in &combinations {
        assert_eq!(*count, 1);
    }
}

#[test]
fn combinations_are_sorted_in_energy_order_and_count_every_pair() {
    let energies = vec![EnergyType::Water, EnergyType::Grass, EnergyType::Water, EnergyType::Grass];
    let combinations = generate_energy_combinations(&energies);
    let total: usize = combinations.iter().map(|(_, count)| count).sum();
    assert_eq!(total, 6);
    for (combo, _) in &combinations {
        assert!(combo[0] <= combo[1]);
    }
    let mixed = combinations.iter().find(|(c, _)| c == &vec![EnergyType::Grass, EnergyType::Water]).unwrap();
    assert_eq!(mixed.1, 4);
    assert!(generate_energy_combinations(&[EnergyType::Fire]).is_empty());
    assert!(generate_energy_combinations(&[]).is_empty());
}

fn body(name: &str) -> Card {
    Card::Pokemon(PokemonCard {
        id: "A1 001".to_string(),
        name: name.to_string(),
        stage: 0,
        evolves_from: None,
        hp: 70,
        energy_type: EnergyType::Grass,
        ability: None,
        attacks: vec![Attack { energy_required: vec![], title: "Tackle".to_string(), fixed_damage: 10, effect: None }],
        weakness: None,
        retreat_cost: vec![EnergyType::Colorless],
    })
}

fn board() -> State {
    let mut state = State::default();
    let mut source = to_playable_card(&body("Source"), false);
    source.attached_energy = vec![EnergyType::Fire, EnergyType::Water, EnergyType::Fire, EnergyType::Grass];
    state.in_play_pokemon[0][0] = Some(source);
    let mut target = to_playable_card(&body("Target"), false);
    target.attached_energy = vec![EnergyType::Water];
    state.in_play_pokemon[0][1] = Some(target);
    state
}

fn energy(state: &State, slot: usize) -> Vec<EnergyType> {
    state.in_play_pokemon[0][slot].as_ref().unwrap().attached_energy.clone()
}

#[test]
fn moving_typed_energy_swap_removes_from_the_source() {
    let mut state = board();
    assert!(apply_move_energy(&mut state, 0, 0, 1, EnergyType::Fire, 2));
    assert_eq!(energy(&state, 0), vec![EnergyType::Grass, EnergyType::Water]);
    assert_eq!(energy(&state, 1), vec![EnergyType::Water, EnergyType::Fire, EnergyType::Fire]);
}

#[test]
fn moving_more_than_is_attached_moves_what_there_is() {
    let mut state = board();
    assert!(apply_move_energy(&mut state, 0, 0, 1, EnergyType::Grass, 5));
    assert_eq!(energy(&state, 0), vec![EnergyType::Fire, EnergyType::Water, EnergyType::Fire]);
    assert_eq!(energy(&state, 1), vec![EnergyType::Water, EnergyType::Grass]);
    assert!(!apply_move_energy(&mut state, 0, 0, 1, EnergyType::Psychic, 1));
}

#[test]
fn energy_for_an_empty_slot_goes_back_to_the_source() {
    let mut state = board();
    assert!(!apply_move_energy(&mut state, 0, 0, 2, EnergyType::Water, 1));
    assert_eq!(energy(&state, 0), vec![EnergyType::Fire, EnergyType::Grass, EnergyType::Fire, EnergyType::Water]);
    assert!(state.in_play_pokemon[0][2].is_none());
}

#[test]
fn moving_a_mixed_set_skips_what_is_missing() {
    let mut state = board();
    let moved = apply_move_energies(&mut state, 0, 0, 1, &[EnergyType::Water, EnergyType::Psychic, EnergyType::Fire]);
    assert!(moved);
    assert_eq!(energy(&state, 0), vec![EnergyType::Fire, EnergyType::Grass]);
    assert_eq!(energy(&state, 1), vec![EnergyType::Water, EnergyType::Water, EnergyType::Fire]);
}

#[test]
fn moving_the_last_energy() {
    let mut state = board();
    assert!(apply_move_last_energy(&mut state, 0, 0, 1));
    assert_eq!(energy(&state, 0), vec![EnergyType::Fire, EnergyType::Water, EnergyType::Fire]);
    assert_eq!(energy(&state, 1), vec![EnergyType::Water, EnergyType::Grass]);
    let mut empty = State::default();
    assert!(!apply_move_last_energy(&mut empty, 0, 0, 1));
}

#[test]
fn consolidating_takes_listed_energy_in_order_from_each_source() {
    let mut state = board();
    let mut third = to_playable_card(&body("Third"), false);
    third.attached_energy = vec![EnergyType::Lightning, EnergyType::Water];
    state.in_play_pokemon[0][2] = Some(third);
    let transfers = vec![
        (0, vec![EnergyType::Fire, EnergyType::Psychic]),
        (3, vec![EnergyType::Water]),
        (2, vec![EnergyType::Lightning, EnergyType::Water]),
    ];
    let mut before: Vec<EnergyType> = (0..4).flat_map(|i| state.in_play_pokemon[0][i].iter().flat_map(|p| p.attached_energy.clone())).collect();
    assert!(apply_consolidate_energy_to_pokemon(0, &mut state, 1, &transfers));
    let mut after: Vec<EnergyType> = (0..4).flat_map(|i| state.in_play_pokemon[0][i].iter().flat_map(|p| p.attached_energy.clone())).collect();
    before.sort();
    after.sort();
    assert_eq!(before, after, "no Energy is created or lost");
    // The source keeps its order: only the first Fire is gone.
    assert_eq!(energy(&state, 0), vec![EnergyType::Water, EnergyType::Fire, EnergyType::Grass]);
    assert!(energy(&state, 2).is_empty());
    assert_eq!(
        energy(&state, 1),
        vec![EnergyType::Water, EnergyType::Fire, EnergyType::Lightning, EnergyType::Water]
    );
}

#[test]
fn consolidating_onto_an_empty_slot_or_with_nothing_to_take_changes_nothing() {
    let mut state = board();
    assert!(!apply_consolidate_energy_to_pokemon(0, &mut state, 3, &[(0, vec![EnergyType::Fire])]));
    assert_eq!(energy(&state, 0), vec![EnergyType::Fire, EnergyType::Water, EnergyType::Fire, EnergyType::Grass]);
    assert!(!apply_consolidate_energy_to_pokemon(0, &mut state, 1, &[(0, vec![EnergyType::Metal])]));
    assert_eq!(energy(&state, 0), vec![EnergyType::Fire, EnergyType::Water, EnergyType::Fire, EnergyType::Grass]);
    assert_eq!(energy(&state, 1), vec![EnergyType::Water]);
}

#[test]
fn combination_counts_add_up_to_every_way_of_picking_two() {
    let energies = vec![
        EnergyType::Fire,
        EnergyType::Water,
        EnergyType::Fire,
        EnergyType::Metal,
        EnergyType::Water,
    ];
    let combinations = generate_energy_combinations(&energies);
    let total: usize = combinations.iter().map(|(_, count)| count).sum();
    assert_eq!(total, deckgym::outcomes::binomial_coefficient(5, 2));
    assert_eq!(total, 10);
}

#[test]
fn deterministic_energy_moves_report_the_follow_up() {
    let mut state = board();
    let action = Action {
        actor: 0,
        action: SimpleAction::MoveEnergy { from_in_play_idx: 0, to_in_play_idx: 1, energy_type: EnergyType::Fire, amount: 1 },
        is_stack: false,
    };
    assert_eq!(
        apply_deterministic_action(&mut state, &action, false),
        EngineFollowUp::EnergyEntered { player: 0, in_play_idx: 1 }
    );
    assert_eq!(energy(&state, 1), vec![EnergyType::Water, EnergyType::Fire]);
    let nothing_to_move = Action {
        actor: 0,
        action: SimpleAction::MoveEnergy { from_in_play_idx: 0, to_in_play_idx: 1, energy_type: EnergyType::Metal, amount: 1 },
        is_stack: false,
    };
    assert_eq!(apply_deterministic_action(&mut state, &nothing_to_move, false), EngineFollowUp::Nothing);
    // The opponent's "random" Energy is the last one attached.
    let mut state = board();
    let mut swapped = State::default();
    swapped.in_play_pokemon[1] = state.in_play_pokemon[0].clone();
    state = swapped;
    let random = Action {
        actor: 0,
        action: SimpleAction::MoveRandomOpponentEnergyToActive { from_in_play_idx: 1 },
        is_stack: false,
    };
    assert_eq!(
        apply_deterministic_action(&mut state, &random, false),
        EngineFollowUp::EnergyEntered { player: 1, in_play_idx: 0 }
    );
    assert!(state.in_play_pokemon[1][1].as_ref().unwrap().attached_energy.is_empty());
    let noop = Action { actor: 1, action: SimpleAction::Noop, is_stack: false };
    assert_eq!(apply_deterministic_action(&mut state, &noop, false), EngineFollowUp::Nothing);
}
