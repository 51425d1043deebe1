use deckgym::actions::{Action, SimpleAction};
use deckgym::deterministic_actions::{apply_deterministic_action, EngineFollowUp};
use deckgym::leaving_play::{apply_return_pokemon_to_hand, apply_shuffle_in_play_pokemon_into_deck};
use deckgym::models::{to_playable_card, Attack, Card, EnergyType, PokemonCard, TrainerCard, TrainerType};
use deckgym::state::State;

fn mon(id: &str, name: &str, stage: u8) -> Card {
    Card::Pokemon(PokemonCard {
        id: id.to_string(),
        name: name.to_string(),
        stage,
        evolves_from: None,
        hp: 90,
        energy_type: EnergyType::Water,
        ability: None,
        attacks: vec![Attack { energy_required: vec![], title: "Splash".to_string(), fixed_damage: 10, effect: None }],
        weakness: None,
        retreat_cost: vec![EnergyType::Colorless],
    })
}

fn tool() -> Card {
    Card::Trainer(TrainerCard {
        id: "A2 147".to_string(),
        name: "Giant Cape".to_string(),
        effect: "The Pokémon this card is attached to gets +20 HP.".to_string(),
        trainer_card_type: TrainerType::Tool,
    })
}

fn evolved_board() -> State {
    let mut state = State::default();
    let mut wartortle = to_playable_card(&mon("A1 054", "Wartortle", 1), false);
    wartortle.cards_behind = vec![mon("A1 053", "Squirtle", 0)];
    wartortle.attached_energy = vec![EnergyType::Water, EnergyType::Fire];
    wartortle.attached_tools = vec![tool()];
    state.in_play_pokemon[1][2] = Some(wartortle);
    state.in_play_pokemon[1][0] = Some(to_playable_card(&mon("A1 001", "Bulbasaur", 0), false));
    state.hands[1] = vec![mon("A1 033", "Charmander", 0)];
    state
}

#[test]
fn returning_to_hand_takes_the_whole_stack() {
    let mut state = evolved_board();
    apply_return_pokemon_to_hand(1, &mut state, 2);
    assert!(state.in_play_pokemon[1][2].is_none());
    assert!(state.in_play_pokemon[1][0].is_some());
    let names: Vec<String> = state.hands[1]
        .iter()
        .map(|c| match c {
            Card::Pokemon(p) => p.name.clone(),
            Card::Trainer(t) => t.name.clone(),
            Card::Unknown => String::new(),
        })
        .collect();
    assert_eq!(names, vec!["Charmander", "Squirtle", "Wartortle"]);
    assert_eq!(state.discard_piles[1], vec![tool()]);
    assert_eq!(state.discard_energies[1], vec![EnergyType::Water, EnergyType::Fire]);
    assert!(state.decks[1].cards.is_empty());
}

#[test]
fn shuffling_into_the_deck_takes_the_whole_stack() {
    let mut state = evolved_board();
    apply_shuffle_in_play_pokemon_into_deck(1, &mut state, 2);
    assert!(state.in_play_pokemon[1][2].is_none());
    assert_eq!(state.decks[1].cards, vec![mon("A1 053", "Squirtle", 0), mon("A1 054", "Wartortle", 1)]);
    assert_eq!(state.hands[1].len(), 1);
    assert_eq!(state.discard_piles[1], vec![tool()]);
    assert_eq!(state.discard_energies[1], vec![EnergyType::Water, EnergyType::Fire]);
}

#[test]
fn leaving_play_through_the_action_asks_for_the_refresh() {
    let mut state = evolved_board();
    let action = Action { actor: 1, action: SimpleAction::ReturnPokemonToHand { in_play_idx: 2 }, is_stack: false };
    assert_eq!(
        apply_deterministic_action(&mut state, &action, false),
        EngineFollowUp::LeftPlay { player: 1, in_play_idx: 2 }
    );
    assert_eq!(state.hands[1].len(), 3);
}
