use deckgym::actions::{Action, SimpleAction};
use deckgym::models::{to_playable_card, Attack, Card, EnergyType, PokemonCard, TrainerCard, TrainerType};
use deckgym::search::{get_active_retreat_cost, is_current_promotion_frame, is_public_information_action, prefer_shorter_win, SearchFlags};
use deckgym::state::State;
use std::cmp::Ordering;

fn act(action: SimpleAction) -> Action {
    Action { actor: 1, action, is_stack: false }
}

fn a_pokemon() -> Card {
    Card::Pokemon(PokemonCard {
        id: "A1 003".to_string(),
        name: "Venusaur".to_string(),
        stage: 2,
        evolves_from: Some("Ivysaur".to_string()),
        hp: 160,
        energy_type: EnergyType::Grass,
        ability: None,
        attacks: vec![Attack {
            energy_required: vec![EnergyType::Grass, EnergyType::Grass, EnergyType::Colorless, EnergyType::Colorless],
            title: "Mega Drain".to_string(),
            fixed_damage: 80,
            effect: Some("Heal 30 damage from this Pokémon.".to_string()),
        }],
        weakness: Some(EnergyType::Fire),
        retreat_cost: vec![EnergyType::Colorless; 3],
    })
}

fn a_trainer() -> TrainerCard {
    TrainerCard {
        id: "A1 219".to_string(),
        name: "Erika".to_string(),
        effect: "Heal 50 damage from 1 of your [G] Pokémon.".to_string(),
        trainer_card_type: TrainerType::Supporter,
    }
}

#[test]
fn test_hand_sourced_actions_are_rejected() {
    let hidden = [
        act(SimpleAction::Play { trainer_card: a_trainer() }),
        act(SimpleAction::Place(a_pokemon(), 1)),
        act(SimpleAction::Evolve { evolution: a_pokemon(), in_play_idx: 0, from_deck: false }),
        act(SimpleAction::Evolve { evolution: a_pokemon(), in_play_idx: 0, from_deck: true }),
        act(SimpleAction::AttachTool { in_play_idx: 0, tool_card: a_pokemon() }),
    ];
    for action in hidden {
        assert!(
            !is_public_information_action(&action),
            "the opponent ply would branch on a HIDDEN-ZONE action: {:?}",
            action.action
        );
    }
}

#[test]
fn test_public_board_actions_are_allowed() {
    let public = [
        act(SimpleAction::EndTurn),
        act(SimpleAction::Retreat(1)),
        act(SimpleAction::Promote { player: 1, in_play_idx: 1 }),
        act(SimpleAction::UseAbility { in_play_idx: 0 }),
        act(SimpleAction::DrawCard { amount: 1 }),
        act(SimpleAction::Attach { attachments: vec![(1, EnergyType::Grass, 0)], is_turn_energy: true }),
    ];
    for action in public {
        assert!(
            is_public_information_action(&action),
            "the opponent ply would refuse a PUBLIC action: {:?}",
            action.action
        );
    }
}

#[test]
fn test_non_zone_energy_attachment_is_rejected() {
    assert!(!is_public_information_action(&act(SimpleAction::Attach {
        attachments: vec![(1, EnergyType::Grass, 0)],
        is_turn_energy: false,
    })));
}

#[test]
fn test_stack_membership_does_not_reveal_private_cards() {
    let mut stacked = act(SimpleAction::Play { trainer_card: a_trainer() });
    assert!(!is_public_information_action(&stacked));
    stacked.is_stack = true;
    assert!(
        !is_public_information_action(&stacked),
        "stack membership cannot grant access to opponent hidden cards"
    );
}

#[test]
fn attacking_and_activating_are_public() {
    let attack = Attack { energy_required: vec![], title: "Tackle".to_string(), fixed_damage: 10, effect: None };
    assert!(is_public_information_action(&act(SimpleAction::Attack(attack))));
    assert!(is_public_information_action(&act(SimpleAction::Activate { player: 0, in_play_idx: 2 })));
}

fn board_with_bench(slots: &[usize]) -> State {
    let mut state = State::default();
    state.turn_count = 3;
    for &slot in slots {
        state.in_play_pokemon[1][slot] = Some(to_playable_card(&a_pokemon(), false));
    }
    state
}

#[test]
fn a_complete_promotion_frame_is_recognised() {
    let state = board_with_bench(&[1, 3]);
    let choices = vec![
        SimpleAction::Promote { player: 1, in_play_idx: 3 },
        SimpleAction::Promote { player: 1, in_play_idx: 1 },
    ];
    assert!(is_current_promotion_frame(&state, 1, &choices));
}

#[test]
fn a_partial_or_forged_promotion_frame_is_not() {
    let state = board_with_bench(&[1, 3]);
    assert!(!is_current_promotion_frame(&state, 1, &[SimpleAction::Promote { player: 1, in_play_idx: 1 }]));
    assert!(!is_current_promotion_frame(
        &state,
        1,
        &[
            SimpleAction::Promote { player: 1, in_play_idx: 1 },
            SimpleAction::Promote { player: 1, in_play_idx: 1 },
        ]
    ));
    assert!(!is_current_promotion_frame(
        &state,
        1,
        &[
            SimpleAction::Promote { player: 1, in_play_idx: 1 },
            SimpleAction::Promote { player: 1, in_play_idx: 2 },
        ]
    ));
    assert!(!is_current_promotion_frame(
        &state,
        1,
        &[
            SimpleAction::Activate { player: 1, in_play_idx: 1 },
            SimpleAction::Promote { player: 1, in_play_idx: 3 },
        ]
    ));
    assert!(!is_current_promotion_frame(&state, 1, &[]));
    let mut setup = board_with_bench(&[1, 3]);
    setup.turn_count = 0;
    assert!(!is_current_promotion_frame(
        &setup,
        1,
        &[
            SimpleAction::Promote { player: 1, in_play_idx: 1 },
            SimpleAction::Promote { player: 1, in_play_idx: 3 },
        ]
    ));
}

#[test]
fn shorter_forced_wins_rank_higher() {
    assert_eq!(prefer_shorter_win(Some(2), Some(5)), Ordering::Greater);
    assert_eq!(prefer_shorter_win(Some(5), Some(2)), Ordering::Less);
    assert_eq!(prefer_shorter_win(Some(3), Some(3)), Ordering::Equal);
    assert_eq!(prefer_shorter_win(Some(9), None), Ordering::Greater);
    assert_eq!(prefer_shorter_win(None, Some(1)), Ordering::Less);
    assert_eq!(prefer_shorter_win(None, None), Ordering::Equal);
}

#[test]
fn search_flags_default_to_the_historical_search() {
    assert_eq!(
        SearchFlags::default(),
        SearchFlags { consistent_horizon: false, soft_opponent: false }
    );
}

#[test]
fn active_retreat_cost_term() {
    let mut state = State::default();
    assert_eq!(get_active_retreat_cost(&state, 0), 0);
    state.in_play_pokemon[0][0] = Some(to_playable_card(&a_pokemon(), false));
    assert_eq!(get_active_retreat_cost(&state, 0), 3);
}
