use deckgym::game_records::{mix_seed, GameOutcome, GameRandomness};
use deckgym::game_results::{completion, ExportedDeck, ExportedMatchup, GameCompletion};
use deckgym::models::{Card, Deck, EnergyType, TrainerCard, TrainerType};

#[test]
fn mix_seed_is_the_splitmix64_finalizer() {
    assert_eq!(mix_seed(0), 0);
    assert_eq!(mix_seed(1), 6238072747940578789);
}

#[test]
fn search_seeds_derive_from_the_game_seed() {
    let randomness = GameRandomness::new(42);
    assert_eq!(randomness.scheme, "pdl-search-v1/rand-0.8-StdRng");
    assert_eq!(randomness.game_seed, 42);
    assert_eq!(randomness.player_search_seeds, [8191826553710419626, 9587209647953209085]);
    let decision = randomness.decision(0, 5);
    assert_eq!(decision.actor, 0);
    assert_eq!(decision.decision_index, 5);
    assert_eq!(decision.search_seed, 6951144395217745715);
    assert_eq!(randomness.decision(1, 0).search_seed, 12263029641859804371);
    assert_eq!(randomness.decision(0, 5), GameRandomness::new(42).decision(0, 5));
}

#[test]
fn completion_compares_outcome_with_final_state() {
    assert_eq!(completion(Some(GameOutcome::Win(1)), Some(GameOutcome::Win(1))), GameCompletion::Completed);
    assert_eq!(completion(Some(GameOutcome::Tie), Some(GameOutcome::Tie)), GameCompletion::Completed);
    assert_eq!(completion(None, None), GameCompletion::Incomplete);
    assert_eq!(completion(Some(GameOutcome::Win(0)), Some(GameOutcome::Win(1))), GameCompletion::Inconsistent);
    assert_eq!(completion(Some(GameOutcome::Win(2)), Some(GameOutcome::Win(2))), GameCompletion::Inconsistent);
    assert_eq!(completion(Some(GameOutcome::Tie), None), GameCompletion::Inconsistent);
    assert_eq!(completion(None, Some(GameOutcome::Win(0))), GameCompletion::Inconsistent);
}

fn deck() -> Deck {
    Deck {
        cards: vec![
            Card::Trainer(TrainerCard {
                id: "PA 001".to_string(),
                name: "Potion".to_string(),
                effect: "Heal 20 damage from 1 of your Pokémon.".to_string(),
                trainer_card_type: TrainerType::Item,
            }),
            Card::Unknown,
        ],
        energy_types: vec![EnergyType::Fire],
    }
}

#[test]
fn exported_decks_keep_card_order() {
    let exported = ExportedDeck::from_deck(&deck());
    assert_eq!(exported.card_ids, vec!["PA 001".to_string(), String::new()]);
    assert_eq!(exported.energy_types, vec![EnergyType::Fire]);
}

#[test]
fn a_matchup_needs_exactly_two_labels() {
    let ok = ExportedMatchup::from_decks(&deck(), &Deck::default(), vec!["e3".to_string(), "r".to_string()]).unwrap();
    assert_eq!(ok.player_codes, ["e3".to_string(), "r".to_string()]);
    assert!(ok.decks[1].card_ids.is_empty());
    let err = ExportedMatchup::from_decks(&deck(), &deck(), vec!["e3".to_string()]).unwrap_err();
    assert_eq!(err, "game result matchup requires exactly 2 player-code labels, received 1");
    let err = ExportedMatchup::from_decks(&deck(), &deck(), vec![String::new(); 13]).unwrap_err();
    assert_eq!(err, "game result matchup requires exactly 2 player-code labels, received 13");
}
