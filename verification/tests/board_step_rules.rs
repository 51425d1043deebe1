use deckgym::actions::{Action, SimpleAction};
use deckgym::deterministic_actions::{apply_deterministic_action, EngineFollowUp};
use deckgym::models::{to_playable_card, Attack, Card, EnergyType, PokemonCard, StatusCondition, TrainerCard, TrainerType};
use deckgym::state::State;

fn mon(id: &str, name: &str, retreat: usize) -> Card {
    Card::Pokemon(PokemonCard {
        id: id.to_string(),
        name: name.to_string(),
        stage: 0,
        evolves_from: None,
        hp: 100,
        energy_type: EnergyType::Water,
        ability: None,
        attacks: vec![Attack { energy_required: vec![], title: "Splash".to_string(), fixed_damage: 10, effect: None }],
        weakness: None,
        retreat_cost: vec![EnergyType::Colorless; retreat],
    })
}

fn trainer(id: &str, name: &str, kind: TrainerType) -> Card {
    Card::Trainer(TrainerCard {
        id: id.to_string(),
        name: name.to_string(),
        effect: String::new(),
        trainer_card_type: kind,
    })
}

fn act(actor: usize, action: SimpleAction) -> Action {
    Action { actor, action, is_stack: false }
}

/// Player 0: a damaged, Poisoned and Confused Active Pokémon and one Benched Pokémon.
fn board() -> State {
    let mut state = State::default();
    let mut active = to_playable_card(&mon("A1 001", "Lapras", 2), false);
    active.remaining_hp = 40;
    active.poisoned = true;
    active.confused = true;
    active.attached_energy = vec![EnergyType::Water, EnergyType::Grass, EnergyType::Water];
    state.in_play_pokemon[0][0] = Some(active);
    state.in_play_pokemon[0][1] = Some(to_playable_card(&mon("A1 002", "Staryu", 1), false));
    state
}

#[test]
fn healing_is_capped_and_cures_on_request() {
    let mut state = board();
    let heal = act(0, SimpleAction::Heal { in_play_idx: 0, amount: 30, cure_status: false });
    assert_eq!(apply_deterministic_action(&mut state, &heal, false), EngineFollowUp::Nothing);
    let active = state.in_play_pokemon[0][0].as_ref().unwrap();
    assert_eq!(active.remaining_hp, 70);
    assert!(active.poisoned && active.confused);
    let heal_all = act(0, SimpleAction::Heal { in_play_idx: 0, amount: 100, cure_status: true });
    apply_deterministic_action(&mut state, &heal_all, false);
    let active = state.in_play_pokemon[0][0].as_ref().unwrap();
    assert_eq!(active.remaining_hp, 100);
    assert!(!active.poisoned && !active.confused);
}

#[test]
fn heal_block_stops_healing_but_not_curing() {
    let mut state = board();
    state.healing_blocked = true;
    let heal = act(0, SimpleAction::Heal { in_play_idx: 0, amount: 30, cure_status: true });
    apply_deterministic_action(&mut state, &heal, false);
    let active = state.in_play_pokemon[0][0].as_ref().unwrap();
    assert_eq!(active.remaining_hp, 40);
    assert!(!active.poisoned && !active.confused);
}

#[test]
fn whitney_cures_only_the_listed_conditions() {
    let mut state = board();
    let heal = act(
        0,
        SimpleAction::HealAndCureConditions {
            in_play_idx: 0,
            amount: 20,
            conditions: vec![StatusCondition::Confused, StatusCondition::Asleep],
        },
    );
    apply_deterministic_action(&mut state, &heal, false);
    let active = state.in_play_pokemon[0][0].as_ref().unwrap();
    assert_eq!(active.remaining_hp, 60);
    assert!(active.poisoned);
    assert!(!active.confused);
}

#[test]
fn energy_is_discarded_only_when_something_was_healed() {
    let mut state = board();
    let heal = act(
        0,
        SimpleAction::HealAndDiscardEnergy { in_play_idx: 0, heal_amount: 30, discard_energies: vec![EnergyType::Water] },
    );
    apply_deterministic_action(&mut state, &heal, false);
    let active = state.in_play_pokemon[0][0].as_ref().unwrap();
    assert_eq!(active.remaining_hp, 70);
    // The first Water is swap-removed: the last Energy takes its place.
    assert_eq!(active.attached_energy, vec![EnergyType::Water, EnergyType::Grass]);
    assert_eq!(state.discard_energies[0], vec![EnergyType::Water]);

    let mut blocked = board();
    blocked.healing_blocked = true;
    apply_deterministic_action(&mut blocked, &heal, false);
    let active = blocked.in_play_pokemon[0][0].as_ref().unwrap();
    assert_eq!(active.attached_energy.len(), 3);
    assert!(blocked.discard_energies[0].is_empty());
}

#[test]
fn drawing_takes_the_top_cards_until_the_deck_runs_out() {
    let mut state = State::default();
    state.decks[1].cards = vec![mon("A1 010", "Oddish", 1), mon("A1 011", "Gloom", 1), mon("A1 012", "Vileplume", 1)];
    let draw = act(1, SimpleAction::DrawCard { amount: 2 });
    assert_eq!(apply_deterministic_action(&mut state, &draw, false), EngineFollowUp::Nothing);
    assert_eq!(state.hands[1], vec![mon("A1 010", "Oddish", 1), mon("A1 011", "Gloom", 1)]);
    assert_eq!(state.decks[1].cards, vec![mon("A1 012", "Vileplume", 1)]);
    apply_deterministic_action(&mut state, &draw, false);
    assert_eq!(state.hands[1].len(), 3);
    assert!(state.decks[1].cards.is_empty());
    assert!(state.hands[0].is_empty());
}

#[test]
fn field_blower_discards_one_tool_or_the_stadium() {
    let mut state = board();
    let cape = trainer("A2 147", "Giant Cape", TrainerType::Tool);
    let helmet = trainer("A2 148", "Rocky Helmet", TrainerType::Tool);
    state.in_play_pokemon[0][1].as_mut().unwrap().attached_tools = vec![cape.clone(), helmet.clone()];
    let blow = act(1, SimpleAction::DiscardToolFromPokemon { player: 0, in_play_idx: 1, tool_idx: 0 });
    apply_deterministic_action(&mut state, &blow, false);
    assert_eq!(state.in_play_pokemon[0][1].as_ref().unwrap().attached_tools, vec![helmet]);
    assert_eq!(state.discard_piles[0], vec![cape]);
    assert!(state.discard_piles[1].is_empty());

    let stadium = trainer("A2 155", "Mesagoza", TrainerType::Stadium);
    state.active_stadium = Some(stadium.clone());
    state.active_stadium_owner = Some(0);
    apply_deterministic_action(&mut state, &act(1, SimpleAction::DiscardActiveStadium), false);
    assert!(state.active_stadium.is_none());
    assert!(state.active_stadium_owner.is_none());
    assert_eq!(state.discard_piles[0].last(), Some(&stadium));

    // With no recorded owner the Stadium goes to the acting player's discard pile.
    state.active_stadium = Some(stadium.clone());
    apply_deterministic_action(&mut state, &act(1, SimpleAction::DiscardActiveStadium), false);
    assert_eq!(state.discard_piles[1], vec![stadium]);
}

#[test]
fn the_opponents_last_active_energy_is_discarded() {
    let mut state = board();
    let discard = act(1, SimpleAction::DiscardRandomOpponentActiveEnergy);
    apply_deterministic_action(&mut state, &discard, false);
    assert_eq!(
        state.in_play_pokemon[0][0].as_ref().unwrap().attached_energy,
        vec![EnergyType::Water, EnergyType::Grass]
    );
    assert_eq!(state.discard_energies[0], vec![EnergyType::Water]);
}

#[test]
fn a_discarded_fossil_leaves_play() {
    let mut state = State::default();
    let fossil = trainer("A1 216", "Helix Fossil", TrainerType::Fossil);
    state.in_play_pokemon[0][2] = Some(to_playable_card(&fossil, false));
    let discard = act(0, SimpleAction::DiscardFossil { in_play_idx: 2 });
    assert_eq!(
        apply_deterministic_action(&mut state, &discard, false),
        EngineFollowUp::LeftPlay { player: 0, in_play_idx: 2 }
    );
    assert!(state.in_play_pokemon[0][2].is_none());
    assert_eq!(state.discard_piles[0], vec![fossil]);
}

#[test]
fn switching_benches_the_active_without_its_conditions() {
    let mut state = board();
    let switch = act(1, SimpleAction::Activate { player: 0, in_play_idx: 1 });
    assert_eq!(apply_deterministic_action(&mut state, &switch, false), EngineFollowUp::Nothing);
    assert_eq!(state.in_play_pokemon[0][0].as_ref().unwrap().get_name(), "Staryu");
    let benched = state.in_play_pokemon[0][1].as_ref().unwrap();
    assert_eq!(benched.get_name(), "Lapras");
    assert!(!benched.poisoned && !benched.confused);
    assert_eq!(benched.remaining_hp, 40);
}

#[test]
fn a_paid_retreat_pays_then_switches() {
    let mut state = board();
    let retreat = act(0, SimpleAction::Retreat(1));
    assert_eq!(
        apply_deterministic_action(&mut state, &retreat, false),
        EngineFollowUp::Retreated { player: 0 }
    );
    assert!(state.has_retreated);
    assert_eq!(state.in_play_pokemon[0][0].as_ref().unwrap().get_name(), "Staryu");
    let benched = state.in_play_pokemon[0][1].as_ref().unwrap();
    // Grass first: [Grass, Water, Water]; the cost of two is taken from the end.
    assert_eq!(benched.attached_energy, vec![EnergyType::Grass]);
    assert_eq!(state.discard_energies[0], vec![EnergyType::Water, EnergyType::Water]);
}

#[test]
fn wild_swing_discards_the_listed_bench_then_queues_the_damage() {
    let mut state = board();
    state.in_play_pokemon[0][3] = Some(to_playable_card(&mon("A1 003", "Magikarp", 1), false));
    state.in_play_pokemon[1][0] = Some(to_playable_card(&mon("A1 004", "Psyduck", 1), false));
    let swing = act(0, SimpleAction::DiscardOwnBenchedThenDamage { in_play_idxs: vec![1, 3, 2], damage: 90 });
    assert_eq!(apply_deterministic_action(&mut state, &swing, false), EngineFollowUp::Nothing);
    assert!(state.in_play_pokemon[0][1].is_none());
    assert!(state.in_play_pokemon[0][3].is_none());
    assert!(state.in_play_pokemon[0][0].is_some());
    // The highest slot goes first.
    assert_eq!(state.discard_piles[0], vec![mon("A1 003", "Magikarp", 1), mon("A1 002", "Staryu", 1)]);
    assert_eq!(state.move_generation_stack.len(), 1);
    let (actor, choices) = &state.move_generation_stack[0];
    assert_eq!(*actor, 0);
    assert_eq!(
        choices,
        &vec![SimpleAction::ApplyDamage {
            attacking_player: 0,
            attacking_in_play_idx: 0,
            targets: vec![(90, 1, 0)],
            is_from_active_attack: true,
        }]
    );
}

#[test]
fn wild_swing_queues_nothing_without_an_opposing_active() {
    let mut state = board();
    let swing = act(0, SimpleAction::DiscardOwnBenchedThenDamage { in_play_idxs: vec![1], damage: 90 });
    apply_deterministic_action(&mut state, &swing, false);
    assert!(state.in_play_pokemon[0][1].is_none());
    assert!(state.move_generation_stack.is_empty());
}

#[test]
fn moved_damage_leaves_its_source_and_is_dealt_by_the_engine() {
    let mut state = board();
    state.healing_blocked = true;
    let move_all = act(0, SimpleAction::MoveAllDamage { from: 0, to: 1 });
    assert_eq!(
        apply_deterministic_action(&mut state, &move_all, false),
        EngineFollowUp::DealMovedDamage { source_player: 0, source_idx: 0, amount: 60, target_player: 0, target_idx: 1 }
    );
    // Moving damage is not healing: Heal Block does not stop it.
    assert_eq!(state.in_play_pokemon[0][0].as_ref().unwrap().remaining_hp, 100);
    assert_eq!(apply_deterministic_action(&mut state, &move_all, false), EngineFollowUp::Nothing);
}

#[test]
fn acerola_moves_at_most_its_amount_onto_an_active_pokemon() {
    let mut state = board();
    let acerola = act(0, SimpleAction::MoveDamageToOpponentActive { from_in_play_idx: 0, amount: 40 });
    // No opposing Active Pokémon: nothing moves.
    assert_eq!(apply_deterministic_action(&mut state, &acerola, false), EngineFollowUp::Nothing);
    assert_eq!(state.in_play_pokemon[0][0].as_ref().unwrap().remaining_hp, 40);
    state.in_play_pokemon[1][0] = Some(to_playable_card(&mon("A1 004", "Psyduck", 1), false));
    assert_eq!(
        apply_deterministic_action(&mut state, &acerola, false),
        EngineFollowUp::DealMovedDamage { source_player: 0, source_idx: 0, amount: 40, target_player: 1, target_idx: 0 }
    );
    assert_eq!(state.in_play_pokemon[0][0].as_ref().unwrap().remaining_hp, 80);
}

fn eevee_evolution(id: &str, name: &str) -> Card {
    Card::Pokemon(PokemonCard {
        id: id.to_string(),
        name: name.to_string(),
        stage: 1,
        evolves_from: Some("Eevee".to_string()),
        hp: 100,
        energy_type: EnergyType::Water,
        ability: None,
        attacks: vec![],
        weakness: None,
        retreat_cost: vec![EnergyType::Colorless],
    })
}

#[test]
fn eevee_bag_heals_only_eevee_evolutions() {
    let mut state = board();
    let mut vaporeon = to_playable_card(&eevee_evolution("A1 080", "Vaporeon"), false);
    vaporeon.remaining_hp = 50;
    state.in_play_pokemon[0][2] = Some(vaporeon);
    let mut flareon = to_playable_card(&eevee_evolution("A1 041", "Flareon"), false);
    flareon.remaining_hp = 90;
    state.in_play_pokemon[0][3] = Some(flareon);
    let bag = act(0, SimpleAction::HealAllEeveeEvolutions);
    assert_eq!(apply_deterministic_action(&mut state, &bag, false), EngineFollowUp::Nothing);
    assert_eq!(state.in_play_pokemon[0][2].as_ref().unwrap().remaining_hp, 70);
    assert_eq!(state.in_play_pokemon[0][3].as_ref().unwrap().remaining_hp, 100);
    // Lapras does not evolve from Eevee.
    assert_eq!(state.in_play_pokemon[0][0].as_ref().unwrap().remaining_hp, 40);
}

#[test]
fn evolving_keeps_damage_energy_and_tools_and_takes_the_card_from_the_hand() {
    let mut state = board();
    let blastoise = Card::Pokemon(PokemonCard {
        id: "A1 056".to_string(),
        name: "Blastoise".to_string(),
        stage: 1,
        evolves_from: Some("Lapras".to_string()),
        hp: 150,
        energy_type: EnergyType::Water,
        ability: None,
        attacks: vec![],
        weakness: None,
        retreat_cost: vec![EnergyType::Colorless; 3],
    });
    state.hands[0] = vec![mon("A1 010", "Oddish", 1), blastoise.clone(), blastoise.clone()];
    let evolve = act(0, SimpleAction::Evolve { evolution: blastoise.clone(), in_play_idx: 0, from_deck: false });
    assert_eq!(
        apply_deterministic_action(&mut state, &evolve, false),
        EngineFollowUp::Evolved { player: 0, in_play_idx: 0, from_hand: true }
    );
    let evolved = state.in_play_pokemon[0][0].as_ref().unwrap();
    assert_eq!(evolved.card, blastoise);
    assert_eq!(evolved.total_hp, 150);
    assert_eq!(evolved.remaining_hp, 90);
    assert_eq!(evolved.attached_energy.len(), 3);
    assert!(!evolved.poisoned && !evolved.confused);
    assert_eq!(evolved.cards_behind, vec![mon("A1 001", "Lapras", 2)]);
    assert_eq!(state.hands[0], vec![mon("A1 010", "Oddish", 1), blastoise]);
}

#[test]
fn placing_puts_a_fresh_card_in_play_from_the_hand() {
    let mut state = State::default();
    state.hands[1] = vec![mon("A1 010", "Oddish", 1)];
    let place = act(1, SimpleAction::Place(mon("A1 010", "Oddish", 1), 2));
    assert_eq!(
        apply_deterministic_action(&mut state, &place, false),
        EngineFollowUp::Placed { player: 1, in_play_idx: 2 }
    );
    let placed = state.in_play_pokemon[1][2].as_ref().unwrap();
    assert_eq!(placed.remaining_hp, 100);
    assert!(placed.played_this_turn);
    assert!(state.hands[1].is_empty());
}

#[test]
fn discard_pile_cards_return_to_hand_or_bench() {
    let mut state = State::default();
    let potion = trainer("P-A 001", "Potion", TrainerType::Item);
    state.discard_piles[0] = vec![mon("A1 010", "Oddish", 1), potion.clone()];
    let take = act(0, SimpleAction::PutCardFromDiscardToHand { card: potion.clone() });
    apply_deterministic_action(&mut state, &take, false);
    assert_eq!(state.hands[0], vec![potion.clone()]);
    assert_eq!(state.discard_piles[0], vec![mon("A1 010", "Oddish", 1)]);
    // Not there any more: nothing happens.
    apply_deterministic_action(&mut state, &take, false);
    assert_eq!(state.hands[0].len(), 1);

    let flute = act(1, SimpleAction::BenchOpponentFromDiscard { card: mon("A1 010", "Oddish", 1), bench_idx: 3 });
    assert_eq!(
        apply_deterministic_action(&mut state, &flute, false),
        EngineFollowUp::BenchedFromDiscard { player: 0, in_play_idx: 3 }
    );
    assert_eq!(state.in_play_pokemon[0][3].as_ref().unwrap().get_name(), "Oddish");
    assert!(state.discard_piles[0].is_empty());
    assert_eq!(apply_deterministic_action(&mut state, &flute, false), EngineFollowUp::Nothing);
}
