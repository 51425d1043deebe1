use deckgym::action_rules::{action_uses_portrait, buggy_evolution_target, is_will_eligible_action};
use deckgym::actions::{Action, SimpleAction};
use deckgym::models::{to_playable_card, Ability, Attack, Card, EnergyType, PokemonCard, TrainerCard, TrainerType};
use deckgym::move_generation_abilities::generate_ability_actions;
use deckgym::state::State;

const HEAL_ONE_ACTIVE: &str =
    "Once during your turn, if this Pokémon is in the Active Spot, you may heal 30 damage from 1 of your Pokémon.";
const WASH_OUT: &str = "As often as you like during your turn, you may move a [W] Energy from 1 of your Benched [W] Pokémon to your Active [W] Pokémon.";
const PORTRAIT: &str = "Once during your turn, if this Pokémon is in the Active Spot, you may look at a random Supporter card from your opponent's hand. Use the effect of that card as the effect of this Ability.";
const POISON: &str = "Once during your turn, if this Pokémon is in the Active Spot, you may make your opponent's Active Pokémon Poisoned.";
const BUGGY: &str = "Whenever you attach an Energy from your Energy Zone to this Pokémon, put a random card from your deck that evolves from this Pokémon onto this Pokémon to evolve it.";

fn mon(name: &str, stage: u8, energy_type: EnergyType, ability: Option<&str>) -> Card {
    Card::Pokemon(PokemonCard {
        id: "A1 050".to_string(),
        name: name.to_string(),
        stage,
        evolves_from: None,
        hp: 100,
        energy_type,
        ability: ability.map(|effect| Ability { title: "Ability".to_string(), effect: effect.to_string() }),
        attacks: vec![Attack { energy_required: vec![], title: "Hit".to_string(), fixed_damage: 10, effect: None }],
        weakness: None,
        retreat_cost: vec![EnergyType::Colorless],
    })
}

fn fossil() -> Card {
    Card::Trainer(TrainerCard {
        id: "A1 216".to_string(),
        name: "Helix Fossil".to_string(),
        effect: "Play this card as if it were a 40-HP Basic [C] Pokémon.".to_string(),
        trainer_card_type: TrainerType::Fossil,
    })
}

#[test]
fn fossils_are_discarded_and_usable_abilities_offered() {
    let mut state = State::default();
    state.turn_count = 3;
    let mut healer = to_playable_card(&mon("Healer", 1, EnergyType::Grass, Some(HEAL_ONE_ACTIVE)), false);
    healer.remaining_hp = 50;
    state.in_play_pokemon[0][0] = Some(healer);
    state.in_play_pokemon[0][1] = Some(to_playable_card(&fossil(), false));
    state.in_play_pokemon[0][2] = Some(to_playable_card(&mon("Plain", 1, EnergyType::Grass, None), false));
    let actions = generate_ability_actions(&state);
    assert_eq!(
        actions,
        vec![SimpleAction::UseAbility { in_play_idx: 0 }, SimpleAction::DiscardFossil { in_play_idx: 1 }]
    );
}

#[test]
fn a_used_ability_is_not_offered_again() {
    let mut state = State::default();
    let mut healer = to_playable_card(&mon("Healer", 1, EnergyType::Grass, Some(HEAL_ONE_ACTIVE)), false);
    healer.remaining_hp = 50;
    healer.ability_used = true;
    state.in_play_pokemon[0][0] = Some(healer);
    assert!(generate_ability_actions(&state).is_empty());
}

#[test]
fn heal_needs_something_damaged_and_the_active_spot() {
    let mut state = State::default();
    state.in_play_pokemon[0][0] = Some(to_playable_card(&mon("Healer", 1, EnergyType::Grass, Some(HEAL_ONE_ACTIVE)), false));
    assert!(generate_ability_actions(&state).is_empty());
    let mut benched = to_playable_card(&mon("Healer", 1, EnergyType::Grass, Some(HEAL_ONE_ACTIVE)), false);
    benched.remaining_hp = 10;
    let mut state = State::default();
    state.in_play_pokemon[0][0] = Some(to_playable_card(&mon("Plain", 1, EnergyType::Grass, None), false));
    state.in_play_pokemon[0][1] = Some(benched);
    assert!(generate_ability_actions(&state).is_empty());
}

#[test]
fn wash_out_may_be_used_repeatedly() {
    let mut state = State::default();
    let mut active = to_playable_card(&mon("Vaporeon", 1, EnergyType::Water, Some(WASH_OUT)), false);
    active.ability_used = true;
    state.in_play_pokemon[0][0] = Some(active);
    let mut benched = to_playable_card(&mon("Squirtle", 0, EnergyType::Water, None), false);
    benched.attached_energy.push(EnergyType::Water);
    state.in_play_pokemon[0][1] = Some(benched);
    assert_eq!(generate_ability_actions(&state), vec![SimpleAction::UseAbility { in_play_idx: 0 }]);
}

#[test]
fn poison_only_from_the_active_spot() {
    let mut state = State::default();
    state.in_play_pokemon[0][0] = Some(to_playable_card(&mon("Plain", 1, EnergyType::Grass, None), false));
    state.in_play_pokemon[0][1] = Some(to_playable_card(&mon("Poisoner", 1, EnergyType::Grass, Some(POISON)), false));
    assert!(generate_ability_actions(&state).is_empty());
    state.in_play_pokemon[0][0] = Some(to_playable_card(&mon("Poisoner", 1, EnergyType::Grass, Some(POISON)), false));
    assert_eq!(generate_ability_actions(&state), vec![SimpleAction::UseAbility { in_play_idx: 0 }]);
}

#[test]
fn portrait_is_recognised_from_its_printed_ability() {
    let mut state = State::default();
    state.in_play_pokemon[1][0] = Some(to_playable_card(&mon("Smeargle", 0, EnergyType::Colorless, Some(PORTRAIT)), false));
    let uses = Action { actor: 1, action: SimpleAction::UseAbility { in_play_idx: 0 }, is_stack: false };
    assert!(action_uses_portrait(&state, &uses));
    let other = Action { actor: 1, action: SimpleAction::UseAbility { in_play_idx: 1 }, is_stack: false };
    assert!(!action_uses_portrait(&state, &other));
    assert!(!action_uses_portrait(&state, &Action { actor: 1, action: SimpleAction::EndTurn, is_stack: false }));
}

#[test]
fn buggy_evolution_fires_on_the_first_holder_attached_to() {
    let mut state = State::default();
    state.in_play_pokemon[0][0] = Some(to_playable_card(&mon("Plain", 1, EnergyType::Colorless, None), false));
    state.in_play_pokemon[0][2] = Some(to_playable_card(&mon("Porygon2", 1, EnergyType::Colorless, Some(BUGGY)), false));
    assert_eq!(buggy_evolution_target(&state, 0, &[(1, EnergyType::Colorless, 0)]), None);
    assert_eq!(
        buggy_evolution_target(&state, 0, &[(1, EnergyType::Colorless, 0), (1, EnergyType::Colorless, 2)]),
        Some(2)
    );
}

#[test]
fn will_applies_to_attacks_abilities_trainers_and_stadiums() {
    assert!(is_will_eligible_action(&SimpleAction::UseStadium));
    assert!(is_will_eligible_action(&SimpleAction::UseAbility { in_play_idx: 0 }));
    assert!(!is_will_eligible_action(&SimpleAction::EndTurn));
    assert!(!is_will_eligible_action(&SimpleAction::Retreat(1)));
}
