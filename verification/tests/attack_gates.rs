use deckgym::attack_gates::{is_sealed_by_bench_requirement, time_recall_attacks};
use deckgym::models::{to_playable_card, Ability, Attack, Card, EnergyType, PokemonCard, TrainerCard, TrainerType};
use deckgym::state::State;

const SEAL: &str = "If you don't have Regirock, Regice, and Registeel on your Bench, this Pokémon can't attack.";

fn mon(name: &str, ability: Option<&str>, attack: &str) -> Card {
    Card::Pokemon(PokemonCard {
        id: "A1 099".to_string(),
        name: name.to_string(),
        stage: 0,
        evolves_from: None,
        hp: 100,
        energy_type: EnergyType::Colorless,
        ability: ability.map(|effect| Ability { title: "Ability".to_string(), effect: effect.to_string() }),
        attacks: vec![Attack { energy_required: vec![], title: attack.to_string(), fixed_damage: 20, effect: None }],
        weakness: None,
        retreat_cost: vec![EnergyType::Colorless],
    })
}

#[test]
fn regigigas_is_sealed_until_all_three_regis_are_benched() {
    let mut state = State::default();
    let regigigas = to_playable_card(&mon("Regigigas", Some(SEAL), "Raging Hammer"), false);
    state.in_play_pokemon[0][0] = Some(regigigas.clone());
    state.in_play_pokemon[0][1] = Some(to_playable_card(&mon("Regirock", None, "Rock"), false));
    state.in_play_pokemon[0][2] = Some(to_playable_card(&mon("Regice", None, "Ice"), false));
    assert!(is_sealed_by_bench_requirement(&state, 0, &regigigas));
    state.in_play_pokemon[0][3] = Some(to_playable_card(&mon("Registeel", None, "Steel"), false));
    assert!(!is_sealed_by_bench_requirement(&state, 0, &regigigas));
    let plain = to_playable_card(&mon("Snorlax", None, "Rollout"), false);
    let empty = State::default();
    assert!(!is_sealed_by_bench_requirement(&empty, 0, &plain));
}

#[test]
fn memory_light_grants_previous_evolution_attacks() {
    let state = State::default();
    let mut evolved = to_playable_card(&mon("Ivysaur", None, "Razor Leaf"), false);
    evolved.cards_behind = vec![mon("Bulbasaur", None, "Vine Whip")];
    assert!(time_recall_attacks(&state, 0, &evolved).is_empty());
    evolved.attached_tools.push(Card::Trainer(TrainerCard {
        id: "A4a 068".to_string(),
        name: "Memory Light".to_string(),
        effect: "The Pokémon this card is attached to can use any attack from its previous Evolutions.".to_string(),
        trainer_card_type: TrainerType::Tool,
    }));
    let granted = time_recall_attacks(&state, 0, &evolved);
    assert_eq!(granted.len(), 1);
    assert_eq!(granted[0].title, "Vine Whip");
}
