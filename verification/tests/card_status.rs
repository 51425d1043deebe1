use deckgym::card_ids::CardId;
use deckgym::card_validation::{get_implementation_status, implementation_limitations, ImplementationStatus};
use deckgym::models::{Ability, Card, EnergyType, PokemonCard, TrainerCard, TrainerType};

fn pokemon(ability: Option<&str>) -> Card {
    Card::Pokemon(PokemonCard {
        id: "A1 001".to_string(),
        name: "Bulbasaur".to_string(),
        stage: 0,
        evolves_from: None,
        hp: 70,
        energy_type: EnergyType::Grass,
        ability: ability.map(|effect| Ability { title: "Ability".to_string(), effect: effect.to_string() }),
        attacks: vec![],
        weakness: None,
        retreat_cost: vec![EnergyType::Colorless],
    })
}

fn trainer(kind: TrainerType) -> Card {
    Card::Trainer(TrainerCard { id: "A2 147".to_string(), name: "Giant Cape".to_string(), effect: String::new(), trainer_card_type: kind })
}

#[test]
fn limitations_are_printing_specific() {
    assert_eq!(implementation_limitations(CardId::B3025Victini).len(), 1);
    assert_eq!(implementation_limitations(CardId::PB049Victini), implementation_limitations(CardId::B3025Victini));
    assert_eq!(implementation_limitations(CardId::B4115Revavroom).len(), 3);
    assert_eq!(implementation_limitations(CardId::B4a051Gholdengo).len(), 4);
    assert_eq!(implementation_limitations(CardId::B4a018HisuianBasculegion).len(), 2);
    assert_eq!(implementation_limitations(CardId::B4a085TeamRocketsResearcher).len(), 2);
    assert!(implementation_limitations(CardId::A1001Bulbasaur).is_empty());
}

#[test]
fn status_follows_the_dispatch_checks() {
    assert_eq!(get_implementation_status(CardId::A1001Bulbasaur, &pokemon(None), true, true, true), ImplementationStatus::Complete);
    assert_eq!(get_implementation_status(CardId::A1001Bulbasaur, &pokemon(None), false, true, true), ImplementationStatus::MissingAttack);
    assert_eq!(
        get_implementation_status(CardId::A1001Bulbasaur, &pokemon(Some("An ability nobody implemented.")), true, true, true),
        ImplementationStatus::MissingAbility
    );
    assert_eq!(
        get_implementation_status(CardId::A1001Bulbasaur, &pokemon(Some("Your Active Pokémon has no Retreat Cost.")), true, true, true),
        ImplementationStatus::Complete
    );
    assert_eq!(get_implementation_status(CardId::A2147GiantCape, &trainer(TrainerType::Tool), true, false, true), ImplementationStatus::MissingTool);
    assert_eq!(get_implementation_status(CardId::A2147GiantCape, &trainer(TrainerType::Item), true, false, false), ImplementationStatus::MissingTrainer);
    assert_eq!(get_implementation_status(CardId::A1001Bulbasaur, &Card::Unknown, true, true, true), ImplementationStatus::CardNotFound);
    assert_eq!(get_implementation_status(CardId::B3025Victini, &pokemon(None), true, true, true), ImplementationStatus::RulesUnverified);
}

#[test]
fn descriptions() {
    assert!(ImplementationStatus::Complete.is_complete());
    assert!(!ImplementationStatus::RulesUnverified.is_complete());
    assert_eq!(ImplementationStatus::Complete.description(), "Fully implemented");
    assert_eq!(ImplementationStatus::MissingTool.description(), "Tool not implemented");
    assert_eq!(ImplementationStatus::RulesUnverified.description(), "Implemented with unverified rule boundaries");
}
