use deckgym::actions::SimpleAction;
use deckgym::models::{EnergyType, StatusCondition};

#[test]
fn actions_read_as_one_line() {
    assert_eq!(SimpleAction::Retreat(2).to_text(), "Retreat(2)");
    assert_eq!(SimpleAction::EndTurn.to_text(), "EndTurn");
    assert_eq!(SimpleAction::Noop.to_text(), "Noop");
    assert_eq!(SimpleAction::DrawCard { amount: 12 }.to_text(), "DrawCard(12)");
    let move_energy = SimpleAction::MoveEnergy {
        from_in_play_idx: 0,
        to_in_play_idx: 3,
        energy_type: EnergyType::Fire,
        amount: 2,
    };
    assert_eq!(move_energy.to_text(), "MoveEnergy(from:0, to:3, 2x Fire)");
    let heal = SimpleAction::Heal { in_play_idx: 1, amount: 30, cure_status: true };
    assert_eq!(heal.to_text(), "Heal(1, 30, cure:true)");
}

#[test]
fn lists_in_action_text_are_comma_separated() {
    let attach = SimpleAction::Attach {
        attachments: vec![(1, EnergyType::Water, 0), (2, EnergyType::Grass, 1)],
        is_turn_energy: false,
    };
    assert_eq!(attach.to_text(), "Attach(\"(1, Water, 0), (2, Grass, 1)\", false)");
    let damage = SimpleAction::ApplyDamage {
        attacking_player: 0,
        attacking_in_play_idx: 0,
        targets: vec![(30, 1, 0), (10, 1, 2)],
        is_from_active_attack: true,
    };
    assert_eq!(damage.to_text(), "ApplyDamage(attacker:(0, 0), targets:[(30, 1, 0), (10, 1, 2)], from_active:true)");
    let consolidate = SimpleAction::ConsolidateEnergyToPokemon {
        to_in_play_idx: 0,
        transfers: vec![(1, vec![EnergyType::Lightning, EnergyType::Metal]), (2, vec![])],
    };
    assert_eq!(consolidate.to_text(), "ConsolidateEnergyToPokemon(to:0, [(1, [Lightning, Metal]), (2, [])])");
    let whitney = SimpleAction::HealAndCureConditions {
        in_play_idx: 0,
        amount: 60,
        conditions: vec![StatusCondition::Asleep, StatusCondition::Paralyzed],
    };
    assert_eq!(whitney.to_text(), "HealAndCureConditions(0, 60, [Asleep, Paralyzed])");
    let sada = SimpleAction::SadaAttach { assignments: vec![(EnergyType::Fire, 1), (EnergyType::Dragon, 2)] };
    assert_eq!(sada.to_text(), "SadaAttach([Fire→1, Dragon→2])");
    let wild_swing = SimpleAction::DiscardOwnBenchedThenDamage { in_play_idxs: vec![], damage: 100 };
    assert_eq!(wild_swing.to_text(), "DiscardOwnBenchedThenDamage([], 100)");
}
