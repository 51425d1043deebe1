use deckgym::actions::{Action, SimpleAction};
use deckgym::data_export::{ply_file_name, DataExporter, RevealAdmission};
use deckgym::game_records::{GameRandomness, PrivateRevealRecord, PublicRevealRecord};
use deckgym::state::State;

fn noop() -> Action {
    Action { actor: 0, action: SimpleAction::Noop, is_stack: false }
}

fn private_record() -> PrivateRevealRecord {
    PrivateRevealRecord {
        viewer: 0,
        zone_owner: 1,
        cause: "Spy Ops".to_string(),
        scope: "random_hand_card".to_string(),
        cards: vec![],
    }
}

fn public_record() -> PublicRevealRecord {
    PublicRevealRecord {
        zone_owner: 0,
        cause: "Rocket Frenzy".to_string(),
        scope: "deck_prefix_then_shuffle".to_string(),
        cards: vec![],
    }
}

#[test]
fn a_ply_is_held_until_its_action_resolves() {
    let mut exporter = DataExporter::new();
    assert!(exporter.on_game_start("game-1".to_string()).is_none());
    assert!(exporter.on_action("game-1".to_string(), State::default(), 0, vec![noop()], noop()).is_none());
    assert_eq!(exporter.on_private_reveals("game-1", vec![private_record()]), RevealAdmission::Attached);
    assert_eq!(exporter.on_public_reveals("game-1", vec![public_record()]), RevealAdmission::Attached);
    // Nothing is published before the action has resolved.
    assert!(exporter.pending_data_point.is_some());
    let ply = exporter.on_action_resolved("game-1").unwrap();
    assert_eq!(ply.ply, 0);
    assert_eq!(ply.game_id, "game-1");
    assert_eq!(ply.private_reveals, vec![private_record()]);
    assert_eq!(ply.public_reveals, vec![public_record()]);
    assert_eq!(ply_file_name(ply.ply), "ply_0000.json");
    assert!(exporter.on_game_end().is_none());
}

#[test]
fn reveals_for_another_game_or_without_a_ply_are_ignored() {
    let mut exporter = DataExporter::new();
    exporter.on_game_start("game-1".to_string());
    assert_eq!(exporter.on_private_reveals("game-1", vec![private_record()]), RevealAdmission::NoPendingPly);
    exporter.on_action("game-1".to_string(), State::default(), 1, vec![], noop());
    assert_eq!(exporter.on_private_reveals("game-2", vec![private_record()]), RevealAdmission::UnexpectedGame);
    assert_eq!(exporter.on_private_reveals("game-1", vec![]), RevealAdmission::Empty);
    assert!(exporter.on_action_resolved("game-2").is_none());
    let ply = exporter.on_game_end().unwrap();
    assert!(ply.private_reveals.is_empty());
    assert_eq!(ply.actor, 1);
}

#[test]
fn plies_are_numbered_per_game_and_carry_the_randomness() {
    let mut exporter = DataExporter::new();
    exporter.on_game_start("g".to_string());
    exporter.on_game_randomness(GameRandomness::new(7));
    assert!(exporter.on_action("g".to_string(), State::default(), 0, vec![], noop()).is_none());
    let first = exporter.on_action("g".to_string(), State::default(), 1, vec![], noop()).unwrap();
    assert_eq!(first.ply, 0);
    assert!(first.randomness.is_some());
    let second = exporter.on_game_start("h".to_string()).unwrap();
    assert_eq!(second.ply, 1);
    exporter.on_action("h".to_string(), State::default(), 0, vec![], noop());
    assert_eq!(exporter.on_simulation_end().unwrap().ply, 0);
    assert_eq!(ply_file_name(12345), "ply_12345.json");
}
