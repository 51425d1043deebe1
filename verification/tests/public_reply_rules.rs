use deckgym::actions::SimpleAction;
use deckgym::attack_mechanics::Mechanic;
use deckgym::effects::CardEffect;
use deckgym::models::{to_playable_card, Attack, Card, EnergyType, PokemonCard, TrainerCard, TrainerType};
use deckgym::public_reply::{
    certified_attack_kind, common_board_hooks_admitted, is_canonical_giant_cape, projected_free_opponent_turn,
    trusted_leaf_prefix,
    CertifiedAttackKind, PublicReplyProvenance, UnsupportedReason,
};
use deckgym::state::State;

#[test]
fn unpriced_reasons_are_stable_text() {
    assert_eq!(
        UnsupportedReason::UntrustedState.unpriced_reason(),
        "public reply certificate refused an untrusted raw state"
    );
    assert_eq!(
        UnsupportedReason::UnresolvedContinuation.unpriced_reason(),
        "public reply attack leaves an unresolved continuation"
    );
    assert_eq!(
        UnsupportedReason::UnsupportedHook.unpriced_reason(),
        "public reply board contains a hook outside the audited certificate registry"
    );
}

#[test]
fn raw_state_provenance_is_never_proof_producing() {
    let untrusted = PublicReplyProvenance::untrusted();
    assert!(!untrusted.is_valid());
    assert_eq!(untrusted.advance(Ok(())), untrusted);
    assert_eq!(untrusted.invalid_reason, Some(UnsupportedReason::UntrustedState));
}

#[test]
fn provenance_stays_invalid_once_lost() {
    let observed = PublicReplyProvenance::from_observation(1);
    assert!(observed.is_valid());
    assert!(observed.advance(Ok(())).is_valid());
    let lost = observed.advance(Err(UnsupportedReason::HiddenOrder));
    assert!(!lost.is_valid());
    assert_eq!(lost.observer, Some(1));
    assert_eq!(lost.advance(Ok(())), lost);
    assert_eq!(lost.advance(Err(UnsupportedReason::PrivateChoice)).invalid_reason, Some(UnsupportedReason::HiddenOrder));
    assert!(!PublicReplyProvenance::from_observation(2).is_valid());
}

fn cape(effect: &str, id: &str) -> Card {
    Card::Trainer(TrainerCard {
        id: id.to_string(),
        name: "Giant Cape".to_string(),
        effect: effect.to_string(),
        trainer_card_type: TrainerType::Tool,
    })
}

const CAPE: &str = "The Pokémon this card is attached to gets +20 HP.";

#[test]
fn only_the_canonical_giant_cape_is_admitted() {
    assert!(is_canonical_giant_cape(&cape(CAPE, "A2 147")));
    assert!(is_canonical_giant_cape(&cape(CAPE, "A4b 321")));
    assert!(!is_canonical_giant_cape(&cape("+30 HP.", "A2 147")));
    assert!(!is_canonical_giant_cape(&cape(CAPE, "A1 001")));
    assert!(!is_canonical_giant_cape(&Card::Unknown));
}

fn attack(effect: Option<&str>) -> Attack {
    Attack {
        energy_required: vec![EnergyType::Lightning],
        title: "Zap".to_string(),
        fixed_damage: 60,
        effect: effect.map(|e| e.to_string()),
    }
}

#[test]
fn certified_attack_shapes() {
    assert!(matches!(certified_attack_kind(&attack(None), None), Ok(CertifiedAttackKind::FixedDamage)));
    let discard = Mechanic::SelfDiscardEnergy { energies: vec![EnergyType::Lightning] };
    match certified_attack_kind(&attack(Some("Discard a [L] Energy from this Pokémon.")), Some(&discard)) {
        Ok(CertifiedAttackKind::TypedSelfDiscard(energies)) => assert_eq!(energies, vec![EnergyType::Lightning]),
        other => panic!("unexpected {other:?}"),
    }
    let hide = Mechanic::DamageAndCardEffect {
        opponent: false,
        effect: CardEffect::PreventAllDamageAndEffects,
        duration: 1,
        coin_flip: true,
    };
    assert!(matches!(certified_attack_kind(&attack(Some("hide")), Some(&hide)), Ok(CertifiedAttackKind::HitAndHide)));
    let counter = Mechanic::DamageAndCardEffect {
        opponent: false,
        effect: CardEffect::Counterattack { amount: 20 },
        duration: 1,
        coin_flip: false,
    };
    assert!(matches!(
        certified_attack_kind(&attack(Some("counter")), Some(&counter)),
        Ok(CertifiedAttackKind::SelfCounterattack { amount: 20 })
    ));
    assert_eq!(
        certified_attack_kind(&attack(Some("unknown")), None).unwrap_err(),
        UnsupportedReason::UnsupportedAttackMechanic
    );
}

fn plain(name: &str) -> Card {
    Card::Pokemon(PokemonCard {
        id: "A1 104".to_string(),
        name: name.to_string(),
        stage: 0,
        evolves_from: None,
        hp: 60,
        energy_type: EnergyType::Lightning,
        ability: None,
        attacks: vec![attack(None)],
        weakness: None,
        retreat_cost: vec![EnergyType::Colorless],
    })
}

fn two_actives() -> State {
    let mut state = State::default();
    state.turn_count = 4;
    state.in_play_pokemon[0][0] = Some(to_playable_card(&plain("Pikachu"), false));
    state.in_play_pokemon[1][0] = Some(to_playable_card(&plain("Zapdos"), false));
    state
}

#[test]
fn board_hooks_registry() {
    let state = two_actives();
    assert_eq!(common_board_hooks_admitted(&state, &two_actives()), Ok(()));
    let mut poisoned = two_actives();
    poisoned.in_play_pokemon[1][0].as_mut().unwrap().poisoned = true;
    assert_eq!(common_board_hooks_admitted(&poisoned, &poisoned_copy()), Err(UnsupportedReason::UnsupportedHook));
    let mut hidden = two_actives();
    hidden.in_play_pokemon[0][0].as_mut().unwrap().cards_behind.push(Card::Unknown);
    assert_eq!(common_board_hooks_admitted(&hidden, &two_actives()), Err(UnsupportedReason::HiddenIdentity));
    let mut won = two_actives();
    won.points = [3, 0];
    assert_eq!(common_board_hooks_admitted(&won, &two_actives()), Err(UnsupportedReason::TerminalState));
    let mut stale = two_actives();
    stale.in_play_pokemon[0][0].as_mut().unwrap().total_hp = 80;
    assert_eq!(common_board_hooks_admitted(&two_actives(), &stale), Err(UnsupportedReason::UnsupportedHook));
    let mut caped = two_actives();
    caped.in_play_pokemon[0][0].as_mut().unwrap().attached_tools.push(cape(CAPE, "A2 147"));
    assert_eq!(common_board_hooks_admitted(&caped, &two_actives()), Ok(()));
    let mut protected = two_actives();
    protected.in_play_pokemon[1][0].as_mut().unwrap().effects.push((CardEffect::PreventAllDamageAndEffects, 1));
    assert_eq!(common_board_hooks_admitted(&protected, &two_actives()), Ok(()));
    protected.in_play_pokemon[1][0].as_mut().unwrap().effects.push((CardEffect::NoRetreat, 1));
    assert_eq!(common_board_hooks_admitted(&protected, &two_actives()), Err(UnsupportedReason::UnsupportedHook));
    let mut empty = two_actives();
    empty.in_play_pokemon[1][0] = None;
    assert_eq!(common_board_hooks_admitted(&empty, &empty_copy()), Err(UnsupportedReason::UnsupportedHook));
}

fn poisoned_copy() -> State {
    let mut s = two_actives();
    s.in_play_pokemon[1][0].as_mut().unwrap().poisoned = true;
    s
}

fn empty_copy() -> State {
    let mut s = two_actives();
    s.in_play_pokemon[1][0] = None;
    s
}

#[test]
fn trusted_prefix_normalizes_only_the_single_opponent_draw_by_count() {
    let mut leaf = two_actives();
    leaf.hands[1] = vec![plain("A"), plain("B")];
    leaf.decks[1].cards = vec![plain("C"), plain("D")];
    leaf.decks[0].energy_types = vec![EnergyType::Fire];
    leaf.move_generation_stack.push((1, vec![SimpleAction::DrawCard { amount: 1 }]));
    let public = projected_free_opponent_turn(leaf, 1).unwrap();
    assert_eq!(public.hands[1], vec![Card::Unknown; 3]);
    assert_eq!(public.decks[1].cards, vec![Card::Unknown; 1]);
    assert!(public.decks[0].energy_types.is_empty());
    assert!(public.move_generation_stack.is_empty());

    let mut other_actor = two_actives();
    other_actor.move_generation_stack.push((0, vec![SimpleAction::DrawCard { amount: 1 }]));
    assert_eq!(
        projected_free_opponent_turn(other_actor, 1).err(),
        Some(UnsupportedReason::UnsupportedForcedTransition)
    );
    let mut private = two_actives();
    private.move_generation_stack.push((1, vec![]));
    assert_eq!(projected_free_opponent_turn(private, 1).err(), Some(UnsupportedReason::PrivateChoice));
    let mut two = two_actives();
    two.move_generation_stack.push((1, vec![SimpleAction::EndTurn]));
    two.move_generation_stack.push((1, vec![SimpleAction::EndTurn]));
    assert_eq!(projected_free_opponent_turn(two, 1).err(), Some(UnsupportedReason::UnsupportedForcedTransition));
}

#[test]
fn unpriced_reasons_are_distinct_public_reply_texts() {
    let all = [
        UnsupportedReason::UntrustedState,
        UnsupportedReason::InvalidObserver,
        UnsupportedReason::InvalidProvenance,
        UnsupportedReason::SetupConcealed,
        UnsupportedReason::TerminalState,
        UnsupportedReason::WrongActor,
        UnsupportedReason::PrivateChoice,
        UnsupportedReason::HiddenIdentity,
        UnsupportedReason::HiddenOrder,
        UnsupportedReason::UnsupportedForcedTransition,
        UnsupportedReason::UnsupportedPrefixAction,
        UnsupportedReason::UnsupportedAttackMechanic,
        UnsupportedReason::UnsupportedHook,
        UnsupportedReason::InvalidProbability,
        UnsupportedReason::NonterminalPositiveBranch,
        UnsupportedReason::UnresolvedContinuation,
    ];
    for (i, a) in all.iter().enumerate() {
        assert!(a.unpriced_reason().starts_with("public reply"));
        for b in &all[i + 1..] {
            assert_ne!(a.unpriced_reason(), b.unpriced_reason());
        }
    }
    assert_eq!(UnsupportedReason::TerminalState.unpriced_reason(), "public reply certificate received a terminal state");
}

#[test]
fn leaf_prefix_refusals_come_before_the_board() {
    let mut leaf = two_actives();
    leaf.current_player = 1;
    assert!(trusted_leaf_prefix(leaf.clone(), 0, false).is_ok());
    assert_eq!(trusted_leaf_prefix(leaf.clone(), 0, true).err(), Some(UnsupportedReason::PrivateChoice));
    assert_eq!(trusted_leaf_prefix(leaf.clone(), 1, false).err(), Some(UnsupportedReason::WrongActor));
    let mut over = leaf.clone();
    over.winner = Some(deckgym::game_records::GameOutcome::Win(1));
    assert_eq!(trusted_leaf_prefix(over, 0, true).err(), Some(UnsupportedReason::TerminalState));
    let mut setup = leaf;
    setup.turn_count = 0;
    assert_eq!(trusted_leaf_prefix(setup, 0, false).err(), Some(UnsupportedReason::SetupConcealed));
}
