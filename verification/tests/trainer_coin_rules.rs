use deckgym::card_ids::CardId;
use deckgym::models::{to_playable_card, Ability, Attack, Card, EnergyType, PokemonCard};
use deckgym::state::State;
use deckgym::trainer_coins::{
    ice_pop_can_heal, is_ice_pop, is_master_plan, is_misty, is_registered_direct_producer, luxury_coin_source,
    REGISTERED_DIRECT_PRODUCERS,
};

#[test]
fn registered_producer_census_drives_the_actual_route_guard() {
    assert_eq!(REGISTERED_DIRECT_PRODUCERS.len(), 19);
    for id in REGISTERED_DIRECT_PRODUCERS {
        assert!(is_registered_direct_producer(id), "missing {id:?}");
    }
    assert!(!is_registered_direct_producer(CardId::PA001Potion));
}

#[test]
fn trainer_families() {
    assert!(is_misty(CardId::A1220Misty) && is_misty(CardId::A1267Misty));
    assert!(!is_misty(CardId::A4159Fisher));
    assert!(is_master_plan(CardId::B4a086TeamRocketsMasterPlan));
    assert!(!is_master_plan(CardId::B4a069TeamRocketsResearcher));
    assert!(is_ice_pop(CardId::B2145LuckyIcePop));
    assert!(!is_ice_pop(CardId::PA001Potion));
    assert!(!is_registered_direct_producer(CardId::B2a093Mesagoza));
}

fn mon(ability: Option<&str>) -> Card {
    Card::Pokemon(PokemonCard {
        id: "B4a 051".to_string(),
        name: "Gholdengo".to_string(),
        stage: 2,
        evolves_from: None,
        hp: 140,
        energy_type: EnergyType::Metal,
        ability: ability.map(|effect| Ability { title: "Luxury Coin".to_string(), effect: effect.to_string() }),
        attacks: vec![Attack { energy_required: vec![], title: "Coin Hit".to_string(), fixed_damage: 10, effect: None }],
        weakness: None,
        retreat_cost: vec![EnergyType::Colorless],
    })
}

#[test]
fn lucky_ice_pop_heals_only_damage() {
    let mut state = State::default();
    assert!(!ice_pop_can_heal(&state, 0));
    let mut active = to_playable_card(&mon(None), false);
    state.in_play_pokemon[0][0] = Some(active.clone());
    assert!(!ice_pop_can_heal(&state, 0));
    active.remaining_hp = 100;
    state.in_play_pokemon[0][0] = Some(active);
    assert!(ice_pop_can_heal(&state, 0));
    state.healing_blocked = true;
    assert!(!ice_pop_can_heal(&state, 0));
}

#[test]
fn no_luxury_coin_without_its_holder_or_after_use() {
    let mut state = State::default();
    state.in_play_pokemon[0][2] = Some(to_playable_card(&mon(None), false));
    assert_eq!(luxury_coin_source(&state, 0), None);
    state.luxury_coin_used_this_turn[0] = true;
    assert_eq!(luxury_coin_source(&state, 0), None);
}
