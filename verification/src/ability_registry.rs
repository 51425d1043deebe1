//! The registry from printed Ability text to the mechanic that implements it.
use vstd::prelude::*;

use crate::abilities::{
    AbilityMechanic, AttackCostReductionScope, DeckSearchKind, DiscardSearchKind, DiscardSelection,
    KnockoutDamageTarget, NoRetreatCostCondition, NoRetreatCostTarget, RandomEvolutionTrigger,
};
use crate::models::{EnergyType, StatusCondition};
use crate::text::str_equal;

verus! {

pub open spec fn spec_registry_part0(text: Seq<char>) -> Option<AbilityMechanic> {
    if text == "Each of your evolved Pokémon can use any attack from its previous Evolutions. (You still need the necessary Energy to use each attack.)"@ {
        Some(AbilityMechanic::TimeRecall)
    } else if text == "As long as this Pokémon is in the Active Spot, attacks used by your opponent's Active Pokémon cost 1 [C] more."@ {
        Some(AbilityMechanic::IncreaseAttackCostForOpponentActive { amount: 1 })
    } else if text == "As long as this Pokémon is in the Active Spot, attacks used by your opponent's Active Pokémon do -20 damage."@ {
        Some(AbilityMechanic::ReduceOpponentActiveDamage { amount: 20 })
    } else if text == "As long as this Pokémon is in the Active Spot, it can evolve during your first turn or the turn you play it."@ {
        Some(AbilityMechanic::CanEvolveOnFirstTurnIfActive)
    } else if text == "As long as this Pokémon is in the Active Spot, whenever you attach an Energy from your Energy Zone to it, it is now Asleep."@ {
        Some(AbilityMechanic::SleepOnZoneAttachToSelfWhileActive)
    } else if text == "As long as this Pokémon is in the Active Spot, whenever your opponent attaches an Energy from their Energy Zone to 1 of their Pokémon, do 20 damage to that Pokémon."@ {
        Some(AbilityMechanic::ElectromagneticWall)
    } else if text == "As long as this Pokémon is in the Active Spot, your opponent can't use any Supporter cards from their hand."@ {
        Some(AbilityMechanic::NoOpponentSupportInActive)
    } else if text == "As long as this Pokémon is in the Active Spot, your opponent can't play any Stadium cards from their hand."@ {
        Some(AbilityMechanic::NoOpponentStadiumInActive)
    } else if text == "As long as this Pokémon is on your Bench, attacks used by your Pokémon that evolve from Poliwhirl do +40 damage to your opponent's Active Pokémon."@ {
        Some(AbilityMechanic::IncreaseDamageForEvolutionsFromBench { evolves_from: "Poliwhirl", amount: 40, })
    } else if text == "As long as this Pokémon is on your Bench, prevent all damage done to this Pokémon by attacks."@ {
        Some(AbilityMechanic::PreventDamageWhileBenched)
    } else if text == "As long as this Pokémon is on your Bench, your Active Basic Pokémon's Retreat Cost is 1 less."@ {
        Some(AbilityMechanic::ReduceRetreatCostOfYourActiveBasicFromBench { amount: 1 })
    } else if text == "As often as you like during your turn, you may choose 1 of your Pokémon that has damage on it, and move all of its damage to this Pokémon."@ {
        Some(AbilityMechanic::MoveDamageFromOneYourPokemonToThisPokemon)
    } else if text == "As often as you like during your turn, you may move a [W] Energy from 1 of your Benched [W] Pokémon to your Active [W] Pokémon."@ {
        Some(AbilityMechanic::MoveTypedEnergyFromBenchToActive { energy_type: EnergyType::Water, })
    } else if text == "At the beginning of your turn, if this Pokémon is in the Active Spot, put a random [P] Pokémon from your deck into your hand."@ {
        Some(AbilityMechanic::StartTurnRandomPokemonToHand { energy_type: EnergyType::Psychic, })
    } else if text == "At the end of your first turn, take a [L] Energy from your Energy Zone and attach it to this Pokémon."@ {
        Some(AbilityMechanic::EndFirstTurnAttachEnergyToSelf { energy_type: EnergyType::Lightning, })
    } else if text == "At the end of your turn, if this Pokémon is in the Active Spot, draw a card."@ {
        Some(AbilityMechanic::EndTurnDrawCardIfActive { amount: 1 })
    } else if text == "At the end of your turn, if this Pokémon is in the Active Spot, heal 20 damage from it."@ {
        Some(AbilityMechanic::EndTurnHealSelfIfActive { amount: 20 })
    } else if text == "Attacks used by your [F] Pokémon do +20 damage to your opponent's Active Pokémon."@ {
        Some(AbilityMechanic::IncreaseDamageForTypeInPlay { energy_type: EnergyType::Fighting, amount: 20, })
    } else if text == "Attacks used by your [P] Pokémon and [M] Pokémon do +30 damage to your opponent's Active Pokémon."@ {
        Some(AbilityMechanic::IncreaseDamageForTwoTypesInPlay { energy_type_a: EnergyType::Psychic, energy_type_b: EnergyType::Metal, amount: 30, })
    } else if text == "During Pokémon Checkup, if this Pokémon is in the Active Spot, do 10 damage to your opponent's Active Pokémon."@ {
        Some(AbilityMechanic::CheckupDamageToOpponentActive { amount: 10 })
    } else {
        None
    }
}

pub open spec fn spec_registry_part1(text: Seq<char>) -> Option<AbilityMechanic> {
    if text == "During Pokémon Checkup, heal 10 damage from each of your Pokémon."@ {
        Some(AbilityMechanic::CheckupHealAllYourPokemon { amount: 10 })
    } else if text == "During your first turn, this Pokémon has no Retreat Cost."@ {
        Some(AbilityMechanic::NoRetreatCost { target: NoRetreatCostTarget::ThisPokemon, condition: NoRetreatCostCondition::YourFirstTurn, })
    } else if text == "Each [G] Energy attached to your [G] Pokémon provides 2 [G] Energy. This effect doesn't stack."@ {
        Some(AbilityMechanic::DoubleGrassEnergy)
    } else if text == "Each of your Pokémon that has any Energy attached recovers from all Special Conditions and can't be affected by any Special Conditions."@ {
        Some(AbilityMechanic::SoothingWind { energy_type: None })
    } else if text == "Each of your Pokémon that has any [P] Energy attached recovers from all Special Conditions and can't be affected by any Special Conditions."@ {
        Some(AbilityMechanic::SoothingWind { energy_type: Some(EnergyType::Psychic), })
    } else if text == "Each of your [G] Pokémon gets +20 HP."@ {
        Some(AbilityMechanic::IncreaseHpForTypeInPlay { energy_type: EnergyType::Grass, amount: 20, })
    } else if text == "If a Stadium is in play, this Pokémon has no Retreat Cost."@ {
        Some(AbilityMechanic::NoRetreatCost { target: NoRetreatCostTarget::ThisPokemon, condition: NoRetreatCostCondition::StadiumInPlay, })
    } else if text == "If any damage is done to this Pokémon by attacks, flip a coin. If heads, prevent that damage."@ {
        Some(AbilityMechanic::CoinFlipToPreventDamage)
    } else if text == "If any damage is done to this Pokémon by attacks, flip a coin. If heads, this Pokémon takes -100 damage from that attack."@ {
        Some(AbilityMechanic::CoinFlipToReduceDamage { amount: 100 })
    } else if text == "If any damage is done to this Pokémon by attacks, flip a coin. If heads, this Pokémon takes -80 damage from that attack."@ {
        Some(AbilityMechanic::CoinFlipToReduceDamage { amount: 80 })
    } else if text == "If this Pokémon has a Pokémon Tool attached, attacks used by this Pokémon cost 1 less [G] Energy."@ {
        Some(AbilityMechanic::ReduceAttackCost { energy_type: EnergyType::Grass, amount: 1, scope: AttackCostReductionScope::SelfIfToolAttached, })
    } else if text == "If this Pokémon has any Energy attached, it has no Retreat Cost."@ {
        Some(AbilityMechanic::NoRetreatIfHasEnergy)
    } else if text == "If this Pokémon has full HP, it takes -40 damage from attacks from your opponent's Pokémon."@ {
        Some(AbilityMechanic::ReduceDamageAtFullHp { amount: 40 })
    } else if text == "If this Pokémon is in the Active Spot and is Knocked Out by damage from an attack from your opponent's Pokémon, do 10 damage to each of your opponent's Pokémon."@ {
        Some(AbilityMechanic::DamageOnKnockoutInActive { amount: 10, target: KnockoutDamageTarget::EachOpponentPokemon, })
    } else if text == "If this Pokémon is in the Active Spot and is Knocked Out by damage from an attack from your opponent's Pokémon, do 50 damage to the Attacking Pokémon."@ {
        Some(AbilityMechanic::DamageOnKnockoutInActive { amount: 50, target: KnockoutDamageTarget::Attacker, })
    } else if text == "If this Pokémon is in the Active Spot and is Knocked Out by damage from an attack from your opponent's Pokémon, flip a coin. If heads, the Attacking Pokémon is Knocked Out."@ {
        Some(AbilityMechanic::CoinFlipToKnockOutAttackerOnKnockout)
    } else if text == "If this Pokémon is in the Active Spot and is Knocked Out by damage from an attack from your opponent's Pokémon, move all [F] Energy from this Pokémon to 1 of your Benched Pokémon."@ {
        Some(AbilityMechanic::MoveAllTypedEnergyToBenchOnKnockout { energy_type: EnergyType::Fighting, })
    } else if text == "If this Pokémon is in the Active Spot and is damaged by an attack from your opponent's Pokémon, do 20 damage to the Attacking Pokémon."@ {
        Some(AbilityMechanic::CounterattackDamage { amount: 20 })
    } else if text == "If this Pokémon is in the Active Spot and is damaged by an attack from your opponent's Pokémon, take a [W] Energy from your Energy Zone and attach it to 1 of your Benched Pokémon."@ {
        Some(AbilityMechanic::AttachEnergyFromZoneToBenchOnDamaged { energy_type: EnergyType::Water, })
    } else if text == "If this Pokémon is in the Active Spot and is damaged by an attack from your opponent's Pokémon, the Attacking Pokémon is now Poisoned."@ {
        Some(AbilityMechanic::PoisonAttackerOnDamaged)
    } else {
        None
    }
}

pub open spec fn spec_registry_part2(text: Seq<char>) -> Option<AbilityMechanic> {
    if text == "If this Pokémon is in the Active Spot, once during your turn, you may switch in 1 of your opponent's Benched Basic Pokémon to the Active Spot."@ {
        Some(AbilityMechanic::VictreebelFragranceTrap)
    } else if text == "If this Pokémon would be Knocked Out by damage from an attack, flip a coin. If heads, this Pokémon is not Knocked Out, and its remaining HP becomes 10."@ {
        Some(AbilityMechanic::CoinFlipToSurviveKnockOut)
    } else if text == "If you have Arceus or Arceus ex in play, attacks used by this Pokémon cost 1 less [C] Energy."@ {
        Some(AbilityMechanic::ReduceAttackCost { energy_type: EnergyType::Colorless, amount: 1, scope: AttackCostReductionScope::SelfIfArceusInPlay, })
    } else if text == "If you have Arceus or Arceus ex in play, attacks used by this Pokémon do +30 damage to your opponent's Active Pokémon."@ {
        Some(AbilityMechanic::IncreaseDamageIfArceusInPlay { amount: 30 })
    } else if text == "If you have another Falinks in play, this Pokémon's attacks do +20 damage to your opponent's Active Pokémon, and this Pokémon takes -20 damage from attacks from your opponent's Pokémon."@ {
        Some(AbilityMechanic::CoordinatedUnit { pokemon_name: "Falinks", damage_bonus: 20, damage_reduction: 20, })
    } else if text == "If you have Arceus or Arceus ex in play, this Pokémon takes -30 damage from attacks."@ {
        Some(AbilityMechanic::ReduceDamageIfArceusInPlay { amount: 30 })
    } else if text == "If you have Arceus or Arceus ex in play, this Pokémon has no Retreat Cost."@ {
        Some(AbilityMechanic::NoRetreatCost { target: NoRetreatCostTarget::ThisPokemon, condition: NoRetreatCostCondition::NamedPokemonInPlay(&["Arceus", "Arceus ex"]), })
    } else if text == "If you have Latias in play, this Pokémon has no Retreat Cost."@ {
        Some(AbilityMechanic::NoRetreatCost { target: NoRetreatCostTarget::ThisPokemon, condition: NoRetreatCostCondition::NamedPokemonInPlay(&["Latias"]), })
    } else if text == "If your opponent's Pokémon is Knocked Out by damage from this Pokémon's attacks, during your opponent's next turn, prevent all damage from—and effects of—attacks done to this Pokémon."@ {
        Some(AbilityMechanic::ProtectSelfNextTurnAfterAttackKnockout)
    } else if text == "Once during your turn, if this Pokémon is in the Active Spot, you may heal 30 damage from 1 of your Pokémon."@ {
        Some(AbilityMechanic::HealOneYourPokemon { amount: 30, require_active: true, require_tool_attached: false, })
    } else if text == "Once during your turn, if this Pokémon has a Pokémon Tool attached, you may heal 30 damage from 1 of your Pokémon."@ {
        Some(AbilityMechanic::HealOneYourPokemon { amount: 30, require_active: false, require_tool_attached: true, })
    } else if text == "Once during your turn, if this Pokémon is in the Active Spot, you may look at a random Supporter card from your opponent's hand. Use the effect of that card as the effect of this Ability."@ {
        Some(AbilityMechanic::CopyRandomOpponentHandSupporter)
    } else if text == "Once during your turn, if this Pokémon is in the Active Spot, you may make your opponent's Active Pokémon Poisoned."@ {
        Some(AbilityMechanic::PoisonOpponentActive)
    } else if text == "Once during your turn, if this Pokémon is in the Active Spot, you may switch in 1 of your opponent's Benched Pokémon that has damage on it to the Active Spot."@ {
        Some(AbilityMechanic::SwitchDamagedOpponentBenchToActive)
    } else if text == "Once during your turn, if this Pokémon is in the Active Spot, you may take a [G] Energy from your Energy Zone and attach it to 1 of your [G] Pokémon."@ {
        Some(AbilityMechanic::AttachEnergyFromZoneToYourTypedPokemon { energy_type: EnergyType::Grass, })
    } else if text == "Once during your turn, if this Pokémon is on your Bench, you may discard all Pokémon Tools from your opponent's Active Pokémon. If you do, discard this Pokémon."@ {
        Some(AbilityMechanic::DiscardOpponentActiveToolsAndDiscardSelf)
    } else if text == "Once during your turn, if this Pokémon is on your Bench, you may switch it with your Active Pokémon."@ {
        Some(AbilityMechanic::SwitchThisBenchWithActive)
    } else if text == "Once during your turn, if you have Arceus or Arceus ex in play, you may do 30 damage to your opponent's Active Pokémon."@ {
        Some(AbilityMechanic::DamageOpponentActiveIfArceusInPlay { amount: 30 })
    } else if text == "Once during your turn, when you play this Pokémon from your hand to evolve 1 of your Pokémon, you may discard a random Energy from your opponent's Active Pokémon."@ {
        Some(AbilityMechanic::DiscardRandomEnergyFromOpponentActiveOnEvolve)
    } else if text == "Once during your turn, when you play this Pokémon from your hand to evolve 1 of your Pokémon, you may draw 2 cards."@ {
        Some(AbilityMechanic::DrawCardsOnEvolve { amount: 2 })
    } else {
        None
    }
}

pub open spec fn spec_registry_part3(text: Seq<char>) -> Option<AbilityMechanic> {
    if text == "Once during your turn, when you play this Pokémon from your hand to evolve 1 of your Pokémon, you may have your opponent shuffle their hand into their deck. For each remaining point that your opponent needs to win, they draw a card."@ {
        Some(AbilityMechanic::OpponentShuffleHandAndDrawOnEvolve)
    } else if text == "Once during your turn, when you play this Pokémon from your hand to evolve 1 of your Pokémon, you may heal 60 damage from 1 of your [W] Pokémon."@ {
        Some(AbilityMechanic::HealTypedPokemonOnEvolve { energy_type: EnergyType::Water, amount: 60, })
    } else if text == "Once during your turn, when you play this Pokémon from your hand to evolve 1 of your Pokémon, you may put 2 random Pokémon Tool cards from your discard pile into your hand."@ {
        Some(AbilityMechanic::PutCardsFromDiscardToHandOnEvolve { card_kind: DiscardSearchKind::Tool, selection: DiscardSelection::RandomCards(2), })
    } else if text == "Once during your turn, when you play this Pokémon from your hand to evolve 1 of your Pokémon, you may put a Supporter card from your discard pile into your hand."@ {
        Some(AbilityMechanic::PutCardsFromDiscardToHandOnEvolve { card_kind: DiscardSearchKind::Supporter, selection: DiscardSelection::PlayerChoosesOne, })
    } else if text == "Once during your turn, when you play this Pokémon from your hand to evolve 1 of your Pokémon, you may take a [R] Energy from your Energy Zone and attach it to your Active [R] Pokémon."@ {
        Some(AbilityMechanic::AttachEnergyFromZoneToActiveTypedOnEvolve { energy_type: EnergyType::Fire, })
    } else if text == "Once during your turn, when you put this Pokémon from your hand onto your Bench, you may have your opponent reveal their hand."@ {
        Some(AbilityMechanic::InfiltratingInspection)
    } else if text == "Once during your turn, you may attach a [R] Energy from your discard pile to this Pokémon. If you do, do 20 damage to this Pokémon."@ {
        Some(AbilityMechanic::AttachEnergyFromDiscardToSelfAndDamage { energy_type: EnergyType::Fire, self_damage: 20, })
    } else if text == "Once during your turn, you may choose either player. Look at the top card of that player's deck."@ {
        Some(AbilityMechanic::LookAtTopCardOfDeck { either_player: true, })
    } else if text == "Once during your turn, you may discard the top card of your opponent's deck."@ {
        Some(AbilityMechanic::DiscardTopCardOpponentDeck)
    } else if text == "Once during your turn, you may do 20 damage to 1 of your opponent's Pokémon."@ {
        Some(AbilityMechanic::DamageOneOpponentPokemon { amount: 20 })
    } else if text == "Once during your turn, you may flip a coin. If heads, switch in 1 of your opponent's Benched Pokémon to the Active Spot."@ {
        Some(AbilityMechanic::CoinFlipSwitchInOpponentBenchToActive)
    } else if text == "Once during your turn, you may flip a coin. If heads, your opponent's Active Pokémon is now Asleep."@ {
        Some(AbilityMechanic::CoinFlipStatusOpponentActive { status: StatusCondition::Asleep, })
    } else if text == "Once during your turn, you may flip a coin. If heads, your opponent's Active Pokémon is now Poisoned."@ {
        Some(AbilityMechanic::CoinFlipStatusOpponentActive { status: StatusCondition::Poisoned, })
    } else if text == "Once during your turn, you may heal 10 damage from each of your Pokémon."@ {
        Some(AbilityMechanic::HealAllYourPokemon { amount: 10, energy_type: None, })
    } else if text == "Once during your turn, you may heal 20 damage from each of your Pokémon."@ {
        Some(AbilityMechanic::HealAllYourPokemon { amount: 20, energy_type: None, })
    } else if text == "Once during your turn, you may heal 20 damage from your Active Pokémon."@ {
        Some(AbilityMechanic::HealActiveYourPokemon { amount: 20 })
    } else if text == "Once during your turn, you may heal 30 damage from each of your [W] Pokémon."@ {
        Some(AbilityMechanic::HealAllYourPokemon { amount: 30, energy_type: Some(EnergyType::Water), })
    } else if text == "Once during your turn, you may look at the top card of your deck."@ {
        Some(AbilityMechanic::LookAtTopCardOfDeck { either_player: false, })
    } else if text == "Once during your turn, you may make your opponent's Active Pokémon Burned."@ {
        Some(AbilityMechanic::BurnOpponentActive)
    } else if text == "Once during your turn, you may move all [D] Energy from each of your Pokémon to this Pokémon."@ {
        Some(AbilityMechanic::MoveAllTypedEnergyFromYourPokemonToSelf { energy_type: EnergyType::Darkness, })
    } else {
        None
    }
}

pub open spec fn spec_registry_part4(text: Seq<char>) -> Option<AbilityMechanic> {
    if text == "Once during your turn, you may move all [P] Energy from 1 of your Benched [P] Pokémon to your Active Pokémon."@ {
        Some(AbilityMechanic::MoveAllTypedEnergyFromBenchToActive { energy_type: EnergyType::Psychic, })
    } else if text == "Once during your turn, you may put a random Pokémon Tool card from your deck into your hand."@ {
        Some(AbilityMechanic::SearchRandomCardFromDeck { card_kind: DeckSearchKind::Tool, })
    } else if text == "Once during your turn, you may put a random Pokémon from your deck into your hand."@ {
        Some(AbilityMechanic::SearchRandomCardFromDeck { card_kind: DeckSearchKind::Pokemon, })
    } else if text == "Once during your turn, you may switch out your opponent's Active Basic Pok\u{e9}mon to the Bench.\u{a0}(Your opponent chooses the new Active Pok\u{e9}mon.)"@ {
        Some(AbilityMechanic::SwitchOutOpponentActiveToBench { require_active: false, require_opponent_active_basic: true, })
    } else if text == "Once during your turn, if this Pokémon is in the Active Spot, you may switch out your opponent's Active Pokémon to the Bench. (Your opponent chooses the new Active Pokémon.)"@ {
        Some(AbilityMechanic::SwitchOutOpponentActiveToBench { require_active: true, require_opponent_active_basic: false, })
    } else if text == "Once during your turn, you may switch out your opponent's Active Pok\u{e9}mon to the Bench.\u{a0}(Your opponent chooses the new Active Pok\u{e9}mon.)"@ {
        Some(AbilityMechanic::SwitchOutOpponentActiveToBench { require_active: false, require_opponent_active_basic: false, })
    } else if text == "Once during your turn, you may switch your Active Ultra Beast with 1 of your Benched Ultra Beasts."@ {
        Some(AbilityMechanic::SwitchActiveUltraBeastWithBench)
    } else if text == "Once during your turn, you may switch your Active [W] Pokémon with 1 of your Benched Pokémon."@ {
        Some(AbilityMechanic::SwitchActiveTypedWithBench { energy_type: EnergyType::Water })
    } else if text == "Once during your turn, you may take 2 [D] Energy from your Energy Zone and attach it to this Pokémon. If you do, do 30 damage to this Pokémon."@ {
        Some(AbilityMechanic::AttachEnergyFromZoneToSelfAndDamage { energy_type: EnergyType::Darkness, amount: 2, self_damage: 30, })
    } else if text == "Once during your turn, you may take a [L] Energy from your Energy Zone and attach it to this Pokémon."@ {
        Some(AbilityMechanic::AttachEnergyFromZoneToSelf { energy_type: EnergyType::Lightning, amount: 1, })
    } else if text == "Once during your turn, you may take a [W] Energy from your Energy Zone and attach it to this Pokémon."@ {
        Some(AbilityMechanic::AttachEnergyFromZoneToSelf { energy_type: EnergyType::Water, amount: 1, })
    } else if text == "Once during your turn, you may take a [P] Energy from your Energy Zone and attach it to the [P] Pokémon in the Active Spot."@ {
        Some(AbilityMechanic::AttachEnergyFromZoneToActiveTypedPokemon { energy_type: EnergyType::Psychic, })
    } else if text == "Once during your turn, you may take a [P] Energy from your Energy Zone and attach it to this Pokémon. If you use this Ability, your turn ends."@ {
        Some(AbilityMechanic::AttachEnergyFromZoneToSelfAndEndTurn { energy_type: EnergyType::Psychic, })
    } else if text == "Pokémon (both yours and your opponent's) can't be healed."@ {
        Some(AbilityMechanic::PreventAllHealing)
    } else if text == "Prevent all damage done to this Pokémon by attacks from your opponent's Pokémon ex."@ {
        Some(AbilityMechanic::PreventAllDamageFromEx)
    } else if text == "Prevent all effects of attacks used by your opponent's Pokémon done to this Pokémon."@ {
        Some(AbilityMechanic::PreventAttackEffects)
    } else if text == "This Ability works if you have any Unown in play with an Ability other than POWER. Attacks used by your Pokémon do +10 damage to your opponent's Active Pokémon."@ {
        Some(AbilityMechanic::UnownPower { amount: 10 })
    } else if text == "This Ability works if you have any Unown in play with an Ability other than GUARD. All of your Pokémon take -10 damage from attacks from your opponent's Pokémon."@ {
        Some(AbilityMechanic::UnownGuard { amount: 10 })
    } else if text == "This Pokémon can evolve into any Pokémon that evolves from Eevee if you play it from your hand onto this Pokémon. (This Pokémon can't evolve during your first turn or the turn you play it.)"@ {
        Some(AbilityMechanic::CanEvolveIntoEeveeEvolution)
    } else if text == "This Pokémon can't be Asleep."@ {
        Some(AbilityMechanic::ImmuneToStatusConditions { status: Some(StatusCondition::Asleep), })
    } else {
        None
    }
}

pub open spec fn spec_registry_part5(text: Seq<char>) -> Option<AbilityMechanic> {
    if text == "This Pokémon can't be affected by any Special Conditions."@ {
        Some(AbilityMechanic::ImmuneToStatusConditions { status: None })
    } else if text == "This Pokémon gets +30 HP for each [P] Energy attached to it."@ {
        Some(AbilityMechanic::IncreaseHpPerAttachedEnergy { energy_type: EnergyType::Psychic, amount: 30, })
    } else if text == "This Pokémon takes -10 damage from attacks."@ {
        Some(AbilityMechanic::ReduceDamageFromAttacks { amount: 10 })
    } else if text == "This Pokémon takes -20 damage from attacks from [R] or [W] Pokémon."@ {
        Some(AbilityMechanic::ReduceDamageFromTypedAttackers { energy_types: &[EnergyType::Fire, EnergyType::Water], amount: 20, })
    } else if text == "This Pokémon takes -20 damage from attacks."@ {
        Some(AbilityMechanic::ReduceDamageFromAttacks { amount: 20 })
    } else if text == "This Pokémon takes -30 damage from attacks from [F] Pokémon."@ {
        Some(AbilityMechanic::ReduceDamageFromTypedAttackers { energy_types: &[EnergyType::Fighting], amount: 30, })
    } else if text == "This Pokémon takes -30 damage from attacks from [R] or [W] Pokémon."@ {
        Some(AbilityMechanic::ReduceDamageFromTypedAttackers { energy_types: &[EnergyType::Fire, EnergyType::Water], amount: 30, })
    } else if text == "When this Pokémon is Knocked Out, flip a coin. If heads, your opponent can't get any points for it."@ {
        Some(AbilityMechanic::CoinFlipToDenyKnockoutPoints)
    } else if text == "When this Pokémon is first damaged by an attack after coming into play, prevent that damage."@ {
        Some(AbilityMechanic::PreventFirstAttack)
    } else if text == "Whenever you attach a [D] Energy from your Energy Zone to this Pokémon, do 20 damage to your opponent's Active Pokémon."@ {
        Some(AbilityMechanic::DamageOpponentActiveOnZoneAttachToSelf { energy_type: EnergyType::Darkness, amount: 20, only_turn_energy: true, })
    } else if text == "Whenever you attach a [P] Energy from your Energy Zone to this Pokémon, heal 20 damage from this Pokémon."@ {
        Some(AbilityMechanic::HealSelfOnZoneAttach { energy_type: EnergyType::Psychic, amount: 20, })
    } else if text == "Whenever you attach an Energy from your Energy Zone to this Pokémon, put a random card from your deck that evolves from this Pokémon onto this Pokémon to evolve it."@ {
        Some(AbilityMechanic::RandomEvolutionFromDeck { trigger: RandomEvolutionTrigger::OnEnergyZoneAttachToSelf, })
    } else if text == "You must discard a card from your hand in order to use this Ability. Once during your turn, you may draw a card."@ {
        Some(AbilityMechanic::DiscardFromHandToDrawCard)
    } else if text == "Your Active Dondozo has no Retreat Cost."@ {
        Some(AbilityMechanic::NoRetreatCost { target: NoRetreatCostTarget::YourActiveNamed("Dondozo"), condition: NoRetreatCostCondition::Always, })
    } else if text == "Your Active Pokémon has no Retreat Cost."@ {
        Some(AbilityMechanic::NoRetreatCost { target: NoRetreatCostTarget::YourActive, condition: NoRetreatCostCondition::Always, })
    } else if text == "Your opponent can't play any Pokémon from their hand to evolve their Active Pokémon."@ {
        Some(AbilityMechanic::PreventOpponentActiveEvolution)
    } else if text == "Your opponent's Active Pokémon takes +10 damage from being Poisoned."@ {
        Some(AbilityMechanic::IncreasePoisonDamage { amount: 10 })
    } else if text == "Your opponent's Active Pokémon's Retreat Cost is 1 more."@ {
        Some(AbilityMechanic::IncreaseRetreatCostForOpponentActive { amount: 1 })
    } else if text == "Basic Pokémon in play (both yours and your opponent's) have no Abilities."@ {
        Some(AbilityMechanic::SuppressBasicAbilities)
    } else if text == "If this Pokémon's remaining HP is 50 or less, attacks used by this Pokémon do +60 damage to your opponent's Active Pokémon."@ {
        Some(AbilityMechanic::IncreaseDamageWhenRemainingHpAtMost { amount: 60, hp_threshold: 50, })
    } else {
        None
    }
}

pub open spec fn spec_registry_part6(text: Seq<char>) -> Option<AbilityMechanic> {
    if text == "Once during your turn, you may discard 1 [R] Energy from this Pokémon in order to use this Ability. During this turn, attacks used by your [R] Pokémon do +50 damage to your opponent's Active Pokémon."@ {
        Some(AbilityMechanic::DiscardEnergyToIncreaseTypeDamage { discard_energy: EnergyType::Fire, attack_type: EnergyType::Fire, amount: 50, })
    } else if text == "Once during your turn, you may heal 60 damage from 1 of your Pokémon ex that has any Energy attached. If you do, discard a random Energy from that Pokémon."@ {
        Some(AbilityMechanic::HealOneYourPokemonExAndDiscardRandomEnergy { amount: 60 })
    } else if text == "Once during your turn, you may take a [W] Energy from your Energy Zone and attach it to the [W] Pokémon in the Active Spot."@ {
        Some(AbilityMechanic::AttachEnergyFromZoneToActiveTypedPokemon { energy_type: EnergyType::Water, })
    } else if text == "This Pokémon takes -30 damage from attacks."@ {
        Some(AbilityMechanic::ReduceDamageFromAttacks { amount: 30 })
    } else if text == "At the end of each turn, if your opponent's Active Pokémon is Asleep, do 20 damage to that Pokémon."@ {
        Some(AbilityMechanic::BadDreamsEndOfTurn { amount: 20 })
    } else if text == "Once during your turn, you may switch your Active [M] Pokémon with 1 of your Benched Pokémon."@ {
        Some(AbilityMechanic::SwitchActiveTypedWithBench { energy_type: EnergyType::Metal })
    } else if text == "Once during your turn, when you put this Pokémon from your hand onto your Bench, you may switch it with your Active Pokémon. If you do, move all of your Energy in play to this Pokémon."@ {
        Some(AbilityMechanic::LegendaryDrive)
    } else if text == "Once during your turn, when you put this Pokémon from your hand onto your Bench, you may switch out your opponent's Active Pokémon to the Bench. (Your opponent chooses the new Active Pokémon.)"@ {
        Some(AbilityMechanic::AncientRoar)
    } else if text == "Attacks used by your Future Pokémon cost 1 less [C] Energy."@ {
        Some(AbilityMechanic::ReduceAttackCost { energy_type: EnergyType::Colorless, amount: 1, scope: AttackCostReductionScope::YourFuturePokemon, })
    } else if text == "As long as this Pokémon is in play, it is [F] and [D] type."@ {
        Some(AbilityMechanic::DualType { types: [EnergyType::Fighting, EnergyType::Darkness], })
    } else if text == "As long as this Pokémon is in play, it is [W] and [F] type."@ {
        Some(AbilityMechanic::DualType { types: [EnergyType::Water, EnergyType::Fighting], })
    } else if text == "As long as this Pokémon is on your Bench, your Active [D] Pokémon's Retreat Cost is 1 less."@ {
        Some(AbilityMechanic::ReduceRetreatCostOfYourActiveTypedFromBench { energy_type: EnergyType::Darkness, amount: 1, })
    } else if text == "During Pokémon Checkup, if this Pokémon is in the Active Spot, do 10 damage to each of your opponent's Pokémon."@ {
        Some(AbilityMechanic::CheckupDamageToAllOpponentPokemon { amount: 10 })
    } else if text == "If you don't have Regirock, Regice, and Registeel on your Bench, this Pokémon can't attack."@ {
        Some(AbilityMechanic::CannotAttackWithoutBenchedNames { required_bench_names: &["Regirock", "Regice", "Registeel"], })
    } else if text == "Once during your turn, if this Pokémon is in the Active Spot, you may make your opponent's Active Pokémon Confused."@ {
        Some(AbilityMechanic::ConfuseOpponentActive)
    } else if text == "Once during your turn, if this Pokémon is on your Bench, you may move 30 damage that your Active Pokémon has on it to this Pokémon."@ {
        Some(AbilityMechanic::MoveFixedDamageFromActiveToThisBenched { amount: 30 })
    } else if text == "Once during your turn, when you play this Pokémon from your hand to evolve 1 of your Pokémon, you may do 20 damage to your opponent's Active Pokémon."@ {
        Some(AbilityMechanic::DamageOpponentActiveOnEvolve { amount: 20 })
    } else if text == "Once during your turn, when you play this Pokémon from your hand to evolve 1 of your Pokémon, you may do 30 damage to your opponent's Active Pokémon."@ {
        Some(AbilityMechanic::DamageOpponentActiveOnEvolve { amount: 30 })
    } else if text == "Once during your turn, you may remove a random Special Condition from your Active Pokémon."@ {
        Some(AbilityMechanic::RemoveRandomSpecialConditionFromActive)
    } else if text == "At the end of your opponent's turn, if this Pokémon is in the Active Spot, put a random card from your deck that evolves from this Pokémon onto this Pokémon to evolve it."@ {
        Some(AbilityMechanic::RandomEvolutionFromDeck { trigger: RandomEvolutionTrigger::EndOfOpponentTurnIfActive, })
    } else {
        None
    }
}

/// The mechanic registered for an Ability's printed effect text, if any.
pub open spec fn spec_ability_mechanic_from_effect(text: Seq<char>) -> Option<AbilityMechanic> {
    if spec_registry_part0(text) is Some {
        spec_registry_part0(text)
    } else if spec_registry_part1(text) is Some {
        spec_registry_part1(text)
    } else if spec_registry_part2(text) is Some {
        spec_registry_part2(text)
    } else if spec_registry_part3(text) is Some {
        spec_registry_part3(text)
    } else if spec_registry_part4(text) is Some {
        spec_registry_part4(text)
    } else if spec_registry_part5(text) is Some {
        spec_registry_part5(text)
    } else {
        spec_registry_part6(text)
    }
}

fn registry_part0(effect: &str) -> (r: Option<AbilityMechanic>)
    ensures
        r == spec_registry_part0(effect@),
{
    if str_equal(effect, "Each of your evolved Pokémon can use any attack from its previous Evolutions. (You still need the necessary Energy to use each attack.)") {
        Some(AbilityMechanic::TimeRecall)
    } else if str_equal(effect, "As long as this Pokémon is in the Active Spot, attacks used by your opponent's Active Pokémon cost 1 [C] more.") {
        Some(AbilityMechanic::IncreaseAttackCostForOpponentActive { amount: 1 })
    } else if str_equal(effect, "As long as this Pokémon is in the Active Spot, attacks used by your opponent's Active Pokémon do -20 damage.") {
        Some(AbilityMechanic::ReduceOpponentActiveDamage { amount: 20 })
    } else if str_equal(effect, "As long as this Pokémon is in the Active Spot, it can evolve during your first turn or the turn you play it.") {
        Some(AbilityMechanic::CanEvolveOnFirstTurnIfActive)
    } else if str_equal(effect, "As long as this Pokémon is in the Active Spot, whenever you attach an Energy from your Energy Zone to it, it is now Asleep.") {
        Some(AbilityMechanic::SleepOnZoneAttachToSelfWhileActive)
    } else if str_equal(effect, "As long as this Pokémon is in the Active Spot, whenever your opponent attaches an Energy from their Energy Zone to 1 of their Pokémon, do 20 damage to that Pokémon.") {
        Some(AbilityMechanic::ElectromagneticWall)
    } else if str_equal(effect, "As long as this Pokémon is in the Active Spot, your opponent can't use any Supporter cards from their hand.") {
        Some(AbilityMechanic::NoOpponentSupportInActive)
    } else if str_equal(effect, "As long as this Pokémon is in the Active Spot, your opponent can't play any Stadium cards from their hand.") {
        Some(AbilityMechanic::NoOpponentStadiumInActive)
    } else if str_equal(effect, "As long as this Pokémon is on your Bench, attacks used by your Pokémon that evolve from Poliwhirl do +40 damage to your opponent's Active Pokémon.") {
        Some(AbilityMechanic::IncreaseDamageForEvolutionsFromBench { evolves_from: "Poliwhirl", amount: 40, })
    } else if str_equal(effect, "As long as this Pokémon is on your Bench, prevent all damage done to this Pokémon by attacks.") {
        Some(AbilityMechanic::PreventDamageWhileBenched)
    } else if str_equal(effect, "As long as this Pokémon is on your Bench, your Active Basic Pokémon's Retreat Cost is 1 less.") {
        Some(AbilityMechanic::ReduceRetreatCostOfYourActiveBasicFromBench { amount: 1 })
    } else if str_equal(effect, "As often as you like during your turn, you may choose 1 of your Pokémon that has damage on it, and move all of its damage to this Pokémon.") {
        Some(AbilityMechanic::MoveDamageFromOneYourPokemonToThisPokemon)
    } else if str_equal(effect, "As often as you like during your turn, you may move a [W] Energy from 1 of your Benched [W] Pokémon to your Active [W] Pokémon.") {
        Some(AbilityMechanic::MoveTypedEnergyFromBenchToActive { energy_type: EnergyType::Water, })
    } else if str_equal(effect, "At the beginning of your turn, if this Pokémon is in the Active Spot, put a random [P] Pokémon from your deck into your hand.") {
        Some(AbilityMechanic::StartTurnRandomPokemonToHand { energy_type: EnergyType::Psychic, })
    } else if str_equal(effect, "At the end of your first turn, take a [L] Energy from your Energy Zone and attach it to this Pokémon.") {
        Some(AbilityMechanic::EndFirstTurnAttachEnergyToSelf { energy_type: EnergyType::Lightning, })
    } else if str_equal(effect, "At the end of your turn, if this Pokémon is in the Active Spot, draw a card.") {
        Some(AbilityMechanic::EndTurnDrawCardIfActive { amount: 1 })
    } else if str_equal(effect, "At the end of your turn, if this Pokémon is in the Active Spot, heal 20 damage from it.") {
        Some(AbilityMechanic::EndTurnHealSelfIfActive { amount: 20 })
    } else if str_equal(effect, "Attacks used by your [F] Pokémon do +20 damage to your opponent's Active Pokémon.") {
        Some(AbilityMechanic::IncreaseDamageForTypeInPlay { energy_type: EnergyType::Fighting, amount: 20, })
    } else if str_equal(effect, "Attacks used by your [P] Pokémon and [M] Pokémon do +30 damage to your opponent's Active Pokémon.") {
        Some(AbilityMechanic::IncreaseDamageForTwoTypesInPlay { energy_type_a: EnergyType::Psychic, energy_type_b: EnergyType::Metal, amount: 30, })
    } else if str_equal(effect, "During Pokémon Checkup, if this Pokémon is in the Active Spot, do 10 damage to your opponent's Active Pokémon.") {
        Some(AbilityMechanic::CheckupDamageToOpponentActive { amount: 10 })
    } else {
        None
    }
}

fn registry_part1(effect: &str) -> (r: Option<AbilityMechanic>)
    ensures
        r == spec_registry_part1(effect@),
{
    if str_equal(effect, "During Pokémon Checkup, heal 10 damage from each of your Pokémon.") {
        Some(AbilityMechanic::CheckupHealAllYourPokemon { amount: 10 })
    } else if str_equal(effect, "During your first turn, this Pokémon has no Retreat Cost.") {
        Some(AbilityMechanic::NoRetreatCost { target: NoRetreatCostTarget::ThisPokemon, condition: NoRetreatCostCondition::YourFirstTurn, })
    } else if str_equal(effect, "Each [G] Energy attached to your [G] Pokémon provides 2 [G] Energy. This effect doesn't stack.") {
        Some(AbilityMechanic::DoubleGrassEnergy)
    } else if str_equal(effect, "Each of your Pokémon that has any Energy attached recovers from all Special Conditions and can't be affected by any Special Conditions.") {
        Some(AbilityMechanic::SoothingWind { energy_type: None })
    } else if str_equal(effect, "Each of your Pokémon that has any [P] Energy attached recovers from all Special Conditions and can't be affected by any Special Conditions.") {
        Some(AbilityMechanic::SoothingWind { energy_type: Some(EnergyType::Psychic), })
    } else if str_equal(effect, "Each of your [G] Pokémon gets +20 HP.") {
        Some(AbilityMechanic::IncreaseHpForTypeInPlay { energy_type: EnergyType::Grass, amount: 20, })
    } else if str_equal(effect, "If a Stadium is in play, this Pokémon has no Retreat Cost.") {
        Some(AbilityMechanic::NoRetreatCost { target: NoRetreatCostTarget::ThisPokemon, condition: NoRetreatCostCondition::StadiumInPlay, })
    } else if str_equal(effect, "If any damage is done to this Pokémon by attacks, flip a coin. If heads, prevent that damage.") {
        Some(AbilityMechanic::CoinFlipToPreventDamage)
    } else if str_equal(effect, "If any damage is done to this Pokémon by attacks, flip a coin. If heads, this Pokémon takes -100 damage from that attack.") {
        Some(AbilityMechanic::CoinFlipToReduceDamage { amount: 100 })
    } else if str_equal(effect, "If any damage is done to this Pokémon by attacks, flip a coin. If heads, this Pokémon takes -80 damage from that attack.") {
        Some(AbilityMechanic::CoinFlipToReduceDamage { amount: 80 })
    } else if str_equal(effect, "If this Pokémon has a Pokémon Tool attached, attacks used by this Pokémon cost 1 less [G] Energy.") {
        Some(AbilityMechanic::ReduceAttackCost { energy_type: EnergyType::Grass, amount: 1, scope: AttackCostReductionScope::SelfIfToolAttached, })
    } else if str_equal(effect, "If this Pokémon has any Energy attached, it has no Retreat Cost.") {
        Some(AbilityMechanic::NoRetreatIfHasEnergy)
    } else if str_equal(effect, "If this Pokémon has full HP, it takes -40 damage from attacks from your opponent's Pokémon.") {
        Some(AbilityMechanic::ReduceDamageAtFullHp { amount: 40 })
    } else if str_equal(effect, "If this Pokémon is in the Active Spot and is Knocked Out by damage from an attack from your opponent's Pokémon, do 10 damage to each of your opponent's Pokémon.") {
        Some(AbilityMechanic::DamageOnKnockoutInActive { amount: 10, target: KnockoutDamageTarget::EachOpponentPokemon, })
    } else if str_equal(effect, "If this Pokémon is in the Active Spot and is Knocked Out by damage from an attack from your opponent's Pokémon, do 50 damage to the Attacking Pokémon.") {
        Some(AbilityMechanic::DamageOnKnockoutInActive { amount: 50, target: KnockoutDamageTarget::Attacker, })
    } else if str_equal(effect, "If this Pokémon is in the Active Spot and is Knocked Out by damage from an attack from your opponent's Pokémon, flip a coin. If heads, the Attacking Pokémon is Knocked Out.") {
        Some(AbilityMechanic::CoinFlipToKnockOutAttackerOnKnockout)
    } else if str_equal(effect, "If this Pokémon is in the Active Spot and is Knocked Out by damage from an attack from your opponent's Pokémon, move all [F] Energy from this Pokémon to 1 of your Benched Pokémon.") {
        Some(AbilityMechanic::MoveAllTypedEnergyToBenchOnKnockout { energy_type: EnergyType::Fighting, })
    } else if str_equal(effect, "If this Pokémon is in the Active Spot and is damaged by an attack from your opponent's Pokémon, do 20 damage to the Attacking Pokémon.") {
        Some(AbilityMechanic::CounterattackDamage { amount: 20 })
    } else if str_equal(effect, "If this Pokémon is in the Active Spot and is damaged by an attack from your opponent's Pokémon, take a [W] Energy from your Energy Zone and attach it to 1 of your Benched Pokémon.") {
        Some(AbilityMechanic::AttachEnergyFromZoneToBenchOnDamaged { energy_type: EnergyType::Water, })
    } else if str_equal(effect, "If this Pokémon is in the Active Spot and is damaged by an attack from your opponent's Pokémon, the Attacking Pokémon is now Poisoned.") {
        Some(AbilityMechanic::PoisonAttackerOnDamaged)
    } else {
        None
    }
}

fn registry_part2(effect: &str) -> (r: Option<AbilityMechanic>)
    ensures
        r == spec_registry_part2(effect@),
{
    if str_equal(effect, "If this Pokémon is in the Active Spot, once during your turn, you may switch in 1 of your opponent's Benched Basic Pokémon to the Active Spot.") {
        Some(AbilityMechanic::VictreebelFragranceTrap)
    } else if str_equal(effect, "If this Pokémon would be Knocked Out by damage from an attack, flip a coin. If heads, this Pokémon is not Knocked Out, and its remaining HP becomes 10.") {
        Some(AbilityMechanic::CoinFlipToSurviveKnockOut)
    } else if str_equal(effect, "If you have Arceus or Arceus ex in play, attacks used by this Pokémon cost 1 less [C] Energy.") {
        Some(AbilityMechanic::ReduceAttackCost { energy_type: EnergyType::Colorless, amount: 1, scope: AttackCostReductionScope::SelfIfArceusInPlay, })
    } else if str_equal(effect, "If you have Arceus or Arceus ex in play, attacks used by this Pokémon do +30 damage to your opponent's Active Pokémon.") {
        Some(AbilityMechanic::IncreaseDamageIfArceusInPlay { amount: 30 })
    } else if str_equal(effect, "If you have another Falinks in play, this Pokémon's attacks do +20 damage to your opponent's Active Pokémon, and this Pokémon takes -20 damage from attacks from your opponent's Pokémon.") {
        Some(AbilityMechanic::CoordinatedUnit { pokemon_name: "Falinks", damage_bonus: 20, damage_reduction: 20, })
    } else if str_equal(effect, "If you have Arceus or Arceus ex in play, this Pokémon takes -30 damage from attacks.") {
        Some(AbilityMechanic::ReduceDamageIfArceusInPlay { amount: 30 })
    } else if str_equal(effect, "If you have Arceus or Arceus ex in play, this Pokémon has no Retreat Cost.") {
        Some(AbilityMechanic::NoRetreatCost { target: NoRetreatCostTarget::ThisPokemon, condition: NoRetreatCostCondition::NamedPokemonInPlay(&["Arceus", "Arceus ex"]), })
    } else if str_equal(effect, "If you have Latias in play, this Pokémon has no Retreat Cost.") {
        Some(AbilityMechanic::NoRetreatCost { target: NoRetreatCostTarget::ThisPokemon, condition: NoRetreatCostCondition::NamedPokemonInPlay(&["Latias"]), })
    } else if str_equal(effect, "If your opponent's Pokémon is Knocked Out by damage from this Pokémon's attacks, during your opponent's next turn, prevent all damage from—and effects of—attacks done to this Pokémon.") {
        Some(AbilityMechanic::ProtectSelfNextTurnAfterAttackKnockout)
    } else if str_equal(effect, "Once during your turn, if this Pokémon is in the Active Spot, you may heal 30 damage from 1 of your Pokémon.") {
        Some(AbilityMechanic::HealOneYourPokemon { amount: 30, require_active: true, require_tool_attached: false, })
    } else if str_equal(effect, "Once during your turn, if this Pokémon has a Pokémon Tool attached, you may heal 30 damage from 1 of your Pokémon.") {
        Some(AbilityMechanic::HealOneYourPokemon { amount: 30, require_active: false, require_tool_attached: true, })
    } else if str_equal(effect, "Once during your turn, if this Pokémon is in the Active Spot, you may look at a random Supporter card from your opponent's hand. Use the effect of that card as the effect of this Ability.") {
        Some(AbilityMechanic::CopyRandomOpponentHandSupporter)
    } else if str_equal(effect, "Once during your turn, if this Pokémon is in the Active Spot, you may make your opponent's Active Pokémon Poisoned.") {
        Some(AbilityMechanic::PoisonOpponentActive)
    } else if str_equal(effect, "Once during your turn, if this Pokémon is in the Active Spot, you may switch in 1 of your opponent's Benched Pokémon that has damage on it to the Active Spot.") {
        Some(AbilityMechanic::SwitchDamagedOpponentBenchToActive)
    } else if str_equal(effect, "Once during your turn, if this Pokémon is in the Active Spot, you may take a [G] Energy from your Energy Zone and attach it to 1 of your [G] Pokémon.") {
        Some(AbilityMechanic::AttachEnergyFromZoneToYourTypedPokemon { energy_type: EnergyType::Grass, })
    } else if str_equal(effect, "Once during your turn, if this Pokémon is on your Bench, you may discard all Pokémon Tools from your opponent's Active Pokémon. If you do, discard this Pokémon.") {
        Some(AbilityMechanic::DiscardOpponentActiveToolsAndDiscardSelf)
    } else if str_equal(effect, "Once during your turn, if this Pokémon is on your Bench, you may switch it with your Active Pokémon.") {
        Some(AbilityMechanic::SwitchThisBenchWithActive)
    } else if str_equal(effect, "Once during your turn, if you have Arceus or Arceus ex in play, you may do 30 damage to your opponent's Active Pokémon.") {
        Some(AbilityMechanic::DamageOpponentActiveIfArceusInPlay { amount: 30 })
    } else if str_equal(effect, "Once during your turn, when you play this Pokémon from your hand to evolve 1 of your Pokémon, you may discard a random Energy from your opponent's Active Pokémon.") {
        Some(AbilityMechanic::DiscardRandomEnergyFromOpponentActiveOnEvolve)
    } else if str_equal(effect, "Once during your turn, when you play this Pokémon from your hand to evolve 1 of your Pokémon, you may draw 2 cards.") {
        Some(AbilityMechanic::DrawCardsOnEvolve { amount: 2 })
    } else {
        None
    }
}

fn registry_part3(effect: &str) -> (r: Option<AbilityMechanic>)
    ensures
        r == spec_registry_part3(effect@),
{
    if str_equal(effect, "Once during your turn, when you play this Pokémon from your hand to evolve 1 of your Pokémon, you may have your opponent shuffle their hand into their deck. For each remaining point that your opponent needs to win, they draw a card.") {
        Some(AbilityMechanic::OpponentShuffleHandAndDrawOnEvolve)
    } else if str_equal(effect, "Once during your turn, when you play this Pokémon from your hand to evolve 1 of your Pokémon, you may heal 60 damage from 1 of your [W] Pokémon.") {
        Some(AbilityMechanic::HealTypedPokemonOnEvolve { energy_type: EnergyType::Water, amount: 60, })
    } else if str_equal(effect, "Once during your turn, when you play this Pokémon from your hand to evolve 1 of your Pokémon, you may put 2 random Pokémon Tool cards from your discard pile into your hand.") {
        Some(AbilityMechanic::PutCardsFromDiscardToHandOnEvolve { card_kind: DiscardSearchKind::Tool, selection: DiscardSelection::RandomCards(2), })
    } else if str_equal(effect, "Once during your turn, when you play this Pokémon from your hand to evolve 1 of your Pokémon, you may put a Supporter card from your discard pile into your hand.") {
        Some(AbilityMechanic::PutCardsFromDiscardToHandOnEvolve { card_kind: DiscardSearchKind::Supporter, selection: DiscardSelection::PlayerChoosesOne, })
    } else if str_equal(effect, "Once during your turn, when you play this Pokémon from your hand to evolve 1 of your Pokémon, you may take a [R] Energy from your Energy Zone and attach it to your Active [R] Pokémon.") {
        Some(AbilityMechanic::AttachEnergyFromZoneToActiveTypedOnEvolve { energy_type: EnergyType::Fire, })
    } else if str_equal(effect, "Once during your turn, when you put this Pokémon from your hand onto your Bench, you may have your opponent reveal their hand.") {
        Some(AbilityMechanic::InfiltratingInspection)
    } else if str_equal(effect, "Once during your turn, you may attach a [R] Energy from your discard pile to this Pokémon. If you do, do 20 damage to this Pokémon.") {
        Some(AbilityMechanic::AttachEnergyFromDiscardToSelfAndDamage { energy_type: EnergyType::Fire, self_damage: 20, })
    } else if str_equal(effect, "Once during your turn, you may choose either player. Look at the top card of that player's deck.") {
        Some(AbilityMechanic::LookAtTopCardOfDeck { either_player: true, })
    } else if str_equal(effect, "Once during your turn, you may discard the top card of your opponent's deck.") {
        Some(AbilityMechanic::DiscardTopCardOpponentDeck)
    } else if str_equal(effect, "Once during your turn, you may do 20 damage to 1 of your opponent's Pokémon.") {
        Some(AbilityMechanic::DamageOneOpponentPokemon { amount: 20 })
    } else if str_equal(effect, "Once during your turn, you may flip a coin. If heads, switch in 1 of your opponent's Benched Pokémon to the Active Spot.") {
        Some(AbilityMechanic::CoinFlipSwitchInOpponentBenchToActive)
    } else if str_equal(effect, "Once during your turn, you may flip a coin. If heads, your opponent's Active Pokémon is now Asleep.") {
        Some(AbilityMechanic::CoinFlipStatusOpponentActive { status: StatusCondition::Asleep, })
    } else if str_equal(effect, "Once during your turn, you may flip a coin. If heads, your opponent's Active Pokémon is now Poisoned.") {
        Some(AbilityMechanic::CoinFlipStatusOpponentActive { status: StatusCondition::Poisoned, })
    } else if str_equal(effect, "Once during your turn, you may heal 10 damage from each of your Pokémon.") {
        Some(AbilityMechanic::HealAllYourPokemon { amount: 10, energy_type: None, })
    } else if str_equal(effect, "Once during your turn, you may heal 20 damage from each of your Pokémon.") {
        Some(AbilityMechanic::HealAllYourPokemon { amount: 20, energy_type: None, })
    } else if str_equal(effect, "Once during your turn, you may heal 20 damage from your Active Pokémon.") {
        Some(AbilityMechanic::HealActiveYourPokemon { amount: 20 })
    } else if str_equal(effect, "Once during your turn, you may heal 30 damage from each of your [W] Pokémon.") {
        Some(AbilityMechanic::HealAllYourPokemon { amount: 30, energy_type: Some(EnergyType::Water), })
    } else if str_equal(effect, "Once during your turn, you may look at the top card of your deck.") {
        Some(AbilityMechanic::LookAtTopCardOfDeck { either_player: false, })
    } else if str_equal(effect, "Once during your turn, you may make your opponent's Active Pokémon Burned.") {
        Some(AbilityMechanic::BurnOpponentActive)
    } else if str_equal(effect, "Once during your turn, you may move all [D] Energy from each of your Pokémon to this Pokémon.") {
        Some(AbilityMechanic::MoveAllTypedEnergyFromYourPokemonToSelf { energy_type: EnergyType::Darkness, })
    } else {
        None
    }
}

fn registry_part4(effect: &str) -> (r: Option<AbilityMechanic>)
    ensures
        r == spec_registry_part4(effect@),
{
    if str_equal(effect, "Once during your turn, you may move all [P] Energy from 1 of your Benched [P] Pokémon to your Active Pokémon.") {
        Some(AbilityMechanic::MoveAllTypedEnergyFromBenchToActive { energy_type: EnergyType::Psychic, })
    } else if str_equal(effect, "Once during your turn, you may put a random Pokémon Tool card from your deck into your hand.") {
        Some(AbilityMechanic::SearchRandomCardFromDeck { card_kind: DeckSearchKind::Tool, })
    } else if str_equal(effect, "Once during your turn, you may put a random Pokémon from your deck into your hand.") {
        Some(AbilityMechanic::SearchRandomCardFromDeck { card_kind: DeckSearchKind::Pokemon, })
    } else if str_equal(effect, "Once during your turn, you may switch out your opponent's Active Basic Pok\u{e9}mon to the Bench.\u{a0}(Your opponent chooses the new Active Pok\u{e9}mon.)") {
        Some(AbilityMechanic::SwitchOutOpponentActiveToBench { require_active: false, require_opponent_active_basic: true, })
    } else if str_equal(effect, "Once during your turn, if this Pokémon is in the Active Spot, you may switch out your opponent's Active Pokémon to the Bench. (Your opponent chooses the new Active Pokémon.)") {
        Some(AbilityMechanic::SwitchOutOpponentActiveToBench { require_active: true, require_opponent_active_basic: false, })
    } else if str_equal(effect, "Once during your turn, you may switch out your opponent's Active Pok\u{e9}mon to the Bench.\u{a0}(Your opponent chooses the new Active Pok\u{e9}mon.)") {
        Some(AbilityMechanic::SwitchOutOpponentActiveToBench { require_active: false, require_opponent_active_basic: false, })
    } else if str_equal(effect, "Once during your turn, you may switch your Active Ultra Beast with 1 of your Benched Ultra Beasts.") {
        Some(AbilityMechanic::SwitchActiveUltraBeastWithBench)
    } else if str_equal(effect, "Once during your turn, you may switch your Active [W] Pokémon with 1 of your Benched Pokémon.") {
        Some(AbilityMechanic::SwitchActiveTypedWithBench { energy_type: EnergyType::Water })
    } else if str_equal(effect, "Once during your turn, you may take 2 [D] Energy from your Energy Zone and attach it to this Pokémon. If you do, do 30 damage to this Pokémon.") {
        Some(AbilityMechanic::AttachEnergyFromZoneToSelfAndDamage { energy_type: EnergyType::Darkness, amount: 2, self_damage: 30, })
    } else if str_equal(effect, "Once during your turn, you may take a [L] Energy from your Energy Zone and attach it to this Pokémon.") {
        Some(AbilityMechanic::AttachEnergyFromZoneToSelf { energy_type: EnergyType::Lightning, amount: 1, })
    } else if str_equal(effect, "Once during your turn, you may take a [W] Energy from your Energy Zone and attach it to this Pokémon.") {
        Some(AbilityMechanic::AttachEnergyFromZoneToSelf { energy_type: EnergyType::Water, amount: 1, })
    } else if str_equal(effect, "Once during your turn, you may take a [P] Energy from your Energy Zone and attach it to the [P] Pokémon in the Active Spot.") {
        Some(AbilityMechanic::AttachEnergyFromZoneToActiveTypedPokemon { energy_type: EnergyType::Psychic, })
    } else if str_equal(effect, "Once during your turn, you may take a [P] Energy from your Energy Zone and attach it to this Pokémon. If you use this Ability, your turn ends.") {
        Some(AbilityMechanic::AttachEnergyFromZoneToSelfAndEndTurn { energy_type: EnergyType::Psychic, })
    } else if str_equal(effect, "Pokémon (both yours and your opponent's) can't be healed.") {
        Some(AbilityMechanic::PreventAllHealing)
    } else if str_equal(effect, "Prevent all damage done to this Pokémon by attacks from your opponent's Pokémon ex.") {
        Some(AbilityMechanic::PreventAllDamageFromEx)
    } else if str_equal(effect, "Prevent all effects of attacks used by your opponent's Pokémon done to this Pokémon.") {
        Some(AbilityMechanic::PreventAttackEffects)
    } else if str_equal(effect, "This Ability works if you have any Unown in play with an Ability other than POWER. Attacks used by your Pokémon do +10 damage to your opponent's Active Pokémon.") {
        Some(AbilityMechanic::UnownPower { amount: 10 })
    } else if str_equal(effect, "This Ability works if you have any Unown in play with an Ability other than GUARD. All of your Pokémon take -10 damage from attacks from your opponent's Pokémon.") {
        Some(AbilityMechanic::UnownGuard { amount: 10 })
    } else if str_equal(effect, "This Pokémon can evolve into any Pokémon that evolves from Eevee if you play it from your hand onto this Pokémon. (This Pokémon can't evolve during your first turn or the turn you play it.)") {
        Some(AbilityMechanic::CanEvolveIntoEeveeEvolution)
    } else if str_equal(effect, "This Pokémon can't be Asleep.") {
        Some(AbilityMechanic::ImmuneToStatusConditions { status: Some(StatusCondition::Asleep), })
    } else {
        None
    }
}

fn registry_part5(effect: &str) -> (r: Option<AbilityMechanic>)
    ensures
        r == spec_registry_part5(effect@),
{
    if str_equal(effect, "This Pokémon can't be affected by any Special Conditions.") {
        Some(AbilityMechanic::ImmuneToStatusConditions { status: None })
    } else if str_equal(effect, "This Pokémon gets +30 HP for each [P] Energy attached to it.") {
        Some(AbilityMechanic::IncreaseHpPerAttachedEnergy { energy_type: EnergyType::Psychic, amount: 30, })
    } else if str_equal(effect, "This Pokémon takes -10 damage from attacks.") {
        Some(AbilityMechanic::ReduceDamageFromAttacks { amount: 10 })
    } else if str_equal(effect, "This Pokémon takes -20 damage from attacks from [R] or [W] Pokémon.") {
        Some(AbilityMechanic::ReduceDamageFromTypedAttackers { energy_types: &[EnergyType::Fire, EnergyType::Water], amount: 20, })
    } else if str_equal(effect, "This Pokémon takes -20 damage from attacks.") {
        Some(AbilityMechanic::ReduceDamageFromAttacks { amount: 20 })
    } else if str_equal(effect, "This Pokémon takes -30 damage from attacks from [F] Pokémon.") {
        Some(AbilityMechanic::ReduceDamageFromTypedAttackers { energy_types: &[EnergyType::Fighting], amount: 30, })
    } else if str_equal(effect, "This Pokémon takes -30 damage from attacks from [R] or [W] Pokémon.") {
        Some(AbilityMechanic::ReduceDamageFromTypedAttackers { energy_types: &[EnergyType::Fire, EnergyType::Water], amount: 30, })
    } else if str_equal(effect, "When this Pokémon is Knocked Out, flip a coin. If heads, your opponent can't get any points for it.") {
        Some(AbilityMechanic::CoinFlipToDenyKnockoutPoints)
    } else if str_equal(effect, "When this Pokémon is first damaged by an attack after coming into play, prevent that damage.") {
        Some(AbilityMechanic::PreventFirstAttack)
    } else if str_equal(effect, "Whenever you attach a [D] Energy from your Energy Zone to this Pokémon, do 20 damage to your opponent's Active Pokémon.") {
        Some(AbilityMechanic::DamageOpponentActiveOnZoneAttachToSelf { energy_type: EnergyType::Darkness, amount: 20, only_turn_energy: true, })
    } else if str_equal(effect, "Whenever you attach a [P] Energy from your Energy Zone to this Pokémon, heal 20 damage from this Pokémon.") {
        Some(AbilityMechanic::HealSelfOnZoneAttach { energy_type: EnergyType::Psychic, amount: 20, })
    } else if str_equal(effect, "Whenever you attach an Energy from your Energy Zone to this Pokémon, put a random card from your deck that evolves from this Pokémon onto this Pokémon to evolve it.") {
        Some(AbilityMechanic::RandomEvolutionFromDeck { trigger: RandomEvolutionTrigger::OnEnergyZoneAttachToSelf, })
    } else if str_equal(effect, "You must discard a card from your hand in order to use this Ability. Once during your turn, you may draw a card.") {
        Some(AbilityMechanic::DiscardFromHandToDrawCard)
    } else if str_equal(effect, "Your Active Dondozo has no Retreat Cost.") {
        Some(AbilityMechanic::NoRetreatCost { target: NoRetreatCostTarget::YourActiveNamed("Dondozo"), condition: NoRetreatCostCondition::Always, })
    } else if str_equal(effect, "Your Active Pokémon has no Retreat Cost.") {
        Some(AbilityMechanic::NoRetreatCost { target: NoRetreatCostTarget::YourActive, condition: NoRetreatCostCondition::Always, })
    } else if str_equal(effect, "Your opponent can't play any Pokémon from their hand to evolve their Active Pokémon.") {
        Some(AbilityMechanic::PreventOpponentActiveEvolution)
    } else if str_equal(effect, "Your opponent's Active Pokémon takes +10 damage from being Poisoned.") {
        Some(AbilityMechanic::IncreasePoisonDamage { amount: 10 })
    } else if str_equal(effect, "Your opponent's Active Pokémon's Retreat Cost is 1 more.") {
        Some(AbilityMechanic::IncreaseRetreatCostForOpponentActive { amount: 1 })
    } else if str_equal(effect, "Basic Pokémon in play (both yours and your opponent's) have no Abilities.") {
        Some(AbilityMechanic::SuppressBasicAbilities)
    } else if str_equal(effect, "If this Pokémon's remaining HP is 50 or less, attacks used by this Pokémon do +60 damage to your opponent's Active Pokémon.") {
        Some(AbilityMechanic::IncreaseDamageWhenRemainingHpAtMost { amount: 60, hp_threshold: 50, })
    } else {
        None
    }
}

fn registry_part6(effect: &str) -> (r: Option<AbilityMechanic>)
    ensures
        r == spec_registry_part6(effect@),
{
    if str_equal(effect, "Once during your turn, you may discard 1 [R] Energy from this Pokémon in order to use this Ability. During this turn, attacks used by your [R] Pokémon do +50 damage to your opponent's Active Pokémon.") {
        Some(AbilityMechanic::DiscardEnergyToIncreaseTypeDamage { discard_energy: EnergyType::Fire, attack_type: EnergyType::Fire, amount: 50, })
    } else if str_equal(effect, "Once during your turn, you may heal 60 damage from 1 of your Pokémon ex that has any Energy attached. If you do, discard a random Energy from that Pokémon.") {
        Some(AbilityMechanic::HealOneYourPokemonExAndDiscardRandomEnergy { amount: 60 })
    } else if str_equal(effect, "Once during your turn, you may take a [W] Energy from your Energy Zone and attach it to the [W] Pokémon in the Active Spot.") {
        Some(AbilityMechanic::AttachEnergyFromZoneToActiveTypedPokemon { energy_type: EnergyType::Water, })
    } else if str_equal(effect, "This Pokémon takes -30 damage from attacks.") {
        Some(AbilityMechanic::ReduceDamageFromAttacks { amount: 30 })
    } else if str_equal(effect, "At the end of each turn, if your opponent's Active Pokémon is Asleep, do 20 damage to that Pokémon.") {
        Some(AbilityMechanic::BadDreamsEndOfTurn { amount: 20 })
    } else if str_equal(effect, "Once during your turn, you may switch your Active [M] Pokémon with 1 of your Benched Pokémon.") {
        Some(AbilityMechanic::SwitchActiveTypedWithBench { energy_type: EnergyType::Metal })
    } else if str_equal(effect, "Once during your turn, when you put this Pokémon from your hand onto your Bench, you may switch it with your Active Pokémon. If you do, move all of your Energy in play to this Pokémon.") {
        Some(AbilityMechanic::LegendaryDrive)
    } else if str_equal(effect, "Once during your turn, when you put this Pokémon from your hand onto your Bench, you may switch out your opponent's Active Pokémon to the Bench. (Your opponent chooses the new Active Pokémon.)") {
        Some(AbilityMechanic::AncientRoar)
    } else if str_equal(effect, "Attacks used by your Future Pokémon cost 1 less [C] Energy.") {
        Some(AbilityMechanic::ReduceAttackCost { energy_type: EnergyType::Colorless, amount: 1, scope: AttackCostReductionScope::YourFuturePokemon, })
    } else if str_equal(effect, "As long as this Pokémon is in play, it is [F] and [D] type.") {
        Some(AbilityMechanic::DualType { types: [EnergyType::Fighting, EnergyType::Darkness], })
    } else if str_equal(effect, "As long as this Pokémon is in play, it is [W] and [F] type.") {
        Some(AbilityMechanic::DualType { types: [EnergyType::Water, EnergyType::Fighting], })
    } else if str_equal(effect, "As long as this Pokémon is on your Bench, your Active [D] Pokémon's Retreat Cost is 1 less.") {
        Some(AbilityMechanic::ReduceRetreatCostOfYourActiveTypedFromBench { energy_type: EnergyType::Darkness, amount: 1, })
    } else if str_equal(effect, "During Pokémon Checkup, if this Pokémon is in the Active Spot, do 10 damage to each of your opponent's Pokémon.") {
        Some(AbilityMechanic::CheckupDamageToAllOpponentPokemon { amount: 10 })
    } else if str_equal(effect, "If you don't have Regirock, Regice, and Registeel on your Bench, this Pokémon can't attack.") {
        Some(AbilityMechanic::CannotAttackWithoutBenchedNames { required_bench_names: &["Regirock", "Regice", "Registeel"], })
    } else if str_equal(effect, "Once during your turn, if this Pokémon is in the Active Spot, you may make your opponent's Active Pokémon Confused.") {
        Some(AbilityMechanic::ConfuseOpponentActive)
    } else if str_equal(effect, "Once during your turn, if this Pokémon is on your Bench, you may move 30 damage that your Active Pokémon has on it to this Pokémon.") {
        Some(AbilityMechanic::MoveFixedDamageFromActiveToThisBenched { amount: 30 })
    } else if str_equal(effect, "Once during your turn, when you play this Pokémon from your hand to evolve 1 of your Pokémon, you may do 20 damage to your opponent's Active Pokémon.") {
        Some(AbilityMechanic::DamageOpponentActiveOnEvolve { amount: 20 })
    } else if str_equal(effect, "Once during your turn, when you play this Pokémon from your hand to evolve 1 of your Pokémon, you may do 30 damage to your opponent's Active Pokémon.") {
        Some(AbilityMechanic::DamageOpponentActiveOnEvolve { amount: 30 })
    } else if str_equal(effect, "Once during your turn, you may remove a random Special Condition from your Active Pokémon.") {
        Some(AbilityMechanic::RemoveRandomSpecialConditionFromActive)
    } else if str_equal(effect, "At the end of your opponent's turn, if this Pokémon is in the Active Spot, put a random card from your deck that evolves from this Pokémon onto this Pokémon to evolve it.") {
        Some(AbilityMechanic::RandomEvolutionFromDeck { trigger: RandomEvolutionTrigger::EndOfOpponentTurnIfActive, })
    } else {
        None
    }
}

/// The mechanic registered for an Ability's printed effect text, `None` for text no mechanic
/// implements.
pub fn ability_mechanic_from_effect(effect: &str) -> (r: Option<AbilityMechanic>)
    ensures
        r == spec_ability_mechanic_from_effect(effect@),
{
    let r0 = registry_part0(effect);
    if r0.is_some() {
        return r0;
    }
    let r1 = registry_part1(effect);
    if r1.is_some() {
        return r1;
    }
    let r2 = registry_part2(effect);
    if r2.is_some() {
        return r2;
    }
    let r3 = registry_part3(effect);
    if r3.is_some() {
        return r3;
    }
    let r4 = registry_part4(effect);
    if r4.is_some() {
        return r4;
    }
    let r5 = registry_part5(effect);
    if r5.is_some() {
        return r5;
    }
    registry_part6(effect)
}

} // verus!
