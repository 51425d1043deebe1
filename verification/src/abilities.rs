//! The Ability mechanics the engine implements, and the small enums their parameters use.
use vstd::prelude::*;

use crate::models::{EnergyType, StatusCondition};
use crate::text::str_equal;

verus! {

/// Which Pokémon a no-Retreat-Cost Ability frees.
#[derive(Debug, Clone, Copy, PartialEq, Eq)]
pub enum NoRetreatCostTarget {
    /// The Ability holder itself.
    ThisPokemon,
    /// Your Active Pokémon, from anywhere in play.
    YourActive,
    /// Your Active Pokémon with this name.
    YourActiveNamed(&'static str),
}

/// The condition under which a no-Retreat-Cost Ability applies.
#[derive(Debug, Clone, Copy, PartialEq, Eq)]
pub enum NoRetreatCostCondition {
    Always,
    /// You have a Pokémon with one of these names in play.
    NamedPokemonInPlay(&'static [&'static str]),
    /// A Stadium is in play.
    StadiumInPlay,
    /// It is your first turn.
    YourFirstTurn,
}

/// What a random deck search may find.
#[derive(Debug, Clone, Copy, PartialEq, Eq, Hash, Structural)]
pub enum DeckSearchKind {
    Pokemon,
    Tool,
}

/// What a discard-pile search may find.
#[derive(Debug, Clone, Copy, PartialEq, Eq, Hash, Structural)]
pub enum DiscardSearchKind {
    Supporter,
    Tool,
}

/// How the cards of a discard-pile search are picked.
#[derive(Debug, Clone, Copy, PartialEq, Eq, Structural)]
pub enum DiscardSelection {
    RandomCards(u8),
    PlayerChoosesOne,
}

/// Which Pokémon an attack-cost reduction applies to.
#[derive(Debug, Clone, Copy, PartialEq, Eq, Structural)]
pub enum AttackCostReductionScope {
    SelfIfToolAttached,
    SelfIfArceusInPlay,
    YourFuturePokemon,
}

/// When a random evolution from the deck fires.
#[derive(Debug, Clone, Copy, PartialEq, Eq, Structural)]
pub enum RandomEvolutionTrigger {
    EndOfOpponentTurnIfActive,
    OnEnergyZoneAttachToSelf,
}

/// Who takes the damage of an on-knockout Ability.
#[derive(Debug, Clone, Copy, PartialEq, Eq, Structural)]
pub enum KnockoutDamageTarget {
    EachOpponentPokemon,
    Attacker,
}

#[derive(Debug, Clone, PartialEq)]
#[allow(inconsistent_fields)]
pub enum AbilityMechanic {
    VictreebelFragranceTrap,
    HealAllYourPokemon { amount: u32, energy_type: Option<EnergyType> },
    HealOneYourPokemon { amount: u32, require_active: bool, require_tool_attached: bool },
    HealOneYourPokemonExAndDiscardRandomEnergy { amount: u32 },
    CheckupHealAllYourPokemon { amount: u32 },
    DamageOneOpponentPokemon { amount: u32 },
    IncreaseDamageIfArceusInPlay { amount: u32 },
    DamageOpponentActiveIfArceusInPlay { amount: u32 },
    SwitchDamagedOpponentBenchToActive,
    CoinFlipSwitchInOpponentBenchToActive,
    SwitchThisBenchWithActive,
    SwitchActiveTypedWithBench { energy_type: EnergyType },
    SwitchActiveUltraBeastWithBench,
    MoveTypedEnergyFromBenchToActive { energy_type: EnergyType },
    /// Lunala ex's Psychic Connect: all of the chosen Benched Pokémon's matching Energy moves to
    /// the Active Pokémon at once, once per turn.
    MoveAllTypedEnergyFromBenchToActive { energy_type: EnergyType },
    MoveAllTypedEnergyFromYourPokemonToSelf { energy_type: EnergyType },
    AttachEnergyFromZoneToActiveTypedPokemon { energy_type: EnergyType },
    AttachEnergyFromZoneToYourTypedPokemon { energy_type: EnergyType },
    AttachEnergyFromZoneToSelf { energy_type: EnergyType, amount: u32 },
    AttachEnergyFromZoneToSelfAndEndTurn { energy_type: EnergyType },
    AttachEnergyFromZoneToSelfAndDamage { energy_type: EnergyType, amount: u32, self_damage: u32 },
    AttachEnergyFromZoneToBenchOnDamaged { energy_type: EnergyType },
    DamageOpponentActiveOnZoneAttachToSelf { energy_type: EnergyType, amount: u32, only_turn_energy: bool },
    AttachEnergyFromDiscardToSelfAndDamage { energy_type: EnergyType, self_damage: u32 },
    ReduceDamageFromAttacks { amount: u32 },
    ReduceOpponentActiveDamage { amount: u32 },
    ReduceDamageFromTypedAttackers { energy_types: &'static [EnergyType], amount: u32 },
    ReduceDamageIfArceusInPlay { amount: u32 },
    ReduceDamageAtFullHp { amount: u32 },
    /// GUARD: works while you have another Unown in play with a different Ability.
    UnownGuard { amount: u32 },
    IncreaseDamageWhenRemainingHpAtMost { amount: u32, hp_threshold: u32 },
    IncreaseDamageForTypeInPlay { energy_type: EnergyType, amount: u32 },
    IncreaseDamageForTwoTypesInPlay { energy_type_a: EnergyType, energy_type_b: EnergyType, amount: u32 },
    /// POWER: works while you have an Unown in play whose Ability is other than POWER; attacks
    /// used by your Pokémon do +`amount` damage to the opponent's Active Pokémon.
    UnownPower { amount: u32 },
    /// While the holder is Benched, attacks used by your Pokémon that evolve from
    /// `evolves_from` do +`amount` damage to the opponent's Active Pokémon.
    IncreaseDamageForEvolutionsFromBench { evolves_from: &'static str, amount: u32 },
    /// If you have another Pokémon named `pokemon_name` in play, the holder's attacks do
    /// +`damage_bonus` damage and it takes -`damage_reduction` damage from attacks.
    CoordinatedUnit { pokemon_name: &'static str, damage_bonus: u32, damage_reduction: u32 },
    StartTurnRandomPokemonToHand { energy_type: EnergyType },
    SearchRandomCardFromDeck { card_kind: DeckSearchKind },
    LookAtTopCardOfDeck { either_player: bool },
    MoveDamageFromOneYourPokemonToThisPokemon,
    DiscardOpponentActiveToolsAndDiscardSelf,
    PreventFirstAttack,
    ElectromagneticWall,
    InfiltratingInspection,
    DiscardTopCardOpponentDeck,
    CoinFlipToPreventDamage,
    /// On heads, the holder takes `amount` less damage from that attack.
    CoinFlipToReduceDamage { amount: u32 },
    /// On heads, the holder is not Knocked Out and its remaining HP becomes 10.
    CoinFlipToSurviveKnockOut,
    /// When the holder is Knocked Out, on heads the opponent gets no points for it.
    CoinFlipToDenyKnockoutPoints,
    CoinFlipToKnockOutAttackerOnKnockout,
    MoveAllTypedEnergyToBenchOnKnockout { energy_type: EnergyType },
    DamageOnKnockoutInActive { amount: u32, target: KnockoutDamageTarget },
    CheckupDamageToOpponentActive { amount: u32 },
    CheckupDamageToAllOpponentPokemon { amount: u32 },
    DiscardEnergyToIncreaseTypeDamage { discard_energy: EnergyType, attack_type: EnergyType, amount: u32 },
    CoinFlipStatusOpponentActive { status: StatusCondition },
    PoisonOpponentActive,
    ConfuseOpponentActive,
    BurnOpponentActive,
    RemoveRandomSpecialConditionFromActive,
    HealActiveYourPokemon { amount: u32 },
    SwitchOutOpponentActiveToBench { require_active: bool, require_opponent_active_basic: bool },
    BadDreamsEndOfTurn { amount: u32 },
    EndTurnDrawCardIfActive { amount: u32 },
    EndTurnHealSelfIfActive { amount: u32 },
    DiscardFromHandToDrawCard,
    /// `status: None` means every Special Condition.
    ImmuneToStatusConditions { status: Option<StatusCondition> },
    /// Each of your Pokémon with the required Energy attached (any Energy when `None`)
    /// recovers from all Special Conditions and can't be affected by any.
    SoothingWind { energy_type: Option<EnergyType> },
    NoOpponentSupportInActive,
    /// While the holder is Active, the opponent can't play Stadium cards from their hand.
    NoOpponentStadiumInActive,
    DoubleGrassEnergy,
    PreventOpponentActiveEvolution,
    ReduceRetreatCostOfYourActiveBasicFromBench { amount: u32 },
    ReduceRetreatCostOfYourActiveTypedFromBench { energy_type: EnergyType, amount: u32 },
    /// If you have another Pokémon with the holder's name in play, its Retreat Cost is
    /// `amount` less.
    ReduceOwnRetreatCostIfAnotherSameNameInPlay { amount: u8 },
    NoRetreatIfHasEnergy,
    NoRetreatCost { target: NoRetreatCostTarget, condition: NoRetreatCostCondition },
    PreventAllDamageFromEx,
    PreventAttackEffects,
    SleepOnZoneAttachToSelfWhileActive,
    IncreasePoisonDamage { amount: u32 },
    DrawCardsOnEvolve { amount: u32 },
    HealTypedPokemonOnEvolve { energy_type: EnergyType, amount: u32 },
    AttachEnergyFromZoneToActiveTypedOnEvolve { energy_type: EnergyType },
    DamageOpponentActiveOnEvolve { amount: u32 },
    DiscardRandomEnergyFromOpponentActiveOnEvolve,
    OpponentShuffleHandAndDrawOnEvolve,
    PutCardsFromDiscardToHandOnEvolve { card_kind: DiscardSearchKind, selection: DiscardSelection },
    CanEvolveIntoEeveeEvolution,
    CanEvolveOnFirstTurnIfActive,
    CounterattackDamage { amount: u32 },
    PoisonAttackerOnDamaged,
    IncreaseAttackCostForOpponentActive { amount: u32 },
    IncreaseRetreatCostForOpponentActive { amount: u32 },
    PreventDamageWhileBenched,
    IncreaseHpPerAttachedEnergy { energy_type: EnergyType, amount: u32 },
    IncreaseHpForTypeInPlay { energy_type: EnergyType, amount: u32 },
    HealSelfOnZoneAttach { energy_type: EnergyType, amount: u32 },
    EndFirstTurnAttachEnergyToSelf { energy_type: EnergyType },
    ProtectSelfNextTurnAfterAttackKnockout,
    MoveFixedDamageFromActiveToThisBenched { amount: u32 },
    /// When put onto the Bench from hand: may switch with the Active Pokémon and move all of
    /// your Energy in play onto it.
    LegendaryDrive,
    /// When put onto the Bench from hand: may switch out the opponent's Active Pokémon.
    AncientRoar,
    ReduceAttackCost { energy_type: EnergyType, amount: u32, scope: AttackCostReductionScope },
    /// Each of your evolved Pokémon can use any attack from its previous Evolutions.
    TimeRecall,
    /// At the end of the opponent's turn, while Active: evolve from a random card of the deck.
    QuickGrowth,
    /// Puts a random card from the deck that evolves from the holder onto it.
    RandomEvolutionFromDeck { trigger: RandomEvolutionTrigger },
    /// While the holder is in play it has both these types.
    DualType { types: [EnergyType; 2] },
    /// The holder can't attack unless all of these names are on your Bench.
    CannotAttackWithoutBenchedNames { required_bench_names: &'static [&'static str] },
    /// Basic Pokémon in play, on both sides, have no Abilities.
    SuppressBasicAbilities,
    /// No Pokémon, on either side, can be healed.
    PreventAllHealing,
    CopyRandomOpponentHandSupporter,
    RevealRandomOpponentHandCard,
    LuxuryCoin,
    VictoryStar,
}

/// Two name lists hold the same names, in the same order.
pub open spec fn same_names(a: Seq<&'static str>, b: Seq<&'static str>) -> bool {
    a.len() == b.len() && forall|i: int| 0 <= i < a.len() ==> (#[trigger] a[i])@ == b[i]@
}

pub fn names_equal(a: &[&'static str], b: &[&'static str]) -> (r: bool)
    ensures
        r == same_names(a@, b@),
{
    if a.len() != b.len() {
        return false;
    }
    let n = a.len();
    for i in 0..n
        invariant
            n == a@.len(),
            n == b@.len(),
            forall|j: int| 0 <= j < i ==> (#[trigger] a@[j])@ == b@[j]@,
    {
        if !str_equal(a[i], b[i]) {
            return false;
        }
    }
    true
}

pub fn energy_slices_equal(a: &[EnergyType], b: &[EnergyType]) -> (r: bool)
    ensures
        r == (a@ == b@),
{
    if a.len() != b.len() {
        return false;
    }
    let n = a.len();
    for i in 0..n
        invariant
            n == a@.len(),
            n == b@.len(),
            forall|j: int| 0 <= j < i ==> a@[j] == b@[j],
    {
        if a[i] != b[i] {
            return false;
        }
    }
    proof {
        assert(a@ =~= b@);
    }
    true
}

pub open spec fn same_no_retreat_target(a: NoRetreatCostTarget, b: NoRetreatCostTarget) -> bool {
    match (a, b) {
        (NoRetreatCostTarget::ThisPokemon, NoRetreatCostTarget::ThisPokemon) => true,
        (NoRetreatCostTarget::YourActive, NoRetreatCostTarget::YourActive) => true,
        (NoRetreatCostTarget::YourActiveNamed(x), NoRetreatCostTarget::YourActiveNamed(y)) => x@ == y@,
        _ => false,
    }
}

pub fn no_retreat_targets_equal(a: &NoRetreatCostTarget, b: &NoRetreatCostTarget) -> (r: bool)
    ensures
        r == same_no_retreat_target(*a, *b),
{
    match (a, b) {
        (NoRetreatCostTarget::ThisPokemon, NoRetreatCostTarget::ThisPokemon) => true,
        (NoRetreatCostTarget::YourActive, NoRetreatCostTarget::YourActive) => true,
        (NoRetreatCostTarget::YourActiveNamed(x), NoRetreatCostTarget::YourActiveNamed(y)) => str_equal(x, y),
        _ => false,
    }
}

pub open spec fn same_no_retreat_condition(a: NoRetreatCostCondition, b: NoRetreatCostCondition) -> bool {
    match (a, b) {
        (NoRetreatCostCondition::Always, NoRetreatCostCondition::Always) => true,
        (NoRetreatCostCondition::NamedPokemonInPlay(x), NoRetreatCostCondition::NamedPokemonInPlay(y)) => same_names(x@, y@),
        (NoRetreatCostCondition::StadiumInPlay, NoRetreatCostCondition::StadiumInPlay) => true,
        (NoRetreatCostCondition::YourFirstTurn, NoRetreatCostCondition::YourFirstTurn) => true,
        _ => false,
    }
}

pub fn no_retreat_conditions_equal(a: &NoRetreatCostCondition, b: &NoRetreatCostCondition) -> (r: bool)
    ensures
        r == same_no_retreat_condition(*a, *b),
{
    match (a, b) {
        (NoRetreatCostCondition::Always, NoRetreatCostCondition::Always) => true,
        (NoRetreatCostCondition::NamedPokemonInPlay(x), NoRetreatCostCondition::NamedPokemonInPlay(y)) => names_equal(x, y),
        (NoRetreatCostCondition::StadiumInPlay, NoRetreatCostCondition::StadiumInPlay) => true,
        (NoRetreatCostCondition::YourFirstTurn, NoRetreatCostCondition::YourFirstTurn) => true,
        _ => false,
    }
}


/// Two mechanics are the same Ability: same variant and the same parameters, names compared
/// by their characters.
pub open spec fn mechanic_same(a: AbilityMechanic, b: AbilityMechanic) -> bool {
    match a {
        AbilityMechanic::VictreebelFragranceTrap => b is VictreebelFragranceTrap,
        AbilityMechanic::HealAllYourPokemon { amount: a_amount, energy_type: a_energy_type } => match b {
            AbilityMechanic::HealAllYourPokemon { amount: b_amount, energy_type: b_energy_type } => (a_amount == b_amount) && (a_energy_type == b_energy_type),
            _ => false,
        },
        AbilityMechanic::HealOneYourPokemon { amount: a_amount, require_active: a_require_active, require_tool_attached: a_require_tool_attached } => match b {
            AbilityMechanic::HealOneYourPokemon { amount: b_amount, require_active: b_require_active, require_tool_attached: b_require_tool_attached } => (a_amount == b_amount) && (a_require_active == b_require_active) && (a_require_tool_attached == b_require_tool_attached),
            _ => false,
        },
        AbilityMechanic::HealOneYourPokemonExAndDiscardRandomEnergy { amount: a_amount } => match b {
            AbilityMechanic::HealOneYourPokemonExAndDiscardRandomEnergy { amount: b_amount } => (a_amount == b_amount),
            _ => false,
        },
        AbilityMechanic::CheckupHealAllYourPokemon { amount: a_amount } => match b {
            AbilityMechanic::CheckupHealAllYourPokemon { amount: b_amount } => (a_amount == b_amount),
            _ => false,
        },
        AbilityMechanic::DamageOneOpponentPokemon { amount: a_amount } => match b {
            AbilityMechanic::DamageOneOpponentPokemon { amount: b_amount } => (a_amount == b_amount),
            _ => false,
        },
        AbilityMechanic::IncreaseDamageIfArceusInPlay { amount: a_amount } => match b {
            AbilityMechanic::IncreaseDamageIfArceusInPlay { amount: b_amount } => (a_amount == b_amount),
            _ => false,
        },
        AbilityMechanic::DamageOpponentActiveIfArceusInPlay { amount: a_amount } => match b {
            AbilityMechanic::DamageOpponentActiveIfArceusInPlay { amount: b_amount } => (a_amount == b_amount),
            _ => false,
        },
        AbilityMechanic::SwitchDamagedOpponentBenchToActive => b is SwitchDamagedOpponentBenchToActive,
        AbilityMechanic::CoinFlipSwitchInOpponentBenchToActive => b is CoinFlipSwitchInOpponentBenchToActive,
        AbilityMechanic::SwitchThisBenchWithActive => b is SwitchThisBenchWithActive,
        AbilityMechanic::SwitchActiveTypedWithBench { energy_type: a_energy_type } => match b {
            AbilityMechanic::SwitchActiveTypedWithBench { energy_type: b_energy_type } => (a_energy_type == b_energy_type),
            _ => false,
        },
        AbilityMechanic::SwitchActiveUltraBeastWithBench => b is SwitchActiveUltraBeastWithBench,
        AbilityMechanic::MoveTypedEnergyFromBenchToActive { energy_type: a_energy_type } => match b {
            AbilityMechanic::MoveTypedEnergyFromBenchToActive { energy_type: b_energy_type } => (a_energy_type == b_energy_type),
            _ => false,
        },
        AbilityMechanic::MoveAllTypedEnergyFromBenchToActive { energy_type: a_energy_type } => match b {
            AbilityMechanic::MoveAllTypedEnergyFromBenchToActive { energy_type: b_energy_type } => (a_energy_type == b_energy_type),
            _ => false,
        },
        AbilityMechanic::MoveAllTypedEnergyFromYourPokemonToSelf { energy_type: a_energy_type } => match b {
            AbilityMechanic::MoveAllTypedEnergyFromYourPokemonToSelf { energy_type: b_energy_type } => (a_energy_type == b_energy_type),
            _ => false,
        },
        AbilityMechanic::AttachEnergyFromZoneToActiveTypedPokemon { energy_type: a_energy_type } => match b {
            AbilityMechanic::AttachEnergyFromZoneToActiveTypedPokemon { energy_type: b_energy_type } => (a_energy_type == b_energy_type),
            _ => false,
        },
        AbilityMechanic::AttachEnergyFromZoneToYourTypedPokemon { energy_type: a_energy_type } => match b {
            AbilityMechanic::AttachEnergyFromZoneToYourTypedPokemon { energy_type: b_energy_type } => (a_energy_type == b_energy_type),
            _ => false,
        },
        AbilityMechanic::AttachEnergyFromZoneToSelf { energy_type: a_energy_type, amount: a_amount } => match b {
            AbilityMechanic::AttachEnergyFromZoneToSelf { energy_type: b_energy_type, amount: b_amount } => (a_energy_type == b_energy_type) && (a_amount == b_amount),
            _ => false,
        },
        AbilityMechanic::AttachEnergyFromZoneToSelfAndEndTurn { energy_type: a_energy_type } => match b {
            AbilityMechanic::AttachEnergyFromZoneToSelfAndEndTurn { energy_type: b_energy_type } => (a_energy_type == b_energy_type),
            _ => false,
        },
        AbilityMechanic::AttachEnergyFromZoneToSelfAndDamage { energy_type: a_energy_type, amount: a_amount, self_damage: a_self_damage } => match b {
            AbilityMechanic::AttachEnergyFromZoneToSelfAndDamage { energy_type: b_energy_type, amount: b_amount, self_damage: b_self_damage } => (a_energy_type == b_energy_type) && (a_amount == b_amount) && (a_self_damage == b_self_damage),
            _ => false,
        },
        AbilityMechanic::AttachEnergyFromZoneToBenchOnDamaged { energy_type: a_energy_type } => match b {
            AbilityMechanic::AttachEnergyFromZoneToBenchOnDamaged { energy_type: b_energy_type } => (a_energy_type == b_energy_type),
            _ => false,
        },
        AbilityMechanic::DamageOpponentActiveOnZoneAttachToSelf { energy_type: a_energy_type, amount: a_amount, only_turn_energy: a_only_turn_energy } => match b {
            AbilityMechanic::DamageOpponentActiveOnZoneAttachToSelf { energy_type: b_energy_type, amount: b_amount, only_turn_energy: b_only_turn_energy } => (a_energy_type == b_energy_type) && (a_amount == b_amount) && (a_only_turn_energy == b_only_turn_energy),
            _ => false,
        },
        AbilityMechanic::AttachEnergyFromDiscardToSelfAndDamage { energy_type: a_energy_type, self_damage: a_self_damage } => match b {
            AbilityMechanic::AttachEnergyFromDiscardToSelfAndDamage { energy_type: b_energy_type, self_damage: b_self_damage } => (a_energy_type == b_energy_type) && (a_self_damage == b_self_damage),
            _ => false,
        },
        AbilityMechanic::ReduceDamageFromAttacks { amount: a_amount } => match b {
            AbilityMechanic::ReduceDamageFromAttacks { amount: b_amount } => (a_amount == b_amount),
            _ => false,
        },
        AbilityMechanic::ReduceOpponentActiveDamage { amount: a_amount } => match b {
            AbilityMechanic::ReduceOpponentActiveDamage { amount: b_amount } => (a_amount == b_amount),
            _ => false,
        },
        AbilityMechanic::ReduceDamageFromTypedAttackers { energy_types: a_energy_types, amount: a_amount } => match b {
            AbilityMechanic::ReduceDamageFromTypedAttackers { energy_types: b_energy_types, amount: b_amount } => (a_energy_types@ == b_energy_types@) && (a_amount == b_amount),
            _ => false,
        },
        AbilityMechanic::ReduceDamageIfArceusInPlay { amount: a_amount } => match b {
            AbilityMechanic::ReduceDamageIfArceusInPlay { amount: b_amount } => (a_amount == b_amount),
            _ => false,
        },
        AbilityMechanic::ReduceDamageAtFullHp { amount: a_amount } => match b {
            AbilityMechanic::ReduceDamageAtFullHp { amount: b_amount } => (a_amount == b_amount),
            _ => false,
        },
        AbilityMechanic::UnownGuard { amount: a_amount } => match b {
            AbilityMechanic::UnownGuard { amount: b_amount } => (a_amount == b_amount),
            _ => false,
        },
        AbilityMechanic::IncreaseDamageWhenRemainingHpAtMost { amount: a_amount, hp_threshold: a_hp_threshold } => match b {
            AbilityMechanic::IncreaseDamageWhenRemainingHpAtMost { amount: b_amount, hp_threshold: b_hp_threshold } => (a_amount == b_amount) && (a_hp_threshold == b_hp_threshold),
            _ => false,
        },
        AbilityMechanic::IncreaseDamageForTypeInPlay { energy_type: a_energy_type, amount: a_amount } => match b {
            AbilityMechanic::IncreaseDamageForTypeInPlay { energy_type: b_energy_type, amount: b_amount } => (a_energy_type == b_energy_type) && (a_amount == b_amount),
            _ => false,
        },
        AbilityMechanic::IncreaseDamageForTwoTypesInPlay { energy_type_a: a_energy_type_a, energy_type_b: a_energy_type_b, amount: a_amount } => match b {
            AbilityMechanic::IncreaseDamageForTwoTypesInPlay { energy_type_a: b_energy_type_a, energy_type_b: b_energy_type_b, amount: b_amount } => (a_energy_type_a == b_energy_type_a) && (a_energy_type_b == b_energy_type_b) && (a_amount == b_amount),
            _ => false,
        },
        AbilityMechanic::UnownPower { amount: a_amount } => match b {
            AbilityMechanic::UnownPower { amount: b_amount } => (a_amount == b_amount),
            _ => false,
        },
        AbilityMechanic::IncreaseDamageForEvolutionsFromBench { evolves_from: a_evolves_from, amount: a_amount } => match b {
            AbilityMechanic::IncreaseDamageForEvolutionsFromBench { evolves_from: b_evolves_from, amount: b_amount } => (a_evolves_from@ == b_evolves_from@) && (a_amount == b_amount),
            _ => false,
        },
        AbilityMechanic::CoordinatedUnit { pokemon_name: a_pokemon_name, damage_bonus: a_damage_bonus, damage_reduction: a_damage_reduction } => match b {
            AbilityMechanic::CoordinatedUnit { pokemon_name: b_pokemon_name, damage_bonus: b_damage_bonus, damage_reduction: b_damage_reduction } => (a_pokemon_name@ == b_pokemon_name@) && (a_damage_bonus == b_damage_bonus) && (a_damage_reduction == b_damage_reduction),
            _ => false,
        },
        AbilityMechanic::StartTurnRandomPokemonToHand { energy_type: a_energy_type } => match b {
            AbilityMechanic::StartTurnRandomPokemonToHand { energy_type: b_energy_type } => (a_energy_type == b_energy_type),
            _ => false,
        },
        AbilityMechanic::SearchRandomCardFromDeck { card_kind: a_card_kind } => match b {
            AbilityMechanic::SearchRandomCardFromDeck { card_kind: b_card_kind } => (a_card_kind == b_card_kind),
            _ => false,
        },
        AbilityMechanic::LookAtTopCardOfDeck { either_player: a_either_player } => match b {
            AbilityMechanic::LookAtTopCardOfDeck { either_player: b_either_player } => (a_either_player == b_either_player),
            _ => false,
        },
        AbilityMechanic::MoveDamageFromOneYourPokemonToThisPokemon => b is MoveDamageFromOneYourPokemonToThisPokemon,
        AbilityMechanic::DiscardOpponentActiveToolsAndDiscardSelf => b is DiscardOpponentActiveToolsAndDiscardSelf,
        AbilityMechanic::PreventFirstAttack => b is PreventFirstAttack,
        AbilityMechanic::ElectromagneticWall => b is ElectromagneticWall,
        AbilityMechanic::InfiltratingInspection => b is InfiltratingInspection,
        AbilityMechanic::DiscardTopCardOpponentDeck => b is DiscardTopCardOpponentDeck,
        AbilityMechanic::CoinFlipToPreventDamage => b is CoinFlipToPreventDamage,
        AbilityMechanic::CoinFlipToReduceDamage { amount: a_amount } => match b {
            AbilityMechanic::CoinFlipToReduceDamage { amount: b_amount } => (a_amount == b_amount),
            _ => false,
        },
        AbilityMechanic::CoinFlipToSurviveKnockOut => b is CoinFlipToSurviveKnockOut,
        AbilityMechanic::CoinFlipToDenyKnockoutPoints => b is CoinFlipToDenyKnockoutPoints,
        AbilityMechanic::CoinFlipToKnockOutAttackerOnKnockout => b is CoinFlipToKnockOutAttackerOnKnockout,
        AbilityMechanic::MoveAllTypedEnergyToBenchOnKnockout { energy_type: a_energy_type } => match b {
            AbilityMechanic::MoveAllTypedEnergyToBenchOnKnockout { energy_type: b_energy_type } => (a_energy_type == b_energy_type),
            _ => false,
        },
        AbilityMechanic::DamageOnKnockoutInActive { amount: a_amount, target: a_target } => match b {
            AbilityMechanic::DamageOnKnockoutInActive { amount: b_amount, target: b_target } => (a_amount == b_amount) && (a_target == b_target),
            _ => false,
        },
        AbilityMechanic::CheckupDamageToOpponentActive { amount: a_amount } => match b {
            AbilityMechanic::CheckupDamageToOpponentActive { amount: b_amount } => (a_amount == b_amount),
            _ => false,
        },
        AbilityMechanic::CheckupDamageToAllOpponentPokemon { amount: a_amount } => match b {
            AbilityMechanic::CheckupDamageToAllOpponentPokemon { amount: b_amount } => (a_amount == b_amount),
            _ => false,
        },
        AbilityMechanic::DiscardEnergyToIncreaseTypeDamage { discard_energy: a_discard_energy, attack_type: a_attack_type, amount: a_amount } => match b {
            AbilityMechanic::DiscardEnergyToIncreaseTypeDamage { discard_energy: b_discard_energy, attack_type: b_attack_type, amount: b_amount } => (a_discard_energy == b_discard_energy) && (a_attack_type == b_attack_type) && (a_amount == b_amount),
            _ => false,
        },
        AbilityMechanic::CoinFlipStatusOpponentActive { status: a_status } => match b {
            AbilityMechanic::CoinFlipStatusOpponentActive { status: b_status } => (a_status == b_status),
            _ => false,
        },
        AbilityMechanic::PoisonOpponentActive => b is PoisonOpponentActive,
        AbilityMechanic::ConfuseOpponentActive => b is ConfuseOpponentActive,
        AbilityMechanic::BurnOpponentActive => b is BurnOpponentActive,
        AbilityMechanic::RemoveRandomSpecialConditionFromActive => b is RemoveRandomSpecialConditionFromActive,
        AbilityMechanic::HealActiveYourPokemon { amount: a_amount } => match b {
            AbilityMechanic::HealActiveYourPokemon { amount: b_amount } => (a_amount == b_amount),
            _ => false,
        },
        AbilityMechanic::SwitchOutOpponentActiveToBench { require_active: a_require_active, require_opponent_active_basic: a_require_opponent_active_basic } => match b {
            AbilityMechanic::SwitchOutOpponentActiveToBench { require_active: b_require_active, require_opponent_active_basic: b_require_opponent_active_basic } => (a_require_active == b_require_active) && (a_require_opponent_active_basic == b_require_opponent_active_basic),
            _ => false,
        },
        AbilityMechanic::BadDreamsEndOfTurn { amount: a_amount } => match b {
            AbilityMechanic::BadDreamsEndOfTurn { amount: b_amount } => (a_amount == b_amount),
            _ => false,
        },
        AbilityMechanic::EndTurnDrawCardIfActive { amount: a_amount } => match b {
            AbilityMechanic::EndTurnDrawCardIfActive { amount: b_amount } => (a_amount == b_amount),
            _ => false,
        },
        AbilityMechanic::EndTurnHealSelfIfActive { amount: a_amount } => match b {
            AbilityMechanic::EndTurnHealSelfIfActive { amount: b_amount } => (a_amount == b_amount),
            _ => false,
        },
        AbilityMechanic::DiscardFromHandToDrawCard => b is DiscardFromHandToDrawCard,
        AbilityMechanic::ImmuneToStatusConditions { status: a_status } => match b {
            AbilityMechanic::ImmuneToStatusConditions { status: b_status } => (a_status == b_status),
            _ => false,
        },
        AbilityMechanic::SoothingWind { energy_type: a_energy_type } => match b {
            AbilityMechanic::SoothingWind { energy_type: b_energy_type } => (a_energy_type == b_energy_type),
            _ => false,
        },
        AbilityMechanic::NoOpponentSupportInActive => b is NoOpponentSupportInActive,
        AbilityMechanic::NoOpponentStadiumInActive => b is NoOpponentStadiumInActive,
        AbilityMechanic::DoubleGrassEnergy => b is DoubleGrassEnergy,
        AbilityMechanic::PreventOpponentActiveEvolution => b is PreventOpponentActiveEvolution,
        AbilityMechanic::ReduceRetreatCostOfYourActiveBasicFromBench { amount: a_amount } => match b {
            AbilityMechanic::ReduceRetreatCostOfYourActiveBasicFromBench { amount: b_amount } => (a_amount == b_amount),
            _ => false,
        },
        AbilityMechanic::ReduceRetreatCostOfYourActiveTypedFromBench { energy_type: a_energy_type, amount: a_amount } => match b {
            AbilityMechanic::ReduceRetreatCostOfYourActiveTypedFromBench { energy_type: b_energy_type, amount: b_amount } => (a_energy_type == b_energy_type) && (a_amount == b_amount),
            _ => false,
        },
        AbilityMechanic::ReduceOwnRetreatCostIfAnotherSameNameInPlay { amount: a_amount } => match b {
            AbilityMechanic::ReduceOwnRetreatCostIfAnotherSameNameInPlay { amount: b_amount } => (a_amount == b_amount),
            _ => false,
        },
        AbilityMechanic::NoRetreatIfHasEnergy => b is NoRetreatIfHasEnergy,
        AbilityMechanic::NoRetreatCost { target: a_target, condition: a_condition } => match b {
            AbilityMechanic::NoRetreatCost { target: b_target, condition: b_condition } => (same_no_retreat_target(a_target, b_target)) && (same_no_retreat_condition(a_condition, b_condition)),
            _ => false,
        },
        AbilityMechanic::PreventAllDamageFromEx => b is PreventAllDamageFromEx,
        AbilityMechanic::PreventAttackEffects => b is PreventAttackEffects,
        AbilityMechanic::SleepOnZoneAttachToSelfWhileActive => b is SleepOnZoneAttachToSelfWhileActive,
        AbilityMechanic::IncreasePoisonDamage { amount: a_amount } => match b {
            AbilityMechanic::IncreasePoisonDamage { amount: b_amount } => (a_amount == b_amount),
            _ => false,
        },
        AbilityMechanic::DrawCardsOnEvolve { amount: a_amount } => match b {
            AbilityMechanic::DrawCardsOnEvolve { amount: b_amount } => (a_amount == b_amount),
            _ => false,
        },
        AbilityMechanic::HealTypedPokemonOnEvolve { energy_type: a_energy_type, amount: a_amount } => match b {
            AbilityMechanic::HealTypedPokemonOnEvolve { energy_type: b_energy_type, amount: b_amount } => (a_energy_type == b_energy_type) && (a_amount == b_amount),
            _ => false,
        },
        AbilityMechanic::AttachEnergyFromZoneToActiveTypedOnEvolve { energy_type: a_energy_type } => match b {
            AbilityMechanic::AttachEnergyFromZoneToActiveTypedOnEvolve { energy_type: b_energy_type } => (a_energy_type == b_energy_type),
            _ => false,
        },
        AbilityMechanic::DamageOpponentActiveOnEvolve { amount: a_amount } => match b {
            AbilityMechanic::DamageOpponentActiveOnEvolve { amount: b_amount } => (a_amount == b_amount),
            _ => false,
        },
        AbilityMechanic::DiscardRandomEnergyFromOpponentActiveOnEvolve => b is DiscardRandomEnergyFromOpponentActiveOnEvolve,
        AbilityMechanic::OpponentShuffleHandAndDrawOnEvolve => b is OpponentShuffleHandAndDrawOnEvolve,
        AbilityMechanic::PutCardsFromDiscardToHandOnEvolve { card_kind: a_card_kind, selection: a_selection } => match b {
            AbilityMechanic::PutCardsFromDiscardToHandOnEvolve { card_kind: b_card_kind, selection: b_selection } => (a_card_kind == b_card_kind) && (a_selection == b_selection),
            _ => false,
        },
        AbilityMechanic::CanEvolveIntoEeveeEvolution => b is CanEvolveIntoEeveeEvolution,
        AbilityMechanic::CanEvolveOnFirstTurnIfActive => b is CanEvolveOnFirstTurnIfActive,
        AbilityMechanic::CounterattackDamage { amount: a_amount } => match b {
            AbilityMechanic::CounterattackDamage { amount: b_amount } => (a_amount == b_amount),
            _ => false,
        },
        AbilityMechanic::PoisonAttackerOnDamaged => b is PoisonAttackerOnDamaged,
        AbilityMechanic::IncreaseAttackCostForOpponentActive { amount: a_amount } => match b {
            AbilityMechanic::IncreaseAttackCostForOpponentActive { amount: b_amount } => (a_amount == b_amount),
            _ => false,
        },
        AbilityMechanic::IncreaseRetreatCostForOpponentActive { amount: a_amount } => match b {
            AbilityMechanic::IncreaseRetreatCostForOpponentActive { amount: b_amount } => (a_amount == b_amount),
            _ => false,
        },
        AbilityMechanic::PreventDamageWhileBenched => b is PreventDamageWhileBenched,
        AbilityMechanic::IncreaseHpPerAttachedEnergy { energy_type: a_energy_type, amount: a_amount } => match b {
            AbilityMechanic::IncreaseHpPerAttachedEnergy { energy_type: b_energy_type, amount: b_amount } => (a_energy_type == b_energy_type) && (a_amount == b_amount),
            _ => false,
        },
        AbilityMechanic::IncreaseHpForTypeInPlay { energy_type: a_energy_type, amount: a_amount } => match b {
            AbilityMechanic::IncreaseHpForTypeInPlay { energy_type: b_energy_type, amount: b_amount } => (a_energy_type == b_energy_type) && (a_amount == b_amount),
            _ => false,
        },
        AbilityMechanic::HealSelfOnZoneAttach { energy_type: a_energy_type, amount: a_amount } => match b {
            AbilityMechanic::HealSelfOnZoneAttach { energy_type: b_energy_type, amount: b_amount } => (a_energy_type == b_energy_type) && (a_amount == b_amount),
            _ => false,
        },
        AbilityMechanic::EndFirstTurnAttachEnergyToSelf { energy_type: a_energy_type } => match b {
            AbilityMechanic::EndFirstTurnAttachEnergyToSelf { energy_type: b_energy_type } => (a_energy_type == b_energy_type),
            _ => false,
        },
        AbilityMechanic::ProtectSelfNextTurnAfterAttackKnockout => b is ProtectSelfNextTurnAfterAttackKnockout,
        AbilityMechanic::MoveFixedDamageFromActiveToThisBenched { amount: a_amount } => match b {
            AbilityMechanic::MoveFixedDamageFromActiveToThisBenched { amount: b_amount } => (a_amount == b_amount),
            _ => false,
        },
        AbilityMechanic::LegendaryDrive => b is LegendaryDrive,
        AbilityMechanic::AncientRoar => b is AncientRoar,
        AbilityMechanic::ReduceAttackCost { energy_type: a_energy_type, amount: a_amount, scope: a_scope } => match b {
            AbilityMechanic::ReduceAttackCost { energy_type: b_energy_type, amount: b_amount, scope: b_scope } => (a_energy_type == b_energy_type) && (a_amount == b_amount) && (a_scope == b_scope),
            _ => false,
        },
        AbilityMechanic::TimeRecall => b is TimeRecall,
        AbilityMechanic::QuickGrowth => b is QuickGrowth,
        AbilityMechanic::RandomEvolutionFromDeck { trigger: a_trigger } => match b {
            AbilityMechanic::RandomEvolutionFromDeck { trigger: b_trigger } => (a_trigger == b_trigger),
            _ => false,
        },
        AbilityMechanic::DualType { types: a_types } => match b {
            AbilityMechanic::DualType { types: b_types } => (a_types[0] == b_types[0] && a_types[1] == b_types[1]),
            _ => false,
        },
        AbilityMechanic::CannotAttackWithoutBenchedNames { required_bench_names: a_required_bench_names } => match b {
            AbilityMechanic::CannotAttackWithoutBenchedNames { required_bench_names: b_required_bench_names } => (same_names(a_required_bench_names@, b_required_bench_names@)),
            _ => false,
        },
        AbilityMechanic::SuppressBasicAbilities => b is SuppressBasicAbilities,
        AbilityMechanic::PreventAllHealing => b is PreventAllHealing,
        AbilityMechanic::CopyRandomOpponentHandSupporter => b is CopyRandomOpponentHandSupporter,
        AbilityMechanic::RevealRandomOpponentHandCard => b is RevealRandomOpponentHandCard,
        AbilityMechanic::LuxuryCoin => b is LuxuryCoin,
        AbilityMechanic::VictoryStar => b is VictoryStar,
    }
}

fn mechanic_eq_part0(a: &AbilityMechanic, b: &AbilityMechanic) -> (r: bool)
    requires
        (*a is VictreebelFragranceTrap) || (*a is HealAllYourPokemon) || (*a is HealOneYourPokemon) || (*a is HealOneYourPokemonExAndDiscardRandomEnergy) || (*a is CheckupHealAllYourPokemon) || (*a is DamageOneOpponentPokemon) || (*a is IncreaseDamageIfArceusInPlay) || (*a is DamageOpponentActiveIfArceusInPlay) || (*a is SwitchDamagedOpponentBenchToActive) || (*a is CoinFlipSwitchInOpponentBenchToActive) || (*a is SwitchThisBenchWithActive) || (*a is SwitchActiveTypedWithBench),
    ensures
        r == mechanic_same(*a, *b),
{
    match a {
        AbilityMechanic::VictreebelFragranceTrap => matches!(b, AbilityMechanic::VictreebelFragranceTrap),
        AbilityMechanic::HealAllYourPokemon { amount: a_amount, energy_type: a_energy_type } => match b {
            AbilityMechanic::HealAllYourPokemon { amount: b_amount, energy_type: b_energy_type } => (*a_amount == *b_amount) && (a_energy_type == b_energy_type),
            _ => false,
        },
        AbilityMechanic::HealOneYourPokemon { amount: a_amount, require_active: a_require_active, require_tool_attached: a_require_tool_attached } => match b {
            AbilityMechanic::HealOneYourPokemon { amount: b_amount, require_active: b_require_active, require_tool_attached: b_require_tool_attached } => (*a_amount == *b_amount) && (*a_require_active == *b_require_active) && (*a_require_tool_attached == *b_require_tool_attached),
            _ => false,
        },
        AbilityMechanic::HealOneYourPokemonExAndDiscardRandomEnergy { amount: a_amount } => match b {
            AbilityMechanic::HealOneYourPokemonExAndDiscardRandomEnergy { amount: b_amount } => (*a_amount == *b_amount),
            _ => false,
        },
        AbilityMechanic::CheckupHealAllYourPokemon { amount: a_amount } => match b {
            AbilityMechanic::CheckupHealAllYourPokemon { amount: b_amount } => (*a_amount == *b_amount),
            _ => false,
        },
        AbilityMechanic::DamageOneOpponentPokemon { amount: a_amount } => match b {
            AbilityMechanic::DamageOneOpponentPokemon { amount: b_amount } => (*a_amount == *b_amount),
            _ => false,
        },
        AbilityMechanic::IncreaseDamageIfArceusInPlay { amount: a_amount } => match b {
            AbilityMechanic::IncreaseDamageIfArceusInPlay { amount: b_amount } => (*a_amount == *b_amount),
            _ => false,
        },
        AbilityMechanic::DamageOpponentActiveIfArceusInPlay { amount: a_amount } => match b {
            AbilityMechanic::DamageOpponentActiveIfArceusInPlay { amount: b_amount } => (*a_amount == *b_amount),
            _ => false,
        },
        AbilityMechanic::SwitchDamagedOpponentBenchToActive => matches!(b, AbilityMechanic::SwitchDamagedOpponentBenchToActive),
        AbilityMechanic::CoinFlipSwitchInOpponentBenchToActive => matches!(b, AbilityMechanic::CoinFlipSwitchInOpponentBenchToActive),
        AbilityMechanic::SwitchThisBenchWithActive => matches!(b, AbilityMechanic::SwitchThisBenchWithActive),
        AbilityMechanic::SwitchActiveTypedWithBench { energy_type: a_energy_type } => match b {
            AbilityMechanic::SwitchActiveTypedWithBench { energy_type: b_energy_type } => (*a_energy_type == *b_energy_type),
            _ => false,
        },
        _ => false,
    }
}

fn mechanic_eq_part1(a: &AbilityMechanic, b: &AbilityMechanic) -> (r: bool)
    requires
        (*a is SwitchActiveUltraBeastWithBench) || (*a is MoveTypedEnergyFromBenchToActive) || (*a is MoveAllTypedEnergyFromBenchToActive) || (*a is MoveAllTypedEnergyFromYourPokemonToSelf) || (*a is AttachEnergyFromZoneToActiveTypedPokemon) || (*a is AttachEnergyFromZoneToYourTypedPokemon) || (*a is AttachEnergyFromZoneToSelf) || (*a is AttachEnergyFromZoneToSelfAndEndTurn) || (*a is AttachEnergyFromZoneToSelfAndDamage) || (*a is AttachEnergyFromZoneToBenchOnDamaged) || (*a is DamageOpponentActiveOnZoneAttachToSelf) || (*a is AttachEnergyFromDiscardToSelfAndDamage),
    ensures
        r == mechanic_same(*a, *b),
{
    match a {
        AbilityMechanic::SwitchActiveUltraBeastWithBench => matches!(b, AbilityMechanic::SwitchActiveUltraBeastWithBench),
        AbilityMechanic::MoveTypedEnergyFromBenchToActive { energy_type: a_energy_type } => match b {
            AbilityMechanic::MoveTypedEnergyFromBenchToActive { energy_type: b_energy_type } => (*a_energy_type == *b_energy_type),
            _ => false,
        },
        AbilityMechanic::MoveAllTypedEnergyFromBenchToActive { energy_type: a_energy_type } => match b {
            AbilityMechanic::MoveAllTypedEnergyFromBenchToActive { energy_type: b_energy_type } => (*a_energy_type == *b_energy_type),
            _ => false,
        },
        AbilityMechanic::MoveAllTypedEnergyFromYourPokemonToSelf { energy_type: a_energy_type } => match b {
            AbilityMechanic::MoveAllTypedEnergyFromYourPokemonToSelf { energy_type: b_energy_type } => (*a_energy_type == *b_energy_type),
            _ => false,
        },
        AbilityMechanic::AttachEnergyFromZoneToActiveTypedPokemon { energy_type: a_energy_type } => match b {
            AbilityMechanic::AttachEnergyFromZoneToActiveTypedPokemon { energy_type: b_energy_type } => (*a_energy_type == *b_energy_type),
            _ => false,
        },
        AbilityMechanic::AttachEnergyFromZoneToYourTypedPokemon { energy_type: a_energy_type } => match b {
            AbilityMechanic::AttachEnergyFromZoneToYourTypedPokemon { energy_type: b_energy_type } => (*a_energy_type == *b_energy_type),
            _ => false,
        },
        AbilityMechanic::AttachEnergyFromZoneToSelf { energy_type: a_energy_type, amount: a_amount } => match b {
            AbilityMechanic::AttachEnergyFromZoneToSelf { energy_type: b_energy_type, amount: b_amount } => (*a_energy_type == *b_energy_type) && (*a_amount == *b_amount),
            _ => false,
        },
        AbilityMechanic::AttachEnergyFromZoneToSelfAndEndTurn { energy_type: a_energy_type } => match b {
            AbilityMechanic::AttachEnergyFromZoneToSelfAndEndTurn { energy_type: b_energy_type } => (*a_energy_type == *b_energy_type),
            _ => false,
        },
        AbilityMechanic::AttachEnergyFromZoneToSelfAndDamage { energy_type: a_energy_type, amount: a_amount, self_damage: a_self_damage } => match b {
            AbilityMechanic::AttachEnergyFromZoneToSelfAndDamage { energy_type: b_energy_type, amount: b_amount, self_damage: b_self_damage } => (*a_energy_type == *b_energy_type) && (*a_amount == *b_amount) && (*a_self_damage == *b_self_damage),
            _ => false,
        },
        AbilityMechanic::AttachEnergyFromZoneToBenchOnDamaged { energy_type: a_energy_type } => match b {
            AbilityMechanic::AttachEnergyFromZoneToBenchOnDamaged { energy_type: b_energy_type } => (*a_energy_type == *b_energy_type),
            _ => false,
        },
        AbilityMechanic::DamageOpponentActiveOnZoneAttachToSelf { energy_type: a_energy_type, amount: a_amount, only_turn_energy: a_only_turn_energy } => match b {
            AbilityMechanic::DamageOpponentActiveOnZoneAttachToSelf { energy_type: b_energy_type, amount: b_amount, only_turn_energy: b_only_turn_energy } => (*a_energy_type == *b_energy_type) && (*a_amount == *b_amount) && (*a_only_turn_energy == *b_only_turn_energy),
            _ => false,
        },
        AbilityMechanic::AttachEnergyFromDiscardToSelfAndDamage { energy_type: a_energy_type, self_damage: a_self_damage } => match b {
            AbilityMechanic::AttachEnergyFromDiscardToSelfAndDamage { energy_type: b_energy_type, self_damage: b_self_damage } => (*a_energy_type == *b_energy_type) && (*a_self_damage == *b_self_damage),
            _ => false,
        },
        _ => false,
    }
}

fn mechanic_eq_part2(a: &AbilityMechanic, b: &AbilityMechanic) -> (r: bool)
    requires
        (*a is ReduceDamageFromAttacks) || (*a is ReduceOpponentActiveDamage) || (*a is ReduceDamageFromTypedAttackers) || (*a is ReduceDamageIfArceusInPlay) || (*a is ReduceDamageAtFullHp) || (*a is UnownGuard) || (*a is IncreaseDamageWhenRemainingHpAtMost) || (*a is IncreaseDamageForTypeInPlay) || (*a is IncreaseDamageForTwoTypesInPlay) || (*a is UnownPower) || (*a is IncreaseDamageForEvolutionsFromBench) || (*a is CoordinatedUnit),
    ensures
        r == mechanic_same(*a, *b),
{
    match a {
        AbilityMechanic::ReduceDamageFromAttacks { amount: a_amount } => match b {
            AbilityMechanic::ReduceDamageFromAttacks { amount: b_amount } => (*a_amount == *b_amount),
            _ => false,
        },
        AbilityMechanic::ReduceOpponentActiveDamage { amount: a_amount } => match b {
            AbilityMechanic::ReduceOpponentActiveDamage { amount: b_amount } => (*a_amount == *b_amount),
            _ => false,
        },
        AbilityMechanic::ReduceDamageFromTypedAttackers { energy_types: a_energy_types, amount: a_amount } => match b {
            AbilityMechanic::ReduceDamageFromTypedAttackers { energy_types: b_energy_types, amount: b_amount } => (energy_slices_equal(a_energy_types, b_energy_types)) && (*a_amount == *b_amount),
            _ => false,
        },
        AbilityMechanic::ReduceDamageIfArceusInPlay { amount: a_amount } => match b {
            AbilityMechanic::ReduceDamageIfArceusInPlay { amount: b_amount } => (*a_amount == *b_amount),
            _ => false,
        },
        AbilityMechanic::ReduceDamageAtFullHp { amount: a_amount } => match b {
            AbilityMechanic::ReduceDamageAtFullHp { amount: b_amount } => (*a_amount == *b_amount),
            _ => false,
        },
        AbilityMechanic::UnownGuard { amount: a_amount } => match b {
            AbilityMechanic::UnownGuard { amount: b_amount } => (*a_amount == *b_amount),
            _ => false,
        },
        AbilityMechanic::IncreaseDamageWhenRemainingHpAtMost { amount: a_amount, hp_threshold: a_hp_threshold } => match b {
            AbilityMechanic::IncreaseDamageWhenRemainingHpAtMost { amount: b_amount, hp_threshold: b_hp_threshold } => (*a_amount == *b_amount) && (*a_hp_threshold == *b_hp_threshold),
            _ => false,
        },
        AbilityMechanic::IncreaseDamageForTypeInPlay { energy_type: a_energy_type, amount: a_amount } => match b {
            AbilityMechanic::IncreaseDamageForTypeInPlay { energy_type: b_energy_type, amount: b_amount } => (*a_energy_type == *b_energy_type) && (*a_amount == *b_amount),
            _ => false,
        },
        AbilityMechanic::IncreaseDamageForTwoTypesInPlay { energy_type_a: a_energy_type_a, energy_type_b: a_energy_type_b, amount: a_amount } => match b {
            AbilityMechanic::IncreaseDamageForTwoTypesInPlay { energy_type_a: b_energy_type_a, energy_type_b: b_energy_type_b, amount: b_amount } => (*a_energy_type_a == *b_energy_type_a) && (*a_energy_type_b == *b_energy_type_b) && (*a_amount == *b_amount),
            _ => false,
        },
        AbilityMechanic::UnownPower { amount: a_amount } => match b {
            AbilityMechanic::UnownPower { amount: b_amount } => (*a_amount == *b_amount),
            _ => false,
        },
        AbilityMechanic::IncreaseDamageForEvolutionsFromBench { evolves_from: a_evolves_from, amount: a_amount } => match b {
            AbilityMechanic::IncreaseDamageForEvolutionsFromBench { evolves_from: b_evolves_from, amount: b_amount } => (str_equal(a_evolves_from, b_evolves_from)) && (*a_amount == *b_amount),
            _ => false,
        },
        AbilityMechanic::CoordinatedUnit { pokemon_name: a_pokemon_name, damage_bonus: a_damage_bonus, damage_reduction: a_damage_reduction } => match b {
            AbilityMechanic::CoordinatedUnit { pokemon_name: b_pokemon_name, damage_bonus: b_damage_bonus, damage_reduction: b_damage_reduction } => (str_equal(a_pokemon_name, b_pokemon_name)) && (*a_damage_bonus == *b_damage_bonus) && (*a_damage_reduction == *b_damage_reduction),
            _ => false,
        },
        _ => false,
    }
}

fn mechanic_eq_part3(a: &AbilityMechanic, b: &AbilityMechanic) -> (r: bool)
    requires
        (*a is StartTurnRandomPokemonToHand) || (*a is SearchRandomCardFromDeck) || (*a is LookAtTopCardOfDeck) || (*a is MoveDamageFromOneYourPokemonToThisPokemon) || (*a is DiscardOpponentActiveToolsAndDiscardSelf) || (*a is PreventFirstAttack) || (*a is ElectromagneticWall) || (*a is InfiltratingInspection) || (*a is DiscardTopCardOpponentDeck) || (*a is CoinFlipToPreventDamage) || (*a is CoinFlipToReduceDamage) || (*a is CoinFlipToSurviveKnockOut),
    ensures
        r == mechanic_same(*a, *b),
{
    match a {
        AbilityMechanic::StartTurnRandomPokemonToHand { energy_type: a_energy_type } => match b {
            AbilityMechanic::StartTurnRandomPokemonToHand { energy_type: b_energy_type } => (*a_energy_type == *b_energy_type),
            _ => false,
        },
        AbilityMechanic::SearchRandomCardFromDeck { card_kind: a_card_kind } => match b {
            AbilityMechanic::SearchRandomCardFromDeck { card_kind: b_card_kind } => (*a_card_kind == *b_card_kind),
            _ => false,
        },
        AbilityMechanic::LookAtTopCardOfDeck { either_player: a_either_player } => match b {
            AbilityMechanic::LookAtTopCardOfDeck { either_player: b_either_player } => (*a_either_player == *b_either_player),
            _ => false,
        },
        AbilityMechanic::MoveDamageFromOneYourPokemonToThisPokemon => matches!(b, AbilityMechanic::MoveDamageFromOneYourPokemonToThisPokemon),
        AbilityMechanic::DiscardOpponentActiveToolsAndDiscardSelf => matches!(b, AbilityMechanic::DiscardOpponentActiveToolsAndDiscardSelf),
        AbilityMechanic::PreventFirstAttack => matches!(b, AbilityMechanic::PreventFirstAttack),
        AbilityMechanic::ElectromagneticWall => matches!(b, AbilityMechanic::ElectromagneticWall),
        AbilityMechanic::InfiltratingInspection => matches!(b, AbilityMechanic::InfiltratingInspection),
        AbilityMechanic::DiscardTopCardOpponentDeck => matches!(b, AbilityMechanic::DiscardTopCardOpponentDeck),
        AbilityMechanic::CoinFlipToPreventDamage => matches!(b, AbilityMechanic::CoinFlipToPreventDamage),
        AbilityMechanic::CoinFlipToReduceDamage { amount: a_amount } => match b {
            AbilityMechanic::CoinFlipToReduceDamage { amount: b_amount } => (*a_amount == *b_amount),
            _ => false,
        },
        AbilityMechanic::CoinFlipToSurviveKnockOut => matches!(b, AbilityMechanic::CoinFlipToSurviveKnockOut),
        _ => false,
    }
}

fn mechanic_eq_part4(a: &AbilityMechanic, b: &AbilityMechanic) -> (r: bool)
    requires
        (*a is CoinFlipToDenyKnockoutPoints) || (*a is CoinFlipToKnockOutAttackerOnKnockout) || (*a is MoveAllTypedEnergyToBenchOnKnockout) || (*a is DamageOnKnockoutInActive) || (*a is CheckupDamageToOpponentActive) || (*a is CheckupDamageToAllOpponentPokemon) || (*a is DiscardEnergyToIncreaseTypeDamage) || (*a is CoinFlipStatusOpponentActive) || (*a is PoisonOpponentActive) || (*a is ConfuseOpponentActive) || (*a is BurnOpponentActive) || (*a is RemoveRandomSpecialConditionFromActive),
    ensures
        r == mechanic_same(*a, *b),
{
    match a {
        AbilityMechanic::CoinFlipToDenyKnockoutPoints => matches!(b, AbilityMechanic::CoinFlipToDenyKnockoutPoints),
        AbilityMechanic::CoinFlipToKnockOutAttackerOnKnockout => matches!(b, AbilityMechanic::CoinFlipToKnockOutAttackerOnKnockout),
        AbilityMechanic::MoveAllTypedEnergyToBenchOnKnockout { energy_type: a_energy_type } => match b {
            AbilityMechanic::MoveAllTypedEnergyToBenchOnKnockout { energy_type: b_energy_type } => (*a_energy_type == *b_energy_type),
            _ => false,
        },
        AbilityMechanic::DamageOnKnockoutInActive { amount: a_amount, target: a_target } => match b {
            AbilityMechanic::DamageOnKnockoutInActive { amount: b_amount, target: b_target } => (*a_amount == *b_amount) && (*a_target == *b_target),
            _ => false,
        },
        AbilityMechanic::CheckupDamageToOpponentActive { amount: a_amount } => match b {
            AbilityMechanic::CheckupDamageToOpponentActive { amount: b_amount } => (*a_amount == *b_amount),
            _ => false,
        },
        AbilityMechanic::CheckupDamageToAllOpponentPokemon { amount: a_amount } => match b {
            AbilityMechanic::CheckupDamageToAllOpponentPokemon { amount: b_amount } => (*a_amount == *b_amount),
            _ => false,
        },
        AbilityMechanic::DiscardEnergyToIncreaseTypeDamage { discard_energy: a_discard_energy, attack_type: a_attack_type, amount: a_amount } => match b {
            AbilityMechanic::DiscardEnergyToIncreaseTypeDamage { discard_energy: b_discard_energy, attack_type: b_attack_type, amount: b_amount } => (*a_discard_energy == *b_discard_energy) && (*a_attack_type == *b_attack_type) && (*a_amount == *b_amount),
            _ => false,
        },
        AbilityMechanic::CoinFlipStatusOpponentActive { status: a_status } => match b {
            AbilityMechanic::CoinFlipStatusOpponentActive { status: b_status } => (*a_status == *b_status),
            _ => false,
        },
        AbilityMechanic::PoisonOpponentActive => matches!(b, AbilityMechanic::PoisonOpponentActive),
        AbilityMechanic::ConfuseOpponentActive => matches!(b, AbilityMechanic::ConfuseOpponentActive),
        AbilityMechanic::BurnOpponentActive => matches!(b, AbilityMechanic::BurnOpponentActive),
        AbilityMechanic::RemoveRandomSpecialConditionFromActive => matches!(b, AbilityMechanic::RemoveRandomSpecialConditionFromActive),
        _ => false,
    }
}

fn mechanic_eq_part5(a: &AbilityMechanic, b: &AbilityMechanic) -> (r: bool)
    requires
        (*a is HealActiveYourPokemon) || (*a is SwitchOutOpponentActiveToBench) || (*a is BadDreamsEndOfTurn) || (*a is EndTurnDrawCardIfActive) || (*a is EndTurnHealSelfIfActive) || (*a is DiscardFromHandToDrawCard) || (*a is ImmuneToStatusConditions) || (*a is SoothingWind) || (*a is NoOpponentSupportInActive) || (*a is NoOpponentStadiumInActive) || (*a is DoubleGrassEnergy) || (*a is PreventOpponentActiveEvolution),
    ensures
        r == mechanic_same(*a, *b),
{
    match a {
        AbilityMechanic::HealActiveYourPokemon { amount: a_amount } => match b {
            AbilityMechanic::HealActiveYourPokemon { amount: b_amount } => (*a_amount == *b_amount),
            _ => false,
        },
        AbilityMechanic::SwitchOutOpponentActiveToBench { require_active: a_require_active, require_opponent_active_basic: a_require_opponent_active_basic } => match b {
            AbilityMechanic::SwitchOutOpponentActiveToBench { require_active: b_require_active, require_opponent_active_basic: b_require_opponent_active_basic } => (*a_require_active == *b_require_active) && (*a_require_opponent_active_basic == *b_require_opponent_active_basic),
            _ => false,
        },
        AbilityMechanic::BadDreamsEndOfTurn { amount: a_amount } => match b {
            AbilityMechanic::BadDreamsEndOfTurn { amount: b_amount } => (*a_amount == *b_amount),
            _ => false,
        },
        AbilityMechanic::EndTurnDrawCardIfActive { amount: a_amount } => match b {
            AbilityMechanic::EndTurnDrawCardIfActive { amount: b_amount } => (*a_amount == *b_amount),
            _ => false,
        },
        AbilityMechanic::EndTurnHealSelfIfActive { amount: a_amount } => match b {
            AbilityMechanic::EndTurnHealSelfIfActive { amount: b_amount } => (*a_amount == *b_amount),
            _ => false,
        },
        AbilityMechanic::DiscardFromHandToDrawCard => matches!(b, AbilityMechanic::DiscardFromHandToDrawCard),
        AbilityMechanic::ImmuneToStatusConditions { status: a_status } => match b {
            AbilityMechanic::ImmuneToStatusConditions { status: b_status } => (a_status == b_status),
            _ => false,
        },
        AbilityMechanic::SoothingWind { energy_type: a_energy_type } => match b {
            AbilityMechanic::SoothingWind { energy_type: b_energy_type } => (a_energy_type == b_energy_type),
            _ => false,
        },
        AbilityMechanic::NoOpponentSupportInActive => matches!(b, AbilityMechanic::NoOpponentSupportInActive),
        AbilityMechanic::NoOpponentStadiumInActive => matches!(b, AbilityMechanic::NoOpponentStadiumInActive),
        AbilityMechanic::DoubleGrassEnergy => matches!(b, AbilityMechanic::DoubleGrassEnergy),
        AbilityMechanic::PreventOpponentActiveEvolution => matches!(b, AbilityMechanic::PreventOpponentActiveEvolution),
        _ => false,
    }
}

fn mechanic_eq_part6(a: &AbilityMechanic, b: &AbilityMechanic) -> (r: bool)
    requires
        (*a is ReduceRetreatCostOfYourActiveBasicFromBench) || (*a is ReduceRetreatCostOfYourActiveTypedFromBench) || (*a is ReduceOwnRetreatCostIfAnotherSameNameInPlay) || (*a is NoRetreatIfHasEnergy) || (*a is NoRetreatCost) || (*a is PreventAllDamageFromEx) || (*a is PreventAttackEffects) || (*a is SleepOnZoneAttachToSelfWhileActive) || (*a is IncreasePoisonDamage) || (*a is DrawCardsOnEvolve) || (*a is HealTypedPokemonOnEvolve) || (*a is AttachEnergyFromZoneToActiveTypedOnEvolve),
    ensures
        r == mechanic_same(*a, *b),
{
    match a {
        AbilityMechanic::ReduceRetreatCostOfYourActiveBasicFromBench { amount: a_amount } => match b {
            AbilityMechanic::ReduceRetreatCostOfYourActiveBasicFromBench { amount: b_amount } => (*a_amount == *b_amount),
            _ => false,
        },
        AbilityMechanic::ReduceRetreatCostOfYourActiveTypedFromBench { energy_type: a_energy_type, amount: a_amount } => match b {
            AbilityMechanic::ReduceRetreatCostOfYourActiveTypedFromBench { energy_type: b_energy_type, amount: b_amount } => (*a_energy_type == *b_energy_type) && (*a_amount == *b_amount),
            _ => false,
        },
        AbilityMechanic::ReduceOwnRetreatCostIfAnotherSameNameInPlay { amount: a_amount } => match b {
            AbilityMechanic::ReduceOwnRetreatCostIfAnotherSameNameInPlay { amount: b_amount } => (*a_amount == *b_amount),
            _ => false,
        },
        AbilityMechanic::NoRetreatIfHasEnergy => matches!(b, AbilityMechanic::NoRetreatIfHasEnergy),
        AbilityMechanic::NoRetreatCost { target: a_target, condition: a_condition } => match b {
            AbilityMechanic::NoRetreatCost { target: b_target, condition: b_condition } => (no_retreat_targets_equal(a_target, b_target)) && (no_retreat_conditions_equal(a_condition, b_condition)),
            _ => false,
        },
        AbilityMechanic::PreventAllDamageFromEx => matches!(b, AbilityMechanic::PreventAllDamageFromEx),
        AbilityMechanic::PreventAttackEffects => matches!(b, AbilityMechanic::PreventAttackEffects),
        AbilityMechanic::SleepOnZoneAttachToSelfWhileActive => matches!(b, AbilityMechanic::SleepOnZoneAttachToSelfWhileActive),
        AbilityMechanic::IncreasePoisonDamage { amount: a_amount } => match b {
            AbilityMechanic::IncreasePoisonDamage { amount: b_amount } => (*a_amount == *b_amount),
            _ => false,
        },
        AbilityMechanic::DrawCardsOnEvolve { amount: a_amount } => match b {
            AbilityMechanic::DrawCardsOnEvolve { amount: b_amount } => (*a_amount == *b_amount),
            _ => false,
        },
        AbilityMechanic::HealTypedPokemonOnEvolve { energy_type: a_energy_type, amount: a_amount } => match b {
            AbilityMechanic::HealTypedPokemonOnEvolve { energy_type: b_energy_type, amount: b_amount } => (*a_energy_type == *b_energy_type) && (*a_amount == *b_amount),
            _ => false,
        },
        AbilityMechanic::AttachEnergyFromZoneToActiveTypedOnEvolve { energy_type: a_energy_type } => match b {
            AbilityMechanic::AttachEnergyFromZoneToActiveTypedOnEvolve { energy_type: b_energy_type } => (*a_energy_type == *b_energy_type),
            _ => false,
        },
        _ => false,
    }
}

fn mechanic_eq_part7(a: &AbilityMechanic, b: &AbilityMechanic) -> (r: bool)
    requires
        (*a is DamageOpponentActiveOnEvolve) || (*a is DiscardRandomEnergyFromOpponentActiveOnEvolve) || (*a is OpponentShuffleHandAndDrawOnEvolve) || (*a is PutCardsFromDiscardToHandOnEvolve) || (*a is CanEvolveIntoEeveeEvolution) || (*a is CanEvolveOnFirstTurnIfActive) || (*a is CounterattackDamage) || (*a is PoisonAttackerOnDamaged) || (*a is IncreaseAttackCostForOpponentActive) || (*a is IncreaseRetreatCostForOpponentActive) || (*a is PreventDamageWhileBenched) || (*a is IncreaseHpPerAttachedEnergy),
    ensures
        r == mechanic_same(*a, *b),
{
    match a {
        AbilityMechanic::DamageOpponentActiveOnEvolve { amount: a_amount } => match b {
            AbilityMechanic::DamageOpponentActiveOnEvolve { amount: b_amount } => (*a_amount == *b_amount),
            _ => false,
        },
        AbilityMechanic::DiscardRandomEnergyFromOpponentActiveOnEvolve => matches!(b, AbilityMechanic::DiscardRandomEnergyFromOpponentActiveOnEvolve),
        AbilityMechanic::OpponentShuffleHandAndDrawOnEvolve => matches!(b, AbilityMechanic::OpponentShuffleHandAndDrawOnEvolve),
        AbilityMechanic::PutCardsFromDiscardToHandOnEvolve { card_kind: a_card_kind, selection: a_selection } => match b {
            AbilityMechanic::PutCardsFromDiscardToHandOnEvolve { card_kind: b_card_kind, selection: b_selection } => (*a_card_kind == *b_card_kind) && (*a_selection == *b_selection),
            _ => false,
        },
        AbilityMechanic::CanEvolveIntoEeveeEvolution => matches!(b, AbilityMechanic::CanEvolveIntoEeveeEvolution),
        AbilityMechanic::CanEvolveOnFirstTurnIfActive => matches!(b, AbilityMechanic::CanEvolveOnFirstTurnIfActive),
        AbilityMechanic::CounterattackDamage { amount: a_amount } => match b {
            AbilityMechanic::CounterattackDamage { amount: b_amount } => (*a_amount == *b_amount),
            _ => false,
        },
        AbilityMechanic::PoisonAttackerOnDamaged => matches!(b, AbilityMechanic::PoisonAttackerOnDamaged),
        AbilityMechanic::IncreaseAttackCostForOpponentActive { amount: a_amount } => match b {
            AbilityMechanic::IncreaseAttackCostForOpponentActive { amount: b_amount } => (*a_amount == *b_amount),
            _ => false,
        },
        AbilityMechanic::IncreaseRetreatCostForOpponentActive { amount: a_amount } => match b {
            AbilityMechanic::IncreaseRetreatCostForOpponentActive { amount: b_amount } => (*a_amount == *b_amount),
            _ => false,
        },
        AbilityMechanic::PreventDamageWhileBenched => matches!(b, AbilityMechanic::PreventDamageWhileBenched),
        AbilityMechanic::IncreaseHpPerAttachedEnergy { energy_type: a_energy_type, amount: a_amount } => match b {
            AbilityMechanic::IncreaseHpPerAttachedEnergy { energy_type: b_energy_type, amount: b_amount } => (*a_energy_type == *b_energy_type) && (*a_amount == *b_amount),
            _ => false,
        },
        _ => false,
    }
}

fn mechanic_eq_part8(a: &AbilityMechanic, b: &AbilityMechanic) -> (r: bool)
    requires
        (*a is IncreaseHpForTypeInPlay) || (*a is HealSelfOnZoneAttach) || (*a is EndFirstTurnAttachEnergyToSelf) || (*a is ProtectSelfNextTurnAfterAttackKnockout) || (*a is MoveFixedDamageFromActiveToThisBenched) || (*a is LegendaryDrive) || (*a is AncientRoar) || (*a is ReduceAttackCost) || (*a is TimeRecall) || (*a is QuickGrowth) || (*a is RandomEvolutionFromDeck) || (*a is DualType) || (*a is CannotAttackWithoutBenchedNames),
    ensures
        r == mechanic_same(*a, *b),
{
    match a {
        AbilityMechanic::IncreaseHpForTypeInPlay { energy_type: a_energy_type, amount: a_amount } => match b {
            AbilityMechanic::IncreaseHpForTypeInPlay { energy_type: b_energy_type, amount: b_amount } => (*a_energy_type == *b_energy_type) && (*a_amount == *b_amount),
            _ => false,
        },
        AbilityMechanic::HealSelfOnZoneAttach { energy_type: a_energy_type, amount: a_amount } => match b {
            AbilityMechanic::HealSelfOnZoneAttach { energy_type: b_energy_type, amount: b_amount } => (*a_energy_type == *b_energy_type) && (*a_amount == *b_amount),
            _ => false,
        },
        AbilityMechanic::EndFirstTurnAttachEnergyToSelf { energy_type: a_energy_type } => match b {
            AbilityMechanic::EndFirstTurnAttachEnergyToSelf { energy_type: b_energy_type } => (*a_energy_type == *b_energy_type),
            _ => false,
        },
        AbilityMechanic::ProtectSelfNextTurnAfterAttackKnockout => matches!(b, AbilityMechanic::ProtectSelfNextTurnAfterAttackKnockout),
        AbilityMechanic::MoveFixedDamageFromActiveToThisBenched { amount: a_amount } => match b {
            AbilityMechanic::MoveFixedDamageFromActiveToThisBenched { amount: b_amount } => (*a_amount == *b_amount),
            _ => false,
        },
        AbilityMechanic::LegendaryDrive => matches!(b, AbilityMechanic::LegendaryDrive),
        AbilityMechanic::AncientRoar => matches!(b, AbilityMechanic::AncientRoar),
        AbilityMechanic::ReduceAttackCost { energy_type: a_energy_type, amount: a_amount, scope: a_scope } => match b {
            AbilityMechanic::ReduceAttackCost { energy_type: b_energy_type, amount: b_amount, scope: b_scope } => (*a_energy_type == *b_energy_type) && (*a_amount == *b_amount) && (*a_scope == *b_scope),
            _ => false,
        },
        AbilityMechanic::TimeRecall => matches!(b, AbilityMechanic::TimeRecall),
        AbilityMechanic::QuickGrowth => matches!(b, AbilityMechanic::QuickGrowth),
        AbilityMechanic::RandomEvolutionFromDeck { trigger: a_trigger } => match b {
            AbilityMechanic::RandomEvolutionFromDeck { trigger: b_trigger } => (*a_trigger == *b_trigger),
            _ => false,
        },
        AbilityMechanic::DualType { types: a_types } => match b {
            AbilityMechanic::DualType { types: b_types } => (a_types[0] == b_types[0] && a_types[1] == b_types[1]),
            _ => false,
        },
        AbilityMechanic::CannotAttackWithoutBenchedNames { required_bench_names: a_required_bench_names } => match b {
            AbilityMechanic::CannotAttackWithoutBenchedNames { required_bench_names: b_required_bench_names } => (names_equal(a_required_bench_names, b_required_bench_names)),
            _ => false,
        },
        _ => false,
    }
}

fn mechanic_eq_part9(a: &AbilityMechanic, b: &AbilityMechanic) -> (r: bool)
    requires
        (*a is SuppressBasicAbilities) || (*a is PreventAllHealing) || (*a is CopyRandomOpponentHandSupporter) || (*a is RevealRandomOpponentHandCard) || (*a is LuxuryCoin) || (*a is VictoryStar),
    ensures
        r == mechanic_same(*a, *b),
{
    match a {
        AbilityMechanic::SuppressBasicAbilities => matches!(b, AbilityMechanic::SuppressBasicAbilities),
        AbilityMechanic::PreventAllHealing => matches!(b, AbilityMechanic::PreventAllHealing),
        AbilityMechanic::CopyRandomOpponentHandSupporter => matches!(b, AbilityMechanic::CopyRandomOpponentHandSupporter),
        AbilityMechanic::RevealRandomOpponentHandCard => matches!(b, AbilityMechanic::RevealRandomOpponentHandCard),
        AbilityMechanic::LuxuryCoin => matches!(b, AbilityMechanic::LuxuryCoin),
        AbilityMechanic::VictoryStar => matches!(b, AbilityMechanic::VictoryStar),
        _ => false,
    }
}

/// Exec equality of mechanics, the comparison `==` on `AbilityMechanic` makes.
pub fn mechanic_eq(a: &AbilityMechanic, b: &AbilityMechanic) -> (r: bool)
    ensures
        r == mechanic_same(*a, *b),
{
    match a {
        AbilityMechanic::VictreebelFragranceTrap | AbilityMechanic::HealAllYourPokemon { .. } | AbilityMechanic::HealOneYourPokemon { .. } | AbilityMechanic::HealOneYourPokemonExAndDiscardRandomEnergy { .. } | AbilityMechanic::CheckupHealAllYourPokemon { .. } | AbilityMechanic::DamageOneOpponentPokemon { .. } | AbilityMechanic::IncreaseDamageIfArceusInPlay { .. } | AbilityMechanic::DamageOpponentActiveIfArceusInPlay { .. } | AbilityMechanic::SwitchDamagedOpponentBenchToActive | AbilityMechanic::CoinFlipSwitchInOpponentBenchToActive | AbilityMechanic::SwitchThisBenchWithActive | AbilityMechanic::SwitchActiveTypedWithBench { .. } => mechanic_eq_part0(a, b),
        AbilityMechanic::SwitchActiveUltraBeastWithBench | AbilityMechanic::MoveTypedEnergyFromBenchToActive { .. } | AbilityMechanic::MoveAllTypedEnergyFromBenchToActive { .. } | AbilityMechanic::MoveAllTypedEnergyFromYourPokemonToSelf { .. } | AbilityMechanic::AttachEnergyFromZoneToActiveTypedPokemon { .. } | AbilityMechanic::AttachEnergyFromZoneToYourTypedPokemon { .. } | AbilityMechanic::AttachEnergyFromZoneToSelf { .. } | AbilityMechanic::AttachEnergyFromZoneToSelfAndEndTurn { .. } | AbilityMechanic::AttachEnergyFromZoneToSelfAndDamage { .. } | AbilityMechanic::AttachEnergyFromZoneToBenchOnDamaged { .. } | AbilityMechanic::DamageOpponentActiveOnZoneAttachToSelf { .. } | AbilityMechanic::AttachEnergyFromDiscardToSelfAndDamage { .. } => mechanic_eq_part1(a, b),
        AbilityMechanic::ReduceDamageFromAttacks { .. } | AbilityMechanic::ReduceOpponentActiveDamage { .. } | AbilityMechanic::ReduceDamageFromTypedAttackers { .. } | AbilityMechanic::ReduceDamageIfArceusInPlay { .. } | AbilityMechanic::ReduceDamageAtFullHp { .. } | AbilityMechanic::UnownGuard { .. } | AbilityMechanic::IncreaseDamageWhenRemainingHpAtMost { .. } | AbilityMechanic::IncreaseDamageForTypeInPlay { .. } | AbilityMechanic::IncreaseDamageForTwoTypesInPlay { .. } | AbilityMechanic::UnownPower { .. } | AbilityMechanic::IncreaseDamageForEvolutionsFromBench { .. } | AbilityMechanic::CoordinatedUnit { .. } => mechanic_eq_part2(a, b),
        AbilityMechanic::StartTurnRandomPokemonToHand { .. } | AbilityMechanic::SearchRandomCardFromDeck { .. } | AbilityMechanic::LookAtTopCardOfDeck { .. } | AbilityMechanic::MoveDamageFromOneYourPokemonToThisPokemon | AbilityMechanic::DiscardOpponentActiveToolsAndDiscardSelf | AbilityMechanic::PreventFirstAttack | AbilityMechanic::ElectromagneticWall | AbilityMechanic::InfiltratingInspection | AbilityMechanic::DiscardTopCardOpponentDeck | AbilityMechanic::CoinFlipToPreventDamage | AbilityMechanic::CoinFlipToReduceDamage { .. } | AbilityMechanic::CoinFlipToSurviveKnockOut => mechanic_eq_part3(a, b),
        AbilityMechanic::CoinFlipToDenyKnockoutPoints | AbilityMechanic::CoinFlipToKnockOutAttackerOnKnockout | AbilityMechanic::MoveAllTypedEnergyToBenchOnKnockout { .. } | AbilityMechanic::DamageOnKnockoutInActive { .. } | AbilityMechanic::CheckupDamageToOpponentActive { .. } | AbilityMechanic::CheckupDamageToAllOpponentPokemon { .. } | AbilityMechanic::DiscardEnergyToIncreaseTypeDamage { .. } | AbilityMechanic::CoinFlipStatusOpponentActive { .. } | AbilityMechanic::PoisonOpponentActive | AbilityMechanic::ConfuseOpponentActive | AbilityMechanic::BurnOpponentActive | AbilityMechanic::RemoveRandomSpecialConditionFromActive => mechanic_eq_part4(a, b),
        AbilityMechanic::HealActiveYourPokemon { .. } | AbilityMechanic::SwitchOutOpponentActiveToBench { .. } | AbilityMechanic::BadDreamsEndOfTurn { .. } | AbilityMechanic::EndTurnDrawCardIfActive { .. } | AbilityMechanic::EndTurnHealSelfIfActive { .. } | AbilityMechanic::DiscardFromHandToDrawCard | AbilityMechanic::ImmuneToStatusConditions { .. } | AbilityMechanic::SoothingWind { .. } | AbilityMechanic::NoOpponentSupportInActive | AbilityMechanic::NoOpponentStadiumInActive | AbilityMechanic::DoubleGrassEnergy | AbilityMechanic::PreventOpponentActiveEvolution => mechanic_eq_part5(a, b),
        AbilityMechanic::ReduceRetreatCostOfYourActiveBasicFromBench { .. } | AbilityMechanic::ReduceRetreatCostOfYourActiveTypedFromBench { .. } | AbilityMechanic::ReduceOwnRetreatCostIfAnotherSameNameInPlay { .. } | AbilityMechanic::NoRetreatIfHasEnergy | AbilityMechanic::NoRetreatCost { .. } | AbilityMechanic::PreventAllDamageFromEx | AbilityMechanic::PreventAttackEffects | AbilityMechanic::SleepOnZoneAttachToSelfWhileActive | AbilityMechanic::IncreasePoisonDamage { .. } | AbilityMechanic::DrawCardsOnEvolve { .. } | AbilityMechanic::HealTypedPokemonOnEvolve { .. } | AbilityMechanic::AttachEnergyFromZoneToActiveTypedOnEvolve { .. } => mechanic_eq_part6(a, b),
        AbilityMechanic::DamageOpponentActiveOnEvolve { .. } | AbilityMechanic::DiscardRandomEnergyFromOpponentActiveOnEvolve | AbilityMechanic::OpponentShuffleHandAndDrawOnEvolve | AbilityMechanic::PutCardsFromDiscardToHandOnEvolve { .. } | AbilityMechanic::CanEvolveIntoEeveeEvolution | AbilityMechanic::CanEvolveOnFirstTurnIfActive | AbilityMechanic::CounterattackDamage { .. } | AbilityMechanic::PoisonAttackerOnDamaged | AbilityMechanic::IncreaseAttackCostForOpponentActive { .. } | AbilityMechanic::IncreaseRetreatCostForOpponentActive { .. } | AbilityMechanic::PreventDamageWhileBenched | AbilityMechanic::IncreaseHpPerAttachedEnergy { .. } => mechanic_eq_part7(a, b),
        AbilityMechanic::IncreaseHpForTypeInPlay { .. } | AbilityMechanic::HealSelfOnZoneAttach { .. } | AbilityMechanic::EndFirstTurnAttachEnergyToSelf { .. } | AbilityMechanic::ProtectSelfNextTurnAfterAttackKnockout | AbilityMechanic::MoveFixedDamageFromActiveToThisBenched { .. } | AbilityMechanic::LegendaryDrive | AbilityMechanic::AncientRoar | AbilityMechanic::ReduceAttackCost { .. } | AbilityMechanic::TimeRecall | AbilityMechanic::QuickGrowth | AbilityMechanic::RandomEvolutionFromDeck { .. } | AbilityMechanic::DualType { .. } | AbilityMechanic::CannotAttackWithoutBenchedNames { .. } => mechanic_eq_part8(a, b),
        AbilityMechanic::SuppressBasicAbilities | AbilityMechanic::PreventAllHealing | AbilityMechanic::CopyRandomOpponentHandSupporter | AbilityMechanic::RevealRandomOpponentHandCard | AbilityMechanic::LuxuryCoin | AbilityMechanic::VictoryStar => mechanic_eq_part9(a, b),
    }
}

} // verus!
