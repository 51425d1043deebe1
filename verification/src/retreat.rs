//! Retreating: whether the Active Pokémon may retreat, the Energy its Retreat Cost asks for once
//! every Ability, Tool, Stadium and effect in force is applied, and which Energy pays it.
use vstd::prelude::*;
use vstd::multiset::Multiset;

use crate::abilities::{AbilityMechanic, NoRetreatCostCondition, NoRetreatCostTarget};
use crate::ability_lookup::{get_in_play_ability_mechanic, spec_get_in_play_ability_mechanic};
use crate::board::{
    get_peculiar_plaza_retreat_reduction, has_another_pokemon_named_in_play, has_named_pokemon_in_play,
    pokemon_energy_types, spec_has_another_pokemon_named_in_play, spec_has_named_pokemon_in_play,
    spec_peculiar_plaza_retreat_reduction, spec_pokemon_types, spec_tool_count, tool_count,
};
use crate::card_ids::CardId;
use crate::effects::CardEffect;
use crate::energy_moves::with_energy;
use crate::models::{Card, EnergyType, PlayedCard};
use crate::state::{lemma_retreat_discount_nonneg, retreat_discount_in, State};
use crate::text::str_equal;

verus! {

/// `s` with its last `n` entries removed (all of them when `n` exceeds its length).
pub open spec fn drop_last_n(s: Seq<EnergyType>, n: int) -> Seq<EnergyType> {
    if n <= 0 {
        s
    } else if n >= s.len() {
        Seq::empty()
    } else {
        s.take(s.len() - n)
    }
}

/// `n` Colorless Energy.
pub open spec fn colorless_n(n: nat) -> Seq<EnergyType> {
    Seq::new(n, |i: int| EnergyType::Colorless)
}

fn pop_n(v: &mut Vec<EnergyType>, n: u64)
    ensures
        final(v)@ == drop_last_n(old(v)@, n as int),
{
    let mut k: u64 = 0;
    while k < n
        invariant
            k <= n,
            v@ == drop_last_n(old(v)@, k as int),
        decreases n - k,
    {
        v.pop();
        k += 1;
    }
}

fn push_colorless_n(v: &mut Vec<EnergyType>, n: u64)
    ensures
        final(v)@ == old(v)@ + colorless_n(n as nat),
{
    let mut k: u64 = 0;
    while k < n
        invariant
            k <= n,
            v@ == old(v)@ + colorless_n(k as nat),
        decreases n - k,
    {
        v.push(EnergyType::Colorless);
        k += 1;
        proof {
            assert(v@ =~= old(v)@ + colorless_n(k as nat));
        }
    }
}

/// The current player's Active Pokémon may retreat: no retreat yet this turn, no `NoRetreat`
/// effect on it, and it is not a Fossil.
pub open spec fn spec_can_retreat(state: State) -> bool {
    match state.in_play_pokemon[state.current_player as int][0] {
        Some(active) => !state.has_retreated && !active.spec_has_no_retreat_effect() && !active.card.spec_is_fossil(),
        None => false,
    }
}

pub fn can_retreat(state: &State) -> (r: bool)
    requires
        state.wf(),
        state.in_play_pokemon[state.current_player as int][0] is Some,
    ensures
        r == spec_can_retreat(*state),
{
    let active = state.get_active(state.current_player);
    let has_no_retreat_effect = active.has_no_retreat_effect();
    let is_fossil = active.is_fossil();
    !state.has_retreated && !has_no_retreat_effect && !is_fossil
}

/// Whether the condition of a no-Retreat-Cost Ability holds for `player`.
pub open spec fn spec_no_retreat_cost_condition_holds(
    state: State,
    player: int,
    condition: NoRetreatCostCondition,
) -> bool {
    match condition {
        NoRetreatCostCondition::Always => true,
        NoRetreatCostCondition::NamedPokemonInPlay(names) => spec_has_named_pokemon_in_play(state, player, names@),
        NoRetreatCostCondition::StadiumInPlay => state.active_stadium is Some,
        NoRetreatCostCondition::YourFirstTurn => player == state.current_player && state.spec_is_users_first_turn(),
    }
}

fn no_retreat_cost_condition_holds(state: &State, player: usize, condition: &NoRetreatCostCondition) -> (r: bool)
    requires
        player < 2,
    ensures
        r == spec_no_retreat_cost_condition_holds(*state, player as int, *condition),
{
    match condition {
        NoRetreatCostCondition::Always => true,
        NoRetreatCostCondition::NamedPokemonInPlay(names) => has_named_pokemon_in_play(state, player, names),
        NoRetreatCostCondition::StadiumInPlay => state.active_stadium.is_some(),
        NoRetreatCostCondition::YourFirstTurn => player == state.current_player && state.is_users_first_turn(),
    }
}

/// `source`, one of `player`'s Pokémon in play, has an Ability that removes the Retreat Cost of
/// `active`, their Active Pokémon. Abilities that free only their holder do not count here.
pub open spec fn spec_grants_active_no_retreat_cost(
    state: State,
    player: int,
    source: PlayedCard,
    active: PlayedCard,
) -> bool {
    match spec_get_in_play_ability_mechanic(state, source) {
        Some(AbilityMechanic::NoRetreatCost { target, condition }) => {
            let targets_active = match target {
                NoRetreatCostTarget::ThisPokemon => false,
                NoRetreatCostTarget::YourActive => true,
                NoRetreatCostTarget::YourActiveNamed(name) => active.spec_name() == name@,
            };
            targets_active && spec_no_retreat_cost_condition_holds(state, player, condition)
        },
        _ => false,
    }
}

fn grants_active_no_retreat_cost(state: &State, player: usize, source: &PlayedCard, active: &PlayedCard) -> (r: bool)
    requires
        player < 2,
    ensures
        r == spec_grants_active_no_retreat_cost(*state, player as int, *source, *active),
{
    match get_in_play_ability_mechanic(state, source) {
        Some(AbilityMechanic::NoRetreatCost { target, condition }) => {
            let targets_active = match target {
                NoRetreatCostTarget::ThisPokemon => false,
                NoRetreatCostTarget::YourActive => true,
                NoRetreatCostTarget::YourActiveNamed(name) => {
                    let active_name = active.get_name();
                    str_equal(active_name.as_str(), name)
                },
            };
            targets_active && no_retreat_cost_condition_holds(state, player, &condition)
        },
        _ => false,
    }
}

/// Slot `i` of `player` holds a Pokémon that frees `active` from its Retreat Cost.
pub open spec fn slot_grants_no_retreat_cost(state: State, player: int, i: int, active: PlayedCard) -> bool {
    match state.in_play_pokemon[player][i] {
        Some(source) => spec_grants_active_no_retreat_cost(state, player, source, active),
        None => false,
    }
}

/// `card` has no Retreat Cost by an Ability: its own self-scoped one, or one of `player`'s
/// Pokémon in play freeing the Active Pokémon.
pub open spec fn spec_has_no_retreat_cost_ability(state: State, player: int, card: PlayedCard) -> bool {
    let own = match spec_get_in_play_ability_mechanic(state, card) {
        Some(AbilityMechanic::NoRetreatCost { target: NoRetreatCostTarget::ThisPokemon, condition }) =>
            spec_no_retreat_cost_condition_holds(state, player, condition),
        _ => false,
    };
    own || exists|i: int| 0 <= i < 4 && #[trigger] slot_grants_no_retreat_cost(state, player, i, card)
}

fn has_no_retreat_cost_ability(state: &State, player: usize, card: &PlayedCard) -> (r: bool)
    requires
        player < 2,
    ensures
        r == spec_has_no_retreat_cost_ability(*state, player as int, *card),
{
    if let Some(AbilityMechanic::NoRetreatCost { target: NoRetreatCostTarget::ThisPokemon, condition }) =
        get_in_play_ability_mechanic(state, card)
    {
        if no_retreat_cost_condition_holds(state, player, &condition) {
            return true;
        }
    }
    for i in 0..4
        invariant
            player < 2,
            !match spec_get_in_play_ability_mechanic(*state, *card) {
                Some(AbilityMechanic::NoRetreatCost { target: NoRetreatCostTarget::ThisPokemon, condition }) =>
                    spec_no_retreat_cost_condition_holds(*state, player as int, condition),
                _ => false,
            },
            forall|j: int| 0 <= j < i ==> !#[trigger] slot_grants_no_retreat_cost(*state, player as int, j, *card),
    {
        if let Some(source) = &state.in_play_pokemon[player][i] {
            if grants_active_no_retreat_cost(state, player, source, card) {
                proof {
                    assert(slot_grants_no_retreat_cost(*state, player as int, i as int, *card));
                }
                return true;
            }
        }
    }
    false
}

/// Sum of `f` over the Pokémon on the Bench slots `1..hi`.
pub open spec fn bench_sum(slots: [Option<PlayedCard>; 4], f: spec_fn(PlayedCard) -> nat, hi: int) -> nat
    decreases hi,
{
    if hi <= 1 {
        0
    } else {
        bench_sum(slots, f, hi - 1) + match slots[hi - 1] {
            Some(p) => f(p),
            None => 0,
        }
    }
}

/// Sky Support: a Benched Pokémon whose Ability makes the Active Basic Pokémon's Retreat Cost
/// 1 less.
pub open spec fn sky_support_bonus(state: State, p: PlayedCard) -> nat {
    match spec_get_in_play_ability_mechanic(state, p) {
        Some(AbilityMechanic::ReduceRetreatCostOfYourActiveBasicFromBench { amount }) => if amount == 1 {
            1
        } else {
            0
        },
        _ => 0,
    }
}

/// A Benched Pokémon whose Ability lowers the Retreat Cost of an Active Pokémon of a type in
/// `active_types`.
pub open spec fn typed_bench_bonus(state: State, active_types: Seq<EnergyType>, p: PlayedCard) -> nat {
    match spec_get_in_play_ability_mechanic(state, p) {
        Some(AbilityMechanic::ReduceRetreatCostOfYourActiveTypedFromBench { energy_type, amount }) => if active_types.contains(
            energy_type,
        ) {
            (amount as u8) as nat
        } else {
            0
        },
        _ => 0,
    }
}

/// Beldum's Ability: the Retreat Cost is `amount` less while another Pokémon of the same name
/// is in play.
pub open spec fn same_name_bonus(state: State, player: int, card: PlayedCard) -> nat {
    match spec_get_in_play_ability_mechanic(state, card) {
        Some(AbilityMechanic::ReduceOwnRetreatCostIfAnotherSameNameInPlay { amount }) => if spec_has_another_pokemon_named_in_play(
            state,
            player,
            card.spec_name(),
        ) {
            amount as nat
        } else {
            0
        },
        _ => 0,
    }
}

/// Peculiar Plaza: the largest reduction it grants over the Pokémon's types.
pub open spec fn plaza_bonus(state: State, card: PlayedCard) -> nat {
    if spec_pokemon_types(state, card).contains(EnergyType::Psychic) {
        spec_peculiar_plaza_retreat_reduction(state, EnergyType::Psychic) as nat
    } else {
        0
    }
}

/// The turn's `ReducedRetreatCost` discounts, which only the current player's Pokémon get and
/// only when temporary discounts are counted.
pub open spec fn temporary_discount(state: State, player: int, include_temporary: bool) -> int {
    if include_temporary && player == state.current_player {
        state.spec_retreat_discount()
    } else {
        0
    }
}

/// How many Energy are taken off the Retreat Cost of `card` (of printed stage `stage`).
pub open spec fn spec_retreat_reduction(
    state: State,
    player: int,
    card: PlayedCard,
    stage: u8,
    include_temporary: bool,
) -> int {
    let slots = state.in_play_pokemon[player];
    let types = spec_pokemon_types(state, card);
    temporary_discount(state, player, include_temporary)
        + (if stage == 0 { bench_sum(slots, |p: PlayedCard| sky_support_bonus(state, p), 4) } else { 0 })
        + bench_sum(slots, |p: PlayedCard| typed_bench_bonus(state, types, p), 4)
        + same_name_bonus(state, player, card)
        + plaza_bonus(state, card)
}

/// Sum of the `IncreasedRetreatCost` amounts among `effects`.
pub open spec fn increased_retreat_sum(effects: Seq<(CardEffect, u8)>) -> nat
    decreases effects.len(),
{
    if effects.len() == 0 {
        0
    } else {
        increased_retreat_sum(effects.drop_last()) + match effects.last().0 {
            CardEffect::IncreasedRetreatCost { amount } => amount as nat,
            _ => 0,
        }
    }
}

/// Slot `i` of `owner` holds a Pokémon whose Ability makes the opposing Active Pokémon's
/// Retreat Cost 1 more.
pub open spec fn slot_has_retreat_trap(state: State, owner: int, i: int) -> bool {
    match state.in_play_pokemon[owner][i] {
        Some(p) => match spec_get_in_play_ability_mechanic(state, p) {
            Some(AbilityMechanic::IncreaseRetreatCostForOpponentActive { amount }) => amount == 1,
            _ => false,
        },
        None => false,
    }
}

pub open spec fn opponent_has_retreat_trap(state: State, player: int) -> bool {
    exists|i: int| 0 <= i < 4 && #[trigger] slot_has_retreat_trap(state, (player + 1) % 2, i)
}

/// The Retreat Cost of `card` for its owner `player`, in the order the Energy are listed: the
/// printed cost, less what Tools, Abilities, the Stadium and (when counted) the turn's
/// discounts take off its end, plus one [C] per `IncreasedRetreatCost` and one for an opposing
/// trap. Abilities that remove the cost, and Big Air Balloon on a Stage 2, make it empty.
pub open spec fn spec_retreat_cost_for_player(
    state: State,
    player: int,
    card: PlayedCard,
    include_temporary: bool,
) -> Seq<EnergyType> {
    match card.card {
        Card::Pokemon(pc) => {
            if (spec_get_in_play_ability_mechanic(state, card) == Some(AbilityMechanic::NoRetreatIfHasEnergy)
                && card.attached_energy@.len() > 0) || spec_has_no_retreat_cost_ability(state, player, card) {
                Seq::empty()
            } else if spec_tool_count(card, CardId::B2a087BigAirBalloon) > 0 && pc.stage == 2 {
                Seq::empty()
            } else {
                let boats = spec_tool_count(card, CardId::A4a067InflatableBoat);
                let after_boat = if boats > 0 && spec_pokemon_types(state, card).contains(EnergyType::Water) {
                    drop_last_n(pc.retreat_cost@, boats as int)
                } else {
                    pc.retreat_cost@
                };
                let after_balloon = if pc.stage == 0 {
                    drop_last_n(after_boat, spec_tool_count(card, CardId::B3b064SmallBalloon) as int)
                } else {
                    after_boat
                };
                let reduced = drop_last_n(
                    after_balloon,
                    spec_retreat_reduction(state, player, card, pc.stage, include_temporary),
                );
                let raised = reduced + colorless_n(increased_retreat_sum(card.effects@));
                if opponent_has_retreat_trap(state, player) {
                    raised.push(EnergyType::Colorless)
                } else {
                    raised
                }
            }
        },
        _ => Seq::empty(),
    }
}

/// What the reduction can cost in `u8` arithmetic without overflowing: both sums fit.
pub open spec fn retreat_cost_in_range(state: State, player: int, card: PlayedCard, include_temporary: bool) -> bool {
    match card.card {
        Card::Pokemon(pc) => spec_retreat_reduction(state, player, card, pc.stage, include_temporary) <= u8::MAX
            && increased_retreat_sum(card.effects@) <= u8::MAX,
        _ => true,
    }
}

fn sky_support_reduction(state: &State, player: usize) -> (r: u64)
    requires
        player < 2,
    ensures
        r == bench_sum(state.in_play_pokemon[player as int], |p: PlayedCard| sky_support_bonus(*state, p), 4),
{
    let ghost f = |p: PlayedCard| sky_support_bonus(*state, p);
    let mut total: u64 = 0;
    let mut i: usize = 1;
    while i < 4
        invariant
            player < 2,
            1 <= i <= 4,
            f == (|p: PlayedCard| sky_support_bonus(*state, p)),
            total == bench_sum(state.in_play_pokemon[player as int], f, i as int),
            total <= i,
        decreases 4 - i,
    {
        if let Some(benched) = &state.in_play_pokemon[player][i] {
            if let Some(AbilityMechanic::ReduceRetreatCostOfYourActiveBasicFromBench { amount }) =
                get_in_play_ability_mechanic(state, benched)
            {
                if amount == 1 {
                    total += 1;
                }
            }
        }
        i += 1;
    }
    total
}

fn typed_bench_reduction(state: &State, player: usize, card: &PlayedCard) -> (r: u64)
    requires
        player < 2,
    ensures
        r == bench_sum(
            state.in_play_pokemon[player as int],
            |p: PlayedCard| typed_bench_bonus(*state, spec_pokemon_types(*state, *card), p),
            4,
        ),
{
    let ghost types = spec_pokemon_types(*state, *card);
    let ghost f = |p: PlayedCard| typed_bench_bonus(*state, types, p);
    let mut total: u64 = 0;
    let mut i: usize = 1;
    while i < 4
        invariant
            player < 2,
            1 <= i <= 4,
            types == spec_pokemon_types(*state, *card),
            f == (|p: PlayedCard| typed_bench_bonus(*state, types, p)),
            total == bench_sum(state.in_play_pokemon[player as int], f, i as int),
            total <= 255 * i,
        decreases 4 - i,
    {
        if let Some(benched) = &state.in_play_pokemon[player][i] {
            if let Some(AbilityMechanic::ReduceRetreatCostOfYourActiveTypedFromBench { energy_type, amount }) =
                get_in_play_ability_mechanic(state, benched)
            {
                if crate::board::pokemon_is_type(state, card, energy_type) {
                    let a: u8 = amount as u8;
                    total += a as u64;
                }
            }
        }
        i += 1;
    }
    total
}

fn same_name_reduction(state: &State, player: usize, card: &PlayedCard) -> (r: u64)
    requires
        player < 2,
    ensures
        r == same_name_bonus(*state, player as int, *card),
{
    if let Some(AbilityMechanic::ReduceOwnRetreatCostIfAnotherSameNameInPlay { amount }) =
        get_in_play_ability_mechanic(state, card)
    {
        let name = card.get_name();
        if has_another_pokemon_named_in_play(state, player, name.as_str()) {
            return amount as u64;
        }
    }
    0
}

fn plaza_reduction(state: &State, card: &PlayedCard) -> (r: u64)
    ensures
        r == plaza_bonus(*state, *card),
{
    let types = pokemon_energy_types(state, card);
    let mut best: u8 = 0;
    let n = types.len();
    for i in 0..n
        invariant
            n == types@.len(),
            types@ == spec_pokemon_types(*state, *card),
            best == if types@.take(i as int).contains(EnergyType::Psychic) {
                spec_peculiar_plaza_retreat_reduction(*state, EnergyType::Psychic)
            } else {
                0
            },
    {
        let reduction = get_peculiar_plaza_retreat_reduction(state, types[i]);
        proof {
            let s = types@;
            let a = s.take(i as int);
            let b = s.take(i + 1);
            assert(b =~= a.push(s[i as int]));
            if a.contains(EnergyType::Psychic) {
                let j = choose|j: int| 0 <= j < a.len() && #[trigger] a[j] == EnergyType::Psychic;
                assert(b[j] == EnergyType::Psychic);
            }
            if s[i as int] == EnergyType::Psychic {
                assert(b[i as int] == EnergyType::Psychic);
            }
            if b.contains(EnergyType::Psychic) {
                let j = choose|j: int| 0 <= j < b.len() && #[trigger] b[j] == EnergyType::Psychic;
                if j < i {
                    assert(a[j] == EnergyType::Psychic);
                }
            }
        }
        if reduction > best {
            best = reduction;
        }
    }
    proof {
        assert(types@.take(n as int) =~= types@);
    }
    best as u64
}

/// The `IncreasedRetreatCost` amounts on `card`, added up (saturating at `u64::MAX`).
fn increased_retreat_cost(card: &PlayedCard) -> (r: u64)
    ensures
        r as int == if increased_retreat_sum(card.effects@) < u64::MAX as int {
            increased_retreat_sum(card.effects@) as int
        } else {
            u64::MAX as int
        },
{
    let mut total: u64 = 0;
    let n = card.effects.len();
    for i in 0..n
        invariant
            n == card.effects@.len(),
            total as int == if increased_retreat_sum(card.effects@.take(i as int)) < u64::MAX as int {
                increased_retreat_sum(card.effects@.take(i as int)) as int
            } else {
                u64::MAX as int
            },
    {
        proof {
            assert(card.effects@.take(i + 1).drop_last() =~= card.effects@.take(i as int));
        }
        match &card.effects[i].0 {
            CardEffect::IncreasedRetreatCost { amount } => {
                total = total.saturating_add(*amount as u64);
            },
            _ => {},
        }
    }
    proof {
        assert(card.effects@.take(n as int) =~= card.effects@);
    }
    total
}

fn opponent_retreat_trap(state: &State, player: usize) -> (r: bool)
    requires
        player < 2,
    ensures
        r == opponent_has_retreat_trap(*state, player as int),
{
    let opponent = (player + 1) % 2;
    for i in 0..4
        invariant
            player < 2,
            opponent == (player + 1) % 2,
            forall|j: int| 0 <= j < i ==> !#[trigger] slot_has_retreat_trap(*state, opponent as int, j),
    {
        if let Some(pokemon) = &state.in_play_pokemon[opponent][i] {
            if let Some(AbilityMechanic::IncreaseRetreatCostForOpponentActive { amount }) =
                get_in_play_ability_mechanic(state, pokemon)
            {
                if amount == 1 {
                    proof {
                        assert(slot_has_retreat_trap(*state, opponent as int, i as int));
                    }
                    return true;
                }
            }
        }
    }
    false
}

fn get_retreat_cost_for_player_internal(
    state: &State,
    player: usize,
    card: &PlayedCard,
    include_temporary_turn_discounts: bool,
) -> (r: Vec<EnergyType>)
    requires
        player < 2,
        retreat_cost_in_range(*state, player as int, *card, include_temporary_turn_discounts),
    ensures
        r@ == spec_retreat_cost_for_player(*state, player as int, *card, include_temporary_turn_discounts),
{
    if let Card::Pokemon(pokemon_card) = &card.card {
        if matches!(get_in_play_ability_mechanic(state, card), Some(AbilityMechanic::NoRetreatIfHasEnergy))
            && card.attached_energy.len() > 0
        {
            return Vec::new();
        }
        if has_no_retreat_cost_ability(state, player, card) {
            return Vec::new();
        }
        let mut normal_cost = pokemon_card.retreat_cost.clone();
        proof {
            assert(normal_cost@ =~= pokemon_card.retreat_cost@);
        }
        let boats = tool_count(card, CardId::A4a067InflatableBoat);
        if boats > 0 && crate::board::pokemon_is_type(state, card, EnergyType::Water) {
            pop_n(&mut normal_cost, boats as u64);
        }
        if tool_count(card, CardId::B2a087BigAirBalloon) > 0 && pokemon_card.stage == 2 {
            return Vec::new();
        }
        if pokemon_card.stage == 0 {
            let balloons = tool_count(card, CardId::B3b064SmallBalloon);
            pop_n(&mut normal_cost, balloons as u64);
        }
        let temporary: u64 = if include_temporary_turn_discounts && player == state.current_player {
            state.current_retreat_discount()
        } else {
            0
        };
        let sky: u64 = if pokemon_card.stage == 0 {
            sky_support_reduction(state, player)
        } else {
            0
        };
        let typed = typed_bench_reduction(state, player, card);
        let same_name = same_name_reduction(state, player, card);
        let plaza = plaza_reduction(state, card);
        proof {
            lemma_retreat_discount_nonneg(state.turn_effects@, state.turn_count);
        }
        let to_subtract: u64 = temporary + sky + typed + same_name + plaza;
        pop_n(&mut normal_cost, to_subtract);
        let extra = increased_retreat_cost(card);
        push_colorless_n(&mut normal_cost, extra);
        if opponent_retreat_trap(state, player) {
            normal_cost.push(EnergyType::Colorless);
        }
        normal_cost
    } else {
        Vec::new()
    }
}

/// The Retreat Cost of `card` for the current player, counting this turn's discounts.
pub fn get_retreat_cost(state: &State, card: &PlayedCard) -> (r: Vec<EnergyType>)
    requires
        state.wf(),
        retreat_cost_in_range(*state, state.current_player as int, *card, true),
    ensures
        r@ == spec_retreat_cost_for_player(*state, state.current_player as int, *card, true),
{
    get_retreat_cost_for_player(state, state.current_player, card)
}

/// The Retreat Cost of `card` when `player` owns it, counting this turn's discounts (which
/// only the current player's Pokémon get).
pub fn get_retreat_cost_for_player(state: &State, player: usize, card: &PlayedCard) -> (r: Vec<EnergyType>)
    requires
        player < 2,
        retreat_cost_in_range(*state, player as int, *card, true),
    ensures
        r@ == spec_retreat_cost_for_player(*state, player as int, *card, true),
{
    get_retreat_cost_for_player_internal(state, player, card, true)
}

/// The Retreat Cost the board gives `card` when `player` owns it, leaving out discounts that
/// end with this turn.
pub fn get_board_retreat_cost_for_player(state: &State, player: usize, card: &PlayedCard) -> (r: Vec<EnergyType>)
    requires
        player < 2,
        retreat_cost_in_range(*state, player as int, *card, false),
    ensures
        r@ == spec_retreat_cost_for_player(*state, player as int, *card, false),
{
    get_retreat_cost_for_player_internal(state, player, card, false)
}

/// Discounts that end with this turn only ever shorten a Retreat Cost: the cost the board
/// gives is at least as long as the cost for this turn, and the two agree for the player who
/// is not taking the turn.
pub proof fn lemma_board_retreat_cost_not_below_turn_cost(state: State, player: int, card: PlayedCard)
    requires
        0 <= player < 2,
    ensures
        spec_retreat_cost_for_player(state, player, card, true).len() <= spec_retreat_cost_for_player(
            state,
            player,
            card,
            false,
        ).len(),
        player != state.current_player ==> spec_retreat_cost_for_player(state, player, card, true)
            == spec_retreat_cost_for_player(state, player, card, false),
{
    lemma_retreat_discount_nonneg(state.turn_effects@, state.turn_count);
}

/// `b` is `a` with possibly other Tools attached, and nothing else changed.
pub open spec fn differs_only_in_tools(a: PlayedCard, b: PlayedCard) -> bool {
    &&& b.card == a.card
    &&& b.remaining_hp == a.remaining_hp
    &&& b.total_hp == a.total_hp
    &&& b.attached_energy == a.attached_energy
    &&& b.played_this_turn == a.played_this_turn
    &&& b.ability_used == a.ability_used
    &&& b.poisoned == a.poisoned
    &&& b.paralyzed == a.paralyzed
    &&& b.asleep == a.asleep
    &&& b.burned == a.burned
    &&& b.confused == a.confused
    &&& b.cards_behind == a.cards_behind
    &&& b.effects == a.effects
    &&& b.moved_to_active_this_turn == a.moved_to_active_this_turn
}

/// What the Retreat Cost reads of a Pokémon besides its Tools is the same for `a` and `b`.
proof fn lemma_same_but_tools_same_context(state: State, player: int, a: PlayedCard, b: PlayedCard, include_temporary: bool)
    requires
        a.card is Pokemon,
        differs_only_in_tools(a, b),
    ensures
        spec_get_in_play_ability_mechanic(state, b) == spec_get_in_play_ability_mechanic(state, a),
        spec_pokemon_types(state, b) == spec_pokemon_types(state, a),
        spec_has_no_retreat_cost_ability(state, player, b) == spec_has_no_retreat_cost_ability(state, player, a),
        spec_retreat_reduction(state, player, b, a.card->Pokemon_0.stage, include_temporary) == spec_retreat_reduction(
            state,
            player,
            a,
            a.card->Pokemon_0.stage,
            include_temporary,
        ),
        spec_retreat_reduction(state, player, a, a.card->Pokemon_0.stage, include_temporary) >= 0,
{
    assert(spec_get_in_play_ability_mechanic(state, b) == spec_get_in_play_ability_mechanic(state, a));
    assert(spec_pokemon_types(state, b) == spec_pokemon_types(state, a));
    assert forall|i: int| #[trigger] slot_grants_no_retreat_cost(state, player, i, b) == slot_grants_no_retreat_cost(
        state,
        player,
        i,
        a,
    ) by {
        assert(b.spec_name() == a.spec_name());
    }
    if exists|i: int| 0 <= i < 4 && #[trigger] slot_grants_no_retreat_cost(state, player, i, a) {
        let i = choose|i: int| 0 <= i < 4 && #[trigger] slot_grants_no_retreat_cost(state, player, i, a);
        assert(slot_grants_no_retreat_cost(state, player, i, b));
    }
    if exists|i: int| 0 <= i < 4 && #[trigger] slot_grants_no_retreat_cost(state, player, i, b) {
        let i = choose|i: int| 0 <= i < 4 && #[trigger] slot_grants_no_retreat_cost(state, player, i, b);
        assert(slot_grants_no_retreat_cost(state, player, i, a));
    }
    lemma_retreat_discount_nonneg(state.turn_effects@, state.turn_count);
}

/// Small Balloon lowers the Retreat Cost of a Basic Pokémon only: for an evolved Pokémon
/// (Stage 1 or 2), attaching or removing Small Balloons leaves its Retreat Cost as it is, as
/// long as every other Tool stays.
pub proof fn lemma_small_balloon_only_helps_basic_pokemon(
    state: State,
    player: int,
    a: PlayedCard,
    b: PlayedCard,
    include_temporary: bool,
)
    requires
        a.card matches Card::Pokemon(pc) && pc.stage != 0,
        differs_only_in_tools(a, b),
        forall|id: CardId| id != CardId::B3b064SmallBalloon ==> #[trigger] spec_tool_count(b, id) == spec_tool_count(a, id),
    ensures
        spec_retreat_cost_for_player(state, player, b, include_temporary) == spec_retreat_cost_for_player(
            state,
            player,
            a,
            include_temporary,
        ),
{
    assert(spec_tool_count(b, CardId::B2a087BigAirBalloon) == spec_tool_count(a, CardId::B2a087BigAirBalloon));
    assert(spec_tool_count(b, CardId::A4a067InflatableBoat) == spec_tool_count(a, CardId::A4a067InflatableBoat));
    lemma_same_but_tools_same_context(state, player, a, b, include_temporary);
}

/// One more Small Balloon on a Basic Pokémon takes one Energy off its Retreat Cost, as long as
/// any of the printed cost is left to take (the cost is longer than what effects and an opposing
/// trap add to it), and never raises it.
pub proof fn lemma_small_balloon_lowers_basic_retreat_by_one(
    state: State,
    player: int,
    a: PlayedCard,
    b: PlayedCard,
    include_temporary: bool,
)
    requires
        a.card matches Card::Pokemon(pc) && pc.stage == 0,
        differs_only_in_tools(a, b),
        forall|id: CardId| id != CardId::B3b064SmallBalloon ==> #[trigger] spec_tool_count(b, id) == spec_tool_count(a, id),
        spec_tool_count(b, CardId::B3b064SmallBalloon) == spec_tool_count(a, CardId::B3b064SmallBalloon) + 1,
    ensures
        spec_retreat_cost_for_player(state, player, b, include_temporary).len() <= spec_retreat_cost_for_player(
            state,
            player,
            a,
            include_temporary,
        ).len(),
        spec_retreat_cost_for_player(state, player, a, include_temporary).len() > increased_retreat_sum(a.effects@) + (
        if opponent_has_retreat_trap(state, player) {
            1int
        } else {
            0int
        }) ==> spec_retreat_cost_for_player(state, player, b, include_temporary).len() + 1
            == spec_retreat_cost_for_player(state, player, a, include_temporary).len(),
{
    assert(spec_tool_count(b, CardId::B2a087BigAirBalloon) == spec_tool_count(a, CardId::B2a087BigAirBalloon));
    assert(spec_tool_count(b, CardId::A4a067InflatableBoat) == spec_tool_count(a, CardId::A4a067InflatableBoat));
    lemma_same_but_tools_same_context(state, player, a, b, include_temporary);
}

/// Big Air Balloon frees a Stage 2 Pokémon from its Retreat Cost altogether.
pub proof fn lemma_big_air_balloon_frees_stage_two(state: State, player: int, card: PlayedCard, include_temporary: bool)
    requires
        card.card matches Card::Pokemon(pc) && pc.stage == 2,
        spec_tool_count(card, CardId::B2a087BigAirBalloon) > 0,
    ensures
        spec_retreat_cost_for_player(state, player, card, include_temporary).len() == 0,
{
}

} // verus!

verus! {

/// The Grass Energy of `s`, in order.
pub open spec fn grass_of(s: Seq<EnergyType>) -> Seq<EnergyType>
    decreases s.len(),
{
    if s.len() == 0 {
        Seq::empty()
    } else if s.last() == EnergyType::Grass {
        grass_of(s.drop_last()).push(s.last())
    } else {
        grass_of(s.drop_last())
    }
}

/// The other Energy of `s`, in order.
pub open spec fn non_grass_of(s: Seq<EnergyType>) -> Seq<EnergyType>
    decreases s.len(),
{
    if s.len() == 0 {
        Seq::empty()
    } else if s.last() != EnergyType::Grass {
        non_grass_of(s.drop_last()).push(s.last())
    } else {
        non_grass_of(s.drop_last())
    }
}

/// `s` reordered Grass first, each group keeping its order.
pub open spec fn grass_first(s: Seq<EnergyType>) -> Seq<EnergyType> {
    grass_of(s) + non_grass_of(s)
}

/// What all of `s` pays towards a Retreat Cost: one per Energy, two per Grass Energy when
/// `double_grass`.
pub open spec fn retreat_payment(s: Seq<EnergyType>, double_grass: bool) -> int {
    s.len() + if double_grass {
        s.to_multiset().count(EnergyType::Grass) as int
    } else {
        0
    }
}

/// Paying `cost` from the end of `s`: what is left, and the Energy discarded, in the order taken.
pub open spec fn pay_from_end(s: Seq<EnergyType>, cost: nat, double_grass: bool) -> (Seq<EnergyType>, Seq<EnergyType>)
    decreases s.len(),
{
    if cost == 0 || s.len() == 0 {
        (s, Seq::empty())
    } else {
        let e = s.last();
        let step: nat = if e == EnergyType::Grass && double_grass {
            2
        } else {
            1
        };
        let rest = pay_from_end(s.drop_last(), if cost >= step {
            (cost - step) as nat
        } else {
            0
        }, double_grass);
        (rest.0, seq![e] + rest.1)
    }
}

/// What paying `player`'s Retreat Cost does: the Energy of the Active Pokémon, reordered Grass
/// first, is taken from the end until the cost is paid (a Grass Energy paying two when
/// `double_grass`) and goes to the player's discarded Energy, and the turn's retreat is used.
pub open spec fn retreat_paid_post(pre: State, post: State, player: usize, double_grass: bool) -> bool {
    &&& ({
        let active = pre.in_play_pokemon[player as int][0]->0;
        let cost = spec_retreat_cost_for_player(pre, pre.current_player as int, active, true).len();
        let (left, discarded) = pay_from_end(grass_first(active.attached_energy@), cost, double_grass);
        &&& post.in_play_pokemon[player as int][0] matches Some(after)
        &&& with_energy(active, after, left)
        &&& post.discard_energies[player as int]@ == pre.discard_energies[player as int]@ + discarded
        &&& left.to_multiset().add(discarded.to_multiset()) == active.attached_energy@.to_multiset()
        &&& retreat_payment(discarded, double_grass) >= cost
    })
    &&& forall|i: int| 1 <= i < 4 ==> #[trigger] post.in_play_pokemon[player as int][i] == pre.in_play_pokemon[player as int][i]
    &&& post.in_play_pokemon[1 - player] == pre.in_play_pokemon[1 - player]
    &&& post.discard_energies[1 - player] == pre.discard_energies[1 - player]
    &&& post.has_retreated
    &&& post.turn_count == pre.turn_count
    &&& post.current_player == pre.current_player
    &&& post.points == pre.points
    &&& post.winner == pre.winner
    &&& post.hands == pre.hands
    &&& post.decks == pre.decks
    &&& post.discard_piles == pre.discard_piles
    &&& post.current_energy == pre.current_energy
    &&& post.active_stadium == pre.active_stadium
    &&& post.active_stadium_owner == pre.active_stadium_owner
    &&& post.turn_effects == pre.turn_effects
    &&& post.move_generation_stack == pre.move_generation_stack
    &&& post.has_used_stadium == pre.has_used_stadium
    &&& post.luxury_coin_used_this_turn == pre.luxury_coin_used_this_turn
    &&& post.victory_star_used_this_turn == pre.victory_star_used_this_turn
    &&& post.setup_opponent_hidden == pre.setup_opponent_hidden
    &&& post.healing_blocked == pre.healing_blocked
}

/// Pay the Retreat Cost of `player`'s Active Pokémon (as the current player's turn counts it)
/// with its Energy: the Energy is first reordered Grass first, each group keeping its order,
/// then taken from the end until the cost is paid, a Grass Energy paying two when
/// `double_grass`. The Energy taken goes to the player's discarded Energy, and the turn's
/// retreat is used. The attached Energy must be able to pay.
pub fn pay_retreat_cost(state: &mut State, player: usize, double_grass: bool)
    requires
        old(state).wf(),
        player < 2,
        old(state).in_play_pokemon[player as int][0] is Some,
        retreat_cost_in_range(
            *old(state),
            old(state).current_player as int,
            old(state).in_play_pokemon[player as int][0]->0,
            true,
        ),
        retreat_payment(old(state).in_play_pokemon[player as int][0]->0.attached_energy@, double_grass)
            >= spec_retreat_cost_for_player(
            *old(state),
            old(state).current_player as int,
            old(state).in_play_pokemon[player as int][0]->0,
            true,
        ).len(),
    ensures
        retreat_paid_post(*old(state), *final(state), player, double_grass),

{
    let cost = {
        let active = state.in_play_pokemon[player][0].as_ref().unwrap();
        get_retreat_cost(state, active).len()
    };
    let mut active = state.in_play_pokemon[player][0].take().unwrap();
    let ghost s = active.attached_energy@;
    let ghost original = active;
    let n = active.attached_energy.len();
    let mut ordered: Vec<EnergyType> = Vec::new();
    for i in 0..n
        invariant
            n == s.len(),
            active.attached_energy@ == s,
            ordered@ == grass_of(s.take(i as int)),
    {
        proof {
            assert(s.take(i + 1).drop_last() =~= s.take(i as int));
        }
        if active.attached_energy[i] == EnergyType::Grass {
            ordered.push(EnergyType::Grass);
        }
    }
    let ghost grass = ordered@;
    proof {
        assert(s.take(n as int) =~= s);
    }
    for i in 0..n
        invariant
            n == s.len(),
            active.attached_energy@ == s,
            grass == grass_of(s),
            ordered@ == grass + non_grass_of(s.take(i as int)),
    {
        proof {
            assert(s.take(i + 1).drop_last() =~= s.take(i as int));
        }
        let e = active.attached_energy[i];
        if e != EnergyType::Grass {
            ordered.push(e);
            proof {
                assert(grass + non_grass_of(s.take(i + 1)) =~= (grass + non_grass_of(s.take(i as int))).push(e));
            }
        }
    }
    proof {
        assert(s.take(n as int) =~= s);
        assert(ordered@ == grass_first(s));
    }
    proof {
        lemma_grass_first_keeps_energy(s);
        vstd::seq_lib::to_multiset_len(s);
        vstd::seq_lib::to_multiset_len(grass_first(s));
        assert(retreat_payment(grass_first(s), double_grass) == retreat_payment(s, double_grass));
        lemma_pay_from_end_keeps_energy(grass_first(s), cost as nat, double_grass);
        lemma_pay_from_end_pays(grass_first(s), cost as nat, double_grass);
    }
    let mut remaining: usize = cost;
    let mut discarded: Vec<EnergyType> = Vec::new();
    while remaining > 0 && ordered.len() > 0
        invariant
            pay_from_end(grass_first(s), cost as nat, double_grass) == ({
                let rest = pay_from_end(ordered@, remaining as nat, double_grass);
                (rest.0, discarded@ + rest.1)
            }),
        decreases ordered.len(),
    {
        let ghost before = ordered@;
        let e = ordered.pop().unwrap();
        proof {
            assert(before.drop_last() == ordered@);
            assert(before.last() == e);
        }
        let ghost taken_before = discarded@;
        discarded.push(e);
        if e == EnergyType::Grass && double_grass {
            remaining = remaining.saturating_sub(2);
        } else {
            remaining = remaining.saturating_sub(1);
        }
        proof {
            let rest = pay_from_end(ordered@, remaining as nat, double_grass);
            assert(discarded@ + rest.1 =~= taken_before + (seq![e] + rest.1));
        }
    }
    active.attached_energy = ordered;
    state.in_play_pokemon[player][0] = Some(active);
    state.discard_energies[player].append(&mut discarded);
    state.has_retreated = true;
}

/// Reordering Grass first keeps every Energy.
proof fn lemma_grass_first_keeps_energy(s: Seq<EnergyType>)
    ensures
        grass_first(s).to_multiset() == s.to_multiset(),
    decreases s.len(),
{
    broadcast use vstd::multiset::group_multiset_axioms;
    broadcast use vstd::seq_lib::lemma_multiset_commutative;
    broadcast use vstd::seq_lib::to_multiset_build;

    if s.len() == 0 {
        assert(grass_first(s) =~= s);
    } else {
        let d = s.drop_last();
        let e = s.last();
        lemma_grass_first_keeps_energy(d);
        assert(s =~= d.push(e));
        assert(grass_of(d).to_multiset().add(non_grass_of(d).to_multiset()) == d.to_multiset());
        if e == EnergyType::Grass {
            assert(grass_first(s).to_multiset() =~= grass_of(d).push(e).to_multiset().add(non_grass_of(d).to_multiset()));
        } else {
            assert(grass_first(s).to_multiset() =~= grass_of(d).to_multiset().add(non_grass_of(d).push(e).to_multiset()));
        }
        assert(grass_first(s).to_multiset() =~= d.to_multiset().insert(e));
    }
}

proof fn lemma_prepend_multiset(e: EnergyType, x: Seq<EnergyType>)
    ensures
        (seq![e] + x).to_multiset() == x.to_multiset().insert(e),
{
    broadcast use vstd::multiset::group_multiset_axioms;
    broadcast use vstd::seq_lib::lemma_multiset_commutative;
    broadcast use vstd::seq_lib::to_multiset_build;

    assert(seq![e] =~= Seq::<EnergyType>::empty().push(e));
    assert(Seq::<EnergyType>::empty().to_multiset() =~= Multiset::empty()) by {
        assert forall|a: EnergyType| Seq::<EnergyType>::empty().to_multiset().count(a) == 0 by {
            vstd::seq_lib::to_multiset_contains(Seq::<EnergyType>::empty(), a);
        }
    }
    assert((seq![e] + x).to_multiset() =~= x.to_multiset().insert(e));
}

/// Paying from the end keeps every Energy: what is left and what was discarded make up the list.
proof fn lemma_pay_from_end_keeps_energy(s: Seq<EnergyType>, cost: nat, double_grass: bool)
    ensures
        pay_from_end(s, cost, double_grass).0.to_multiset().add(pay_from_end(s, cost, double_grass).1.to_multiset())
            == s.to_multiset(),
    decreases s.len(),
{
    broadcast use vstd::multiset::group_multiset_axioms;
    broadcast use vstd::seq_lib::to_multiset_build;

    if cost == 0 || s.len() == 0 {
        lemma_prepend_multiset(EnergyType::Grass, Seq::empty());
        assert(Seq::<EnergyType>::empty().to_multiset() =~= Multiset::empty()) by {
            assert forall|a: EnergyType| Seq::<EnergyType>::empty().to_multiset().count(a) == 0 by {
                vstd::seq_lib::to_multiset_contains(Seq::<EnergyType>::empty(), a);
            }
        }
        assert(s.to_multiset().add(Multiset::empty()) =~= s.to_multiset());
    } else {
        let d = s.drop_last();
        let e = s.last();
        let step: nat = if e == EnergyType::Grass && double_grass {
            2
        } else {
            1
        };
        let c2: nat = if cost >= step {
            (cost - step) as nat
        } else {
            0
        };
        lemma_pay_from_end_keeps_energy(d, c2, double_grass);
        let rest = pay_from_end(d, c2, double_grass);
        lemma_prepend_multiset(e, rest.1);
        assert(s =~= d.push(e));
        assert(rest.0.to_multiset().add((seq![e] + rest.1).to_multiset()) =~= s.to_multiset());
    }
}

/// When the list can pay `cost`, what paying from the end discards does pay it.
proof fn lemma_pay_from_end_pays(s: Seq<EnergyType>, cost: nat, double_grass: bool)
    requires
        retreat_payment(s, double_grass) >= cost,
    ensures
        retreat_payment(pay_from_end(s, cost, double_grass).1, double_grass) >= cost,
    decreases s.len(),
{
    broadcast use vstd::multiset::group_multiset_axioms;
    broadcast use vstd::seq_lib::to_multiset_build;

    if cost == 0 || s.len() == 0 {
        if s.len() == 0 {
            assert(s.to_multiset().count(EnergyType::Grass) == 0) by {
                vstd::seq_lib::to_multiset_contains(s, EnergyType::Grass);
            }
        }
    } else {
        let d = s.drop_last();
        let e = s.last();
        let step: nat = if e == EnergyType::Grass && double_grass {
            2
        } else {
            1
        };
        let c2: nat = if cost >= step {
            (cost - step) as nat
        } else {
            0
        };
        assert(s =~= d.push(e));
        assert(retreat_payment(s, double_grass) == retreat_payment(d, double_grass) + step);
        lemma_pay_from_end_pays(d, c2, double_grass);
        let rest = pay_from_end(d, c2, double_grass);
        lemma_prepend_multiset(e, rest.1);
        assert(retreat_payment(seq![e] + rest.1, double_grass) == retreat_payment(rest.1, double_grass) + step);
    }
}

} // verus!
