//! The board steps that deterministic actions are made of: healing and curing, drawing,
//! discarding a Tool, the Stadium, an Energy or a Fossil, and switching the Active Pokémon.
use vstd::prelude::*;

use crate::energy_moves::{only_slots_changed, same_except_board, take_out_each, take_out_each_energy};
use crate::leaving_play::{lift_out_of_play, only_leaving_changed, stack_cards};
use crate::actions::SimpleAction;
use crate::cards::{copy_card, find_card, first_card_index, same_card};
use crate::models::{spec_entering_hp, Card, PlayedCard, StatusCondition};
use crate::state::State;

verus! {

/// `b` is `a` in everything but its HP, Special Conditions, Energy and Tools.
pub open spec fn same_pokemon(a: PlayedCard, b: PlayedCard) -> bool {
    &&& b.card == a.card
    &&& b.total_hp == a.total_hp
    &&& b.played_this_turn == a.played_this_turn
    &&& b.ability_used == a.ability_used
    &&& b.cards_behind == a.cards_behind
    &&& b.effects == a.effects
    &&& b.moved_to_active_this_turn == a.moved_to_active_this_turn
}

/// `b` has the Special Conditions of `a`.
pub open spec fn same_conditions(a: PlayedCard, b: PlayedCard) -> bool {
    &&& b.poisoned == a.poisoned
    &&& b.paralyzed == a.paralyzed
    &&& b.asleep == a.asleep
    &&& b.burned == a.burned
    &&& b.confused == a.confused
}

/// `b` is `a` with every Special Condition in `cured` removed and the others kept.
pub open spec fn conditions_cured(a: PlayedCard, b: PlayedCard, cured: Seq<StatusCondition>) -> bool {
    &&& b.poisoned == (a.poisoned && !cured.contains(StatusCondition::Poisoned))
    &&& b.paralyzed == (a.paralyzed && !cured.contains(StatusCondition::Paralyzed))
    &&& b.asleep == (a.asleep && !cured.contains(StatusCondition::Asleep))
    &&& b.burned == (a.burned && !cured.contains(StatusCondition::Burned))
    &&& b.confused == (a.confused && !cured.contains(StatusCondition::Confused))
}

/// Every Special Condition.
pub open spec fn all_conditions() -> Seq<StatusCondition> {
    seq![
        StatusCondition::Asleep,
        StatusCondition::Burned,
        StatusCondition::Confused,
        StatusCondition::Paralyzed,
        StatusCondition::Poisoned,
    ]
}

/// How much healing `amount` restores to `p`: nothing under Heal Block, else the damage on it,
/// at most `amount`.
pub open spec fn spec_healed_amount(p: PlayedCard, amount: u32, blocked: bool) -> int {
    if blocked {
        0
    } else if amount < p.spec_damage_counters() {
        amount as int
    } else {
        p.spec_damage_counters()
    }
}

/// `b` is `a` healed by `heal` with the Special Conditions in `cured` removed; Energy and Tools
/// stay.
pub open spec fn healed_pokemon(a: PlayedCard, b: PlayedCard, heal: int, cured: Seq<StatusCondition>) -> bool {
    &&& same_pokemon(a, b)
    &&& b.remaining_hp == a.remaining_hp + heal
    &&& conditions_cured(a, b, cured)
    &&& b.attached_energy == a.attached_energy
    &&& b.attached_tools == a.attached_tools
}

/// What healing `player`'s Pokémon in `idx` by `amount` and curing `cured` does to the game.
pub open spec fn heal_post(pre: State, post: State, player: usize, idx: usize, amount: u32, cured: Seq<StatusCondition>) -> bool {
    let a = pre.in_play_pokemon[player as int][idx as int]->0;
    &&& post.in_play_pokemon[player as int][idx as int] matches Some(b)
    &&& healed_pokemon(a, b, spec_healed_amount(a, amount, pre.healing_blocked), cured)
    &&& only_slots_changed(pre, post, player as int, idx as int, idx as int)
}

/// Heal `player`'s Pokémon in `idx` by `amount` (nothing under Heal Block; never above its
/// total HP); returns how much was healed.
fn heal_pokemon(state: &mut State, player: usize, idx: usize, amount: u32) -> (healed: u32)
    requires
        player < 2,
        idx < 4,
        old(state).in_play_pokemon[player as int][idx as int] is Some,
    ensures
        healed == spec_healed_amount(
            old(state).in_play_pokemon[player as int][idx as int]->0,
            amount,
            old(state).healing_blocked,
        ),
        heal_post(*old(state), *final(state), player, idx, amount, Seq::empty()),
{
    if state.healing_blocked {
        return 0;
    }
    let mut p = state.in_play_pokemon[player][idx].take().unwrap();
    let damage = p.get_damage_counters();
    let healed = if amount < damage {
        amount
    } else {
        damage
    };
    p.remaining_hp = p.remaining_hp + healed;
    state.in_play_pokemon[player][idx] = Some(p);
    healed
}

/// Remove the Special Conditions in `cured` from `player`'s Pokémon in `idx`.
fn cure_conditions(state: &mut State, player: usize, idx: usize, cured: &[StatusCondition])
    requires
        player < 2,
        idx < 4,
        old(state).in_play_pokemon[player as int][idx as int] is Some,
    ensures
        final(state).in_play_pokemon[player as int][idx as int] matches Some(b) && healed_pokemon(
            old(state).in_play_pokemon[player as int][idx as int]->0,
            b,
            0,
            cured@,
        ),
        only_slots_changed(*old(state), *final(state), player as int, idx as int, idx as int),
{
    let mut p = state.in_play_pokemon[player][idx].take().unwrap();
    let ghost a = p;
    let n = cured.len();
    for k in 0..n
        invariant
            n == cured@.len(),
            same_pokemon(a, p),
            p.remaining_hp == a.remaining_hp,
            p.attached_energy == a.attached_energy,
            p.attached_tools == a.attached_tools,
            conditions_cured(a, p, cured@.take(k as int)),
    {
        proof {
            assert(cured@.take(k + 1) =~= cured@.take(k as int).push(cured@[k as int]));
        }
        match cured[k] {
            StatusCondition::Asleep => p.asleep = false,
            StatusCondition::Burned => p.burned = false,
            StatusCondition::Confused => p.confused = false,
            StatusCondition::Paralyzed => p.paralyzed = false,
            StatusCondition::Poisoned => p.poisoned = false,
        }
        proof {
            let prev = cured@.take(k as int);
            let t = cured@.take(k + 1);
            assert forall|c: StatusCondition| t.contains(c) <==> (prev.contains(c) || c == cured@[k as int]) by {
                if t.contains(c) {
                    let j = choose|j: int| 0 <= j < t.len() && t[j] == c;
                    if j < k {
                        assert(prev[j] == c);
                    }
                }
                if prev.contains(c) {
                    let j = choose|j: int| 0 <= j < prev.len() && prev[j] == c;
                    assert(t[j] == c);
                }
                if c == cured@[k as int] {
                    assert(t[k as int] == c);
                }
            }
        }
    }
    proof {
        assert(cured@.take(n as int) =~= cured@);
    }
    state.in_play_pokemon[player][idx] = Some(p);
}

/// Heal `acting_player`'s Pokémon in `position` by `amount` and, when `cure_status`, remove all
/// its Special Conditions. Heal Block stops the healing but not the cure: curing is not healing.
pub fn apply_healing(acting_player: usize, state: &mut State, position: usize, amount: u32, cure_status: bool)
    requires
        acting_player < 2,
        position < 4,
        old(state).in_play_pokemon[acting_player as int][position as int] is Some,
    ensures
        heal_post(
            *old(state),
            *final(state),
            acting_player,
            position,
            amount,
            if cure_status {
                all_conditions()
            } else {
                Seq::empty()
            },
        ),
{
    heal_pokemon(state, acting_player, position, amount);
    if cure_status {
        let all = [
            StatusCondition::Asleep,
            StatusCondition::Burned,
            StatusCondition::Confused,
            StatusCondition::Paralyzed,
            StatusCondition::Poisoned,
        ];
        proof {
            assert(all@ =~= all_conditions());
        }
        cure_conditions(state, acting_player, position, &all);
    } else {
        proof {
            assert(Seq::<StatusCondition>::empty() =~= Seq::empty());
        }
    }
}

/// Heal `acting_player`'s Pokémon in `position` by `amount` and remove only the Special
/// Conditions listed in `conditions` (Whitney); the others stay.
pub fn apply_heal_and_cure_conditions(
    acting_player: usize,
    state: &mut State,
    position: usize,
    amount: u32,
    conditions: &[StatusCondition],
)
    requires
        acting_player < 2,
        position < 4,
        old(state).in_play_pokemon[acting_player as int][position as int] is Some,
    ensures
        heal_post(*old(state), *final(state), acting_player, position, amount, conditions@),
{
    heal_pokemon(state, acting_player, position, amount);
    cure_conditions(state, acting_player, position, conditions);
}

/// What Heal-then-discard does: `player`'s Pokémon in `idx` is healed; if anything was healed,
/// the first attached Energy of each type in `discard` in turn is discarded (by swap-removal,
/// skipping those no longer attached) to the player's discarded Energy. Otherwise nothing
/// changes.
pub open spec fn heal_and_discard_post(pre: State, post: State, player: usize, idx: usize, amount: u32, discard: Seq<crate::models::EnergyType>) -> bool {
    let a = pre.in_play_pokemon[player as int][idx as int]->0;
    let heal = spec_healed_amount(a, amount, pre.healing_blocked);
    let (left, taken) = take_out_each(a.attached_energy@, discard);
    if heal == 0 {
        post == pre
    } else {
        &&& post.in_play_pokemon[player as int][idx as int] matches Some(b)
        &&& same_pokemon(a, b)
        &&& same_conditions(a, b)
        &&& b.remaining_hp == a.remaining_hp + heal
        &&& b.attached_tools == a.attached_tools
        &&& b.attached_energy@ == left
        &&& post.discard_energies[player as int]@ == pre.discard_energies[player as int]@ + taken
        &&& post.discard_energies[1 - player] == pre.discard_energies[1 - player]
        &&& post.in_play_pokemon[1 - player] == pre.in_play_pokemon[1 - player]
        &&& forall|i: int| 0 <= i < 4 && i != idx ==> #[trigger] post.in_play_pokemon[player as int][i]
            == pre.in_play_pokemon[player as int][i]
        &&& same_except_discards(pre, post)
    }
}

/// `b` is `a` with at most the Pokémon in play and the discarded Energy changed.
pub open spec fn same_except_discards(a: State, b: State) -> bool {
    &&& b.turn_count == a.turn_count
    &&& b.current_player == a.current_player
    &&& b.points == a.points
    &&& b.winner == a.winner
    &&& b.hands == a.hands
    &&& b.decks == a.decks
    &&& b.discard_piles == a.discard_piles
    &&& b.current_energy == a.current_energy
    &&& b.has_retreated == a.has_retreated
    &&& b.active_stadium == a.active_stadium
    &&& b.active_stadium_owner == a.active_stadium_owner
    &&& b.turn_effects == a.turn_effects
    &&& b.move_generation_stack == a.move_generation_stack
    &&& b.has_used_stadium == a.has_used_stadium
    &&& b.luxury_coin_used_this_turn == a.luxury_coin_used_this_turn
    &&& b.victory_star_used_this_turn == a.victory_star_used_this_turn
    &&& b.setup_opponent_hidden == a.setup_opponent_hidden
    &&& b.healing_blocked == a.healing_blocked
}

/// Heal `acting_player`'s Pokémon in `position` by `heal_amount`; if that healed anything, discard
/// `discard_energies` from it. Under Heal Block nothing is healed, so nothing is discarded.
pub fn apply_heal_and_discard_energy(
    acting_player: usize,
    state: &mut State,
    position: usize,
    heal_amount: u32,
    discard_energies: &[crate::models::EnergyType],
)
    requires
        acting_player < 2,
        position < 4,
        old(state).in_play_pokemon[acting_player as int][position as int] is Some,
    ensures
        heal_and_discard_post(*old(state), *final(state), acting_player, position, heal_amount, discard_energies@),
{
    let damage = match &state.in_play_pokemon[acting_player][position] {
        Some(p) => p.get_damage_counters(),
        None => 0,
    };
    if state.healing_blocked || heal_amount == 0 || damage == 0 {
        return;
    }
    heal_pokemon(state, acting_player, position, heal_amount);
    let mut p = state.in_play_pokemon[acting_player][position].take().unwrap();
    let mut taken = take_out_each_energy(&mut p.attached_energy, discard_energies);
    state.in_play_pokemon[acting_player][position] = Some(p);
    state.discard_energies[acting_player].append(&mut taken);
}

/// `b` is `a` with at most the Stadium in play and the discard piles changed.
pub open spec fn same_except_stadium(a: State, b: State) -> bool {
    &&& b.turn_count == a.turn_count
    &&& b.current_player == a.current_player
    &&& b.points == a.points
    &&& b.winner == a.winner
    &&& b.hands == a.hands
    &&& b.decks == a.decks
    &&& b.discard_energies == a.discard_energies
    &&& b.in_play_pokemon == a.in_play_pokemon
    &&& b.current_energy == a.current_energy
    &&& b.has_retreated == a.has_retreated
    &&& b.turn_effects == a.turn_effects
    &&& b.move_generation_stack == a.move_generation_stack
    &&& b.has_used_stadium == a.has_used_stadium
    &&& b.luxury_coin_used_this_turn == a.luxury_coin_used_this_turn
    &&& b.victory_star_used_this_turn == a.victory_star_used_this_turn
    &&& b.setup_opponent_hidden == a.setup_opponent_hidden
    &&& b.healing_blocked == a.healing_blocked
}

/// What discarding the Stadium in play does: it goes to its owner's discard pile (`actor`'s when
/// it has no recorded owner) and no Stadium is in play afterwards; with none in play, nothing
/// changes.
pub open spec fn discard_stadium_post(pre: State, post: State, actor: usize) -> bool {
    match pre.active_stadium {
        None => post == pre,
        Some(stadium) => {
            let owner = match pre.active_stadium_owner {
                Some(o) => o,
                None => actor,
            };
            &&& post.active_stadium is None
            &&& post.active_stadium_owner is None
            &&& post.discard_piles[owner as int]@ == pre.discard_piles[owner as int]@.push(stadium)
            &&& post.discard_piles[1 - owner] == pre.discard_piles[1 - owner]
            &&& same_except_stadium(pre, post)
        },
    }
}

/// Discard the Stadium in play (Field Blower).
pub fn apply_discard_active_stadium(actor: usize, state: &mut State)
    requires
        actor < 2,
        old(state).active_stadium_owner matches Some(o) ==> o < 2,
    ensures
        discard_stadium_post(*old(state), *final(state), actor),
{
    if state.active_stadium.is_none() {
        return;
    }
    let stadium = state.active_stadium.take().unwrap();
    let owner = match state.active_stadium_owner {
        Some(o) => o,
        None => actor,
    };
    state.active_stadium_owner = None;
    state.discard_piles[owner].push(stadium);
}

/// What discarding Tool `tool_idx` of `player`'s Pokémon in `idx` does: it leaves the Pokémon,
/// the other Tools keeping their order, and goes to the player's discard pile.
pub open spec fn discard_tool_post(pre: State, post: State, player: usize, idx: usize, tool_idx: usize) -> bool {
    let a = pre.in_play_pokemon[player as int][idx as int]->0;
    &&& post.in_play_pokemon[player as int][idx as int] matches Some(b)
    &&& same_pokemon(a, b)
    &&& same_conditions(a, b)
    &&& b.remaining_hp == a.remaining_hp
    &&& b.attached_energy == a.attached_energy
    &&& b.attached_tools@ == a.attached_tools@.remove(tool_idx as int)
    &&& post.discard_piles[player as int]@ == pre.discard_piles[player as int]@.push(a.attached_tools@[tool_idx as int])
    &&& post.discard_piles[1 - player] == pre.discard_piles[1 - player]
    &&& post.in_play_pokemon[1 - player] == pre.in_play_pokemon[1 - player]
    &&& forall|i: int| 0 <= i < 4 && i != idx ==> #[trigger] post.in_play_pokemon[player as int][i]
        == pre.in_play_pokemon[player as int][i]
    &&& same_except_piles(pre, post)
}

/// `b` is `a` with at most the Pokémon in play and the discard piles changed.
pub open spec fn same_except_piles(a: State, b: State) -> bool {
    &&& b.turn_count == a.turn_count
    &&& b.current_player == a.current_player
    &&& b.points == a.points
    &&& b.winner == a.winner
    &&& b.hands == a.hands
    &&& b.decks == a.decks
    &&& b.discard_energies == a.discard_energies
    &&& b.current_energy == a.current_energy
    &&& b.has_retreated == a.has_retreated
    &&& b.active_stadium == a.active_stadium
    &&& b.active_stadium_owner == a.active_stadium_owner
    &&& b.turn_effects == a.turn_effects
    &&& b.move_generation_stack == a.move_generation_stack
    &&& b.has_used_stadium == a.has_used_stadium
    &&& b.luxury_coin_used_this_turn == a.luxury_coin_used_this_turn
    &&& b.victory_star_used_this_turn == a.victory_star_used_this_turn
    &&& b.setup_opponent_hidden == a.setup_opponent_hidden
    &&& b.healing_blocked == a.healing_blocked
}

/// Discard Tool `tool_idx` from `player`'s Pokémon in `in_play_idx` (Field Blower).
pub fn apply_discard_tool(state: &mut State, player: usize, in_play_idx: usize, tool_idx: usize)
    requires
        player < 2,
        in_play_idx < 4,
        old(state).in_play_pokemon[player as int][in_play_idx as int] matches Some(p) && tool_idx
            < p.attached_tools@.len(),
    ensures
        discard_tool_post(*old(state), *final(state), player, in_play_idx, tool_idx),
{
    let mut p = state.in_play_pokemon[player][in_play_idx].take().unwrap();
    let tool = p.attached_tools.remove(tool_idx);
    state.in_play_pokemon[player][in_play_idx] = Some(p);
    state.discard_piles[player].push(tool);
}

/// What discarding the last Energy attached to `player`'s Active Pokémon does: it goes to the
/// player's discarded Energy; with none attached, nothing changes.
pub open spec fn discard_last_active_energy_post(pre: State, post: State, player: usize) -> bool {
    let a = pre.in_play_pokemon[player as int][0]->0;
    let energy = a.attached_energy@;
    if energy.len() == 0 {
        post == pre
    } else {
        &&& post.in_play_pokemon[player as int][0] matches Some(b)
        &&& same_pokemon(a, b)
        &&& same_conditions(a, b)
        &&& b.remaining_hp == a.remaining_hp
        &&& b.attached_tools == a.attached_tools
        &&& b.attached_energy@ == energy.drop_last()
        &&& post.discard_energies[player as int]@ == pre.discard_energies[player as int]@.push(energy.last())
        &&& post.discard_energies[1 - player] == pre.discard_energies[1 - player]
        &&& post.in_play_pokemon[1 - player] == pre.in_play_pokemon[1 - player]
        &&& forall|i: int| 1 <= i < 4 ==> #[trigger] post.in_play_pokemon[player as int][i]
            == pre.in_play_pokemon[player as int][i]
        &&& same_except_discards(pre, post)
    }
}

/// Discard the last Energy attached to `player`'s Active Pokémon. The last one stands for a
/// random one, so the search tree does not branch on it.
pub fn apply_discard_last_active_energy(state: &mut State, player: usize)
    requires
        player < 2,
        old(state).in_play_pokemon[player as int][0] is Some,
    ensures
        discard_last_active_energy_post(*old(state), *final(state), player),
{
    let n = match &state.in_play_pokemon[player][0] {
        Some(p) => p.attached_energy.len(),
        None => 0,
    };
    if n == 0 {
        return;
    }
    let mut p = state.in_play_pokemon[player][0].take().unwrap();
    let energy = p.attached_energy.pop().unwrap();
    state.in_play_pokemon[player][0] = Some(p);
    state.discard_energies[player].push(energy);
}

/// What discarding `player`'s Pokémon in `idx` from play does: its cards (those under it
/// first) and then its Tools go to the discard pile, its Energy to the discarded Energy.
pub open spec fn discard_from_play_post(pre: State, post: State, player: usize, idx: usize) -> bool {
    let p = pre.in_play_pokemon[player as int][idx as int]->0;
    &&& post.discard_piles[player as int]@ == pre.discard_piles[player as int]@ + p.attached_tools@ + stack_cards(p)
    &&& post.discard_energies[player as int]@ == pre.discard_energies[player as int]@ + p.attached_energy@
    &&& post.in_play_pokemon[player as int][idx as int] is None
    &&& post.hands == pre.hands
    &&& post.decks == pre.decks
    &&& only_leaving_changed(pre, post, player as int, idx as int)
}

/// Discard `acting_player`'s Fossil (or any Pokémon) in `in_play_idx` from play. For the Active
/// Spot, the promotion that follows is the turn engine's.
pub fn apply_discard_fossil(acting_player: usize, state: &mut State, in_play_idx: usize)
    requires
        acting_player < 2,
        in_play_idx < 4,
        old(state).in_play_pokemon[acting_player as int][in_play_idx as int] is Some,
    ensures
        discard_from_play_post(*old(state), *final(state), acting_player, in_play_idx),
{
    let mut cards = lift_out_of_play(acting_player, state, in_play_idx);
    state.discard_piles[acting_player].append(&mut cards);
}

/// How many cards drawing `amount` gives: `amount`, or the whole deck when it holds fewer.
pub open spec fn spec_draw_count(state: State, player: usize, amount: u8) -> int {
    let available = state.decks[player as int].cards@.len();
    if (amount as int) < available {
        amount as int
    } else {
        available as int
    }
}

/// What drawing `amount` cards does to `player`: the first cards of the deck (its top), as many
/// as it holds up to `amount`, go in order to the end of the hand.
pub open spec fn draw_post(pre: State, post: State, player: usize, amount: u8) -> bool {
    let n = spec_draw_count(pre, player, amount);
    let deck = pre.decks[player as int].cards@;
    &&& post.hands[player as int]@ == pre.hands[player as int]@ + deck.take(n)
    &&& post.decks[player as int].cards@ == deck.skip(n)
    &&& post.decks[player as int].energy_types == pre.decks[player as int].energy_types
    &&& post.hands[1 - player] == pre.hands[1 - player]
    &&& post.decks[1 - player] == pre.decks[1 - player]
    &&& post.turn_count == pre.turn_count
    &&& post.current_player == pre.current_player
    &&& post.points == pre.points
    &&& post.winner == pre.winner
    &&& post.discard_piles == pre.discard_piles
    &&& post.discard_energies == pre.discard_energies
    &&& post.in_play_pokemon == pre.in_play_pokemon
    &&& post.current_energy == pre.current_energy
    &&& post.has_retreated == pre.has_retreated
    &&& post.active_stadium == pre.active_stadium
    &&& post.active_stadium_owner == pre.active_stadium_owner
    &&& post.turn_effects == pre.turn_effects
    &&& post.move_generation_stack == pre.move_generation_stack
    &&& post.has_used_stadium == pre.has_used_stadium
    &&& post.luxury_coin_used_this_turn == pre.luxury_coin_used_this_turn
    &&& post.victory_star_used_this_turn == pre.victory_star_used_this_turn
    &&& post.setup_opponent_hidden == pre.setup_opponent_hidden
    &&& post.healing_blocked == pre.healing_blocked
}

/// `player` draws `amount` cards from the top of their deck; an empty deck gives nothing more.
pub fn apply_draw_cards(state: &mut State, player: usize, amount: u8)
    requires
        player < 2,
    ensures
        draw_post(*old(state), *final(state), player, amount),
{
    let ghost pre = *state;
    let ghost deck = state.decks[player as int].cards@;
    let mut k: u8 = 0;
    while k < amount && state.decks[player].cards.len() > 0
        invariant
            player < 2,
            k <= amount,
            k <= deck.len(),
            k < amount && k < deck.len() ==> state.decks[player as int].cards@.len() > 0,
            state.hands[player as int]@ == pre.hands[player as int]@ + deck.take(k as int),
            state.decks[player as int].cards@ == deck.skip(k as int),
            state.decks[player as int].energy_types == pre.decks[player as int].energy_types,
            state.hands[1 - player] == pre.hands[1 - player],
            state.decks[1 - player] == pre.decks[1 - player],
            state.turn_count == pre.turn_count,
            state.current_player == pre.current_player,
            state.points == pre.points,
            state.winner == pre.winner,
            state.discard_piles == pre.discard_piles,
            state.discard_energies == pre.discard_energies,
            state.in_play_pokemon == pre.in_play_pokemon,
            state.current_energy == pre.current_energy,
            state.has_retreated == pre.has_retreated,
            state.active_stadium == pre.active_stadium,
            state.active_stadium_owner == pre.active_stadium_owner,
            state.turn_effects == pre.turn_effects,
            state.move_generation_stack == pre.move_generation_stack,
            state.has_used_stadium == pre.has_used_stadium,
            state.luxury_coin_used_this_turn == pre.luxury_coin_used_this_turn,
            state.victory_star_used_this_turn == pre.victory_star_used_this_turn,
            state.setup_opponent_hidden == pre.setup_opponent_hidden,
            state.healing_blocked == pre.healing_blocked,
        decreases amount - k,
    {
        let card = state.decks[player].cards.remove(0);
        state.hands[player].push(card);
        proof {
            assert(deck.take(k + 1) =~= deck.take(k as int).push(deck[k as int]));
            assert(deck.skip(k + 1) =~= deck.skip(k as int).remove(0));
        }
        k = k + 1;
    }
    proof {
        assert(k as int == spec_draw_count(pre, player, amount));
    }
}

/// `b` is `a` leaving the Active Spot for the Bench: its Special Conditions are removed.
pub open spec fn benched(a: Option<PlayedCard>, b: Option<PlayedCard>) -> bool {
    match a {
        None => b is None,
        Some(p) => b matches Some(q) && healed_pokemon(p, q, 0, all_conditions()),
    }
}

/// What switching `player`'s Pokémon in `bench_idx` into the Active Spot does: it becomes the
/// Active Pokémon, and the former Active Pokémon, if any, takes its Bench spot without its
/// Special Conditions.
pub open spec fn activate_post(pre: State, post: State, player: usize, bench_idx: usize) -> bool {
    &&& post.in_play_pokemon[player as int][0] == pre.in_play_pokemon[player as int][bench_idx as int]
    &&& benched(pre.in_play_pokemon[player as int][0], post.in_play_pokemon[player as int][bench_idx as int])
    &&& only_slots_changed(pre, post, player as int, 0, bench_idx as int)
}

/// Switch `player`'s Pokémon in `bench_idx` into the Active Spot (a promotion after a Knock Out
/// finds the Active Spot empty).
pub fn apply_activate(player: usize, state: &mut State, bench_idx: usize)
    requires
        player < 2,
        1 <= bench_idx < 4,
    ensures
        activate_post(*old(state), *final(state), player, bench_idx),
{
    let incoming = state.in_play_pokemon[player][bench_idx].take();
    let outgoing = state.in_play_pokemon[player][0].take();
    state.in_play_pokemon[player][0] = incoming;
    match outgoing {
        Some(mut p) => {
            p.asleep = false;
            p.burned = false;
            p.confused = false;
            p.paralyzed = false;
            p.poisoned = false;
            state.in_play_pokemon[player][bench_idx] = Some(p);
        },
        None => {},
    }
}

/// The cards that discarding the listed occupied slots `k..4` of `row` sends to the discard
/// pile, the highest slot first: for each, its Tools and then its cards.
pub open spec fn batch_discarded_cards(row: [Option<PlayedCard>; 4], idxs: Seq<usize>, k: int) -> Seq<Card>
    decreases 4 - k,
{
    if k >= 4 || k < 0 {
        Seq::empty()
    } else {
        let rest = batch_discarded_cards(row, idxs, k + 1);
        match row[k] {
            Some(p) => if idxs.contains(k as usize) {
                rest + p.attached_tools@ + stack_cards(p)
            } else {
                rest
            },
            None => rest,
        }
    }
}

/// The Energy that the same discards send to the discarded Energy.
pub open spec fn batch_discarded_energy(row: [Option<PlayedCard>; 4], idxs: Seq<usize>, k: int) -> Seq<
    crate::models::EnergyType,
>
    decreases 4 - k,
{
    if k >= 4 || k < 0 {
        Seq::empty()
    } else {
        let rest = batch_discarded_energy(row, idxs, k + 1);
        match row[k] {
            Some(p) => if idxs.contains(k as usize) {
                rest + p.attached_energy@
            } else {
                rest
            },
            None => rest,
        }
    }
}

/// Whether `entry` is the forced damage step that Wild Swing queues: `actor`'s Active Pokémon
/// deals `damage` to the opponent's Active Pokémon, as an attack.
pub open spec fn is_queued_swing(entry: (usize, Vec<SimpleAction>), actor: usize, damage: u32) -> bool {
    &&& entry.0 == actor
    &&& entry.1@.len() == 1
    &&& entry.1@[0] matches SimpleAction::ApplyDamage {
        attacking_player,
        attacking_in_play_idx,
        targets,
        is_from_active_attack,
    } && attacking_player == actor && attacking_in_play_idx == 0 && is_from_active_attack && targets@ == seq![
        (damage, (1 - actor) as usize, 0usize),
    ]
}

/// What discarding `actor`'s listed Benched Pokémon and then queueing `damage` does: every listed
/// occupied slot is discarded from play, the highest first; then, when the opponent has an
/// Active Pokémon, the damage step is put on top of the forced-choice stack.
pub open spec fn discard_benched_then_damage_post(pre: State, post: State, actor: usize, idxs: Seq<usize>, damage: u32) -> bool {
    let row = pre.in_play_pokemon[actor as int];
    &&& post.discard_piles[actor as int]@ == pre.discard_piles[actor as int]@ + batch_discarded_cards(row, idxs, 0)
    &&& post.discard_energies[actor as int]@ == pre.discard_energies[actor as int]@ + batch_discarded_energy(row, idxs, 0)
    &&& forall|i: int| 0 <= i < 4 ==> #[trigger] post.in_play_pokemon[actor as int][i] == if idxs.contains(i as usize) {
        None
    } else {
        row[i]
    }
    &&& post.in_play_pokemon[1 - actor] == pre.in_play_pokemon[1 - actor]
    &&& post.discard_piles[1 - actor] == pre.discard_piles[1 - actor]
    &&& post.discard_energies[1 - actor] == pre.discard_energies[1 - actor]
    &&& if pre.in_play_pokemon[1 - actor][0] is Some {
        &&& post.move_generation_stack@.len() == pre.move_generation_stack@.len() + 1
        &&& post.move_generation_stack@.drop_last() == pre.move_generation_stack@
        &&& is_queued_swing(post.move_generation_stack@.last(), actor, damage)
    } else {
        post.move_generation_stack == pre.move_generation_stack
    }
    &&& post.hands == pre.hands
    &&& post.decks == pre.decks
    &&& post.turn_count == pre.turn_count
    &&& post.current_player == pre.current_player
    &&& post.points == pre.points
    &&& post.winner == pre.winner
    &&& post.current_energy == pre.current_energy
    &&& post.has_retreated == pre.has_retreated
    &&& post.active_stadium == pre.active_stadium
    &&& post.active_stadium_owner == pre.active_stadium_owner
    &&& post.turn_effects == pre.turn_effects
    &&& post.has_used_stadium == pre.has_used_stadium
    &&& post.luxury_coin_used_this_turn == pre.luxury_coin_used_this_turn
    &&& post.victory_star_used_this_turn == pre.victory_star_used_this_turn
    &&& post.setup_opponent_hidden == pre.setup_opponent_hidden
    &&& post.healing_blocked == pre.healing_blocked
}

/// Whether `idxs` lists slot `i`.
fn lists_slot(idxs: &[usize], i: usize) -> (r: bool)
    ensures
        r == idxs@.contains(i),
{
    let n = idxs.len();
    for k in 0..n
        invariant
            n == idxs@.len(),
            forall|j: int| 0 <= j < k ==> idxs@[j] != i,
    {
        if idxs[k] == i {
            assert(idxs@[k as int] == i);
            return true;
        }
    }
    false
}

/// Gyarados' Wild Swing: discard the listed Benched Pokémon of `acting_player`, the highest slot
/// first, then queue the damage to the opponent's Active Pokémon as a forced step, so that it
/// goes through the same damage pipeline as any attack.
pub fn apply_discard_own_benched_then_damage(acting_player: usize, state: &mut State, in_play_idxs: &[usize], damage: u32)
    requires
        acting_player < 2,
    ensures
        discard_benched_then_damage_post(*old(state), *final(state), acting_player, in_play_idxs@, damage),
{
    let ghost pre = *state;
    let ghost row = pre.in_play_pokemon[acting_player as int];
    let ghost idxs = in_play_idxs@;
    let mut k: usize = 4;
    while k > 0
        invariant
            acting_player < 2,
            k <= 4,
            idxs == in_play_idxs@,
            state.discard_piles[acting_player as int]@ == pre.discard_piles[acting_player as int]@
                + batch_discarded_cards(row, idxs, k as int),
            state.discard_energies[acting_player as int]@ == pre.discard_energies[acting_player as int]@
                + batch_discarded_energy(row, idxs, k as int),
            forall|i: int| 0 <= i < k ==> #[trigger] state.in_play_pokemon[acting_player as int][i] == row[i],
            forall|i: int| k <= i < 4 ==> #[trigger] state.in_play_pokemon[acting_player as int][i] == if idxs.contains(
                i as usize,
            ) {
                None
            } else {
                row[i]
            },
            state.in_play_pokemon[1 - acting_player] == pre.in_play_pokemon[1 - acting_player],
            state.discard_piles[1 - acting_player] == pre.discard_piles[1 - acting_player],
            state.discard_energies[1 - acting_player] == pre.discard_energies[1 - acting_player],
            state.move_generation_stack == pre.move_generation_stack,
            state.hands == pre.hands,
            state.decks == pre.decks,
            state.turn_count == pre.turn_count,
            state.current_player == pre.current_player,
            state.points == pre.points,
            state.winner == pre.winner,
            state.current_energy == pre.current_energy,
            state.has_retreated == pre.has_retreated,
            state.active_stadium == pre.active_stadium,
            state.active_stadium_owner == pre.active_stadium_owner,
            state.turn_effects == pre.turn_effects,
            state.has_used_stadium == pre.has_used_stadium,
            state.luxury_coin_used_this_turn == pre.luxury_coin_used_this_turn,
            state.victory_star_used_this_turn == pre.victory_star_used_this_turn,
            state.setup_opponent_hidden == pre.setup_opponent_hidden,
            state.healing_blocked == pre.healing_blocked,
        decreases k,
    {
        let slot = k - 1;
        if lists_slot(in_play_idxs, slot) && state.in_play_pokemon[acting_player][slot].is_some() {
            apply_discard_fossil(acting_player, state, slot);
        }
        k = slot;
    }
    let opponent = 1 - acting_player;
    if state.in_play_pokemon[opponent][0].is_none() {
        return;
    }
    let targets = vec![(damage, opponent, 0usize)];
    assert(targets@ =~= seq![(damage, (1 - acting_player) as usize, 0usize)]);
    let step = SimpleAction::ApplyDamage {
        attacking_player: acting_player,
        attacking_in_play_idx: 0,
        targets,
        is_from_active_attack: true,
    };
    let choices = vec![step];
    state.move_generation_stack.push((acting_player, choices));
    proof {
        assert(state.move_generation_stack@.drop_last() =~= pre.move_generation_stack@);
        let last = state.move_generation_stack@.last();
        assert(last.1@.len() == 1);
    }
}

/// What taking `amount` damage off `player`'s Pokémon in `idx` does: its HP rises by `amount`,
/// Heal Block or not, since moving damage is not healing.
pub open spec fn damage_lifted_post(pre: State, post: State, player: usize, idx: usize, amount: int) -> bool {
    let a = pre.in_play_pokemon[player as int][idx as int]->0;
    &&& post.in_play_pokemon[player as int][idx as int] matches Some(b)
    &&& healed_pokemon(a, b, amount, Seq::empty())
    &&& only_slots_changed(pre, post, player as int, idx as int, idx as int)
}

/// Take `amount` damage off `player`'s Pokémon in `idx`, which has at least that much on it.
pub fn lift_damage(state: &mut State, player: usize, idx: usize, amount: u32)
    requires
        player < 2,
        idx < 4,
        old(state).in_play_pokemon[player as int][idx as int] matches Some(p) && amount
            <= p.spec_damage_counters(),
    ensures
        damage_lifted_post(*old(state), *final(state), player, idx, amount as int),
{
    let mut p = state.in_play_pokemon[player][idx].take().unwrap();
    p.remaining_hp = p.remaining_hp + amount;
    state.in_play_pokemon[player][idx] = Some(p);
}

/// Whether `p` is a Pokémon that evolves from Eevee.
pub open spec fn is_eevee_evolution(p: PlayedCard) -> bool {
    p.card matches Card::Pokemon(c) && c.evolves_from matches Some(from) && from@ == "Eevee"@
}

fn eevee_evolution(p: &PlayedCard) -> (r: bool)
    ensures
        r == is_eevee_evolution(*p),
{
    match &p.card {
        Card::Pokemon(c) => match &c.evolves_from {
            Some(from) => crate::text::str_equal(from.as_str(), "Eevee"),
            None => false,
        },
        _ => false,
    }
}

/// What healing each of `player`'s Eevee evolutions by `amount` does: each is healed (nothing
/// under Heal Block, never above its total HP), the others stay.
pub open spec fn heal_eevee_evolutions_post(pre: State, post: State, player: usize, amount: u32) -> bool {
    &&& forall|i: int|
        0 <= i < 4 ==> match #[trigger] pre.in_play_pokemon[player as int][i] {
            Some(a) => if is_eevee_evolution(a) {
                post.in_play_pokemon[player as int][i] matches Some(b) && healed_pokemon(
                    a,
                    b,
                    spec_healed_amount(a, amount, pre.healing_blocked),
                    Seq::empty(),
                )
            } else {
                post.in_play_pokemon[player as int][i] == Some(a)
            },
            None => post.in_play_pokemon[player as int][i] is None,
        }
    &&& post.in_play_pokemon[1 - player] == pre.in_play_pokemon[1 - player]
    &&& same_except_board(pre, post)
}

/// Eevee Bag's second option: heal 20 damage from each of `acting_player`'s Pokémon that evolve
/// from Eevee.
pub fn apply_heal_all_eevee_evolutions(acting_player: usize, state: &mut State)
    requires
        acting_player < 2,
    ensures
        heal_eevee_evolutions_post(*old(state), *final(state), acting_player, 20),
{
    let ghost pre = *state;
    for i in 0..4usize
        invariant
            acting_player < 2,
            state.healing_blocked == pre.healing_blocked,
            forall|j: int|
                0 <= j < i ==> match #[trigger] pre.in_play_pokemon[acting_player as int][j] {
                    Some(a) => if is_eevee_evolution(a) {
                        state.in_play_pokemon[acting_player as int][j] matches Some(b) && healed_pokemon(
                            a,
                            b,
                            spec_healed_amount(a, 20, pre.healing_blocked),
                            Seq::empty(),
                        )
                    } else {
                        state.in_play_pokemon[acting_player as int][j] == Some(a)
                    },
                    None => state.in_play_pokemon[acting_player as int][j] is None,
                },
            forall|j: int| i <= j < 4 ==> #[trigger] state.in_play_pokemon[acting_player as int][j]
                == pre.in_play_pokemon[acting_player as int][j],
            state.in_play_pokemon[1 - acting_player] == pre.in_play_pokemon[1 - acting_player],
            same_except_board(pre, *state),
    {
        let heal = match &state.in_play_pokemon[acting_player][i] {
            Some(p) => eevee_evolution(p),
            None => false,
        };
        if heal {
            heal_pokemon(state, acting_player, i, 20);
        }
    }
}

/// `b` is `a` in every field but the Pokémon in play, the hands, the decks' cards and the
/// discard piles.
pub open spec fn same_scalars(a: State, b: State) -> bool {
    &&& b.turn_count == a.turn_count
    &&& b.current_player == a.current_player
    &&& b.points == a.points
    &&& b.winner == a.winner
    &&& b.decks[0].energy_types == a.decks[0].energy_types
    &&& b.decks[1].energy_types == a.decks[1].energy_types
    &&& b.discard_energies == a.discard_energies
    &&& b.current_energy == a.current_energy
    &&& b.has_retreated == a.has_retreated
    &&& b.active_stadium == a.active_stadium
    &&& b.active_stadium_owner == a.active_stadium_owner
    &&& b.turn_effects == a.turn_effects
    &&& b.move_generation_stack == a.move_generation_stack
    &&& b.has_used_stadium == a.has_used_stadium
    &&& b.luxury_coin_used_this_turn == a.luxury_coin_used_this_turn
    &&& b.victory_star_used_this_turn == a.victory_star_used_this_turn
    &&& b.setup_opponent_hidden == a.setup_opponent_hidden
    &&& b.healing_blocked == a.healing_blocked
}

/// `cards` after taking out the first card that is the same card as `card`, if there is one.
pub open spec fn without_card(cards: Seq<Card>, card: Card) -> Seq<Card> {
    let k = first_card_index(cards, card, 0);
    if k < cards.len() {
        cards.remove(k)
    } else {
        cards
    }
}

/// Take the first card that is the same card as `card` out of `cards`, if there is one.
fn take_out_card(cards: &mut Vec<Card>, card: &Card) -> (r: Option<Card>)
    ensures
        final(cards)@ == without_card(old(cards)@, *card),
        ({
            let k = first_card_index(old(cards)@, *card, 0);
            if k < old(cards)@.len() {
                r == Some(old(cards)@[k])
            } else {
                r is None
            }
        }),
{
    let k = find_card(cards, card);
    if k < cards.len() {
        Some(cards.remove(k))
    } else {
        None
    }
}

/// What putting the first card of `player`'s discard pile that is `card` into their hand does.
pub open spec fn discard_to_hand_post(pre: State, post: State, player: usize, card: Card) -> bool {
    let pile = pre.discard_piles[player as int]@;
    let k = first_card_index(pile, card, 0);
    if k >= pile.len() {
        post == pre
    } else {
        &&& post.discard_piles[player as int]@ == pile.remove(k)
        &&& post.hands[player as int]@ == pre.hands[player as int]@.push(pile[k])
        &&& post.discard_piles[1 - player] == pre.discard_piles[1 - player]
        &&& post.hands[1 - player] == pre.hands[1 - player]
        &&& post.in_play_pokemon == pre.in_play_pokemon
        &&& post.decks == pre.decks
        &&& same_scalars(pre, post)
    }
}

/// Put the first card of `player`'s discard pile that is the same card as `card` into their
/// hand; with none there, nothing happens.
pub fn apply_put_card_from_discard_to_hand(player: usize, state: &mut State, card: &Card)
    requires
        player < 2,
    ensures
        discard_to_hand_post(*old(state), *final(state), player, *card),
{
    let k = find_card(&state.discard_piles[player], card);
    if k < state.discard_piles[player].len() {
        let c = state.discard_piles[player].remove(k);
        state.hands[player].push(c);
    }
}

/// `p` is `card` as it enters play: full HP, nothing attached or under it, no Special
/// Condition or effect.
pub open spec fn fresh_in_play(p: PlayedCard, card: Card, played_this_turn: bool) -> bool {
    &&& p.card == card
    &&& p.remaining_hp == spec_entering_hp(card)
    &&& p.total_hp == spec_entering_hp(card)
    &&& p.attached_energy@.len() == 0
    &&& p.attached_tools@.len() == 0
    &&& p.played_this_turn == played_this_turn
    &&& !p.ability_used
    &&& !p.spec_has_any_status()
    &&& p.cards_behind@.len() == 0
    &&& p.effects@.len() == 0
    &&& !p.moved_to_active_this_turn
}

/// `card` as it enters play.
fn entering_play(card: Card, played_this_turn: bool) -> (r: PlayedCard)
    ensures
        fresh_in_play(r, card, played_this_turn),
{
    let hp: u32 = match &card {
        Card::Pokemon(p) => p.hp,
        Card::Trainer(_) => 40,
        Card::Unknown => 0,
    };
    PlayedCard {
        card,
        remaining_hp: hp,
        total_hp: hp,
        attached_energy: Vec::new(),
        attached_tools: Vec::new(),
        played_this_turn,
        ability_used: false,
        poisoned: false,
        paralyzed: false,
        asleep: false,
        burned: false,
        confused: false,
        cards_behind: Vec::new(),
        effects: Vec::new(),
        moved_to_active_this_turn: false,
    }
}

/// What Pokémon Flute does: the first card of the opponent's discard pile that is `card` goes
/// onto their empty Bench spot `bench_idx`; with no such card, or the spot taken, nothing
/// happens.
pub open spec fn bench_from_discard_post(pre: State, post: State, actor: usize, card: Card, bench_idx: usize) -> bool {
    let opponent = (1 - actor) as usize;
    let pile = pre.discard_piles[opponent as int]@;
    let k = first_card_index(pile, card, 0);
    if k >= pile.len() || pre.in_play_pokemon[opponent as int][bench_idx as int] is Some {
        post == pre
    } else {
        &&& post.discard_piles[opponent as int]@ == pile.remove(k)
        &&& post.in_play_pokemon[opponent as int][bench_idx as int] matches Some(p) && fresh_in_play(p, pile[k], true)
        &&& forall|i: int| 0 <= i < 4 && i != bench_idx ==> #[trigger] post.in_play_pokemon[opponent as int][i]
            == pre.in_play_pokemon[opponent as int][i]
        &&& post.in_play_pokemon[actor as int] == pre.in_play_pokemon[actor as int]
        &&& post.discard_piles[actor as int] == pre.discard_piles[actor as int]
        &&& post.hands == pre.hands
        &&& post.decks == pre.decks
        &&& same_scalars(pre, post)
    }
}

/// Pokémon Flute: put a Basic Pokémon from the opponent's discard pile onto their Bench. The
/// card is the opponent's throughout.
/// Returns whether a Pokémon was benched.
pub fn apply_bench_opponent_from_discard(actor: usize, state: &mut State, card: &Card, bench_idx: usize) -> (benched:
    bool)
    requires
        actor < 2,
        bench_idx < 4,
    ensures
        bench_from_discard_post(*old(state), *final(state), actor, *card, bench_idx),
        benched == spec_flute_benches(*old(state), actor, *card, bench_idx),
{
    let opponent = 1 - actor;
    let k = find_card(&state.discard_piles[opponent], card);
    if k >= state.discard_piles[opponent].len() {
        return false;
    }
    if state.in_play_pokemon[opponent][bench_idx].is_some() {
        return false;
    }
    let c = state.discard_piles[opponent].remove(k);
    state.in_play_pokemon[opponent][bench_idx] = Some(entering_play(c, true));
    true
}

/// Whether Pokémon Flute finds `card` in the opponent's discard pile and their Bench spot
/// `bench_idx` empty.
pub open spec fn spec_flute_benches(pre: State, actor: usize, card: Card, bench_idx: usize) -> bool {
    let opponent = (1 - actor) as usize;
    let pile = pre.discard_piles[opponent as int]@;
    first_card_index(pile, card, 0) < pile.len() && pre.in_play_pokemon[opponent as int][bench_idx as int] is None
}

/// The zone a card is played from: the deck's cards or the hand.
pub open spec fn source_zone(state: State, player: usize, from_deck: bool) -> Seq<Card> {
    if from_deck {
        state.decks[player as int].cards@
    } else {
        state.hands[player as int]@
    }
}

/// `post`'s hand and deck of `player` are `pre`'s with the first card that is `card` taken out
/// of the hand, or of the deck when `from_deck`; the other player's are unchanged.
pub open spec fn card_taken_from_zone(pre: State, post: State, player: usize, card: Card, from_deck: bool) -> bool {
    &&& source_zone(post, player, from_deck) == without_card(source_zone(pre, player, from_deck), card)
    &&& if from_deck {
        post.hands[player as int] == pre.hands[player as int]
    } else {
        post.decks[player as int].cards == pre.decks[player as int].cards
    }
    &&& post.hands[1 - player] == pre.hands[1 - player]
    &&& post.decks[1 - player].cards == pre.decks[1 - player].cards
}

/// The Pokémon `b` that `a` evolves into with `evolution`: the evolution at full HP less the
/// damage on `a` (at least zero), keeping `a`'s Energy and Tools, with `a`'s cards and `a`
/// itself under it, and, as a newly played card, no Special Condition or effect.
pub open spec fn evolved_pokemon(a: PlayedCard, b: PlayedCard, evolution: Card) -> bool {
    let hp = spec_entering_hp(evolution);
    let damage = a.spec_damage_counters();
    &&& same_card(b.card, evolution)
    &&& b.total_hp == hp
    &&& b.remaining_hp == if damage < hp {
        hp - damage
    } else {
        0
    }
    &&& b.attached_energy == a.attached_energy
    &&& b.attached_tools == a.attached_tools
    &&& b.cards_behind@ == a.cards_behind@.push(a.card)
    &&& b.played_this_turn
    &&& !b.ability_used
    &&& !b.spec_has_any_status()
    &&& b.effects@.len() == 0
    &&& !b.moved_to_active_this_turn
}

/// What evolving `player`'s Pokémon in `idx` into `evolution` does: the slot holds the evolved
/// Pokémon, and the evolution card leaves the hand (or the deck).
pub open spec fn evolve_post(pre: State, post: State, player: usize, evolution: Card, idx: usize, from_deck: bool) -> bool {
    let a = pre.in_play_pokemon[player as int][idx as int]->0;
    &&& post.in_play_pokemon[player as int][idx as int] matches Some(b) && evolved_pokemon(a, b, evolution)
    &&& forall|i: int| 0 <= i < 4 && i != idx ==> #[trigger] post.in_play_pokemon[player as int][i]
        == pre.in_play_pokemon[player as int][i]
    &&& post.in_play_pokemon[1 - player] == pre.in_play_pokemon[1 - player]
    &&& card_taken_from_zone(pre, post, player, evolution, from_deck)
    &&& post.discard_piles == pre.discard_piles
    &&& same_scalars(pre, post)
}

/// Evolve `acting_player`'s Pokémon in `position` into `to_card`, played from the hand or, when
/// `from_deck`, the deck. Refreshing HP bonuses and the evolution hooks are the turn engine's.
pub fn apply_evolve(acting_player: usize, state: &mut State, to_card: &Card, position: usize, from_deck: bool)
    requires
        acting_player < 2,
        position < 4,
        old(state).in_play_pokemon[acting_player as int][position as int] is Some,
        to_card matches Card::Pokemon(p) && p.stage != 0,
    ensures
        evolve_post(*old(state), *final(state), acting_player, *to_card, position, from_deck),
{
    let from = state.in_play_pokemon[acting_player][position].take().unwrap();
    let ghost a = from;
    let card = copy_card(to_card);
    let hp: u32 = match &card {
        Card::Pokemon(p) => p.hp,
        Card::Trainer(_) => 40,
        Card::Unknown => 0,
    };
    let damage = from.get_damage_counters();
    let remaining = if damage < hp {
        hp - damage
    } else {
        0
    };
    let PlayedCard { card: from_card, attached_energy, attached_tools, mut cards_behind, .. } = from;
    cards_behind.push(from_card);
    let evolved = PlayedCard {
        card,
        remaining_hp: remaining,
        total_hp: hp,
        attached_energy,
        attached_tools,
        played_this_turn: true,
        ability_used: false,
        poisoned: false,
        paralyzed: false,
        asleep: false,
        burned: false,
        confused: false,
        cards_behind,
        effects: Vec::new(),
        moved_to_active_this_turn: false,
    };
    state.in_play_pokemon[acting_player][position] = Some(evolved);
    if from_deck {
        take_out_card(&mut state.decks[acting_player].cards, to_card);
    } else {
        take_out_card(&mut state.hands[acting_player], to_card);
    }
}

/// What placing `card` from `player`'s hand into slot `index` does: the slot holds the card as
/// it enters play, and the card leaves the hand.
pub open spec fn place_post(pre: State, post: State, player: usize, card: Card, index: usize) -> bool {
    &&& post.in_play_pokemon[player as int][index as int] matches Some(p) && fresh_in_play(p, p.card, true)
        && same_card(p.card, card)
    &&& forall|i: int| 0 <= i < 4 && i != index ==> #[trigger] post.in_play_pokemon[player as int][i]
        == pre.in_play_pokemon[player as int][i]
    &&& post.in_play_pokemon[1 - player] == pre.in_play_pokemon[1 - player]
    &&& card_taken_from_zone(pre, post, player, card, false)
    &&& post.discard_piles == pre.discard_piles
    &&& same_scalars(pre, post)
}

/// Put `card` from `actor`'s hand into play in slot `index`. Refreshing HP bonuses,
/// entering-play Abilities and the Bench hooks are the turn engine's.
pub fn apply_place_card(state: &mut State, actor: usize, card: &Card, index: usize)
    requires
        actor < 2,
        index < 4,
    ensures
        place_post(*old(state), *final(state), actor, *card, index),
{
    let placed = entering_play(copy_card(card), true);
    state.in_play_pokemon[actor][index] = Some(placed);
    take_out_card(&mut state.hands[actor], card);
}

} // verus!
