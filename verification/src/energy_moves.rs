//! Moving attached Energy between a player's Pokémon in play: one type or a given set between
//! two of them, or several sources onto one; none is ever created or lost.
use vstd::prelude::*;
use vstd::multiset::Multiset;

use crate::models::{EnergyType, PlayedCard};
use crate::state::State;

verus! {

/// The index of the first `e` in `s`, or `s.len()` when there is none.
pub open spec fn first_index_of(s: Seq<EnergyType>, e: EnergyType, i: int) -> int
    decreases s.len() - i,
{
    if i >= s.len() || i < 0 {
        s.len() as int
    } else if s[i] == e {
        i
    } else {
        first_index_of(s, e, i + 1)
    }
}

/// `s` after `Vec::swap_remove` at `p`: the last entry takes the place of entry `p`.
pub open spec fn swap_removed(s: Seq<EnergyType>, p: int) -> Seq<EnergyType> {
    s.update(p, s.last()).drop_last()
}

/// `s` after removing, `n` times, the first `e` by swap-removal, stopping when none is left;
/// with the number removed.
pub open spec fn take_out(s: Seq<EnergyType>, e: EnergyType, n: nat) -> (Seq<EnergyType>, nat)
    decreases n,
{
    if n == 0 {
        (s, 0)
    } else {
        let p = first_index_of(s, e, 0);
        if p >= s.len() {
            (s, 0)
        } else {
            let rest = take_out(swap_removed(s, p), e, (n - 1) as nat);
            (rest.0, rest.1 + 1)
        }
    }
}

/// `s` after removing the first occurrence of each of `requested` in turn, by swap-removal,
/// skipping the ones no longer attached; with the Energy actually removed.
pub open spec fn take_out_each(s: Seq<EnergyType>, requested: Seq<EnergyType>) -> (Seq<EnergyType>, Seq<EnergyType>)
    decreases requested.len(),
{
    if requested.len() == 0 {
        (s, Seq::empty())
    } else {
        let before = take_out_each(s, requested.drop_last());
        let e = requested.last();
        let p = first_index_of(before.0, e, 0);
        if p >= before.0.len() {
            before
        } else {
            (swap_removed(before.0, p), before.1.push(e))
        }
    }
}

/// `n` copies of `e`.
pub open spec fn copies(e: EnergyType, n: nat) -> Seq<EnergyType> {
    Seq::new(n, |i: int| e)
}

/// `b` is `a` with only its attached Energy changed, to `energy`.
pub open spec fn with_energy(a: PlayedCard, b: PlayedCard, energy: Seq<EnergyType>) -> bool {
    &&& b.attached_energy@ == energy
    &&& b.card == a.card
    &&& b.remaining_hp == a.remaining_hp
    &&& b.total_hp == a.total_hp
    &&& b.attached_tools == a.attached_tools
    &&& b.played_this_turn == a.played_this_turn
    &&& b.ability_used == a.ability_used
    &&& b.poisoned == a.poisoned
    &&& b.paralyzed == a.paralyzed
    &&& b.asleep == a.asleep
    &&& b.burned == a.burned
    &&& b.confused == a.confused
    &&& b.cards_behind == a.cards_behind
    &&& b.effects == a.effects
    &&& b.moved_to_active_this_turn == a.moved_to_active_this_turn
}

fn find_energy(list: &Vec<EnergyType>, e: EnergyType) -> (r: usize)
    ensures
        r as int == first_index_of(list@, e, 0),
{
    let n = list.len();
    let mut i: usize = 0;
    while i < n
        invariant
            n == list@.len(),
            i <= n,
            first_index_of(list@, e, 0) == first_index_of(list@, e, i as int),
        decreases n - i,
    {
        if list[i] == e {
            return i;
        }
        i += 1;
    }
    n
}

/// Remove up to `amount` Energy of type `e` from `list`, each time the first one by
/// swap-removal; returns how many were removed.
fn take_out_energy(list: &mut Vec<EnergyType>, e: EnergyType, amount: u32) -> (r: u32)
    ensures
        (final(list)@, r as nat) == take_out(old(list)@, e, amount as nat),
{
    let ghost start = list@;
    let mut removed: u32 = 0;
    while removed < amount
        invariant
            removed <= amount,
            start == old(list)@,
            take_out(start, e, amount as nat) == ({
                let rest = take_out(list@, e, (amount - removed) as nat);
                (rest.0, (rest.1 + removed) as nat)
            }),
        decreases amount - removed,
    {
        let p = find_energy(list, e);
        if p >= list.len() {
            assert(take_out(list@, e, (amount - removed) as nat) == (list@, 0nat));
            return removed;
        }
        list.swap_remove(p);
        removed += 1;
    }
    removed
}

/// Remove, for each of `requested` in turn, the first attached Energy of that type by
/// swap-removal; returns the Energy actually removed.
pub(crate) fn take_out_each_energy(list: &mut Vec<EnergyType>, requested: &[EnergyType]) -> (r: Vec<EnergyType>)
    ensures
        (final(list)@, r@) == take_out_each(old(list)@, requested@),
{
    let ghost start = list@;
    let mut removed: Vec<EnergyType> = Vec::new();
    let n = requested.len();
    for k in 0..n
        invariant
            n == requested@.len(),
            (list@, removed@) == take_out_each(start, requested@.take(k as int)),
    {
        proof {
            assert(requested@.take(k + 1).drop_last() =~= requested@.take(k as int));
        }
        let e = requested[k];
        let p = find_energy(list, e);
        if p < list.len() {
            list.swap_remove(p);
            removed.push(e);
        }
    }
    proof {
        assert(requested@.take(n as int) =~= requested@);
    }
    removed
}

/// `b` is `a` with at most the Pokémon in play changed.
pub open spec fn same_except_board(a: State, b: State) -> bool {
    &&& b.turn_count == a.turn_count
    &&& b.current_player == a.current_player
    &&& b.points == a.points
    &&& b.winner == a.winner
    &&& b.hands == a.hands
    &&& b.decks == a.decks
    &&& b.discard_piles == a.discard_piles
    &&& b.discard_energies == a.discard_energies
    &&& b.current_energy == a.current_energy
    &&& b.has_retreated == a.has_retreated
    &&& b.active_stadium == a.active_stadium
    &&& b.active_stadium_owner == a.active_stadium_owner
    &&& b.turn_effects == a.turn_effects
    &&& b.move_generation_stack == a.move_generation_stack
    &&& b.has_used_stadium == a.has_used_stadium
    &&& b.luxury_coin_used_this_turn == a.luxury_coin_used_this_turn
    &&& b.victory_star_used_this_turn == a.victory_star_used_this_turn
    &&& b.setup_opponent_hidden == a.setup_opponent_hidden
    &&& b.healing_blocked == a.healing_blocked
}

/// `b` is `a` with at most the slots `x` and `y` of `actor` changed.
pub open spec fn only_slots_changed(a: State, b: State, actor: int, x: int, y: int) -> bool {
    &&& same_except_board(a, b)
    &&& b.in_play_pokemon[1 - actor] == a.in_play_pokemon[1 - actor]
    &&& forall|i: int| 0 <= i < 4 && i != x && i != y ==> #[trigger] b.in_play_pokemon[actor][i] == a.in_play_pokemon[actor][i]
}

/// `v` with `n` more `e` at its end.
fn push_copies(v: &mut Vec<EnergyType>, e: EnergyType, n: u32)
    ensures
        final(v)@ == old(v)@ + copies(e, n as nat),
{
    let mut k: u32 = 0;
    while k < n
        invariant
            k <= n,
            v@ == old(v)@ + copies(e, k as nat),
        decreases n - k,
    {
        v.push(e);
        k += 1;
        proof {
            assert(copies(e, k as nat) =~= copies(e, (k - 1) as nat).push(e));
            assert(v@ =~= old(v)@ + copies(e, k as nat));
        }
    }
}

/// Hand `count` Energy of type `e`, taken from `source` (lifted out of slot `from_idx`), to the
/// Pokémon in `to_idx`, or back to `source` when that slot is empty or is `from_idx`; put
/// `source` back. Returns whether another Pokémon received them.
fn deliver_energy(
    state: &mut State,
    actor: usize,
    from_idx: usize,
    to_idx: usize,
    source: PlayedCard,
    e: EnergyType,
    count: u32,
) -> (moved_to_destination: bool)
    requires
        actor < 2,
        from_idx < 4,
        to_idx < 4,
        old(state).in_play_pokemon[actor as int][from_idx as int] is None,
    ensures
        only_slots_changed(*old(state), *final(state), actor as int, from_idx as int, to_idx as int),
        if from_idx == to_idx {
            &&& moved_to_destination
            &&& final(state).in_play_pokemon[actor as int][from_idx as int] matches Some(after)
            &&& with_energy(source, after, source.attached_energy@ + copies(e, count as nat))
        } else {
            match old(state).in_play_pokemon[actor as int][to_idx as int] {
                Some(destination) => {
                    &&& moved_to_destination
                    &&& final(state).in_play_pokemon[actor as int][from_idx as int] matches Some(after)
                    &&& with_energy(source, after, source.attached_energy@)
                    &&& final(state).in_play_pokemon[actor as int][to_idx as int] matches Some(receiver)
                    &&& with_energy(destination, receiver, destination.attached_energy@ + copies(e, count as nat))
                },
                None => {
                    &&& !moved_to_destination
                    &&& final(state).in_play_pokemon[actor as int][from_idx as int] matches Some(after)
                    &&& with_energy(source, after, source.attached_energy@ + copies(e, count as nat))
                    &&& final(state).in_play_pokemon[actor as int][to_idx as int] is None
                },
            }
        },
{
    let mut source = source;
    if from_idx == to_idx {
        push_copies(&mut source.attached_energy, e, count);
        state.in_play_pokemon[actor][from_idx] = Some(source);
        return true;
    }
    match state.in_play_pokemon[actor][to_idx].take() {
        Some(mut receiver) => {
            push_copies(&mut receiver.attached_energy, e, count);
            state.in_play_pokemon[actor][from_idx] = Some(source);
            state.in_play_pokemon[actor][to_idx] = Some(receiver);
            true
        },
        None => {
            push_copies(&mut source.attached_energy, e, count);
            state.in_play_pokemon[actor][from_idx] = Some(source);
            false
        },
    }
}

/// What moving up to `amount` Energy of one type from `from_idx` to `to_idx` does to the board.
pub open spec fn move_energy_post(pre: State, post: State, actor: usize, from_idx: usize, to_idx: usize, energy_type: EnergyType, amount: u32, moved_to_destination: bool) -> bool {
    &&& only_slots_changed(pre, post, actor as int, from_idx as int, to_idx as int)
    &&& match pre.in_play_pokemon[actor as int][from_idx as int] {
        None => !moved_to_destination && post.in_play_pokemon[actor as int] == pre.in_play_pokemon[actor as int],
        Some(source) => {
            let (left, k) = take_out(source.attached_energy@, energy_type, amount as nat);
            if k == 0 {
                &&& !moved_to_destination
                &&& post.in_play_pokemon[actor as int][from_idx as int] matches Some(after)
                &&& with_energy(source, after, source.attached_energy@)
                &&& from_idx != to_idx ==> post.in_play_pokemon[actor as int][to_idx as int] == pre.in_play_pokemon[actor as int][to_idx as int]
            } else if from_idx == to_idx {
                &&& moved_to_destination
                &&& post.in_play_pokemon[actor as int][from_idx as int] matches Some(after)
                &&& with_energy(source, after, left + copies(energy_type, k))
            } else {
                match pre.in_play_pokemon[actor as int][to_idx as int] {
                    Some(destination) => {
                        &&& moved_to_destination
                        &&& post.in_play_pokemon[actor as int][from_idx as int] matches Some(after)
                        &&& with_energy(source, after, left)
                        &&& post.in_play_pokemon[actor as int][to_idx as int] matches Some(receiver)
                        &&& with_energy(destination, receiver, destination.attached_energy@ + copies(energy_type, k))
                    },
                    None => {
                        &&& !moved_to_destination
                        &&& post.in_play_pokemon[actor as int][from_idx as int] matches Some(after)
                        &&& with_energy(source, after, left + copies(energy_type, k))
                        &&& post.in_play_pokemon[actor as int][to_idx as int] is None
                    },
                }
            }
        },
    }
}

/// Move up to `amount` Energy of type `energy_type` from `actor`'s Pokémon in `from_idx` to the
/// one in `to_idx`. The source gives up the first such Energy each time, by swap-removal; the
/// destination gets them at the end of its list. If the destination is empty they go back onto
/// the source. Returns whether the destination received Energy, which is when the caller
/// re-applies the entering-Energy passive Abilities to it.
#[verifier::rlimit(50)]
pub fn apply_move_energy(
    state: &mut State,
    actor: usize,
    from_idx: usize,
    to_idx: usize,
    energy_type: EnergyType,
    amount: u32,
) -> (moved_to_destination: bool)
    requires
        actor < 2,
        from_idx < 4,
        to_idx < 4,
    ensures
        move_energy_post(*old(state), *final(state), actor, from_idx, to_idx, energy_type, amount, moved_to_destination),
{
    let mut source = match state.in_play_pokemon[actor][from_idx].take() {
        Some(card) => card,
        None => {
            proof {
                assert(state.in_play_pokemon[actor as int] =~= old(state).in_play_pokemon[actor as int]);
            }
            return false;
        },
    };
    let ghost original = source;
    let removed = take_out_energy(&mut source.attached_energy, energy_type, amount);
    if removed == 0 {
        proof {
            lemma_take_out_none_keeps(original.attached_energy@, energy_type, amount as nat);
        }
        state.in_play_pokemon[actor][from_idx] = Some(source);
        return false;
    }
    deliver_energy(state, actor, from_idx, to_idx, source, energy_type, removed)
}

/// Removing nothing leaves the list as it was.
proof fn lemma_take_out_none_keeps(s: Seq<EnergyType>, e: EnergyType, n: nat)
    requires
        take_out(s, e, n).1 == 0,
    ensures
        take_out(s, e, n).0 == s,
{
}

/// Hand `moved` (Energy taken from `source`, lifted out of slot `from_idx`) to the Pokémon in
/// `to_idx`, or back to `source` when that slot is empty or is `from_idx`; put `source` back.
/// Returns whether another Pokémon received them.
fn deliver_energies(
    state: &mut State,
    actor: usize,
    from_idx: usize,
    to_idx: usize,
    source: PlayedCard,
    moved: Vec<EnergyType>,
) -> (moved_to_destination: bool)
    requires
        actor < 2,
        from_idx < 4,
        to_idx < 4,
        old(state).in_play_pokemon[actor as int][from_idx as int] is None,
    ensures
        only_slots_changed(*old(state), *final(state), actor as int, from_idx as int, to_idx as int),
        if from_idx == to_idx {
            &&& moved_to_destination
            &&& final(state).in_play_pokemon[actor as int][from_idx as int] matches Some(after)
            &&& with_energy(source, after, source.attached_energy@ + moved@)
        } else {
            match old(state).in_play_pokemon[actor as int][to_idx as int] {
                Some(destination) => {
                    &&& moved_to_destination
                    &&& final(state).in_play_pokemon[actor as int][from_idx as int] matches Some(after)
                    &&& with_energy(source, after, source.attached_energy@)
                    &&& final(state).in_play_pokemon[actor as int][to_idx as int] matches Some(receiver)
                    &&& with_energy(destination, receiver, destination.attached_energy@ + moved@)
                },
                None => {
                    &&& !moved_to_destination
                    &&& final(state).in_play_pokemon[actor as int][from_idx as int] matches Some(after)
                    &&& with_energy(source, after, source.attached_energy@ + moved@)
                    &&& final(state).in_play_pokemon[actor as int][to_idx as int] is None
                },
            }
        },
{
    let mut source = source;
    let mut moved = moved;
    if from_idx == to_idx {
        source.attached_energy.append(&mut moved);
        state.in_play_pokemon[actor][from_idx] = Some(source);
        return true;
    }
    match state.in_play_pokemon[actor][to_idx].take() {
        Some(mut receiver) => {
            receiver.attached_energy.append(&mut moved);
            state.in_play_pokemon[actor][from_idx] = Some(source);
            state.in_play_pokemon[actor][to_idx] = Some(receiver);
            true
        },
        None => {
            source.attached_energy.append(&mut moved);
            state.in_play_pokemon[actor][from_idx] = Some(source);
            false
        },
    }
}

/// What moving a given set of Energy from `from_idx` to `to_idx` does to the board.
pub open spec fn move_energies_post(pre: State, post: State, actor: usize, from_idx: usize, to_idx: usize, energies: Seq<EnergyType>, moved_to_destination: bool) -> bool {
    &&& only_slots_changed(pre, post, actor as int, from_idx as int, to_idx as int)
    &&& match pre.in_play_pokemon[actor as int][from_idx as int] {
        None => !moved_to_destination && post.in_play_pokemon[actor as int] == pre.in_play_pokemon[actor as int],
        Some(source) => {
            let (left, moved) = take_out_each(source.attached_energy@, energies);
            if moved.len() == 0 {
                &&& !moved_to_destination
                &&& post.in_play_pokemon[actor as int][from_idx as int] matches Some(after)
                &&& with_energy(source, after, left)
                &&& from_idx != to_idx ==> post.in_play_pokemon[actor as int][to_idx as int] == pre.in_play_pokemon[actor as int][to_idx as int]
            } else if from_idx == to_idx {
                &&& moved_to_destination
                &&& post.in_play_pokemon[actor as int][from_idx as int] matches Some(after)
                &&& with_energy(source, after, left + moved)
            } else {
                match pre.in_play_pokemon[actor as int][to_idx as int] {
                    Some(destination) => {
                        &&& moved_to_destination
                        &&& post.in_play_pokemon[actor as int][from_idx as int] matches Some(after)
                        &&& with_energy(source, after, left)
                        &&& post.in_play_pokemon[actor as int][to_idx as int] matches Some(receiver)
                        &&& with_energy(destination, receiver, destination.attached_energy@ + moved)
                    },
                    None => {
                        &&& !moved_to_destination
                        &&& post.in_play_pokemon[actor as int][from_idx as int] matches Some(after)
                        &&& with_energy(source, after, left + moved)
                        &&& post.in_play_pokemon[actor as int][to_idx as int] is None
                    },
                }
            }
        },
    }
}

/// Move a given, possibly mixed, set of Energy from `actor`'s Pokémon in `from_idx` to the one
/// in `to_idx`: for each requested Energy the source gives up its first one of that type, by
/// swap-removal, if it still has one. The destination gets them at the end of its list, in the
/// order removed; if the destination is empty they go back onto the source. Returns whether
/// the destination received Energy.
#[verifier::rlimit(50)]
pub fn apply_move_energies(
    state: &mut State,
    actor: usize,
    from_idx: usize,
    to_idx: usize,
    energies: &[EnergyType],
) -> (moved_to_destination: bool)
    requires
        actor < 2,
        from_idx < 4,
        to_idx < 4,
    ensures
        move_energies_post(*old(state), *final(state), actor, from_idx, to_idx, energies@, moved_to_destination),
{
    let mut source = match state.in_play_pokemon[actor][from_idx].take() {
        Some(card) => card,
        None => {
            proof {
                assert(state.in_play_pokemon[actor as int] =~= old(state).in_play_pokemon[actor as int]);
            }
            return false;
        },
    };
    let moved = take_out_each_energy(&mut source.attached_energy, energies);
    if moved.len() == 0 {
        state.in_play_pokemon[actor][from_idx] = Some(source);
        return false;
    }
    deliver_energies(state, actor, from_idx, to_idx, source, moved)
}

/// The last Energy attached to `actor`'s Pokémon in `from_idx`, if any.
pub open spec fn last_energy(state: State, actor: int, from_idx: int) -> Option<EnergyType> {
    match state.in_play_pokemon[actor][from_idx] {
        Some(p) => if p.attached_energy@.len() > 0 {
            Some(p.attached_energy@.last())
        } else {
            None
        },
        None => None,
    }
}

/// What moving the last attached Energy of `from_idx` to `to_idx` does to the board.
pub open spec fn move_last_energy_post(pre: State, post: State, player: usize, from_idx: usize, to_idx: usize, moved_to_destination: bool) -> bool {
    &&& match last_energy(pre, player as int, from_idx as int) {
        None => !moved_to_destination && post == pre,
        Some(e) => only_slots_changed(pre, post, player as int, from_idx as int, to_idx as int)
            && match pre.in_play_pokemon[player as int][from_idx as int] {
            Some(source) => {
                let (left, k) = take_out(source.attached_energy@, e, 1);
                &&& k == 1
                &&& if from_idx == to_idx {
                    &&& moved_to_destination
                    &&& post.in_play_pokemon[player as int][from_idx as int] matches Some(after)
                    &&& with_energy(source, after, left + copies(e, 1))
                } else {
                    match pre.in_play_pokemon[player as int][to_idx as int] {
                        Some(destination) => {
                            &&& moved_to_destination
                            &&& post.in_play_pokemon[player as int][from_idx as int] matches Some(after)
                            &&& with_energy(source, after, left)
                            &&& post.in_play_pokemon[player as int][to_idx as int] matches Some(receiver)
                            &&& with_energy(destination, receiver, destination.attached_energy@ + copies(e, 1))
                        },
                        None => {
                            &&& !moved_to_destination
                            &&& post.in_play_pokemon[player as int][from_idx as int] matches Some(after)
                            &&& with_energy(source, after, left + copies(e, 1))
                            &&& post.in_play_pokemon[player as int][to_idx as int] is None
                        },
                    }
                }
            },
            None => false,
        },
    }
}

/// Move one Energy, of the type last attached, from `from_idx` to `to_idx`; nothing happens
/// when the source has no Energy. Returns whether the destination received it.
pub fn apply_move_last_energy(state: &mut State, player: usize, from_idx: usize, to_idx: usize) -> (moved_to_destination:
    bool)
    requires
        player < 2,
        from_idx < 4,
        to_idx < 4,
    ensures
        move_last_energy_post(*old(state), *final(state), player, from_idx, to_idx, moved_to_destination),
{
    let energy = match &state.in_play_pokemon[player][from_idx] {
        Some(pokemon) => {
            let n = pokemon.attached_energy.len();
            if n > 0 {
                Some(pokemon.attached_energy[n - 1])
            } else {
                None
            }
        },
        None => None,
    };
    match energy {
        Some(e) => {
            proof {
                let s = old(state).in_play_pokemon[player as int][from_idx as int]->0.attached_energy@;
                lemma_first_index_exists(s, e, s.len() - 1);
                assert(take_out(s, e, 1).1 == 1) by {
                    assert(take_out(swap_removed(s, first_index_of(s, e, 0)), e, 0).1 == 0);
                }
            }
            apply_move_energy(state, player, from_idx, to_idx, e, 1)
        },
        None => false,
    }
}

/// If `s` holds `e` at `j`, the first `e` from `i <= j` is found before the end.
proof fn lemma_first_index_exists(s: Seq<EnergyType>, e: EnergyType, j: int)
    requires
        0 <= j < s.len(),
        s[j] == e,
    ensures
        forall|i: int| 0 <= i <= j ==> first_index_of(s, e, i) < s.len(),
{
    assert forall|i: int| 0 <= i <= j implies first_index_of(s, e, i) < s.len() by {
        lemma_first_index_exists_from(s, e, i, j);
    }
}

proof fn lemma_first_index_exists_from(s: Seq<EnergyType>, e: EnergyType, i: int, j: int)
    requires
        0 <= i <= j < s.len(),
        s[j] == e,
    ensures
        first_index_of(s, e, i) < s.len(),
    decreases j - i,
{
    if s[i] != e {
        lemma_first_index_exists_from(s, e, i + 1, j);
    }
}

} // verus!

verus! {

/// `s` after removing the first occurrence of each of `requested` in turn, the later entries
/// closing up, skipping the ones no longer attached; with the Energy actually removed.
pub open spec fn take_out_each_in_order(s: Seq<EnergyType>, requested: Seq<EnergyType>) -> (Seq<EnergyType>, Seq<EnergyType>)
    decreases requested.len(),
{
    if requested.len() == 0 {
        (s, Seq::empty())
    } else {
        let before = take_out_each_in_order(s, requested.drop_last());
        let e = requested.last();
        let p = first_index_of(before.0, e, 0);
        if p >= before.0.len() {
            before
        } else {
            (before.0.remove(p), before.1.push(e))
        }
    }
}

/// The Energy attached in each of a player's four slots, `None` for an empty slot.
pub open spec fn slot_energies(row: [Option<PlayedCard>; 4]) -> Seq<Option<Seq<EnergyType>>> {
    Seq::new(
        4,
        |i: int|
            match row[i] {
                Some(p) => Some(p.attached_energy@),
                None => None,
            },
    )
}

/// The slots' Energy after taking, transfer by transfer, the listed Energy off each source in
/// play (skipping empty slots and Energy no longer attached); with everything taken, in order.
pub open spec fn consolidate_sources(
    slots: Seq<Option<Seq<EnergyType>>>,
    transfers: Seq<(usize, Vec<EnergyType>)>,
) -> (Seq<Option<Seq<EnergyType>>>, Seq<EnergyType>)
    decreases transfers.len(),
{
    if transfers.len() == 0 {
        (slots, Seq::empty())
    } else {
        let before = consolidate_sources(slots, transfers.drop_last());
        let from = transfers.last().0 as int;
        match before.0[from] {
            Some(s) => {
                let (left, taken) = take_out_each_in_order(s, transfers.last().1@);
                (before.0.update(from, Some(left)), before.1 + taken)
            },
            None => before,
        }
    }
}

/// Slot `b` is slot `a` with its Energy replaced by `energy`, an empty slot staying empty.
pub open spec fn holds_energy(a: Option<PlayedCard>, b: Option<PlayedCard>, energy: Option<Seq<EnergyType>>) -> bool {
    match (a, energy) {
        (None, _) => b is None,
        (Some(p), Some(e)) => b matches Some(q) && with_energy(p, q, e),
        (Some(_), None) => false,
    }
}

/// Slot `i` after the move: the destination `to` also gets everything `taken`.
pub open spec fn consolidated_slot(slots: Seq<Option<Seq<EnergyType>>>, taken: Seq<EnergyType>, i: int, to: int) -> Option<
    Seq<EnergyType>,
> {
    if i == to {
        match slots[i] {
            Some(e) => Some(e + taken),
            None => None,
        }
    } else {
        slots[i]
    }
}

/// Remove, for each of `requested` in turn, the first attached Energy of that type, the later
/// ones closing up; returns the Energy actually removed.
fn take_out_each_energy_in_order(list: &mut Vec<EnergyType>, requested: &[EnergyType]) -> (r: Vec<EnergyType>)
    ensures
        (final(list)@, r@) == take_out_each_in_order(old(list)@, requested@),
{
    let ghost start = list@;
    let mut removed: Vec<EnergyType> = Vec::new();
    let n = requested.len();
    for k in 0..n
        invariant
            n == requested@.len(),
            (list@, removed@) == take_out_each_in_order(start, requested@.take(k as int)),
    {
        proof {
            assert(requested@.take(k + 1).drop_last() =~= requested@.take(k as int));
        }
        let e = requested[k];
        let p = find_energy(list, e);
        if p < list.len() {
            list.remove(p);
            removed.push(e);
        }
    }
    proof {
        assert(requested@.take(n as int) =~= requested@);
    }
    removed
}

/// What moving the listed Energy of several sources onto `to_in_play_idx` does to the board.
pub open spec fn consolidate_post(pre: State, post: State, acting_player: usize, to_in_play_idx: usize, transfers: Seq<(usize, Vec<EnergyType>)>, moved_to_destination: bool) -> bool {
    &&& pre.in_play_pokemon[acting_player as int][to_in_play_idx as int] is None ==> !moved_to_destination
        && post == pre
    &&& pre.in_play_pokemon[acting_player as int][to_in_play_idx as int] is Some ==> {
        let row = pre.in_play_pokemon[acting_player as int];
        let (slots, taken) = consolidate_sources(slot_energies(row), transfers);
        &&& moved_to_destination == (taken.len() > 0)
        &&& same_except_board(pre, post)
        &&& post.in_play_pokemon[1 - acting_player] == pre.in_play_pokemon[1 - acting_player]
        &&& forall|i: int|
            0 <= i < 4 ==> #[trigger] holds_energy(
                row[i],
                post.in_play_pokemon[acting_player as int][i],
                consolidated_slot(slots, taken, i, to_in_play_idx as int),
            )
    }
}

/// Move the listed Energy from several of `acting_player`'s Pokémon onto the one in
/// `to_in_play_idx`, in one step: transfer by transfer, each source in play gives up, for each
/// listed Energy, its first one of that type if it still has one. Nothing happens when the
/// destination slot is empty. The destination gets everything taken at the end of its list, in
/// the order taken; returns whether it received any, which is when the caller re-applies the
/// entering-Energy passive Abilities to it.
#[verifier::rlimit(60)]
pub fn apply_consolidate_energy_to_pokemon(
    acting_player: usize,
    state: &mut State,
    to_in_play_idx: usize,
    transfers: &[(usize, Vec<EnergyType>)],
) -> (moved_to_destination: bool)
    requires
        acting_player < 2,
        to_in_play_idx < 4,
        forall|k: int| 0 <= k < transfers@.len() ==> #[trigger] transfers@[k].0 < 4,
    ensures
        consolidate_post(*old(state), *final(state), acting_player, to_in_play_idx, transfers@, moved_to_destination),
{
    if state.in_play_pokemon[acting_player][to_in_play_idx].is_none() {
        return false;
    }
    let ghost row = state.in_play_pokemon[acting_player as int];
    let ghost start = slot_energies(row);
    let mut moved: Vec<EnergyType> = Vec::new();
    let n = transfers.len();
    let mut k: usize = 0;
    while k < n
        invariant
            k <= n,
            acting_player < 2,
            to_in_play_idx < 4,
            n == transfers@.len(),
            forall|j: int| 0 <= j < transfers@.len() ==> #[trigger] transfers@[j].0 < 4,
            row == old(state).in_play_pokemon[acting_player as int],
            start == slot_energies(row),
            row[to_in_play_idx as int] is Some,
            same_except_board(*old(state), *state),
            state.in_play_pokemon[1 - acting_player] == old(state).in_play_pokemon[1 - acting_player],
            consolidate_sources(start, transfers@.take(k as int)).1 == moved@,
            consolidate_sources(start, transfers@.take(k as int)).0.len() == 4,
            forall|i: int|
                0 <= i < 4 ==> (#[trigger] consolidate_sources(start, transfers@.take(k as int)).0[i] is Some) == (
                row[i] is Some),
            forall|i: int|
                0 <= i < 4 ==> #[trigger] holds_energy(
                    row[i],
                    state.in_play_pokemon[acting_player as int][i],
                    consolidate_sources(start, transfers@.take(k as int)).0[i],
                ),
        decreases n - k,
    {
        let ghost before = consolidate_sources(start, transfers@.take(k as int));
        proof {
            assert(transfers@.take(k + 1).drop_last() =~= transfers@.take(k as int));
            assert(transfers@.take(k + 1).last() == transfers@[k as int]);
        }
        let from = transfers[k].0;
        proof {
            assert(holds_energy(row[from as int], state.in_play_pokemon[acting_player as int][from as int], before.0[from as int]));
            assert((before.0[from as int] is Some) == (row[from as int] is Some));
        }
        match state.in_play_pokemon[acting_player][from].take() {
            Some(mut source) => {
                let ghost original = source;
                let mut taken = take_out_each_energy_in_order(&mut source.attached_energy, &transfers[k].1);
                moved.append(&mut taken);
                state.in_play_pokemon[acting_player][from] = Some(source);
                proof {
                    let after = consolidate_sources(start, transfers@.take(k + 1));
                    assert(before.0[from as int] == Some(original.attached_energy@));
                    assert(after.0 == before.0.update(from as int, Some(source.attached_energy@)));
                    assert forall|i: int| 0 <= i < 4 implies #[trigger] holds_energy(
                        row[i],
                        state.in_play_pokemon[acting_player as int][i],
                        after.0[i],
                    ) by {
                        if i == from {
                            assert(holds_energy(row[i], Some(original), before.0[i]));
                        } else {
                            assert(holds_energy(row[i], state.in_play_pokemon[acting_player as int][i], before.0[i]));
                        }
                    }
                    assert forall|i: int| 0 <= i < 4 implies (#[trigger] after.0[i] is Some) == (row[i] is Some) by {
                        if i != from {
                            assert((before.0[i] is Some) == (row[i] is Some));
                        }
                    }
                }
            },
            None => {
                proof {
                    assert(holds_energy(row[from as int], None, before.0[from as int]));
                    assert((before.0[from as int] is Some) == (row[from as int] is Some));
                    assert(consolidate_sources(start, transfers@.take(k + 1)) == before);
                }
            },
        }
        k += 1;
    }
    proof {
        assert(transfers@.take(n as int) =~= transfers@);
    }
    if moved.len() == 0 {
        proof {
            let (slots, taken) = consolidate_sources(start, transfers@);
            assert forall|i: int| 0 <= i < 4 implies #[trigger] holds_energy(
                row[i],
                state.in_play_pokemon[acting_player as int][i],
                consolidated_slot(slots, taken, i, to_in_play_idx as int),
            ) by {
                if i == to_in_play_idx {
                    assert(holds_energy(row[i], state.in_play_pokemon[acting_player as int][i], slots[i]));
                    assert(slots[i]->0 + taken =~= slots[i]->0);
                }
            }
        }
        return false;
    }
    proof {
        let slots = consolidate_sources(start, transfers@).0;
        assert(holds_energy(row[to_in_play_idx as int], state.in_play_pokemon[acting_player as int][to_in_play_idx as int], slots[to_in_play_idx as int]));
        assert((slots[to_in_play_idx as int] is Some) == (row[to_in_play_idx as int] is Some));
    }
    let mut destination = state.in_play_pokemon[acting_player][to_in_play_idx].take().unwrap();
    let ghost prior = destination;
    destination.attached_energy.append(&mut moved);
    state.in_play_pokemon[acting_player][to_in_play_idx] = Some(destination);
    proof {
        let (slots, taken) = consolidate_sources(start, transfers@);
        assert forall|i: int| 0 <= i < 4 implies #[trigger] holds_energy(
            row[i],
            state.in_play_pokemon[acting_player as int][i],
            consolidated_slot(slots, taken, i, to_in_play_idx as int),
        ) by {
            if i == to_in_play_idx {
                assert(holds_energy(row[i], Some(prior), slots[i]));
            }
        }
    }
    true
}

} // verus!

verus! {

/// All the Energy attached across `slots`, as a multiset.
pub open spec fn energy_total(slots: Seq<Option<Seq<EnergyType>>>) -> Multiset<EnergyType>
    decreases slots.len(),
{
    if slots.len() == 0 {
        Multiset::empty()
    } else {
        energy_total(slots.drop_last()).add(
            match slots.last() {
                Some(s) => s.to_multiset(),
                None => Multiset::empty(),
            },
        )
    }
}

/// An empty list holds no Energy.
proof fn lemma_empty_to_multiset(s: Seq<EnergyType>)
    requires
        s.len() == 0,
    ensures
        s.to_multiset() == Multiset::<EnergyType>::empty(),
{
    broadcast use vstd::multiset::group_multiset_axioms;
    broadcast use vstd::seq_lib::to_multiset_contains;

    assert forall|a: EnergyType| s.to_multiset().count(a) == 0 by {
        assert(!s.contains(a));
    }
    assert(s.to_multiset() =~= Multiset::<EnergyType>::empty());
}

/// The first `e` found from `i` on is an `e`.
proof fn lemma_first_index_is_match(s: Seq<EnergyType>, e: EnergyType, i: int)
    requires
        first_index_of(s, e, i) < s.len(),
    ensures
        0 <= first_index_of(s, e, i),
        s[first_index_of(s, e, i)] == e,
    decreases s.len() - i,
{
    if !(i >= s.len() || i < 0) && s[i] != e {
        lemma_first_index_is_match(s, e, i + 1);
    }
}

/// Taking Energy off a list in order loses none: what is left and what was taken make up the
/// original list.
proof fn lemma_take_out_each_in_order_conserves(s: Seq<EnergyType>, requested: Seq<EnergyType>)
    ensures
        take_out_each_in_order(s, requested).0.to_multiset().add(take_out_each_in_order(s, requested).1.to_multiset())
            == s.to_multiset(),
    decreases requested.len(),
{
    broadcast use vstd::multiset::group_multiset_axioms;
    broadcast use vstd::seq_lib::to_multiset_build;
    broadcast use vstd::seq_lib::to_multiset_remove;

    if requested.len() == 0 {
        lemma_empty_to_multiset(Seq::<EnergyType>::empty());
        assert(s.to_multiset().add(Multiset::empty()) =~= s.to_multiset());
    } else {
        lemma_take_out_each_in_order_conserves(s, requested.drop_last());
        let before = take_out_each_in_order(s, requested.drop_last());
        let e = requested.last();
        let p = first_index_of(before.0, e, 0);
        if p < before.0.len() {
            lemma_first_index_is_match(before.0, e, 0);
            let left = before.0.remove(p);
            assert(left.to_multiset() == before.0.to_multiset().remove(e));
            assert(before.1.push(e).to_multiset() == before.1.to_multiset().insert(e));
            assert(before.0.to_multiset().count(e) > 0) by {
                assert(before.0.contains(e));
                vstd::seq_lib::to_multiset_contains(before.0, e);
            }
            assert(left.to_multiset().add(before.1.push(e).to_multiset()) =~= before.0.to_multiset().add(
                before.1.to_multiset(),
            ));
        }
    }
}

/// Replacing the Energy in slot `i` changes the total by exactly that slot's difference.
proof fn lemma_energy_total_update(slots: Seq<Option<Seq<EnergyType>>>, i: int, old_energy: Seq<EnergyType>, new_energy: Seq<EnergyType>)
    requires
        0 <= i < slots.len(),
        slots[i] == Some(old_energy),
    ensures
        energy_total(slots.update(i, Some(new_energy))).add(old_energy.to_multiset()) == energy_total(slots).add(
            new_energy.to_multiset(),
        ),
    decreases slots.len(),
{
    broadcast use vstd::multiset::group_multiset_axioms;

    let updated = slots.update(i, Some(new_energy));
    let rest = energy_total(slots.drop_last());
    if i == slots.len() - 1 {
        assert(updated.drop_last() =~= slots.drop_last());
        assert(updated.last() == Some(new_energy));
        assert(energy_total(updated) == rest.add(new_energy.to_multiset()));
        assert(energy_total(slots) == rest.add(old_energy.to_multiset()));
        assert(energy_total(updated).add(old_energy.to_multiset()) =~= energy_total(slots).add(
            new_energy.to_multiset(),
        ));
    } else {
        lemma_energy_total_update(slots.drop_last(), i, old_energy, new_energy);
        assert(updated.drop_last() =~= slots.drop_last().update(i, Some(new_energy)));
        assert(updated.last() == slots.last());
        let tail = match slots.last() {
            Some(s) => s.to_multiset(),
            None => Multiset::empty(),
        };
        let a = energy_total(updated.drop_last());
        assert(a == energy_total(slots.drop_last().update(i, Some(new_energy))));
        assert(a.add(old_energy.to_multiset()) == rest.add(new_energy.to_multiset()));
        assert(energy_total(updated) == a.add(tail));
        assert(energy_total(slots) == rest.add(tail));
        assert forall|x: EnergyType| #[trigger] energy_total(updated).add(old_energy.to_multiset()).count(x)
            == energy_total(slots).add(new_energy.to_multiset()).count(x) by {
            assert(a.add(old_energy.to_multiset()).count(x) == rest.add(new_energy.to_multiset()).count(x));
        }
        assert(energy_total(updated).add(old_energy.to_multiset()) =~= energy_total(slots).add(
            new_energy.to_multiset(),
        ));
    }
}

/// Taking Energy off the sources loses none, and leaves occupied and empty slots as they were.
proof fn lemma_consolidate_sources_conserves(
    slots: Seq<Option<Seq<EnergyType>>>,
    transfers: Seq<(usize, Vec<EnergyType>)>,
)
    requires
        forall|k: int| 0 <= k < transfers.len() ==> #[trigger] transfers[k].0 < slots.len(),
    ensures
        consolidate_sources(slots, transfers).0.len() == slots.len(),
        forall|i: int|
            0 <= i < slots.len() ==> (#[trigger] consolidate_sources(slots, transfers).0[i] is Some) == (
            slots[i] is Some),
        energy_total(consolidate_sources(slots, transfers).0).add(consolidate_sources(slots, transfers).1.to_multiset())
            == energy_total(slots),
    decreases transfers.len(),
{
    broadcast use vstd::multiset::group_multiset_axioms;
    broadcast use vstd::seq_lib::lemma_multiset_commutative;

    if transfers.len() == 0 {
        lemma_empty_to_multiset(Seq::<EnergyType>::empty());
        assert(energy_total(slots).add(Multiset::empty()) =~= energy_total(slots));
    } else {
        let rest = transfers.drop_last();
        assert forall|k: int| 0 <= k < rest.len() implies #[trigger] rest[k].0 < slots.len() by {
            assert(rest[k] == transfers[k]);
        }
        lemma_consolidate_sources_conserves(slots, rest);
        let before = consolidate_sources(slots, rest);
        let from = transfers.last().0 as int;
        assert(transfers.last() == transfers[transfers.len() - 1]);
        match before.0[from] {
            Some(s) => {
                let (left, taken) = take_out_each_in_order(s, transfers.last().1@);
                lemma_take_out_each_in_order_conserves(s, transfers.last().1@);
                lemma_energy_total_update(before.0, from, s, left);
                let after = before.0.update(from, Some(left));
                assert(consolidate_sources(slots, transfers) == (after, before.1 + taken));
                let ta = energy_total(after);
                let tb = energy_total(before.0);
                assert(ta.add(s.to_multiset()) == tb.add(left.to_multiset()));
                assert(left.to_multiset().add(taken.to_multiset()) == s.to_multiset());
                assert(tb.add(before.1.to_multiset()) == energy_total(slots));
                assert((before.1 + taken).to_multiset() =~= before.1.to_multiset().add(taken.to_multiset()));
                assert forall|x: EnergyType| #[trigger] ta.add((before.1 + taken).to_multiset()).count(x)
                    == energy_total(slots).count(x) by {
                    assert(ta.add(s.to_multiset()).count(x) == tb.add(left.to_multiset()).count(x));
                    assert(left.to_multiset().add(taken.to_multiset()).count(x) == s.to_multiset().count(x));
                    assert(tb.add(before.1.to_multiset()).count(x) == energy_total(slots).count(x));
                }
                assert(ta.add((before.1 + taken).to_multiset()) =~= energy_total(slots));
            },
            None => {},
        }
    }
}

/// Moving Energy onto one Pokémon creates and destroys none: when the destination is in play,
/// the Energy across the player's four slots afterwards is exactly the Energy before.
pub proof fn lemma_consolidation_conserves_energy(
    row: [Option<PlayedCard>; 4],
    transfers: Seq<(usize, Vec<EnergyType>)>,
    to: int,
)
    requires
        0 <= to < 4,
        row[to] is Some,
        forall|k: int| 0 <= k < transfers.len() ==> #[trigger] transfers[k].0 < 4,
    ensures
        ({
            let (slots, taken) = consolidate_sources(slot_energies(row), transfers);
            energy_total(Seq::new(4, |i: int| consolidated_slot(slots, taken, i, to)))
        }) == energy_total(slot_energies(row)),
{
    broadcast use vstd::multiset::group_multiset_axioms;
    broadcast use vstd::seq_lib::lemma_multiset_commutative;

    let start = slot_energies(row);
    lemma_consolidate_sources_conserves(start, transfers);
    let (slots, taken) = consolidate_sources(start, transfers);
    assert(start[to] is Some);
    let x = slots[to]->0;
    let result = Seq::new(4, |i: int| consolidated_slot(slots, taken, i, to));
    assert(result =~= slots.update(to, Some(x + taken)));
    lemma_energy_total_update(slots, to, x, x + taken);
    assert((x + taken).to_multiset() =~= x.to_multiset().add(taken.to_multiset()));
    let t = energy_total(slots.update(to, Some(x + taken)));
    assert(t.add(x.to_multiset()) == energy_total(slots).add((x + taken).to_multiset()));
    assert(energy_total(slots).add(taken.to_multiset()) == energy_total(start));
    assert forall|e: EnergyType| #[trigger] energy_total(result).count(e) == energy_total(start).count(e) by {
        assert(t.add(x.to_multiset()).count(e) == energy_total(slots).add((x + taken).to_multiset()).count(e));
        assert(energy_total(slots).add(taken.to_multiset()).count(e) == energy_total(start).count(e));
    }
    assert(energy_total(result) =~= energy_total(start));
}

} // verus!

verus! {

/// Swap-removing entry `p` takes exactly that entry out of the multiset.
proof fn lemma_swap_removed_multiset(s: Seq<EnergyType>, p: int)
    requires
        0 <= p < s.len(),
    ensures
        swap_removed(s, p).to_multiset() == s.to_multiset().remove(s[p]),
{
    broadcast use vstd::multiset::group_multiset_axioms;
    broadcast use vstd::seq_lib::to_multiset_remove;
    broadcast use vstd::seq_lib::to_multiset_update;

    let u = s.update(p, s.last());
    vstd::seq_lib::to_multiset_update(s, p, s.last());
    vstd::seq_lib::to_multiset_remove(u, u.len() - 1);
    assert(u.drop_last() =~= u.remove(u.len() - 1));
    assert(s.to_multiset().count(s[p]) > 0) by {
        assert(s.contains(s[p]));
        vstd::seq_lib::to_multiset_contains(s, s[p]);
    }
    assert(s.to_multiset().count(s.last()) > 0) by {
        assert(s.contains(s.last()));
        vstd::seq_lib::to_multiset_contains(s, s.last());
    }
    assert(swap_removed(s, p).to_multiset() =~= s.to_multiset().remove(s[p]));
}

/// Moving a given set of Energy off a Pokémon loses none: what is left on it and what was moved
/// make up what it had.
pub proof fn lemma_moving_energies_conserves(s: Seq<EnergyType>, requested: Seq<EnergyType>)
    ensures
        take_out_each(s, requested).0.to_multiset().add(take_out_each(s, requested).1.to_multiset())
            == s.to_multiset(),
    decreases requested.len(),
{
    broadcast use vstd::multiset::group_multiset_axioms;
    broadcast use vstd::seq_lib::to_multiset_build;

    if requested.len() == 0 {
        lemma_empty_to_multiset(Seq::<EnergyType>::empty());
        assert(s.to_multiset().add(Multiset::empty()) =~= s.to_multiset());
    } else {
        lemma_moving_energies_conserves(s, requested.drop_last());
        let before = take_out_each(s, requested.drop_last());
        let e = requested.last();
        let p = first_index_of(before.0, e, 0);
        if p < before.0.len() {
            lemma_first_index_is_match(before.0, e, 0);
            lemma_swap_removed_multiset(before.0, p);
            assert(before.1.push(e).to_multiset() == before.1.to_multiset().insert(e));
            assert(before.0.to_multiset().count(e) > 0) by {
                assert(before.0.contains(e));
                vstd::seq_lib::to_multiset_contains(before.0, e);
            }
            assert(swap_removed(before.0, p).to_multiset().add(before.1.push(e).to_multiset())
                =~= before.0.to_multiset().add(before.1.to_multiset()));
        }
    }
}

/// Moving up to `n` Energy of one type off a Pokémon loses none: what is left on it and the
/// `k` moved make up what it had.
pub proof fn lemma_moving_typed_energy_conserves(s: Seq<EnergyType>, e: EnergyType, n: nat)
    ensures
        take_out(s, e, n).0.to_multiset().add(copies(e, take_out(s, e, n).1).to_multiset()) == s.to_multiset(),
    decreases n,
{
    broadcast use vstd::multiset::group_multiset_axioms;
    broadcast use vstd::seq_lib::to_multiset_build;

    let p = first_index_of(s, e, 0);
    if n == 0 || p >= s.len() {
        lemma_empty_to_multiset(copies(e, 0));
        assert(s.to_multiset().add(Multiset::empty()) =~= s.to_multiset());
    } else {
        let rest = swap_removed(s, p);
        lemma_moving_typed_energy_conserves(rest, e, (n - 1) as nat);
        lemma_first_index_is_match(s, e, 0);
        lemma_swap_removed_multiset(s, p);
        let k = take_out(rest, e, (n - 1) as nat).1;
        assert(copies(e, k + 1) =~= copies(e, k).push(e));
        assert(s.to_multiset().count(e) > 0) by {
            assert(s.contains(e));
            vstd::seq_lib::to_multiset_contains(s, e);
        }
        let left = take_out(rest, e, (n - 1) as nat).0;
        assert(take_out(s, e, n) == (left, k + 1));
        assert(copies(e, k + 1).to_multiset() == copies(e, k).to_multiset().insert(e));
        assert(left.to_multiset().add(copies(e, k).to_multiset()) == rest.to_multiset());
        assert(rest.to_multiset() == s.to_multiset().remove(e));
        assert forall|x: EnergyType| #[trigger] left.to_multiset().add(copies(e, k + 1).to_multiset()).count(x)
            == s.to_multiset().count(x) by {
            assert(left.to_multiset().add(copies(e, k).to_multiset()).count(x) == rest.to_multiset().count(x));
        }
        assert(left.to_multiset().add(copies(e, k + 1).to_multiset()) =~= s.to_multiset());
    }
}

} // verus!
