//! Pure rules of the search player: which opponent actions are public information, when a
//! pending choice is a genuine promotion, and how forced wins are ranked.
use vstd::prelude::*;

use crate::actions::{Action, SimpleAction};
use crate::state::State;

verus! {

/// Which experimental modifications to the search are active.
#[derive(Debug, Clone, Copy, Default, PartialEq, Eq, Structural)]
pub struct SearchFlags {
    /// Price every leaf through the opponent's reply.
    pub consistent_horizon: bool,
    /// Score the opponent's turn as an expectation instead of a minimum.
    pub soft_opponent: bool,
}

/// An action the searching player may consider on the opponent's turn without seeing their
/// hand or deck: attacking, retreating, using an Ability, ending the turn, activating or
/// promoting a Pokémon in play, drawing, and attaching the turn's Energy.
pub open spec fn spec_is_public_information_action(action: Action) -> bool {
    match action.action {
        SimpleAction::Attack(_) => true,
        SimpleAction::Retreat(_) => true,
        SimpleAction::UseAbility { .. } => true,
        SimpleAction::EndTurn => true,
        SimpleAction::Activate { .. } => true,
        SimpleAction::Promote { .. } => true,
        SimpleAction::DrawCard { .. } => true,
        SimpleAction::Attach { is_turn_energy, .. } => is_turn_energy,
        _ => false,
    }
}

pub fn is_public_information_action(action: &Action) -> (r: bool)
    ensures
        r == spec_is_public_information_action(*action),
{
    match &action.action {
        SimpleAction::Attack(_) => true,
        SimpleAction::Retreat(_) => true,
        SimpleAction::UseAbility { .. } => true,
        SimpleAction::EndTurn => true,
        SimpleAction::Activate { .. } => true,
        SimpleAction::Promote { .. } => true,
        SimpleAction::DrawCard { .. } => true,
        SimpleAction::Attach { is_turn_energy, .. } => *is_turn_energy,
        _ => false,
    }
}

/// Whether the action is public depends only on what is done, not on who does it or whether
/// it sits on the stack: stack membership reveals nothing about private cards.
pub proof fn lemma_public_information_ignores_actor_and_stack(a: Action, b: Action)
    requires
        a.action == b.action,
    ensures
        spec_is_public_information_action(a) == spec_is_public_information_action(b),
{
}

/// The Bench slot a choice promotes for `actor`, when it is a `Promote` of `actor` into an
/// occupied slot.
pub open spec fn promoted_slot(state: State, actor: usize, choice: SimpleAction) -> Option<usize> {
    match choice {
        SimpleAction::Promote { player, in_play_idx } => if player == actor && in_play_idx < 4
            && state.in_play_pokemon[actor as int][in_play_idx as int] is Some {
            Some(in_play_idx)
        } else {
            None
        },
        _ => None,
    }
}

/// How many of `choices` promote into slot `slot`.
pub open spec fn promotions_into(choices: Seq<SimpleAction>, slot: usize) -> nat
    decreases choices.len(),
{
    if choices.len() == 0 {
        0
    } else {
        promotions_into(choices.drop_last(), slot) + match choices.last() {
            SimpleAction::Promote { in_play_idx, .. } => if in_play_idx == slot {
                1nat
            } else {
                0nat
            },
            _ => 0nat,
        }
    }
}

/// The pending choices are the current, complete compulsory replacement for `frame_actor`:
/// the game is past setup, that player's Active Spot is empty, every choice promotes one of
/// their Benched Pokémon, and each Benched Pokémon is offered exactly once.
pub open spec fn spec_is_current_promotion_frame(state: State, frame_actor: usize, choices: Seq<SimpleAction>) -> bool {
    if state.turn_count == 0 || state.setup_opponent_hidden || choices.len() == 0 || frame_actor >= 2
        || state.in_play_pokemon[frame_actor as int][0] is Some {
        false
    } else {
        (forall|k: int| 0 <= k < choices.len() ==> (#[trigger] promoted_slot(state, frame_actor, choices[k])) is Some)
            && forall|i: usize|
            i < 4 ==> #[trigger] promotions_into(choices, i) == if state.in_play_pokemon[frame_actor as int][i as int] is Some {
                1nat
            } else {
                0nat
            }
    }
}

pub fn is_current_promotion_frame(state: &State, frame_actor: usize, choices: &[SimpleAction]) -> (r: bool)
    ensures
        r == spec_is_current_promotion_frame(*state, frame_actor, choices@),
{
    if state.turn_count == 0 || state.setup_opponent_hidden || choices.len() == 0 || frame_actor >= 2 {
        return false;
    }
    if state.in_play_pokemon[frame_actor][0].is_some() {
        return false;
    }
    let mut counts: [u64; 4] = [0, 0, 0, 0];
    let n = choices.len();
    for k in 0..n
        invariant
            n == choices@.len(),
            frame_actor < 2,
            forall|j: int| 0 <= j < k ==> (#[trigger] promoted_slot(*state, frame_actor, choices@[j])) is Some,
            forall|i: usize| i < 4 ==> counts[i as int] == promotions_into(#[trigger] choices@.take(k as int), i),
            forall|i: int| 0 <= i < 4 ==> counts[i] <= k,
    {
        proof {
            assert(choices@.take(k + 1).drop_last() =~= choices@.take(k as int));
        }
        match &choices[k] {
            SimpleAction::Promote { player, in_play_idx } => {
                if *player == frame_actor && *in_play_idx < 4 && state.in_play_pokemon[frame_actor][*in_play_idx].is_some() {
                    let slot = *in_play_idx;
                    counts[slot] = counts[slot] + 1;
                } else {
                    proof {
                        assert(promoted_slot(*state, frame_actor, choices@[k as int]) is None);
                    }
                    return false;
                }
            },
            _ => {
                proof {
                    assert(promoted_slot(*state, frame_actor, choices@[k as int]) is None);
                }
                return false;
            },
        }
    }
    proof {
        assert(choices@.take(n as int) =~= choices@);
    }
    let mut i: usize = 0;
    while i < 4
        invariant
            i <= 4,
            frame_actor < 2,
            forall|j: usize| j < 4 ==> counts[j as int] == promotions_into(#[trigger] choices@, j),
            forall|j: usize|
                j < i ==> #[trigger] promotions_into(choices@, j) == if state.in_play_pokemon[frame_actor as int][j as int] is Some {
                    1nat
                } else {
                    0nat
                },
        decreases 4 - i,
    {
        let expected: u64 = if state.in_play_pokemon[frame_actor][i].is_some() {
            1
        } else {
            0
        };
        if counts[i] != expected {
            proof {
                assert(promotions_into(choices@, i) != if state.in_play_pokemon[frame_actor as int][i as int] is Some {
                    1nat
                } else {
                    0nat
                });
            }
            return false;
        }
        i += 1;
    }
    true
}

/// How two proven win distances rank: a shorter forced win is better, and any forced win beats
/// none.
pub open spec fn win_preference(a: Option<usize>, b: Option<usize>) -> std::cmp::Ordering {
    match (a, b) {
        (Some(x), Some(y)) => if y < x {
            std::cmp::Ordering::Less
        } else if y == x {
            std::cmp::Ordering::Equal
        } else {
            std::cmp::Ordering::Greater
        },
        (Some(_), None) => std::cmp::Ordering::Greater,
        (None, Some(_)) => std::cmp::Ordering::Less,
        (None, None) => std::cmp::Ordering::Equal,
    }
}

/// Ranks two proven win distances.
pub fn prefer_shorter_win(a: Option<usize>, b: Option<usize>) -> (r: std::cmp::Ordering)
    ensures
        r == win_preference(a, b),
{
    match (a, b) {
        (Some(x), Some(y)) => if y < x {
            std::cmp::Ordering::Less
        } else if y == x {
            std::cmp::Ordering::Equal
        } else {
            std::cmp::Ordering::Greater
        },
        (Some(_), None) => std::cmp::Ordering::Greater,
        (None, Some(_)) => std::cmp::Ordering::Less,
        (None, None) => std::cmp::Ordering::Equal,
    }
}

/// The printed Retreat Cost size of `player`'s Active Pokémon: 0 with no Active Pokémon, 5 for
/// an Active card without a printed Retreat Cost.
pub open spec fn spec_active_retreat_cost(state: State, player: int) -> int {
    match state.in_play_pokemon[player][0] {
        Some(active) => match active.card {
            crate::models::Card::Pokemon(pc) => pc.retreat_cost@.len() as int,
            _ => 5,
        },
        None => 0,
    }
}

pub fn get_active_retreat_cost(state: &State, player: usize) -> (r: usize)
    requires
        player < 2,
    ensures
        r as int == spec_active_retreat_cost(*state, player as int),
{
    match state.maybe_get_active(player) {
        Some(active) => match &active.card {
            crate::models::Card::Pokemon(pc) => pc.retreat_cost.len(),
            _ => 5,
        },
        None => 0,
    }
}

/// The ranking of forced wins is a consistent comparison: swapping the two sides reverses it.
pub proof fn lemma_win_preference_antisymmetric(a: Option<usize>, b: Option<usize>)
    ensures
        win_preference(a, b) == std::cmp::Ordering::Less <==> win_preference(b, a) == std::cmp::Ordering::Greater,
        win_preference(a, b) == std::cmp::Ordering::Equal <==> win_preference(b, a) == std::cmp::Ordering::Equal,
{
}

} // verus!
