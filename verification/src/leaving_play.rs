//! A Pokémon leaving play to its owner's hand (Ilima) or deck (Professor Turo), with everything
//! under and attached to it.
use vstd::prelude::*;

use crate::models::{Card, PlayedCard};
use crate::state::State;

verus! {

/// The cards of a Pokémon in play: the cards under it, from the Basic up, then its own card.
pub open spec fn stack_cards(p: PlayedCard) -> Seq<Card> {
    p.cards_behind@.push(p.card)
}

/// `b` is `a` with at most slot `idx` of `player`, that player's hand and deck, and that
/// player's discard pile and discarded Energy changed.
pub open spec fn only_leaving_changed(a: State, b: State, player: int, idx: int) -> bool {
    &&& forall|i: int| 0 <= i < 4 && i != idx ==> #[trigger] b.in_play_pokemon[player][i] == a.in_play_pokemon[player][i]
    &&& b.in_play_pokemon[1 - player] == a.in_play_pokemon[1 - player]
    &&& b.hands[1 - player] == a.hands[1 - player]
    &&& b.decks[1 - player] == a.decks[1 - player]
    &&& b.discard_piles[1 - player] == a.discard_piles[1 - player]
    &&& b.discard_energies[1 - player] == a.discard_energies[1 - player]
    &&& b.decks[player].energy_types == a.decks[player].energy_types
    &&& b.turn_count == a.turn_count
    &&& b.current_player == a.current_player
    &&& b.points == a.points
    &&& b.winner == a.winner
    &&& b.current_energy == a.current_energy
    &&& b.has_retreated == a.has_retreated
    &&& b.active_stadium == a.active_stadium
    &&& b.active_stadium_owner == a.active_stadium_owner
    &&& b.turn_effects == a.turn_effects
    &&& b.move_generation_stack == a.move_generation_stack
    &&& b.has_used_stadium == a.has_used_stadium
    &&& b.luxury_coin_used_this_turn == a.luxury_coin_used_this_turn
    &&& b.victory_star_used_this_turn == a.victory_star_used_this_turn
    &&& b.setup_opponent_hidden == a.setup_opponent_hidden
    &&& b.healing_blocked == a.healing_blocked
}

/// Lift `acting_player`'s Pokémon out of `in_play_idx`; its Tools go to the discard pile and its
/// Energy to the discarded Energy. Returns its cards, the cards under it first.
pub(crate) fn lift_out_of_play(acting_player: usize, state: &mut State, in_play_idx: usize) -> (cards: Vec<Card>)
    requires
        acting_player < 2,
        in_play_idx < 4,
        old(state).in_play_pokemon[acting_player as int][in_play_idx as int] is Some,
    ensures
        ({
            let p = old(state).in_play_pokemon[acting_player as int][in_play_idx as int]->0;
            &&& cards@ == stack_cards(p)
            &&& final(state).discard_piles[acting_player as int]@ == old(state).discard_piles[acting_player as int]@
                + p.attached_tools@
            &&& final(state).discard_energies[acting_player as int]@ == old(
                state,
            ).discard_energies[acting_player as int]@ + p.attached_energy@
        }),
        final(state).in_play_pokemon[acting_player as int][in_play_idx as int] is None,
        final(state).hands == old(state).hands,
        final(state).decks == old(state).decks,
        only_leaving_changed(*old(state), *final(state), acting_player as int, in_play_idx as int),
{
    let played_card = state.in_play_pokemon[acting_player][in_play_idx].take().unwrap();
    let PlayedCard { card, mut attached_energy, mut attached_tools, mut cards_behind, .. } = played_card;
    cards_behind.push(card);
    state.discard_piles[acting_player].append(&mut attached_tools);
    state.discard_energies[acting_player].append(&mut attached_energy);
    cards_behind
}

/// What returning a Pokémon in play to its owner's hand does to the game.
pub open spec fn return_to_hand_post(pre: State, post: State, acting_player: usize, in_play_idx: usize) -> bool {
    &&& ({
        let p = pre.in_play_pokemon[acting_player as int][in_play_idx as int]->0;
        &&& post.hands[acting_player as int]@ == pre.hands[acting_player as int]@ + stack_cards(p)
        &&& post.discard_piles[acting_player as int]@ == pre.discard_piles[acting_player as int]@
            + p.attached_tools@
        &&& post.discard_energies[acting_player as int]@ == pre.discard_energies[acting_player as int]@ + p.attached_energy@
    })
    &&& post.in_play_pokemon[acting_player as int][in_play_idx as int] is None
    &&& post.decks == pre.decks
    &&& only_leaving_changed(pre, post, acting_player as int, in_play_idx as int)
}

/// Return `acting_player`'s Pokémon in `in_play_idx` to their hand: it and the cards under it go
/// to the end of the hand, the cards under it first; its Tools are discarded and its Energy
/// goes to the discarded Energy. Refreshing HP bonuses and, for the Active Spot, the promotion
/// that follows are the turn engine's.
pub fn apply_return_pokemon_to_hand(acting_player: usize, state: &mut State, in_play_idx: usize)
    requires
        acting_player < 2,
        in_play_idx < 4,
        old(state).in_play_pokemon[acting_player as int][in_play_idx as int] is Some,
    ensures
        return_to_hand_post(*old(state), *final(state), acting_player, in_play_idx),
{
    let mut cards = lift_out_of_play(acting_player, state, in_play_idx);
    state.hands[acting_player].append(&mut cards);
}

/// What shuffling a Pokémon in play into its owner's deck does to the game.
pub open spec fn shuffle_into_deck_post(pre: State, post: State, acting_player: usize, in_play_idx: usize) -> bool {
    &&& ({
        let p = pre.in_play_pokemon[acting_player as int][in_play_idx as int]->0;
        &&& post.decks[acting_player as int].cards@ == pre.decks[acting_player as int].cards@
            + stack_cards(p)
        &&& post.discard_piles[acting_player as int]@ == pre.discard_piles[acting_player as int]@
            + p.attached_tools@
        &&& post.discard_energies[acting_player as int]@ == pre.discard_energies[acting_player as int]@ + p.attached_energy@
    })
    &&& post.in_play_pokemon[acting_player as int][in_play_idx as int] is None
    &&& post.hands == pre.hands
    &&& only_leaving_changed(pre, post, acting_player as int, in_play_idx as int)
}

/// Shuffle `acting_player`'s Pokémon in `in_play_idx` into their deck: it and the cards under it
/// go to the end of the deck's cards, the cards under it first; its Tools are discarded and its
/// Energy goes to the discarded Energy. Refreshing HP bonuses and, for the Active Spot, the
/// promotion that follows are the turn engine's.
pub fn apply_shuffle_in_play_pokemon_into_deck(acting_player: usize, state: &mut State, in_play_idx: usize)
    requires
        acting_player < 2,
        in_play_idx < 4,
        old(state).in_play_pokemon[acting_player as int][in_play_idx as int] is Some,
    ensures
        shuffle_into_deck_post(*old(state), *final(state), acting_player, in_play_idx),
{
    let mut cards = lift_out_of_play(acting_player, state, in_play_idx);
    state.decks[acting_player].cards.append(&mut cards);
}

} // verus!
