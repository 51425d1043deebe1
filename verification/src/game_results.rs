//! The compact record of one finished game: the seat-ordered matchup, and how the reported
//! outcome and the final referee state agree.
use vstd::prelude::*;
use vstd::string::*;

use crate::game_records::{GameOutcome, GameRandomness};
use crate::models::{Card, Deck, EnergyType};
use crate::text::{decimal, push_decimal};

verus! {

pub const GAME_RESULT_SCHEMA: &'static str = "pdl-game-result/v1";

/// Ordered deck identity as supplied to the simulation.
#[derive(Debug, Clone, PartialEq, Eq)]
pub struct ExportedDeck {
    pub card_ids: Vec<String>,
    pub energy_types: Vec<EnergyType>,
}

/// The ids of `cards`, in order.
pub open spec fn card_ids_of(cards: Seq<Card>) -> Seq<Seq<char>> {
    cards.map_values(|c: Card| c.spec_id())
}

pub open spec fn strings_view(v: Seq<String>) -> Seq<Seq<char>> {
    v.map_values(|s: String| s@)
}

impl ExportedDeck {
    pub fn from_deck(deck: &Deck) -> (r: ExportedDeck)
        ensures
            strings_view(r.card_ids@) == card_ids_of(deck.cards@),
            r.energy_types@ == deck.energy_types@,
    {
        let mut card_ids: Vec<String> = Vec::new();
        let n = deck.cards.len();
        for i in 0..n
            invariant
                n == deck.cards@.len(),
                strings_view(card_ids@) == card_ids_of(deck.cards@.take(i as int)),
        {
            let id = deck.cards[i].get_id();
            proof {
                assert(strings_view(card_ids@.push(id)) =~= strings_view(card_ids@).push(id@));
                assert(card_ids_of(deck.cards@.take(i + 1)) =~= card_ids_of(deck.cards@.take(i as int)).push(
                    deck.cards@[i as int].spec_id(),
                ));
            }
            card_ids.push(id);
        }
        proof {
            assert(deck.cards@.take(n as int) =~= deck.cards@);
        }
        let energy_types = deck.energy_types.clone();
        proof {
            assert(energy_types@ =~= deck.energy_types@);
        }
        ExportedDeck { card_ids, energy_types }
    }
}

/// Seat-ordered inputs required to interpret a result without a trace snapshot.
#[derive(Debug, Clone, PartialEq, Eq)]
pub struct ExportedMatchup {
    pub decks: [ExportedDeck; 2],
    pub player_codes: [String; 2],
}

/// The refusal of a matchup whose player-code labels are not exactly two.
pub open spec fn label_count_message(received: nat) -> Seq<char> {
    "game result matchup requires exactly 2 player-code labels, received "@ + decimal(received)
}

fn label_count_error(received: usize) -> (r: String)
    ensures
        r@ == label_count_message(received as nat),
{
    let mut message = String::from_str("game result matchup requires exactly 2 player-code labels, received ");
    push_decimal(&mut message, received);
    message
}

impl ExportedMatchup {
    /// The matchup of `deck_a` against `deck_b`; there must be exactly two player-code labels.
    pub fn from_decks(deck_a: &Deck, deck_b: &Deck, player_codes: Vec<String>) -> (r: Result<ExportedMatchup, String>)
        ensures
            player_codes@.len() == 2 <==> r is Ok,
            r matches Ok(m) ==> {
                &&& strings_view(m.decks[0].card_ids@) == card_ids_of(deck_a.cards@)
                &&& m.decks[0].energy_types@ == deck_a.energy_types@
                &&& strings_view(m.decks[1].card_ids@) == card_ids_of(deck_b.cards@)
                &&& m.decks[1].energy_types@ == deck_b.energy_types@
                &&& m.player_codes[0] == player_codes@[0]
                &&& m.player_codes[1] == player_codes@[1]
            },
            r matches Err(message) ==> message@ == label_count_message(player_codes@.len()),
    {
        if player_codes.len() != 2 {
            return Err(label_count_error(player_codes.len()));
        }
        let mut player_codes = player_codes;
        let second = player_codes.pop().unwrap();
        let first = player_codes.pop().unwrap();
        Ok(ExportedMatchup {
            decks: [ExportedDeck::from_deck(deck_a), ExportedDeck::from_deck(deck_b)],
            player_codes: [first, second],
        })
    }
}

/// Whether the result callback and final referee state form a usable completed result.
#[derive(Debug, Clone, Copy, PartialEq, Eq, Structural)]
pub enum GameCompletion {
    Completed,
    Incomplete,
    Inconsistent,
}

/// One compact, terminal callback record; `randomness: None` marks an unseeded result.
#[derive(Debug, Clone, PartialEq, Eq)]
pub struct ExportedGameResult {
    pub schema: String,
    pub game_id: String,
    pub engine_version: String,
    pub randomness: Option<GameRandomness>,
    pub outcome: Option<GameOutcome>,
    pub state_winner: Option<GameOutcome>,
    pub completion: GameCompletion,
    pub lifecycle_errors: usize,
    pub plies: u32,
    pub actions_by_player: [u32; 2],
    pub final_turn: u8,
    pub final_points: [u8; 2],
    pub matchup: ExportedMatchup,
}

/// A result is complete when the reported outcome and the final state's winner agree on the
/// same seat or on a tie, incomplete when neither exists, and inconsistent otherwise.
pub open spec fn spec_completion(outcome: Option<GameOutcome>, final_winner: Option<GameOutcome>) -> GameCompletion {
    match (outcome, final_winner) {
        (Some(GameOutcome::Win(seat)), Some(GameOutcome::Win(final_seat))) => if seat < 2 && seat == final_seat {
            GameCompletion::Completed
        } else {
            GameCompletion::Inconsistent
        },
        (Some(GameOutcome::Tie), Some(GameOutcome::Tie)) => GameCompletion::Completed,
        (None, None) => GameCompletion::Incomplete,
        _ => GameCompletion::Inconsistent,
    }
}

pub fn completion(outcome: Option<GameOutcome>, final_winner: Option<GameOutcome>) -> (r: GameCompletion)
    ensures
        r == spec_completion(outcome, final_winner),
{
    match (outcome, final_winner) {
        (Some(GameOutcome::Win(seat)), Some(GameOutcome::Win(final_seat))) => if seat < 2 && seat == final_seat {
            GameCompletion::Completed
        } else {
            GameCompletion::Inconsistent
        },
        (Some(GameOutcome::Tie), Some(GameOutcome::Tie)) => GameCompletion::Completed,
        (None, None) => GameCompletion::Incomplete,
        _ => GameCompletion::Inconsistent,
    }
}

/// Swapping the reported outcome and the final winner never changes the verdict.
pub proof fn lemma_completion_symmetric(outcome: Option<GameOutcome>, final_winner: Option<GameOutcome>)
    ensures
        spec_completion(outcome, final_winner) == spec_completion(final_winner, outcome),
{
}

} // verus!
