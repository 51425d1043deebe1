//! How completely each card is implemented, and the rule boundaries known to be unverified.
use vstd::prelude::*;

use crate::ability_registry::{ability_mechanic_from_effect, spec_ability_mechanic_from_effect};
use crate::card_ids::CardId;
use crate::models::{Card, TrainerType};

verus! {

#[derive(Debug, Clone, Copy, PartialEq, Eq, Structural)]
pub enum ImplementationStatus {
    Complete,
    CardNotFound,
    MissingAttack,
    MissingAbility,
    MissingTrainer,
    MissingTool,
    /// Mechanics are present, but known rule boundaries still need verification.
    RulesUnverified,
}

impl ImplementationStatus {
    pub open spec fn spec_description(self) -> &'static str {
        match self {
            ImplementationStatus::Complete => "Fully implemented",
            ImplementationStatus::CardNotFound => "Card ID not found",
            ImplementationStatus::MissingAttack => "Attack effect not implemented",
            ImplementationStatus::MissingAbility => "Ability not implemented",
            ImplementationStatus::MissingTrainer => "Trainer logic not implemented",
            ImplementationStatus::MissingTool => "Tool not implemented",
            ImplementationStatus::RulesUnverified => "Implemented with unverified rule boundaries",
        }
    }

    pub fn is_complete(&self) -> (r: bool)
        ensures
            r == (*self == ImplementationStatus::Complete),
    {
        matches!(self, ImplementationStatus::Complete)
    }

    pub fn description(&self) -> (r: &'static str)
        ensures
            r == self.spec_description(),
    {
        match self {
            ImplementationStatus::Complete => "Fully implemented",
            ImplementationStatus::CardNotFound => "Card ID not found",
            ImplementationStatus::MissingAttack => "Attack effect not implemented",
            ImplementationStatus::MissingAbility => "Ability not implemented",
            ImplementationStatus::MissingTrainer => "Trainer logic not implemented",
            ImplementationStatus::MissingTool => "Tool not implemented",
            ImplementationStatus::RulesUnverified => "Implemented with unverified rule boundaries",
        }
    }
}

/// The known, printing-specific limitations of a card.
pub open spec fn spec_implementation_limitations(card_id: CardId) -> Seq<&'static str> {
    match card_id {
        CardId::B4115Revavroom => seq![
            "Owner-approved assumption, not verified in Pokémon TCG Pocket: when suppression or devolution removes Dual Customization, discard excess Tools most-recently-attached first.",
            "Owner-approved assumption, not verified in Pokémon TCG Pocket: duplicate Sitrus Berries resolve sequentially and recheck current HP after every successful heal; Heal Block leaves them attached.",
            "Owner-approved assumption, not verified in Pokémon TCG Pocket: duplicate Lum Berries resolve sequentially; the first cure removes all Special Conditions, so later copies remain attached.",
        ],
        CardId::B3025Victini | CardId::PB049Victini => seq![
            "Victory Star supports printed attack-effect coin batches; confusion and attacker-side coin gates currently bypass the reroll prompt pending Pocket rule verification.",
        ],
        CardId::B4a051Gholdengo | CardId::B4a109Gholdengo => seq![
            "Provisional engine convention, not verified in Pokémon TCG Pocket: complete Trainer coin batches are public while Luxury Coin is pending.",
            "Provisional engine convention, not verified in Pokémon TCG Pocket: the player activating Arcade or Mesagoza may use Luxury Coin regardless of who played the Stadium.",
            "Unverified Pokémon TCG Pocket boundary: Luxury Coin applies to coin batches produced by a Trainer source selected by Penny, but not to Portrait or Portrait copying Penny because those outer effects are Abilities.",
            "Initial and replacement batches with infinitely many observable face sequences are explicitly unpriced (Misty, Team Rocket Grunt, and Team Rocket's Researcher), even when the resulting damage or Energy states eventually saturate.",
        ],
        CardId::B4a018HisuianBasculegion => seq![
            "Pokémon Checkup points are attributed to the turn that just ended; whether Pocket includes between-turn Checkup in ‘during their last turn’ remains unverified.",
            "Legacy serialized states default the new turn-local point history to zero; a replay loaded midgame cannot reconstruct points from the preceding turn.",
        ],
        CardId::B4a069TeamRocketsResearcher | CardId::B4a085TeamRocketsResearcher => seq![
            "Unverified Pokémon TCG Pocket boundary: random Pokémon transferred by this effect are not capped at a 10-card hand; this inherits the engine's existing random-search transfer policy.",
            "Unverified Pokémon TCG Pocket boundary: the deck is shuffled exactly once after resolution, including zero heads or no eligible Pokémon; this inherits the engine's hidden-zone normalization policy rather than printed card text.",
        ],
        _ => Seq::empty(),
    }
}

/// Known limitations are explicit and printing-specific; an empty list certifies nothing
/// beyond dispatch coverage.
pub fn implementation_limitations(card_id: CardId) -> (r: &'static [&'static str])
    ensures
        r@ == spec_implementation_limitations(card_id),
{
    match card_id {
        CardId::B4115Revavroom => &[
            "Owner-approved assumption, not verified in Pokémon TCG Pocket: when suppression or devolution removes Dual Customization, discard excess Tools most-recently-attached first.",
            "Owner-approved assumption, not verified in Pokémon TCG Pocket: duplicate Sitrus Berries resolve sequentially and recheck current HP after every successful heal; Heal Block leaves them attached.",
            "Owner-approved assumption, not verified in Pokémon TCG Pocket: duplicate Lum Berries resolve sequentially; the first cure removes all Special Conditions, so later copies remain attached.",
        ],
        CardId::B3025Victini | CardId::PB049Victini => &[
            "Victory Star supports printed attack-effect coin batches; confusion and attacker-side coin gates currently bypass the reroll prompt pending Pocket rule verification.",
        ],
        CardId::B4a051Gholdengo | CardId::B4a109Gholdengo => &[
            "Provisional engine convention, not verified in Pokémon TCG Pocket: complete Trainer coin batches are public while Luxury Coin is pending.",
            "Provisional engine convention, not verified in Pokémon TCG Pocket: the player activating Arcade or Mesagoza may use Luxury Coin regardless of who played the Stadium.",
            "Unverified Pokémon TCG Pocket boundary: Luxury Coin applies to coin batches produced by a Trainer source selected by Penny, but not to Portrait or Portrait copying Penny because those outer effects are Abilities.",
            "Initial and replacement batches with infinitely many observable face sequences are explicitly unpriced (Misty, Team Rocket Grunt, and Team Rocket's Researcher), even when the resulting damage or Energy states eventually saturate.",
        ],
        CardId::B4a018HisuianBasculegion => &[
            "Pokémon Checkup points are attributed to the turn that just ended; whether Pocket includes between-turn Checkup in ‘during their last turn’ remains unverified.",
            "Legacy serialized states default the new turn-local point history to zero; a replay loaded midgame cannot reconstruct points from the preceding turn.",
        ],
        CardId::B4a069TeamRocketsResearcher | CardId::B4a085TeamRocketsResearcher => &[
            "Unverified Pokémon TCG Pocket boundary: random Pokémon transferred by this effect are not capped at a 10-card hand; this inherits the engine's existing random-search transfer policy.",
            "Unverified Pokémon TCG Pocket boundary: the deck is shuffled exactly once after resolution, including zero heads or no eligible Pokémon; this inherits the engine's hidden-zone normalization policy rather than printed card text.",
        ],
        _ => &[],
    }
}

/// `RulesUnverified` when the card has known limitations, `Complete` otherwise.
pub open spec fn status_after_dispatch(card_id: CardId) -> ImplementationStatus {
    if spec_implementation_limitations(card_id).len() > 0 {
        ImplementationStatus::RulesUnverified
    } else {
        ImplementationStatus::Complete
    }
}

/// The implementation status of `card`, the card printed as `card_id`. The engine's answers
/// for the parts dispatched elsewhere are given: whether every attack effect of the card has an
/// attack mechanic, whether its Tool effect is implemented, and whether its Trainer move
/// generation is.
pub open spec fn spec_implementation_status(
    card_id: CardId,
    card: Card,
    attack_effects_implemented: bool,
    tool_implemented: bool,
    trainer_moves_implemented: bool,
) -> ImplementationStatus {
    match card {
        Card::Pokemon(pokemon) => if !attack_effects_implemented {
            ImplementationStatus::MissingAttack
        } else if pokemon.ability is Some && spec_ability_mechanic_from_effect(pokemon.ability->0.effect@) is None {
            ImplementationStatus::MissingAbility
        } else {
            status_after_dispatch(card_id)
        },
        Card::Trainer(trainer) => if trainer.trainer_card_type == TrainerType::Tool && !tool_implemented {
            ImplementationStatus::MissingTool
        } else if !trainer_moves_implemented {
            ImplementationStatus::MissingTrainer
        } else {
            status_after_dispatch(card_id)
        },
        Card::Unknown => ImplementationStatus::CardNotFound,
    }
}

pub fn get_implementation_status(
    card_id: CardId,
    card: &Card,
    attack_effects_implemented: bool,
    tool_implemented: bool,
    trainer_moves_implemented: bool,
) -> (r: ImplementationStatus)
    ensures
        r == spec_implementation_status(
            card_id,
            *card,
            attack_effects_implemented,
            tool_implemented,
            trainer_moves_implemented,
        ),
{
    match card {
        Card::Pokemon(pokemon) => {
            if !attack_effects_implemented {
                return ImplementationStatus::MissingAttack;
            }
            if let Some(ability) = &pokemon.ability {
                if ability_mechanic_from_effect(ability.effect.as_str()).is_none() {
                    return ImplementationStatus::MissingAbility;
                }
            }
        },
        Card::Trainer(trainer_card) => {
            if trainer_card.trainer_card_type == TrainerType::Tool && !tool_implemented {
                return ImplementationStatus::MissingTool;
            }
            if !trainer_moves_implemented {
                return ImplementationStatus::MissingTrainer;
            }
        },
        Card::Unknown => {
            return ImplementationStatus::CardNotFound;
        },
    }
    if implementation_limitations(card_id).len() > 0 {
        return ImplementationStatus::RulesUnverified;
    }
    ImplementationStatus::Complete
}

/// A card reported complete has no known limitation, and a card with known limitations is
/// never reported complete.
pub proof fn lemma_complete_has_no_limitations(
    card_id: CardId,
    card: Card,
    attack_effects_implemented: bool,
    tool_implemented: bool,
    trainer_moves_implemented: bool,
)
    ensures
        spec_implementation_status(card_id, card, attack_effects_implemented, tool_implemented, trainer_moves_implemented)
            == ImplementationStatus::Complete ==> spec_implementation_limitations(card_id).len() == 0,
{
}

} // verus!
