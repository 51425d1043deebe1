//! Cards, in-play Pokémon and decks: the plain data every rule reads.
use vstd::prelude::*;

use crate::effects::CardEffect;
use crate::text::{seq_has_suffix, str_ends_with, str_equal};

verus! {

#[derive(Debug, Clone, Copy, PartialEq, Eq, Hash, PartialOrd, Ord, Structural)]
pub enum EnergyType {
    Grass,
    Fire,
    Water,
    Lightning,
    Psychic,
    Fighting,
    Darkness,
    Metal,
    Dragon,
    Colorless,
}

/// Position of an Energy type in the declaration order, the order `derive(Ord)` sorts by.
pub open spec fn energy_rank(e: EnergyType) -> int {
    match e {
        EnergyType::Grass => 0,
        EnergyType::Fire => 1,
        EnergyType::Water => 2,
        EnergyType::Lightning => 3,
        EnergyType::Psychic => 4,
        EnergyType::Fighting => 5,
        EnergyType::Darkness => 6,
        EnergyType::Metal => 7,
        EnergyType::Dragon => 8,
        EnergyType::Colorless => 9,
    }
}

pub fn energy_rank_of(e: EnergyType) -> (r: u8)
    ensures
        r as int == energy_rank(e),
{
    match e {
        EnergyType::Grass => 0,
        EnergyType::Fire => 1,
        EnergyType::Water => 2,
        EnergyType::Lightning => 3,
        EnergyType::Psychic => 4,
        EnergyType::Fighting => 5,
        EnergyType::Darkness => 6,
        EnergyType::Metal => 7,
        EnergyType::Dragon => 8,
        EnergyType::Colorless => 9,
    }
}

pub proof fn lemma_energy_rank_injective(a: EnergyType, b: EnergyType)
    ensures
        energy_rank(a) == energy_rank(b) <==> a == b,
{
}

#[derive(Debug, Clone, Copy, PartialEq, Eq, Hash, Structural)]
pub enum StatusCondition {
    Asleep,
    Burned,
    Confused,
    Paralyzed,
    Poisoned,
}

#[derive(Debug, Clone, PartialEq, Eq, Hash)]
pub struct Attack {
    pub energy_required: Vec<EnergyType>,
    pub title: String,
    pub fixed_damage: u32,
    pub effect: Option<String>,
}

#[derive(Debug, Clone, PartialEq, Eq, Hash)]
pub struct Ability {
    pub title: String,
    pub effect: String,
}

#[derive(Debug, Clone, PartialEq, Eq, Hash)]
pub struct PokemonCard {
    pub id: String,
    pub name: String,
    /// 0 for Basic, 1 for Stage 1, 2 for Stage 2.
    pub stage: u8,
    pub evolves_from: Option<String>,
    pub hp: u32,
    pub energy_type: EnergyType,
    pub ability: Option<Ability>,
    pub attacks: Vec<Attack>,
    pub weakness: Option<EnergyType>,
    pub retreat_cost: Vec<EnergyType>,
}

#[derive(Debug, Clone, Copy, PartialEq, Eq, Hash, Structural)]
pub enum TrainerType {
    Supporter,
    Item,
    Tool,
    Fossil,
    Stadium,
}

#[derive(Debug, Clone, PartialEq, Eq, Hash)]
pub struct TrainerCard {
    pub id: String,
    pub name: String,
    pub effect: String,
    pub trainer_card_type: TrainerType,
}

#[derive(Debug, Clone, PartialEq, Eq, Hash)]
pub enum Card {
    Pokemon(PokemonCard),
    Trainer(TrainerCard),
    /// A card whose identity the observer cannot see.
    Unknown,
}

impl Card {
    pub open spec fn spec_id(&self) -> Seq<char> {
        match self {
            Card::Pokemon(p) => p.id@,
            Card::Trainer(t) => t.id@,
            Card::Unknown => Seq::empty(),
        }
    }

    pub open spec fn spec_name(&self) -> Seq<char> {
        match self {
            Card::Pokemon(p) => p.name@,
            Card::Trainer(t) => t.name@,
            Card::Unknown => Seq::empty(),
        }
    }

    /// A Basic Pokémon, or a Fossil, which is played as a Basic Pokémon.
    pub open spec fn spec_is_basic(&self) -> bool {
        match self {
            Card::Pokemon(p) => p.stage == 0,
            Card::Trainer(t) => t.trainer_card_type == TrainerType::Fossil,
            Card::Unknown => false,
        }
    }

    pub open spec fn spec_is_fossil(&self) -> bool {
        match self {
            Card::Trainer(t) => t.trainer_card_type == TrainerType::Fossil,
            _ => false,
        }
    }

    /// A Pokémon ex: its name ends in " ex".
    pub open spec fn spec_is_ex(&self) -> bool {
        match self {
            Card::Pokemon(p) => seq_has_suffix(p.name@, " ex"@),
            _ => false,
        }
    }

    pub open spec fn spec_ability(&self) -> Option<Ability> {
        match self {
            Card::Pokemon(p) => p.ability,
            _ => None,
        }
    }

    pub open spec fn spec_type(&self) -> Option<EnergyType> {
        match self {
            Card::Pokemon(p) => Some(p.energy_type),
            _ => None,
        }
    }

    pub open spec fn spec_attacks(&self) -> Seq<Attack> {
        match self {
            Card::Pokemon(p) => p.attacks@,
            _ => Seq::empty(),
        }
    }

    pub open spec fn spec_is_tool(&self) -> bool {
        match self {
            Card::Trainer(t) => t.trainer_card_type == TrainerType::Tool,
            _ => false,
        }
    }

    pub fn get_id(&self) -> (r: String)
        ensures
            r@ == self.spec_id(),
    {
        match self {
            Card::Pokemon(p) => p.id.clone(),
            Card::Trainer(t) => t.id.clone(),
            Card::Unknown => String::new(),
        }
    }

    pub fn get_name(&self) -> (r: String)
        ensures
            r@ == self.spec_name(),
    {
        match self {
            Card::Pokemon(p) => p.name.clone(),
            Card::Trainer(t) => t.name.clone(),
            Card::Unknown => String::new(),
        }
    }

    pub fn is_basic(&self) -> (r: bool)
        ensures
            r == self.spec_is_basic(),
    {
        match self {
            Card::Pokemon(p) => p.stage == 0,
            Card::Trainer(t) => t.trainer_card_type == TrainerType::Fossil,
            Card::Unknown => false,
        }
    }

    pub fn is_fossil(&self) -> (r: bool)
        ensures
            r == self.spec_is_fossil(),
    {
        match self {
            Card::Trainer(t) => t.trainer_card_type == TrainerType::Fossil,
            _ => false,
        }
    }

    pub fn is_ex(&self) -> (r: bool)
        ensures
            r == self.spec_is_ex(),
    {
        match self {
            Card::Pokemon(p) => str_ends_with(p.name.as_str(), " ex"),
            _ => false,
        }
    }

    pub fn is_tool(&self) -> (r: bool)
        ensures
            r == self.spec_is_tool(),
    {
        match self {
            Card::Trainer(t) => t.trainer_card_type == TrainerType::Tool,
            _ => false,
        }
    }

    pub fn get_ability(&self) -> (r: Option<&Ability>)
        ensures
            r matches Some(a) ==> self.spec_ability() == Some(*a),
            r is None <==> self.spec_ability() is None,
    {
        match self {
            Card::Pokemon(p) => match &p.ability {
                Some(a) => Some(a),
                None => None,
            },
            _ => None,
        }
    }

    pub fn get_type(&self) -> (r: Option<EnergyType>)
        ensures
            r == self.spec_type(),
    {
        match self {
            Card::Pokemon(p) => Some(p.energy_type),
            _ => None,
        }
    }

    pub fn get_attacks(&self) -> (r: &[Attack])
        ensures
            r@ == self.spec_attacks(),
    {
        match self {
            Card::Pokemon(p) => p.attacks.as_slice(),
            _ => &[],
        }
    }

    /// Whether this card's printed id is `code`.
    pub fn has_id(&self, code: &str) -> (r: bool)
        ensures
            r == (self.spec_id() == code@),
    {
        match self {
            Card::Pokemon(p) => str_equal(p.id.as_str(), code),
            Card::Trainer(t) => str_equal(t.id.as_str(), code),
            Card::Unknown => {
                let n = code.unicode_len();
                proof {
                    if n == 0 {
                        assert(code@ =~= Seq::<char>::empty());
                    }
                }
                n == 0
            },
        }
    }
}

/// A deck: its cards, top first, and the Energy types its Energy Zone produces.
#[derive(Debug, Clone, PartialEq, Eq, Hash, Default)]
pub struct Deck {
    pub cards: Vec<Card>,
    pub energy_types: Vec<EnergyType>,
}

/// A Pokémon (or Fossil) in play, with everything attached to it.
#[derive(Debug, Clone, PartialEq, Eq, Hash)]
pub struct PlayedCard {
    pub card: Card,
    pub remaining_hp: u32,
    /// Total HP including bonuses currently in force.
    pub total_hp: u32,
    pub attached_energy: Vec<EnergyType>,
    pub attached_tools: Vec<Card>,
    pub played_this_turn: bool,
    pub ability_used: bool,
    pub poisoned: bool,
    pub paralyzed: bool,
    pub asleep: bool,
    pub burned: bool,
    pub confused: bool,
    /// The cards under this one, from the Basic up to the previous Stage.
    pub cards_behind: Vec<Card>,
    /// Stored effects with the number of turns each lasts.
    pub effects: Vec<(CardEffect, u8)>,
    pub moved_to_active_this_turn: bool,
}

impl PlayedCard {
    pub open spec fn spec_name(&self) -> Seq<char> {
        self.card.spec_name()
    }

    pub open spec fn spec_is_damaged(&self) -> bool {
        self.remaining_hp < self.total_hp
    }

    pub open spec fn spec_damage_counters(&self) -> int {
        if self.remaining_hp < self.total_hp {
            self.total_hp - self.remaining_hp
        } else {
            0
        }
    }

    /// The effects stored on this Pokémon, without their durations.
    pub open spec fn spec_active_effects(&self) -> Seq<CardEffect> {
        self.effects@.map_values(|e: (CardEffect, u8)| e.0)
    }

    pub open spec fn spec_has_no_abilities_effect(&self) -> bool {
        exists|i: int| 0 <= i < self.effects@.len() && self.effects@[i].0 is NoAbilities
    }

    pub open spec fn spec_has_no_retreat_effect(&self) -> bool {
        exists|i: int| 0 <= i < self.effects@.len() && self.effects@[i].0 is NoRetreat
    }

    pub open spec fn spec_has_cannot_attack_effect(&self) -> bool {
        exists|i: int| 0 <= i < self.effects@.len() && self.effects@[i].0 is CannotAttack
    }

    pub open spec fn spec_has_any_status(&self) -> bool {
        self.poisoned || self.paralyzed || self.asleep || self.burned || self.confused
    }

    pub fn get_name(&self) -> (r: String)
        ensures
            r@ == self.spec_name(),
    {
        self.card.get_name()
    }

    pub fn name_is(&self, name: &str) -> (r: bool)
        ensures
            r == (self.spec_name() == name@),
    {
        let n = self.card.get_name();
        str_equal(n.as_str(), name)
    }

    pub fn is_damaged(&self) -> (r: bool)
        ensures
            r == self.spec_is_damaged(),
    {
        self.remaining_hp < self.total_hp
    }

    pub fn get_remaining_hp(&self) -> (r: u32)
        ensures
            r == self.remaining_hp,
    {
        self.remaining_hp
    }

    pub fn get_effective_total_hp(&self) -> (r: u32)
        ensures
            r == self.total_hp,
    {
        self.total_hp
    }

    /// Damage on this Pokémon, in HP.
    pub fn get_damage_counters(&self) -> (r: u32)
        ensures
            r == self.spec_damage_counters(),
    {
        self.total_hp.saturating_sub(self.remaining_hp)
    }

    pub fn is_asleep(&self) -> (r: bool)
        ensures
            r == self.asleep,
    {
        self.asleep
    }

    pub fn is_paralyzed(&self) -> (r: bool)
        ensures
            r == self.paralyzed,
    {
        self.paralyzed
    }

    pub fn is_confused(&self) -> (r: bool)
        ensures
            r == self.confused,
    {
        self.confused
    }

    pub fn is_poisoned(&self) -> (r: bool)
        ensures
            r == self.poisoned,
    {
        self.poisoned
    }

    pub fn is_burned(&self) -> (r: bool)
        ensures
            r == self.burned,
    {
        self.burned
    }

    pub fn is_fossil(&self) -> (r: bool)
        ensures
            r == self.card.spec_is_fossil(),
    {
        self.card.is_fossil()
    }

    pub fn has_tool_attached(&self) -> (r: bool)
        ensures
            r == (self.attached_tools@.len() > 0),
    {
        self.attached_tools.len() > 0
    }

    pub fn get_energy_type(&self) -> (r: Option<EnergyType>)
        ensures
            r == self.card.spec_type(),
    {
        self.card.get_type()
    }

    pub fn has_energy(&self, energy: EnergyType) -> (r: bool)
        ensures
            r == self.attached_energy@.contains(energy),
    {
        let n = self.attached_energy.len();
        for i in 0..n
            invariant
                n == self.attached_energy@.len(),
                forall|j: int| 0 <= j < i ==> self.attached_energy@[j] != energy,
        {
            if self.attached_energy[i] == energy {
                return true;
            }
        }
        false
    }

    /// Whether a `NoAbilities` effect is stored on this Pokémon.
    pub fn has_no_abilities_effect(&self) -> (r: bool)
        ensures
            r == self.spec_has_no_abilities_effect(),
    {
        let n = self.effects.len();
        for i in 0..n
            invariant
                n == self.effects@.len(),
                forall|j: int| 0 <= j < i ==> !(self.effects@[j].0 is NoAbilities),
        {
            if matches!(self.effects[i].0, CardEffect::NoAbilities) {
                return true;
            }
        }
        false
    }

    /// Whether a `NoRetreat` effect is stored on this Pokémon.
    pub fn has_no_retreat_effect(&self) -> (r: bool)
        ensures
            r == self.spec_has_no_retreat_effect(),
    {
        let n = self.effects.len();
        for i in 0..n
            invariant
                n == self.effects@.len(),
                forall|j: int| 0 <= j < i ==> !(self.effects@[j].0 is NoRetreat),
        {
            if matches!(self.effects[i].0, CardEffect::NoRetreat) {
                return true;
            }
        }
        false
    }
}

/// The HP a card has when it enters play: a Pokémon's printed HP, 40 for a Fossil.
pub open spec fn spec_entering_hp(card: Card) -> u32 {
    match card {
        Card::Pokemon(p) => p.hp,
        Card::Trainer(_) => 40,
        Card::Unknown => 0,
    }
}

/// A Pokémon as it enters play from `card`: full HP, nothing attached, no effects.
pub fn to_playable_card(card: &Card, played_this_turn: bool) -> (r: PlayedCard)
    ensures
        cloned(*card, r.card),
        r.remaining_hp == spec_entering_hp(*card),
        r.total_hp == spec_entering_hp(*card),
        r.attached_energy@.len() == 0,
        r.attached_tools@.len() == 0,
        r.played_this_turn == played_this_turn,
        !r.ability_used,
        !r.spec_has_any_status(),
        r.cards_behind@.len() == 0,
        r.effects@.len() == 0,
        !r.moved_to_active_this_turn,
{
    let hp: u32 = match card {
        Card::Pokemon(p) => p.hp,
        Card::Trainer(_) => 40,
        Card::Unknown => 0,
    };
    PlayedCard {
        card: card.clone(),
        remaining_hp: hp,
        total_hp: hp,
        attached_energy: Vec::new(),
        attached_tools: Vec::new(),
        played_this_turn,
        ability_used: false,
        poisoned: false,
        paralyzed: false,
        asleep: false,
        burned: false,
        confused: false,
        cards_behind: Vec::new(),
        effects: Vec::new(),
        moved_to_active_this_turn: false,
    }
}

/// Whether `list` holds an Energy of type `energy`.
pub fn energy_list_contains(list: &[EnergyType], energy: EnergyType) -> (r: bool)
    ensures
        r == list@.contains(energy),
{
    let n = list.len();
    for i in 0..n
        invariant
            n == list@.len(),
            forall|j: int| 0 <= j < i ==> list@[j] != energy,
    {
        if list[i] == energy {
            proof {
                assert(list@[i as int] == energy);
            }
            return true;
        }
    }
    false
}

} // verus!
