//! Bounded certificates for an opponent's immediate attack win: why a position is outside the
//! audited boundary, the provenance that keeps a search line public, and the board hooks the
//! certificate admits.
use vstd::prelude::*;

use crate::abilities::AbilityMechanic;
use crate::ability_lookup::{get_ability_mechanic, spec_get_ability_mechanic};
use crate::actions::{Action, SimpleAction};
use crate::attack_mechanics::Mechanic;
use crate::card_ids::{spec_card_id_from_code, CardId};
use crate::effects::CardEffect;
use crate::models::{Attack, Card, EnergyType, PlayedCard, TrainerType};
use crate::state::State;
use crate::text::str_equal;

verus! {

/// Why a public reply was not eligible for proof-producing evaluation.
#[derive(Debug, Clone, Copy, PartialEq, Eq, Structural)]
pub enum UnsupportedReason {
    UntrustedState,
    InvalidObserver,
    InvalidProvenance,
    SetupConcealed,
    TerminalState,
    WrongActor,
    PrivateChoice,
    HiddenIdentity,
    HiddenOrder,
    UnsupportedForcedTransition,
    UnsupportedPrefixAction,
    UnsupportedAttackMechanic,
    UnsupportedHook,
    InvalidProbability,
    NonterminalPositiveBranch,
    UnresolvedContinuation,
}

impl UnsupportedReason {
    pub open spec fn spec_unpriced_reason(self) -> &'static str {
        match self {
            UnsupportedReason::UntrustedState => "public reply certificate refused an untrusted raw state",
            UnsupportedReason::InvalidObserver => "public reply certificate observer is invalid",
            UnsupportedReason::InvalidProvenance => "public reply certificate lost transition provenance",
            UnsupportedReason::SetupConcealed => "public reply certificate cannot inspect concealed setup",
            UnsupportedReason::TerminalState => "public reply certificate received a terminal state",
            UnsupportedReason::WrongActor => "public reply certificate is not at the opponent's turn",
            UnsupportedReason::PrivateChoice => "public reply certificate encountered a private choice",
            UnsupportedReason::HiddenIdentity => "public reply certificate depends on a hidden card identity",
            UnsupportedReason::HiddenOrder => "public reply certificate depends on an unobserved card order",
            UnsupportedReason::UnsupportedForcedTransition => "public reply certificate encountered an unsupported forced transition",
            UnsupportedReason::UnsupportedPrefixAction => "public reply certificate encountered an unsupported prefix action",
            UnsupportedReason::UnsupportedAttackMechanic => "public reply attack mechanic is outside the audited certificate registry",
            UnsupportedReason::UnsupportedHook => "public reply board contains a hook outside the audited certificate registry",
            UnsupportedReason::InvalidProbability => "public reply certificate produced an invalid probability distribution",
            UnsupportedReason::NonterminalPositiveBranch => "public reply attack has a positive-probability nonwinning branch",
            UnsupportedReason::UnresolvedContinuation => "public reply attack leaves an unresolved continuation",
        }
    }

    /// Stable text for the search's unpriced-branch recorder.
    pub fn unpriced_reason(self) -> (r: &'static str)
        ensures
            r == self.spec_unpriced_reason(),
    {
        match self {
            UnsupportedReason::UntrustedState => "public reply certificate refused an untrusted raw state",
            UnsupportedReason::InvalidObserver => "public reply certificate observer is invalid",
            UnsupportedReason::InvalidProvenance => "public reply certificate lost transition provenance",
            UnsupportedReason::SetupConcealed => "public reply certificate cannot inspect concealed setup",
            UnsupportedReason::TerminalState => "public reply certificate received a terminal state",
            UnsupportedReason::WrongActor => "public reply certificate is not at the opponent's turn",
            UnsupportedReason::PrivateChoice => "public reply certificate encountered a private choice",
            UnsupportedReason::HiddenIdentity => "public reply certificate depends on a hidden card identity",
            UnsupportedReason::HiddenOrder => "public reply certificate depends on an unobserved card order",
            UnsupportedReason::UnsupportedForcedTransition => "public reply certificate encountered an unsupported forced transition",
            UnsupportedReason::UnsupportedPrefixAction => "public reply certificate encountered an unsupported prefix action",
            UnsupportedReason::UnsupportedAttackMechanic => "public reply attack mechanic is outside the audited certificate registry",
            UnsupportedReason::UnsupportedHook => "public reply board contains a hook outside the audited certificate registry",
            UnsupportedReason::InvalidProbability => "public reply certificate produced an invalid probability distribution",
            UnsupportedReason::NonterminalPositiveBranch => "public reply attack has a positive-probability nonwinning branch",
            UnsupportedReason::UnresolvedContinuation => "public reply attack leaves an unresolved continuation",
        }
    }
}

/// A legal attack that was inspected but could not supply a terminal certificate.
#[derive(Debug, Clone, PartialEq)]
pub struct UnsupportedAction {
    pub action: Action,
    pub reason: UnsupportedReason,
}

/// Proof provenance carried beside the sampled search state: the observing player, and the
/// reason the line stopped being public, if it did.
#[derive(Debug, Clone, Copy, PartialEq, Eq, Structural)]
pub struct PublicReplyProvenance {
    pub observer: Option<usize>,
    pub invalid_reason: Option<UnsupportedReason>,
}

impl PublicReplyProvenance {
    pub open spec fn spec_is_valid(self) -> bool {
        self.invalid_reason is None && self.observer is Some
    }

    /// The provenance of an observation made by `actor`; only a seat can observe.
    pub fn from_observation(actor: usize) -> (r: PublicReplyProvenance)
        ensures
            actor < 2 ==> r == (PublicReplyProvenance { observer: Some(actor), invalid_reason: None }),
            actor >= 2 ==> r == (PublicReplyProvenance {
                observer: None,
                invalid_reason: Some(UnsupportedReason::InvalidObserver),
            }),
    {
        if actor < 2 {
            PublicReplyProvenance { observer: Some(actor), invalid_reason: None }
        } else {
            PublicReplyProvenance { observer: None, invalid_reason: Some(UnsupportedReason::InvalidObserver) }
        }
    }

    /// Raw omniscient or reconstructed states have no public transition provenance.
    pub fn untrusted() -> (r: PublicReplyProvenance)
        ensures
            r == (PublicReplyProvenance { observer: None, invalid_reason: Some(UnsupportedReason::UntrustedState) }),
    {
        PublicReplyProvenance { observer: None, invalid_reason: Some(UnsupportedReason::UntrustedState) }
    }

    pub fn is_valid(self) -> (r: bool)
        ensures
            r == self.spec_is_valid(),
    {
        self.invalid_reason.is_none() && self.observer.is_some()
    }

    pub open spec fn spec_advance(self, admission: Result<(), UnsupportedReason>) -> PublicReplyProvenance {
        if !self.spec_is_valid() {
            self
        } else {
            match admission {
                Ok(()) => self,
                Err(reason) => PublicReplyProvenance { observer: self.observer, invalid_reason: Some(reason) },
            }
        }
    }

    /// Record one chosen search transition, given whether it was admitted as preserving the
    /// public projection the reply proof needs.
    pub fn advance(self, admission: Result<(), UnsupportedReason>) -> (r: PublicReplyProvenance)
        ensures
            r == self.spec_advance(admission),
    {
        if !self.is_valid() {
            return self;
        }
        match admission {
            Ok(()) => self,
            Err(reason) => PublicReplyProvenance { observer: self.observer, invalid_reason: Some(reason) },
        }
    }
}

/// Provenance never comes back: once a line is invalid, no later transition, admitted or not,
/// makes it valid again, and its reason is kept.
pub proof fn lemma_invalid_provenance_stays_invalid(
    provenance: PublicReplyProvenance,
    admission: Result<(), UnsupportedReason>,
)
    requires
        !provenance.spec_is_valid(),
    ensures
        provenance.spec_advance(admission) == provenance,
        !provenance.spec_advance(admission).spec_is_valid(),
{
}

/// A valid line stays valid exactly while its transitions are admitted.
pub proof fn lemma_valid_provenance_follows_admission(
    provenance: PublicReplyProvenance,
    admission: Result<(), UnsupportedReason>,
)
    requires
        provenance.spec_is_valid(),
    ensures
        provenance.spec_advance(admission).spec_is_valid() <==> admission is Ok,
{
}

/// The Giant Cape printing the certificate registry knows: a Tool with exactly its effect text.
pub open spec fn spec_is_canonical_giant_cape(card: Card) -> bool {
    match card {
        Card::Trainer(tool) => tool.trainer_card_type == TrainerType::Tool && tool.effect@
            == "The Pokémon this card is attached to gets +20 HP."@ && {
            let id = spec_card_id_from_code(tool.id@);
            id == Some(CardId::A2147GiantCape) || id == Some(CardId::A4b320GiantCape) || id == Some(
                CardId::A4b321GiantCape,
            )
        },
        _ => false,
    }
}

pub fn is_canonical_giant_cape(card: &Card) -> (r: bool)
    ensures
        r == spec_is_canonical_giant_cape(*card),
{
    match card {
        Card::Trainer(tool) => tool.trainer_card_type == TrainerType::Tool && str_equal(
            tool.effect.as_str(),
            "The Pokémon this card is attached to gets +20 HP.",
        ) && match CardId::from_card_id(tool.id.as_str()) {
            Some(CardId::A2147GiantCape) | Some(CardId::A4b320GiantCape) | Some(CardId::A4b321GiantCape) => true,
            _ => false,
        },
        _ => false,
    }
}

/// The attack shapes whose result the certificate can resolve exactly.
#[derive(Debug, Clone)]
pub enum CertifiedAttackKind {
    FixedDamage,
    TypedSelfDiscard(Vec<EnergyType>),
    HitAndHide,
    SelfCounterattack { amount: u32 },
}

/// The certified shape of an attack: no effect text is plain fixed damage; otherwise `mechanic`,
/// the attack mechanic its effect text maps to, must be one of the audited shapes.
pub open spec fn spec_certified_attack_kind(attack: Attack, mechanic: Option<Mechanic>) -> Result<
    CertifiedAttackKind,
    UnsupportedReason,
> {
    match attack.effect {
        None => Ok(CertifiedAttackKind::FixedDamage),
        Some(_) => match mechanic {
            Some(Mechanic::DamageAndCardEffect { opponent, effect, duration, coin_flip }) => if !opponent && duration
                == 1 && coin_flip && effect == CardEffect::PreventAllDamageAndEffects {
                Ok(CertifiedAttackKind::HitAndHide)
            } else if !opponent && duration == 1 && !coin_flip && effect is Counterattack {
                Ok(CertifiedAttackKind::SelfCounterattack { amount: effect->Counterattack_amount })
            } else {
                Err(UnsupportedReason::UnsupportedAttackMechanic)
            },
            _ => Err(UnsupportedReason::UnsupportedAttackMechanic),
        },
    }
}

/// [`spec_certified_attack_kind`], where a self-discard's Energy list is compared by view.
pub open spec fn certified_kind_matches(
    r: Result<CertifiedAttackKind, UnsupportedReason>,
    attack: Attack,
    mechanic: Option<Mechanic>,
) -> bool {
    match (attack.effect, mechanic) {
        (Some(_), Some(Mechanic::SelfDiscardEnergy { energies })) => r matches Ok(
            CertifiedAttackKind::TypedSelfDiscard(v),
        ) && v@ == energies@,
        _ => r == spec_certified_attack_kind(attack, mechanic),
    }
}

pub fn certified_attack_kind(attack: &Attack, mechanic: Option<&Mechanic>) -> (r: Result<
    CertifiedAttackKind,
    UnsupportedReason,
>)
    ensures
        certified_kind_matches(
            r,
            *attack,
            match mechanic {
                Some(m) => Some(*m),
                None => None,
            },
        ),
{
    if attack.effect.is_none() {
        return Ok(CertifiedAttackKind::FixedDamage);
    }
    match mechanic {
        Some(Mechanic::SelfDiscardEnergy { energies }) => {
            let copy = energies.clone();
            proof {
                assert(copy@ =~= energies@);
            }
            Ok(CertifiedAttackKind::TypedSelfDiscard(copy))
        },
        Some(Mechanic::DamageAndCardEffect { opponent, effect, duration, coin_flip }) => {
            if !*opponent && *duration == 1 && *coin_flip && matches!(effect, CardEffect::PreventAllDamageAndEffects) {
                Ok(CertifiedAttackKind::HitAndHide)
            } else if !*opponent && *duration == 1 && !*coin_flip {
                match effect {
                    CardEffect::Counterattack { amount } => Ok(CertifiedAttackKind::SelfCounterattack { amount: *amount }),
                    _ => Err(UnsupportedReason::UnsupportedAttackMechanic),
                }
            } else {
                Err(UnsupportedReason::UnsupportedAttackMechanic)
            }
        },
        _ => Err(UnsupportedReason::UnsupportedAttackMechanic),
    }
}

pub open spec fn any_unknown(cards: Seq<Card>) -> bool {
    exists|k: int| 0 <= k < cards.len() && #[trigger] cards[k] is Unknown
}

/// Printings whose passive effects the certificate registry does not model.
pub open spec fn refused_printing(id: Option<CardId>) -> bool {
    match id {
        Some(id) => id == CardId::A1061Poliwrath || id == CardId::A1a056Druddigon || id == CardId::A2b028Pawmot || id
            == CardId::A3a052Ferrothorn || id == CardId::A4a065Zangoose || id == CardId::B1297Poliwrath || id
            == CardId::PA054Pawmot || id == CardId::B1160DragalgeEx || id == CardId::B1263DragalgeEx || id
            == CardId::B1281DragalgeEx || id == CardId::B3231DragalgeEx,
        None => false,
    }
}

/// A Pokémon in play is knocked out when it has no HP left.
pub open spec fn is_knocked_out(p: PlayedCard) -> bool {
    p.remaining_hp == 0
}

/// Some card on the Pokémon, or the Pokémon itself, is hidden.
pub open spec fn has_hidden_card(p: PlayedCard) -> bool {
    p.card is Unknown || any_unknown(p.cards_behind@) || any_unknown(p.attached_tools@)
}

/// Some attached Tool is not the canonical Giant Cape.
pub open spec fn has_unregistered_tool(p: PlayedCard) -> bool {
    exists|k: int| 0 <= k < p.attached_tools@.len() && !spec_is_canonical_giant_cape(#[trigger] p.attached_tools@[k])
}

/// Some stored effect is other than full protection.
pub open spec fn has_unregistered_effect(p: PlayedCard) -> bool {
    exists|k: int| 0 <= k < p.effects@.len() && !((#[trigger] p.effects@[k]).0 is PreventAllDamageAndEffects)
}

/// The Pokémon has an Ability other than Spy Ops.
pub open spec fn has_unregistered_ability(p: PlayedCard) -> bool {
    p.card.spec_ability() is Some && spec_get_ability_mechanic(p.card) != Some(AbilityMechanic::RevealRandomOpponentHandCard)
}

/// Why the certificate cannot admit this Pokémon in play, if it cannot: a hidden card on it, a
/// Tool other than the canonical Giant Cape, a Special Condition or knock out, a refused
/// printing, a stored effect other than full protection, or an Ability other than Spy Ops.
#[verifier::opaque]
pub open spec fn pokemon_hook_refusal(p: PlayedCard) -> Option<UnsupportedReason> {
    if has_hidden_card(p) {
        Some(UnsupportedReason::HiddenIdentity)
    } else if has_unregistered_tool(p) {
        Some(UnsupportedReason::UnsupportedHook)
    } else if p.spec_has_any_status() || is_knocked_out(p) {
        Some(UnsupportedReason::UnsupportedHook)
    } else if refused_printing(spec_card_id_from_code(p.card.spec_id())) {
        Some(UnsupportedReason::UnsupportedHook)
    } else if has_unregistered_effect(p) {
        Some(UnsupportedReason::UnsupportedHook)
    } else if has_unregistered_ability(p) {
        Some(UnsupportedReason::UnsupportedHook)
    } else {
        None
    }
}

fn any_unknown_card(cards: &Vec<Card>) -> (r: bool)
    ensures
        r == any_unknown(cards@),
{
    let n = cards.len();
    for k in 0..n
        invariant
            n == cards@.len(),
            forall|j: int| 0 <= j < k ==> !(#[trigger] cards@[j] is Unknown),
    {
        if matches!(&cards[k], Card::Unknown) {
            proof {
                assert(cards@[k as int] is Unknown);
            }
            return true;
        }
    }
    false
}

fn unregistered_tool(p: &PlayedCard) -> (r: bool)
    ensures
        r == has_unregistered_tool(*p),
{
    let n = p.attached_tools.len();
    for k in 0..n
        invariant
            n == p.attached_tools@.len(),
            forall|j: int| 0 <= j < k ==> spec_is_canonical_giant_cape(#[trigger] p.attached_tools@[j]),
    {
        if !is_canonical_giant_cape(&p.attached_tools[k]) {
            proof {
                assert(!spec_is_canonical_giant_cape(p.attached_tools@[k as int]));
            }
            return true;
        }
    }
    false
}

fn unregistered_effect(p: &PlayedCard) -> (r: bool)
    ensures
        r == has_unregistered_effect(*p),
{
    let m = p.effects.len();
    for k in 0..m
        invariant
            m == p.effects@.len(),
            forall|j: int| 0 <= j < k ==> (#[trigger] p.effects@[j]).0 is PreventAllDamageAndEffects,
    {
        if !matches!(&p.effects[k].0, CardEffect::PreventAllDamageAndEffects) {
            proof {
                assert(!(p.effects@[k as int].0 is PreventAllDamageAndEffects));
            }
            return true;
        }
    }
    false
}

fn refused_printing_check(p: &PlayedCard) -> (r: bool)
    ensures
        r == refused_printing(spec_card_id_from_code(p.card.spec_id())),
{
    let id = p.card.get_id();
    match CardId::from_card_id(id.as_str()) {
        Some(CardId::A1061Poliwrath) | Some(CardId::A1a056Druddigon) | Some(CardId::A2b028Pawmot) | Some(
            CardId::A3a052Ferrothorn,
        ) | Some(CardId::A4a065Zangoose) | Some(CardId::B1297Poliwrath) | Some(CardId::PA054Pawmot) | Some(
            CardId::B1160DragalgeEx,
        ) | Some(CardId::B1263DragalgeEx) | Some(CardId::B1281DragalgeEx) | Some(CardId::B3231DragalgeEx) => true,
        _ => false,
    }
}

fn unregistered_ability(p: &PlayedCard) -> (r: bool)
    ensures
        r == has_unregistered_ability(*p),
{
    p.card.get_ability().is_some() && !matches!(
        get_ability_mechanic(&p.card),
        Some(AbilityMechanic::RevealRandomOpponentHandCard)
    )
}

fn pokemon_hook_check(p: &PlayedCard) -> (r: Option<UnsupportedReason>)
    ensures
        r == pokemon_hook_refusal(*p),
{
    reveal(pokemon_hook_refusal);
    if matches!(&p.card, Card::Unknown) || any_unknown_card(&p.cards_behind) || any_unknown_card(&p.attached_tools) {
        Some(UnsupportedReason::HiddenIdentity)
    } else if unregistered_tool(p) {
        Some(UnsupportedReason::UnsupportedHook)
    } else if p.poisoned || p.paralyzed || p.asleep || p.burned || p.confused || p.remaining_hp == 0 {
        Some(UnsupportedReason::UnsupportedHook)
    } else if refused_printing_check(p) {
        Some(UnsupportedReason::UnsupportedHook)
    } else if unregistered_effect(p) {
        Some(UnsupportedReason::UnsupportedHook)
    } else if unregistered_ability(p) {
        Some(UnsupportedReason::UnsupportedHook)
    } else {
        None
    }
}

/// The first refusal among the Pokémon in play at board positions `t..8`, player 0's slots
/// before player 1's.
pub open spec fn first_board_refusal(state: State, t: int) -> Option<UnsupportedReason>
    decreases 8 - t,
{
    if t >= 8 || t < 0 {
        None
    } else {
        match state.in_play_pokemon[t / 4][t % 4] {
            Some(p) => match pokemon_hook_refusal(p) {
                Some(reason) => Some(reason),
                None => first_board_refusal(state, t + 1),
            },
            None => first_board_refusal(state, t + 1),
        }
    }
}

/// Refreshing HP bonuses changed nothing: the same slots are occupied and each Pokémon keeps its
/// effective total HP.
pub open spec fn hp_unchanged(state: State, refreshed: State) -> bool {
    forall|p: int, i: int|
        0 <= p < 2 && 0 <= i < 4 ==> #[trigger] slot_hp_unchanged(state.in_play_pokemon[p][i], refreshed.in_play_pokemon[p][i])
}

pub open spec fn slot_hp_unchanged(a: Option<PlayedCard>, b: Option<PlayedCard>) -> bool {
    match (a, b) {
        (Some(x), Some(y)) => x.total_hp == y.total_hp,
        (None, None) => true,
        _ => false,
    }
}

/// The closed hook registry: no Stadium, both Active Spots filled, nobody at 3 points, every
/// Pokémon in play admitted, and HP bonuses already up to date (`refreshed` is `state` after
/// recomputing them).
pub open spec fn spec_common_board_hooks_admitted(state: State, refreshed: State) -> Result<(), UnsupportedReason> {
    if state.active_stadium is Some {
        Err(UnsupportedReason::UnsupportedHook)
    } else if state.in_play_pokemon[0][0] is None || state.in_play_pokemon[1][0] is None {
        Err(UnsupportedReason::UnsupportedHook)
    } else if state.points[0] >= 3 || state.points[1] >= 3 {
        Err(UnsupportedReason::TerminalState)
    } else {
        match first_board_refusal(state, 0) {
            Some(reason) => Err(reason),
            None => if hp_unchanged(state, refreshed) {
                Ok(())
            } else {
                Err(UnsupportedReason::UnsupportedHook)
            },
        }
    }
}

fn board_hp_unchanged(state: &State, refreshed: &State) -> (r: bool)
    ensures
        r == hp_unchanged(*state, *refreshed),
{
    let mut t: usize = 0;
    while t < 8
        invariant
            t <= 8,
            forall|u: int|
                0 <= u < t ==> #[trigger] slot_hp_unchanged(
                    state.in_play_pokemon[u / 4][u % 4],
                    refreshed.in_play_pokemon[u / 4][u % 4],
                ),
        decreases 8 - t,
    {
        let p = t / 4;
        let i = t % 4;
        let same = match (&state.in_play_pokemon[p][i], &refreshed.in_play_pokemon[p][i]) {
            (Some(a), Some(b)) => a.get_effective_total_hp() == b.get_effective_total_hp(),
            (None, None) => true,
            _ => false,
        };
        if !same {
            proof {
                assert(!slot_hp_unchanged(state.in_play_pokemon[p as int][i as int], refreshed.in_play_pokemon[p as int][i as int]));
            }
            return false;
        }
        t += 1;
    }
    proof {
        assert forall|p: int, i: int| 0 <= p < 2 && 0 <= i < 4 implies #[trigger] slot_hp_unchanged(
            state.in_play_pokemon[p][i],
            refreshed.in_play_pokemon[p][i],
        ) by {
            let u = p * 4 + i;
            assert(u / 4 == p && u % 4 == i);
            assert(slot_hp_unchanged(state.in_play_pokemon[u / 4][u % 4], refreshed.in_play_pokemon[u / 4][u % 4]));
        }
    }
    true
}

pub fn common_board_hooks_admitted(state: &State, refreshed: &State) -> (r: Result<(), UnsupportedReason>)
    ensures
        r == spec_common_board_hooks_admitted(*state, *refreshed),
{
    if state.active_stadium.is_some() {
        return Err(UnsupportedReason::UnsupportedHook);
    }
    if state.in_play_pokemon[0][0].is_none() || state.in_play_pokemon[1][0].is_none() {
        return Err(UnsupportedReason::UnsupportedHook);
    }
    if state.points[0] >= 3 || state.points[1] >= 3 {
        return Err(UnsupportedReason::TerminalState);
    }
    let mut t: usize = 0;
    while t < 8
        invariant
            t <= 8,
            state.active_stadium is None,
            state.in_play_pokemon[0][0] is Some && state.in_play_pokemon[1][0] is Some,
            state.points[0] < 3 && state.points[1] < 3,
            first_board_refusal(*state, 0) == first_board_refusal(*state, t as int),
        decreases 8 - t,
    {
        if let Some(pokemon) = &state.in_play_pokemon[t / 4][t % 4] {
            if let Some(reason) = pokemon_hook_check(pokemon) {
                return Err(reason);
            }
        }
        t += 1;
    }
    if !board_hp_unchanged(state, refreshed) {
        return Err(UnsupportedReason::UnsupportedHook);
    }
    Ok(())
}

/// `n` hidden cards.
pub open spec fn hidden_cards(n: nat) -> Seq<Card> {
    Seq::new(n, |i: int| Card::Unknown)
}

fn hide_all(cards: &mut Vec<Card>)
    ensures
        final(cards)@ == hidden_cards(old(cards)@.len()),
{
    let n = cards.len();
    for i in 0..n
        invariant
            n == cards@.len(),
            forall|j: int| 0 <= j < i ==> cards@[j] is Unknown,
    {
        cards.set(i, Card::Unknown);
    }
    proof {
        assert(cards@ =~= hidden_cards(n as nat));
    }
}

/// The choices are exactly one draw of one card.
pub open spec fn is_single_draw(choices: Seq<SimpleAction>) -> bool {
    choices.len() == 1 && choices[0] == (SimpleAction::DrawCard { amount: 1 })
}

/// What the projection refuses, if it refuses: more than one pending frame, or a single frame
/// other than the opponent's forced draw of one card.
pub open spec fn projection_refusal(leaf: State, opponent: usize) -> Option<UnsupportedReason> {
    let stack = leaf.move_generation_stack@;
    if stack.len() == 0 {
        None
    } else if stack.len() != 1 {
        Some(UnsupportedReason::UnsupportedForcedTransition)
    } else if stack[0].0 != opponent || !is_single_draw(stack[0].1@) {
        if stack[0].1@.len() == 0 {
            Some(UnsupportedReason::PrivateChoice)
        } else {
            Some(UnsupportedReason::UnsupportedForcedTransition)
        }
    } else {
        None
    }
}

/// Whether the pending forced draw moves a card: the opponent holds fewer than 10 cards and has
/// a deck card left.
pub open spec fn projected_draw_happens(leaf: State, opponent: usize) -> bool {
    leaf.move_generation_stack@.len() == 1 && leaf.hands[opponent as int]@.len() < 10
        && leaf.decks[opponent as int].cards@.len() > 0
}

/// What projecting the opponent's free turn from `leaf` gives: the refusal, or the public view.
pub open spec fn projected_turn_post(leaf: State, opponent: usize, r: Result<State, UnsupportedReason>) -> bool {
    match projection_refusal(leaf, opponent) {
        Some(reason) => r == Err::<State, UnsupportedReason>(reason),
        None => r matches Ok(public) && {
            let drew = projected_draw_happens(leaf, opponent);
            &&& public.hands[opponent as int]@ == hidden_cards(
                leaf.hands[opponent as int]@.len() + if drew { 1nat } else { 0nat },
            )
            &&& public.hands[1 - opponent]@ == hidden_cards(leaf.hands[1 - opponent]@.len())
            &&& public.decks[opponent as int].cards@ == hidden_cards(
                (leaf.decks[opponent as int].cards@.len() - if drew { 1int } else { 0int }) as nat,
            )
            &&& public.decks[1 - opponent].cards@ == hidden_cards(leaf.decks[1 - opponent].cards@.len())
            &&& public.decks[0].energy_types@.len() == 0
            &&& public.decks[1].energy_types@.len() == 0
            &&& public.move_generation_stack@.len() == 0
            &&& public.turn_count == leaf.turn_count
            &&& public.current_player == leaf.current_player
            &&& public.points == leaf.points
            &&& public.in_play_pokemon == leaf.in_play_pokemon
            &&& public.turn_effects == leaf.turn_effects
            &&& public.active_stadium == leaf.active_stadium
            &&& public.winner == leaf.winner
            &&& public.discard_piles == leaf.discard_piles
            &&& public.discard_energies == leaf.discard_energies
            &&& public.current_energy == leaf.current_energy
            &&& public.has_retreated == leaf.has_retreated
            &&& public.active_stadium_owner == leaf.active_stadium_owner
            &&& public.has_used_stadium == leaf.has_used_stadium
            &&& public.luxury_coin_used_this_turn == leaf.luxury_coin_used_this_turn
            &&& public.victory_star_used_this_turn == leaf.victory_star_used_this_turn
            &&& public.setup_opponent_hidden == leaf.setup_opponent_hidden
            &&& public.healing_blocked == leaf.healing_blocked
        },
    }
}

/// The public view of the opponent's free turn from `leaf`, with hand and deck contents
/// hidden and a pending single forced draw resolved by count.
pub fn projected_free_opponent_turn(leaf: State, opponent: usize) -> (r: Result<State, UnsupportedReason>)
    requires
        opponent < 2,
    ensures
        projected_turn_post(leaf, opponent, r),
{
    let mut public = leaf;
    let ghost original = public;
    hide_all(&mut public.hands[0]);
    hide_all(&mut public.hands[1]);
    hide_all(&mut public.decks[0].cards);
    hide_all(&mut public.decks[1].cards);
    public.decks[0].energy_types.clear();
    public.decks[1].energy_types.clear();
    if public.move_generation_stack.len() == 0 {
        return Ok(public);
    }
    if public.move_generation_stack.len() != 1 {
        return Err(UnsupportedReason::UnsupportedForcedTransition);
    }
    let (actor, choices) = public.move_generation_stack.pop().unwrap();
    let single_draw = choices.len() == 1 && match &choices[0] {
        SimpleAction::DrawCard { amount } => *amount == 1,
        _ => false,
    };
    if actor != opponent || !single_draw {
        return Err(
            if choices.len() == 0 {
                UnsupportedReason::PrivateChoice
            } else {
                UnsupportedReason::UnsupportedForcedTransition
            },
        );
    }
    if public.hands[opponent].len() < 10 {
        if public.decks[opponent].cards.pop().is_some() {
            public.hands[opponent].push(Card::Unknown);
            proof {
                assert(public.hands[opponent as int]@ =~= hidden_cards(original.hands[opponent as int]@.len() + 1));
                assert(public.decks[opponent as int].cards@ =~= hidden_cards(
                    (original.decks[opponent as int].cards@.len() - 1) as nat,
                ));
            }
        }
    }
    Ok(public)
}

} // verus!

verus! {

/// The texts of two different reasons differ.
proof fn lemma_unpriced_reason_texts_differ(r1: UnsupportedReason, r2: UnsupportedReason)
    requires
        r1 != r2,
    ensures
        r1.spec_unpriced_reason()@ != r2.spec_unpriced_reason()@,
{
    reveal_strlit("public reply certificate refused an untrusted raw state");
    reveal_strlit("public reply certificate observer is invalid");
    reveal_strlit("public reply certificate lost transition provenance");
    reveal_strlit("public reply certificate cannot inspect concealed setup");
    reveal_strlit("public reply certificate received a terminal state");
    reveal_strlit("public reply certificate is not at the opponent's turn");
    reveal_strlit("public reply certificate encountered a private choice");
    reveal_strlit("public reply certificate depends on a hidden card identity");
    reveal_strlit("public reply certificate depends on an unobserved card order");
    reveal_strlit("public reply certificate encountered an unsupported forced transition");
    reveal_strlit("public reply certificate encountered an unsupported prefix action");
    reveal_strlit("public reply attack mechanic is outside the audited certificate registry");
    reveal_strlit("public reply board contains a hook outside the audited certificate registry");
    reveal_strlit("public reply certificate produced an invalid probability distribution");
    reveal_strlit("public reply attack has a positive-probability nonwinning branch");
    reveal_strlit("public reply attack leaves an unresolved continuation");
    match r1 {
        UnsupportedReason::UntrustedState => match r2 {
            UnsupportedReason::UntrustedState => {},
            UnsupportedReason::InvalidObserver => {
                assert("public reply certificate refused an untrusted raw state"@.len() != "public reply certificate observer is invalid"@.len());
            },
            UnsupportedReason::InvalidProvenance => {
                assert("public reply certificate refused an untrusted raw state"@.len() != "public reply certificate lost transition provenance"@.len());
            },
            UnsupportedReason::SetupConcealed => {
                assert("public reply certificate refused an untrusted raw state"@[25] != "public reply certificate cannot inspect concealed setup"@[25]);
            },
            UnsupportedReason::TerminalState => {
                assert("public reply certificate refused an untrusted raw state"@.len() != "public reply certificate received a terminal state"@.len());
            },
            UnsupportedReason::WrongActor => {
                assert("public reply certificate refused an untrusted raw state"@.len() != "public reply certificate is not at the opponent's turn"@.len());
            },
            UnsupportedReason::PrivateChoice => {
                assert("public reply certificate refused an untrusted raw state"@.len() != "public reply certificate encountered a private choice"@.len());
            },
            UnsupportedReason::HiddenIdentity => {
                assert("public reply certificate refused an untrusted raw state"@.len() != "public reply certificate depends on a hidden card identity"@.len());
            },
            UnsupportedReason::HiddenOrder => {
                assert("public reply certificate refused an untrusted raw state"@.len() != "public reply certificate depends on an unobserved card order"@.len());
            },
            UnsupportedReason::UnsupportedForcedTransition => {
                assert("public reply certificate refused an untrusted raw state"@.len() != "public reply certificate encountered an unsupported forced transition"@.len());
            },
            UnsupportedReason::UnsupportedPrefixAction => {
                assert("public reply certificate refused an untrusted raw state"@.len() != "public reply certificate encountered an unsupported prefix action"@.len());
            },
            UnsupportedReason::UnsupportedAttackMechanic => {
                assert("public reply certificate refused an untrusted raw state"@.len() != "public reply attack mechanic is outside the audited certificate registry"@.len());
            },
            UnsupportedReason::UnsupportedHook => {
                assert("public reply certificate refused an untrusted raw state"@.len() != "public reply board contains a hook outside the audited certificate registry"@.len());
            },
            UnsupportedReason::InvalidProbability => {
                assert("public reply certificate refused an untrusted raw state"@.len() != "public reply certificate produced an invalid probability distribution"@.len());
            },
            UnsupportedReason::NonterminalPositiveBranch => {
                assert("public reply certificate refused an untrusted raw state"@.len() != "public reply attack has a positive-probability nonwinning branch"@.len());
            },
            UnsupportedReason::UnresolvedContinuation => {
                assert("public reply certificate refused an untrusted raw state"@.len() != "public reply attack leaves an unresolved continuation"@.len());
            },
        },
        UnsupportedReason::InvalidObserver => match r2 {
            UnsupportedReason::UntrustedState => {
                assert("public reply certificate observer is invalid"@.len() != "public reply certificate refused an untrusted raw state"@.len());
            },
            UnsupportedReason::InvalidObserver => {},
            UnsupportedReason::InvalidProvenance => {
                assert("public reply certificate observer is invalid"@.len() != "public reply certificate lost transition provenance"@.len());
            },
            UnsupportedReason::SetupConcealed => {
                assert("public reply certificate observer is invalid"@.len() != "public reply certificate cannot inspect concealed setup"@.len());
            },
            UnsupportedReason::TerminalState => {
                assert("public reply certificate observer is invalid"@.len() != "public reply certificate received a terminal state"@.len());
            },
            UnsupportedReason::WrongActor => {
                assert("public reply certificate observer is invalid"@.len() != "public reply certificate is not at the opponent's turn"@.len());
            },
            UnsupportedReason::PrivateChoice => {
                assert("public reply certificate observer is invalid"@.len() != "public reply certificate encountered a private choice"@.len());
            },
            UnsupportedReason::HiddenIdentity => {
                assert("public reply certificate observer is invalid"@.len() != "public reply certificate depends on a hidden card identity"@.len());
            },
            UnsupportedReason::HiddenOrder => {
                assert("public reply certificate observer is invalid"@.len() != "public reply certificate depends on an unobserved card order"@.len());
            },
            UnsupportedReason::UnsupportedForcedTransition => {
                assert("public reply certificate observer is invalid"@.len() != "public reply certificate encountered an unsupported forced transition"@.len());
            },
            UnsupportedReason::UnsupportedPrefixAction => {
                assert("public reply certificate observer is invalid"@.len() != "public reply certificate encountered an unsupported prefix action"@.len());
            },
            UnsupportedReason::UnsupportedAttackMechanic => {
                assert("public reply certificate observer is invalid"@.len() != "public reply attack mechanic is outside the audited certificate registry"@.len());
            },
            UnsupportedReason::UnsupportedHook => {
                assert("public reply certificate observer is invalid"@.len() != "public reply board contains a hook outside the audited certificate registry"@.len());
            },
            UnsupportedReason::InvalidProbability => {
                assert("public reply certificate observer is invalid"@.len() != "public reply certificate produced an invalid probability distribution"@.len());
            },
            UnsupportedReason::NonterminalPositiveBranch => {
                assert("public reply certificate observer is invalid"@.len() != "public reply attack has a positive-probability nonwinning branch"@.len());
            },
            UnsupportedReason::UnresolvedContinuation => {
                assert("public reply certificate observer is invalid"@.len() != "public reply attack leaves an unresolved continuation"@.len());
            },
        },
        UnsupportedReason::InvalidProvenance => match r2 {
            UnsupportedReason::UntrustedState => {
                assert("public reply certificate lost transition provenance"@.len() != "public reply certificate refused an untrusted raw state"@.len());
            },
            UnsupportedReason::InvalidObserver => {
                assert("public reply certificate lost transition provenance"@.len() != "public reply certificate observer is invalid"@.len());
            },
            UnsupportedReason::InvalidProvenance => {},
            UnsupportedReason::SetupConcealed => {
                assert("public reply certificate lost transition provenance"@.len() != "public reply certificate cannot inspect concealed setup"@.len());
            },
            UnsupportedReason::TerminalState => {
                assert("public reply certificate lost transition provenance"@.len() != "public reply certificate received a terminal state"@.len());
            },
            UnsupportedReason::WrongActor => {
                assert("public reply certificate lost transition provenance"@.len() != "public reply certificate is not at the opponent's turn"@.len());
            },
            UnsupportedReason::PrivateChoice => {
                assert("public reply certificate lost transition provenance"@.len() != "public reply certificate encountered a private choice"@.len());
            },
            UnsupportedReason::HiddenIdentity => {
                assert("public reply certificate lost transition provenance"@.len() != "public reply certificate depends on a hidden card identity"@.len());
            },
            UnsupportedReason::HiddenOrder => {
                assert("public reply certificate lost transition provenance"@.len() != "public reply certificate depends on an unobserved card order"@.len());
            },
            UnsupportedReason::UnsupportedForcedTransition => {
                assert("public reply certificate lost transition provenance"@.len() != "public reply certificate encountered an unsupported forced transition"@.len());
            },
            UnsupportedReason::UnsupportedPrefixAction => {
                assert("public reply certificate lost transition provenance"@.len() != "public reply certificate encountered an unsupported prefix action"@.len());
            },
            UnsupportedReason::UnsupportedAttackMechanic => {
                assert("public reply certificate lost transition provenance"@.len() != "public reply attack mechanic is outside the audited certificate registry"@.len());
            },
            UnsupportedReason::UnsupportedHook => {
                assert("public reply certificate lost transition provenance"@.len() != "public reply board contains a hook outside the audited certificate registry"@.len());
            },
            UnsupportedReason::InvalidProbability => {
                assert("public reply certificate lost transition provenance"@.len() != "public reply certificate produced an invalid probability distribution"@.len());
            },
            UnsupportedReason::NonterminalPositiveBranch => {
                assert("public reply certificate lost transition provenance"@.len() != "public reply attack has a positive-probability nonwinning branch"@.len());
            },
            UnsupportedReason::UnresolvedContinuation => {
                assert("public reply certificate lost transition provenance"@.len() != "public reply attack leaves an unresolved continuation"@.len());
            },
        },
        UnsupportedReason::SetupConcealed => match r2 {
            UnsupportedReason::UntrustedState => {
                assert("public reply certificate cannot inspect concealed setup"@[25] != "public reply certificate refused an untrusted raw state"@[25]);
            },
            UnsupportedReason::InvalidObserver => {
                assert("public reply certificate cannot inspect concealed setup"@.len() != "public reply certificate observer is invalid"@.len());
            },
            UnsupportedReason::InvalidProvenance => {
                assert("public reply certificate cannot inspect concealed setup"@.len() != "public reply certificate lost transition provenance"@.len());
            },
            UnsupportedReason::SetupConcealed => {},
            UnsupportedReason::TerminalState => {
                assert("public reply certificate cannot inspect concealed setup"@.len() != "public reply certificate received a terminal state"@.len());
            },
            UnsupportedReason::WrongActor => {
                assert("public reply certificate cannot inspect concealed setup"@.len() != "public reply certificate is not at the opponent's turn"@.len());
            },
            UnsupportedReason::PrivateChoice => {
                assert("public reply certificate cannot inspect concealed setup"@.len() != "public reply certificate encountered a private choice"@.len());
            },
            UnsupportedReason::HiddenIdentity => {
                assert("public reply certificate cannot inspect concealed setup"@.len() != "public reply certificate depends on a hidden card identity"@.len());
            },
            UnsupportedReason::HiddenOrder => {
                assert("public reply certificate cannot inspect concealed setup"@.len() != "public reply certificate depends on an unobserved card order"@.len());
            },
            UnsupportedReason::UnsupportedForcedTransition => {
                assert("public reply certificate cannot inspect concealed setup"@.len() != "public reply certificate encountered an unsupported forced transition"@.len());
            },
            UnsupportedReason::UnsupportedPrefixAction => {
                assert("public reply certificate cannot inspect concealed setup"@.len() != "public reply certificate encountered an unsupported prefix action"@.len());
            },
            UnsupportedReason::UnsupportedAttackMechanic => {
                assert("public reply certificate cannot inspect concealed setup"@.len() != "public reply attack mechanic is outside the audited certificate registry"@.len());
            },
            UnsupportedReason::UnsupportedHook => {
                assert("public reply certificate cannot inspect concealed setup"@.len() != "public reply board contains a hook outside the audited certificate registry"@.len());
            },
            UnsupportedReason::InvalidProbability => {
                assert("public reply certificate cannot inspect concealed setup"@.len() != "public reply certificate produced an invalid probability distribution"@.len());
            },
            UnsupportedReason::NonterminalPositiveBranch => {
                assert("public reply certificate cannot inspect concealed setup"@.len() != "public reply attack has a positive-probability nonwinning branch"@.len());
            },
            UnsupportedReason::UnresolvedContinuation => {
                assert("public reply certificate cannot inspect concealed setup"@.len() != "public reply attack leaves an unresolved continuation"@.len());
            },
        },
        UnsupportedReason::TerminalState => match r2 {
            UnsupportedReason::UntrustedState => {
                assert("public reply certificate received a terminal state"@.len() != "public reply certificate refused an untrusted raw state"@.len());
            },
            UnsupportedReason::InvalidObserver => {
                assert("public reply certificate received a terminal state"@.len() != "public reply certificate observer is invalid"@.len());
            },
            UnsupportedReason::InvalidProvenance => {
                assert("public reply certificate received a terminal state"@.len() != "public reply certificate lost transition provenance"@.len());
            },
            UnsupportedReason::SetupConcealed => {
                assert("public reply certificate received a terminal state"@.len() != "public reply certificate cannot inspect concealed setup"@.len());
            },
            UnsupportedReason::TerminalState => {},
            UnsupportedReason::WrongActor => {
                assert("public reply certificate received a terminal state"@.len() != "public reply certificate is not at the opponent's turn"@.len());
            },
            UnsupportedReason::PrivateChoice => {
                assert("public reply certificate received a terminal state"@.len() != "public reply certificate encountered a private choice"@.len());
            },
            UnsupportedReason::HiddenIdentity => {
                assert("public reply certificate received a terminal state"@.len() != "public reply certificate depends on a hidden card identity"@.len());
            },
            UnsupportedReason::HiddenOrder => {
                assert("public reply certificate received a terminal state"@.len() != "public reply certificate depends on an unobserved card order"@.len());
            },
            UnsupportedReason::UnsupportedForcedTransition => {
                assert("public reply certificate received a terminal state"@.len() != "public reply certificate encountered an unsupported forced transition"@.len());
            },
            UnsupportedReason::UnsupportedPrefixAction => {
                assert("public reply certificate received a terminal state"@.len() != "public reply certificate encountered an unsupported prefix action"@.len());
            },
            UnsupportedReason::UnsupportedAttackMechanic => {
                assert("public reply certificate received a terminal state"@.len() != "public reply attack mechanic is outside the audited certificate registry"@.len());
            },
            UnsupportedReason::UnsupportedHook => {
                assert("public reply certificate received a terminal state"@.len() != "public reply board contains a hook outside the audited certificate registry"@.len());
            },
            UnsupportedReason::InvalidProbability => {
                assert("public reply certificate received a terminal state"@.len() != "public reply certificate produced an invalid probability distribution"@.len());
            },
            UnsupportedReason::NonterminalPositiveBranch => {
                assert("public reply certificate received a terminal state"@.len() != "public reply attack has a positive-probability nonwinning branch"@.len());
            },
            UnsupportedReason::UnresolvedContinuation => {
                assert("public reply certificate received a terminal state"@.len() != "public reply attack leaves an unresolved continuation"@.len());
            },
        },
        UnsupportedReason::WrongActor => match r2 {
            UnsupportedReason::UntrustedState => {
                assert("public reply certificate is not at the opponent's turn"@.len() != "public reply certificate refused an untrusted raw state"@.len());
            },
            UnsupportedReason::InvalidObserver => {
                assert("public reply certificate is not at the opponent's turn"@.len() != "public reply certificate observer is invalid"@.len());
            },
            UnsupportedReason::InvalidProvenance => {
                assert("public reply certificate is not at the opponent's turn"@.len() != "public reply certificate lost transition provenance"@.len());
            },
            UnsupportedReason::SetupConcealed => {
                assert("public reply certificate is not at the opponent's turn"@.len() != "public reply certificate cannot inspect concealed setup"@.len());
            },
            UnsupportedReason::TerminalState => {
                assert("public reply certificate is not at the opponent's turn"@.len() != "public reply certificate received a terminal state"@.len());
            },
            UnsupportedReason::WrongActor => {},
            UnsupportedReason::PrivateChoice => {
                assert("public reply certificate is not at the opponent's turn"@.len() != "public reply certificate encountered a private choice"@.len());
            },
            UnsupportedReason::HiddenIdentity => {
                assert("public reply certificate is not at the opponent's turn"@.len() != "public reply certificate depends on a hidden card identity"@.len());
            },
            UnsupportedReason::HiddenOrder => {
                assert("public reply certificate is not at the opponent's turn"@.len() != "public reply certificate depends on an unobserved card order"@.len());
            },
            UnsupportedReason::UnsupportedForcedTransition => {
                assert("public reply certificate is not at the opponent's turn"@.len() != "public reply certificate encountered an unsupported forced transition"@.len());
            },
            UnsupportedReason::UnsupportedPrefixAction => {
                assert("public reply certificate is not at the opponent's turn"@.len() != "public reply certificate encountered an unsupported prefix action"@.len());
            },
            UnsupportedReason::UnsupportedAttackMechanic => {
                assert("public reply certificate is not at the opponent's turn"@.len() != "public reply attack mechanic is outside the audited certificate registry"@.len());
            },
            UnsupportedReason::UnsupportedHook => {
                assert("public reply certificate is not at the opponent's turn"@.len() != "public reply board contains a hook outside the audited certificate registry"@.len());
            },
            UnsupportedReason::InvalidProbability => {
                assert("public reply certificate is not at the opponent's turn"@.len() != "public reply certificate produced an invalid probability distribution"@.len());
            },
            UnsupportedReason::NonterminalPositiveBranch => {
                assert("public reply certificate is not at the opponent's turn"@.len() != "public reply attack has a positive-probability nonwinning branch"@.len());
            },
            UnsupportedReason::UnresolvedContinuation => {
                assert("public reply certificate is not at the opponent's turn"@.len() != "public reply attack leaves an unresolved continuation"@.len());
            },
        },
        UnsupportedReason::PrivateChoice => match r2 {
            UnsupportedReason::UntrustedState => {
                assert("public reply certificate encountered a private choice"@.len() != "public reply certificate refused an untrusted raw state"@.len());
            },
            UnsupportedReason::InvalidObserver => {
                assert("public reply certificate encountered a private choice"@.len() != "public reply certificate observer is invalid"@.len());
            },
            UnsupportedReason::InvalidProvenance => {
                assert("public reply certificate encountered a private choice"@.len() != "public reply certificate lost transition provenance"@.len());
            },
            UnsupportedReason::SetupConcealed => {
                assert("public reply certificate encountered a private choice"@.len() != "public reply certificate cannot inspect concealed setup"@.len());
            },
            UnsupportedReason::TerminalState => {
                assert("public reply certificate encountered a private choice"@.len() != "public reply certificate received a terminal state"@.len());
            },
            UnsupportedReason::WrongActor => {
                assert("public reply certificate encountered a private choice"@.len() != "public reply certificate is not at the opponent's turn"@.len());
            },
            UnsupportedReason::PrivateChoice => {},
            UnsupportedReason::HiddenIdentity => {
                assert("public reply certificate encountered a private choice"@.len() != "public reply certificate depends on a hidden card identity"@.len());
            },
            UnsupportedReason::HiddenOrder => {
                assert("public reply certificate encountered a private choice"@.len() != "public reply certificate depends on an unobserved card order"@.len());
            },
            UnsupportedReason::UnsupportedForcedTransition => {
                assert("public reply certificate encountered a private choice"@.len() != "public reply certificate encountered an unsupported forced transition"@.len());
            },
            UnsupportedReason::UnsupportedPrefixAction => {
                assert("public reply certificate encountered a private choice"@.len() != "public reply certificate encountered an unsupported prefix action"@.len());
            },
            UnsupportedReason::UnsupportedAttackMechanic => {
                assert("public reply certificate encountered a private choice"@.len() != "public reply attack mechanic is outside the audited certificate registry"@.len());
            },
            UnsupportedReason::UnsupportedHook => {
                assert("public reply certificate encountered a private choice"@.len() != "public reply board contains a hook outside the audited certificate registry"@.len());
            },
            UnsupportedReason::InvalidProbability => {
                assert("public reply certificate encountered a private choice"@.len() != "public reply certificate produced an invalid probability distribution"@.len());
            },
            UnsupportedReason::NonterminalPositiveBranch => {
                assert("public reply certificate encountered a private choice"@.len() != "public reply attack has a positive-probability nonwinning branch"@.len());
            },
            UnsupportedReason::UnresolvedContinuation => {
                assert("public reply certificate encountered a private choice"@[13] != "public reply attack leaves an unresolved continuation"@[13]);
            },
        },
        UnsupportedReason::HiddenIdentity => match r2 {
            UnsupportedReason::UntrustedState => {
                assert("public reply certificate depends on a hidden card identity"@.len() != "public reply certificate refused an untrusted raw state"@.len());
            },
            UnsupportedReason::InvalidObserver => {
                assert("public reply certificate depends on a hidden card identity"@.len() != "public reply certificate observer is invalid"@.len());
            },
            UnsupportedReason::InvalidProvenance => {
                assert("public reply certificate depends on a hidden card identity"@.len() != "public reply certificate lost transition provenance"@.len());
            },
            UnsupportedReason::SetupConcealed => {
                assert("public reply certificate depends on a hidden card identity"@.len() != "public reply certificate cannot inspect concealed setup"@.len());
            },
            UnsupportedReason::TerminalState => {
                assert("public reply certificate depends on a hidden card identity"@.len() != "public reply certificate received a terminal state"@.len());
            },
            UnsupportedReason::WrongActor => {
                assert("public reply certificate depends on a hidden card identity"@.len() != "public reply certificate is not at the opponent's turn"@.len());
            },
            UnsupportedReason::PrivateChoice => {
                assert("public reply certificate depends on a hidden card identity"@.len() != "public reply certificate encountered a private choice"@.len());
            },
            UnsupportedReason::HiddenIdentity => {},
            UnsupportedReason::HiddenOrder => {
                assert("public reply certificate depends on a hidden card identity"@.len() != "public reply certificate depends on an unobserved card order"@.len());
            },
            UnsupportedReason::UnsupportedForcedTransition => {
                assert("public reply certificate depends on a hidden card identity"@.len() != "public reply certificate encountered an unsupported forced transition"@.len());
            },
            UnsupportedReason::UnsupportedPrefixAction => {
                assert("public reply certificate depends on a hidden card identity"@.len() != "public reply certificate encountered an unsupported prefix action"@.len());
            },
            UnsupportedReason::UnsupportedAttackMechanic => {
                assert("public reply certificate depends on a hidden card identity"@.len() != "public reply attack mechanic is outside the audited certificate registry"@.len());
            },
            UnsupportedReason::UnsupportedHook => {
                assert("public reply certificate depends on a hidden card identity"@.len() != "public reply board contains a hook outside the audited certificate registry"@.len());
            },
            UnsupportedReason::InvalidProbability => {
                assert("public reply certificate depends on a hidden card identity"@.len() != "public reply certificate produced an invalid probability distribution"@.len());
            },
            UnsupportedReason::NonterminalPositiveBranch => {
                assert("public reply certificate depends on a hidden card identity"@.len() != "public reply attack has a positive-probability nonwinning branch"@.len());
            },
            UnsupportedReason::UnresolvedContinuation => {
                assert("public reply certificate depends on a hidden card identity"@.len() != "public reply attack leaves an unresolved continuation"@.len());
            },
        },
        UnsupportedReason::HiddenOrder => match r2 {
            UnsupportedReason::UntrustedState => {
                assert("public reply certificate depends on an unobserved card order"@.len() != "public reply certificate refused an untrusted raw state"@.len());
            },
            UnsupportedReason::InvalidObserver => {
                assert("public reply certificate depends on an unobserved card order"@.len() != "public reply certificate observer is invalid"@.len());
            },
            UnsupportedReason::InvalidProvenance => {
                assert("public reply certificate depends on an unobserved card order"@.len() != "public reply certificate lost transition provenance"@.len());
            },
            UnsupportedReason::SetupConcealed => {
                assert("public reply certificate depends on an unobserved card order"@.len() != "public reply certificate cannot inspect concealed setup"@.len());
            },
            UnsupportedReason::TerminalState => {
                assert("public reply certificate depends on an unobserved card order"@.len() != "public reply certificate received a terminal state"@.len());
            },
            UnsupportedReason::WrongActor => {
                assert("public reply certificate depends on an unobserved card order"@.len() != "public reply certificate is not at the opponent's turn"@.len());
            },
            UnsupportedReason::PrivateChoice => {
                assert("public reply certificate depends on an unobserved card order"@.len() != "public reply certificate encountered a private choice"@.len());
            },
            UnsupportedReason::HiddenIdentity => {
                assert("public reply certificate depends on an unobserved card order"@.len() != "public reply certificate depends on a hidden card identity"@.len());
            },
            UnsupportedReason::HiddenOrder => {},
            UnsupportedReason::UnsupportedForcedTransition => {
                assert("public reply certificate depends on an unobserved card order"@.len() != "public reply certificate encountered an unsupported forced transition"@.len());
            },
            UnsupportedReason::UnsupportedPrefixAction => {
                assert("public reply certificate depends on an unobserved card order"@.len() != "public reply certificate encountered an unsupported prefix action"@.len());
            },
            UnsupportedReason::UnsupportedAttackMechanic => {
                assert("public reply certificate depends on an unobserved card order"@.len() != "public reply attack mechanic is outside the audited certificate registry"@.len());
            },
            UnsupportedReason::UnsupportedHook => {
                assert("public reply certificate depends on an unobserved card order"@.len() != "public reply board contains a hook outside the audited certificate registry"@.len());
            },
            UnsupportedReason::InvalidProbability => {
                assert("public reply certificate depends on an unobserved card order"@.len() != "public reply certificate produced an invalid probability distribution"@.len());
            },
            UnsupportedReason::NonterminalPositiveBranch => {
                assert("public reply certificate depends on an unobserved card order"@.len() != "public reply attack has a positive-probability nonwinning branch"@.len());
            },
            UnsupportedReason::UnresolvedContinuation => {
                assert("public reply certificate depends on an unobserved card order"@.len() != "public reply attack leaves an unresolved continuation"@.len());
            },
        },
        UnsupportedReason::UnsupportedForcedTransition => match r2 {
            UnsupportedReason::UntrustedState => {
                assert("public reply certificate encountered an unsupported forced transition"@.len() != "public reply certificate refused an untrusted raw state"@.len());
            },
            UnsupportedReason::InvalidObserver => {
                assert("public reply certificate encountered an unsupported forced transition"@.len() != "public reply certificate observer is invalid"@.len());
            },
            UnsupportedReason::InvalidProvenance => {
                assert("public reply certificate encountered an unsupported forced transition"@.len() != "public reply certificate lost transition provenance"@.len());
            },
            UnsupportedReason::SetupConcealed => {
                assert("public reply certificate encountered an unsupported forced transition"@.len() != "public reply certificate cannot inspect concealed setup"@.len());
            },
            UnsupportedReason::TerminalState => {
                assert("public reply certificate encountered an unsupported forced transition"@.len() != "public reply certificate received a terminal state"@.len());
            },
            UnsupportedReason::WrongActor => {
                assert("public reply certificate encountered an unsupported forced transition"@.len() != "public reply certificate is not at the opponent's turn"@.len());
            },
            UnsupportedReason::PrivateChoice => {
                assert("public reply certificate encountered an unsupported forced transition"@.len() != "public reply certificate encountered a private choice"@.len());
            },
            UnsupportedReason::HiddenIdentity => {
                assert("public reply certificate encountered an unsupported forced transition"@.len() != "public reply certificate depends on a hidden card identity"@.len());
            },
            UnsupportedReason::HiddenOrder => {
                assert("public reply certificate encountered an unsupported forced transition"@.len() != "public reply certificate depends on an unobserved card order"@.len());
            },
            UnsupportedReason::UnsupportedForcedTransition => {},
            UnsupportedReason::UnsupportedPrefixAction => {
                assert("public reply certificate encountered an unsupported forced transition"@.len() != "public reply certificate encountered an unsupported prefix action"@.len());
            },
            UnsupportedReason::UnsupportedAttackMechanic => {
                assert("public reply certificate encountered an unsupported forced transition"@.len() != "public reply attack mechanic is outside the audited certificate registry"@.len());
            },
            UnsupportedReason::UnsupportedHook => {
                assert("public reply certificate encountered an unsupported forced transition"@.len() != "public reply board contains a hook outside the audited certificate registry"@.len());
            },
            UnsupportedReason::InvalidProbability => {
                assert("public reply certificate encountered an unsupported forced transition"@[25] != "public reply certificate produced an invalid probability distribution"@[25]);
            },
            UnsupportedReason::NonterminalPositiveBranch => {
                assert("public reply certificate encountered an unsupported forced transition"@.len() != "public reply attack has a positive-probability nonwinning branch"@.len());
            },
            UnsupportedReason::UnresolvedContinuation => {
                assert("public reply certificate encountered an unsupported forced transition"@.len() != "public reply attack leaves an unresolved continuation"@.len());
            },
        },
        UnsupportedReason::UnsupportedPrefixAction => match r2 {
            UnsupportedReason::UntrustedState => {
                assert("public reply certificate encountered an unsupported prefix action"@.len() != "public reply certificate refused an untrusted raw state"@.len());
            },
            UnsupportedReason::InvalidObserver => {
                assert("public reply certificate encountered an unsupported prefix action"@.len() != "public reply certificate observer is invalid"@.len());
            },
            UnsupportedReason::InvalidProvenance => {
                assert("public reply certificate encountered an unsupported prefix action"@.len() != "public reply certificate lost transition provenance"@.len());
            },
            UnsupportedReason::SetupConcealed => {
                assert("public reply certificate encountered an unsupported prefix action"@.len() != "public reply certificate cannot inspect concealed setup"@.len());
            },
            UnsupportedReason::TerminalState => {
                assert("public reply certificate encountered an unsupported prefix action"@.len() != "public reply certificate received a terminal state"@.len());
            },
            UnsupportedReason::WrongActor => {
                assert("public reply certificate encountered an unsupported prefix action"@.len() != "public reply certificate is not at the opponent's turn"@.len());
            },
            UnsupportedReason::PrivateChoice => {
                assert("public reply certificate encountered an unsupported prefix action"@.len() != "public reply certificate encountered a private choice"@.len());
            },
            UnsupportedReason::HiddenIdentity => {
                assert("public reply certificate encountered an unsupported prefix action"@.len() != "public reply certificate depends on a hidden card identity"@.len());
            },
            UnsupportedReason::HiddenOrder => {
                assert("public reply certificate encountered an unsupported prefix action"@.len() != "public reply certificate depends on an unobserved card order"@.len());
            },
            UnsupportedReason::UnsupportedForcedTransition => {
                assert("public reply certificate encountered an unsupported prefix action"@.len() != "public reply certificate encountered an unsupported forced transition"@.len());
            },
            UnsupportedReason::UnsupportedPrefixAction => {},
            UnsupportedReason::UnsupportedAttackMechanic => {
                assert("public reply certificate encountered an unsupported prefix action"@.len() != "public reply attack mechanic is outside the audited certificate registry"@.len());
            },
            UnsupportedReason::UnsupportedHook => {
                assert("public reply certificate encountered an unsupported prefix action"@.len() != "public reply board contains a hook outside the audited certificate registry"@.len());
            },
            UnsupportedReason::InvalidProbability => {
                assert("public reply certificate encountered an unsupported prefix action"@.len() != "public reply certificate produced an invalid probability distribution"@.len());
            },
            UnsupportedReason::NonterminalPositiveBranch => {
                assert("public reply certificate encountered an unsupported prefix action"@.len() != "public reply attack has a positive-probability nonwinning branch"@.len());
            },
            UnsupportedReason::UnresolvedContinuation => {
                assert("public reply certificate encountered an unsupported prefix action"@.len() != "public reply attack leaves an unresolved continuation"@.len());
            },
        },
        UnsupportedReason::UnsupportedAttackMechanic => match r2 {
            UnsupportedReason::UntrustedState => {
                assert("public reply attack mechanic is outside the audited certificate registry"@.len() != "public reply certificate refused an untrusted raw state"@.len());
            },
            UnsupportedReason::InvalidObserver => {
                assert("public reply attack mechanic is outside the audited certificate registry"@.len() != "public reply certificate observer is invalid"@.len());
            },
            UnsupportedReason::InvalidProvenance => {
                assert("public reply attack mechanic is outside the audited certificate registry"@.len() != "public reply certificate lost transition provenance"@.len());
            },
            UnsupportedReason::SetupConcealed => {
                assert("public reply attack mechanic is outside the audited certificate registry"@.len() != "public reply certificate cannot inspect concealed setup"@.len());
            },
            UnsupportedReason::TerminalState => {
                assert("public reply attack mechanic is outside the audited certificate registry"@.len() != "public reply certificate received a terminal state"@.len());
            },
            UnsupportedReason::WrongActor => {
                assert("public reply attack mechanic is outside the audited certificate registry"@.len() != "public reply certificate is not at the opponent's turn"@.len());
            },
            UnsupportedReason::PrivateChoice => {
                assert("public reply attack mechanic is outside the audited certificate registry"@.len() != "public reply certificate encountered a private choice"@.len());
            },
            UnsupportedReason::HiddenIdentity => {
                assert("public reply attack mechanic is outside the audited certificate registry"@.len() != "public reply certificate depends on a hidden card identity"@.len());
            },
            UnsupportedReason::HiddenOrder => {
                assert("public reply attack mechanic is outside the audited certificate registry"@.len() != "public reply certificate depends on an unobserved card order"@.len());
            },
            UnsupportedReason::UnsupportedForcedTransition => {
                assert("public reply attack mechanic is outside the audited certificate registry"@.len() != "public reply certificate encountered an unsupported forced transition"@.len());
            },
            UnsupportedReason::UnsupportedPrefixAction => {
                assert("public reply attack mechanic is outside the audited certificate registry"@.len() != "public reply certificate encountered an unsupported prefix action"@.len());
            },
            UnsupportedReason::UnsupportedAttackMechanic => {},
            UnsupportedReason::UnsupportedHook => {
                assert("public reply attack mechanic is outside the audited certificate registry"@.len() != "public reply board contains a hook outside the audited certificate registry"@.len());
            },
            UnsupportedReason::InvalidProbability => {
                assert("public reply attack mechanic is outside the audited certificate registry"@.len() != "public reply certificate produced an invalid probability distribution"@.len());
            },
            UnsupportedReason::NonterminalPositiveBranch => {
                assert("public reply attack mechanic is outside the audited certificate registry"@.len() != "public reply attack has a positive-probability nonwinning branch"@.len());
            },
            UnsupportedReason::UnresolvedContinuation => {
                assert("public reply attack mechanic is outside the audited certificate registry"@.len() != "public reply attack leaves an unresolved continuation"@.len());
            },
        },
        UnsupportedReason::UnsupportedHook => match r2 {
            UnsupportedReason::UntrustedState => {
                assert("public reply board contains a hook outside the audited certificate registry"@.len() != "public reply certificate refused an untrusted raw state"@.len());
            },
            UnsupportedReason::InvalidObserver => {
                assert("public reply board contains a hook outside the audited certificate registry"@.len() != "public reply certificate observer is invalid"@.len());
            },
            UnsupportedReason::InvalidProvenance => {
                assert("public reply board contains a hook outside the audited certificate registry"@.len() != "public reply certificate lost transition provenance"@.len());
            },
            UnsupportedReason::SetupConcealed => {
                assert("public reply board contains a hook outside the audited certificate registry"@.len() != "public reply certificate cannot inspect concealed setup"@.len());
            },
            UnsupportedReason::TerminalState => {
                assert("public reply board contains a hook outside the audited certificate registry"@.len() != "public reply certificate received a terminal state"@.len());
            },
            UnsupportedReason::WrongActor => {
                assert("public reply board contains a hook outside the audited certificate registry"@.len() != "public reply certificate is not at the opponent's turn"@.len());
            },
            UnsupportedReason::PrivateChoice => {
                assert("public reply board contains a hook outside the audited certificate registry"@.len() != "public reply certificate encountered a private choice"@.len());
            },
            UnsupportedReason::HiddenIdentity => {
                assert("public reply board contains a hook outside the audited certificate registry"@.len() != "public reply certificate depends on a hidden card identity"@.len());
            },
            UnsupportedReason::HiddenOrder => {
                assert("public reply board contains a hook outside the audited certificate registry"@.len() != "public reply certificate depends on an unobserved card order"@.len());
            },
            UnsupportedReason::UnsupportedForcedTransition => {
                assert("public reply board contains a hook outside the audited certificate registry"@.len() != "public reply certificate encountered an unsupported forced transition"@.len());
            },
            UnsupportedReason::UnsupportedPrefixAction => {
                assert("public reply board contains a hook outside the audited certificate registry"@.len() != "public reply certificate encountered an unsupported prefix action"@.len());
            },
            UnsupportedReason::UnsupportedAttackMechanic => {
                assert("public reply board contains a hook outside the audited certificate registry"@.len() != "public reply attack mechanic is outside the audited certificate registry"@.len());
            },
            UnsupportedReason::UnsupportedHook => {},
            UnsupportedReason::InvalidProbability => {
                assert("public reply board contains a hook outside the audited certificate registry"@.len() != "public reply certificate produced an invalid probability distribution"@.len());
            },
            UnsupportedReason::NonterminalPositiveBranch => {
                assert("public reply board contains a hook outside the audited certificate registry"@.len() != "public reply attack has a positive-probability nonwinning branch"@.len());
            },
            UnsupportedReason::UnresolvedContinuation => {
                assert("public reply board contains a hook outside the audited certificate registry"@.len() != "public reply attack leaves an unresolved continuation"@.len());
            },
        },
        UnsupportedReason::InvalidProbability => match r2 {
            UnsupportedReason::UntrustedState => {
                assert("public reply certificate produced an invalid probability distribution"@.len() != "public reply certificate refused an untrusted raw state"@.len());
            },
            UnsupportedReason::InvalidObserver => {
                assert("public reply certificate produced an invalid probability distribution"@.len() != "public reply certificate observer is invalid"@.len());
            },
            UnsupportedReason::InvalidProvenance => {
                assert("public reply certificate produced an invalid probability distribution"@.len() != "public reply certificate lost transition provenance"@.len());
            },
            UnsupportedReason::SetupConcealed => {
                assert("public reply certificate produced an invalid probability distribution"@.len() != "public reply certificate cannot inspect concealed setup"@.len());
            },
            UnsupportedReason::TerminalState => {
                assert("public reply certificate produced an invalid probability distribution"@.len() != "public reply certificate received a terminal state"@.len());
            },
            UnsupportedReason::WrongActor => {
                assert("public reply certificate produced an invalid probability distribution"@.len() != "public reply certificate is not at the opponent's turn"@.len());
            },
            UnsupportedReason::PrivateChoice => {
                assert("public reply certificate produced an invalid probability distribution"@.len() != "public reply certificate encountered a private choice"@.len());
            },
            UnsupportedReason::HiddenIdentity => {
                assert("public reply certificate produced an invalid probability distribution"@.len() != "public reply certificate depends on a hidden card identity"@.len());
            },
            UnsupportedReason::HiddenOrder => {
                assert("public reply certificate produced an invalid probability distribution"@.len() != "public reply certificate depends on an unobserved card order"@.len());
            },
            UnsupportedReason::UnsupportedForcedTransition => {
                assert("public reply certificate produced an invalid probability distribution"@[25] != "public reply certificate encountered an unsupported forced transition"@[25]);
            },
            UnsupportedReason::UnsupportedPrefixAction => {
                assert("public reply certificate produced an invalid probability distribution"@.len() != "public reply certificate encountered an unsupported prefix action"@.len());
            },
            UnsupportedReason::UnsupportedAttackMechanic => {
                assert("public reply certificate produced an invalid probability distribution"@.len() != "public reply attack mechanic is outside the audited certificate registry"@.len());
            },
            UnsupportedReason::UnsupportedHook => {
                assert("public reply certificate produced an invalid probability distribution"@.len() != "public reply board contains a hook outside the audited certificate registry"@.len());
            },
            UnsupportedReason::InvalidProbability => {},
            UnsupportedReason::NonterminalPositiveBranch => {
                assert("public reply certificate produced an invalid probability distribution"@.len() != "public reply attack has a positive-probability nonwinning branch"@.len());
            },
            UnsupportedReason::UnresolvedContinuation => {
                assert("public reply certificate produced an invalid probability distribution"@.len() != "public reply attack leaves an unresolved continuation"@.len());
            },
        },
        UnsupportedReason::NonterminalPositiveBranch => match r2 {
            UnsupportedReason::UntrustedState => {
                assert("public reply attack has a positive-probability nonwinning branch"@.len() != "public reply certificate refused an untrusted raw state"@.len());
            },
            UnsupportedReason::InvalidObserver => {
                assert("public reply attack has a positive-probability nonwinning branch"@.len() != "public reply certificate observer is invalid"@.len());
            },
            UnsupportedReason::InvalidProvenance => {
                assert("public reply attack has a positive-probability nonwinning branch"@.len() != "public reply certificate lost transition provenance"@.len());
            },
            UnsupportedReason::SetupConcealed => {
                assert("public reply attack has a positive-probability nonwinning branch"@.len() != "public reply certificate cannot inspect concealed setup"@.len());
            },
            UnsupportedReason::TerminalState => {
                assert("public reply attack has a positive-probability nonwinning branch"@.len() != "public reply certificate received a terminal state"@.len());
            },
            UnsupportedReason::WrongActor => {
                assert("public reply attack has a positive-probability nonwinning branch"@.len() != "public reply certificate is not at the opponent's turn"@.len());
            },
            UnsupportedReason::PrivateChoice => {
                assert("public reply attack has a positive-probability nonwinning branch"@.len() != "public reply certificate encountered a private choice"@.len());
            },
            UnsupportedReason::HiddenIdentity => {
                assert("public reply attack has a positive-probability nonwinning branch"@.len() != "public reply certificate depends on a hidden card identity"@.len());
            },
            UnsupportedReason::HiddenOrder => {
                assert("public reply attack has a positive-probability nonwinning branch"@.len() != "public reply certificate depends on an unobserved card order"@.len());
            },
            UnsupportedReason::UnsupportedForcedTransition => {
                assert("public reply attack has a positive-probability nonwinning branch"@.len() != "public reply certificate encountered an unsupported forced transition"@.len());
            },
            UnsupportedReason::UnsupportedPrefixAction => {
                assert("public reply attack has a positive-probability nonwinning branch"@.len() != "public reply certificate encountered an unsupported prefix action"@.len());
            },
            UnsupportedReason::UnsupportedAttackMechanic => {
                assert("public reply attack has a positive-probability nonwinning branch"@.len() != "public reply attack mechanic is outside the audited certificate registry"@.len());
            },
            UnsupportedReason::UnsupportedHook => {
                assert("public reply attack has a positive-probability nonwinning branch"@.len() != "public reply board contains a hook outside the audited certificate registry"@.len());
            },
            UnsupportedReason::InvalidProbability => {
                assert("public reply attack has a positive-probability nonwinning branch"@.len() != "public reply certificate produced an invalid probability distribution"@.len());
            },
            UnsupportedReason::NonterminalPositiveBranch => {},
            UnsupportedReason::UnresolvedContinuation => {
                assert("public reply attack has a positive-probability nonwinning branch"@.len() != "public reply attack leaves an unresolved continuation"@.len());
            },
        },
        UnsupportedReason::UnresolvedContinuation => match r2 {
            UnsupportedReason::UntrustedState => {
                assert("public reply attack leaves an unresolved continuation"@.len() != "public reply certificate refused an untrusted raw state"@.len());
            },
            UnsupportedReason::InvalidObserver => {
                assert("public reply attack leaves an unresolved continuation"@.len() != "public reply certificate observer is invalid"@.len());
            },
            UnsupportedReason::InvalidProvenance => {
                assert("public reply attack leaves an unresolved continuation"@.len() != "public reply certificate lost transition provenance"@.len());
            },
            UnsupportedReason::SetupConcealed => {
                assert("public reply attack leaves an unresolved continuation"@.len() != "public reply certificate cannot inspect concealed setup"@.len());
            },
            UnsupportedReason::TerminalState => {
                assert("public reply attack leaves an unresolved continuation"@.len() != "public reply certificate received a terminal state"@.len());
            },
            UnsupportedReason::WrongActor => {
                assert("public reply attack leaves an unresolved continuation"@.len() != "public reply certificate is not at the opponent's turn"@.len());
            },
            UnsupportedReason::PrivateChoice => {
                assert("public reply attack leaves an unresolved continuation"@[13] != "public reply certificate encountered a private choice"@[13]);
            },
            UnsupportedReason::HiddenIdentity => {
                assert("public reply attack leaves an unresolved continuation"@.len() != "public reply certificate depends on a hidden card identity"@.len());
            },
            UnsupportedReason::HiddenOrder => {
                assert("public reply attack leaves an unresolved continuation"@.len() != "public reply certificate depends on an unobserved card order"@.len());
            },
            UnsupportedReason::UnsupportedForcedTransition => {
                assert("public reply attack leaves an unresolved continuation"@.len() != "public reply certificate encountered an unsupported forced transition"@.len());
            },
            UnsupportedReason::UnsupportedPrefixAction => {
                assert("public reply attack leaves an unresolved continuation"@.len() != "public reply certificate encountered an unsupported prefix action"@.len());
            },
            UnsupportedReason::UnsupportedAttackMechanic => {
                assert("public reply attack leaves an unresolved continuation"@.len() != "public reply attack mechanic is outside the audited certificate registry"@.len());
            },
            UnsupportedReason::UnsupportedHook => {
                assert("public reply attack leaves an unresolved continuation"@.len() != "public reply board contains a hook outside the audited certificate registry"@.len());
            },
            UnsupportedReason::InvalidProbability => {
                assert("public reply attack leaves an unresolved continuation"@.len() != "public reply certificate produced an invalid probability distribution"@.len());
            },
            UnsupportedReason::NonterminalPositiveBranch => {
                assert("public reply attack leaves an unresolved continuation"@.len() != "public reply attack has a positive-probability nonwinning branch"@.len());
            },
            UnsupportedReason::UnresolvedContinuation => {},
        },
    }
}

/// Every unpriced-branch text names the public reply certificate, and no two reasons share a
/// text, so the recorder can tell each refusal apart.
pub proof fn lemma_unpriced_reasons_are_distinct_public_reply_texts(r1: UnsupportedReason, r2: UnsupportedReason)
    ensures
        r1.spec_unpriced_reason()@.len() > 12,
        r1.spec_unpriced_reason()@.subrange(0, 12) == "public reply"@,
        r1 != r2 ==> r1.spec_unpriced_reason()@ != r2.spec_unpriced_reason()@,
{
    reveal_strlit("public reply");
    reveal_strlit("public reply certificate refused an untrusted raw state");
    reveal_strlit("public reply certificate observer is invalid");
    reveal_strlit("public reply certificate lost transition provenance");
    reveal_strlit("public reply certificate cannot inspect concealed setup");
    reveal_strlit("public reply certificate received a terminal state");
    reveal_strlit("public reply certificate is not at the opponent's turn");
    reveal_strlit("public reply certificate encountered a private choice");
    reveal_strlit("public reply certificate depends on a hidden card identity");
    reveal_strlit("public reply certificate depends on an unobserved card order");
    reveal_strlit("public reply certificate encountered an unsupported forced transition");
    reveal_strlit("public reply certificate encountered an unsupported prefix action");
    reveal_strlit("public reply attack mechanic is outside the audited certificate registry");
    reveal_strlit("public reply board contains a hook outside the audited certificate registry");
    reveal_strlit("public reply certificate produced an invalid probability distribution");
    reveal_strlit("public reply attack has a positive-probability nonwinning branch");
    reveal_strlit("public reply attack leaves an unresolved continuation");
    match r1 {
        UnsupportedReason::UntrustedState => {
            assert("public reply certificate refused an untrusted raw state"@.subrange(0, 12) =~= "public reply"@);
        },
        UnsupportedReason::InvalidObserver => {
            assert("public reply certificate observer is invalid"@.subrange(0, 12) =~= "public reply"@);
        },
        UnsupportedReason::InvalidProvenance => {
            assert("public reply certificate lost transition provenance"@.subrange(0, 12) =~= "public reply"@);
        },
        UnsupportedReason::SetupConcealed => {
            assert("public reply certificate cannot inspect concealed setup"@.subrange(0, 12) =~= "public reply"@);
        },
        UnsupportedReason::TerminalState => {
            assert("public reply certificate received a terminal state"@.subrange(0, 12) =~= "public reply"@);
        },
        UnsupportedReason::WrongActor => {
            assert("public reply certificate is not at the opponent's turn"@.subrange(0, 12) =~= "public reply"@);
        },
        UnsupportedReason::PrivateChoice => {
            assert("public reply certificate encountered a private choice"@.subrange(0, 12) =~= "public reply"@);
        },
        UnsupportedReason::HiddenIdentity => {
            assert("public reply certificate depends on a hidden card identity"@.subrange(0, 12) =~= "public reply"@);
        },
        UnsupportedReason::HiddenOrder => {
            assert("public reply certificate depends on an unobserved card order"@.subrange(0, 12) =~= "public reply"@);
        },
        UnsupportedReason::UnsupportedForcedTransition => {
            assert("public reply certificate encountered an unsupported forced transition"@.subrange(0, 12) =~= "public reply"@);
        },
        UnsupportedReason::UnsupportedPrefixAction => {
            assert("public reply certificate encountered an unsupported prefix action"@.subrange(0, 12) =~= "public reply"@);
        },
        UnsupportedReason::UnsupportedAttackMechanic => {
            assert("public reply attack mechanic is outside the audited certificate registry"@.subrange(0, 12) =~= "public reply"@);
        },
        UnsupportedReason::UnsupportedHook => {
            assert("public reply board contains a hook outside the audited certificate registry"@.subrange(0, 12) =~= "public reply"@);
        },
        UnsupportedReason::InvalidProbability => {
            assert("public reply certificate produced an invalid probability distribution"@.subrange(0, 12) =~= "public reply"@);
        },
        UnsupportedReason::NonterminalPositiveBranch => {
            assert("public reply attack has a positive-probability nonwinning branch"@.subrange(0, 12) =~= "public reply"@);
        },
        UnsupportedReason::UnresolvedContinuation => {
            assert("public reply attack leaves an unresolved continuation"@.subrange(0, 12) =~= "public reply"@);
        },
    }
    if r1 != r2 {
        lemma_unpriced_reason_texts_differ(r1, r2);
    }
}

/// Why a search leaf is refused before its board is looked at, if it is: setup is still
/// concealed, the game is over, it is not the opponent's turn, or a private choice is pending.
pub open spec fn leaf_prefix_refusal(leaf: State, myself: usize, private_choice_pending: bool) -> Option<
    UnsupportedReason,
> {
    if leaf.turn_count == 0 || leaf.setup_opponent_hidden {
        Some(UnsupportedReason::SetupConcealed)
    } else if leaf.winner is Some {
        Some(UnsupportedReason::TerminalState)
    } else if leaf.current_player != 1 - myself {
        Some(UnsupportedReason::WrongActor)
    } else if private_choice_pending {
        Some(UnsupportedReason::PrivateChoice)
    } else {
        None
    }
}

/// The first steps of certifying a search leaf for `myself`: the refusals that need no board
/// (see `leaf_prefix_refusal`), then the public view of the opponent's free turn.
/// `private_choice_pending` says whether an attack-coin, Misty-target or Trainer-coin choice is
/// pending at the leaf.
pub fn trusted_leaf_prefix(leaf: State, myself: usize, private_choice_pending: bool) -> (r: Result<
    State,
    UnsupportedReason,
>)
    requires
        myself < 2,
    ensures
        match leaf_prefix_refusal(leaf, myself, private_choice_pending) {
            Some(reason) => r == Err::<State, UnsupportedReason>(reason),
            None => projected_turn_post(leaf, (1 - myself) as usize, r),
        },
{
    if leaf.turn_count == 0 || leaf.setup_opponent_hidden {
        return Err(UnsupportedReason::SetupConcealed);
    }
    if leaf.winner.is_some() {
        return Err(UnsupportedReason::TerminalState);
    }
    let opponent = 1 - myself;
    if leaf.current_player != opponent {
        return Err(UnsupportedReason::WrongActor);
    }
    if private_choice_pending {
        return Err(UnsupportedReason::PrivateChoice);
    }
    projected_free_opponent_turn(leaf, opponent)
}

} // verus!
