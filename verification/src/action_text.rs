//! The one-line text of an action, and its pieces: numbers, flags, Energy types, Special
//! Conditions and comma-separated lists of them.
use vstd::prelude::*;
use vstd::string::*;

use crate::abilities::DiscardSearchKind;
use crate::actions::SimpleAction;
use crate::models::{Card, EnergyType, StatusCondition};
use crate::text::{decimal, push_decimal};

verus! {

/// The items `f` gives for `s`, separated by ", ".
pub open spec fn joined<T>(s: Seq<T>, f: spec_fn(T) -> Seq<char>) -> Seq<char>
    decreases s.len(),
{
    if s.len() == 0 {
        Seq::empty()
    } else if s.len() == 1 {
        f(s[0])
    } else {
        joined(s.drop_last(), f) + ", "@ + f(s.last())
    }
}

pub open spec fn bool_text(b: bool) -> Seq<char> {
    if b {
        "true"@
    } else {
        "false"@
    }
}

pub open spec fn energy_text(e: EnergyType) -> Seq<char> {
    match e {
        EnergyType::Grass => "Grass"@,
        EnergyType::Fire => "Fire"@,
        EnergyType::Water => "Water"@,
        EnergyType::Lightning => "Lightning"@,
        EnergyType::Psychic => "Psychic"@,
        EnergyType::Fighting => "Fighting"@,
        EnergyType::Darkness => "Darkness"@,
        EnergyType::Metal => "Metal"@,
        EnergyType::Dragon => "Dragon"@,
        EnergyType::Colorless => "Colorless"@,
    }
}

pub open spec fn condition_text(c: StatusCondition) -> Seq<char> {
    match c {
        StatusCondition::Asleep => "Asleep"@,
        StatusCondition::Burned => "Burned"@,
        StatusCondition::Confused => "Confused"@,
        StatusCondition::Paralyzed => "Paralyzed"@,
        StatusCondition::Poisoned => "Poisoned"@,
    }
}

pub open spec fn search_kind_text(k: DiscardSearchKind) -> Seq<char> {
    match k {
        DiscardSearchKind::Supporter => "Supporter"@,
        DiscardSearchKind::Tool => "Tool"@,
    }
}

pub open spec fn energy_item() -> spec_fn(EnergyType) -> Seq<char> {
    |e: EnergyType| energy_text(e)
}

pub open spec fn condition_item() -> spec_fn(StatusCondition) -> Seq<char> {
    |c: StatusCondition| condition_text(c)
}

/// A card stands by its name.
pub open spec fn card_item() -> spec_fn(Card) -> Seq<char> {
    |c: Card| c.spec_name()
}

pub open spec fn index_item() -> spec_fn(usize) -> Seq<char> {
    |i: usize| decimal(i as nat)
}

/// `(amount, Energy, slot)`.
pub open spec fn attachment_item() -> spec_fn((u32, EnergyType, usize)) -> Seq<char> {
    |a: (u32, EnergyType, usize)|
        "("@ + decimal(a.0 as nat) + ", "@ + energy_text(a.1) + ", "@ + decimal(a.2 as nat) + ")"@
}

/// `(damage, player, slot)`.
pub open spec fn damage_target_item() -> spec_fn((u32, usize, usize)) -> Seq<char> {
    |t: (u32, usize, usize)|
        "("@ + decimal(t.0 as nat) + ", "@ + decimal(t.1 as nat) + ", "@ + decimal(t.2 as nat) + ")"@
}

/// `(damage, opponent:flag, slot)`.
pub open spec fn queued_target_item() -> spec_fn((u32, bool, usize)) -> Seq<char> {
    |t: (u32, bool, usize)|
        "("@ + decimal(t.0 as nat) + ", opponent:"@ + bool_text(t.1) + ", "@ + decimal(t.2 as nat) + ")"@
}

/// `(slot, [Energy, ...])`.
pub open spec fn transfer_item() -> spec_fn((usize, Vec<EnergyType>)) -> Seq<char> {
    |t: (usize, Vec<EnergyType>)| "("@ + decimal(t.0 as nat) + ", ["@ + joined(t.1@, energy_item()) + "])"@
}

/// `Energy→slot`.
pub open spec fn assignment_item() -> spec_fn((EnergyType, usize)) -> Seq<char> {
    |a: (EnergyType, usize)| energy_text(a.0) + "→"@ + decimal(a.1 as nat)
}

pub fn push_bool(s: &mut String, b: bool)
    ensures
        final(s)@ == old(s)@ + bool_text(b),
{
    if b {
        s.append("true");
    } else {
        s.append("false");
    }
}

pub fn push_energy(s: &mut String, e: EnergyType)
    ensures
        final(s)@ == old(s)@ + energy_text(e),
{
    match e {
        EnergyType::Grass => s.append("Grass"),
        EnergyType::Fire => s.append("Fire"),
        EnergyType::Water => s.append("Water"),
        EnergyType::Lightning => s.append("Lightning"),
        EnergyType::Psychic => s.append("Psychic"),
        EnergyType::Fighting => s.append("Fighting"),
        EnergyType::Darkness => s.append("Darkness"),
        EnergyType::Metal => s.append("Metal"),
        EnergyType::Dragon => s.append("Dragon"),
        EnergyType::Colorless => s.append("Colorless"),
    }
}

pub fn push_condition(s: &mut String, c: StatusCondition)
    ensures
        final(s)@ == old(s)@ + condition_text(c),
{
    match c {
        StatusCondition::Asleep => s.append("Asleep"),
        StatusCondition::Burned => s.append("Burned"),
        StatusCondition::Confused => s.append("Confused"),
        StatusCondition::Paralyzed => s.append("Paralyzed"),
        StatusCondition::Poisoned => s.append("Poisoned"),
    }
}

pub fn push_search_kind(s: &mut String, k: DiscardSearchKind)
    ensures
        final(s)@ == old(s)@ + search_kind_text(k),
{
    match k {
        DiscardSearchKind::Supporter => s.append("Supporter"),
        DiscardSearchKind::Tool => s.append("Tool"),
    }
}

/// The list of `items` joined after `prefix`, and one more item: the join grows by a separator
/// and the item.
proof fn lemma_joined_step<T>(items: Seq<T>, k: int, f: spec_fn(T) -> Seq<char>)
    requires
        0 <= k < items.len(),
    ensures
        joined(items.take(k + 1), f) == if k == 0 {
            f(items[k])
        } else {
            joined(items.take(k), f) + ", "@ + f(items[k])
        },
{
    assert(items.take(k + 1).drop_last() =~= items.take(k));
    assert(items.take(k + 1).last() == items[k]);
    if k == 0 {
        assert(items.take(k + 1)[0] == items[k]);
    }
}

/// Append a separator when `k > 0`.
fn push_separator(s: &mut String, k: usize)
    ensures
        final(s)@ == old(s)@ + if k == 0 {
            Seq::<char>::empty()
        } else {
            ", "@
        },
{
    if k > 0 {
        s.append(", ");
    } else {
        assert(old(s)@ + Seq::<char>::empty() =~= old(s)@);
    }
}

pub fn push_energies(s: &mut String, items: &[EnergyType])
    ensures
        final(s)@ == old(s)@ + joined(items@, energy_item()),
{
    let ghost s0 = s@;
    let n = items.len();
    for k in 0..n
        invariant
            n == items@.len(),
            s@ == s0 + joined(items@.take(k as int), energy_item()),
    {
        proof {
            lemma_joined_step(items@, k as int, energy_item());
        }
        push_separator(s, k);
        push_energy(s, items[k]);
        assert(s@ =~= s0 + joined(items@.take(k + 1), energy_item()));
    }
    assert(items@.take(n as int) =~= items@);
}

pub fn push_conditions(s: &mut String, items: &[StatusCondition])
    ensures
        final(s)@ == old(s)@ + joined(items@, condition_item()),
{
    let ghost s0 = s@;
    let n = items.len();
    for k in 0..n
        invariant
            n == items@.len(),
            s@ == s0 + joined(items@.take(k as int), condition_item()),
    {
        proof {
            lemma_joined_step(items@, k as int, condition_item());
        }
        push_separator(s, k);
        push_condition(s, items[k]);
        assert(s@ =~= s0 + joined(items@.take(k + 1), condition_item()));
    }
    assert(items@.take(n as int) =~= items@);
}

pub fn push_card_names(s: &mut String, items: &[Card])
    ensures
        final(s)@ == old(s)@ + joined(items@, card_item()),
{
    let ghost s0 = s@;
    let n = items.len();
    for k in 0..n
        invariant
            n == items@.len(),
            s@ == s0 + joined(items@.take(k as int), card_item()),
    {
        proof {
            lemma_joined_step(items@, k as int, card_item());
        }
        push_separator(s, k);
        let name = items[k].get_name();
        s.append(name.as_str());
        assert(s@ =~= s0 + joined(items@.take(k + 1), card_item()));
    }
    assert(items@.take(n as int) =~= items@);
}

pub fn push_indices(s: &mut String, items: &[usize])
    ensures
        final(s)@ == old(s)@ + joined(items@, index_item()),
{
    let ghost s0 = s@;
    let n = items.len();
    for k in 0..n
        invariant
            n == items@.len(),
            s@ == s0 + joined(items@.take(k as int), index_item()),
    {
        proof {
            lemma_joined_step(items@, k as int, index_item());
        }
        push_separator(s, k);
        push_decimal(s, items[k]);
        assert(s@ =~= s0 + joined(items@.take(k + 1), index_item()));
    }
    assert(items@.take(n as int) =~= items@);
}

fn push_attachment(s: &mut String, a: (u32, EnergyType, usize))
    ensures
        final(s)@ == old(s)@ + attachment_item()(a),
{
    let ghost s0 = s@;
    let (amount, energy, idx) = a;
    s.append("(");
    push_decimal(s, amount as usize);
    s.append(", ");
    push_energy(s, energy);
    s.append(", ");
    push_decimal(s, idx);
    s.append(")");
    assert(s@ =~= s0 + attachment_item()(a));
}

fn push_damage_target(s: &mut String, t: (u32, usize, usize))
    ensures
        final(s)@ == old(s)@ + damage_target_item()(t),
{
    let ghost s0 = s@;
    let (damage, player, idx) = t;
    s.append("(");
    push_decimal(s, damage as usize);
    s.append(", ");
    push_decimal(s, player);
    s.append(", ");
    push_decimal(s, idx);
    s.append(")");
    assert(s@ =~= s0 + damage_target_item()(t));
}

fn push_queued_target(s: &mut String, t: (u32, bool, usize))
    ensures
        final(s)@ == old(s)@ + queued_target_item()(t),
{
    let ghost s0 = s@;
    let (damage, opponent, idx) = t;
    s.append("(");
    push_decimal(s, damage as usize);
    s.append(", opponent:");
    push_bool(s, opponent);
    s.append(", ");
    push_decimal(s, idx);
    s.append(")");
    assert(s@ =~= s0 + queued_target_item()(t));
}

fn push_transfer(s: &mut String, t: &(usize, Vec<EnergyType>))
    ensures
        final(s)@ == old(s)@ + transfer_item()(*t),
{
    let ghost s0 = s@;
    let (idx, energies) = t;
    s.append("(");
    push_decimal(s, *idx);
    s.append(", [");
    push_energies(s, energies.as_slice());
    s.append("])");
    assert(s@ =~= s0 + transfer_item()(*t));
}

fn push_assignment(s: &mut String, a: (EnergyType, usize))
    ensures
        final(s)@ == old(s)@ + assignment_item()(a),
{
    let ghost s0 = s@;
    let (energy, idx) = a;
    push_energy(s, energy);
    s.append("→");
    push_decimal(s, idx);
    assert(s@ =~= s0 + assignment_item()(a));
}

pub fn push_attachments(s: &mut String, items: &[(u32, EnergyType, usize)])
    ensures
        final(s)@ == old(s)@ + joined(items@, attachment_item()),
{
    let ghost s0 = s@;
    let n = items.len();
    for k in 0..n
        invariant
            n == items@.len(),
            s@ == s0 + joined(items@.take(k as int), attachment_item()),
    {
        proof {
            lemma_joined_step(items@, k as int, attachment_item());
        }
        push_separator(s, k);
        push_attachment(s, items[k]);
        assert(s@ =~= s0 + joined(items@.take(k + 1), attachment_item()));
    }
    assert(items@.take(n as int) =~= items@);
}

pub fn push_damage_targets(s: &mut String, items: &[(u32, usize, usize)])
    ensures
        final(s)@ == old(s)@ + joined(items@, damage_target_item()),
{
    let ghost s0 = s@;
    let n = items.len();
    for k in 0..n
        invariant
            n == items@.len(),
            s@ == s0 + joined(items@.take(k as int), damage_target_item()),
    {
        proof {
            lemma_joined_step(items@, k as int, damage_target_item());
        }
        push_separator(s, k);
        push_damage_target(s, items[k]);
        assert(s@ =~= s0 + joined(items@.take(k + 1), damage_target_item()));
    }
    assert(items@.take(n as int) =~= items@);
}

pub fn push_queued_targets(s: &mut String, items: &[(u32, bool, usize)])
    ensures
        final(s)@ == old(s)@ + joined(items@, queued_target_item()),
{
    let ghost s0 = s@;
    let n = items.len();
    for k in 0..n
        invariant
            n == items@.len(),
            s@ == s0 + joined(items@.take(k as int), queued_target_item()),
    {
        proof {
            lemma_joined_step(items@, k as int, queued_target_item());
        }
        push_separator(s, k);
        push_queued_target(s, items[k]);
        assert(s@ =~= s0 + joined(items@.take(k + 1), queued_target_item()));
    }
    assert(items@.take(n as int) =~= items@);
}

pub fn push_transfers(s: &mut String, items: &[(usize, Vec<EnergyType>)])
    ensures
        final(s)@ == old(s)@ + joined(items@, transfer_item()),
{
    let ghost s0 = s@;
    let n = items.len();
    for k in 0..n
        invariant
            n == items@.len(),
            s@ == s0 + joined(items@.take(k as int), transfer_item()),
    {
        proof {
            lemma_joined_step(items@, k as int, transfer_item());
        }
        push_separator(s, k);
        push_transfer(s, &items[k]);
        assert(s@ =~= s0 + joined(items@.take(k + 1), transfer_item()));
    }
    assert(items@.take(n as int) =~= items@);
}

pub fn push_assignments(s: &mut String, items: &[(EnergyType, usize)])
    ensures
        final(s)@ == old(s)@ + joined(items@, assignment_item()),
{
    let ghost s0 = s@;
    let n = items.len();
    for k in 0..n
        invariant
            n == items@.len(),
            s@ == s0 + joined(items@.take(k as int), assignment_item()),
    {
        proof {
            lemma_joined_step(items@, k as int, assignment_item());
        }
        push_separator(s, k);
        push_assignment(s, items[k]);
        assert(s@ =~= s0 + joined(items@.take(k + 1), assignment_item()));
    }
    assert(items@.take(n as int) =~= items@);
}

/// The one-line text of an action, as logs and traces show it. Cards appear by name.
pub open spec fn spec_action_text(a: SimpleAction) -> Seq<char> {
    match a {
        SimpleAction::DrawCard { amount } => "DrawCard("@ + decimal(amount as nat) + ")"@,
        SimpleAction::Play { trainer_card } => "Play("@ + trainer_card.name@ + ")"@,
        SimpleAction::Place(card, index) => "Place("@
            + card.spec_name()
            + ", "@
            + decimal(index as nat)
            + ")"@,
        SimpleAction::Evolve { evolution, in_play_idx, from_deck } => "Evolve("@
            + evolution.spec_name()
            + ", "@
            + decimal(in_play_idx as nat)
            + ", from_deck: "@
            + bool_text(from_deck)
            + ")"@,
        SimpleAction::UseAbility { in_play_idx } => "UseAbility("@ + decimal(in_play_idx as nat) + ")"@,
        SimpleAction::Attack(attack) => "Attack("@ + attack.title@ + ")"@,
        SimpleAction::Retreat(index) => "Retreat("@ + decimal(index as nat) + ")"@,
        SimpleAction::EndTurn => "EndTurn"@,
        SimpleAction::Attach { attachments, is_turn_energy } => "Attach(\""@
            + joined(attachments@, attachment_item())
            + "\", "@
            + bool_text(is_turn_energy)
            + ")"@,
        SimpleAction::MoveEnergy { from_in_play_idx, to_in_play_idx, energy_type, amount } => "MoveEnergy(from:"@
            + decimal(from_in_play_idx as nat)
            + ", to:"@
            + decimal(to_in_play_idx as nat)
            + ", "@
            + decimal(amount as nat)
            + "x "@
            + energy_text(energy_type)
            + ")"@,
        SimpleAction::MoveEnergies { from_in_play_idx, to_in_play_idx, energies } => "MoveEnergies(from:"@
            + decimal(from_in_play_idx as nat)
            + ", to:"@
            + decimal(to_in_play_idx as nat)
            + ", ["@
            + joined(energies@, energy_item())
            + "])"@,
        SimpleAction::AttachTool { in_play_idx, tool_card } => "AttachTool("@
            + decimal(in_play_idx as nat)
            + ", "@
            + tool_card.spec_name()
            + ")"@,
        SimpleAction::Heal { in_play_idx, amount, cure_status } => "Heal("@
            + decimal(in_play_idx as nat)
            + ", "@
            + decimal(amount as nat)
            + ", cure:"@
            + bool_text(cure_status)
            + ")"@,
        SimpleAction::HealAndDiscardEnergy { in_play_idx, heal_amount, discard_energies } => "HealAndDiscardEnergy("@
            + decimal(in_play_idx as nat)
            + ", "@
            + decimal(heal_amount as nat)
            + ", ["@
            + joined(discard_energies@, energy_item())
            + "])"@,
        SimpleAction::HealAndCureConditions { in_play_idx, amount, conditions } => "HealAndCureConditions("@
            + decimal(in_play_idx as nat)
            + ", "@
            + decimal(amount as nat)
            + ", ["@
            + joined(conditions@, condition_item())
            + "])"@,
        SimpleAction::MoveAllDamage { from, to } => "MoveAllDamage(from:"@
            + decimal(from as nat)
            + ", to:"@
            + decimal(to as nat)
            + ")"@,
        SimpleAction::MoveDamageToOpponentActive { from_in_play_idx, amount } => "MoveDamageToOpponentActive("@
            + decimal(from_in_play_idx as nat)
            + ", "@
            + decimal(amount as nat)
            + ")"@,
        SimpleAction::ApplyDamage { attacking_player, attacking_in_play_idx, targets, is_from_active_attack } => "ApplyDamage(attacker:("@
            + decimal(attacking_player as nat)
            + ", "@
            + decimal(attacking_in_play_idx as nat)
            + "), targets:["@
            + joined(targets@, damage_target_item())
            + "], from_active:"@
            + bool_text(is_from_active_attack)
            + ")"@,
        SimpleAction::ApplyQueuedAttackDamage { attack, targets } => "ApplyQueuedAttackDamage("@
            + attack.title@
            + ", targets:["@
            + joined(targets@, queued_target_item())
            + "])"@,
        SimpleAction::ScheduleDelayedSpotDamage { target_player, target_in_play_idx, amount, knock_out } => "ScheduleDelayedSpotDamage(target:"@
            + decimal(target_player as nat)
            + ":"@
            + decimal(target_in_play_idx as nat)
            + ", amount:"@
            + decimal(amount as nat)
            + ", ko:"@
            + bool_text(knock_out)
            + ")"@,
        SimpleAction::ConsolidateEnergyToPokemon { to_in_play_idx, transfers } => "ConsolidateEnergyToPokemon(to:"@
            + decimal(to_in_play_idx as nat)
            + ", ["@
            + joined(transfers@, transfer_item())
            + "])"@,
        SimpleAction::Activate { player, in_play_idx } => "Activate("@
            + decimal(player as nat)
            + ", "@
            + decimal(in_play_idx as nat)
            + ")"@,
        SimpleAction::Promote { player, in_play_idx } => "Promote("@
            + decimal(player as nat)
            + ", "@
            + decimal(in_play_idx as nat)
            + ")"@,
        SimpleAction::CommunicatePokemon { hand_pokemon } => "CommunicatePokemon("@
            + hand_pokemon.spec_name()
            + ")"@,
        SimpleAction::ShufflePokemonIntoDeck { hand_pokemon } => "ShufflePokemonIntoDeck(["@
            + joined(hand_pokemon@, card_item())
            + "])"@,
        SimpleAction::ShuffleOwnCardsIntoDeck { cards } => "ShuffleOwnCardsIntoDeck(["@
            + joined(cards@, card_item())
            + "])"@,
        SimpleAction::SwitchHandCardForRandomTool { hand_card } => "SwitchHandCardForRandomTool("@
            + hand_card.spec_name()
            + ")"@,
        SimpleAction::ShuffleOpponentHandCard { card } => "ShuffleOpponentHandCard("@
            + card.spec_name()
            + ")"@,
        SimpleAction::DiscardOpponentSupporter { supporter_card } => "DiscardOpponentSupporter("@
            + supporter_card.spec_name()
            + ")"@,
        SimpleAction::DiscardOwnCards { cards } => "DiscardOwnCards(["@ + joined(cards@, card_item()) + "])"@,
        SimpleAction::DiscardOwnCardsForAttackDamage { cards, damage_per_card } => "DiscardOwnCardsForAttackDamage(["@
            + joined(cards@, card_item())
            + "], "@
            + decimal(damage_per_card as nat)
            + ")"@,
        SimpleAction::AttachFromDiscard { in_play_idx, num_random_energies } => "AttachFromDiscard("@
            + decimal(in_play_idx as nat)
            + ", "@
            + decimal(num_random_energies as nat)
            + ")"@,
        SimpleAction::AttachTypedFromDiscard { in_play_idx, energy_type, count } => "AttachTypedFromDiscard("@
            + decimal(in_play_idx as nat)
            + ", "@
            + energy_text(energy_type)
            + ", "@
            + decimal(count as nat)
            + ")"@,
        SimpleAction::SadaAttach { assignments } => "SadaAttach(["@
            + joined(assignments@, assignment_item())
            + "])"@,
        SimpleAction::ApplyEeveeBagDamageBoost => "ApplyEeveeBagDamageBoost"@,
        SimpleAction::HealAllEeveeEvolutions => "HealAllEeveeEvolutions"@,
        SimpleAction::DiscardFossil { in_play_idx } => "DiscardFossil("@ + decimal(in_play_idx as nat) + ")"@,
        SimpleAction::UseStadium => "UseStadium"@,
        SimpleAction::ReturnPokemonToHand { in_play_idx } => "ReturnPokemonToHand("@
            + decimal(in_play_idx as nat)
            + ")"@,
        SimpleAction::ShuffleInPlayPokemonIntoDeck { in_play_idx } => "ShuffleInPlayPokemonIntoDeck("@
            + decimal(in_play_idx as nat)
            + ")"@,
        SimpleAction::DiscardToolFromPokemon { player, in_play_idx, tool_idx } => "DiscardToolFromPokemon("@
            + decimal(player as nat)
            + ", "@
            + decimal(in_play_idx as nat)
            + ", "@
            + decimal(tool_idx as nat)
            + ")"@,
        SimpleAction::DiscardActiveStadium => "DiscardActiveStadium"@,
        SimpleAction::BenchOpponentFromDiscard { card, bench_idx } => "BenchOpponentFromDiscard("@
            + card.spec_name()
            + ", "@
            + decimal(bench_idx as nat)
            + ")"@,
        SimpleAction::BenchOpponentHandBasics { cards } => "BenchOpponentHandBasics(["@
            + joined(cards@, card_item())
            + "])"@,
        SimpleAction::PutCardFromDiscardToHand { card } => "PutCardFromDiscardToHand("@
            + card.spec_name()
            + ")"@,
        SimpleAction::PutRandomCardsFromDiscardToHand { card_kind, amount } => "PutRandomCardsFromDiscardToHand("@
            + search_kind_text(card_kind)
            + ", "@
            + decimal(amount as nat)
            + ")"@,
        SimpleAction::DiscardRandomOpponentActiveEnergy => "DiscardRandomOpponentActiveEnergy"@,
        SimpleAction::ShuffleRandomOpponentHandCard => "ShuffleRandomOpponentHandCard"@,
        SimpleAction::OpponentShuffleHandAndDrawRemainingPoints => "OpponentShuffleHandAndDrawRemainingPoints"@
,
        SimpleAction::MoveRandomOpponentEnergyToActive { from_in_play_idx } => "MoveRandomOpponentEnergyToActive("@
            + decimal(from_in_play_idx as nat)
            + ")"@,
        SimpleAction::ApplyStatusToOpponentActive { condition } => "ApplyStatusToOpponentActive("@
            + condition_text(condition)
            + ")"@,
        SimpleAction::DiscardOwnBenchedThenDamage { in_play_idxs, damage } => "DiscardOwnBenchedThenDamage(["@
            + joined(in_play_idxs@, index_item())
            + "], "@
            + decimal(damage as nat)
            + ")"@,
        SimpleAction::KeepAttackCoinResults => "KeepAttackCoinResults"@,
        SimpleAction::RerollAttackCoins { victory_star_in_play_idx } => "RerollAttackCoins(VictoryStar:"@
            + decimal(victory_star_in_play_idx as nat)
            + ")"@,
        SimpleAction::KeepTrainerCoinResults => "KeepTrainerCoinResults"@,
        SimpleAction::RerollTrainerCoins { luxury_coin_in_play_idx } => "RerollTrainerCoins(LuxuryCoin:"@
            + decimal(luxury_coin_in_play_idx as nat)
            + ")"@,
        SimpleAction::ChooseMistyTarget { in_play_idx } => "ChooseMistyTarget("@
            + decimal(in_play_idx as nat)
            + ")"@,
        SimpleAction::Noop => "Noop"@,
    }
}

impl SimpleAction {
    /// The one-line text of this action (see `spec_action_text`).
    #[verifier::rlimit(50)]
    pub fn to_text(&self) -> (r: String)
        ensures
            r@ == spec_action_text(*self),
    {
        match self {
            SimpleAction::DrawCard { amount } => {
                let mut s = "DrawCard(".to_owned();
                push_decimal(&mut s, *amount as usize);
                s.append(")");
                s
            },
            SimpleAction::Play { trainer_card } => {
                let mut s = "Play(".to_owned();
                s.append(trainer_card.name.as_str());
                s.append(")");
                s
            },
            SimpleAction::Place(card, index) => {
                let mut s = "Place(".to_owned();
                s.append(card.get_name().as_str());
                s.append(", ");
                push_decimal(&mut s, *index);
                s.append(")");
                s
            },
            SimpleAction::Evolve { evolution, in_play_idx, from_deck } => {
                let mut s = "Evolve(".to_owned();
                s.append(evolution.get_name().as_str());
                s.append(", ");
                push_decimal(&mut s, *in_play_idx);
                s.append(", from_deck: ");
                push_bool(&mut s, *from_deck);
                s.append(")");
                s
            },
            SimpleAction::UseAbility { in_play_idx } => {
                let mut s = "UseAbility(".to_owned();
                push_decimal(&mut s, *in_play_idx);
                s.append(")");
                s
            },
            SimpleAction::Attack(attack) => {
                let mut s = "Attack(".to_owned();
                s.append(attack.title.as_str());
                s.append(")");
                s
            },
            SimpleAction::Retreat(index) => {
                let mut s = "Retreat(".to_owned();
                push_decimal(&mut s, *index);
                s.append(")");
                s
            },
            SimpleAction::EndTurn => {
                let mut s = "EndTurn".to_owned();
                s
            },
            SimpleAction::Attach { attachments, is_turn_energy } => {
                let mut s = "Attach(\"".to_owned();
                push_attachments(&mut s, attachments.as_slice());
                s.append("\", ");
                push_bool(&mut s, *is_turn_energy);
                s.append(")");
                s
            },
            SimpleAction::MoveEnergy { from_in_play_idx, to_in_play_idx, energy_type, amount } => {
                let mut s = "MoveEnergy(from:".to_owned();
                push_decimal(&mut s, *from_in_play_idx);
                s.append(", to:");
                push_decimal(&mut s, *to_in_play_idx);
                s.append(", ");
                push_decimal(&mut s, *amount as usize);
                s.append("x ");
                push_energy(&mut s, *energy_type);
                s.append(")");
                s
            },
            SimpleAction::MoveEnergies { from_in_play_idx, to_in_play_idx, energies } => {
                let mut s = "MoveEnergies(from:".to_owned();
                push_decimal(&mut s, *from_in_play_idx);
                s.append(", to:");
                push_decimal(&mut s, *to_in_play_idx);
                s.append(", [");
                push_energies(&mut s, energies.as_slice());
                s.append("])");
                s
            },
            SimpleAction::AttachTool { in_play_idx, tool_card } => {
                let mut s = "AttachTool(".to_owned();
                push_decimal(&mut s, *in_play_idx);
                s.append(", ");
                s.append(tool_card.get_name().as_str());
                s.append(")");
                s
            },
            SimpleAction::Heal { in_play_idx, amount, cure_status } => {
                let mut s = "Heal(".to_owned();
                push_decimal(&mut s, *in_play_idx);
                s.append(", ");
                push_decimal(&mut s, *amount as usize);
                s.append(", cure:");
                push_bool(&mut s, *cure_status);
                s.append(")");
                s
            },
            SimpleAction::HealAndDiscardEnergy { in_play_idx, heal_amount, discard_energies } => {
                let mut s = "HealAndDiscardEnergy(".to_owned();
                push_decimal(&mut s, *in_play_idx);
                s.append(", ");
                push_decimal(&mut s, *heal_amount as usize);
                s.append(", [");
                push_energies(&mut s, discard_energies.as_slice());
                s.append("])");
                s
            },
            SimpleAction::HealAndCureConditions { in_play_idx, amount, conditions } => {
                let mut s = "HealAndCureConditions(".to_owned();
                push_decimal(&mut s, *in_play_idx);
                s.append(", ");
                push_decimal(&mut s, *amount as usize);
                s.append(", [");
                push_conditions(&mut s, conditions.as_slice());
                s.append("])");
                s
            },
            SimpleAction::MoveAllDamage { from, to } => {
                let mut s = "MoveAllDamage(from:".to_owned();
                push_decimal(&mut s, *from);
                s.append(", to:");
                push_decimal(&mut s, *to);
                s.append(")");
                s
            },
            SimpleAction::MoveDamageToOpponentActive { from_in_play_idx, amount } => {
                let mut s = "MoveDamageToOpponentActive(".to_owned();
                push_decimal(&mut s, *from_in_play_idx);
                s.append(", ");
                push_decimal(&mut s, *amount as usize);
                s.append(")");
                s
            },
            SimpleAction::ApplyDamage { attacking_player, attacking_in_play_idx, targets, is_from_active_attack } => {
                let mut s = "ApplyDamage(attacker:(".to_owned();
                push_decimal(&mut s, *attacking_player);
                s.append(", ");
                push_decimal(&mut s, *attacking_in_play_idx);
                s.append("), targets:[");
                push_damage_targets(&mut s, targets.as_slice());
                s.append("], from_active:");
                push_bool(&mut s, *is_from_active_attack);
                s.append(")");
                s
            },
            SimpleAction::ApplyQueuedAttackDamage { attack, targets } => {
                let mut s = "ApplyQueuedAttackDamage(".to_owned();
                s.append(attack.title.as_str());
                s.append(", targets:[");
                push_queued_targets(&mut s, targets.as_slice());
                s.append("])");
                s
            },
            SimpleAction::ScheduleDelayedSpotDamage { target_player, target_in_play_idx, amount, knock_out } => {
                let mut s = "ScheduleDelayedSpotDamage(target:".to_owned();
                push_decimal(&mut s, *target_player);
                s.append(":");
                push_decimal(&mut s, *target_in_play_idx);
                s.append(", amount:");
                push_decimal(&mut s, *amount as usize);
                s.append(", ko:");
                push_bool(&mut s, *knock_out);
                s.append(")");
                s
            },
            SimpleAction::ConsolidateEnergyToPokemon { to_in_play_idx, transfers } => {
                let mut s = "ConsolidateEnergyToPokemon(to:".to_owned();
                push_decimal(&mut s, *to_in_play_idx);
                s.append(", [");
                push_transfers(&mut s, transfers.as_slice());
                s.append("])");
                s
            },
            SimpleAction::Activate { player, in_play_idx } => {
                let mut s = "Activate(".to_owned();
                push_decimal(&mut s, *player);
                s.append(", ");
                push_decimal(&mut s, *in_play_idx);
                s.append(")");
                s
            },
            SimpleAction::Promote { player, in_play_idx } => {
                let mut s = "Promote(".to_owned();
                push_decimal(&mut s, *player);
                s.append(", ");
                push_decimal(&mut s, *in_play_idx);
                s.append(")");
                s
            },
            SimpleAction::CommunicatePokemon { hand_pokemon } => {
                let mut s = "CommunicatePokemon(".to_owned();
                s.append(hand_pokemon.get_name().as_str());
                s.append(")");
                s
            },
            SimpleAction::ShufflePokemonIntoDeck { hand_pokemon } => {
                let mut s = "ShufflePokemonIntoDeck([".to_owned();
                push_card_names(&mut s, hand_pokemon.as_slice());
                s.append("])");
                s
            },
            SimpleAction::ShuffleOwnCardsIntoDeck { cards } => {
                let mut s = "ShuffleOwnCardsIntoDeck([".to_owned();
                push_card_names(&mut s, cards.as_slice());
                s.append("])");
                s
            },
            SimpleAction::SwitchHandCardForRandomTool { hand_card } => {
                let mut s = "SwitchHandCardForRandomTool(".to_owned();
                s.append(hand_card.get_name().as_str());
                s.append(")");
                s
            },
            SimpleAction::ShuffleOpponentHandCard { card } => {
                let mut s = "ShuffleOpponentHandCard(".to_owned();
                s.append(card.get_name().as_str());
                s.append(")");
                s
            },
            SimpleAction::DiscardOpponentSupporter { supporter_card } => {
                let mut s = "DiscardOpponentSupporter(".to_owned();
                s.append(supporter_card.get_name().as_str());
                s.append(")");
                s
            },
            SimpleAction::DiscardOwnCards { cards } => {
                let mut s = "DiscardOwnCards([".to_owned();
                push_card_names(&mut s, cards.as_slice());
                s.append("])");
                s
            },
            SimpleAction::DiscardOwnCardsForAttackDamage { cards, damage_per_card } => {
                let mut s = "DiscardOwnCardsForAttackDamage([".to_owned();
                push_card_names(&mut s, cards.as_slice());
                s.append("], ");
                push_decimal(&mut s, *damage_per_card as usize);
                s.append(")");
                s
            },
            SimpleAction::AttachFromDiscard { in_play_idx, num_random_energies } => {
                let mut s = "AttachFromDiscard(".to_owned();
                push_decimal(&mut s, *in_play_idx);
                s.append(", ");
                push_decimal(&mut s, *num_random_energies);
                s.append(")");
                s
            },
            SimpleAction::AttachTypedFromDiscard { in_play_idx, energy_type, count } => {
                let mut s = "AttachTypedFromDiscard(".to_owned();
                push_decimal(&mut s, *in_play_idx);
                s.append(", ");
                push_energy(&mut s, *energy_type);
                s.append(", ");
                push_decimal(&mut s, *count);
                s.append(")");
                s
            },
            SimpleAction::SadaAttach { assignments } => {
                let mut s = "SadaAttach([".to_owned();
                push_assignments(&mut s, assignments.as_slice());
                s.append("])");
                s
            },
            SimpleAction::ApplyEeveeBagDamageBoost => {
                let mut s = "ApplyEeveeBagDamageBoost".to_owned();
                s
            },
            SimpleAction::HealAllEeveeEvolutions => {
                let mut s = "HealAllEeveeEvolutions".to_owned();
                s
            },
            SimpleAction::DiscardFossil { in_play_idx } => {
                let mut s = "DiscardFossil(".to_owned();
                push_decimal(&mut s, *in_play_idx);
                s.append(")");
                s
            },
            SimpleAction::UseStadium => {
                let mut s = "UseStadium".to_owned();
                s
            },
            SimpleAction::ReturnPokemonToHand { in_play_idx } => {
                let mut s = "ReturnPokemonToHand(".to_owned();
                push_decimal(&mut s, *in_play_idx);
                s.append(")");
                s
            },
            SimpleAction::ShuffleInPlayPokemonIntoDeck { in_play_idx } => {
                let mut s = "ShuffleInPlayPokemonIntoDeck(".to_owned();
                push_decimal(&mut s, *in_play_idx);
                s.append(")");
                s
            },
            SimpleAction::DiscardToolFromPokemon { player, in_play_idx, tool_idx } => {
                let mut s = "DiscardToolFromPokemon(".to_owned();
                push_decimal(&mut s, *player);
                s.append(", ");
                push_decimal(&mut s, *in_play_idx);
                s.append(", ");
                push_decimal(&mut s, *tool_idx);
                s.append(")");
                s
            },
            SimpleAction::DiscardActiveStadium => {
                let mut s = "DiscardActiveStadium".to_owned();
                s
            },
            SimpleAction::BenchOpponentFromDiscard { card, bench_idx } => {
                let mut s = "BenchOpponentFromDiscard(".to_owned();
                s.append(card.get_name().as_str());
                s.append(", ");
                push_decimal(&mut s, *bench_idx);
                s.append(")");
                s
            },
            SimpleAction::BenchOpponentHandBasics { cards } => {
                let mut s = "BenchOpponentHandBasics([".to_owned();
                push_card_names(&mut s, cards.as_slice());
                s.append("])");
                s
            },
            SimpleAction::PutCardFromDiscardToHand { card } => {
                let mut s = "PutCardFromDiscardToHand(".to_owned();
                s.append(card.get_name().as_str());
                s.append(")");
                s
            },
            SimpleAction::PutRandomCardsFromDiscardToHand { card_kind, amount } => {
                let mut s = "PutRandomCardsFromDiscardToHand(".to_owned();
                push_search_kind(&mut s, *card_kind);
                s.append(", ");
                push_decimal(&mut s, *amount as usize);
                s.append(")");
                s
            },
            SimpleAction::DiscardRandomOpponentActiveEnergy => {
                let mut s = "DiscardRandomOpponentActiveEnergy".to_owned();
                s
            },
            SimpleAction::ShuffleRandomOpponentHandCard => {
                let mut s = "ShuffleRandomOpponentHandCard".to_owned();
                s
            },
            SimpleAction::OpponentShuffleHandAndDrawRemainingPoints => {
                let mut s = "OpponentShuffleHandAndDrawRemainingPoints".to_owned();
                s
            },
            SimpleAction::MoveRandomOpponentEnergyToActive { from_in_play_idx } => {
                let mut s = "MoveRandomOpponentEnergyToActive(".to_owned();
                push_decimal(&mut s, *from_in_play_idx);
                s.append(")");
                s
            },
            SimpleAction::ApplyStatusToOpponentActive { condition } => {
                let mut s = "ApplyStatusToOpponentActive(".to_owned();
                push_condition(&mut s, *condition);
                s.append(")");
                s
            },
            SimpleAction::DiscardOwnBenchedThenDamage { in_play_idxs, damage } => {
                let mut s = "DiscardOwnBenchedThenDamage([".to_owned();
                push_indices(&mut s, in_play_idxs.as_slice());
                s.append("], ");
                push_decimal(&mut s, *damage as usize);
                s.append(")");
                s
            },
            SimpleAction::KeepAttackCoinResults => {
                let mut s = "KeepAttackCoinResults".to_owned();
                s
            },
            SimpleAction::RerollAttackCoins { victory_star_in_play_idx } => {
                let mut s = "RerollAttackCoins(VictoryStar:".to_owned();
                push_decimal(&mut s, *victory_star_in_play_idx);
                s.append(")");
                s
            },
            SimpleAction::KeepTrainerCoinResults => {
                let mut s = "KeepTrainerCoinResults".to_owned();
                s
            },
            SimpleAction::RerollTrainerCoins { luxury_coin_in_play_idx } => {
                let mut s = "RerollTrainerCoins(LuxuryCoin:".to_owned();
                push_decimal(&mut s, *luxury_coin_in_play_idx);
                s.append(")");
                s
            },
            SimpleAction::ChooseMistyTarget { in_play_idx } => {
                let mut s = "ChooseMistyTarget(".to_owned();
                push_decimal(&mut s, *in_play_idx);
                s.append(")");
                s
            },
            SimpleAction::Noop => {
                let mut s = "Noop".to_owned();
                s
            },
        }
    }
}

} // verus!
