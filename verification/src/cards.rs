//! Telling cards apart and copying them: two cards are the same card when every printed field
//! agrees, the text fields by their characters.
use vstd::prelude::*;

use crate::models::{Ability, Attack, Card, EnergyType, PokemonCard, TrainerCard};

verus! {

pub open spec fn text_of(o: Option<String>) -> Option<Seq<char>> {
    match o {
        Some(s) => Some(s@),
        None => None,
    }
}

pub open spec fn same_attack(a: Attack, b: Attack) -> bool {
    &&& a.energy_required@ == b.energy_required@
    &&& a.title@ == b.title@
    &&& a.fixed_damage == b.fixed_damage
    &&& text_of(a.effect) == text_of(b.effect)
}

pub open spec fn same_ability(a: Option<Ability>, b: Option<Ability>) -> bool {
    match (a, b) {
        (None, None) => true,
        (Some(x), Some(y)) => x.title@ == y.title@ && x.effect@ == y.effect@,
        _ => false,
    }
}

pub open spec fn same_attacks(a: Seq<Attack>, b: Seq<Attack>) -> bool {
    a.len() == b.len() && forall|i: int| 0 <= i < a.len() ==> #[trigger] same_attack(a[i], b[i])
}

pub open spec fn same_pokemon_card(a: PokemonCard, b: PokemonCard) -> bool {
    &&& a.id@ == b.id@
    &&& a.name@ == b.name@
    &&& a.stage == b.stage
    &&& text_of(a.evolves_from) == text_of(b.evolves_from)
    &&& a.hp == b.hp
    &&& a.energy_type == b.energy_type
    &&& same_ability(a.ability, b.ability)
    &&& same_attacks(a.attacks@, b.attacks@)
    &&& a.weakness == b.weakness
    &&& a.retreat_cost@ == b.retreat_cost@
}

pub open spec fn same_trainer_card(a: TrainerCard, b: TrainerCard) -> bool {
    &&& a.id@ == b.id@
    &&& a.name@ == b.name@
    &&& a.effect@ == b.effect@
    &&& a.trainer_card_type == b.trainer_card_type
}

/// Whether `a` and `b` are the same card.
pub open spec fn same_card(a: Card, b: Card) -> bool {
    match (a, b) {
        (Card::Pokemon(x), Card::Pokemon(y)) => same_pokemon_card(x, y),
        (Card::Trainer(x), Card::Trainer(y)) => same_trainer_card(x, y),
        (Card::Unknown, Card::Unknown) => true,
        _ => false,
    }
}

/// The first index of a card in `cards` that is the same card as `card`, or `cards.len()`.
pub open spec fn first_card_index(cards: Seq<Card>, card: Card, i: int) -> int
    decreases cards.len() - i,
{
    if i >= cards.len() || i < 0 {
        cards.len() as int
    } else if same_card(cards[i], card) {
        i
    } else {
        first_card_index(cards, card, i + 1)
    }
}

fn energies_equal(a: &[EnergyType], b: &[EnergyType]) -> (r: bool)
    ensures
        r == (a@ == b@),
{
    if a.len() != b.len() {
        return false;
    }
    let n = a.len();
    for i in 0..n
        invariant
            n == a@.len(),
            n == b@.len(),
            forall|j: int| 0 <= j < i ==> a@[j] == b@[j],
    {
        if a[i] != b[i] {
            return false;
        }
    }
    assert(a@ =~= b@);
    true
}

fn texts_equal(a: &Option<String>, b: &Option<String>) -> (r: bool)
    ensures
        r == (text_of(*a) == text_of(*b)),
{
    match (a, b) {
        (Some(x), Some(y)) => crate::text::str_equal(x.as_str(), y.as_str()),
        (None, None) => true,
        _ => false,
    }
}

fn attacks_equal(a: &Vec<Attack>, b: &Vec<Attack>) -> (r: bool)
    ensures
        r == same_attacks(a@, b@),
{
    if a.len() != b.len() {
        return false;
    }
    let n = a.len();
    for i in 0..n
        invariant
            n == a@.len(),
            n == b@.len(),
            forall|j: int| 0 <= j < i ==> #[trigger] same_attack(a@[j], b@[j]),
    {
        let x = &a[i];
        let y = &b[i];
        if !(energies_equal(x.energy_required.as_slice(), y.energy_required.as_slice()) && x.title == y.title
            && x.fixed_damage == y.fixed_damage && texts_equal(&x.effect, &y.effect)) {
            assert(!same_attack(a@[i as int], b@[i as int]));
            return false;
        }
    }
    true
}

fn abilities_equal(a: &Option<Ability>, b: &Option<Ability>) -> (r: bool)
    ensures
        r == same_ability(*a, *b),
{
    match (a, b) {
        (Some(x), Some(y)) => x.title == y.title && x.effect == y.effect,
        (None, None) => true,
        _ => false,
    }
}

/// Whether `a` and `b` are the same card.
pub fn cards_match(a: &Card, b: &Card) -> (r: bool)
    ensures
        r == same_card(*a, *b),
{
    match (a, b) {
        (Card::Pokemon(x), Card::Pokemon(y)) => {
            x.id == y.id && x.name == y.name && x.stage == y.stage && texts_equal(&x.evolves_from, &y.evolves_from)
                && x.hp == y.hp && x.energy_type == y.energy_type && abilities_equal(&x.ability, &y.ability)
                && attacks_equal(&x.attacks, &y.attacks) && x.weakness == y.weakness && energies_equal(
                x.retreat_cost.as_slice(),
                y.retreat_cost.as_slice(),
            )
        },
        (Card::Trainer(x), Card::Trainer(y)) => x.id == y.id && x.name == y.name && x.effect == y.effect
            && x.trainer_card_type == y.trainer_card_type,
        (Card::Unknown, Card::Unknown) => true,
        _ => false,
    }
}

/// The first index of a card in `cards` that is the same card as `card`, or `cards.len()`.
pub fn find_card(cards: &Vec<Card>, card: &Card) -> (r: usize)
    ensures
        r as int == first_card_index(cards@, *card, 0),
{
    let n = cards.len();
    let mut i: usize = 0;
    while i < n
        invariant
            n == cards@.len(),
            i <= n,
            first_card_index(cards@, *card, 0) == first_card_index(cards@, *card, i as int),
        decreases n - i,
    {
        if cards_match(&cards[i], card) {
            return i;
        }
        i += 1;
    }
    n
}

fn copy_text(o: &Option<String>) -> (r: Option<String>)
    ensures
        text_of(r) == text_of(*o),
{
    match o {
        Some(s) => Some(s.clone()),
        None => None,
    }
}

fn copy_energies(v: &Vec<EnergyType>) -> (r: Vec<EnergyType>)
    ensures
        r@ == v@,
{
    let mut r: Vec<EnergyType> = Vec::new();
    let n = v.len();
    for i in 0..n
        invariant
            n == v@.len(),
            r@ == v@.take(i as int),
    {
        r.push(v[i]);
        assert(v@.take(i + 1) =~= v@.take(i as int).push(v@[i as int]));
    }
    assert(v@.take(n as int) =~= v@);
    r
}

/// A copy of `card` that is the same card.
pub fn copy_card(card: &Card) -> (r: Card)
    ensures
        same_card(r, *card),
{
    match card {
        Card::Pokemon(p) => {
            let mut attacks: Vec<Attack> = Vec::new();
            let n = p.attacks.len();
            for i in 0..n
                invariant
                    n == p.attacks@.len(),
                    attacks@.len() == i,
                    forall|j: int| 0 <= j < i ==> #[trigger] same_attack(attacks@[j], p.attacks@[j]),
            {
                let a = &p.attacks[i];
                attacks.push(
                    Attack {
                        energy_required: copy_energies(&a.energy_required),
                        title: a.title.clone(),
                        fixed_damage: a.fixed_damage,
                        effect: copy_text(&a.effect),
                    },
                );
            }
            let ability = match &p.ability {
                Some(a) => Some(Ability { title: a.title.clone(), effect: a.effect.clone() }),
                None => None,
            };
            Card::Pokemon(
                PokemonCard {
                    id: p.id.clone(),
                    name: p.name.clone(),
                    stage: p.stage,
                    evolves_from: copy_text(&p.evolves_from),
                    hp: p.hp,
                    energy_type: p.energy_type,
                    ability,
                    attacks,
                    weakness: p.weakness,
                    retreat_cost: copy_energies(&p.retreat_cost),
                },
            )
        },
        Card::Trainer(t) => Card::Trainer(
            TrainerCard {
                id: t.id.clone(),
                name: t.name.clone(),
                effect: t.effect.clone(),
                trainer_card_type: t.trainer_card_type,
            },
        ),
        Card::Unknown => Card::Unknown,
    }
}

} // verus!
