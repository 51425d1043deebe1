//! Player strategies as named on the command line, and the case-insensitive parser of their
//! codes.
use vstd::prelude::*;
use vstd::string::*;

use crate::models::Deck;
use crate::search::SearchFlags;
use crate::text::{ascii_lower_seq, decimal, push_zero_padded, to_ascii_lowercase_chars, zero_padded};

verus! {

/// The player that picks the action whose result the value function scores highest.
#[derive(Debug, Clone)]
pub struct ValueFunctionPlayer {
    pub deck: Deck,
}

/// The allowed player strategies.
#[derive(Debug, Clone, Copy, PartialEq, Eq, Structural)]
pub enum PlayerCode {
    AA,
    ET,
    R,
    H,
    W,
    M,
    V,
    /// ExpectiMiniMax to the given depth.
    E { max_depth: usize },
    /// `E` with the value function limited to public information.
    P { max_depth: usize },
    /// `P` with the damage- and development-aware board term.
    D { max_depth: usize },
    /// `D` with effect-aware attack-damage estimation.
    F { max_depth: usize },
    /// `F` with spread-damage classes and the discard-energy credit.
    G { max_depth: usize },
    /// `P` plus a bounded public search into the opponent's turn.
    X { max_depth: usize, opponent_ply: usize },
    /// `X` with every leaf priced through the opponent's best public reply.
    Y { max_depth: usize, opponent_ply: usize },
    /// `Y` with the opponent's turn scored as an expectation.
    S { max_depth: usize, opponent_ply: usize },
    /// Evolution Rusher.
    ER,
    /// Search to the given depth with the `k` tier.
    K { max_depth: usize },
    /// The Jev action scorer.
    Jev,
}

pub open spec fn is_ascii_digit(c: char) -> bool {
    '0' <= c && c <= '9'
}

pub open spec fn all_digits(d: Seq<char>) -> bool {
    forall|i: int| 0 <= i < d.len() ==> is_ascii_digit(#[trigger] d[i])
}

/// The number the decimal digits `d` spell.
pub open spec fn digits_value(d: Seq<char>) -> nat
    decreases d.len(),
{
    if d.len() == 0 {
        0
    } else {
        digits_value(d.drop_last()) * 10 + ((d.last() as u32) - ('0' as u32)) as nat
    }
}

/// `<usize as FromStr>::from_str`: an optional `+`, then one or more ASCII digits whose value
/// fits in a `usize`.
pub open spec fn spec_parse_usize(t: Seq<char>) -> Option<usize> {
    let d = if t.len() > 0 && t[0] == '+' {
        t.drop_first()
    } else {
        t
    };
    if d.len() > 0 && all_digits(d) && digits_value(d) <= usize::MAX {
        Some(digits_value(d) as usize)
    } else {
        None
    }
}

proof fn lemma_digits_value_prefix_le(d: Seq<char>, j: int)
    requires
        0 <= j <= d.len(),
        all_digits(d),
    ensures
        digits_value(d.take(j)) <= digits_value(d),
    decreases d.len(),
{
    if j < d.len() {
        assert(d.drop_last().take(j) =~= d.take(j));
        assert(all_digits(d.drop_last()));
        lemma_digits_value_prefix_le(d.drop_last(), j);
        assert(is_ascii_digit(d[d.len() - 1]));
    } else {
        assert(d.take(j) =~= d);
    }
}

/// The `usize` spelled by `v[lo..hi]`, as `str::parse::<usize>` reads it.
fn parse_usize_chars(v: &Vec<char>, lo: usize, hi: usize) -> (r: Option<usize>)
    requires
        lo <= hi <= v@.len(),
    ensures
        r == spec_parse_usize(v@.subrange(lo as int, hi as int)),
{
    let ghost t = v@.subrange(lo as int, hi as int);
    let mut start = lo;
    if lo < hi && v[lo] == '+' {
        start = lo + 1;
    }
    let ghost d = v@.subrange(start as int, hi as int);
    proof {
        if lo < hi && v@[lo as int] == '+' {
            assert(d =~= t.drop_first());
        } else {
            assert(d =~= t);
        }
    }
    if start == hi {
        return None;
    }
    let mut k = start;
    while k < hi
        invariant
            start <= k <= hi <= v@.len(),
            t == v@.subrange(lo as int, hi as int),
            d == v@.subrange(start as int, hi as int),
            d == (if t.len() > 0 && t[0] == '+' { t.drop_first() } else { t }),
            d.len() > 0,
            forall|i: int| start <= i < k ==> is_ascii_digit(#[trigger] v@[i]),
        decreases hi - k,
    {
        if !('0' <= v[k] && v[k] <= '9') {
            proof {
                assert(!is_ascii_digit(d[k - start]));
            }
            return None;
        }
        k += 1;
    }
    assert(all_digits(d)) by {
        assert forall|j: int| 0 <= j < d.len() implies is_ascii_digit(#[trigger] d[j]) by {
            assert(d[j] == v@[start + j]);
        }
    }
    let mut acc: usize = 0;
    let mut i = start;
    while i < hi
        invariant
            start <= i <= hi <= v@.len(),
            t == v@.subrange(lo as int, hi as int),
            d == v@.subrange(start as int, hi as int),
            d == (if t.len() > 0 && t[0] == '+' { t.drop_first() } else { t }),
            d.len() > 0,
            all_digits(d),
            acc as nat == digits_value(d.take(i - start)),
        decreases hi - i,
    {
        let c = v[i];
        proof {
            let j = i - start;
            assert(d[j] == c);
            assert(is_ascii_digit(d[j]));
            assert(d.take(j + 1).drop_last() =~= d.take(j));
            assert(d.take(j + 1).last() == c);
        }
        let digit: usize = ((c as u32) - ('0' as u32)) as usize;
        match acc.checked_mul(10) {
            Some(m) => match m.checked_add(digit) {
                Some(a) => {
                    acc = a;
                },
                None => {
                    proof {
                        lemma_digits_value_prefix_le(d, i - start + 1);
                    }
                    return None;
                },
            },
            None => {
                proof {
                    lemma_digits_value_prefix_le(d, i - start + 1);
                }
                return None;
            },
        }
        i += 1;
    }
    proof {
        assert(d.take(hi - start) =~= d);
    }
    Some(acc)
}

/// The first index `>= i` at which `t` holds `c`, or `t.len()` if there is none.
pub open spec fn first_index_from(t: Seq<char>, c: char, i: int) -> int
    decreases t.len() - i,
{
    if i >= t.len() {
        t.len() as int
    } else if t[i] == c {
        i
    } else {
        first_index_from(t, c, i + 1)
    }
}

proof fn lemma_first_index_skip(t: Seq<char>, c: char, i: int, j: int)
    requires
        0 <= i <= j <= t.len(),
        forall|k: int| i <= k < j ==> t[k] != c,
    ensures
        first_index_from(t, c, i) == first_index_from(t, c, j),
    decreases j - i,
{
    if i < j {
        lemma_first_index_skip(t, c, i + 1, j);
    }
}

/// The message of a refused player code.
pub open spec fn invalid_msg(s: Seq<char>, hint: Seq<char>) -> Seq<char> {
    "Invalid player code: "@ + s + hint
}

fn invalid_code(s: &str, hint: &str) -> (r: String)
    ensures
        r@ == invalid_msg(s@, hint@),
{
    let mut m = String::from_str("Invalid player code: ");
    m.append(s);
    m.append(hint);
    m
}

/// Whether the characters `v` spell `lit`.
fn chars_eq_literal(v: &Vec<char>, lit: &str) -> (r: bool)
    ensures
        r == (v@ == lit@),
{
    let n = lit.unicode_len();
    if v.len() != n {
        return false;
    }
    for i in 0..n
        invariant
            n == lit@.len(),
            n == v@.len(),
            forall|j: int| 0 <= j < i ==> v@[j] == lit@[j],
    {
        if v[i] != lit.get_char(i) {
            return false;
        }
    }
    proof {
        assert(v@ =~= lit@);
    }
    true
}

/// The player code `s` names, letters compared without regard to ASCII case: a tier letter
/// followed by a depth (`e3`, `p3`, `d3`, `f3`, `g3`, `k3`), an opponent-ply tier with an
/// optional ply after `o` (`x3`, `y3`, `s3o5`; the ply defaults to 3 and must be positive),
/// or one of the fixed codes `aa`, `et`, `r`, `h`, `w`, `m`, `v`, `e` (depth 3), `er`, `jev`.
pub open spec fn spec_parse_player_code(s: Seq<char>) -> Result<PlayerCode, Seq<char>> {
    let l = ascii_lower_seq(s);
    let rest = l.drop_first();
    let depth = spec_parse_usize(rest);
    if l.len() > 1 && l[0] == 'e' {
        match depth {
            Some(n) => Ok(PlayerCode::E { max_depth: n }),
            None => if l == "er"@ {
                Ok(PlayerCode::ER)
            } else {
                Err(invalid_msg(s, ". Use 'e<number>' for ExpectiMiniMax with depth, e.g., 'e2', 'e5'"@))
            },
        }
    } else if l.len() > 1 && l[0] == 'p' {
        match depth {
            Some(n) => Ok(PlayerCode::P { max_depth: n }),
            None => Err(invalid_msg(s, ". Use 'p<number>', e.g. 'p3'"@)),
        }
    } else if l.len() > 1 && l[0] == 'd' {
        match depth {
            Some(n) => Ok(PlayerCode::D { max_depth: n }),
            None => Err(invalid_msg(s, ". Use 'd<number>', e.g. 'd3'"@)),
        }
    } else if l.len() > 1 && l[0] == 'f' {
        match depth {
            Some(n) => Ok(PlayerCode::F { max_depth: n }),
            None => Err(invalid_msg(s, ". Use 'f<number>', e.g. 'f3'"@)),
        }
    } else if l.len() > 1 && l[0] == 'g' {
        match depth {
            Some(n) => Ok(PlayerCode::G { max_depth: n }),
            None => Err(invalid_msg(s, ". Use 'g<number>', e.g. 'g3'"@)),
        }
    } else if l.len() > 1 && l[0] == 'k' {
        match depth {
            Some(n) => Ok(PlayerCode::K { max_depth: n }),
            None => Err(invalid_msg(s, ". Use 'k<number>', e.g. 'k3'"@)),
        }
    } else if l.len() > 1 && (l[0] == 'x' || l[0] == 'y' || l[0] == 's') {
        let o = first_index_from(rest, 'o', 0);
        match spec_parse_usize(rest.take(o)) {
            Some(max_depth) => {
                let ply = if o < rest.len() {
                    match spec_parse_usize(rest.skip(o + 1)) {
                        Some(v) => if v > 0 {
                            Some(v)
                        } else {
                            None
                        },
                        None => None,
                    }
                } else {
                    Some(3usize)
                };
                match ply {
                    Some(opponent_ply) => Ok(
                        if l[0] == 's' {
                            PlayerCode::S { max_depth, opponent_ply }
                        } else if l[0] == 'y' {
                            PlayerCode::Y { max_depth, opponent_ply }
                        } else {
                            PlayerCode::X { max_depth, opponent_ply }
                        },
                    ),
                    None => Err(
                        invalid_msg(s, ". Opponent ply must be a positive integer, e.g. 'x3o4'"@),
                    ),
                }
            },
            None => Err(invalid_msg(s, ". Use 'x<number>' or 'x<number>o<ply>', e.g. 'x3' or 'x3o4'"@)),
        }
    } else if l == "aa"@ {
        Ok(PlayerCode::AA)
    } else if l == "et"@ {
        Ok(PlayerCode::ET)
    } else if l == "r"@ {
        Ok(PlayerCode::R)
    } else if l == "h"@ {
        Ok(PlayerCode::H)
    } else if l == "w"@ {
        Ok(PlayerCode::W)
    } else if l == "m"@ {
        Ok(PlayerCode::M)
    } else if l == "v"@ {
        Ok(PlayerCode::V)
    } else if l == "e"@ {
        Ok(PlayerCode::E { max_depth: 3 })
    } else if l == "er"@ {
        Ok(PlayerCode::ER)
    } else if l == "jev"@ {
        Ok(PlayerCode::Jev)
    } else {
        Err(invalid_msg(s, ""@))
    }
}

/// The parse result `r` is the spec's result, the message taken by its characters.
pub open spec fn parsed_as(r: Result<PlayerCode, String>, expected: Result<PlayerCode, Seq<char>>) -> bool {
    match r {
        Ok(code) => expected == Ok::<PlayerCode, Seq<char>>(code),
        Err(message) => expected == Err::<PlayerCode, Seq<char>>(message@),
    }
}

/// Parse a player code, ignoring ASCII case.
pub fn parse_player_code(s: &str) -> (r: Result<PlayerCode, String>)
    ensures
        parsed_as(r, spec_parse_player_code(s@)),
{
    let lower = to_ascii_lowercase_chars(s);
    let n = lower.len();
    proof {
        if n >= 1 {
            assert(lower@.drop_first() =~= lower@.subrange(1, n as int));
        }
    }
    if n > 1 && lower[0] == 'e' {
        if let Some(max_depth) = parse_usize_chars(&lower, 1, n) {
            return Ok(PlayerCode::E { max_depth });
        }
        if chars_eq_literal(&lower, "er") {
            return Ok(PlayerCode::ER);
        }
        return Err(invalid_code(s, ". Use 'e<number>' for ExpectiMiniMax with depth, e.g., 'e2', 'e5'"));
    }
    if n > 1 && lower[0] == 'p' {
        return match parse_usize_chars(&lower, 1, n) {
            Some(max_depth) => Ok(PlayerCode::P { max_depth }),
            None => Err(invalid_code(s, ". Use 'p<number>', e.g. 'p3'")),
        };
    }
    if n > 1 && lower[0] == 'd' {
        return match parse_usize_chars(&lower, 1, n) {
            Some(max_depth) => Ok(PlayerCode::D { max_depth }),
            None => Err(invalid_code(s, ". Use 'd<number>', e.g. 'd3'")),
        };
    }
    if n > 1 && lower[0] == 'f' {
        return match parse_usize_chars(&lower, 1, n) {
            Some(max_depth) => Ok(PlayerCode::F { max_depth }),
            None => Err(invalid_code(s, ". Use 'f<number>', e.g. 'f3'")),
        };
    }
    if n > 1 && lower[0] == 'g' {
        return match parse_usize_chars(&lower, 1, n) {
            Some(max_depth) => Ok(PlayerCode::G { max_depth }),
            None => Err(invalid_code(s, ". Use 'g<number>', e.g. 'g3'")),
        };
    }
    if n > 1 && lower[0] == 'k' {
        return match parse_usize_chars(&lower, 1, n) {
            Some(max_depth) => Ok(PlayerCode::K { max_depth }),
            None => Err(invalid_code(s, ". Use 'k<number>', e.g. 'k3'")),
        };
    }
    if n > 1 && (lower[0] == 'x' || lower[0] == 'y' || lower[0] == 's') {
        let ghost rest = lower@.drop_first();
        let mut q: usize = 1;
        while q < n && lower[q] != 'o'
            invariant
                1 <= q <= n,
                n == lower@.len(),
                rest == lower@.drop_first(),
                forall|k: int| 1 <= k < q ==> lower@[k] != 'o',
            decreases n - q,
        {
            q += 1;
        }
        proof {
            assert forall|k: int| 0 <= k < q - 1 implies rest[k] != 'o' by {
                assert(rest[k] == lower@[k + 1]);
            }
            lemma_first_index_skip(rest, 'o', 0, q - 1);
            assert(first_index_from(rest, 'o', 0) == q - 1);
            assert(rest.take(q - 1) =~= lower@.subrange(1, q as int));
            if q < n {
                assert(rest.skip(q as int) =~= lower@.subrange(q + 1, n as int));
            }
        }
        return match parse_usize_chars(&lower, 1, q) {
            Some(max_depth) => {
                let ply: Option<usize> = if q < n {
                    match parse_usize_chars(&lower, q + 1, n) {
                        Some(v) => if v > 0 {
                            Some(v)
                        } else {
                            None
                        },
                        None => None,
                    }
                } else {
                    Some(3)
                };
                match ply {
                    Some(opponent_ply) => Ok(
                        if lower[0] == 's' {
                            PlayerCode::S { max_depth, opponent_ply }
                        } else if lower[0] == 'y' {
                            PlayerCode::Y { max_depth, opponent_ply }
                        } else {
                            PlayerCode::X { max_depth, opponent_ply }
                        },
                    ),
                    None => Err(invalid_code(s, ". Opponent ply must be a positive integer, e.g. 'x3o4'")),
                }
            },
            None => Err(invalid_code(s, ". Use 'x<number>' or 'x<number>o<ply>', e.g. 'x3' or 'x3o4'")),
        };
    }
    if chars_eq_literal(&lower, "aa") {
        Ok(PlayerCode::AA)
    } else if chars_eq_literal(&lower, "et") {
        Ok(PlayerCode::ET)
    } else if chars_eq_literal(&lower, "r") {
        Ok(PlayerCode::R)
    } else if chars_eq_literal(&lower, "h") {
        Ok(PlayerCode::H)
    } else if chars_eq_literal(&lower, "w") {
        Ok(PlayerCode::W)
    } else if chars_eq_literal(&lower, "m") {
        Ok(PlayerCode::M)
    } else if chars_eq_literal(&lower, "v") {
        Ok(PlayerCode::V)
    } else if chars_eq_literal(&lower, "e") {
        Ok(PlayerCode::E { max_depth: 3 })
    } else if chars_eq_literal(&lower, "er") {
        Ok(PlayerCode::ER)
    } else if chars_eq_literal(&lower, "jev") {
        Ok(PlayerCode::Jev)
    } else {
        Err(invalid_code(s, ""))
    }
}

/// [`parse_player_code`] on an owned string.
pub fn parse_player_code_generic(s: String) -> (r: Result<PlayerCode, String>)
    ensures
        parsed_as(r, spec_parse_player_code(s@)),
{
    parse_player_code(s.as_str())
}

/// The two players' codes: both given, one given and a random player added, or two random
/// players when none is given. One or two codes may be given.
pub fn fill_code_array(maybe_players: Option<Vec<PlayerCode>>) -> (r: Vec<PlayerCode>)
    requires
        maybe_players matches Some(codes) ==> 1 <= codes@.len() <= 2,
    ensures
        match maybe_players {
            Some(codes) => if codes@.len() == 1 {
                r@ == codes@.push(PlayerCode::R)
            } else {
                r@ == codes@
            },
            None => r@ == seq![PlayerCode::R, PlayerCode::R],
        },
{
    match maybe_players {
        Some(player_codes) => {
            let mut player_codes = player_codes;
            if player_codes.len() == 1 {
                player_codes.push(PlayerCode::R);
            }
            player_codes
        },
        None => {
            let v = vec![PlayerCode::R, PlayerCode::R];
            v
        },
    }
}

/// Player codes are case-insensitive: two spellings that agree after ASCII lower-casing are
/// both accepted or both refused, and when accepted they name the same player.
pub proof fn lemma_parse_player_code_ignores_case(a: Seq<char>, b: Seq<char>)
    requires
        ascii_lower_seq(a) == ascii_lower_seq(b),
    ensures
        spec_parse_player_code(a) is Ok <==> spec_parse_player_code(b) is Ok,
        spec_parse_player_code(a) is Ok ==> spec_parse_player_code(a) == spec_parse_player_code(b),
{
}

/// The label of the action at `index` in a scoring request: `action_` and the index in at
/// least six digits.
pub fn action_id(index: usize) -> (r: String)
    ensures
        r@ == "action_"@ + zero_padded(decimal(index as nat), 6),
{
    let mut label = String::from_str("action_");
    push_zero_padded(&mut label, index, 6);
    label
}

} // verus!

verus! {

/// The leaf evaluation an ExpectiMiniMax player scores positions with.
#[derive(Debug, Clone, Copy, PartialEq, Eq, Structural)]
pub enum ValueFunctionKind {
    /// The original evaluation, which reads hidden zones.
    Baseline,
    /// The evaluation limited to public information.
    PublicBaseline,
    /// `PublicBaseline` with the damage- and development-aware board term.
    PublicDamage,
    /// `PublicDamage` with effect-aware attack-damage estimation.
    PublicEffect,
    /// `PublicEffect` with spread-damage classes and the discard-energy credit.
    PublicDevelopment,
}

/// The player a code sets up: its strategy and, for a search player, the whole search
/// configuration. Building the player itself from this is the caller's.
#[derive(Debug, Clone, Copy, PartialEq, Eq, Structural)]
pub enum PlayerSetup {
    AttachAttack,
    EndTurn,
    Random,
    Human,
    WeightedRandom,
    Mcts { iterations: usize },
    ValueFunction,
    EvolutionRusher,
    ExpectiMiniMax { max_depth: usize, value_function: ValueFunctionKind, opponent_ply: usize, flags: SearchFlags },
    /// The `k` tier's search to the given depth.
    KBot { max_depth: usize },
    /// The Jev action scorer.
    Jev,
}

/// Both search flags off: the search every tier before the consistent horizon ran.
pub open spec fn historical_flags() -> SearchFlags {
    SearchFlags { consistent_horizon: false, soft_opponent: false }
}

/// The player each code sets up. The depth tiers `e`, `p`, `d`, `f`, `g` differ only in the
/// value function and never search the opponent's turn; `x` adds an opponent ply; `y` prices
/// every leaf through the opponent's reply; `s` also scores the opponent's turn as an
/// expectation.
pub open spec fn spec_player_setup(code: PlayerCode) -> PlayerSetup {
    match code {
        PlayerCode::AA => PlayerSetup::AttachAttack,
        PlayerCode::ET => PlayerSetup::EndTurn,
        PlayerCode::R => PlayerSetup::Random,
        PlayerCode::H => PlayerSetup::Human,
        PlayerCode::W => PlayerSetup::WeightedRandom,
        PlayerCode::M => PlayerSetup::Mcts { iterations: 100 },
        PlayerCode::V => PlayerSetup::ValueFunction,
        PlayerCode::E { max_depth } => PlayerSetup::ExpectiMiniMax {
            max_depth,
            value_function: ValueFunctionKind::Baseline,
            opponent_ply: 0,
            flags: historical_flags(),
        },
        PlayerCode::P { max_depth } => PlayerSetup::ExpectiMiniMax {
            max_depth,
            value_function: ValueFunctionKind::PublicBaseline,
            opponent_ply: 0,
            flags: historical_flags(),
        },
        PlayerCode::D { max_depth } => PlayerSetup::ExpectiMiniMax {
            max_depth,
            value_function: ValueFunctionKind::PublicDamage,
            opponent_ply: 0,
            flags: historical_flags(),
        },
        PlayerCode::F { max_depth } => PlayerSetup::ExpectiMiniMax {
            max_depth,
            value_function: ValueFunctionKind::PublicEffect,
            opponent_ply: 0,
            flags: historical_flags(),
        },
        PlayerCode::G { max_depth } => PlayerSetup::ExpectiMiniMax {
            max_depth,
            value_function: ValueFunctionKind::PublicDevelopment,
            opponent_ply: 0,
            flags: historical_flags(),
        },
        PlayerCode::X { max_depth, opponent_ply } => PlayerSetup::ExpectiMiniMax {
            max_depth,
            value_function: ValueFunctionKind::PublicBaseline,
            opponent_ply,
            flags: historical_flags(),
        },
        PlayerCode::Y { max_depth, opponent_ply } => PlayerSetup::ExpectiMiniMax {
            max_depth,
            value_function: ValueFunctionKind::PublicBaseline,
            opponent_ply,
            flags: SearchFlags { consistent_horizon: true, soft_opponent: false },
        },
        PlayerCode::S { max_depth, opponent_ply } => PlayerSetup::ExpectiMiniMax {
            max_depth,
            value_function: ValueFunctionKind::PublicBaseline,
            opponent_ply,
            flags: SearchFlags { consistent_horizon: true, soft_opponent: true },
        },
        PlayerCode::ER => PlayerSetup::EvolutionRusher,
        PlayerCode::K { max_depth } => PlayerSetup::KBot { max_depth },
        PlayerCode::Jev => PlayerSetup::Jev,
    }
}

/// The player `code` sets up.
pub fn player_setup(code: &PlayerCode) -> (r: PlayerSetup)
    ensures
        r == spec_player_setup(*code),
        (code is E || code is P || code is D || code is F || code is G) ==> (r matches PlayerSetup::ExpectiMiniMax {
            opponent_ply,
            flags,
            ..
        } && opponent_ply == 0 && flags == historical_flags()),
        code is X ==> (r matches PlayerSetup::ExpectiMiniMax { opponent_ply, flags, .. } && opponent_ply
            == code->X_opponent_ply && flags == historical_flags()),
        code is Y ==> (r matches PlayerSetup::ExpectiMiniMax { flags, .. } && flags.consistent_horizon
            && !flags.soft_opponent),
        code is S ==> (r matches PlayerSetup::ExpectiMiniMax { flags, .. } && flags.consistent_horizon
            && flags.soft_opponent),
{
    let historical = SearchFlags { consistent_horizon: false, soft_opponent: false };
    match code {
        PlayerCode::AA => PlayerSetup::AttachAttack,
        PlayerCode::ET => PlayerSetup::EndTurn,
        PlayerCode::R => PlayerSetup::Random,
        PlayerCode::H => PlayerSetup::Human,
        PlayerCode::W => PlayerSetup::WeightedRandom,
        PlayerCode::M => PlayerSetup::Mcts { iterations: 100 },
        PlayerCode::V => PlayerSetup::ValueFunction,
        PlayerCode::E { max_depth } => PlayerSetup::ExpectiMiniMax {
            max_depth: *max_depth,
            value_function: ValueFunctionKind::Baseline,
            opponent_ply: 0,
            flags: historical,
        },
        PlayerCode::P { max_depth } => PlayerSetup::ExpectiMiniMax {
            max_depth: *max_depth,
            value_function: ValueFunctionKind::PublicBaseline,
            opponent_ply: 0,
            flags: historical,
        },
        PlayerCode::D { max_depth } => PlayerSetup::ExpectiMiniMax {
            max_depth: *max_depth,
            value_function: ValueFunctionKind::PublicDamage,
            opponent_ply: 0,
            flags: historical,
        },
        PlayerCode::F { max_depth } => PlayerSetup::ExpectiMiniMax {
            max_depth: *max_depth,
            value_function: ValueFunctionKind::PublicEffect,
            opponent_ply: 0,
            flags: historical,
        },
        PlayerCode::G { max_depth } => PlayerSetup::ExpectiMiniMax {
            max_depth: *max_depth,
            value_function: ValueFunctionKind::PublicDevelopment,
            opponent_ply: 0,
            flags: historical,
        },
        PlayerCode::X { max_depth, opponent_ply } => PlayerSetup::ExpectiMiniMax {
            max_depth: *max_depth,
            value_function: ValueFunctionKind::PublicBaseline,
            opponent_ply: *opponent_ply,
            flags: historical,
        },
        PlayerCode::Y { max_depth, opponent_ply } => PlayerSetup::ExpectiMiniMax {
            max_depth: *max_depth,
            value_function: ValueFunctionKind::PublicBaseline,
            opponent_ply: *opponent_ply,
            flags: SearchFlags { consistent_horizon: true, soft_opponent: false },
        },
        PlayerCode::S { max_depth, opponent_ply } => PlayerSetup::ExpectiMiniMax {
            max_depth: *max_depth,
            value_function: ValueFunctionKind::PublicBaseline,
            opponent_ply: *opponent_ply,
            flags: SearchFlags { consistent_horizon: true, soft_opponent: true },
        },
        PlayerCode::ER => PlayerSetup::EvolutionRusher,
        PlayerCode::K { max_depth } => PlayerSetup::KBot { max_depth: *max_depth },
        PlayerCode::Jev => PlayerSetup::Jev,
    }
}

/// Both search flags are off for every tier before the consistent horizon (a code of an
/// earlier tier always sets up a search without them), and the soft opponent only comes
/// together with the consistent horizon.
pub proof fn lemma_search_flags_off_for_earlier_tiers(code: PlayerCode)
    ensures
        spec_player_setup(code) matches PlayerSetup::ExpectiMiniMax { flags, .. } ==> ((flags.consistent_horizon
            || flags.soft_opponent) <==> (code is Y || code is S)),
        spec_player_setup(code) matches PlayerSetup::ExpectiMiniMax { flags, .. } ==> (flags.soft_opponent
            ==> flags.consistent_horizon),
{
}

/// The value function a setup searches with, if it is a search.
pub open spec fn search_value_function(setup: PlayerSetup) -> Option<ValueFunctionKind> {
    match setup {
        PlayerSetup::ExpectiMiniMax { value_function, .. } => Some(value_function),
        _ => None,
    }
}

/// The codes of the depth tiers `e`, `p`, `d`, `f`, `g`.
pub open spec fn is_depth_tier(code: PlayerCode) -> bool {
    code is E || code is P || code is D || code is F || code is G
}

/// Both codes are of the same depth tier.
pub open spec fn same_depth_tier(a: PlayerCode, b: PlayerCode) -> bool {
    (a is E && b is E) || (a is P && b is P) || (a is D && b is D) || (a is F && b is F) || (a is G && b is G)
}

/// Each depth tier is its own evaluator: two codes of the depth tiers set up searches with the
/// same value function exactly when they are of the same tier. The `d` tier is the damage-aware
/// evaluation, and the `e` tier the only one that reads hidden zones.
pub proof fn lemma_depth_tiers_have_distinct_evaluators(a: PlayerCode, b: PlayerCode)
    requires
        is_depth_tier(a),
        is_depth_tier(b),
    ensures
        search_value_function(spec_player_setup(a)) is Some,
        (search_value_function(spec_player_setup(a)) == search_value_function(spec_player_setup(b)))
            <==> same_depth_tier(a, b),
        a is D ==> search_value_function(spec_player_setup(a)) == Some(ValueFunctionKind::PublicDamage),
        (search_value_function(spec_player_setup(a)) == Some(ValueFunctionKind::Baseline)) <==> a is E,
{
}

/// The tiers that search into the opponent's turn (`x`, `y`, `s`) evaluate their leaves as the
/// `p` tier does, with public information only.
pub proof fn lemma_opponent_search_tiers_use_the_public_evaluation(code: PlayerCode, max_depth: usize)
    requires
        code is X || code is Y || code is S,
    ensures
        search_value_function(spec_player_setup(code)) == search_value_function(
            spec_player_setup(PlayerCode::P { max_depth }),
        ),
        search_value_function(spec_player_setup(code)) != Some(ValueFunctionKind::Baseline),
{
}

/// `d<N>` is `p<N>` with the damage-aware evaluation: the same depth, no opponent ply and the
/// same flags.
pub proof fn lemma_d_tier_is_p_tier_with_damage_evaluation(max_depth: usize)
    ensures
        spec_player_setup(PlayerCode::D { max_depth }) == (PlayerSetup::ExpectiMiniMax {
            max_depth,
            value_function: ValueFunctionKind::PublicDamage,
            opponent_ply: 0,
            flags: historical_flags(),
        }),
        spec_player_setup(PlayerCode::P { max_depth }) matches PlayerSetup::ExpectiMiniMax {
            max_depth: depth,
            opponent_ply,
            flags,
            ..
        } && depth == max_depth && opponent_ply == 0 && flags == historical_flags(),
{
}

} // verus!
