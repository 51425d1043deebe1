//! Coin-flip paths: the batches of faces an outcome branch stands for, membership of one
//! observed batch, and the enumeration of all batches with a given number of heads.
use vstd::prelude::*;
use vstd::arithmetic::power2::{lemma_pow2_pos, lemma_pow2_unfold, pow2};

use crate::pilot_stats::count_true;

verus! {

/// One concrete batch of coin faces, `true` for heads, in flip order.
#[derive(Debug, Clone, PartialEq, Eq)]
pub struct CoinSeq(pub Vec<bool>);

/// The acting player's coin paths an outcome branch stands for.
#[derive(Debug, Clone, PartialEq, Eq)]
pub enum CoinPaths {
    NoPaths,
    /// Equiprobable concrete paths; a duplicate entry counts twice.
    Exact(Vec<CoinSeq>),
    /// Every path `H^n T` with `n >= min_heads`.
    UntilTailsAtLeast { min_heads: usize },
}

#[derive(Debug, Clone, Copy, PartialEq, Eq, Structural)]
pub enum CoinConditionError {
    NoMatchingPath,
    InvalidObservedPath,
    Numeric,
}

#[derive(Debug, Clone, Copy, PartialEq, Eq, Structural)]
pub enum ForecastBuildError {
    EmptyBranches,
    ProbabilityOutOfRange,
    ProbabilitySumInvalid,
    CoinPathsEmpty,
    GeometricSaturationOutOfRange { requested: usize, max_supported: usize },
}

/// Largest saturation boundary whose `2^-K` tail is still a positive `f64`.
pub const MAX_GEOMETRIC_SATURATION_HEADS: usize = 1074;

/// `s` is `H^n T` with `n >= min_heads`.
pub open spec fn is_heads_then_tail(s: Seq<bool>, min_heads: int) -> bool {
    s.len() > min_heads && !s.last() && forall|i: int| 0 <= i < s.len() - 1 ==> #[trigger] s[i]
}

impl CoinPaths {
    pub open spec fn spec_has_paths(&self) -> bool {
        match self {
            CoinPaths::NoPaths => false,
            CoinPaths::Exact(paths) => paths@.len() > 0,
            CoinPaths::UntilTailsAtLeast { min_heads } => *min_heads <= MAX_GEOMETRIC_SATURATION_HEADS,
        }
    }

    pub open spec fn spec_contains(&self, sequence: Seq<bool>) -> bool {
        match self {
            CoinPaths::NoPaths => false,
            CoinPaths::Exact(paths) => exists|k: int| 0 <= k < paths@.len() && (#[trigger] paths@[k]).0@ == sequence,
            CoinPaths::UntilTailsAtLeast { min_heads } => is_heads_then_tail(sequence, *min_heads as int),
        }
    }

    /// Whether the branch carries a nonempty class of coin paths.
    pub fn has_paths(&self) -> (r: bool)
        ensures
            r == self.spec_has_paths(),
    {
        match self {
            CoinPaths::NoPaths => false,
            CoinPaths::Exact(paths) => paths.len() > 0,
            CoinPaths::UntilTailsAtLeast { min_heads } => *min_heads <= MAX_GEOMETRIC_SATURATION_HEADS,
        }
    }

    /// Whether one concrete, terminating coin batch belongs to this branch.
    pub fn contains(&self, sequence: &CoinSeq) -> (r: bool)
        ensures
            r == self.spec_contains(sequence.0@),
    {
        match self {
            CoinPaths::NoPaths => false,
            CoinPaths::Exact(paths) => {
                let n = paths.len();
                for k in 0..n
                    invariant
                        n == paths@.len(),
                        *self == CoinPaths::Exact(*paths),
                        forall|j: int| 0 <= j < k ==> (#[trigger] paths@[j]).0@ != sequence.0@,
                {
                    if bool_seqs_equal(&paths[k].0, &sequence.0) {
                        proof {
                            assert(paths@[k as int].0@ == sequence.0@);
                            assert(self->Exact_0@ == paths@);
                        }
                        return true;
                    }
                }
                false
            },
            CoinPaths::UntilTailsAtLeast { min_heads } => {
                let faces = &sequence.0;
                let len = faces.len();
                if !(len > *min_heads) || faces[len - 1] {
                    return false;
                }
                for i in 0..len - 1
                    invariant
                        len == faces@.len(),
                        len > *min_heads,
                        !faces@.last(),
                        *faces == sequence.0,
                        *self == (CoinPaths::UntilTailsAtLeast { min_heads: *min_heads }),
                        forall|j: int| 0 <= j < i ==> #[trigger] faces@[j],
                {
                    if !faces[i] {
                        return false;
                    }
                }
                true
            },
        }
    }
}

/// Symbolic classes past the saturation boundary hold no paths, and every path a class
/// contains is one of its paths: membership implies the class is nonempty.
pub proof fn lemma_contains_implies_has_paths(paths: CoinPaths, sequence: Seq<bool>)
    requires
        paths.spec_contains(sequence),
        paths matches CoinPaths::UntilTailsAtLeast { min_heads } ==> min_heads <= MAX_GEOMETRIC_SATURATION_HEADS,
    ensures
        paths.spec_has_paths(),
{
}

fn bool_seqs_equal(a: &Vec<bool>, b: &Vec<bool>) -> (r: bool)
    ensures
        r == (a@ == b@),
{
    if a.len() != b.len() {
        return false;
    }
    let n = a.len();
    for i in 0..n
        invariant
            n == a@.len(),
            n == b@.len(),
            forall|j: int| 0 <= j < i ==> a@[j] == b@[j],
    {
        if a[i] != b[i] {
            return false;
        }
    }
    proof {
        assert(a@ =~= b@);
    }
    true
}

/// The faces encoded by the low `flips` bits of `mask`, bit `i` giving flip `i` (1 = heads).
pub open spec fn mask_faces(mask: nat, flips: nat) -> Seq<bool> {
    Seq::new(flips, |i: int| (mask / pow2(i as nat)) % 2 == 1)
}

/// The face batches of `flips` flips with exactly `heads` heads among the masks `0..hi`, by
/// increasing mask.
pub open spec fn sequences_below(flips: nat, heads: nat, hi: nat) -> Seq<Seq<bool>>
    decreases hi,
{
    if hi == 0 {
        Seq::empty()
    } else {
        let prev = sequences_below(flips, heads, (hi - 1) as nat);
        let faces = mask_faces((hi - 1) as nat, flips);
        if count_true(faces) == heads {
            prev.push(faces)
        } else {
            prev
        }
    }
}

/// Every batch of `flips` coin faces with exactly `heads` heads, by increasing bit mask; no
/// flips give the single empty batch.
pub open spec fn spec_sequences_with_heads(flips: nat, heads: nat) -> Seq<Seq<bool>> {
    if flips == 0 {
        seq![Seq::empty()]
    } else {
        sequences_below(flips, heads, pow2(flips))
    }
}

pub open spec fn views_of(v: Seq<Vec<bool>>) -> Seq<Seq<bool>> {
    v.map_values(|x: Vec<bool>| x@)
}

/// The faces of `mask` over `flips` flips, and how many are heads.
fn faces_of_mask(mask: usize, flips: usize) -> (r: (Vec<bool>, usize))
    ensures
        r.0@ == mask_faces(mask as nat, flips as nat),
        r.1 as nat == count_true(r.0@),
{
    let mut faces: Vec<bool> = Vec::new();
    let mut m = mask;
    proof {
        vstd::arithmetic::power2::lemma2_to64();
        assert(faces@ =~= mask_faces(mask as nat, 0));
        assert(mask as nat / 1 == mask as nat) by (nonlinear_arith);
    }
    let mut ones: usize = 0;
    for i in 0..flips
        invariant
            m as nat == mask as nat / pow2(i as nat),
            faces@ == mask_faces(mask as nat, i as nat),
            ones as nat == count_true(faces@),
            ones <= i,
    {
        let bit = m % 2 == 1;
        proof {
            lemma_pow2_pos(i as nat);
            lemma_pow2_unfold((i + 1) as nat);
            vstd::arithmetic::div_mod::lemma_div_denominator(mask as int, pow2(i as nat) as int, 2);
            assert(faces@.push(bit) =~= mask_faces(mask as nat, (i + 1) as nat));
            assert(faces@.push(bit).drop_last() == faces@);
        }
        faces.push(bit);
        if bit {
            ones += 1;
        }
        m = m / 2;
    }
    (faces, ones)
}

/// All batches of `flips` coin faces with exactly `heads` heads, `C(flips, heads)` of them.
pub fn generate_sequences_with_heads(flips: usize, heads: usize) -> (r: Vec<Vec<bool>>)
    requires
        flips < 64,
        pow2(flips as nat) <= usize::MAX,
    ensures
        views_of(r@) == spec_sequences_with_heads(flips as nat, heads as nat),
        flips > 0 || heads == 0 ==> r@.len() == binomial(flips as nat, heads as nat),
{
    proof {
        if flips > 0 || heads == 0 {
            lemma_sequences_with_heads_count(flips as nat, heads as nat);
        }
    }
    if flips == 0 {
        let empty: Vec<bool> = Vec::new();
        let out = vec![empty];
        proof {
            assert(views_of(out@) =~= seq![Seq::<bool>::empty()]);
        }
        return out;
    }
    let mut max_mask: usize = 1;
    proof {
        vstd::arithmetic::power2::lemma2_to64();
    }
    for i in 0..flips
        invariant
            flips < 64,
            pow2(flips as nat) <= usize::MAX,
            max_mask as nat == pow2(i as nat),
    {
        proof {
            lemma_pow2_unfold((i + 1) as nat);
            if i + 1 < flips {
                vstd::arithmetic::power2::lemma_pow2_strictly_increases((i + 1) as nat, flips as nat);
            }
        }
        max_mask = max_mask * 2;
    }
    let mut out: Vec<Vec<bool>> = Vec::new();
    for mask in 0..max_mask
        invariant
            max_mask as nat == pow2(flips as nat),
            views_of(out@) == sequences_below(flips as nat, heads as nat, mask as nat),
    {
        let (faces, ones) = faces_of_mask(mask, flips);
        if ones == heads {
            proof {
                assert(views_of(out@.push(faces)) =~= views_of(out@).push(faces@));
            }
            out.push(faces);
        }
    }
    out
}

/// Every batch enumerated has `flips` faces and exactly `heads` heads.
pub proof fn lemma_sequences_have_heads(flips: nat, heads: nat, hi: nat)
    ensures
        forall|k: int|
            0 <= k < sequences_below(flips, heads, hi).len() ==> (#[trigger] sequences_below(flips, heads, hi)[k]).len()
                == flips && count_true(sequences_below(flips, heads, hi)[k]) == heads,
    decreases hi,
{
    if hi > 0 {
        lemma_sequences_have_heads(flips, heads, (hi - 1) as nat);
        let prev = sequences_below(flips, heads, (hi - 1) as nat);
        let faces = mask_faces((hi - 1) as nat, flips);
        assert(faces.len() == flips);
        assert forall|k: int| 0 <= k < sequences_below(flips, heads, hi).len() implies (
        #[trigger] sequences_below(flips, heads, hi)[k]).len() == flips && count_true(
            sequences_below(flips, heads, hi)[k],
        ) == heads by {
            if k < prev.len() {
                assert(sequences_below(flips, heads, hi)[k] == prev[k]);
            }
        }
    }
}

/// With at least one flip, every batch `generate_sequences_with_heads` returns has `flips`
/// faces, exactly `heads` of them heads.
pub proof fn lemma_generated_sequences_have_heads(flips: nat, heads: nat)
    requires
        flips > 0,
    ensures
        forall|k: int|
            0 <= k < spec_sequences_with_heads(flips, heads).len() ==> (#[trigger] spec_sequences_with_heads(
                flips,
                heads,
            )[k]).len() == flips && count_true(spec_sequences_with_heads(flips, heads)[k]) == heads,
{
    lemma_sequences_have_heads(flips, heads, pow2(flips));
}

} // verus!

verus! {

/// The binomial coefficient by Pascal's rule: the number of `k`-element subsets of `n` items.
pub open spec fn binomial(n: nat, k: nat) -> nat
    decreases n,
{
    if k == 0 {
        1
    } else if n == 0 {
        0
    } else {
        binomial((n - 1) as nat, (k - 1) as nat) + binomial((n - 1) as nat, k)
    }
}

/// No subset is larger than the whole.
pub proof fn lemma_binomial_above(n: nat, k: nat)
    requires
        k > n,
    ensures
        binomial(n, k) == 0,
    decreases n,
{
    if n > 0 {
        lemma_binomial_above((n - 1) as nat, (k - 1) as nat);
        lemma_binomial_above((n - 1) as nat, k);
    }
}

/// Exactly one subset takes everything.
pub proof fn lemma_binomial_all(n: nat)
    ensures
        binomial(n, n) == 1,
    decreases n,
{
    if n > 0 {
        lemma_binomial_all((n - 1) as nat);
        lemma_binomial_above((n - 1) as nat, n);
    }
}

/// Absorption: `(k + 1) * C(n + 1, k + 1) == (n + 1) * C(n, k)`.
proof fn lemma_binomial_absorb(n: nat, k: nat)
    ensures
        (k + 1) * binomial(n + 1, k + 1) == (n + 1) * binomial(n, k),
    decreases n, k,
{
    if n == 0 {
        let x = binomial(n + 1, k + 1);
        let y = binomial(n, k);
        if k == 0 {
            assert(binomial(1, 1) == binomial(0, 0) + binomial(0, 1));
            assert((k + 1) * x == (n + 1) * y) by (nonlinear_arith)
                requires
                    k == 0,
                    n == 0,
                    x == 1,
                    y == 1,
            ;
        } else {
            lemma_binomial_above(0, k);
            lemma_binomial_above(0, k + 1);
            assert(binomial(1, k + 1) == binomial(0, k) + binomial(0, k + 1));
            assert((k + 1) * x == (n + 1) * y) by (nonlinear_arith)
                requires
                    x == 0,
                    y == 0,
            ;
        }
    } else if k == 0 {
        lemma_binomial_one(n + 1);
        assert(binomial(n, 0) == 1);
        let x = binomial(n + 1, k + 1);
        let y = binomial(n, k);
        assert((k + 1) * x == (n + 1) * y) by (nonlinear_arith)
            requires
                k == 0,
                x == n + 1,
                y == 1,
        ;
    } else {
        let m = (n - 1) as nat;
        lemma_binomial_absorb(m, (k - 1) as nat);
        lemma_binomial_absorb(m, k);
        let a = binomial(m, (k - 1) as nat);
        let b = binomial(m, k);
        let c = binomial(n, k);
        let d = binomial(n, k + 1);
        assert(binomial(n + 1, k + 1) == c + d);
        assert(c == a + b);
        assert(k * c == n * a);
        assert((k + 1) * d == n * b);
        assert((k + 1) * (c + d) == (n + 1) * c) by (nonlinear_arith)
            requires
                c == a + b,
                k * c == n * a,
                (k + 1) * d == n * b,
        ;
        assert((k + 1) * binomial(n + 1, k + 1) == (n + 1) * binomial(n, k));
    }
}

/// One-element subsets: `C(n, 1) == n`.
proof fn lemma_binomial_one(n: nat)
    ensures
        binomial(n, 1) == n,
    decreases n,
{
    if n > 0 {
        lemma_binomial_one((n - 1) as nat);
        assert(binomial(n, 1) == binomial((n - 1) as nat, 0) + binomial((n - 1) as nat, 1));
    }
}

/// The step of the product formula: `(k + 1) * C(n, k + 1) == (n - k) * C(n, k)` for `k < n`.
proof fn lemma_binomial_step(n: nat, k: nat)
    requires
        k < n,
    ensures
        (k + 1) * binomial(n, k + 1) == (n - k) * binomial(n, k),
{
    let m = (n - 1) as nat;
    lemma_binomial_absorb(m, k);
    if k == 0 {
        lemma_binomial_one(n);
    } else {
        lemma_binomial_absorb(m, (k - 1) as nat);
        let a = binomial(m, (k - 1) as nat);
        let b = binomial(m, k);
        let c = binomial(n, k);
        assert(c == a + b);
        assert(k * c == n * a);
        assert((k + 1) * binomial(n, k + 1) == n * b);
        assert(n * b == (n - k) * c) by (nonlinear_arith)
            requires
                c == a + b,
                k * c == n * a,
        ;
    }
}

/// Choosing `k` of `n` is choosing the `n - k` left out.
pub proof fn lemma_binomial_symmetric(n: nat, k: nat)
    requires
        k <= n,
    ensures
        binomial(n, k) == binomial(n, (n - k) as nat),
    decreases n,
{
    if k == 0 {
        lemma_binomial_all(n);
    } else if k == n {
        lemma_binomial_all(n);
    } else {
        let m = (n - 1) as nat;
        lemma_binomial_symmetric(m, (k - 1) as nat);
        lemma_binomial_symmetric(m, k);
        assert(binomial(n, (n - k) as nat) == binomial(m, (n - k - 1) as nat) + binomial(m, (n - k) as nat));
    }
}

/// The products the multiplicative formula forms on the way to `C(n, k)`, from the smaller of `k`
/// and `n - k`, all fit in a `usize`.
pub open spec fn binomial_fits(n: nat, k: nat) -> bool {
    let steps = if k + k <= n {
        k
    } else {
        (n - k) as nat
    };
    k <= n ==> forall|j: nat| 1 <= j <= steps ==> j * #[trigger] binomial(n, j) <= usize::MAX
}

/// The number of ways to choose `k` of `n` items.
pub fn binomial_coefficient(n: usize, k: usize) -> (r: usize)
    requires
        binomial_fits(n as nat, k as nat),
    ensures
        r == binomial(n as nat, k as nat),
{
    if k > n {
        proof {
            lemma_binomial_above(n as nat, k as nat);
        }
        return 0;
    }
    if k == 0 || k == n {
        proof {
            lemma_binomial_all(n as nat);
        }
        return 1;
    }
    let steps = if k <= n - k {
        k
    } else {
        n - k
    };
    proof {
        lemma_binomial_symmetric(n as nat, k as nat);
    }
    let mut acc: usize = 1;
    for i in 0..steps
        invariant
            steps <= n,
            steps == k || steps == n - k,
            binomial_fits(n as nat, k as nat),
            forall|j: nat| 1 <= j <= steps ==> j * #[trigger] binomial(n as nat, j) <= usize::MAX,
            acc == binomial(n as nat, i as nat),
    {
        proof {
            lemma_binomial_step(n as nat, i as nat);
            assert((i + 1) * binomial(n as nat, (i + 1) as nat) <= usize::MAX);
            assert(acc * (n - i) == (i + 1) * binomial(n as nat, (i + 1) as nat)) by (nonlinear_arith)
                requires
                    acc == binomial(n as nat, i as nat),
                    (i + 1) * binomial(n as nat, (i + 1) as nat) == (n - i) * binomial(n as nat, i as nat),
            ;
            vstd::arithmetic::div_mod::lemma_div_by_multiple(
                binomial(n as nat, (i + 1) as nat) as int,
                (i + 1) as int,
            );
            assert(binomial(n as nat, (i + 1) as nat) * (i + 1) == (i + 1) * binomial(n as nat, (i + 1) as nat))
                by (nonlinear_arith);
        }
        acc = acc * (n - i) / (i + 1);
    }
    acc
}

} // verus!

verus! {

/// Bit `i < f` of `2^f + x` is bit `i` of `x`, for `x < 2^f`.
proof fn lemma_high_bit_keeps_low_bits(x: nat, f: nat, i: nat)
    requires
        i < f,
    ensures
        ((pow2(f) + x) / pow2(i)) % 2 == (x / pow2(i)) % 2,
{
    vstd::arithmetic::power2::lemma_pow2_adds(i, (f - i) as nat);
    vstd::arithmetic::power2::lemma_pow2_adds(1, (f - i - 1) as nat);
    vstd::arithmetic::power2::lemma2_to64();
    lemma_pow2_pos(i);
    let q = pow2((f - i) as nat);
    let r = pow2((f - i - 1) as nat);
    assert(pow2(f) == pow2(i) * q);
    assert(q == 2 * r);
    vstd::arithmetic::div_mod::lemma_hoist_over_denominator(x as int, q as int, pow2(i) as nat);
    assert(((x + q * pow2(i)) as int) / (pow2(i) as int) == (x as int) / (pow2(i) as int) + q);
    assert(pow2(f) + x == x + q * pow2(i)) by (nonlinear_arith)
        requires
            pow2(f) == pow2(i) * q,
    ;
    vstd::arithmetic::div_mod::lemma_mod_multiples_vanish(r as int, (x / pow2(i)) as int, 2);
    assert(((x / pow2(i)) as int + q) == 2 * r + (x / pow2(i)) as int);
}

/// Bit `f` of `2^f + x` is set, and bit `f` of `x` is not, for `x < 2^f`.
proof fn lemma_top_bit(x: nat, f: nat)
    requires
        x < pow2(f),
    ensures
        ((pow2(f) + x) / pow2(f)) % 2 == 1,
        (x / pow2(f)) % 2 == 0,
{
    lemma_pow2_pos(f);
    vstd::arithmetic::div_mod::lemma_basic_div(x as int, pow2(f) as int);
    vstd::arithmetic::div_mod::lemma_hoist_over_denominator(x as int, 1, pow2(f) as nat);
    assert(x + 1 * pow2(f) == pow2(f) + x);
}

/// The faces of a mask below `2^f` over `f + 1` flips: its faces over `f` flips, then a tail.
proof fn lemma_mask_faces_low(x: nat, f: nat)
    requires
        x < pow2(f),
    ensures
        mask_faces(x, f + 1) == mask_faces(x, f).push(false),
{
    lemma_top_bit(x, f);
    assert(mask_faces(x, f + 1) =~= mask_faces(x, f).push(false));
}

/// The faces of `2^f + x` over `f + 1` flips: the faces of `x` over `f` flips, then a head.
proof fn lemma_mask_faces_high(x: nat, f: nat)
    requires
        x < pow2(f),
    ensures
        mask_faces(pow2(f) + x, f + 1) == mask_faces(x, f).push(true),
{
    lemma_top_bit(x, f);
    assert forall|i: int| 0 <= i < f implies #[trigger] mask_faces(pow2(f) + x, f + 1)[i] == mask_faces(x, f)[i] by {
        lemma_high_bit_keeps_low_bits(x, f, i as nat);
    }
    assert(mask_faces(pow2(f) + x, f + 1) =~= mask_faces(x, f).push(true));
}

/// Below `2^f`, one more flip (always a tail) changes no count.
proof fn lemma_count_low(f: nat, h: nat, hi: nat)
    requires
        hi <= pow2(f),
    ensures
        sequences_below(f + 1, h, hi).len() == sequences_below(f, h, hi).len(),
    decreases hi,
{
    if hi > 0 {
        lemma_count_low(f, h, (hi - 1) as nat);
        lemma_mask_faces_low((hi - 1) as nat, f);
        assert(mask_faces((hi - 1) as nat, f).push(false).drop_last() == mask_faces((hi - 1) as nat, f));
    }
}

/// From `2^f` on, the extra flip is a head: the masks `2^f + x` count with one head fewer.
proof fn lemma_count_high(f: nat, h: nat, x: nat)
    requires
        x <= pow2(f),
    ensures
        sequences_below(f + 1, h, pow2(f) + x).len() == sequences_below(f, h, pow2(f)).len() + if h > 0 {
            sequences_below(f, (h - 1) as nat, x).len()
        } else {
            0
        },
    decreases x,
{
    if x == 0 {
        lemma_count_low(f, h, pow2(f));
    } else {
        lemma_count_high(f, h, (x - 1) as nat);
        lemma_mask_faces_high((x - 1) as nat, f);
        let faces = mask_faces((x - 1) as nat, f);
        assert(faces.push(true).drop_last() == faces);
        assert((pow2(f) + x - 1) as nat == pow2(f) + (x - 1) as nat);
    }
}

/// There are `C(f, h)` masks below `2^f` with exactly `h` of their `f` low bits set.
proof fn lemma_sequence_count_is_binomial(f: nat, h: nat)
    ensures
        sequences_below(f, h, pow2(f)).len() == binomial(f, h),
    decreases f,
{
    vstd::arithmetic::power2::lemma2_to64();
    if f == 0 {
        assert(mask_faces(0, 0) =~= Seq::<bool>::empty());
        assert(sequences_below(0, h, 0).len() == 0);
    } else {
        let g = (f - 1) as nat;
        lemma_sequence_count_is_binomial(g, h);
        lemma_pow2_unfold(f);
        lemma_count_high(g, h, pow2(g));
        assert(pow2(f) == pow2(g) + pow2(g));
        if h > 0 {
            lemma_sequence_count_is_binomial(g, (h - 1) as nat);
        } else {
            assert(binomial(f, 0) == 1 && binomial(g, 0) == 1);
        }
    }
}

/// The batches of `flips` faces with `heads` heads number `C(flips, heads)`: as many as the
/// binomial weight of that head count. No flips give the one empty batch whatever `heads` is,
/// so the count holds there only for no heads.
pub proof fn lemma_sequences_with_heads_count(flips: nat, heads: nat)
    requires
        flips > 0 || heads == 0,
    ensures
        spec_sequences_with_heads(flips, heads).len() == binomial(flips, heads),
{
    if flips > 0 {
        lemma_sequence_count_is_binomial(flips, heads);
    }
}

} // verus!

verus! {

/// How an observed batch matches a branch's coin paths: the exact paths it equals out of all of
/// them (its likelihood is `matches / total`), or the heads beyond a geometric class's minimum
/// (its likelihood is `2^-(extra_heads + 1)`).
#[derive(Debug, Clone, Copy, PartialEq, Eq, Structural)]
pub enum PathMatch {
    Exact { matches: usize, total: usize },
    Geometric { extra_heads: usize },
}

/// How many of `paths` are the batch `observed`.
pub open spec fn count_equal_paths(paths: Seq<CoinSeq>, observed: Seq<bool>) -> nat
    decreases paths.len(),
{
    if paths.len() == 0 {
        0
    } else {
        count_equal_paths(paths.drop_last(), observed) + if paths.last().0@ == observed {
            1nat
        } else {
            0nat
        }
    }
}

/// All faces are heads.
pub open spec fn all_heads(s: Seq<bool>) -> bool {
    forall|i: int| 0 <= i < s.len() ==> #[trigger] s[i]
}

impl CoinPaths {
    /// The likelihood of `observed` under this branch: no match (`None`), or how it matches; a
    /// batch that does not end in a tail cannot be judged by a geometric class.
    pub open spec fn spec_path_match(&self, observed: Seq<bool>) -> Result<Option<PathMatch>, CoinConditionError> {
        match self {
            CoinPaths::NoPaths => Ok(None),
            CoinPaths::Exact(paths) => {
                let m = count_equal_paths(paths@, observed);
                if m == 0 {
                    Ok(None)
                } else {
                    Ok(Some(PathMatch::Exact { matches: m as usize, total: paths@.len() as usize }))
                }
            },
            CoinPaths::UntilTailsAtLeast { min_heads } => if observed.len() == 0 || observed.last() {
                Err(CoinConditionError::InvalidObservedPath)
            } else {
                let heads = observed.drop_last();
                if !all_heads(heads) || heads.len() < *min_heads {
                    Ok(None)
                } else {
                    Ok(Some(PathMatch::Geometric { extra_heads: (heads.len() - *min_heads) as usize }))
                }
            },
        }
    }

    /// How `observed` matches this branch's coin paths.
    pub fn path_match(&self, observed: &CoinSeq) -> (r: Result<Option<PathMatch>, CoinConditionError>)
        ensures
            r == self.spec_path_match(observed.0@),
    {
        match self {
            CoinPaths::NoPaths => Ok(None),
            CoinPaths::Exact(paths) => {
                let n = paths.len();
                let mut m: usize = 0;
                for k in 0..n
                    invariant
                        n == paths@.len(),
                        m == count_equal_paths(paths@.take(k as int), observed.0@),
                        m <= k,
                {
                    proof {
                        assert(paths@.take(k + 1).drop_last() =~= paths@.take(k as int));
                    }
                    if bool_seqs_equal(&paths[k].0, &observed.0) {
                        m += 1;
                    }
                }
                proof {
                    assert(paths@.take(n as int) =~= paths@);
                }
                if m == 0 {
                    Ok(None)
                } else {
                    Ok(Some(PathMatch::Exact { matches: m, total: n }))
                }
            },
            CoinPaths::UntilTailsAtLeast { min_heads } => {
                let faces = &observed.0;
                let len = faces.len();
                if len == 0 || faces[len - 1] {
                    return Err(CoinConditionError::InvalidObservedPath);
                }
                let ghost heads = faces@.drop_last();
                for i in 0..len - 1
                    invariant
                        len == faces@.len(),
                        len > 0,
                        heads == faces@.drop_last(),
                        *faces == observed.0,
                        !faces@.last(),
                        *self == (CoinPaths::UntilTailsAtLeast { min_heads: *min_heads }),
                        forall|j: int| 0 <= j < i ==> #[trigger] heads[j],
                {
                    if !faces[i] {
                        proof {
                            assert(!heads[i as int]);
                        }
                        return Ok(None);
                    }
                }
                if len - 1 < *min_heads {
                    return Ok(None);
                }
                Ok(Some(PathMatch::Geometric { extra_heads: len - 1 - *min_heads }))
            },
        }
    }
}

/// Conditioning branches on an observed batch: the branches whose paths match it, by index and
/// with how they match; or, when none does, `InvalidObservedPath` if some geometric class could
/// not judge the batch and `NoMatchingPath` otherwise.
pub open spec fn spec_conditioning_survivors(branches: Seq<CoinPaths>, observed: Seq<bool>) -> Result<
    Seq<(usize, PathMatch)>,
    CoinConditionError,
> {
    let kept = survivors_upto(branches, observed, branches.len() as int);
    if kept.len() > 0 {
        Ok(kept)
    } else if malformed_upto(branches, observed, branches.len() as int) {
        Err(CoinConditionError::InvalidObservedPath)
    } else {
        Err(CoinConditionError::NoMatchingPath)
    }
}

/// The matching branches among the first `hi`, in order.
pub open spec fn survivors_upto(branches: Seq<CoinPaths>, observed: Seq<bool>, hi: int) -> Seq<(usize, PathMatch)>
    decreases hi,
{
    if hi <= 0 {
        Seq::empty()
    } else {
        let before = survivors_upto(branches, observed, hi - 1);
        match branches[hi - 1].spec_path_match(observed) {
            Ok(Some(m)) => before.push(((hi - 1) as usize, m)),
            _ => before,
        }
    }
}

/// Some geometric class among the first `hi` could not judge the batch.
pub open spec fn malformed_upto(branches: Seq<CoinPaths>, observed: Seq<bool>, hi: int) -> bool
    decreases hi,
{
    if hi <= 0 {
        false
    } else {
        malformed_upto(branches, observed, hi - 1) || branches[hi - 1].spec_path_match(observed) is Err
    }
}

/// Which branches survive conditioning on `observed`, and how each matches. Weighting the
/// survivors by their probabilities is the caller's.
pub fn conditioning_survivors(branches: &[CoinPaths], observed: &CoinSeq) -> (r: Result<
    Vec<(usize, PathMatch)>,
    CoinConditionError,
>)
    ensures
        match spec_conditioning_survivors(branches@, observed.0@) {
            Ok(kept) => r matches Ok(v) && v@ == kept,
            Err(e) => r == Err::<Vec<(usize, PathMatch)>, CoinConditionError>(e),
        },
{
    let n = branches.len();
    let mut kept: Vec<(usize, PathMatch)> = Vec::new();
    let mut malformed = false;
    for i in 0..n
        invariant
            n == branches@.len(),
            kept@ == survivors_upto(branches@, observed.0@, i as int),
            malformed == malformed_upto(branches@, observed.0@, i as int),
    {
        match branches[i].path_match(observed) {
            Ok(Some(m)) => {
                kept.push((i, m));
            },
            Ok(None) => {},
            Err(_) => {
                malformed = true;
            },
        }
    }
    if kept.len() > 0 {
        Ok(kept)
    } else if malformed {
        Err(CoinConditionError::InvalidObservedPath)
    } else {
        Err(CoinConditionError::NoMatchingPath)
    }
}

} // verus!
