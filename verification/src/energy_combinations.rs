//! The distinct pairs of Energy that can be taken from a list, with how many ways each pair can
//! be picked.
use vstd::prelude::*;

use crate::models::{energy_rank, energy_rank_of, EnergyType};
use crate::outcomes::binomial;

verus! {

/// The pair `{a, b}` in Energy order (the order `EnergyType` is declared in).
pub open spec fn sorted_pair(a: EnergyType, b: EnergyType) -> Seq<EnergyType> {
    if energy_rank(a) <= energy_rank(b) {
        seq![a, b]
    } else {
        seq![b, a]
    }
}

/// The number of `j` with `i < j < j_hi` whose pair with `i` is `combo`.
pub open spec fn row_count(e: Seq<EnergyType>, combo: Seq<EnergyType>, i: int, j_hi: int) -> nat
    decreases j_hi - i,
{
    if j_hi <= i + 1 {
        0
    } else {
        row_count(e, combo, i, j_hi - 1) + if sorted_pair(e[i], e[j_hi - 1]) == combo {
            1nat
        } else {
            0nat
        }
    }
}

/// The number of pairs `i < j` with `i < i_hi` whose sorted pair is `combo`.
pub open spec fn pair_count_upto(e: Seq<EnergyType>, combo: Seq<EnergyType>, i_hi: int) -> nat
    decreases i_hi,
{
    if i_hi <= 0 {
        0
    } else {
        pair_count_upto(e, combo, i_hi - 1) + row_count(e, combo, i_hi - 1, e.len() as int)
    }
}

/// How many ways `combo` can be picked as two entries of `e`.
pub open spec fn pair_count(e: Seq<EnergyType>, combo: Seq<EnergyType>) -> nat {
    pair_count_upto(e, combo, e.len() as int)
}

/// The pairs counted before row `i` reaches column `j`.
pub open spec fn partial_count(e: Seq<EnergyType>, combo: Seq<EnergyType>, i: int, j: int) -> nat {
    pair_count_upto(e, combo, i) + row_count(e, combo, i, j)
}

pub open spec fn combos_of(r: Seq<(Vec<EnergyType>, usize)>) -> Seq<Seq<EnergyType>> {
    r.map_values(|entry: (Vec<EnergyType>, usize)| entry.0@)
}

fn pair_of(a: EnergyType, b: EnergyType) -> (r: Vec<EnergyType>)
    ensures
        r@ == sorted_pair(a, b),
{
    if energy_rank_of(a) <= energy_rank_of(b) {
        vec![a, b]
    } else {
        vec![b, a]
    }
}

fn same_pair(a: &Vec<EnergyType>, b: &Vec<EnergyType>) -> (r: bool)
    requires
        a@.len() == 2,
        b@.len() == 2,
    ensures
        r == (a@ == b@),
{
    let r = a[0] == b[0] && a[1] == b[1];
    proof {
        if r {
            assert(a@ =~= b@);
        }
    }
    r
}

/// Every distinct pair of two entries of `energies`, sorted in Energy order, each once with the
/// number of index pairs `i < j` that give it; the numbers add up to the ways of picking two.
/// No combination appears twice: the list is a map from each combination to its count.
pub fn generate_energy_combinations(energies: &[EnergyType]) -> (r: Vec<(Vec<EnergyType>, usize)>)
    requires
        energies@.len() * energies@.len() <= usize::MAX,
    ensures
        forall|k: int|
            0 <= k < r@.len() ==> {
                &&& (#[trigger] r@[k]).1 == pair_count(energies@, r@[k].0@)
                &&& r@[k].1 > 0
                &&& r@[k].0@.len() == 2
            },
        forall|k1: int, k2: int|
            0 <= k1 < r@.len() && 0 <= k2 < r@.len() && k1 != k2 ==> (#[trigger] r@[k1]).0@ != (#[trigger] r@[k2]).0@,
        forall|i: int, j: int|
            0 <= i < j < energies@.len() ==> #[trigger] combos_of(r@).contains(sorted_pair(energies@[i], energies@[j])),
        forall|c: Seq<EnergyType>| !combos_of(r@).contains(c) ==> #[trigger] pair_count(energies@, c) == 0,
        counts_total(r@) == binomial(energies@.len() as nat, 2),
{
    let ghost e = energies@;
    let n = energies.len();
    let mut out: Vec<(Vec<EnergyType>, usize)> = Vec::new();
    let mut steps: usize = 0;
    let mut i: usize = 0;
    while i < n
        invariant
            e == energies@,
            n == e.len(),
            n * n <= usize::MAX,
            i <= n,
            steps <= i * n,
            forall|k: int|
                0 <= k < out@.len() ==> {
                    &&& (#[trigger] out@[k]).1 == partial_count(e, out@[k].0@, i as int, i + 1)
                    &&& out@[k].1 > 0
                    &&& out@[k].1 <= steps
                    &&& out@[k].0@.len() == 2
                },
            forall|k1: int, k2: int|
                0 <= k1 < out@.len() && 0 <= k2 < out@.len() && k1 != k2 ==> (#[trigger] out@[k1]).0@ != (#[trigger] out@[k2]).0@,
            forall|a: int, b: int|
                0 <= a < b < n && a < i ==> #[trigger] combos_of(out@).contains(sorted_pair(e[a], e[b])),
            forall|c: Seq<EnergyType>|
                !combos_of(out@).contains(c) ==> #[trigger] partial_count(e, c, i as int, i + 1) == 0,
        decreases n - i,
    {
        let mut j: usize = i + 1;
        while j < n
            invariant
                e == energies@,
                n == e.len(),
                n * n <= usize::MAX,
                i < n,
                i + 1 <= j <= n,
                steps <= i * n + j,
                forall|k: int|
                    0 <= k < out@.len() ==> {
                        &&& (#[trigger] out@[k]).1 == partial_count(e, out@[k].0@, i as int, j as int)
                        &&& out@[k].1 > 0
                        &&& out@[k].1 <= steps
                        &&& out@[k].0@.len() == 2
                    },
                forall|k1: int, k2: int|
                    0 <= k1 < out@.len() && 0 <= k2 < out@.len() && k1 != k2 ==> (#[trigger] out@[k1]).0@ != (#[trigger] out@[k2]).0@,
                forall|a: int, b: int|
                    0 <= a < b < n && (a < i || (a == i && b < j)) ==> #[trigger] combos_of(out@).contains(
                        sorted_pair(e[a], e[b]),
                    ),
                forall|c: Seq<EnergyType>|
                    !combos_of(out@).contains(c) ==> #[trigger] partial_count(e, c, i as int, j as int) == 0,
            decreases n - j,
        {
            let combo = pair_of(energies[i], energies[j]);
            let ghost pc = sorted_pair(e[i as int], e[j as int]);
            assert(i * n + j + 1 <= n * n) by (nonlinear_arith)
                requires
                    i < n,
                    j < n,
            ;
            let ghost old_out = out@;
            // Find the entry of this pair, if there is one yet.
            let mut k: usize = 0;
            let mut found = false;
            while k < out.len() && !found
                invariant
                    out@ == old_out,
                    k <= out@.len(),
                    combo@ == pc,
                    pc.len() == 2,
                    forall|m: int| 0 <= m < out@.len() ==> (#[trigger] out@[m]).0@.len() == 2,
                    found ==> k < out@.len() && out@[k as int].0@ == pc,
                    !found ==> forall|m: int| 0 <= m < k ==> (#[trigger] out@[m]).0@ != pc,
                decreases out@.len() - k + if found { 0int } else { 1int },
            {
                if same_pair(&out[k].0, &combo) {
                    found = true;
                } else {
                    k += 1;
                }
            }
            proof {
                assert forall|c: Seq<EnergyType>|
                    #![trigger partial_count(e, c, i as int, j + 1)]
                    true implies partial_count(e, c, i as int, j + 1) == partial_count(e, c, i as int, j as int)
                        + if pc == c {
                        1nat
                    } else {
                        0nat
                    } by {}
            }
            if found {
                let entry_count = out[k].1;
                let entry_combo = out[k].0.clone();
                proof {
                    assert(entry_combo@ =~= out@[k as int].0@);
                }
                out.set(k, (entry_combo, entry_count + 1));
                proof {
                    assert(combos_of(out@) =~= combos_of(old_out));
                    assert forall|kk: int| 0 <= kk < out@.len() implies {
                        &&& (#[trigger] out@[kk]).1 == partial_count(e, out@[kk].0@, i as int, j + 1)
                        &&& out@[kk].1 > 0
                        &&& out@[kk].1 <= steps + 1
                        &&& out@[kk].0@.len() == 2
                    } by {
                        if kk != k {
                            assert(out@[kk] == old_out[kk]);
                            assert(old_out[kk].0@ != old_out[k as int].0@);
                        }
                    }
                    assert forall|a: int, b: int|
                        0 <= a < b < n && (a < i || (a == i && b < j + 1)) implies #[trigger] combos_of(out@).contains(
                            sorted_pair(e[a], e[b]),
                        ) by {
                        if a == i && b == j {
                            assert(combos_of(out@)[k as int] == pc);
                        }
                    }
                    assert(combos_of(out@)[k as int] == pc);
                    assert forall|c: Seq<EnergyType>| !combos_of(out@).contains(c) implies #[trigger] partial_count(
                        e,
                        c,
                        i as int,
                        j + 1,
                    ) == 0 by {
                        assert(c != pc);
                        assert(!combos_of(old_out).contains(c));
                    }
                }
            } else {
                out.push((combo, 1));
                proof {
                    assert(!combos_of(old_out).contains(pc)) by {
                        if combos_of(old_out).contains(pc) {
                            let m = choose|m: int| 0 <= m < combos_of(old_out).len() && combos_of(old_out)[m] == pc;
                            assert(old_out[m].0@ == pc);
                        }
                    }
                    assert(combos_of(out@) =~= combos_of(old_out).push(pc));
                    assert forall|kk: int| 0 <= kk < out@.len() implies {
                        &&& (#[trigger] out@[kk]).1 == partial_count(e, out@[kk].0@, i as int, j + 1)
                        &&& out@[kk].1 > 0
                        &&& out@[kk].1 <= steps + 1
                        &&& out@[kk].0@.len() == 2
                    } by {
                        if kk < old_out.len() {
                            assert(out@[kk] == old_out[kk]);
                            assert(old_out[kk].0@ != pc) by {
                                assert(combos_of(old_out)[kk] == old_out[kk].0@);
                            }
                        }
                    }
                    assert forall|k1: int, k2: int|
                        0 <= k1 < out@.len() && 0 <= k2 < out@.len() && k1 != k2 implies (#[trigger] out@[k1]).0@
                            != (#[trigger] out@[k2]).0@ by {
                        if k1 < old_out.len() && k2 == old_out.len() {
                            assert(combos_of(old_out)[k1] == old_out[k1].0@);
                        }
                        if k2 < old_out.len() && k1 == old_out.len() {
                            assert(combos_of(old_out)[k2] == old_out[k2].0@);
                        }
                    }
                    assert forall|a: int, b: int|
                        0 <= a < b < n && (a < i || (a == i && b < j + 1)) implies #[trigger] combos_of(out@).contains(
                            sorted_pair(e[a], e[b]),
                        ) by {
                        if a == i && b == j {
                            assert(combos_of(out@)[old_out.len() as int] == pc);
                        } else {
                            assert(combos_of(old_out).contains(sorted_pair(e[a], e[b])));
                            let m = choose|m: int|
                                0 <= m < combos_of(old_out).len() && combos_of(old_out)[m] == sorted_pair(e[a], e[b]);
                            assert(combos_of(out@)[m] == sorted_pair(e[a], e[b]));
                        }
                    }
                    assert forall|c: Seq<EnergyType>| !combos_of(out@).contains(c) implies #[trigger] partial_count(
                        e,
                        c,
                        i as int,
                        j + 1,
                    ) == 0 by {
                        assert(combos_of(out@)[old_out.len() as int] == pc);
                        assert(c != pc);
                        if combos_of(old_out).contains(c) {
                            let m = choose|m: int| 0 <= m < combos_of(old_out).len() && combos_of(old_out)[m] == c;
                            assert(combos_of(out@)[m] == c);
                        }
                    }
                }
            }
            steps = steps + 1;
            j = j + 1;
        }
        let ghost i_next: int = i + 1;
        proof {
            assert(j == n);
            assert forall|c: Seq<EnergyType>| !combos_of(out@).contains(c) implies #[trigger] partial_count(
                e,
                c,
                i_next,
                i_next + 1,
            ) == 0 by {
                assert(partial_count(e, c, i as int, j as int) == 0);
                assert(partial_count(e, c, i_next, i_next + 1) == partial_count(e, c, i as int, n as int));
            }
            assert forall|kk: int| 0 <= kk < out@.len() implies (#[trigger] out@[kk]).1 == partial_count(
                e,
                out@[kk].0@,
                i_next,
                i_next + 1,
            ) by {
                assert(partial_count(e, out@[kk].0@, i_next, i_next + 1) == partial_count(e, out@[kk].0@, i as int, n as int));
            }
            assert(steps <= (i + 1) * n) by (nonlinear_arith)
                requires
                    steps <= i * n + n,
            ;
        }
        i = i + 1;
        assert(i as int == i_next);
    }
    proof {
        assert forall|c: Seq<EnergyType>|
            #![trigger pair_count(e, c)]
            true implies pair_count(e, c) == partial_count(e, c, n as int, n + 1) by {}
        lemma_counts_total_is_pairs(e, out@);
    }
    out
}

} // verus!

verus! {

/// The counts of `r`, added up.
pub open spec fn counts_total(r: Seq<(Vec<EnergyType>, usize)>) -> nat
    decreases r.len(),
{
    if r.len() == 0 {
        0
    } else {
        counts_total(r.drop_last()) + r.last().1 as nat
    }
}

/// How many entries of `combos` are `x`.
spec fn matches_in(combos: Seq<Seq<EnergyType>>, x: Seq<EnergyType>) -> nat
    decreases combos.len(),
{
    if combos.len() == 0 {
        0
    } else {
        matches_in(combos.drop_last(), x) + if combos.last() == x {
            1nat
        } else {
            0nat
        }
    }
}

/// `row_count` of row `i` up to `j_hi`, added up over `combos`.
spec fn rows_total(e: Seq<EnergyType>, combos: Seq<Seq<EnergyType>>, i: int, j_hi: int) -> nat
    decreases combos.len(),
{
    if combos.len() == 0 {
        0
    } else {
        rows_total(e, combos.drop_last(), i, j_hi) + row_count(e, combos.last(), i, j_hi)
    }
}

/// `pair_count_upto` below row `i_hi`, added up over `combos`.
spec fn upto_total(e: Seq<EnergyType>, combos: Seq<Seq<EnergyType>>, i_hi: int) -> nat
    decreases combos.len(),
{
    if combos.len() == 0 {
        0
    } else {
        upto_total(e, combos.drop_last(), i_hi) + pair_count_upto(e, combos.last(), i_hi)
    }
}

/// The number of index pairs `i < j < n` with `i < h`.
spec fn pairs_below(n: int, h: int) -> int
    decreases h,
{
    if h <= 0 {
        0
    } else {
        pairs_below(n, h - 1) + (n - h)
    }
}

spec fn distinct(combos: Seq<Seq<EnergyType>>) -> bool {
    forall|k1: int, k2: int| 0 <= k1 < combos.len() && 0 <= k2 < combos.len() && k1 != k2 ==> combos[k1] != combos[k2]
}

proof fn lemma_matches_absent(combos: Seq<Seq<EnergyType>>, x: Seq<EnergyType>)
    requires
        !combos.contains(x),
    ensures
        matches_in(combos, x) == 0,
    decreases combos.len(),
{
    if combos.len() > 0 {
        assert(combos.drop_last().len() < combos.len());
        if combos.drop_last().contains(x) {
            let m = choose|m: int| 0 <= m < combos.drop_last().len() && combos.drop_last()[m] == x;
            assert(combos[m] == x);
        }
        lemma_matches_absent(combos.drop_last(), x);
        assert(combos[combos.len() - 1] != x);
    }
}

proof fn lemma_matches_once(combos: Seq<Seq<EnergyType>>, x: Seq<EnergyType>)
    requires
        distinct(combos),
        combos.contains(x),
    ensures
        matches_in(combos, x) == 1,
    decreases combos.len(),
{
    let rest = combos.drop_last();
    assert(distinct(rest)) by {
        assert forall|k1: int, k2: int| 0 <= k1 < rest.len() && 0 <= k2 < rest.len() && k1 != k2 implies rest[k1]
            != rest[k2] by {
            assert(rest[k1] == combos[k1] && rest[k2] == combos[k2]);
        }
    }
    if combos.last() == x {
        if rest.contains(x) {
            let m = choose|m: int| 0 <= m < rest.len() && rest[m] == x;
            assert(combos[m] == combos[combos.len() - 1]);
        }
        lemma_matches_absent(rest, x);
    } else {
        let m = choose|m: int| 0 <= m < combos.len() && combos[m] == x;
        assert(m != combos.len() - 1);
        assert(rest[m] == x);
        lemma_matches_once(rest, x);
    }
}

/// Extending a row by one column adds the number of combos equal to the new pair.
proof fn lemma_rows_total_step(e: Seq<EnergyType>, combos: Seq<Seq<EnergyType>>, i: int, j_hi: int)
    requires
        j_hi > i + 1,
    ensures
        rows_total(e, combos, i, j_hi) == rows_total(e, combos, i, j_hi - 1) + matches_in(
            combos,
            sorted_pair(e[i], e[j_hi - 1]),
        ),
    decreases combos.len(),
{
    if combos.len() > 0 {
        lemma_rows_total_step(e, combos.drop_last(), i, j_hi);
    }
}

proof fn lemma_rows_total_empty(e: Seq<EnergyType>, combos: Seq<Seq<EnergyType>>, i: int)
    ensures
        rows_total(e, combos, i, i + 1) == 0,
    decreases combos.len(),
{
    if combos.len() > 0 {
        lemma_rows_total_empty(e, combos.drop_last(), i);
    }
}

/// When every pair of row `i` is among the distinct `combos`, the row contributes one count
/// per column.
proof fn lemma_rows_total_counts_columns(e: Seq<EnergyType>, combos: Seq<Seq<EnergyType>>, i: int, j_hi: int)
    requires
        0 <= i,
        i + 1 <= j_hi <= e.len(),
        distinct(combos),
        forall|b: int| i < b < e.len() ==> #[trigger] combos.contains(sorted_pair(e[i], e[b])),
    ensures
        rows_total(e, combos, i, j_hi) == j_hi - i - 1,
    decreases j_hi,
{
    if j_hi == i + 1 {
        lemma_rows_total_empty(e, combos, i);
    } else {
        lemma_rows_total_counts_columns(e, combos, i, j_hi - 1);
        lemma_rows_total_step(e, combos, i, j_hi);
        assert(combos.contains(sorted_pair(e[i], e[j_hi - 1])));
        lemma_matches_once(combos, sorted_pair(e[i], e[j_hi - 1]));
    }
}

proof fn lemma_upto_total_step(e: Seq<EnergyType>, combos: Seq<Seq<EnergyType>>, i_hi: int)
    requires
        i_hi > 0,
    ensures
        upto_total(e, combos, i_hi) == upto_total(e, combos, i_hi - 1) + rows_total(e, combos, i_hi - 1, e.len() as int),
    decreases combos.len(),
{
    if combos.len() > 0 {
        lemma_upto_total_step(e, combos.drop_last(), i_hi);
    }
}

proof fn lemma_upto_total_counts_pairs(e: Seq<EnergyType>, combos: Seq<Seq<EnergyType>>, h: int)
    requires
        0 <= h <= e.len(),
        distinct(combos),
        forall|a: int, b: int| 0 <= a < b < e.len() ==> #[trigger] combos.contains(sorted_pair(e[a], e[b])),
    ensures
        upto_total(e, combos, h) == pairs_below(e.len() as int, h),
    decreases h,
{
    if h == 0 {
        lemma_upto_total_zero(e, combos);
    } else {
        lemma_upto_total_counts_pairs(e, combos, h - 1);
        lemma_upto_total_step(e, combos, h);
        assert forall|b: int| h - 1 < b < e.len() implies #[trigger] combos.contains(sorted_pair(e[h - 1], e[b])) by {
            assert(combos.contains(sorted_pair(e[h - 1], e[b])));
        }
        lemma_rows_total_counts_columns(e, combos, h - 1, e.len() as int);
    }
}

proof fn lemma_upto_total_zero(e: Seq<EnergyType>, combos: Seq<Seq<EnergyType>>)
    ensures
        upto_total(e, combos, 0) == 0,
    decreases combos.len(),
{
    if combos.len() > 0 {
        lemma_upto_total_zero(e, combos.drop_last());
    }
}

proof fn lemma_pairs_below_closed(n: int, h: int)
    requires
        0 <= h,
    ensures
        2 * pairs_below(n, h) == h * (2 * n - h - 1),
    decreases h,
{
    if h > 0 {
        lemma_pairs_below_closed(n, h - 1);
        let p = pairs_below(n, h - 1);
        assert(2 * (p + (n - h)) == h * (2 * n - h - 1)) by (nonlinear_arith)
            requires
                2 * p == (h - 1) * (2 * n - (h - 1) - 1),
        ;
    } else {
        assert(h * (2 * n - h - 1) == 0) by (nonlinear_arith)
            requires
                h == 0,
        ;
    }
}

proof fn lemma_binomial_two(n: nat)
    ensures
        2 * binomial(n, 2) == n * (n - 1),
    decreases n,
{
    if n > 0 {
        lemma_binomial_two((n - 1) as nat);
        lemma_binomial_one_is((n - 1) as nat);
        let b = binomial((n - 1) as nat, 2);
        assert(binomial(n, 2) == (n - 1) + b);
        assert(2 * ((n - 1) + b) == n * (n - 1)) by (nonlinear_arith)
            requires
                2 * b == (n - 1) * (n - 2),
                n > 0,
        ;
    } else {
        assert(n * (n - 1) == 0) by (nonlinear_arith)
            requires
                n == 0,
        ;
    }
}

proof fn lemma_binomial_one_is(n: nat)
    ensures
        binomial(n, 1) == n,
    decreases n,
{
    if n > 0 {
        lemma_binomial_one_is((n - 1) as nat);
        assert(binomial(n, 1) == binomial((n - 1) as nat, 0) + binomial((n - 1) as nat, 1));
    }
}

/// The counts add up to the number of ways of picking two entries: every index pair `i < j` is
/// counted once, under exactly one combination.
proof fn lemma_counts_total_is_pairs(e: Seq<EnergyType>, r: Seq<(Vec<EnergyType>, usize)>)
    requires
        forall|k: int| 0 <= k < r.len() ==> (#[trigger] r[k]).1 == pair_count(e, r[k].0@),
        forall|k1: int, k2: int|
            0 <= k1 < r.len() && 0 <= k2 < r.len() && k1 != k2 ==> (#[trigger] r[k1]).0@ != (#[trigger] r[k2]).0@,
        forall|i: int, j: int| 0 <= i < j < e.len() ==> #[trigger] combos_of(r).contains(sorted_pair(e[i], e[j])),
    ensures
        counts_total(r) == binomial(e.len() as nat, 2),
{
    let combos = combos_of(r);
    assert(distinct(combos)) by {
        assert forall|k1: int, k2: int|
            0 <= k1 < combos.len() && 0 <= k2 < combos.len() && k1 != k2 implies combos[k1] != combos[k2] by {
            assert(combos[k1] == r[k1].0@ && combos[k2] == r[k2].0@);
        }
    }
    lemma_counts_total_is_upto(e, r);
    lemma_upto_total_counts_pairs(e, combos, e.len() as int);
    lemma_pairs_below_closed(e.len() as int, e.len() as int);
    lemma_binomial_two(e.len() as nat);
}

proof fn lemma_counts_total_is_upto(e: Seq<EnergyType>, r: Seq<(Vec<EnergyType>, usize)>)
    requires
        forall|k: int| 0 <= k < r.len() ==> (#[trigger] r[k]).1 == pair_count(e, r[k].0@),
    ensures
        counts_total(r) == upto_total(e, combos_of(r), e.len() as int),
    decreases r.len(),
{
    if r.len() > 0 {
        let rest = r.drop_last();
        assert forall|k: int| 0 <= k < rest.len() implies (#[trigger] rest[k]).1 == pair_count(e, rest[k].0@) by {
            assert(rest[k] == r[k]);
        }
        lemma_counts_total_is_upto(e, rest);
        assert(combos_of(r).drop_last() =~= combos_of(rest));
        assert(r.last() == r[r.len() - 1]);
    }
}

} // verus!
