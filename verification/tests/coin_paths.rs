use deckgym::outcomes::{
    binomial_coefficient, conditioning_survivors, generate_sequences_with_heads, CoinConditionError, CoinPaths,
    CoinSeq, PathMatch, MAX_GEOMETRIC_SATURATION_HEADS,
};

#[test]
fn symbolic_membership_requires_one_terminal_tail_and_minimum_heads() {
    let class = CoinPaths::UntilTailsAtLeast { min_heads: 3 };
    assert!(class.contains(&CoinSeq(vec![true, true, true, false])));
    assert!(class.contains(&CoinSeq(vec![true, true, true, true, false])));
    assert!(!class.contains(&CoinSeq(vec![true, true, false])));
    assert!(!class.contains(&CoinSeq(vec![true, true, true])));
    assert!(!class.contains(&CoinSeq(vec![true, true, true, false, true])));
    assert_eq!(class.clone(), class);
    assert_eq!(format!("{class:?}"), "UntilTailsAtLeast { min_heads: 3 }");
    let invalid = CoinPaths::UntilTailsAtLeast { min_heads: MAX_GEOMETRIC_SATURATION_HEADS + 1 };
    assert!(!invalid.has_paths());
}

#[test]
fn exact_paths_contain_only_their_members() {
    let exact = CoinPaths::Exact(vec![CoinSeq(vec![true, false]), CoinSeq(vec![false])]);
    assert!(exact.has_paths());
    assert!(exact.contains(&CoinSeq(vec![false])));
    assert!(exact.contains(&CoinSeq(vec![true, false])));
    assert!(!exact.contains(&CoinSeq(vec![true])));
    assert!(!CoinPaths::Exact(vec![]).has_paths());
    assert!(!CoinPaths::NoPaths.has_paths());
    assert!(!CoinPaths::NoPaths.contains(&CoinSeq(vec![])));
}

#[test]
fn zero_minimum_heads_accepts_a_single_tail() {
    let class = CoinPaths::UntilTailsAtLeast { min_heads: 0 };
    assert!(class.has_paths());
    assert!(class.contains(&CoinSeq(vec![false])));
    assert!(!class.contains(&CoinSeq(vec![])));
    let mut long = vec![true; 12];
    long.push(false);
    assert!(class.contains(&CoinSeq(long)));
}

#[test]
fn sequences_with_heads_in_mask_order() {
    assert_eq!(
        generate_sequences_with_heads(3, 2),
        vec![vec![true, true, false], vec![true, false, true], vec![false, true, true]]
    );
    assert_eq!(generate_sequences_with_heads(2, 0), vec![vec![false, false]]);
    assert_eq!(generate_sequences_with_heads(2, 3), Vec::<Vec<bool>>::new());
    assert_eq!(generate_sequences_with_heads(0, 0), vec![Vec::<bool>::new()]);
    assert_eq!(generate_sequences_with_heads(0, 4), vec![Vec::<bool>::new()]);
    let five_choose_two = generate_sequences_with_heads(5, 2);
    assert_eq!(five_choose_two.len(), 10);
    assert!(five_choose_two.iter().all(|s| s.len() == 5 && s.iter().filter(|f| **f).count() == 2));
}

#[test]
fn binomial_coefficient_sanity() {
    assert_eq!(binomial_coefficient(0, 0), 1);
    assert_eq!(binomial_coefficient(5, 0), 1);
    assert_eq!(binomial_coefficient(5, 5), 1);
    assert_eq!(binomial_coefficient(5, 2), 10);
    assert_eq!(binomial_coefficient(5, 2), binomial_coefficient(5, 3));
}

#[test]
fn binomial_coefficients_match_pascals_rule() {
    assert_eq!(binomial_coefficient(3, 7), 0);
    assert_eq!(binomial_coefficient(10, 1), 10);
    assert_eq!(binomial_coefficient(10, 4), 210);
    assert_eq!(binomial_coefficient(10, 6), 210);
    assert_eq!(binomial_coefficient(52, 5), 2_598_960);
    for n in 1..20usize {
        for k in 1..n {
            assert_eq!(
                binomial_coefficient(n, k),
                binomial_coefficient(n - 1, k - 1) + binomial_coefficient(n - 1, k)
            );
        }
    }
}

#[test]
fn batches_with_a_head_count_number_its_binomial_weight() {
    for flips in 1..8usize {
        for heads in 0..=flips + 1 {
            assert_eq!(
                generate_sequences_with_heads(flips, heads).len(),
                binomial_coefficient(flips, heads)
            );
        }
    }
    // No flips: the single empty batch, whatever the head count.
    assert_eq!(generate_sequences_with_heads(0, 0).len(), binomial_coefficient(0, 0));
    assert_eq!(generate_sequences_with_heads(0, 2), vec![Vec::<bool>::new()]);
}

#[test]
fn conditioning_keeps_matching_branches_with_their_weights() {
    let observed = CoinSeq(vec![true, true, false]);
    let branches = vec![
        CoinPaths::NoPaths,
        CoinPaths::Exact(vec![
            CoinSeq(vec![true, true, false]),
            CoinSeq(vec![false, false, false]),
            CoinSeq(vec![true, true, false]),
        ]),
        CoinPaths::UntilTailsAtLeast { min_heads: 1 },
        CoinPaths::UntilTailsAtLeast { min_heads: 3 },
        CoinPaths::Exact(vec![CoinSeq(vec![true])]),
    ];
    assert_eq!(
        conditioning_survivors(&branches, &observed),
        Ok(vec![(1, PathMatch::Exact { matches: 2, total: 3 }), (2, PathMatch::Geometric { extra_heads: 1 })])
    );
    let no_tail = CoinSeq(vec![true, true]);
    assert_eq!(
        conditioning_survivors(&branches, &no_tail),
        Err(CoinConditionError::InvalidObservedPath)
    );
    assert_eq!(
        conditioning_survivors(&[CoinPaths::Exact(vec![CoinSeq(vec![false])])], &observed),
        Err(CoinConditionError::NoMatchingPath)
    );
}
