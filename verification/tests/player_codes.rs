use deckgym::players::{
    fill_code_array, parse_player_code, parse_player_code_generic, player_setup, PlayerCode, PlayerSetup,
    ValueFunctionKind,
};
use deckgym::search::SearchFlags;

#[test]
fn test_s42_tiers_parse_and_do_not_shadow_earlier_ones() {
    assert_eq!(parse_player_code("e3").unwrap(), PlayerCode::E { max_depth: 3 });
    assert_eq!(parse_player_code("p3").unwrap(), PlayerCode::P { max_depth: 3 });
    assert_eq!(
        parse_player_code("x3").unwrap(),
        PlayerCode::X { max_depth: 3, opponent_ply: 3 }
    );
    assert_eq!(
        parse_player_code("y3").unwrap(),
        PlayerCode::Y { max_depth: 3, opponent_ply: 3 }
    );
    assert_eq!(
        parse_player_code("s3o5").unwrap(),
        PlayerCode::S { max_depth: 3, opponent_ply: 5 }
    );
    assert_eq!(parse_player_code("d3").unwrap(), PlayerCode::D { max_depth: 3 });
    assert_eq!(parse_player_code("f3").unwrap(), PlayerCode::F { max_depth: 3 });
    assert_eq!(parse_player_code("g3").unwrap(), PlayerCode::G { max_depth: 3 });
    assert_eq!(parse_player_code("w").unwrap(), PlayerCode::W);
    assert_eq!(parse_player_code("er").unwrap(), PlayerCode::ER);
}

#[test]
fn parses_jev_without_changing_k3() {
    assert_eq!(parse_player_code("JEV").unwrap(), PlayerCode::Jev);
    assert_eq!(parse_player_code("k3").unwrap(), PlayerCode::K { max_depth: 3 });
}

#[test]
fn player_codes_ignore_case() {
    assert_eq!(parse_player_code("E3").unwrap(), parse_player_code("e3").unwrap());
    assert_eq!(parse_player_code("AA").unwrap(), PlayerCode::AA);
    // An 'e' followed by anything but a depth or 'r' is read as a malformed ExpectiMiniMax code,
    // so "et" never reaches the fixed codes.
    assert!(parse_player_code("Et").is_err());
    assert_eq!(
        parse_player_code("X3O4").unwrap(),
        PlayerCode::X { max_depth: 3, opponent_ply: 4 }
    );
}

#[test]
fn fixed_codes_and_default_depth() {
    assert_eq!(parse_player_code("r").unwrap(), PlayerCode::R);
    assert_eq!(parse_player_code("h").unwrap(), PlayerCode::H);
    assert_eq!(parse_player_code("m").unwrap(), PlayerCode::M);
    assert_eq!(parse_player_code("v").unwrap(), PlayerCode::V);
    assert_eq!(parse_player_code("e").unwrap(), PlayerCode::E { max_depth: 3 });
}

#[test]
fn the_default_opponent_ply_is_three() {
    assert_eq!(parse_player_code("x3").unwrap(), parse_player_code("x3o3").unwrap());
    assert_eq!(
        parse_player_code("y12").unwrap(),
        PlayerCode::Y { max_depth: 12, opponent_ply: 3 }
    );
}

#[test]
fn depth_accepts_a_plus_sign_and_leading_zeros() {
    assert_eq!(parse_player_code("p+4").unwrap(), PlayerCode::P { max_depth: 4 });
    assert_eq!(parse_player_code("d007").unwrap(), PlayerCode::D { max_depth: 7 });
}

#[test]
fn refused_codes_name_the_input() {
    assert_eq!(
        parse_player_code("Zz").unwrap_err(),
        "Invalid player code: Zz"
    );
    assert_eq!(
        parse_player_code("eX").unwrap_err(),
        "Invalid player code: eX. Use 'e<number>' for ExpectiMiniMax with depth, e.g., 'e2', 'e5'"
    );
    assert_eq!(
        parse_player_code("p-1").unwrap_err(),
        "Invalid player code: p-1. Use 'p<number>', e.g. 'p3'"
    );
    assert_eq!(
        parse_player_code("k").unwrap_err(),
        "Invalid player code: k"
    );
    assert_eq!(
        parse_player_code("x3o0").unwrap_err(),
        "Invalid player code: x3o0. Opponent ply must be a positive integer, e.g. 'x3o4'"
    );
    assert_eq!(
        parse_player_code("xo3").unwrap_err(),
        "Invalid player code: xo3. Use 'x<number>' or 'x<number>o<ply>', e.g. 'x3' or 'x3o4'"
    );
    assert!(parse_player_code("").is_err());
    assert!(parse_player_code("p99999999999999999999999").is_err());
}

#[test]
fn owned_strings_parse_the_same() {
    assert_eq!(
        parse_player_code_generic("G5".to_string()).unwrap(),
        PlayerCode::G { max_depth: 5 }
    );
}

#[test]
fn missing_players_are_random() {
    assert_eq!(fill_code_array(None), vec![PlayerCode::R, PlayerCode::R]);
    assert_eq!(
        fill_code_array(Some(vec![PlayerCode::AA])),
        vec![PlayerCode::AA, PlayerCode::R]
    );
    assert_eq!(
        fill_code_array(Some(vec![PlayerCode::E { max_depth: 2 }, PlayerCode::W])),
        vec![PlayerCode::E { max_depth: 2 }, PlayerCode::W]
    );
}

#[test]
fn action_labels_are_zero_padded() {
    assert_eq!(deckgym::players::action_id(0), "action_000000");
    assert_eq!(deckgym::players::action_id(42), "action_000042");
    assert_eq!(deckgym::players::action_id(1234567), "action_1234567");
}

#[test]
fn test_search_flags_are_off_for_historical_tiers() {
    // Setting up must work for every tier.
    for code in ["e2", "e3", "p3", "x3", "y3", "s3"] {
        let _ = player_setup(&parse_player_code(code).unwrap());
    }
    assert_eq!(
        SearchFlags::default(),
        SearchFlags { consistent_horizon: false, soft_opponent: false }
    );
}

#[test]
fn each_tier_sets_up_its_search() {
    let off = SearchFlags { consistent_horizon: false, soft_opponent: false };
    assert_eq!(
        player_setup(&parse_player_code("e3").unwrap()),
        PlayerSetup::ExpectiMiniMax { max_depth: 3, value_function: ValueFunctionKind::Baseline, opponent_ply: 0, flags: off }
    );
    assert_eq!(
        player_setup(&parse_player_code("g2").unwrap()),
        PlayerSetup::ExpectiMiniMax {
            max_depth: 2,
            value_function: ValueFunctionKind::PublicDevelopment,
            opponent_ply: 0,
            flags: off
        }
    );
    assert_eq!(
        player_setup(&parse_player_code("x3o5").unwrap()),
        PlayerSetup::ExpectiMiniMax {
            max_depth: 3,
            value_function: ValueFunctionKind::PublicBaseline,
            opponent_ply: 5,
            flags: off
        }
    );
    assert_eq!(
        player_setup(&parse_player_code("y3").unwrap()),
        PlayerSetup::ExpectiMiniMax {
            max_depth: 3,
            value_function: ValueFunctionKind::PublicBaseline,
            opponent_ply: 3,
            flags: SearchFlags { consistent_horizon: true, soft_opponent: false }
        }
    );
    assert_eq!(
        player_setup(&parse_player_code("s3o5").unwrap()),
        PlayerSetup::ExpectiMiniMax {
            max_depth: 3,
            value_function: ValueFunctionKind::PublicBaseline,
            opponent_ply: 5,
            flags: SearchFlags { consistent_horizon: true, soft_opponent: true }
        }
    );
    assert_eq!(player_setup(&PlayerCode::M), PlayerSetup::Mcts { iterations: 100 });
    assert_eq!(player_setup(&PlayerCode::ER), PlayerSetup::EvolutionRusher);
    assert_eq!(player_setup(&PlayerCode::K { max_depth: 3 }), PlayerSetup::KBot { max_depth: 3 });
    assert_eq!(player_setup(&PlayerCode::Jev), PlayerSetup::Jev);
}
