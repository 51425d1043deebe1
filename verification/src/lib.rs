//! A verified core of a Pokémon TCG Pocket simulator: card and board models, the Ability
//! registry and its move-generation gates, retreat costs and their payment, Energy moves,
//! coin-path bookkeeping, player-code parsing, the pure rules of the search players and the
//! bookkeeping of the game-result exporter.
pub mod abilities;
pub mod action_rules;
pub mod attack_gates;
pub mod attack_mechanics;
pub mod ability_lookup;
pub mod ability_registry;
pub mod action_text;
pub mod actions;
pub mod board;
pub mod board_steps;
pub mod data_export;
pub mod card_ids;
pub mod card_logic;
pub mod cards;
pub mod card_validation;
pub mod deterministic_actions;
pub mod effects;
pub mod energy_combinations;
pub mod energy_moves;
pub mod game_records;
pub mod game_results;
pub mod leaving_play;
pub mod models;
pub mod move_generation_abilities;
pub mod outcomes;
pub mod pilot_stats;
pub mod players;
pub mod public_reply;
pub mod result_ledger;
pub mod retreat;
pub mod search;
pub mod state;
pub mod text;
pub mod trainer_coins;
