# deckgym

A verified core of a Pokémon TCG Pocket simulator, written in Verus. Every function in `src/`
is verified by Verus against its `requires`/`ensures` contract, and none is trusted; the laws
the library keeps (retreat costs never below the turn's own cost, once-per-turn Abilities,
Energy moved but never created, case-insensitive player codes, symmetric result agreement,
and others) stand there as public proof functions.

- `src/` — the library: card and board models, the one-line text of actions, the Ability
  registry and its move-generation gates, retreat costs and their payment, Energy moves, the
  board steps (drawing, placing and evolving, healing, discards, switching) and the
  deterministic actions built on them, coin-path bookkeeping and conditioning, player codes and
  the players they set up, the public-reply gates of the search, the per-ply bookkeeping of the
  game data export, and the per-game result ledger.
- `tests/` — ordinary Rust tests of the library on concrete values.
- `app/` — what is not verified: the JSON result files and their serialisable record types,
  the process-wide search telemetry counters, and the floating-point validation of an external
  scorer's reply.
