# sf_core

Rules of a dogfighting miniatures game, verified with Verus: hidden maneuver
dials, movement templates, firing arcs, dice with focus, evade and target-lock
tokens, critical damage, pilots, upgrades, squads, bombs, obstacles, missions
and a computer player.

- `src/` is the library. Every command and every step of a round is an
  executable function whose contract says exactly what becomes of the game.
- `tests/` plays whole rounds on a measured table.
- `app/` is what surrounds the rules: floating-point measurement, the data
  files, and the loop that hands measured facts to the rules.

## How it fits together

`GameState` is the state of a game; `Game` is its mathematical model, with
lists as sequences. Each operation has a spec function on `Game` (or on `Play`,
a game with its dice) and an executable function that is proved to follow it.

Nothing in the library computes with coordinates. The caller measures ranges,
arcs and overlaps and passes them in: `Sight` holds the lines between all
ships, `Moves` where an acting ship could go, `Facts` what one step of the
Activation phase needs. Poses are carried as bit patterns. Dice are a strip of
raw values drawn in advance.

A round runs like this:

1. Planning commands (`game::planning`) until every seat has committed.
2. `commit_plans_begin` returns an `Activation`; `Activation::step` is called
   until its stage is `Over`, each time with the facts for that stage.
3. `begin_combat`, then `combat_step` until it reports `Done`, answering each
   `NeedTarget` with `declare_target`.

Refused commands return a `Rejection` and leave the game unchanged.

## Modules

| Module | What it holds |
| --- | --- |
| `dice`, `crit`, `combat` | dice, damage cards, range bonuses |
| `maneuver`, `board`, `geometry`, `sight` | dials, templates, edges, measured facts |
| `ship`, `pilot`, `upgrade`, `squad`, `data` | printed content and ships in play |
| `bombs`, `obstacle`, `mission`, `event` | tokens, missions, narration |
| `bot` | the computer player's decisions |
| `game::setup`, `game::briefing`, `game::placement`, `game::planning` | from squads to committed plans |
| `game::activation` and the modules it steps through | movement and actions |
| `game::muster`, `game::battle`, `game::impact` and the attack stages | combat |
| `game::ending`, `game::missions` | the End phase and victory |
| `game::snapshot`, `game::narration` | what players see and read |
| `game::lasting`, `game::abiding`, `game::rounds` | what lasts through a round, and why combat ends |
| `game::plain` | attacks without cards |
| `game::laws` | what holds of the rules as a whole |
