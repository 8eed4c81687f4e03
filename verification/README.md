# flux_pursuit

The rules of Flux Pursuit, a turn-based space shooter, as a library verified with
Verus: decks of reactor modules, the phases of a round, combat between the two
ships, and descriptions of everything the HUD shows.

## Layout

- `src/game/deck.rs`: the player's deck (storage, hand, reactor, action queue)
  and the enemy's deck, with their mathematical views and the laws that relate
  their operations (no module is ever lost or duplicated, the "done" checks agree
  with the steps, the enemy's round length).
- `src/game/phase/`, `src/game/turn.rs`: what each step of a phase or turn
  decides, from state to next state and action.
- `src/game/module.rs`: modules, their descriptions, and what an action does.
- `src/combat/`, `src/game/combat/`: health, damage and death.
- `src/game/hud/`, `src/hud/`, `src/game/ship.rs`, `src/game/level.rs`: the
  entities spawned, as blueprints (`src/ui.rs`) that the engine turns into
  components.
- `src/ecs.rs`: entity ids, and the plan of steps plugins add to the app.
- `src/rng.rs`: the calls into `rand`.
- `app/`: the engine side: configuration files read with serde, and the
  arithmetic on seconds, decibels, pixels and colors.

## Units

Heat, flux, chain and hit points are whole numbers. Lengths, positions and
speeds are fixed point, in hundred-millionths of a unit: `Vw(125_000_000)` is
1.25% of the viewport width.
