# rogue

A small roguelike whose game rules are written in Verus and proved against
their contracts.

- `src/` is the verified library: the map and its builders (rooms and
  corridors, cellular-automaton caves, connected components, stairs), the
  spawn tables, the game's state machine, the player's actions, and the turn
  systems (combat, damage, hunger, statuses, hazards, monster decisions,
  targeted effects). Randomness, line drawing and entity handles come from
  `rltk` and `specs` through a few trusted wrappers.
- `app/` is the game around it: the window and main loop (`rltk`), the ECS
  storage (`specs`), drawing, key bindings, path-finding and field of view,
  and saving (`serde_json`).
- `tests/` runs the library on concrete values.
