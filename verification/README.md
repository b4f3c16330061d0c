# game_tutorial

The logic of a small top-down arena game, verified with Verus: movement
inside the arena, the enemy AI, collisions with the player, the walking
frames cut from spritesheets, the initial components of player and enemies,
the arrow-key command stack of the main loop and the enemy spawn timer.

- `src/` is the verified library (`geometry`, `components`, `physics`, `ai`,
  `crash`, `animation`, `controls`, `renderer`, and `random`, which draws
  numbers from `rand`).
- `app/` is the program around it: SDL2 window, input, audio and drawing,
  and the `specs` entity-component world whose systems call the library.
- `tests/` runs the library on concrete values.
