# kingdom

The game logic of a 2D side-scrolling kingdom builder, written in Verus and
verified, with a thin Bevy application around it.

- `src/` — the verified library:
  - `animation` — the shared sprite-sheet frame cycling (`advance_animation`);
  - `player` — the monarch's input (`gather_input`), movement and facing
    (`apply_movement`), the idle/walk/run animation state machine
    (`update_animation_state`, `apply_animation`) and her spawn data;
  - `world::background` — the layout of the endlessly repeating meadow;
  - `engine` — the trusted items through which the library calls Bevy
    (`Timer`, `TextureAtlasLayout::from_grid`) and `std::time::Duration`,
    with a model of the timer (duration, elapsed time, mode, pause, finishes)
    that states what `Timer::tick` does.
- `app/` — the Bevy application: plugins, ECS systems, asset loading,
  keyboard reading, and the floating-point conversions between world units
  and tiles. Its systems hand plain values to the library and write the
  results back.
- `tests/` — tests of the library run against the real Bevy types.
