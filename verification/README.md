# yulaven

The rules of Yulaven, an arcane survival roguelike, as a verified Rust
library (Verus), with the Bevy game around it.

- `src/` — the library, every function proved against its contract:
  - `state` — screen flow (title, hero select, play, level-up, pause, game over);
  - `character` — hero definitions and their card texts;
  - `enemy` — enemy stats, aggro, spawn caps and the weighted spawn table;
  - `combat` — fireball charges, orb volleys, nova and active abilities, deaths;
  - `animation` — sprite frame loops and the title logo;
  - `terrain` — the terrain hash (with the exact `u32 as f32` rounding it
    relies on), ground and structure placement, the tile window;
  - `upgrade` — level-up cards and the three-card offer;
  - `movement`, `joystick`, `color` — arrow keys, touch tracking, colours.
  Stats are whole numbers in hundredths; the game divides by 100.
- `tests/` — unit tests of the library.
- `app/` — the Bevy game: rendering, input, timers, physics and the other
  float arithmetic, calling the library for each decision.
