# EutherCivet rules

The rules of EutherCivet, a satirical civet-coffee plantation game, as a
verified library.

- `src/` holds the discrete side of the game and every decision its rules
  make: money, reputation, counters, flags, the log, the seeded random
  source, the day's books, letters and orders, the control panel's labels and
  the scene's layout. Each public function states what it does over a
  mathematical view of the state, and `src/laws.rs` proves what holds across
  the operations (the shape every state keeps, upgrades that last, purchases
  that never overdraw, the inspection and the day report holding up work).
- The continuous stocks and meters (coffee fruit, feed, beans, roasted
  coffee, suspicion, happiness, the civets' moods) are floating point and
  live in `app/`, which reads them into the library's readings and applies
  the effects the rules return. `app/` also holds the save file (serde) and
  a terminal front end.
- `tests/` exercises the library on concrete games.
