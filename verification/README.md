# night_fishing

The rules of a small night-fishing horror game, written in Verus and proved
against their contracts: the typewriter death and ending sequences, hover
timers that open the backpack and reveal items, the monster encounter (arrow
side choice, charge, escape check, attack), player health and hearts, the
backpack grid and last-caught display, progress toasts, asset preloading,
the spike-rejecting median filter for tracked positions, and the debug
tooling's toggles and setup plan.

Layout:

- `src/` — the verified library. Time is counted in whole nanoseconds,
  positions in whole pixels, fractions as numerators over a stated
  denominator; the laws that span calls stand as public proof functions in
  the modules they are about.
- `tests/` — tests of the library on concrete values.
- `app/` — the Bevy side: states, resources and systems that feed frame
  times, input and loaded data to the library and keep what it decides for
  the presentation layer to draw.
