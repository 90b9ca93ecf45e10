# lift

The rules of "Lift", a small SDL2/OpenGL platformer, as a Verus-verified
library, with the program around it.

- `src/` is the library. Every function in it carries a `requires`/`ensures`
  contract that Verus checks: vectors over any scalar type, the per-frame
  input tables, ability phases, particle slots and spawners, the knight's and
  the wolf's state machines, the enemies' and the player's controllers, skill
  progression, the UI's event and layout rules, glyph packing, level tiles,
  the sprite atlas tables and the shader constants. Public `proof fn`s state
  the laws that span several calls (a key press lasts one frame, the third
  attack lunges once, death is final, a spawner respects its cap, flipping an
  image twice restores it, and so on).
- `tests/` runs the library on concrete values.
- `app/` is the program: the window, OpenGL, the atlas file, and the
  floating-point motion and collisions. It asks the library for every
  decision.
