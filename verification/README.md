# steel_core block behaviors

Verified decision logic of a few Minecraft server block behaviors:
eyeblossoms (planted and potted), grass and other spreading snowy blocks,
mangrove roots and spore blossoms.

- `src/` — the library, verified with Verus. Each behavior decides from plain
  values (what was read of the world, dice rolls) and returns what to do.
  Bone meal on grass is a machine that the caller drives step by step.
- `app/` — the world side: a `World` trait for what the behaviors read and
  do, and the glue that reads the world, calls the library and applies the
  plans; particle motion (floating point) lives there too.
- `tests/` — scenarios and edge cases.
