# mc_loot_finder

Predicts the contents of generated loot chests in Minecraft Java 26.1.2:
where random-spread structures can start, which containers a structure
places, the `LootTableSeed` that chunk decoration gives each container, and
the items that a loot table rolls from that seed.

The library in `src/` is verified with Verus; every public function states
its result in its contract.

- `legacy_random`, `xoroshiro`, `decoration_seed`: the game's random
  generators and the decoration seed of a container.
- `placement`, `catalog`: random-spread placement and the structure catalog.
- `worldgen`, `template_scan`, `template_data`, `jigsaw`, `surface_jigsaw`:
  what a scan reports once a structure is placed: numbering and seeding of
  containers, template markers, desert pyramids, igloos, buried treasure,
  shipwreck heights, collision spaces and jigsaw attachment.
- `loot`, `binary32`: replaying loot tables, with the one `f32` step done on
  integers.
- `cli`, `rust_cli`, `rust_core`, `commands`, `output`, `strings`, `error`:
  arguments, reports and errors of the command line.

`app/` is the command-line program around the library: argument parsing with
clap, JSON output, reading the loot data, and the world-generation scanner,
which needs steel's terrain and jigsaw generator for heights, biomes and
piece assembly.

`tests/` holds the tests, run against the compiled library.
