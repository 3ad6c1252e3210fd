# slime_hex

Verified logic of a small Bevy game in which slimes hop across a hexagonal
grass world.

- `src/` is the verified library:
  - `hex`: hexagon coordinates, directions, neighbors, ranges and the
    coarse-grid centres of `hexx`, and the random choice of a direction;
  - `atlas`: texture atlas grids (`TextureAtlasLayout::from_grid`) and the
    UV options of a hexagon tile;
  - `mesh`: turning a `hexx` hexagon mesh into a screen-plane mesh;
  - `world`: the plan of the world, chunk by chunk, with proofs that chunks
    never overlap;
  - `slime`: the movement and animation state machines of a slime, with
    proofs that the shown frame always stays on the sprite sheet;
  - `input`: the camera control decisions of one frame.
- `app/` is the Bevy program: systems, plugins, assets and all
  floating-point geometry, calling the library for every decision.
- `tests/` runs the library with the real `hexx`, `bevy` and `rand`.
