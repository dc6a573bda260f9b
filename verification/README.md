# interestingtech

A voxel building game: pre-built voxel structures are placed on a 32 x 32 tile grid and
edited voxel by voxel in a fly-camera editor.

`src/` is the verified library (Verus):

- `color`, `coords`: RGBA colors held as the bit patterns of `f32` channels (alpha >= 0.5
  means solid), integer lattice points.
- `voxel::model`: the dense `[z][y][x]` voxel grid, reads and writes, and face-culled mesh
  extraction; `voxel::model_laws` proves read-after-write, face culling, uniqueness of
  faces and the buffer layout.
- `voxel::structures`: the ten pre-built structures, each proved equal to a cell-by-cell
  description.
- `voxel::pick`: the first solid cell along a ray's cell walk.
- `voxel::palette`: which formula makes each of the 256 palette swatches.
- `game::state`: tiles to placed structures; `game::session`: the input state machine
  (keys, clicks) with the effects the window loop performs.
- `render`: index buffers, swatch grid, instance grouping and draw numbering, fly-camera
  key intent.

`app/` is the program around it: SDL3 window and input, wgpu rendering, and all floating-point
work (cameras, ray walks, HSL colors, pixel picking).

`tests/` exercises the library, including independent cell-by-cell builds of every structure.
