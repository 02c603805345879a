# bevy_playground

A voxel terrain playground. The verified library in `src/` holds its logic, proved
with Verus; `app/` is the bevy application around it (windowing, rendering, GPU
buffers, noise sampling and the other floating-point work).

## Library modules

- `marching_cube` — marching cubes over a grid of corner samples: the cube
  configuration, the edge and triangulation tables (`marching_cube::tables`, with
  proofs that the tables agree with each other and with the cube's geometry), the
  triangles of one cube and of a whole chunk, and the chunk's vertex, index and
  normal buffers. Corners are integers in half units and vertices in quarter units,
  so every edge vertex is the exact midpoint of its edge, for any corners.
- `terrain_gen` — the chunks kept around the player: the 3 x 3 neighbourhood, the
  store of generated chunk meshes, the update when the player changes chunk, and
  the spawn command that only generates missing chunks.
- `loading` — loading steps and when loading is complete.
- `debug`, `camera`, `assets` — the debug and wireframe toggles, movement keys and
  the debug texture, progress reports.
- `compute`, `gen_voxels`, `shader`, `temp` — the compute shader drivers: readback
  decoding, image sizes, and the stage machines of the render nodes, with laws over
  whole runs of updates: stages never move back, and the chained node reports its
  start and the end of its startup once each, in that order.

