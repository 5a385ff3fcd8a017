# chaos_game_3d

Generates fractals with the Chaos Game as 3D point clouds and writes them as
3D Tiles tilesets (`.pnts` or `.glb` tiles under `./viewer/<fractal id>`).

- `src/` is the verified library: the multiplication tables of the conformal
  geometric algebra, the choosers of transformations, the octree, the tile
  coordinates, the `.pnts` and `.glb` encoders and the tileset layout, each
  with its contract and the laws that tie them together.
- `app/` is the program around it: reading the parameter file, the floating
  point geometry (transformations, bounding boxes, the fractal dimension
  estimate), the JSON documents and the files on disk.
- `tests/` runs the library on concrete values.

Usage: `chaos-game-3d PARAMETER_FILE`, where the parameter file is a JSON
description of the fractal.
