//! Chaos game fractals in 3D: the data structures, binary encoders and
//! bookkeeping behind writing a fractal point cloud as a 3D Tiles tileset.
//!
//! - `half_multivector`: the multiplication tables of conformal geometric
//!   algebra used by the transformations
//! - `choosers`: random choice of the next transformation
//! - `buffers`, `point`, `vector`: points, colors and their packing
//! - `octrees`: the octree that the point cloud is stored in
//! - `implicit_coordinates`: tile coordinates for implicit tiling
//! - `pnts_writer`, `glb_writer`: the `.pnts` and `.glb` tile formats
//! - `tileset_writer`, `fractal_metadata`: the tileset and its metadata
//! - `json_doc`: JSON documents as plain values, read and described
//! - `algorithms`: the chaos game algorithms
#![allow(unused_imports)]

pub mod algorithms;
pub mod bbox;
pub mod buffers;
pub mod choosers;
pub mod encoding;
pub mod fractal_metadata;
pub mod glb_writer;
pub mod half_multivector;
pub mod implicit_coordinates;
pub mod json_doc;
pub mod octrees;
pub mod pnts_writer;
pub mod point;
pub mod tileset_writer;
pub mod vector;
