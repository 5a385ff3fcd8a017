//! A single point of the fractal point cloud with its metadata.
use vstd::prelude::*;

verus! {

/// A single point in the fractal point cloud. It has a position, color,
/// and other metadata for styling the fractal
#[derive(Clone)]
pub struct Point<T> {
    /// The position of the point in 3D space
    pub position: T,
    /// The color of the point in RGB space
    pub color: T,
    /// The feature ID is which initial set the point came from
    pub feature_id: u16,
    /// The iteration number when this point was plotted
    pub iteration: u64,
    /// The ID of the point within the initial set
    pub point_id: u16,
    /// The index of the last transformation that was applied
    pub last_xform: u8,
    /// The index of the last color transformation that was applied
    pub last_color_xform: u8,
}

} // verus!
