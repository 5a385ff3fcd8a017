//! Octant numbering of bounding boxes.
//!
//! A box is split into 8 octants, numbered from 0 to 7; it is better to
//! think about them in binary, `0bZYX`, where each bit tells on which side
//! of the center the point lies along that axis.
use vstd::prelude::*;
use crate::implicit_coordinates::{ImplicitCoordinates, child_coordinate};

verus! {

/// The octant number of a point from the sides of the center it lies on:
/// `0bZYX` where Z = 1 if the z coordinate is greater than the center's,
/// and likewise for Y and X.
pub open spec fn spec_octant(x_positive: bool, y_positive: bool, z_positive: bool) -> int {
    (if z_positive { 4int } else { 0int }) + (if y_positive { 2int } else { 0int }) + (if x_positive {
        1int
    } else {
        0int
    })
}

/// Determine which octant a point is in, given on which side of the
/// center of the box it lies along each axis.
pub fn find_octant(x_positive: bool, y_positive: bool, z_positive: bool) -> (octant: usize)
    ensures
        octant == spec_octant(x_positive, y_positive, z_positive),
        octant < 8,
        (octant % 2 == 1) == x_positive,
        ((octant / 2) % 2 == 1) == y_positive,
        (octant / 4 == 1) == z_positive,
{
    let x = if x_positive { 1usize } else { 0usize };
    let y = if y_positive { 1usize } else { 0usize };
    let z = if z_positive { 1usize } else { 0usize };
    let octant = (z << 2usize) | (y << 1usize) | x;
    assert(octant == 4 * z + 2 * y + x) by (bit_vector)
        requires
            x <= 1,
            y <= 1,
            z <= 1,
            octant == (z << 2usize) | (y << 1usize) | x,
    ;
    octant
}

/// The octants of the boxes and the children of implicit tiling agree: the
/// child tile for octant `0bZYX` has its x coordinate odd exactly when X is
/// set (the point lies on the upper side along x), and likewise for y and z.
pub proof fn lemma_octant_matches_child_tile(
    parent: ImplicitCoordinates,
    x_positive: bool,
    y_positive: bool,
    z_positive: bool,
)
    ensures
        ({
            let octant = spec_octant(x_positive, y_positive, z_positive);
            &&& (child_coordinate(parent.x, octant % 2) % 2 == 1) == x_positive
            &&& (child_coordinate(parent.y, (octant / 2) % 2) % 2 == 1) == y_positive
            &&& (child_coordinate(parent.z, (octant / 4) % 2) % 2 == 1) == z_positive
        }),
{
    let px = parent.x;
    let py = parent.y;
    let pz = parent.z;
    assert(((px * 2) as usize) % 2 == 0) by (bit_vector);
    assert(((py * 2) as usize) % 2 == 0) by (bit_vector);
    assert(((pz * 2) as usize) % 2 == 0) by (bit_vector);
}

} // verus!
