//! Three-component vectors, and the byte packing used by the writers.
//!
//! Positions are stored by the library as the IEEE-754 bit patterns of their
//! single-precision components (`Vec3Bits`), which is exactly what the file
//! formats store. Colors are RGB bytes (`Color`).
use vstd::prelude::*;
use crate::encoding::le_u32;

verus! {

/// A 3-component vector of any type
#[derive(Copy, Clone)]
pub struct Vector3<T> {
    components: [T; 3],
}

/// A vector whose components are the bit patterns of single-precision floats.
pub type Vec3Bits = Vector3<u32>;

/// Color values in the range [0, 255], which fit in a u8
pub type Color = Vector3<u8>;

impl<T> View for Vector3<T> {
    type V = (T, T, T);

    closed spec fn view(&self) -> (T, T, T) {
        (self.components@[0], self.components@[1], self.components@[2])
    }
}

impl<T> Vector3<T> {
    pub fn new(x: T, y: T, z: T) -> (v: Vector3<T>)
        ensures
            v@ == (x, y, z),
    {
        Vector3 { components: [x, y, z] }
    }

    /// x-component
    pub fn x(&self) -> (r: &T)
        ensures
            *r == self@.0,
    {
        &self.components[0]
    }

    /// y-component
    pub fn y(&self) -> (r: &T)
        ensures
            *r == self@.1,
    {
        &self.components[1]
    }

    /// z-component
    pub fn z(&self) -> (r: &T)
        ensures
            *r == self@.2,
    {
        &self.components[2]
    }
}

/// The 12 bytes of a packed vector: x, y and z, each as 4 little-endian bytes.
pub open spec fn packed_vec3(v: (u32, u32, u32)) -> Seq<u8> {
    le_u32(v.0) + le_u32(v.1) + le_u32(v.2)
}

/// The 3 bytes of a packed color: r, g, b.
pub open spec fn packed_color(c: (u8, u8, u8)) -> Seq<u8> {
    seq![c.0, c.1, c.2]
}

impl Vector3<u32> {
    /// Pack the vector into an array of bytes in little-endian format
    /// ```text
    /// bytes  0-3: x
    ///        4-7: y
    ///       8-11: z
    /// ```
    pub fn pack(&self) -> (bytes: [u8; 12])
        ensures
            bytes@ == packed_vec3(self@),
    {
        let x = self.components[0];
        let y = self.components[1];
        let z = self.components[2];
        let bytes = [
            (x % 0x100) as u8,
            ((x / 0x100) % 0x100) as u8,
            ((x / 0x10000) % 0x100) as u8,
            ((x / 0x1000000) % 0x100) as u8,
            (y % 0x100) as u8,
            ((y / 0x100) % 0x100) as u8,
            ((y / 0x10000) % 0x100) as u8,
            ((y / 0x1000000) % 0x100) as u8,
            (z % 0x100) as u8,
            ((z / 0x100) % 0x100) as u8,
            ((z / 0x10000) % 0x100) as u8,
            ((z / 0x1000000) % 0x100) as u8,
        ];
        assert(bytes@ =~= packed_vec3(self@));
        bytes
    }
}

impl Vector3<u8> {
    /// Since colors are already u8s, we can pack them as `[x, y, z]` in
    /// 3 bytes
    pub fn pack(&self) -> (bytes: [u8; 3])
        ensures
            bytes@ == packed_color(self@),
    {
        let bytes = self.components;
        assert(bytes@ =~= packed_color(self@));
        bytes
    }
}

} // verus!
