//! Lookup tables for the geometric product of half multivectors in the
//! conformal geometric algebra Cl(4, 1).
//!
//! A half multivector stores either the 16 even-grade or the 16 odd-grade
//! components of a multivector over the basis vectors x, y, z, p, n, where
//! x, y, z and p square to +1 and n squares to -1.
//!
//! Even components: `[s, yzpn, xzpn, xypn, xyzn, xyzp, xy, xz, xp, xn, yz, yp, yn, zp, zn, pn]`
//!
//! Odd components: `[xyzpn, x, y, z, p, n, zpn, ypn, yzn, yzp, xpn, xzn, xzp, xyn, xyp, xyz]`
use vstd::prelude::*;

verus! {

/// Whether a half multivector holds the even-grade or the odd-grade blades.
#[derive(Debug, Clone, Copy, PartialEq, Eq, Hash, Structural)]
pub enum Parity {
    Even,
    Odd,
}

// Indices of the even blades
pub const SCALAR: usize = 0;
pub const YZPN: usize = 1;
pub const XZPN: usize = 2;
pub const XYPN: usize = 3;
pub const XYZN: usize = 4;
pub const XYZP: usize = 5;
pub const XY: usize = 6;
pub const XZ: usize = 7;
pub const XP: usize = 8;
pub const XN: usize = 9;
pub const YZ: usize = 10;
pub const YP: usize = 11;
pub const YN: usize = 12;
pub const ZP: usize = 13;
pub const ZN: usize = 14;
pub const PN: usize = 15;

// Indices of the odd blades
pub const XYZPN: usize = 0;
pub const X: usize = 1;
pub const Y: usize = 2;
pub const Z: usize = 3;
pub const P: usize = 4;
pub const N: usize = 5;
pub const ZPN: usize = 6;
pub const YPN: usize = 7;
pub const YZN: usize = 8;
pub const YZP: usize = 9;
pub const XPN: usize = 10;
pub const XZN: usize = 11;
pub const XZP: usize = 12;
pub const XYN: usize = 13;
pub const XYP: usize = 14;
pub const XYZ: usize = 15;

/// Table of the component index of each product of two basis blades.
pub type ComponentLUT = [[usize; 16]; 16];

/// Table of the sign of each product of two basis blades.
pub type SignLUT = [[i8; 16]; 16];

/// The set of basis vectors of the `i`-th even blade, as a bit mask
/// (bit 0 = x, 1 = y, 2 = z, 3 = p, 4 = n).
pub open spec fn even_mask(i: int) -> int {
    if i == 0 { 0 } else if i == 1 { 30 } else if i == 2 { 29 } else if i == 3 { 27 }
    else if i == 4 { 23 } else if i == 5 { 15 } else if i == 6 { 3 } else if i == 7 { 5 }
    else if i == 8 { 9 } else if i == 9 { 17 } else if i == 10 { 6 } else if i == 11 { 10 }
    else if i == 12 { 18 } else if i == 13 { 12 } else if i == 14 { 20 } else { 24 }
}

/// The set of basis vectors of the `i`-th odd blade, as a bit mask.
pub open spec fn odd_mask(i: int) -> int {
    if i == 0 { 31 } else if i == 1 { 1 } else if i == 2 { 2 } else if i == 3 { 4 }
    else if i == 4 { 8 } else if i == 5 { 16 } else if i == 6 { 28 } else if i == 7 { 26 }
    else if i == 8 { 22 } else if i == 9 { 14 } else if i == 10 { 25 } else if i == 11 { 21 }
    else if i == 12 { 13 } else if i == 13 { 19 } else if i == 14 { 11 } else { 7 }
}

/// The bit mask of the `i`-th blade of a half multivector of the given parity.
pub open spec fn blade_mask(parity: Parity, i: int) -> int {
    match parity {
        Parity::Even => even_mask(i),
        Parity::Odd => odd_mask(i),
    }
}

/// Bit `k` (0 to 4) of a blade mask.
pub open spec fn bit(m: int, k: int) -> int {
    if k == 0 { m % 2 } else if k == 1 { (m / 2) % 2 } else if k == 2 { (m / 4) % 2 }
    else if k == 3 { (m / 8) % 2 } else { (m / 16) % 2 }
}

/// The number of basis vectors in a blade (its grade).
pub open spec fn grade(m: int) -> int {
    bit(m, 0) + bit(m, 1) + bit(m, 2) + bit(m, 3) + bit(m, 4)
}

/// Basis vectors that occur in exactly one of the two blades: the blade of
/// their geometric product, since repeated vectors square to a scalar.
pub open spec fn xor_mask(a: int, b: int) -> int {
    (bit(a, 0) + bit(b, 0)) % 2 + 2 * ((bit(a, 1) + bit(b, 1)) % 2)
        + 4 * ((bit(a, 2) + bit(b, 2)) % 2) + 8 * ((bit(a, 3) + bit(b, 3)) % 2)
        + 16 * ((bit(a, 4) + bit(b, 4)) % 2)
}

/// Number of basis vectors of `a` that come after basis vector `k` in the
/// canonical order x, y, z, p, n.
pub open spec fn count_after(a: int, k: int) -> int {
    if k == 0 {
        bit(a, 1) + bit(a, 2) + bit(a, 3) + bit(a, 4)
    } else if k == 1 {
        bit(a, 2) + bit(a, 3) + bit(a, 4)
    } else if k == 2 {
        bit(a, 3) + bit(a, 4)
    } else if k == 3 {
        bit(a, 4)
    } else {
        0
    }
}

/// Number of transpositions needed to bring the concatenation of the
/// vectors of `a` and `b` into canonical order.
pub open spec fn swap_count(a: int, b: int) -> int {
    (if bit(b, 0) == 1 { count_after(a, 0) } else { 0 })
        + (if bit(b, 1) == 1 { count_after(a, 1) } else { 0 })
        + (if bit(b, 2) == 1 { count_after(a, 2) } else { 0 })
        + (if bit(b, 3) == 1 { count_after(a, 3) } else { 0 })
}

/// Sign of the geometric product of blades `a` and `b` in Cl(4, 1): one
/// factor -1 per transposition, and one more when both contain n, since
/// n * n = -1.
pub open spec fn product_sign(a: int, b: int) -> int {
    if (swap_count(a, b) % 2 == 0) == !(bit(a, 4) == 1 && bit(b, 4) == 1) {
        1
    } else {
        -1
    }
}

/// Parity of the product of half multivectors of the given parities.
pub open spec fn spec_product_parity(left: Parity, right: Parity) -> Parity {
    if left == right {
        Parity::Even
    } else {
        Parity::Odd
    }
}

/// Associativity of blade products, on blades given as bit masks below 32.
proof fn lemma_masks_associative(a: u8, b: u8, c: u8)
    requires
        a < 32,
        b < 32,
        c < 32,
    ensures
        xor_mask(xor_mask(a as int, b as int), c as int) == xor_mask(
            a as int,
            xor_mask(b as int, c as int),
        ),
        product_sign(a as int, b as int) * product_sign(xor_mask(a as int, b as int), c as int)
            == product_sign(b as int, c as int) * product_sign(
            a as int,
            xor_mask(b as int, c as int),
        ),
{
    assert(xor_mask(xor_mask(a as int, b as int), c as int) == xor_mask(
        a as int,
        xor_mask(b as int, c as int),
    ) && product_sign(a as int, b as int) * product_sign(xor_mask(a as int, b as int), c as int)
        == product_sign(b as int, c as int) * product_sign(a as int, xor_mask(b as int, c as int)))
        by (bit_vector)
        requires
            a < 32,
            b < 32,
            c < 32,
    ;
}

/// The product that the tables describe is associative: for blades `i`, `j`
/// and `k` of half multivectors of any parities, `(i j) k` and `i (j k)` have
/// the same parity, are the same blade (a blade's index is determined by its
/// mask) and carry the same sign. This is what lets transformations be
/// composed by multiplying their versors.
pub proof fn lemma_blade_product_associative(
    left: Parity,
    middle: Parity,
    right: Parity,
    i: int,
    j: int,
    k: int,
)
    requires
        0 <= i < 16,
        0 <= j < 16,
        0 <= k < 16,
    ensures
        ({
            let a = blade_mask(left, i);
            let b = blade_mask(middle, j);
            let c = blade_mask(right, k);
            &&& spec_product_parity(spec_product_parity(left, middle), right) == spec_product_parity(
                left,
                spec_product_parity(middle, right),
            )
            &&& xor_mask(xor_mask(a, b), c) == xor_mask(a, xor_mask(b, c))
            &&& product_sign(a, b) * product_sign(xor_mask(a, b), c) == product_sign(b, c)
                * product_sign(a, xor_mask(b, c))
        }),
        forall|p: Parity, x: int, y: int|
            0 <= x < 16 && 0 <= y < 16 && #[trigger] blade_mask(p, x) == #[trigger] blade_mask(p, y)
                ==> x == y,
{
    let a = blade_mask(left, i);
    let b = blade_mask(middle, j);
    let c = blade_mask(right, k);
    lemma_blade_mask_range(left, i);
    lemma_blade_mask_range(middle, j);
    lemma_blade_mask_range(right, k);
    lemma_masks_associative(a as u8, b as u8, c as u8);
    assert forall|p: Parity, x: int, y: int|
        0 <= x < 16 && 0 <= y < 16 && #[trigger] blade_mask(p, x) == #[trigger] blade_mask(p, y)
            implies x == y by {
        lemma_blade_index(p, x);
        lemma_blade_index(p, y);
    }
}

/// The index of the blade with the given mask among the blades of a parity
spec fn blade_index(parity: Parity, m: int) -> int {
    match parity {
        Parity::Even => {
            if m == 0 { 0 } else if m == 30 { 1 } else if m == 29 { 2 } else if m == 27 { 3 }
            else if m == 23 { 4 } else if m == 15 { 5 } else if m == 3 { 6 } else if m == 5 { 7 }
            else if m == 9 { 8 } else if m == 17 { 9 } else if m == 6 { 10 } else if m == 10 { 11 }
            else if m == 18 { 12 } else if m == 12 { 13 } else if m == 20 { 14 } else { 15 }
        },
        Parity::Odd => {
            if m == 31 { 0 } else if m == 1 { 1 } else if m == 2 { 2 } else if m == 4 { 3 }
            else if m == 8 { 4 } else if m == 16 { 5 } else if m == 28 { 6 } else if m == 26 { 7 }
            else if m == 22 { 8 } else if m == 14 { 9 } else if m == 25 { 10 } else if m == 21 { 11 }
            else if m == 13 { 12 } else if m == 19 { 13 } else if m == 11 { 14 } else { 15 }
        },
    }
}

proof fn lemma_blade_index(parity: Parity, i: int)
    requires
        0 <= i < 16,
    ensures
        blade_index(parity, blade_mask(parity, i)) == i,
{
}

proof fn lemma_blade_mask_range(parity: Parity, i: int)
    ensures
        0 <= blade_mask(parity, i) < 32,
{
}

/// The product of two even or two odd half multivectors is even, otherwise
/// it is odd.
pub fn get_product_parity(left: &Parity, right: &Parity) -> (parity: Parity)
    ensures
        parity == spec_product_parity(*left, *right),
{
    if *left == *right {
        Parity::Even
    } else {
        Parity::Odd
    }
}

#[verifier::rlimit(30)]
fn components_even_even() -> (t: ComponentLUT)
    ensures
        forall|i: int, j: int|
            0 <= i < 16 && 0 <= j < 16 ==> {
                &&& #[trigger] t@[i]@[j] < 16
                &&& even_mask(t@[i]@[j] as int) == xor_mask(even_mask(i), even_mask(j))
            },
{
    [
            [SCALAR, YZPN, XZPN, XYPN, XYZN, XYZP, XY, XZ, XP, XN, YZ, YP, YN, ZP, ZN, PN],
            [YZPN, SCALAR, XY, XZ, XP, XN, XZPN, XYPN, XYZN, XYZP, PN, ZN, ZP, YN, YP, YZ],
            [XZPN, XY, SCALAR, YZ, YP, YN, YZPN, PN, ZN, ZP, XYPN, XYZN, XYZP, XN, XP, XZ],
            [XYPN, XZ, YZ, SCALAR, ZP, ZN, PN, YZPN, YN, YP, XZPN, XN, XP, XYZN, XYZP, XY],
            [XYZN, XP, YP, ZP, SCALAR, PN, ZN, YN, YZPN, YZ, XN, XZPN, XZ, XYPN, XY, XYZP],
            [XYZP, XN, YN, ZN, PN, SCALAR, ZP, YP, YZ, YZPN, XP, XZ, XZPN, XY, XYPN, XYZN],
            [XY, XZPN, YZPN, PN, ZN, ZP, SCALAR, YZ, YP, YN, XZ, XP, XN, XYZP, XYZN, XYPN],
            [XZ, XYPN, PN, YZPN, YN, YP, YZ, SCALAR, ZP, ZN, XY, XYZP, XYZN, XP, XN, XZPN],
            [XP, XYZN, ZN, YN, YZPN, YZ, YP, ZP, SCALAR, PN, XYZP, XY, XYPN, XZ, XZPN, XN],
            [XN, XYZP, ZP, YP, YZ, YZPN, YN, ZN, PN, SCALAR, XYZN, XYPN, XY, XZPN, XZ, XP],
            [YZ, PN, XYPN, XZPN, XN, XP, XZ, XY, XYZP, XYZN, SCALAR, ZP, ZN, YP, YN, YZPN],
            [YP, ZN, XYZN, XN, XZPN, XZ, XP, XYZP, XY, XYPN, ZP, SCALAR, PN, YZ, YZPN, YN],
            [YN, ZP, XYZP, XP, XZ, XZPN, XN, XYZN, XYPN, XY, ZN, PN, SCALAR, YZPN, YZ, YP],
            [ZP, YN, XN, XYZN, XYPN, XY, XYZP, XP, XZ, XZPN, YP, YZ, YZPN, SCALAR, PN, ZN],
            [ZN, YP, XP, XYZP, XY, XYPN, XYZN, XN, XZPN, XZ, YN, YZPN, YZ, PN, SCALAR, ZP],
            [PN, YZ, XZ, XY, XYZP, XYZN, XYPN, XZPN, XN, XP, YZPN, YN, YP, ZN, ZP, SCALAR],
        ]
}

#[verifier::rlimit(30)]
fn components_even_odd() -> (t: ComponentLUT)
    ensures
        forall|i: int, j: int|
            0 <= i < 16 && 0 <= j < 16 ==> {
                &&& #[trigger] t@[i]@[j] < 16
                &&& odd_mask(t@[i]@[j] as int) == xor_mask(even_mask(i), odd_mask(j))
            },
        forall|i: int, j: int|
            0 <= i < 16 && 0 <= j < 16 ==>
                odd_mask(#[trigger] t@[i]@[j] as int) == xor_mask(odd_mask(i), even_mask(j)),
{
    [
            [XYZPN, X, Y, Z, P, N, ZPN, YPN, YZN, YZP, XPN, XZN, XZP, XYN, XYP, XYZ],
            [X, XYZPN, ZPN, YPN, YZN, YZP, Y, Z, P, N, XYZ, XYP, XYN, XZP, XZN, XPN],
            [Y, ZPN, XYZPN, XPN, XZN, XZP, X, XYZ, XYP, XYN, Z, P, N, YZP, YZN, YPN],
            [Z, YPN, XPN, XYZPN, XYN, XYP, XYZ, X, XZP, XZN, Y, YZP, YZN, P, N, ZPN],
            [P, YZN, XZN, XYN, XYZPN, XYZ, XYP, XZP, X, XPN, YZP, Y, YPN, Z, ZPN, N],
            [N, YZP, XZP, XYP, XYZ, XYZPN, XYN, XZN, XPN, X, YZN, YPN, Y, ZPN, Z, P],
            [ZPN, Y, X, XYZ, XYP, XYN, XYZPN, XPN, XZN, XZP, YPN, YZN, YZP, N, P, Z],
            [YPN, Z, XYZ, X, XZP, XZN, XPN, XYZPN, XYN, XYP, ZPN, N, P, YZN, YZP, Y],
            [YZN, P, XYP, XZP, X, XPN, XZN, XYN, XYZPN, XYZ, N, ZPN, Z, YPN, Y, YZP],
            [YZP, N, XYN, XZN, XPN, X, XZP, XYP, XYZ, XYZPN, P, Z, ZPN, Y, YPN, YZN],
            [XPN, XYZ, Z, Y, YZP, YZN, YPN, ZPN, N, P, XYZPN, XYN, XYP, XZN, XZP, X],
            [XZN, XYP, P, YZP, Y, YPN, YZN, N, ZPN, Z, XYN, XYZPN, XYZ, XPN, X, XZP],
            [XZP, XYN, N, YZN, YPN, Y, YZP, P, Z, ZPN, XYP, XYZ, XYZPN, X, XPN, XZN],
            [XYN, XZP, YZP, P, Z, ZPN, N, YZN, YPN, Y, XZN, XPN, X, XYZPN, XYZ, XYP],
            [XYP, XZN, YZN, N, ZPN, Z, P, YZP, Y, YPN, XZP, X, XPN, XYZ, XYZPN, XYN],
            [XYZ, XPN, YPN, ZPN, N, P, Z, Y, YZP, YZN, X, XZP, XZN, XYP, XYN, XYZPN],
        ]
}

/// Each odd blade is the complement (the dual) of the even blade with the
/// same index.
proof fn lemma_odd_mask_complements_even_mask(i: int)
    requires
        0 <= i < 16,
    ensures
        odd_mask(i) == 31 - even_mask(i),
        0 <= even_mask(i) < 32,
{
}

/// The bits of the complement of a blade are the negated bits of the blade.
proof fn lemma_bits_of_complement(a: int)
    requires
        0 <= a < 32,
    ensures
        bit(31 - a, 0) == 1 - bit(a, 0),
        bit(31 - a, 1) == 1 - bit(a, 1),
        bit(31 - a, 2) == 1 - bit(a, 2),
        bit(31 - a, 3) == 1 - bit(a, 3),
        bit(31 - a, 4) == 1 - bit(a, 4),
{
    assert(a == 0 || a == 1 || a == 2 || a == 3 || a == 4 || a == 5 || a == 6 || a == 7 || a == 8 || a == 9 || a == 10 || a == 11 || a == 12 || a == 13 || a == 14 || a == 15 || a == 16 || a == 17 || a == 18 || a == 19 || a == 20 || a == 21 || a == 22 || a == 23 || a == 24 || a == 25 || a == 26 || a == 27 || a == 28 || a == 29 || a == 30 || a == 31);
}

/// Complementing both factors leaves the blade of the product unchanged.
proof fn lemma_xor_of_complements(a: int, b: int)
    requires
        0 <= a < 32,
        0 <= b < 32,
    ensures
        xor_mask(31 - a, 31 - b) == xor_mask(a, b),
{
    lemma_bits_of_complement(a);
    lemma_bits_of_complement(b);
}

/// The table of component indices for the product of a half multivector of
/// parity `left` with one of parity `right`: the blade `i` of the left
/// factor times the blade `j` of the right factor is, up to sign, the blade
/// at index `t[i][j]` of the product.
pub fn get_component_table(left: &Parity, right: &Parity) -> (t: ComponentLUT)
    ensures
        forall|i: int, j: int|
            0 <= i < 16 && 0 <= j < 16 ==> {
                &&& #[trigger] t@[i]@[j] < 16
                &&& blade_mask(spec_product_parity(*left, *right), t@[i]@[j] as int)
                    == xor_mask(blade_mask(*left, i), blade_mask(*right, j))
            },
{
    match (left, right) {
        (Parity::Even, Parity::Even) => components_even_even(),
        (Parity::Even, Parity::Odd) => components_even_odd(),
        (Parity::Odd, Parity::Even) => components_even_odd(),
        (Parity::Odd, Parity::Odd) => {
            let t = components_even_even();
            assert forall|i: int, j: int| 0 <= i < 16 && 0 <= j < 16 implies even_mask(
                #[trigger] t@[i]@[j] as int,
            ) == xor_mask(odd_mask(i), odd_mask(j)) by {
                lemma_odd_mask_complements_even_mask(i);
                lemma_odd_mask_complements_even_mask(j);
                lemma_xor_of_complements(even_mask(i), even_mask(j));
            }
            t
        },
    }
}

#[verifier::rlimit(30)]
fn signs_even_even() -> (t: SignLUT)
    ensures
        forall|i: int, j: int|
            0 <= i < 16 && 0 <= j < 16 ==>
                #[trigger] t@[i]@[j] == product_sign(even_mask(i), even_mask(j)),
{
    [
            [1, 1, 1, 1, 1, 1, 1, 1, 1, 1, 1, 1, 1, 1, 1, 1],
            [1, -1, 1, -1, 1, 1, -1, 1, -1, -1, -1, 1, 1, -1, -1, 1],
            [1, -1, -1, 1, -1, -1, 1, -1, 1, 1, -1, 1, 1, -1, -1, 1],
            [1, 1, -1, -1, 1, 1, -1, -1, 1, 1, 1, -1, -1, -1, -1, 1],
            [1, -1, 1, -1, -1, -1, -1, 1, 1, 1, -1, -1, -1, 1, 1, 1],
            [1, -1, 1, -1, 1, 1, -1, 1, -1, -1, -1, 1, 1, -1, -1, 1],
            [1, 1, -1, -1, -1, -1, -1, -1, -1, -1, 1, 1, 1, 1, 1, 1],
            [1, -1, -1, 1, 1, 1, 1, -1, -1, -1, -1, -1, -1, 1, 1, 1],
            [1, 1, 1, 1, -1, -1, 1, 1, -1, -1, 1, -1, -1, -1, -1, 1],
            [1, 1, 1, 1, 1, 1, 1, 1, 1, 1, 1, 1, 1, 1, 1, 1],
            [1, -1, 1, -1, -1, -1, -1, 1, 1, 1, -1, -1, -1, 1, 1, 1],
            [1, 1, -1, -1, 1, 1, -1, -1, 1, 1, 1, -1, -1, -1, -1, 1],
            [1, 1, -1, -1, -1, -1, -1, -1, -1, -1, 1, 1, 1, 1, 1, 1],
            [1, -1, -1, 1, -1, -1, 1, -1, 1, 1, -1, 1, 1, -1, -1, 1],
            [1, -1, -1, 1, 1, 1, 1, -1, -1, -1, -1, -1, -1, 1, 1, 1],
            [1, 1, 1, 1, -1, -1, 1, 1, -1, -1, 1, -1, -1, -1, -1, 1],
        ]
}

#[verifier::rlimit(30)]
fn signs_even_odd() -> (t: SignLUT)
    ensures
        forall|i: int, j: int|
            0 <= i < 16 && 0 <= j < 16 ==>
                #[trigger] t@[i]@[j] == product_sign(even_mask(i), odd_mask(j)),
{
    [
            [1, 1, 1, 1, 1, 1, 1, 1, 1, 1, 1, 1, 1, 1, 1, 1],
            [-1, 1, -1, 1, -1, -1, 1, -1, 1, 1, 1, -1, -1, 1, 1, -1],
            [1, -1, -1, 1, -1, -1, 1, -1, 1, 1, -1, 1, 1, -1, -1, 1],
            [-1, -1, 1, 1, -1, -1, 1, 1, -1, -1, -1, 1, 1, 1, 1, -1],
            [1, -1, 1, -1, -1, -1, -1, 1, 1, 1, -1, -1, -1, 1, 1, 1],
            [1, -1, 1, -1, 1, 1, -1, 1, -1, -1, -1, 1, 1, -1, -1, 1],
            [-1, -1, 1, 1, 1, 1, 1, 1, 1, 1, -1, -1, -1, -1, -1, -1],
            [1, -1, -1, 1, 1, 1, 1, -1, -1, -1, -1, -1, -1, 1, 1, 1],
            [-1, -1, -1, -1, 1, 1, -1, -1, 1, 1, -1, 1, 1, 1, 1, -1],
            [-1, -1, -1, -1, -1, -1, -1, -1, -1, -1, -1, -1, -1, -1, -1, -1],
            [-1, 1, -1, 1, 1, 1, 1, -1, -1, -1, 1, 1, 1, -1, -1, -1],
            [1, 1, -1, -1, 1, 1, -1, -1, 1, 1, 1, -1, -1, -1, -1, 1],
            [1, 1, -1, -1, -1, -1, -1, -1, -1, -1, 1, 1, 1, 1, 1, 1],
            [-1, 1, 1, -1, 1, 1, -1, 1, -1, -1, 1, -1, -1, 1, 1, -1],
            [-1, 1, 1, -1, -1, -1, -1, 1, 1, 1, 1, 1, 1, -1, -1, -1],
            [1, 1, 1, 1, -1, -1, 1, 1, -1, -1, 1, -1, -1, -1, -1, 1],
        ]
}

#[verifier::rlimit(30)]
fn signs_odd_even() -> (t: SignLUT)
    ensures
        forall|i: int, j: int|
            0 <= i < 16 && 0 <= j < 16 ==>
                #[trigger] t@[i]@[j] == product_sign(odd_mask(i), even_mask(j)),
{
    [
            [1, -1, 1, -1, 1, 1, -1, 1, -1, -1, -1, 1, 1, -1, -1, 1],
            [1, 1, 1, 1, 1, 1, 1, 1, 1, 1, 1, 1, 1, 1, 1, 1],
            [1, 1, -1, -1, -1, -1, -1, -1, -1, -1, 1, 1, 1, 1, 1, 1],
            [1, -1, -1, 1, 1, 1, 1, -1, -1, -1, -1, -1, -1, 1, 1, 1],
            [1, 1, 1, 1, -1, -1, 1, 1, -1, -1, 1, -1, -1, -1, -1, 1],
            [1, 1, 1, 1, 1, 1, 1, 1, 1, 1, 1, 1, 1, 1, 1, 1],
            [1, -1, -1, 1, -1, -1, 1, -1, 1, 1, -1, 1, 1, -1, -1, 1],
            [1, 1, -1, -1, 1, 1, -1, -1, 1, 1, 1, -1, -1, -1, -1, 1],
            [1, -1, 1, -1, -1, -1, -1, 1, 1, 1, -1, -1, -1, 1, 1, 1],
            [1, -1, 1, -1, 1, 1, -1, 1, -1, -1, -1, 1, 1, -1, -1, 1],
            [1, 1, 1, 1, -1, -1, 1, 1, -1, -1, 1, -1, -1, -1, -1, 1],
            [1, -1, -1, 1, 1, 1, 1, -1, -1, -1, -1, -1, -1, 1, 1, 1],
            [1, -1, -1, 1, -1, -1, 1, -1, 1, 1, -1, 1, 1, -1, -1, 1],
            [1, 1, -1, -1, -1, -1, -1, -1, -1, -1, 1, 1, 1, 1, 1, 1],
            [1, 1, -1, -1, 1, 1, -1, -1, 1, 1, 1, -1, -1, -1, -1, 1],
            [1, -1, 1, -1, -1, -1, -1, 1, 1, 1, -1, -1, -1, 1, 1, 1],
        ]
}

#[verifier::rlimit(30)]
fn signs_odd_odd() -> (t: SignLUT)
    ensures
        forall|i: int, j: int|
            0 <= i < 16 && 0 <= j < 16 ==>
                #[trigger] t@[i]@[j] == product_sign(odd_mask(i), odd_mask(j)),
{
    [
            [-1, 1, -1, 1, -1, -1, 1, -1, 1, 1, 1, -1, -1, 1, 1, -1],
            [1, 1, 1, 1, 1, 1, 1, 1, 1, 1, 1, 1, 1, 1, 1, 1],
            [-1, -1, 1, 1, 1, 1, 1, 1, 1, 1, -1, -1, -1, -1, -1, -1],
            [1, -1, -1, 1, 1, 1, 1, -1, -1, -1, -1, -1, -1, 1, 1, 1],
            [-1, -1, -1, -1, 1, 1, -1, -1, 1, 1, -1, 1, 1, 1, 1, -1],
            [-1, -1, -1, -1, -1, -1, -1, -1, -1, -1, -1, -1, -1, -1, -1, -1],
            [1, -1, -1, 1, -1, -1, 1, -1, 1, 1, -1, 1, 1, -1, -1, 1],
            [-1, -1, 1, 1, -1, -1, 1, 1, -1, -1, -1, 1, 1, 1, 1, -1],
            [1, -1, 1, -1, -1, -1, -1, 1, 1, 1, -1, -1, -1, 1, 1, 1],
            [1, -1, 1, -1, 1, 1, -1, 1, -1, -1, -1, 1, 1, -1, -1, 1],
            [1, 1, 1, 1, -1, -1, 1, 1, -1, -1, 1, -1, -1, -1, -1, 1],
            [-1, 1, 1, -1, -1, -1, -1, 1, 1, 1, 1, 1, 1, -1, -1, -1],
            [-1, 1, 1, -1, 1, 1, -1, 1, -1, -1, 1, -1, -1, 1, 1, -1],
            [1, 1, -1, -1, -1, -1, -1, -1, -1, -1, 1, 1, 1, 1, 1, 1],
            [1, 1, -1, -1, 1, 1, -1, -1, 1, 1, 1, -1, -1, -1, -1, 1],
            [-1, 1, -1, 1, 1, 1, 1, -1, -1, -1, 1, 1, 1, -1, -1, -1],
        ]
}

/// The table of signs for the product of a half multivector of parity
/// `left` with one of parity `right`: blade `i` of the left factor times
/// blade `j` of the right factor is `t[i][j]` times a basis blade.
pub fn get_sign_table(left: &Parity, right: &Parity) -> (t: SignLUT)
    ensures
        forall|i: int, j: int|
            0 <= i < 16 && 0 <= j < 16 ==>
                #[trigger] t@[i]@[j] == product_sign(blade_mask(*left, i), blade_mask(*right, j)),
{
    match (left, right) {
        (Parity::Even, Parity::Even) => signs_even_even(),
        (Parity::Even, Parity::Odd) => signs_even_odd(),
        (Parity::Odd, Parity::Even) => signs_odd_even(),
        (Parity::Odd, Parity::Odd) => signs_odd_odd(),
    }
}

} // verus!
