//! Coordinates of tiles for 3D Tiles implicit tiling of an octree.
use vstd::prelude::*;
use vstd::string::StringExecFns;

verus! {

/// coordinates of a tile for implicit tiling
pub struct ImplicitCoordinates {
    /// How many levels are in each subtree
    pub subtree_levels: usize,
    /// The level of this tile. The root is level 0, and levels increase
    /// by one each time.
    pub level: usize,
    /// The x coordinate of this tile
    pub x: usize,
    /// The y coordinate of this tile
    pub y: usize,
    /// The z coordinate of this tile
    pub z: usize,
}

/// The coordinate of a child along one axis: the parent's coordinate with
/// one bit appended (as a machine word, so the top bit of the parent's
/// coordinate is dropped when it is set).
pub open spec fn child_coordinate(parent: usize, bit: int) -> int {
    ((parent * 2) as usize) + bit
}

impl ImplicitCoordinates {
    /// The root is always (level, x, y, z) = (0, 0, 0, 0)
    pub fn root(subtree_levels: usize) -> (c: Self)
        ensures
            c.subtree_levels == subtree_levels,
            c.level == 0,
            c.x == 0,
            c.y == 0,
            c.z == 0,
    {
        Self { subtree_levels, level: 0, x: 0, y: 0, z: 0 }
    }

    /// Given the parent coordinates and which of the 8 children, create
    /// a new set of coordinates for that child tile: bits 0, 1 and 2 of the
    /// child index are appended to the x, y and z coordinates.
    pub fn get_child_coordinates(&self, child_index: usize) -> (c: Self)
        requires
            self.level < usize::MAX,
        ensures
            c.subtree_levels == self.subtree_levels,
            c.level == self.level + 1,
            c.x == child_coordinate(self.x, child_index as int % 2),
            c.y == child_coordinate(self.y, (child_index as int / 2) % 2),
            c.z == child_coordinate(self.z, (child_index as int / 4) % 2),
    {
        let level = self.level + 1;

        // the 3 bits of the child index are simply appended to the
        // x, y, and z coordinates.
        let x_bit = child_index & 1;
        let y_bit = (child_index >> 1) & 1;
        let z_bit = (child_index >> 2) & 1;
        let x = self.x << 1 | x_bit;
        let y = self.y << 1 | y_bit;
        let z = self.z << 1 | z_bit;
        proof {
            lemma_append_bit(self.x, child_index, 0);
            lemma_append_bit(self.y, child_index, 1);
            lemma_append_bit(self.z, child_index, 2);
        }

        Self { subtree_levels: self.subtree_levels, level, x, y, z }
    }
}

proof fn lemma_append_bit(p: usize, c: usize, k: usize)
    requires
        k < 3,
    ensures
        (p << 1usize) | ((c >> k) & 1usize) == ((p * 2) as usize) + (c >> k) % 2,
        (c >> 0usize) == c,
        (c >> 1usize) == c / 2,
        (c >> 2usize) == c / 4,
{
    assert((p << 1usize) | ((c >> k) & 1usize) == ((p * 2) as usize) + (c >> k) % 2)
        by (bit_vector);
    assert((c >> 0usize) == c) by (bit_vector);
    assert((c >> 1usize) == c / 2) by (bit_vector);
    assert((c >> 2usize) == c / 4) by (bit_vector);
}

/// Children of a tile: the parity of a child's coordinates gives back the
/// index of the child (so the 8 children of a tile have 8 different
/// coordinates), and unless the parent's coordinate already fills the
/// machine word, halving a child's coordinate gives back the parent's.
pub proof fn lemma_child_coordinates(parent: usize, child_index: int)
    requires
        0 <= child_index < 8,
    ensures
        child_coordinate(parent, child_index % 2) % 2
            + 2 * (child_coordinate(parent, (child_index / 2) % 2) % 2)
            + 4 * (child_coordinate(parent, (child_index / 4) % 2) % 2) == child_index,
        parent <= usize::MAX / 2 ==> child_coordinate(parent, child_index % 2) / 2 == parent,
        parent <= usize::MAX / 2 ==> child_coordinate(parent, (child_index / 2) % 2) / 2
            == parent,
        parent <= usize::MAX / 2 ==> child_coordinate(parent, (child_index / 4) % 2) / 2
            == parent,
{
    assert(((parent * 2) as usize) % 2 == 0) by (bit_vector);
}


/// The decimal digit `d` as a string
pub open spec fn digit_str(d: int) -> Seq<char> {
    if d == 0 {
        "0"@
    } else if d == 1 {
        "1"@
    } else if d == 2 {
        "2"@
    } else if d == 3 {
        "3"@
    } else if d == 4 {
        "4"@
    } else if d == 5 {
        "5"@
    } else if d == 6 {
        "6"@
    } else if d == 7 {
        "7"@
    } else if d == 8 {
        "8"@
    } else {
        "9"@
    }
}

/// The decimal representation of `n`, without leading zeros
pub open spec fn decimal(n: nat) -> Seq<char>
    decreases n,
{
    if n < 10 {
        digit_str(n as int)
    } else {
        decimal(n / 10) + digit_str((n % 10) as int)
    }
}

/// The number that a string of decimal digits denotes
pub open spec fn digits_value(s: Seq<char>) -> int
    decreases s.len(),
{
    if s.len() == 0 {
        0
    } else {
        10 * digits_value(s.drop_last()) + (s.last() as int - '0' as int)
    }
}

/// Whether `c` is a decimal digit
pub open spec fn is_digit(c: char) -> bool {
    '0' as int <= c as int <= '9' as int
}

/// The string of the digit `d` is the one character of its value.
proof fn lemma_digit_str(d: int)
    requires
        0 <= d < 10,
    ensures
        digit_str(d).len() == 1,
        digit_str(d)[0] as int == '0' as int + d,
{
    reveal_strlit("0");
    reveal_strlit("1");
    reveal_strlit("2");
    reveal_strlit("3");
    reveal_strlit("4");
    reveal_strlit("5");
    reveal_strlit("6");
    reveal_strlit("7");
    reveal_strlit("8");
    reveal_strlit("9");
}

/// The decimal representation of `n` is a non-empty string of digits that
/// denotes `n`, with no leading zero.
pub proof fn lemma_decimal_denotes(n: nat)
    ensures
        decimal(n).len() >= 1,
        forall|i: int| 0 <= i < decimal(n).len() ==> is_digit(#[trigger] decimal(n)[i]),
        digits_value(decimal(n)) == n,
        n > 0 ==> decimal(n)[0] != '0',
    decreases n,
{
    if n < 10 {
        lemma_digit_str(n as int);
        let s = decimal(n);
        assert(s.drop_last() =~= Seq::<char>::empty());
        assert(digits_value(s.drop_last()) == 0);
    } else {
        lemma_decimal_denotes(n / 10);
        lemma_digit_str((n % 10) as int);
        let prefix = decimal(n / 10);
        let s = decimal(n);
        assert(s == prefix + digit_str((n % 10) as int));
        assert(s.drop_last() =~= prefix);
        assert(s.last() == digit_str((n % 10) as int)[0]);
        assert(s[0] == prefix[0]);
        assert forall|i: int| 0 <= i < s.len() implies is_digit(#[trigger] s[i]) by {
            if i < prefix.len() {
                assert(s[i] == prefix[i]);
            } else {
                assert(s[i] == digit_str((n % 10) as int)[0]);
            }
        }
    }
}

fn push_digit(s: &mut String, d: usize)
    requires
        d < 10,
    ensures
        final(s)@ == old(s)@ + digit_str(d as int),
{
    if d == 0 {
        s.append("0");
    } else if d == 1 {
        s.append("1");
    } else if d == 2 {
        s.append("2");
    } else if d == 3 {
        s.append("3");
    } else if d == 4 {
        s.append("4");
    } else if d == 5 {
        s.append("5");
    } else if d == 6 {
        s.append("6");
    } else if d == 7 {
        s.append("7");
    } else if d == 8 {
        s.append("8");
    } else {
        s.append("9");
    }
}

fn push_decimal(s: &mut String, n: usize)
    ensures
        final(s)@ == old(s)@ + decimal(n as nat),
    decreases n,
{
    if n >= 10 {
        push_decimal(s, n / 10);
        push_digit(s, n % 10);
        assert(s@ =~= old(s)@ + decimal(n as nat));
    } else {
        push_digit(s, n);
    }
}

/// The directory of a tile's content under `dir`: `{dir}/{level}/{x}/{y}`
pub open spec fn spec_content_directory(dir: Seq<char>, c: ImplicitCoordinates) -> Seq<char> {
    dir + "/"@ + decimal(c.level as nat) + "/"@ + decimal(c.x as nat) + "/"@ + decimal(c.y as nat)
}

/// The content file of a tile under `dir`: `{dir}/{level}/{x}/{y}/{z}.{extension}`
pub open spec fn spec_content_path(dir: Seq<char>, c: ImplicitCoordinates, extension: Seq<char>) -> Seq<char> {
    spec_content_directory(dir, c) + "/"@ + decimal(c.z as nat) + "."@ + extension
}

impl ImplicitCoordinates {
    /// The directory of the tile's content under `dir`
    pub fn content_directory(&self, dir: &str) -> (path: String)
        ensures
            path@ == spec_content_directory(dir@, *self),
    {
        let mut path = dir.to_owned();
        path.append("/");
        push_decimal(&mut path, self.level);
        path.append("/");
        push_decimal(&mut path, self.x);
        path.append("/");
        push_decimal(&mut path, self.y);
        path
    }

    /// The content file of the tile under `dir`, named by its coordinates
    /// and with the given extension
    pub fn content_path(&self, dir: &str, extension: &str) -> (path: String)
        ensures
            path@ == spec_content_path(dir@, *self, extension@),
    {
        let mut path = self.content_directory(dir);
        path.append("/");
        push_decimal(&mut path, self.z);
        path.append(".");
        path.append(extension);
        path
    }
}

} // verus!
