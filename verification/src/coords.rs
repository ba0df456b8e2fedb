//! Integer grid coordinates and the conversion between world cells and
//! chunk-local cells.

use vstd::prelude::*;

verus! {

/// Side length of a chunk, in voxels.
pub const CHUNK_SIZE: usize = 32;

/// Number of voxels in a chunk.
pub const CHUNK_VOLUME: usize = CHUNK_SIZE * CHUNK_SIZE * CHUNK_SIZE;

/// An integer 3-vector: a chunk coordinate, a world voxel coordinate, a
/// chunk-local voxel coordinate, a unit normal or a mesh vertex position.
#[derive(Copy, Clone, Debug, PartialEq, Eq, Structural)]
pub struct Int3 {
    pub x: i32,
    pub y: i32,
    pub z: i32,
}

impl Int3 {
    /// The vector with the given components.
    pub fn new(x: i32, y: i32, z: i32) -> (v: Int3)
        ensures
            v.x == x,
            v.y == y,
            v.z == z,
    {
        Int3 { x, y, z }
    }

    /// The component-wise sum, where it is representable.
    pub open spec fn spec_checked_add(self, other: Int3) -> Option<Int3> {
        if i32::MIN <= self.x + other.x <= i32::MAX && i32::MIN <= self.y + other.y <= i32::MAX && i32::MIN
            <= self.z + other.z <= i32::MAX {
            Some(Int3 { x: (self.x + other.x) as i32, y: (self.y + other.y) as i32, z: (self.z + other.z) as i32 })
        } else {
            None
        }
    }

    /// The component-wise sum, or `None` where a component would overflow.
    pub fn checked_add(self, other: Int3) -> (sum: Option<Int3>)
        ensures
            sum == self.spec_checked_add(other),
    {
        match (self.x.checked_add(other.x), self.y.checked_add(other.y), self.z.checked_add(other.z)) {
            (Some(x), Some(y), Some(z)) => Some(Int3 { x, y, z }),
            _ => None,
        }
    }

    /// Whether every component lies in `[0, CHUNK_SIZE)`, so that the
    /// vector names a cell of a chunk.
    pub open spec fn in_chunk(self) -> bool {
        &&& 0 <= self.x < CHUNK_SIZE
        &&& 0 <= self.y < CHUNK_SIZE
        &&& 0 <= self.z < CHUNK_SIZE
    }

    /// Whether the vector is one of the six axis-aligned unit vectors.
    pub open spec fn is_unit_normal(self) -> bool {
        ||| (self.x == 1 || self.x == -1) && self.y == 0 && self.z == 0
        ||| self.x == 0 && (self.y == 1 || self.y == -1) && self.z == 0
        ||| self.x == 0 && self.y == 0 && (self.z == 1 || self.z == -1)
    }
}

/// The chunk that holds world cell `world`: floor division by the chunk
/// size, component by component.
pub open spec fn chunk_of(world: Int3) -> Int3 {
    Int3 {
        x: (world.x as int / CHUNK_SIZE as int) as i32,
        y: (world.y as int / CHUNK_SIZE as int) as i32,
        z: (world.z as int / CHUNK_SIZE as int) as i32,
    }
}

/// The position of world cell `world` inside its chunk: the non-negative
/// remainder modulo the chunk size.
pub open spec fn local_of(world: Int3) -> Int3 {
    Int3 {
        x: (world.x as int % CHUNK_SIZE as int) as i32,
        y: (world.y as int % CHUNK_SIZE as int) as i32,
        z: (world.z as int % CHUNK_SIZE as int) as i32,
    }
}

/// Whether cell `local` of chunk `chunk` has a representable world coordinate.
pub open spec fn world_cell_fits(chunk: Int3, local: Int3) -> bool {
    &&& i32::MIN <= chunk.x * CHUNK_SIZE + local.x <= i32::MAX
    &&& i32::MIN <= chunk.y * CHUNK_SIZE + local.y <= i32::MAX
    &&& i32::MIN <= chunk.z * CHUNK_SIZE + local.z <= i32::MAX
}

/// The world cell that is cell `local` of chunk `chunk`.
pub open spec fn world_of(chunk: Int3, local: Int3) -> Int3 {
    Int3 {
        x: (chunk.x * CHUNK_SIZE + local.x) as i32,
        y: (chunk.y * CHUNK_SIZE + local.y) as i32,
        z: (chunk.z * CHUNK_SIZE + local.z) as i32,
    }
}

/// Euclidean quotient: the result is rounded so that the remainder is
/// never negative.
pub fn div_euclid(a: i32, b: i32) -> (q: i32)
    requires
        b != 0,
        !(a == i32::MIN && b == -1),
    ensures
        q == a as int / b as int,
{
    proof {
        lemma_euclid_quotient_fits(a as int, b as int);
    }
    match a.checked_div_euclid(b) {
        Some(q) => q,
        None => 0,
    }
}

/// Euclidean remainder: always in `[0, |b|)`.
pub fn rem_euclid(a: i32, b: i32) -> (r: i32)
    requires
        b != 0,
        !(a == i32::MIN && b == -1),
    ensures
        r == a as int % b as int,
        0 <= r,
{
    proof {
        lemma_euclid_remainder_fits(a as int, b as int);
    }
    match a.checked_rem_euclid(b) {
        Some(r) => r,
        None => 0,
    }
}

/// Converts a world voxel coordinate to the coordinate of its chunk and
/// its position inside that chunk.
pub fn world_to_chunk_local(world: Int3) -> (r: (Int3, Int3))
    ensures
        r.0 == chunk_of(world),
        r.1 == local_of(world),
        r.1.in_chunk(),
        world_cell_fits(r.0, r.1),
        world_of(r.0, r.1) == world,
{
    let cs: i32 = 32;
    let chunk = Int3::new(div_euclid(world.x, cs), div_euclid(world.y, cs), div_euclid(world.z, cs));
    let local = Int3::new(rem_euclid(world.x, cs), rem_euclid(world.y, cs), rem_euclid(world.z, cs));
    (chunk, local)
}

/// A Euclidean quotient of two `i32` values is an `i32`, but for
/// `i32::MIN / -1`.
pub proof fn lemma_euclid_quotient_fits(a: int, b: int)
    requires
        i32::MIN <= a <= i32::MAX,
        i32::MIN <= b <= i32::MAX,
        b != 0,
        !(a == i32::MIN && b == -1),
    ensures
        i32::MIN <= a / b <= i32::MAX,
{
    vstd::arithmetic::div_mod::lemma_fundamental_div_mod(a, b);
    if b > 0 {
        vstd::arithmetic::div_mod::lemma_mod_bound(a, b);
        assert(i32::MIN <= a / b <= i32::MAX) by (nonlinear_arith)
            requires
                a == b * (a / b) + a % b,
                0 <= a % b < b,
                b > 0,
                i32::MIN <= a <= i32::MAX,
        ;
    } else {
        assert(0 <= a % b < -b) by {
            lemma_negative_divisor_remainder(a, b);
        }
        assert(i32::MIN <= a / b <= i32::MAX) by (nonlinear_arith)
            requires
                a == b * (a / b) + a % b,
                0 <= a % b < -b,
                b < 0,
                i32::MIN <= b,
                i32::MIN <= a <= i32::MAX,
                !(a == i32::MIN && b == -1),
        ;
    }
}

/// A Euclidean remainder of two `i32` values is a non-negative `i32`.
pub proof fn lemma_euclid_remainder_fits(a: int, b: int)
    requires
        i32::MIN <= a <= i32::MAX,
        i32::MIN <= b <= i32::MAX,
        b != 0,
    ensures
        0 <= a % b <= i32::MAX,
{
    if b > 0 {
        vstd::arithmetic::div_mod::lemma_mod_bound(a, b);
    } else {
        lemma_negative_divisor_remainder(a, b);
    }
}

/// With a negative divisor the remainder still lies in `[0, |b|)`.
proof fn lemma_negative_divisor_remainder(a: int, b: int)
    requires
        b < 0,
    ensures
        0 <= a % b < -b,
{
    assert(0 <= a % b < -b) by (nonlinear_arith)
        requires
            b < 0,
    ;
}

} // verus!
