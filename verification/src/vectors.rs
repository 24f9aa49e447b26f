use vstd::prelude::*;
use vstd::arithmetic::power::{pow, lemma_pow1, lemma_pow_adds, lemma_pow_strictly_increases};

verus! {

/// A position in voxel space, one coordinate per axis.
#[derive(Clone, Copy, PartialEq, Eq, Structural, Debug)]
pub struct Vector3U64 {
    pub x: u64,
    pub y: u64,
    pub z: u64,
}

/// A position of a particle within the bounds of its voxel.
#[derive(Clone, Copy, PartialEq, Eq, Structural, Debug)]
pub struct Vector3U16 {
    pub x: u16,
    pub y: u16,
    pub z: u16,
}

/// A global voxel position together with the level of detail it addresses.
#[derive(Clone, Copy, PartialEq, Eq, Structural, Debug)]
pub struct VoxelLocation {
    pub lod: u64,
    pub vec: Vector3U64,
}

/// The cell number that `linearize` raises to a power: the row-major rank of
/// the location within a `size_x * size_y * size_z` grid, scaled by the grid
/// volume, plus two. The `+ 2` keeps the base at least two, so distinct
/// levels of detail of the same cell get distinct ordinals.
pub open spec fn linear_base(loc: VoxelLocation, size_x: u64, size_y: u64, size_z: u64) -> int {
    (loc.vec.x * size_y * size_z + loc.vec.y * size_z + loc.vec.z) * (size_x * size_y * size_z) + 2
}

/// The ordinal of a voxel location: the cell base raised to the number of
/// levels between the location's level of detail and the deepest level.
pub open spec fn linearized(
    loc: VoxelLocation,
    size_x: u64,
    size_y: u64,
    size_z: u64,
    level_depth: u64,
) -> int {
    pow(linear_base(loc, size_x, size_y, size_z), (level_depth - loc.lod) as nat)
}

impl VoxelLocation {
    /// Flattens this location into a single ordinal used as a sort key for
    /// stored levels.
    pub fn linearize(&self, size_x: u64, size_y: u64, size_z: u64, level_depth: u64) -> (r: u64)
        requires
            self.lod <= level_depth,
            level_depth - self.lod <= u32::MAX,
            self.vec.x * size_y <= u64::MAX,
            self.vec.x * size_y * size_z + self.vec.y * size_z + self.vec.z <= u64::MAX,
            size_x * size_y <= u64::MAX,
            size_x * size_y * size_z <= u64::MAX,
            linear_base(*self, size_x, size_y, size_z) <= u64::MAX,
            linearized(*self, size_x, size_y, size_z, level_depth) <= u64::MAX,
        ensures
            r == linearized(*self, size_x, size_y, size_z, level_depth),
    {
        let ghost base_int = linear_base(*self, size_x, size_y, size_z);
        let volume: u64 = size_x * size_y * size_z;
        let rank: u64 = self.vec.x * size_y * size_z + self.vec.y * size_z + self.vec.z;
        let base: u64 = rank * volume + 2;
        let exponent: u32 = (level_depth - self.lod) as u32;
        let ghost e = (level_depth - self.lod) as nat;
        let mut acc: u64 = 1;
        let mut i: u32 = 0;
        proof {
            vstd::arithmetic::power::lemma_pow0(base as int);
        }
        while i < exponent
            invariant
                i <= exponent,
                base == base_int,
                base >= 2,
                e == exponent,
                acc == pow(base as int, i as nat),
                pow(base as int, e) <= u64::MAX,
            decreases exponent - i,
        {
            proof {
                lemma_pow_step(base, i as nat);
                if ((i + 1) as nat) < e {
                    lemma_pow_strictly_increases(base as nat, (i + 1) as nat, e);
                }
            }
            acc = acc * base;
            i = i + 1;
        }
        acc
    }
}

/// With every axis at least one voxel wide, the intermediate products of the
/// linearization fit in a machine word whenever the base itself does.
pub(crate) proof fn lemma_linear_base_parts_fit(
    loc: VoxelLocation,
    size_x: u64,
    size_y: u64,
    size_z: u64,
)
    requires
        size_x >= 1,
        size_y >= 1,
        size_z >= 1,
        size_x * size_y * size_z <= u64::MAX,
        linear_base(loc, size_x, size_y, size_z) <= u64::MAX,
    ensures
        loc.vec.x * size_y <= u64::MAX,
        loc.vec.x * size_y * size_z + loc.vec.y * size_z + loc.vec.z
            <= linear_base(loc, size_x, size_y, size_z) - 2,
        size_x * size_y <= u64::MAX,
{
    let rank = loc.vec.x * size_y * size_z + loc.vec.y * size_z + loc.vec.z;
    let volume = size_x * size_y * size_z;
    assert(rank <= rank * volume) by (nonlinear_arith)
        requires
            size_x >= 1,
            size_y >= 1,
            size_z >= 1,
            rank >= 0,
            volume == size_x * size_y * size_z,
    ;
    assert(loc.vec.x * size_y <= loc.vec.x * size_y * size_z) by (nonlinear_arith)
        requires
            size_z >= 1,
            loc.vec.x * size_y >= 0,
    ;
    assert(size_x * size_y <= size_x * size_y * size_z) by (nonlinear_arith)
        requires
            size_z >= 1,
            size_x * size_y >= 0,
    ;
}

/// One more factor of the base: `pow(b, i + 1) == pow(b, i) * b`.
proof fn lemma_pow_step(b: u64, i: nat)
    ensures
        pow(b as int, i + 1) == pow(b as int, i) * b,
{
    lemma_pow_adds(b as int, i, 1nat);
    lemma_pow1(b as int);
}

} // verus!
