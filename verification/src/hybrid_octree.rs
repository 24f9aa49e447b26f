use vstd::prelude::*;
use std::collections::hash_map::DefaultHasher;
use std::hash::Hasher;
use crate::particle::{Particle, ParticleView, MATERIAL_COUNT};
use crate::sorted_level_list::{SortedLevel, SortedLevelList};
use crate::vectors::{lemma_linear_base_parts_fit, linear_base, linearized, Vector3U16, VoxelLocation};

verus! {

/// The mathematical value of a level's contents.
#[verifier::ext_equal]
pub ghost struct LevelContentsView {
    pub loaded: bool,
    pub data: Seq<ParticleView>,
}

/// The particles of one level, and whether they have been generated yet.
pub struct LevelContents {
    pub loaded: bool,
    pub data: Vec<Particle>,
}

impl View for LevelContents {
    type V = LevelContentsView;

    open spec fn view(&self) -> LevelContentsView {
        LevelContentsView { loaded: self.loaded, data: self.data@.map_values(|p: Particle| p@) }
    }
}

impl LevelContents {
    /// An owned copy with the same mathematical value.
    pub fn duplicate(&self) -> (r: Self)
        ensures
            r@ == self@,
    {
        let mut data: Vec<Particle> = Vec::new();
        let mut i: usize = 0;
        while i < self.data.len()
            invariant
                i <= self.data.len(),
                data@.len() == i,
                forall|k: int| 0 <= k < i ==> #[trigger] data@[k]@ == self.data@[k]@,
            decreases self.data.len() - i,
        {
            data.push(self.data[i].duplicate());
            i = i + 1;
        }
        let r = LevelContents { loaded: self.loaded, data };
        proof {
            assert(r@.data =~= self@.data);
            assert(r@ =~= self@);
        }
        r
    }
}

/// One level of the octree.
pub struct Level {
    pub contents: LevelContents,
}

impl View for Level {
    type V = LevelContentsView;

    open spec fn view(&self) -> LevelContentsView {
        self.contents@
    }
}

impl Level {
    /// An owned copy with the same mathematical value.
    pub fn duplicate(&self) -> (r: Self)
        ensures
            r@ == self@,
    {
        Level { contents: self.contents.duplicate() }
    }
}

/// The mathematical value of the whole octree.
#[verifier::ext_equal]
pub ghost struct HybridOctreeView {
    pub level_depth: u64,
    pub level_length: u64,
    pub levels: Seq<crate::sorted_level_list::SortedLevelView>,
}

/// Voxel storage: a fixed number of levels, each holding a cube of
/// `level_length` voxels per axis, kept sorted by their linearized ordinals.
pub struct HybridOctree {
    /// Number of levels.
    pub level_depth: u64,
    /// Voxels per axis within one level.
    pub level_length: u64,
    pub levels: SortedLevelList,
}

impl View for HybridOctree {
    type V = HybridOctreeView;

    open spec fn view(&self) -> HybridOctreeView {
        HybridOctreeView {
            level_depth: self.level_depth,
            level_length: self.level_length,
            levels: self.levels@,
        }
    }
}

/// The sort key a voxel location gets inside this octree.
pub open spec fn octree_ordinal(o: HybridOctree, pos: VoxelLocation) -> int {
    linearized(pos, o.level_length, o.level_length, o.level_length, o.level_depth)
}

/// The location can be linearized inside this octree without the arithmetic
/// leaving a machine word.
pub open spec fn addressable(o: HybridOctree, pos: VoxelLocation) -> bool {
    &&& pos.lod <= o.level_depth
    &&& o.level_depth - pos.lod <= u32::MAX
    &&& o.level_length >= 2
    &&& o.level_length * o.level_length * o.level_length <= u64::MAX
    &&& linear_base(pos, o.level_length, o.level_length, o.level_length) <= u64::MAX
    &&& octree_ordinal(o, pos) <= u64::MAX
}

/// A particle as `load_level` first generates it: both level links unset,
/// one byte per material channel, and centered in its voxel.
pub open spec fn fresh_particle(p: ParticleView) -> bool {
    &&& p.level_index_current == 0
    &&& p.level_index_next == 0
    &&& p.material.len() == MATERIAL_COUNT
    &&& p.pos == (Vector3U16 { x: 32768, y: 32768, z: 32768 })
}

/// A level's contents as `load_level` first generates them: marked loaded,
/// one fresh particle per voxel of the level.
pub open spec fn fresh_level(c: LevelContentsView, volume: int) -> bool {
    &&& c.loaded
    &&& c.data.len() == volume
    &&& forall|p: int| 0 <= p < c.data.len() ==> fresh_particle(#[trigger] c.data[p])
}

impl HybridOctree {
    /// An empty octree of the given shape. Levels must span at least two
    /// voxels per axis.
    pub fn new(level_depth: u64, level_length: u64) -> (r: Self)
        requires
            level_length >= 2,
        ensures
            r.level_depth == level_depth,
            r.level_length == level_length,
            r.levels.data@.len() == 0,
            r.levels.sorted(),
    {
        HybridOctree { level_depth, level_length, levels: SortedLevelList::new() }
    }

    /// The stored level holding `pos`, which must have been loaded before.
    pub fn get_level(&self, pos: VoxelLocation) -> (r: &Level)
        requires
            self.levels.sorted(),
            addressable(*self, pos),
            self.levels.contains_ordinal(octree_ordinal(*self, pos) as u64),
        ensures
            exists|i: int|
                0 <= i < self.levels.data@.len() && self.levels.data@[i].ordinal
                    == octree_ordinal(*self, pos) && *r == self.levels.data@[i].level,
    {
        proof {
            lemma_linear_base_parts_fit(pos, self.level_length, self.level_length, self.level_length);
        }
        let index = self.levels.get(
            pos.linearize(self.level_length, self.level_length, self.level_length, self.level_depth),
        );
        assert(index.0);
        &self.levels.data[index.1].level
    }

    /// Makes sure the level holding `pos` is present and marked loaded. A
    /// level seen for the first time is inserted at its sorted position and
    /// filled with one generated particle per voxel, their material bytes
    /// drawn from the hasher; a level already present only has its loaded
    /// flag set. The hasher is given back for the next load.
    pub fn load_level(&mut self, pos: VoxelLocation, insecure_hasher: DefaultHasher) -> (r: Option<
        DefaultHasher,
    >)
        requires
            old(self).levels.sorted(),
            addressable(*old(self), pos),
        ensures
            r is Some,
            final(self).level_depth == old(self).level_depth,
            final(self).level_length == old(self).level_length,
            final(self).levels.sorted(),
            final(self).levels.contains_ordinal(octree_ordinal(*old(self), pos) as u64),
            old(self).levels.contains_ordinal(octree_ordinal(*old(self), pos) as u64)
                ==> exists|i: int|
                {
                    &&& 0 <= i < old(self).levels.data@.len()
                    &&& old(self).levels.data@[i].ordinal == octree_ordinal(*old(self), pos)
                    &&& final(self).levels@ =~= old(self).levels@.update(
                        i,
                        crate::sorted_level_list::SortedLevelView {
                            level: LevelContentsView {
                                loaded: true,
                                data: old(self).levels@[i].level.data,
                            },
                            location: old(self).levels@[i].location,
                            ordinal: old(self).levels@[i].ordinal,
                        },
                    )
                },
            !old(self).levels.contains_ordinal(octree_ordinal(*old(self), pos) as u64)
                ==> exists|k: int|
                {
                    &&& 0 <= k <= old(self).levels.data@.len()
                    &&& final(self).levels@ =~= old(self).levels@.insert(
                        k,
                        crate::sorted_level_list::SortedLevelView {
                            level: final(self).levels@[k].level,
                            location: pos,
                            ordinal: octree_ordinal(*old(self), pos) as u64,
                        },
                    )
                    &&& fresh_level(
                        final(self).levels@[k].level,
                        old(self).level_length * old(self).level_length * old(
                            self,
                        ).level_length,
                    )
                },
    {
        proof {
            lemma_linear_base_parts_fit(pos, self.level_length, self.level_length, self.level_length);
        }
        let linearized_pos: u64 = pos.linearize(
            self.level_length,
            self.level_length,
            self.level_length,
            self.level_depth,
        );
        let mut hasher = insecure_hasher;
        let (found, index) = self.levels.get(linearized_pos);
        if found {
            let ghost old_levels = self.levels.data@;
            let mut entry = self.levels.data.remove(index);
            entry.level.contents.loaded = true;
            self.levels.data.insert(index, entry);
            proof {
                assert(self.levels.data@ =~= old_levels.update(index as int, self.levels.data@[index as int]));
                assert(self.levels@ =~= old_levels.map_values(|l: SortedLevel| l@).update(
                    index as int,
                    self.levels.data@[index as int]@,
                ));
            }
        } else {
            let volume: u64 = self.checked_volume();
            let mut buffer: Vec<Particle> = Vec::new();
            let mut i: u64 = 0;
            while i < volume
                invariant
                    buffer@.len() == i,
                    i <= volume,
                    forall|p: int| 0 <= p < buffer@.len() ==> fresh_particle(#[trigger] buffer@[p]@),
                decreases volume - i,
            {
                let mut material: Vec<u8> = Vec::new();
                let mut m: u64 = 0;
                while m < MATERIAL_COUNT
                    invariant
                        material@.len() == m,
                        m <= MATERIAL_COUNT,
                    decreases MATERIAL_COUNT - m,
                {
                    let row: u64 = i % 256;
                    let scale: u64 = MATERIAL_COUNT % 256;
                    proof {
                        assert(row * scale <= 255 * 255) by (nonlinear_arith)
                            requires
                                0 <= row < 256,
                                0 <= scale < 256,
                        ;
                    }
                    let keyed: u8 = ((row * scale + m % 256) % 256) as u8;
                    hasher.write(&[keyed]);
                    let word = hasher.finish();
                    material.push((word % 256) as u8);
                    m = m + 1;
                }
                buffer.push(
                    Particle {
                        _gpu_only_level_index_current: 0,
                        _gpu_only_level_index_next: 0,
                        material,
                        pos: Vector3U16 { x: 32768, y: 32768, z: 32768 },
                    },
                );
                i = i + 1;
            }
            let ghost old_levels = self.levels@;
            let fresh = SortedLevel {
                ordinal: linearized_pos,
                location: pos,
                level: Level { contents: LevelContents { loaded: true, data: buffer } },
            };
            self.levels.data.insert(index, fresh);
            proof {
                let k = index as int;
                assert(self.levels@ =~= old_levels.insert(k, self.levels@[k]));
                assert forall|a: int, b: int|
                    0 <= a < b < self.levels.data@.len() implies self.levels.data@[a].ordinal
                    < self.levels.data@[b].ordinal by {
                    if a < k && b > k {
                    } else if a == k {
                    } else if b == k {
                    }
                }
            }
        }
        Some(hasher)
    }

    /// The number of voxels in one level, checked against the requirement
    /// that it fits a machine word.
    fn checked_volume(&self) -> (r: u64)
        requires
            self.level_length >= 1,
            self.level_length * self.level_length * self.level_length <= u64::MAX,
        ensures
            r == self.level_length * self.level_length * self.level_length,
    {
        proof {
            assert(self.level_length * self.level_length <= self.level_length
                * self.level_length * self.level_length) by (nonlinear_arith)
                requires
                    self.level_length >= 1,
            ;
        }
        self.level_length * self.level_length * self.level_length
    }

    /// An owned copy with the same mathematical value.
    pub fn duplicate(&self) -> (r: Self)
        ensures
            r@ == self@,
    {
        let r = HybridOctree {
            level_depth: self.level_depth,
            level_length: self.level_length,
            levels: self.levels.duplicate(),
        };
        proof {
            assert(r@ =~= self@);
        }
        r
    }
}

} // verus!
