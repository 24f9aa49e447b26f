use vstd::prelude::*;
use crate::vectors::Vector3U16;

verus! {

/// Number of material channels stored per particle.
pub const MATERIAL_COUNT: u64 = 512;

/// The mathematical value of a particle.
#[verifier::ext_equal]
pub ghost struct ParticleView {
    pub level_index_current: u32,
    pub level_index_next: u32,
    pub material: Seq<u8>,
    pub pos: Vector3U16,
}

/// One particle of a stored level: its GPU-side level links, its material
/// channels, and its position within the owning voxel.
pub struct Particle {
    /// The level containing this particle.
    pub _gpu_only_level_index_current: u32,
    /// The level contained by this particle.
    pub _gpu_only_level_index_next: u32,
    /// One byte per material channel.
    pub material: Vec<u8>,
    /// Position within the bounds of the associated voxel.
    pub pos: Vector3U16,
}

impl View for Particle {
    type V = ParticleView;

    open spec fn view(&self) -> ParticleView {
        ParticleView {
            level_index_current: self._gpu_only_level_index_current,
            level_index_next: self._gpu_only_level_index_next,
            material: self.material@,
            pos: self.pos,
        }
    }
}

impl Particle {
    /// An owned copy, equal to this particle in every field.
    pub fn duplicate(&self) -> (r: Self)
        ensures
            r@ == self@,
    {
        let mut material: Vec<u8> = Vec::new();
        let mut i: usize = 0;
        while i < self.material.len()
            invariant
                i <= self.material.len(),
                material@.len() == i,
                forall|k: int| 0 <= k < i ==> material@[k] == self.material@[k],
            decreases self.material.len() - i,
        {
            material.push(self.material[i]);
            i = i + 1;
        }
        proof {
            assert(material@ =~= self.material@);
        }
        let r = Particle {
            _gpu_only_level_index_current: self._gpu_only_level_index_current,
            _gpu_only_level_index_next: self._gpu_only_level_index_next,
            material,
            pos: self.pos,
        };
        proof {
            assert(r@ =~= self@);
        }
        r
    }
}

} // verus!
