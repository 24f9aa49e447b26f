use vstd::prelude::*;
use crate::hybrid_octree::{Level, LevelContentsView};
use crate::vectors::VoxelLocation;

verus! {

/// The mathematical value of one stored level and its placement.
#[verifier::ext_equal]
pub ghost struct SortedLevelView {
    pub level: LevelContentsView,
    pub location: VoxelLocation,
    pub ordinal: u64,
}

/// One stored level together with its placement.
pub struct SortedLevel {
    /// Inner data.
    pub level: Level,
    /// The location of the voxel on the lowest position on each axis that is
    /// still within this level. Locations are always global, never relative.
    pub location: VoxelLocation,
    /// How to position this level relative to other levels.
    pub ordinal: u64,
}

/// Levels kept in strictly increasing order of their ordinals, so that a
/// level can be found, or its insertion point computed, by binary search.
pub struct SortedLevelList {
    pub data: Vec<SortedLevel>,
}

impl View for SortedLevel {
    type V = SortedLevelView;

    open spec fn view(&self) -> SortedLevelView {
        SortedLevelView { level: self.level@, location: self.location, ordinal: self.ordinal }
    }
}

impl SortedLevel {
    /// An owned copy with the same mathematical value.
    pub fn duplicate(&self) -> (r: Self)
        ensures
            r@ == self@,
    {
        let r = SortedLevel {
            level: self.level.duplicate(),
            location: self.location,
            ordinal: self.ordinal,
        };
        proof {
            assert(r@ =~= self@);
        }
        r
    }
}

impl View for SortedLevelList {
    type V = Seq<SortedLevelView>;

    open spec fn view(&self) -> Seq<SortedLevelView> {
        self.data@.map_values(|l: SortedLevel| l@)
    }
}

impl SortedLevelList {
    /// The ordinals are strictly increasing, so each occurs at most once.
    pub open spec fn sorted(&self) -> bool {
        forall|i: int, j: int|
            0 <= i < j < self.data@.len() ==> self.data@[i].ordinal < self.data@[j].ordinal
    }

    /// Some stored level carries this ordinal.
    pub open spec fn contains_ordinal(&self, pos: u64) -> bool {
        exists|i: int| 0 <= i < self.data@.len() && self.data@[i].ordinal == pos
    }

    /// An empty list.
    pub fn new() -> (r: Self)
        ensures
            r.data@.len() == 0,
            r.sorted(),
    {
        Self { data: Vec::new() }
    }

    /// Binary search inside the window `lower_i..upper_e`, everything outside
    /// of which is already known not to hold `pos`.
    fn get_recur(&self, pos: u64, lower_i: usize, upper_e: usize) -> (r: (bool, usize))
        requires
            self.sorted(),
            lower_i <= upper_e,
            upper_e <= self.data@.len(),
            forall|k: int| 0 <= k < lower_i ==> self.data@[k].ordinal < pos,
            forall|k: int| upper_e <= k < self.data@.len() ==> self.data@[k].ordinal > pos,
        ensures
            r.1 <= self.data@.len(),
            r.0 ==> r.1 < self.data@.len() && self.data@[r.1 as int].ordinal == pos,
            !r.0 ==> forall|k: int| 0 <= k < r.1 ==> self.data@[k].ordinal < pos,
            !r.0 ==> forall|k: int| r.1 <= k < self.data@.len() ==> self.data@[k].ordinal > pos,
        decreases upper_e - lower_i,
    {
        if upper_e == lower_i {
            return (false, lower_i);
        }
        let check_index = (upper_e - lower_i) / 2 + lower_i;
        let check = self.data[check_index].ordinal;
        if pos < check {
            self.get_recur(pos, lower_i, check_index)
        } else if pos > check {
            self.get_recur(pos, check_index + 1, upper_e)
        } else {
            (true, check_index)
        }
    }

    /// Looks `pos` up. On a hit, the flag is true and the index points at the
    /// matching level; on a miss, the flag is false and the index is the
    /// place where a level with this ordinal would have to be inserted.
    pub fn get(&self, pos: u64) -> (r: (bool, usize))
        requires
            self.sorted(),
        ensures
            r.0 == self.contains_ordinal(pos),
            r.1 <= self.data@.len(),
            r.0 ==> r.1 < self.data@.len() && self.data@[r.1 as int].ordinal == pos,
            !r.0 ==> forall|k: int| 0 <= k < r.1 ==> self.data@[k].ordinal < pos,
            !r.0 ==> forall|k: int| r.1 <= k < self.data@.len() ==> self.data@[k].ordinal > pos,
    {
        let r = self.get_recur(pos, 0, self.data.len());
        proof {
            if r.0 {
                assert(self.contains_ordinal(pos));
            } else {
                assert(forall|i: int|
                    0 <= i < self.data@.len() ==> self.data@[i].ordinal != pos);
            }
        }
        r
    }

    /// An owned copy with the same mathematical value.
    pub fn duplicate(&self) -> (r: Self)
        ensures
            r@ == self@,
    {
        let mut data: Vec<SortedLevel> = Vec::new();
        let mut i: usize = 0;
        while i < self.data.len()
            invariant
                i <= self.data.len(),
                data@.len() == i,
                forall|k: int| 0 <= k < i ==> #[trigger] data@[k]@ == self.data@[k]@,
            decreases self.data.len() - i,
        {
            data.push(self.data[i].duplicate());
            i = i + 1;
        }
        let r = SortedLevelList { data };
        proof {
            assert(r@ =~= self@);
        }
        r
    }
}

} // verus!
