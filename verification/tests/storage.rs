use std::collections::hash_map::DefaultHasher;

use molecule_engine::clone_objekt_in_list;
use molecule_engine::get_engine_version;
use molecule_engine::HybridOctree;
use molecule_engine::HybridOctreeObjekt;
use molecule_engine::Level;
use molecule_engine::LevelContents;
use molecule_engine::MoleculeApplicationData;
use molecule_engine::MoleculeApplicationVersion;
use molecule_engine::MoleculeObjekt;
use molecule_engine::MoleculeObjektValue;
use molecule_engine::ObjektKind;
use molecule_engine::Particle;
use molecule_engine::SortedLevel;
use molecule_engine::SortedLevelList;
use molecule_engine::U32Objekt;
use molecule_engine::Vector3U16;
use molecule_engine::Vector3U64;
use molecule_engine::VoxelLocation;
use molecule_engine::MATERIAL_COUNT;

fn loc(x: u64, y: u64, z: u64, lod: u64) -> VoxelLocation {
    VoxelLocation { lod, vec: Vector3U64 { x, y, z } }
}

fn empty_level(ordinal: u64) -> SortedLevel {
    SortedLevel {
        level: Level { contents: LevelContents { loaded: false, data: Vec::new() } },
        location: loc(0, 0, 0, 0),
        ordinal,
    }
}

#[test]
fn engine_version_components() {
    let v = get_engine_version();
    assert_eq!(v.major, 0);
    assert_eq!(v.minor, 1);
    assert_eq!(v.patch, 0);
}

#[test]
fn application_data_carries_name_and_version() {
    let data = MoleculeApplicationData {
        name: "molecule development test",
        version: MoleculeApplicationVersion { major: 3, minor: 1, patch: 4 },
    };
    assert_eq!(data.name, "molecule development test");
    assert_eq!(data.version.minor, 1);
}

#[test]
fn linearize_exact_values() {
    // rank 4, volume 8, base 34, one level between lod and depth.
    assert_eq!(loc(1, 0, 0, 1).linearize(2, 2, 2, 2), 34);
    // at the deepest level the exponent is zero.
    assert_eq!(loc(1, 0, 0, 2).linearize(2, 2, 2, 2), 1);
    // rank 1, base 10, squared across two levels.
    assert_eq!(loc(0, 0, 1, 1).linearize(2, 2, 2, 3), 100);
}

#[test]
fn sorted_list_finds_and_places() {
    let empty = SortedLevelList::new();
    assert_eq!(empty.get(7), (false, 0));

    let list = SortedLevelList { data: vec![empty_level(2), empty_level(5), empty_level(9)] };
    assert_eq!(list.get(5), (true, 1));
    assert_eq!(list.get(2), (true, 0));
    assert_eq!(list.get(9), (true, 2));
    assert_eq!(list.get(1), (false, 0));
    assert_eq!(list.get(7), (false, 2));
    assert_eq!(list.get(10), (false, 3));
}

#[test]
fn sorted_list_duplicate_preserves_entries() {
    let list = SortedLevelList { data: vec![empty_level(3), empty_level(8)] };
    let copy = list.duplicate();
    assert_eq!(copy.data.len(), 2);
    assert_eq!(copy.data[0].ordinal, 3);
    assert_eq!(copy.data[1].ordinal, 8);
}

#[test]
fn particle_duplicate_copies_material() {
    let p = Particle {
        _gpu_only_level_index_current: 4,
        _gpu_only_level_index_next: 7,
        material: vec![1, 2, 3],
        pos: Vector3U16 { x: 1, y: 2, z: 3 },
    };
    let q = p.duplicate();
    assert_eq!(q._gpu_only_level_index_current, 4);
    assert_eq!(q._gpu_only_level_index_next, 7);
    assert_eq!(q.material, vec![1, 2, 3]);
    assert_eq!(q.pos, Vector3U16 { x: 1, y: 2, z: 3 });
}

#[test]
fn load_level_generates_particles() {
    let mut storage = HybridOctree::new(2, 2);
    let hasher = DefaultHasher::new();
    let hasher = storage.load_level(loc(0, 0, 0, 2), hasher).unwrap();
    let _ = storage.load_level(loc(1, 0, 0, 1), hasher).unwrap();

    assert_eq!(storage.levels.data.len(), 2);
    assert_eq!(storage.levels.data[0].ordinal, 1);
    assert_eq!(storage.levels.data[1].ordinal, 34);

    let level = storage.get_level(loc(0, 0, 0, 2));
    assert!(level.contents.loaded);
    assert_eq!(level.contents.data.len(), 8);
    for particle in &level.contents.data {
        assert_eq!(particle.material.len(), MATERIAL_COUNT as usize);
        assert_eq!(particle.pos, Vector3U16 { x: 32768, y: 32768, z: 32768 });
        assert_eq!(particle._gpu_only_level_index_current, 0);
        assert_eq!(particle._gpu_only_level_index_next, 0);
    }
}

#[test]
fn load_level_twice_keeps_one_entry() {
    let mut storage = HybridOctree::new(2, 2);
    let hasher = DefaultHasher::new();
    let hasher = storage.load_level(loc(0, 0, 0, 2), hasher).unwrap();
    let _ = storage.load_level(loc(0, 0, 0, 2), hasher).unwrap();
    assert_eq!(storage.levels.data.len(), 1);
    assert!(storage.levels.data[0].level.contents.loaded);
    assert_eq!(storage.levels.data[0].level.contents.data.len(), 8);
}

#[test]
fn registry_lookup_clones_first_match() {
    let list = vec![
        MoleculeObjektValue::Unsigned32(U32Objekt::new(String::from("ernie"), 11)),
        MoleculeObjektValue::Octree(HybridOctreeObjekt::new(
            String::from("world"),
            HybridOctree::new(2, 2),
        )),
    ];

    match clone_objekt_in_list(&list, "ernie", ObjektKind::Unsigned32) {
        Some(MoleculeObjektValue::Unsigned32(o)) => {
            assert_eq!(o.name(), "ernie");
            assert_eq!(o.some_val, 11);
        }
        _ => panic!("expected the unsigned objekt named ernie"),
    }

    match clone_objekt_in_list(&list, "world", ObjektKind::Octree) {
        Some(MoleculeObjektValue::Octree(o)) => {
            assert_eq!(o.name(), "world");
            assert_eq!(o.octree().level_length, 2);
        }
        _ => panic!("expected the octree objekt named world"),
    }
}

#[test]
fn registry_lookup_rejects_kind_mismatch_and_absence() {
    let list = vec![
        MoleculeObjektValue::Unsigned32(U32Objekt::new(String::from("dup"), 1)),
        MoleculeObjektValue::Octree(HybridOctreeObjekt::new(
            String::from("dup"),
            HybridOctree::new(2, 2),
        )),
    ];

    // the first carrier of the name decides: it is not an octree.
    assert!(clone_objekt_in_list(&list, "dup", ObjektKind::Octree).is_none());
    assert!(clone_objekt_in_list(&list, "bert", ObjektKind::Unsigned32).is_none());
}

#[test]
fn octree_objekt_duplicate_is_deep() {
    let mut storage = HybridOctree::new(2, 2);
    let hasher = DefaultHasher::new();
    let _ = storage.load_level(loc(0, 0, 0, 2), hasher).unwrap();
    let source_bytes = storage.levels.data[0].level.contents.data[0].material.clone();

    let list = vec![MoleculeObjektValue::Octree(HybridOctreeObjekt::new(
        String::from("world"),
        storage,
    ))];
    match clone_objekt_in_list(&list, "world", ObjektKind::Octree) {
        Some(MoleculeObjektValue::Octree(copy)) => {
            assert_eq!(copy.octree().levels.data.len(), 1);
            assert_eq!(copy.octree().levels.data[0].level.contents.data[0].material, source_bytes);
        }
        _ => panic!("expected the octree objekt back"),
    }
}
