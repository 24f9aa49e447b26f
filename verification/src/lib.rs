//! A dependency-synchronized multi-task execution engine. Callers declare
//! named synchronization nodes and the names of their children, register
//! tasks that claim nodes by name, and have the builder validate the graph,
//! wire one single-slot hand-off edge per declared child, and produce an
//! executor. Each task then runs in its own thread of control, bracketing
//! every tick between waiting on all parent edges and releasing all child
//! edges of its claimed nodes, until one task publishes a stop or a
//! replacement of the whole generation. The builder's validation, the edge
//! wiring, the claim protocol and the control-signal rules are specified
//! and verified here; spawning and joining the threads is left to the
//! embedding program, which drives them through `publish_control` and
//! `resolve_control`. Alongside the engine live its small domain types: the
//! voxel octree storage with its sorted level list, and the named object
//! registry that tasks read during initialization.

use vstd::prelude::*;

mod controlling;
mod hybrid_octree;
mod metadata;
mod molecule_objekt;
mod particle;
mod sorted_level_list;
mod sync_channel;
mod synchronization_graph;
mod task;
mod task_executor;
mod vectors;

pub use controlling::Controlling;
pub use hybrid_octree::HybridOctree;
pub use hybrid_octree::Level;
pub use hybrid_octree::LevelContents;
pub use metadata::MoleculeApplicationData;
pub use metadata::MoleculeApplicationVersion;
pub use metadata::MoleculeVersion;
pub use molecule_objekt::clone_objekt_in_list;
pub use molecule_objekt::HybridOctreeObjekt;
pub use molecule_objekt::MoleculeObjekt;
pub use molecule_objekt::MoleculeObjektValue;
pub use molecule_objekt::ObjektKind;
pub use molecule_objekt::U32Objekt;
pub use particle::Particle;
pub use particle::MATERIAL_COUNT;
pub use sorted_level_list::SortedLevel;
pub use sorted_level_list::SortedLevelList;
pub use synchronization_graph::EdgeInfo;
pub use synchronization_graph::GraphError;
pub use synchronization_graph::SubmissionResult;
pub use synchronization_graph::SynchronizationDependent;
pub use synchronization_graph::SynchronizationGraphTemplate;
pub use synchronization_graph::SynchronizationNode;
pub use synchronization_graph::SyncRuntimeError;
pub use synchronization_graph::TemplateSynchronizationNode;
pub use task::Task;
pub use task::TaskControlFlow;
pub use task_executor::publish_control;
pub use task_executor::resolve_control;
pub use task_executor::ExecutionResolution;
pub use task_executor::TaskExecutor;
pub use task_executor::TaskExecutorInner;
pub use vectors::Vector3U16;
pub use vectors::Vector3U64;
pub use vectors::VoxelLocation;

verus! {

/// Major component of the engine's own version.
pub const ENGINE_VERSION_MAJOR: u32 = 0;

/// Minor component of the engine's own version.
pub const ENGINE_VERSION_MINOR: u32 = 1;

/// Patch component of the engine's own version.
pub const ENGINE_VERSION_PATCH: u32 = 0;

/// The version of the engine itself, as opposed to the version of an
/// application built on top of it.
pub fn get_engine_version() -> (r: MoleculeVersion)
    ensures
        r.major == ENGINE_VERSION_MAJOR,
        r.minor == ENGINE_VERSION_MINOR,
        r.patch == ENGINE_VERSION_PATCH,
{
    MoleculeVersion {
        major: ENGINE_VERSION_MAJOR,
        minor: ENGINE_VERSION_MINOR,
        patch: ENGINE_VERSION_PATCH,
    }
}

} // verus!
