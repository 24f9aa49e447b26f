use vstd::prelude::*;

verus! {

/// Version of an application built on the engine.
#[derive(Clone, Copy, PartialEq, Eq, Structural, Debug)]
pub struct MoleculeApplicationVersion {
    pub major: u32,
    pub minor: u32,
    pub patch: u32,
}

/// Version of the engine itself.
#[derive(Clone, Copy, PartialEq, Eq, Structural, Debug)]
pub struct MoleculeVersion {
    pub major: u32,
    pub minor: u32,
    pub patch: u32,
}

/// Identity of the hosting application: a display name and its version.
pub struct MoleculeApplicationData {
    pub name: &'static str,
    pub version: MoleculeApplicationVersion,
}

} // verus!
