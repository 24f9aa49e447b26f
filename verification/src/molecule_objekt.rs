use vstd::prelude::*;
use crate::hybrid_octree::{HybridOctree, HybridOctreeView};

verus! {

/// A named domain object that tasks may look up in the shared registry
/// during their initialization.
pub trait MoleculeObjekt {
    /// The object's registry name.
    spec fn name_spec(&self) -> Seq<char>;

    /// The object's registry name.
    fn name(&self) -> (r: String)
        ensures
            r@ == self.name_spec(),
    ;
}

/// The mathematical value of a `U32Objekt`.
#[verifier::ext_equal]
pub ghost struct U32ObjektView {
    pub name: Seq<char>,
    pub some_val: u32,
}

/// The smallest kind of registry object: a single named number.
pub struct U32Objekt {
    name: String,
    pub some_val: u32,
}

impl View for U32Objekt {
    type V = U32ObjektView;

    closed spec fn view(&self) -> U32ObjektView {
        U32ObjektView { name: self.name@, some_val: self.some_val }
    }
}

impl U32Objekt {
    pub fn new(name: String, some_val: u32) -> (r: Self)
        ensures
            r@ == (U32ObjektView { name: name@, some_val }),
            r.name_spec() == name@,
    {
        U32Objekt { name, some_val }
    }

    /// An owned copy with the same mathematical value.
    pub fn duplicate(&self) -> (r: Self)
        ensures
            r@ == self@,
    {
        U32Objekt { name: self.name.clone(), some_val: self.some_val }
    }
}

impl MoleculeObjekt for U32Objekt {
    closed spec fn name_spec(&self) -> Seq<char> {
        self.name@
    }

    fn name(&self) -> (r: String) {
        self.name.clone()
    }
}

/// The mathematical value of a `HybridOctreeObjekt`.
#[verifier::ext_equal]
pub ghost struct HybridOctreeObjektView {
    pub name: Seq<char>,
    pub inner: HybridOctreeView,
}

/// Voxel storage registered as a named object.
pub struct HybridOctreeObjekt {
    name: String,
    inner: HybridOctree,
}

impl View for HybridOctreeObjekt {
    type V = HybridOctreeObjektView;

    closed spec fn view(&self) -> HybridOctreeObjektView {
        HybridOctreeObjektView { name: self.name@, inner: self.inner@ }
    }
}

impl HybridOctreeObjekt {
    pub fn new(name: String, inner: HybridOctree) -> (r: Self)
        ensures
            r@ == (HybridOctreeObjektView { name: name@, inner: inner@ }),
            r.name_spec() == name@,
    {
        HybridOctreeObjekt { name, inner }
    }

    /// The stored octree.
    pub fn octree(&self) -> (r: &HybridOctree)
        ensures
            r@ == self@.inner,
    {
        &self.inner
    }

    /// An owned copy with the same mathematical value.
    pub fn duplicate(&self) -> (r: Self)
        ensures
            r@ == self@,
    {
        HybridOctreeObjekt { name: self.name.clone(), inner: self.inner.duplicate() }
    }
}

impl MoleculeObjekt for HybridOctreeObjekt {
    closed spec fn name_spec(&self) -> Seq<char> {
        self.name@
    }

    fn name(&self) -> (r: String) {
        self.name.clone()
    }
}

/// The concrete kind of a registry object, used as the type check when a
/// caller asks for a clone by name.
#[derive(Clone, Copy, PartialEq, Eq, Structural, Debug)]
pub enum ObjektKind {
    Unsigned32,
    Octree,
}

/// The mathematical value of a registry object.
#[verifier::ext_equal]
pub ghost enum MoleculeObjektView {
    Unsigned32(U32ObjektView),
    Octree(HybridOctreeObjektView),
}

/// One registry object: a closed union of the known object kinds, each
/// carrying its own name.
pub enum MoleculeObjektValue {
    Unsigned32(U32Objekt),
    Octree(HybridOctreeObjekt),
}

impl View for MoleculeObjektValue {
    type V = MoleculeObjektView;

    open spec fn view(&self) -> MoleculeObjektView {
        match self {
            MoleculeObjektValue::Unsigned32(o) => MoleculeObjektView::Unsigned32(o@),
            MoleculeObjektValue::Octree(o) => MoleculeObjektView::Octree(o@),
        }
    }
}

impl MoleculeObjektValue {
    /// The kind tag of this object.
    pub open spec fn kind_spec(&self) -> ObjektKind {
        match self {
            MoleculeObjektValue::Unsigned32(_) => ObjektKind::Unsigned32,
            MoleculeObjektValue::Octree(_) => ObjektKind::Octree,
        }
    }

    /// The kind tag of this object.
    pub fn kind(&self) -> (r: ObjektKind)
        ensures
            r == self.kind_spec(),
    {
        match self {
            MoleculeObjektValue::Unsigned32(_) => ObjektKind::Unsigned32,
            MoleculeObjektValue::Octree(_) => ObjektKind::Octree,
        }
    }

    /// An owned copy with the same mathematical value.
    pub fn duplicate(&self) -> (r: Self)
        ensures
            r@ == self@,
            r.kind_spec() == self.kind_spec(),
            r.name_spec() == self.name_spec(),
    {
        match self {
            MoleculeObjektValue::Unsigned32(o) => MoleculeObjektValue::Unsigned32(o.duplicate()),
            MoleculeObjektValue::Octree(o) => MoleculeObjektValue::Octree(o.duplicate()),
        }
    }
}

impl MoleculeObjekt for MoleculeObjektValue {
    open spec fn name_spec(&self) -> Seq<char> {
        match self {
            MoleculeObjektValue::Unsigned32(o) => o.name_spec(),
            MoleculeObjektValue::Octree(o) => o.name_spec(),
        }
    }

    fn name(&self) -> (r: String) {
        match self {
            MoleculeObjektValue::Unsigned32(o) => o.name(),
            MoleculeObjektValue::Octree(o) => o.name(),
        }
    }
}

/// The index of the first registry entry carrying `name`, scanning from `j`.
pub open spec fn find_objekt_from(
    list: Seq<MoleculeObjektValue>,
    name: Seq<char>,
    j: int,
) -> Option<int>
    decreases list.len() - j,
{
    if j < 0 || j >= list.len() {
        None
    } else if list[j].name_spec() == name {
        Some(j)
    } else {
        find_objekt_from(list, name, j + 1)
    }
}

/// The index of the first registry entry carrying `name`.
pub open spec fn find_objekt(list: Seq<MoleculeObjektValue>, name: Seq<char>) -> Option<int> {
    find_objekt_from(list, name, 0)
}

/// Looks `name` up in the registry and hands back an owned copy of the first
/// entry carrying it, provided that entry is of the expected kind. Nothing
/// comes back when the name is absent or the first carrier has another kind.
pub fn clone_objekt_in_list(
    objekt_list: &Vec<MoleculeObjektValue>,
    name: &str,
    kind: ObjektKind,
) -> (r: Option<MoleculeObjektValue>)
    ensures
        match find_objekt(objekt_list@, name@) {
            None => r is None,
            Some(i) => {
                if objekt_list@[i].kind_spec() == kind {
                    r matches Some(o) && o@ == objekt_list@[i]@
                } else {
                    r is None
                }
            },
        },
{
    let wanted: String = name.to_owned();
    let n = objekt_list.len();
    let mut j: usize = 0;
    while j < n
        invariant
            n == objekt_list@.len(),
            j <= n,
            wanted@ == name@,
            find_objekt(objekt_list@, name@) == find_objekt_from(objekt_list@, name@, j as int),
        decreases n - j,
    {
        let entry = &objekt_list[j];
        if entry.name() == wanted {
            if entry.kind() == kind {
                return Some(entry.duplicate());
            }
            return None;
        }
        j = j + 1;
    }
    None
}

} // verus!
