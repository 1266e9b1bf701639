//! The heap: one append-only slab per category of entity, and the agent that
//! owns it.
//!
//! A slot that holds `Some` is live. A slot that holds `None` is reserved but
//! not yet populated, or reclaimed.

use vstd::prelude::*;
use crate::indexes::{
    Array, ArrayIndex, BuiltinFunction, BuiltinFunctionIndex, Object, ObjectIndex, OrdinaryObject,
    PrimitiveObject, PrimitiveObjectIndex,
};
use crate::intrinsics::Intrinsics;

verus! {

/// Names one realm of an agent: its position in the heap's list of realms.
#[derive(Clone, Copy, Debug, PartialEq, Eq, Structural)]
pub struct RealmIdentifier(pub usize);

/// An ordinary object.
#[derive(Clone, Copy, Debug, PartialEq, Eq, Structural)]
pub struct ObjectHeapData {
    pub extensible: bool,
    /// The `[[Prototype]]` link; `None` is null.
    pub prototype: Option<Object>,
    /// Handle of the object's property table, which another part of the
    /// engine owns; `None` while the object has no own property.
    pub property_storage: Option<usize>,
}

/// What a primitive-valued object wraps.
#[derive(Clone, Copy, Debug, PartialEq, Eq, Structural)]
pub enum PrimitiveObjectKind {
    Boolean,
    Number,
    String,
}

/// A primitive-valued object.
#[derive(Clone, Copy, Debug, PartialEq, Eq, Structural)]
pub struct PrimitiveObjectHeapData {
    /// The property-bag object behind this entity.
    pub object_index: Option<OrdinaryObject>,
    pub kind: PrimitiveObjectKind,
}

/// A built-in function.
#[derive(Clone, Copy, Debug, PartialEq, Eq, Structural)]
pub struct BuiltinFunctionHeapData {
    /// The property-bag object behind this entity, if it has one.
    pub object_index: Option<OrdinaryObject>,
    /// The realm that the function was created in.
    pub realm: RealmIdentifier,
}

/// An Array exotic object.
#[derive(Clone, Copy, Debug, PartialEq, Eq, Structural)]
pub struct ArrayHeapData {
    /// The property-bag object behind this entity.
    pub object_index: Option<OrdinaryObject>,
    pub len: u32,
}

/// One isolated set of globals. It owns exactly one registry.
#[derive(Clone, Copy, Debug, PartialEq, Eq, Structural)]
pub struct Realm {
    pub intrinsics: Intrinsics,
}

/// The store of all entities of an agent.
pub struct Heap {
    pub objects: Vec<Option<ObjectHeapData>>,
    pub primitive_objects: Vec<Option<PrimitiveObjectHeapData>>,
    pub builtin_functions: Vec<Option<BuiltinFunctionHeapData>>,
    pub arrays: Vec<Option<ArrayHeapData>>,
    pub realms: Vec<Option<Realm>>,
}

/// The context that every operation on the heap is handed.
pub struct Agent {
    pub heap: Heap,
}

/// `count` empty slots.
pub open spec fn empty_slots<T>(count: int) -> Seq<Option<T>> {
    Seq::new(count as nat, |i: int| None)
}

/// Extends `slab` by `count` empty slots and returns the index of the first
/// of them.
pub fn reserve_slots<T>(slab: &mut Vec<Option<T>>, count: usize) -> (base: usize)
    ensures
        base == old(slab)@.len(),
        final(slab)@ == old(slab)@ + empty_slots::<T>(count as int),
        base + count <= usize::MAX,
{
    let base: usize = slab.len();
    let mut added: usize = 0;
    while added < count
        invariant
            added <= count,
            base == old(slab)@.len(),
            slab@ == old(slab)@ + empty_slots::<T>(added as int),
        decreases count - added,
    {
        slab.push(None);
        added = added + 1;
        assert(slab@ =~= old(slab)@ + empty_slots::<T>(added as int));
    }
    assert(slab@.len() == slab.len());
    base
}

impl Heap {
    /// A heap with no entity and no realm.
    pub fn new() -> (heap: Self)
        ensures
            heap.objects@.len() == 0,
            heap.primitive_objects@.len() == 0,
            heap.builtin_functions@.len() == 0,
            heap.arrays@.len() == 0,
            heap.realms@.len() == 0,
    {
        Heap {
            objects: Vec::new(),
            primitive_objects: Vec::new(),
            builtin_functions: Vec::new(),
            arrays: Vec::new(),
            realms: Vec::new(),
        }
    }

    /// Whether the slot of `object` exists and is populated.
    pub open spec fn is_live(&self, object: Object) -> bool {
        match object {
            Object::Object(o) => 0 <= o.0@ < self.objects@.len() && self.objects@[o.0@] is Some,
            Object::PrimitiveObject(p) => 0 <= p.0@ < self.primitive_objects@.len()
                && self.primitive_objects@[p.0@] is Some,
            Object::BuiltinFunction(f) => 0 <= f.0@ < self.builtin_functions@.len()
                && self.builtin_functions@[f.0@] is Some,
            Object::Array(a) => 0 <= a.0@ < self.arrays@.len() && self.arrays@[a.0@] is Some,
        }
    }

    /// Whether the slab of `object` has a slot at its index, populated or
    /// not.
    pub open spec fn has_slot(&self, object: Object) -> bool {
        match object {
            Object::Object(o) => o.0@ < self.objects@.len(),
            Object::PrimitiveObject(p) => p.0@ < self.primitive_objects@.len(),
            Object::BuiltinFunction(f) => f.0@ < self.builtin_functions@.len(),
            Object::Array(a) => a.0@ < self.arrays@.len(),
        }
    }

    /// Every handle that an entry holds names a slot of this heap.
    pub open spec fn is_closed(&self) -> bool {
        &&& forall|i: int|
            0 <= i < self.objects@.len() && self.objects@[i] is Some && (
            #[trigger] self.objects@[i]).unwrap().prototype is Some ==> self.has_slot(
                self.objects@[i].unwrap().prototype.unwrap(),
            )
        &&& forall|i: int|
            0 <= i < self.primitive_objects@.len() && self.primitive_objects@[i] is Some && (
            #[trigger] self.primitive_objects@[i]).unwrap().object_index is Some
                ==> self.has_slot(
                Object::Object(self.primitive_objects@[i].unwrap().object_index.unwrap()),
            )
        &&& forall|i: int|
            0 <= i < self.builtin_functions@.len() && self.builtin_functions@[i] is Some && (
            #[trigger] self.builtin_functions@[i]).unwrap().object_index is Some
                ==> self.has_slot(
                Object::Object(self.builtin_functions@[i].unwrap().object_index.unwrap()),
            )
        &&& forall|i: int|
            0 <= i < self.arrays@.len() && self.arrays@[i] is Some && (
            #[trigger] self.arrays@[i]).unwrap().object_index is Some ==> self.has_slot(
                Object::Object(self.arrays@[i].unwrap().object_index.unwrap()),
            )
    }

    /// The ordinary object at `index`.
    pub fn get_object(&self, index: ObjectIndex) -> (data: &ObjectHeapData)
        requires
            self.is_live(Object::Object(OrdinaryObject(index))),
        ensures
            Some(*data) == self.objects@[index@],
    {
        self.objects[index.into_index()].as_ref().unwrap()
    }

    /// The primitive-valued object at `index`.
    pub fn get_primitive_object(&self, index: PrimitiveObjectIndex) -> (data:
        &PrimitiveObjectHeapData)
        requires
            self.is_live(Object::PrimitiveObject(PrimitiveObject(index))),
        ensures
            Some(*data) == self.primitive_objects@[index@],
    {
        self.primitive_objects[index.into_index()].as_ref().unwrap()
    }

    /// The built-in function at `index`.
    pub fn get_builtin_function(&self, index: BuiltinFunctionIndex) -> (data:
        &BuiltinFunctionHeapData)
        requires
            self.is_live(Object::BuiltinFunction(BuiltinFunction(index))),
        ensures
            Some(*data) == self.builtin_functions@[index@],
    {
        self.builtin_functions[index.into_index()].as_ref().unwrap()
    }

    /// The Array exotic object at `index`.
    pub fn get_array(&self, index: ArrayIndex) -> (data: &ArrayHeapData)
        requires
            self.is_live(Object::Array(Array(index))),
        ensures
            Some(*data) == self.arrays@[index@],
    {
        self.arrays[index.into_index()].as_ref().unwrap()
    }

    /// Whether `object` names a populated slot.
    pub fn contains(&self, object: Object) -> (live: bool)
        ensures
            live == self.is_live(object),
    {
        match object {
            Object::Object(o) => {
                let i: usize = o.0.into_index();
                i < self.objects.len() && self.objects[i].is_some()
            },
            Object::PrimitiveObject(p) => {
                let i: usize = p.0.into_index();
                i < self.primitive_objects.len() && self.primitive_objects[i].is_some()
            },
            Object::BuiltinFunction(f) => {
                let i: usize = f.0.into_index();
                i < self.builtin_functions.len() && self.builtin_functions[i].is_some()
            },
            Object::Array(a) => {
                let i: usize = a.0.into_index();
                i < self.arrays.len() && self.arrays[i].is_some()
            },
        }
    }
}

impl Agent {
    /// An agent with an empty heap.
    pub fn new() -> (agent: Self)
        ensures
            agent.heap.objects@.len() == 0,
            agent.heap.primitive_objects@.len() == 0,
            agent.heap.builtin_functions@.len() == 0,
            agent.heap.arrays@.len() == 0,
            agent.heap.realms@.len() == 0,
            agent.heap.is_closed(),
    {
        Agent { heap: Heap::new() }
    }

    /// Whether `realm` names a realm of this agent.
    pub open spec fn has_realm(&self, realm: RealmIdentifier) -> bool {
        realm.0 < self.heap.realms@.len() && self.heap.realms@[realm.0 as int] is Some
    }

    /// The realm that `realm` names.
    pub fn get_realm(&self, realm: RealmIdentifier) -> (found: &Realm)
        requires
            self.has_realm(realm),
        ensures
            Some(*found) == self.heap.realms@[realm.0 as int],
    {
        self.heap.realms[realm.0].as_ref().unwrap()
    }

    /// Adds a realm with the registry `intrinsics` and returns its name.
    pub fn add_realm(&mut self, intrinsics: Intrinsics) -> (realm: RealmIdentifier)
        ensures
            realm.0 == old(self).heap.realms@.len(),
            final(self).heap.realms@ == old(self).heap.realms@.push(Some(Realm { intrinsics })),
            final(self).heap.objects == old(self).heap.objects,
            final(self).heap.primitive_objects == old(self).heap.primitive_objects,
            final(self).heap.builtin_functions == old(self).heap.builtin_functions,
            final(self).heap.arrays == old(self).heap.arrays,
    {
        let id: usize = self.heap.realms.len();
        self.heap.realms.push(Some(Realm { intrinsics }));
        RealmIdentifier(id)
    }
}

} // verus!
