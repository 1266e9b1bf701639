//! The registry's part in garbage collection.
//!
//! Marking submits every reserved slot of a realm to the collector's
//! worklists. Compaction closes the gaps that reclaimed slots leave, so every
//! surviving slot moves down by the number of reclaimed slots before it. A
//! registry follows by shifting its bases: as long as all its slots survive,
//! every built-in is again found at `base + offset`.

use vstd::prelude::*;
use crate::heap_constants::{
    intrinsic_function_count, intrinsic_object_count, intrinsic_primitive_object_count,
    IntrinsicConstructorIndexes, IntrinsicFunctionIndexes, IntrinsicObjectIndexes,
    IntrinsicPrimitiveObjectIndexes,
};
use crate::indexes::{
    Array, ArrayIndex, BuiltinFunction, BuiltinFunctionIndex, Object, ObjectIndex, OrdinaryObject,
    PrimitiveObject, PrimitiveObjectIndex,
};
use crate::compaction::{compact_slab, CompactionLists};
use crate::heap::{
    ArrayHeapData, BuiltinFunctionHeapData, Heap, ObjectHeapData, PrimitiveObjectHeapData,
};
use crate::intrinsics::Intrinsics;

verus! {

/// The collector's worklists: the handles found reachable and not yet
/// traced, one list per slab.
pub struct WorkQueues {
    pub objects: Vec<ObjectIndex>,
    pub primitive_objects: Vec<PrimitiveObjectIndex>,
    pub builtin_functions: Vec<BuiltinFunctionIndex>,
    pub arrays: Vec<ArrayIndex>,
}

/// The worklists as sequences.
pub struct WorkQueuesView {
    pub objects: Seq<ObjectIndex>,
    pub primitive_objects: Seq<PrimitiveObjectIndex>,
    pub builtin_functions: Seq<BuiltinFunctionIndex>,
    pub arrays: Seq<ArrayIndex>,
}

impl View for WorkQueues {
    type V = WorkQueuesView;

    open spec fn view(&self) -> WorkQueuesView {
        WorkQueuesView {
            objects: self.objects@,
            primitive_objects: self.primitive_objects@,
            builtin_functions: self.builtin_functions@,
            arrays: self.arrays@,
        }
    }
}

impl WorkQueuesView {
    /// Whether the two hold the same handles, in whatever order and however
    /// often: the same set of roots.
    pub open spec fn same_reachable(self, other: WorkQueuesView) -> bool {
        &&& self.objects.to_set() == other.objects.to_set()
        &&& self.primitive_objects.to_set() == other.primitive_objects.to_set()
        &&& self.builtin_functions.to_set() == other.builtin_functions.to_set()
        &&& self.arrays.to_set() == other.arrays.to_set()
    }

    /// Whether all four worklists are empty.
    pub open spec fn is_empty(self) -> bool {
        &&& self.objects.len() == 0
        &&& self.primitive_objects.len() == 0
        &&& self.builtin_functions.len() == 0
        &&& self.arrays.len() == 0
    }

    /// Whether `object` is on the worklist of its slab.
    pub open spec fn holds(self, object: Object) -> bool {
        match object {
            Object::Object(o) => self.objects.contains(o.0),
            Object::PrimitiveObject(p) => self.primitive_objects.contains(p.0),
            Object::BuiltinFunction(f) => self.builtin_functions.contains(f.0),
            Object::Array(a) => self.arrays.contains(a.0),
        }
    }
}

impl WorkQueues {
    /// Empty worklists.
    pub fn new() -> (queues: Self)
        ensures
            queues@.is_empty(),
    {
        WorkQueues {
            objects: Vec::new(),
            primitive_objects: Vec::new(),
            builtin_functions: Vec::new(),
            arrays: Vec::new(),
        }
    }
}

/// What the collector asks of everything that holds handles: to submit them
/// when the heap is marked, and to move them when it is compacted.
pub trait HeapMarkAndSweep: Sized {
    /// Whether the value is fit to be marked.
    spec fn can_mark(&self) -> bool;

    /// The worklists after the value has been marked.
    spec fn marked(&self, queues: WorkQueuesView) -> WorkQueuesView;

    /// Whether every handle of the value lies within the slabs that
    /// `compactions` was made for.
    spec fn can_sweep(&self, compactions: &CompactionLists) -> bool;

    /// The value after `compactions`.
    spec fn swept(&self, compactions: &CompactionLists) -> Self;

    /// Submits every handle that the value holds to the worklist of its
    /// slab.
    fn mark_values(&self, queues: &mut WorkQueues)
        requires
            self.can_mark(),
        ensures
            final(queues)@ == self.marked(old(queues)@),
    ;

    /// Moves every handle that the value holds to where compaction puts its
    /// slot.
    fn sweep_values(&mut self, compactions: &CompactionLists)
        requires
            old(self).can_sweep(compactions),
        ensures
            *final(self) == old(self).swept(compactions),
    ;
}

impl HeapMarkAndSweep for OrdinaryObject {
    open spec fn can_mark(&self) -> bool {
        true
    }

    open spec fn marked(&self, queues: WorkQueuesView) -> WorkQueuesView {
        WorkQueuesView { objects: queues.objects.push(self.0), ..queues }
    }

    open spec fn can_sweep(&self, compactions: &CompactionLists) -> bool {
        compactions.objects.is_valid() && self.0@ <= compactions.objects.slots()
    }

    open spec fn swept(&self, compactions: &CompactionLists) -> Self {
        OrdinaryObject(ObjectIndex(compactions.objects.shifted(self.0@) as usize))
    }

    /// Submits this handle to the object worklist.
    fn mark_values(&self, queues: &mut WorkQueues) {
        queues.objects.push(self.0);
    }

    /// Moves this handle down by the number of reclaimed slots before it.
    fn sweep_values(&mut self, compactions: &CompactionLists) {
        compactions.objects.shift_index(&mut self.0.0);
    }
}

impl HeapMarkAndSweep for PrimitiveObject {
    open spec fn can_mark(&self) -> bool {
        true
    }

    open spec fn marked(&self, queues: WorkQueuesView) -> WorkQueuesView {
        WorkQueuesView { primitive_objects: queues.primitive_objects.push(self.0), ..queues }
    }

    open spec fn can_sweep(&self, compactions: &CompactionLists) -> bool {
        compactions.primitive_objects.is_valid() && self.0@ <= compactions.primitive_objects.slots()
    }

    open spec fn swept(&self, compactions: &CompactionLists) -> Self {
        PrimitiveObject(
            PrimitiveObjectIndex(compactions.primitive_objects.shifted(self.0@) as usize),
        )
    }

    /// Submits this handle to the primitive-object worklist.
    fn mark_values(&self, queues: &mut WorkQueues) {
        queues.primitive_objects.push(self.0);
    }

    /// Moves this handle down by the number of reclaimed slots before it.
    fn sweep_values(&mut self, compactions: &CompactionLists) {
        compactions.primitive_objects.shift_index(&mut self.0.0);
    }
}

impl HeapMarkAndSweep for BuiltinFunction {
    open spec fn can_mark(&self) -> bool {
        true
    }

    open spec fn marked(&self, queues: WorkQueuesView) -> WorkQueuesView {
        WorkQueuesView { builtin_functions: queues.builtin_functions.push(self.0), ..queues }
    }

    open spec fn can_sweep(&self, compactions: &CompactionLists) -> bool {
        compactions.builtin_functions.is_valid() && self.0@ <= compactions.builtin_functions.slots()
    }

    open spec fn swept(&self, compactions: &CompactionLists) -> Self {
        BuiltinFunction(
            BuiltinFunctionIndex(compactions.builtin_functions.shifted(self.0@) as usize),
        )
    }

    /// Submits this handle to the function worklist.
    fn mark_values(&self, queues: &mut WorkQueues) {
        queues.builtin_functions.push(self.0);
    }

    /// Moves this handle down by the number of reclaimed slots before it.
    fn sweep_values(&mut self, compactions: &CompactionLists) {
        compactions.builtin_functions.shift_index(&mut self.0.0);
    }
}

impl HeapMarkAndSweep for Array {
    open spec fn can_mark(&self) -> bool {
        true
    }

    open spec fn marked(&self, queues: WorkQueuesView) -> WorkQueuesView {
        WorkQueuesView { arrays: queues.arrays.push(self.0), ..queues }
    }

    open spec fn can_sweep(&self, compactions: &CompactionLists) -> bool {
        compactions.arrays.is_valid() && self.0@ <= compactions.arrays.slots()
    }

    open spec fn swept(&self, compactions: &CompactionLists) -> Self {
        Array(ArrayIndex(compactions.arrays.shifted(self.0@) as usize))
    }

    /// Submits this handle to the array worklist.
    fn mark_values(&self, queues: &mut WorkQueues) {
        queues.arrays.push(self.0);
    }

    /// Moves this handle down by the number of reclaimed slots before it.
    fn sweep_values(&mut self, compactions: &CompactionLists) {
        compactions.arrays.shift_index(&mut self.0.0);
    }
}

impl HeapMarkAndSweep for Object {
    open spec fn can_mark(&self) -> bool {
        true
    }

    open spec fn marked(&self, queues: WorkQueuesView) -> WorkQueuesView {
        match *self {
            Object::Object(object) => object.marked(queues),
            Object::PrimitiveObject(object) => object.marked(queues),
            Object::BuiltinFunction(function) => function.marked(queues),
            Object::Array(array) => array.marked(queues),
        }
    }

    open spec fn can_sweep(&self, compactions: &CompactionLists) -> bool {
        match *self {
            Object::Object(object) => object.can_sweep(compactions),
            Object::PrimitiveObject(object) => object.can_sweep(compactions),
            Object::BuiltinFunction(function) => function.can_sweep(compactions),
            Object::Array(array) => array.can_sweep(compactions),
        }
    }

    open spec fn swept(&self, compactions: &CompactionLists) -> Self {
        match *self {
            Object::Object(object) => Object::Object(object.swept(compactions)),
            Object::PrimitiveObject(object) => Object::PrimitiveObject(object.swept(compactions)),
            Object::BuiltinFunction(function) => Object::BuiltinFunction(
                function.swept(compactions),
            ),
            Object::Array(array) => Object::Array(array.swept(compactions)),
        }
    }

    /// Submits this handle to the worklist of its slab.
    fn mark_values(&self, queues: &mut WorkQueues) {
        match self {
            Object::Object(object) => object.mark_values(queues),
            Object::PrimitiveObject(object) => object.mark_values(queues),
            Object::BuiltinFunction(function) => function.mark_values(queues),
            Object::Array(array) => array.mark_values(queues),
        }
    }

    /// Moves this handle down by the number of reclaimed slots before it.
    fn sweep_values(&mut self, compactions: &CompactionLists) {
        let moved = match *self {
            Object::Object(object) => {
                let mut object = object;
                object.sweep_values(compactions);
                Object::Object(object)
            },
            Object::PrimitiveObject(object) => {
                let mut object = object;
                object.sweep_values(compactions);
                Object::PrimitiveObject(object)
            },
            Object::BuiltinFunction(function) => {
                let mut function = function;
                function.sweep_values(compactions);
                Object::BuiltinFunction(function)
            },
            Object::Array(array) => {
                let mut array = array;
                array.sweep_values(compactions);
                Object::Array(array)
            },
        };
        *self = moved;
    }
}

impl HeapMarkAndSweep for ObjectHeapData {
    open spec fn can_mark(&self) -> bool {
        true
    }

    open spec fn marked(&self, queues: WorkQueuesView) -> WorkQueuesView {
        match self.prototype {
            Some(prototype) => prototype.marked(queues),
            None => queues,
        }
    }

    open spec fn can_sweep(&self, compactions: &CompactionLists) -> bool {
        match self.prototype {
            Some(prototype) => prototype.can_sweep(compactions),
            None => true,
        }
    }

    open spec fn swept(&self, compactions: &CompactionLists) -> Self {
        ObjectHeapData {
            prototype: match self.prototype {
                Some(prototype) => Some(prototype.swept(compactions)),
                None => None,
            },
            ..*self
        }
    }

    /// Submits the `[[Prototype]]` link, if it is not null.
    fn mark_values(&self, queues: &mut WorkQueues) {
        match self.prototype {
            Some(prototype) => prototype.mark_values(queues),
            None => {},
        }
    }

    /// Moves the `[[Prototype]]` link, if it is not null.
    fn sweep_values(&mut self, compactions: &CompactionLists) {
        match self.prototype {
            Some(prototype) => {
                let mut prototype = prototype;
                prototype.sweep_values(compactions);
                self.prototype = Some(prototype);
            },
            None => {},
        }
    }
}

impl HeapMarkAndSweep for PrimitiveObjectHeapData {
    open spec fn can_mark(&self) -> bool {
        true
    }

    open spec fn marked(&self, queues: WorkQueuesView) -> WorkQueuesView {
        match self.object_index {
            Some(object) => object.marked(queues),
            None => queues,
        }
    }

    open spec fn can_sweep(&self, compactions: &CompactionLists) -> bool {
        match self.object_index {
            Some(object) => object.can_sweep(compactions),
            None => true,
        }
    }

    open spec fn swept(&self, compactions: &CompactionLists) -> Self {
        PrimitiveObjectHeapData {
            object_index: match self.object_index {
                Some(object) => Some(object.swept(compactions)),
                None => None,
            },
            ..*self
        }
    }

    /// Submits the property-bag object of the primitive-valued object, if it has one.
    fn mark_values(&self, queues: &mut WorkQueues) {
        match self.object_index {
            Some(object) => object.mark_values(queues),
            None => {},
        }
    }

    /// Moves the handle of the property-bag object, if there is one.
    fn sweep_values(&mut self, compactions: &CompactionLists) {
        match self.object_index {
            Some(object) => {
                let mut object = object;
                object.sweep_values(compactions);
                self.object_index = Some(object);
            },
            None => {},
        }
    }
}

impl HeapMarkAndSweep for BuiltinFunctionHeapData {
    open spec fn can_mark(&self) -> bool {
        true
    }

    open spec fn marked(&self, queues: WorkQueuesView) -> WorkQueuesView {
        match self.object_index {
            Some(object) => object.marked(queues),
            None => queues,
        }
    }

    open spec fn can_sweep(&self, compactions: &CompactionLists) -> bool {
        match self.object_index {
            Some(object) => object.can_sweep(compactions),
            None => true,
        }
    }

    open spec fn swept(&self, compactions: &CompactionLists) -> Self {
        BuiltinFunctionHeapData {
            object_index: match self.object_index {
                Some(object) => Some(object.swept(compactions)),
                None => None,
            },
            ..*self
        }
    }

    /// Submits the property-bag object of the function, if it has one.
    fn mark_values(&self, queues: &mut WorkQueues) {
        match self.object_index {
            Some(object) => object.mark_values(queues),
            None => {},
        }
    }

    /// Moves the handle of the property-bag object, if there is one.
    fn sweep_values(&mut self, compactions: &CompactionLists) {
        match self.object_index {
            Some(object) => {
                let mut object = object;
                object.sweep_values(compactions);
                self.object_index = Some(object);
            },
            None => {},
        }
    }
}

impl HeapMarkAndSweep for ArrayHeapData {
    open spec fn can_mark(&self) -> bool {
        true
    }

    open spec fn marked(&self, queues: WorkQueuesView) -> WorkQueuesView {
        match self.object_index {
            Some(object) => object.marked(queues),
            None => queues,
        }
    }

    open spec fn can_sweep(&self, compactions: &CompactionLists) -> bool {
        match self.object_index {
            Some(object) => object.can_sweep(compactions),
            None => true,
        }
    }

    open spec fn swept(&self, compactions: &CompactionLists) -> Self {
        ArrayHeapData {
            object_index: match self.object_index {
                Some(object) => Some(object.swept(compactions)),
                None => None,
            },
            ..*self
        }
    }

    /// Submits the property-bag object of the array, if it has one.
    fn mark_values(&self, queues: &mut WorkQueues) {
        match self.object_index {
            Some(object) => object.mark_values(queues),
            None => {},
        }
    }

    /// Moves the handle of the property-bag object, if there is one.
    fn sweep_values(&mut self, compactions: &CompactionLists) {
        match self.object_index {
            Some(object) => {
                let mut object = object;
                object.sweep_values(compactions);
                self.object_index = Some(object);
            },
            None => {},
        }
    }
}

/// What a slot holds after its entry, if it has one, has been swept.
pub open spec fn swept_slot<T: HeapMarkAndSweep>(
    slot: Option<T>,
    compactions: &CompactionLists,
) -> Option<T> {
    match slot {
        Some(entry) => Some(entry.swept(compactions)),
        None => None,
    }
}

/// Whether every entry of `slab` can be swept.
pub open spec fn slab_can_sweep<T: HeapMarkAndSweep>(
    slab: Seq<Option<T>>,
    compactions: &CompactionLists,
) -> bool {
    forall|i: int| 0 <= i < slab.len() && slab[i] is Some
        ==> (#[trigger] slab[i]).unwrap().can_sweep(compactions)
}

/// `slab` with every entry swept, each in its place.
pub open spec fn swept_slab<T: HeapMarkAndSweep>(
    slab: Seq<Option<T>>,
    compactions: &CompactionLists,
) -> Seq<Option<T>> {
    Seq::new(slab.len(), |i: int| swept_slot(slab[i], compactions))
}

/// Sweeps every entry of `slab`, each in its place.
pub fn sweep_slab_entries<T: HeapMarkAndSweep + Copy>(
    slab: &mut Vec<Option<T>>,
    compactions: &CompactionLists,
)
    requires
        slab_can_sweep(old(slab)@, compactions),
    ensures
        final(slab)@ == swept_slab(old(slab)@, compactions),
{
    let mut next: usize = 0;
    while next < slab.len()
        invariant
            next <= slab@.len(),
            slab@.len() == old(slab)@.len(),
            slab_can_sweep(old(slab)@, compactions),
            forall|i: int| 0 <= i < next ==> #[trigger] slab@[i]
                == swept_slot(old(slab)@[i], compactions),
            forall|i: int| next <= i < slab@.len() ==> #[trigger] slab@[i] == old(slab)@[i],
        decreases slab@.len() - next,
    {
        let slot: Option<T> = slab[next];
        match slot {
            Some(entry) => {
                let mut entry = entry;
                assert(old(slab)@[next as int].unwrap().can_sweep(compactions));
                entry.sweep_values(compactions);
                slab[next] = Some(entry);
            },
            None => {},
        }
        next = next + 1;
    }
    assert(slab@ =~= swept_slab(old(slab)@, compactions));
}

impl Intrinsics {
    /// The object slots of this realm, in slab order.
    pub open spec fn object_roots(&self) -> Seq<ObjectIndex> {
        Seq::new(
            intrinsic_object_count() as nat,
            |i: int| ObjectIndex((self.object_index_base@ + i) as usize),
        )
    }

    /// The primitive-object slots of this realm, in slab order.
    pub open spec fn primitive_object_roots(&self) -> Seq<PrimitiveObjectIndex> {
        Seq::new(
            intrinsic_primitive_object_count() as nat,
            |i: int| PrimitiveObjectIndex((self.primitive_object_index_base@ + i) as usize),
        )
    }

    /// The function slots of this realm, in slab order.
    pub open spec fn builtin_function_roots(&self) -> Seq<BuiltinFunctionIndex> {
        Seq::new(
            intrinsic_function_count() as nat,
            |i: int| BuiltinFunctionIndex((self.builtin_function_index_base@ + i) as usize),
        )
    }

    /// Marking submits the handle of every built-in: whatever name is asked
    /// for, its handle is on the worklist of its slab afterwards, and so is
    /// everything that was there before.
    pub proof fn lemma_mark_values_covers(&self, queues: WorkQueuesView)
        requires
            self.is_valid(),
        ensures
            forall|name: IntrinsicObjectIndexes|
                self.marked(queues).objects.contains(
                    #[trigger] self.intrinsic_object(name).0,
                ),
            forall|name: IntrinsicPrimitiveObjectIndexes|
                self.marked(queues).primitive_objects.contains(
                    #[trigger] self.intrinsic_primitive_object(name).0,
                ),
            forall|name: IntrinsicPrimitiveObjectIndexes|
                self.marked(queues).objects.contains(
                    #[trigger] self.intrinsic_primitive_base_object(name),
                ),
            forall|name: IntrinsicConstructorIndexes|
                self.marked(queues).builtin_functions.contains(
                    #[trigger] self.intrinsic_constructor(name).0,
                ),
            forall|name: IntrinsicConstructorIndexes|
                self.marked(queues).objects.contains(
                    #[trigger] self.intrinsic_constructor_base_object(name),
                ),
            forall|name: IntrinsicFunctionIndexes|
                self.marked(queues).builtin_functions.contains(
                    #[trigger] self.intrinsic_function(name).0,
                ),
            self.marked(queues).arrays.contains(self.array_prototype.0),
            forall|object: Object|
                queues.holds(object) ==> #[trigger] self.marked(queues).holds(object),
    {
        let after = self.marked(queues);
        let objects = queues.objects.len() as int;
        let primitive_objects = queues.primitive_objects.len() as int;
        let builtin_functions = queues.builtin_functions.len() as int;
        assert forall|name: IntrinsicObjectIndexes|
            after.objects.contains(#[trigger] self.intrinsic_object(name).0) by {
            name.lemma_ordinal_round_trip();
            assert(after.objects[objects + name.object_offset()] == self.intrinsic_object(name).0);
        }
        assert forall|name: IntrinsicPrimitiveObjectIndexes|
            after.primitive_objects.contains(
                #[trigger] self.intrinsic_primitive_object(name).0,
            ) by {
            name.lemma_ordinal_round_trip();
            assert(after.primitive_objects[primitive_objects + name.primitive_object_offset()]
                == self.intrinsic_primitive_object(name).0);
        }
        assert forall|name: IntrinsicPrimitiveObjectIndexes|
            after.objects.contains(#[trigger] self.intrinsic_primitive_base_object(name)) by {
            name.lemma_ordinal_round_trip();
            assert(after.objects[objects + name.object_offset()]
                == self.intrinsic_primitive_base_object(name));
        }
        assert forall|name: IntrinsicConstructorIndexes|
            after.builtin_functions.contains(#[trigger] self.intrinsic_constructor(name).0) by {
            name.lemma_ordinal_round_trip();
            assert(after.builtin_functions[builtin_functions + name.builtin_function_offset()]
                == self.intrinsic_constructor(name).0);
        }
        assert forall|name: IntrinsicConstructorIndexes|
            after.objects.contains(#[trigger] self.intrinsic_constructor_base_object(name)) by {
            name.lemma_ordinal_round_trip();
            assert(after.objects[objects + name.object_offset()]
                == self.intrinsic_constructor_base_object(name));
        }
        assert forall|name: IntrinsicFunctionIndexes|
            after.builtin_functions.contains(#[trigger] self.intrinsic_function(name).0) by {
            name.lemma_ordinal_round_trip();
            assert(after.builtin_functions[builtin_functions + name.builtin_function_offset()]
                == self.intrinsic_function(name).0);
        }
        assert(after.arrays[queues.arrays.len() as int] == self.array_prototype.0);
        assert forall|object: Object| queues.holds(object) implies #[trigger] after.holds(
            object,
        ) by {
            match object {
                Object::Object(o) => {
                    let i = choose|i: int| 0 <= i < queues.objects.len() && queues.objects[i]
                        == o.0;
                    assert(after.objects[i] == o.0);
                },
                Object::PrimitiveObject(p) => {
                    let i = choose|i: int|
                        0 <= i < queues.primitive_objects.len() && queues.primitive_objects[i]
                            == p.0;
                    assert(after.primitive_objects[i] == p.0);
                },
                Object::BuiltinFunction(f) => {
                    let i = choose|i: int|
                        0 <= i < queues.builtin_functions.len() && queues.builtin_functions[i]
                            == f.0;
                    assert(after.builtin_functions[i] == f.0);
                },
                Object::Array(a) => {
                    let i = choose|i: int| 0 <= i < queues.arrays.len() && queues.arrays[i] == a.0;
                    assert(after.arrays[i] == a.0);
                },
            }
        }
    }

    /// What marking puts on smaller worklists, it puts on larger ones.
    pub proof fn lemma_mark_values_extends(
        &self,
        fewer: WorkQueuesView,
        more: WorkQueuesView,
        object: Object,
    )
        requires
            self.marked(fewer).holds(object),
            forall|other: Object| fewer.holds(other) ==> #[trigger] more.holds(other),
        ensures
            self.marked(more).holds(object),
    {
        let before = self.marked(fewer);
        let after = self.marked(more);
        match object {
            Object::Object(o) => {
                let i = choose|i: int| 0 <= i < before.objects.len() && before.objects[i] == o.0;
                if i < fewer.objects.len() {
                    assert(fewer.objects[i] == o.0);
                    assert(fewer.holds(object));
                    assert(more.holds(object));
                    let j = choose|j: int| 0 <= j < more.objects.len() && more.objects[j] == o.0;
                    assert(after.objects[j] == o.0);
                } else {
                    assert(after.objects[more.objects.len() + i - fewer.objects.len()] == o.0);
                }
            },
            Object::PrimitiveObject(p) => {
                let i = choose|i: int|
                    0 <= i < before.primitive_objects.len() && before.primitive_objects[i] == p.0;
                if i < fewer.primitive_objects.len() {
                    assert(fewer.primitive_objects[i] == p.0);
                    assert(fewer.holds(object));
                    assert(more.holds(object));
                    let j = choose|j: int|
                        0 <= j < more.primitive_objects.len() && more.primitive_objects[j] == p.0;
                    assert(after.primitive_objects[j] == p.0);
                } else {
                    assert(after.primitive_objects[more.primitive_objects.len() + i
                        - fewer.primitive_objects.len()] == p.0);
                }
            },
            Object::BuiltinFunction(f) => {
                let i = choose|i: int|
                    0 <= i < before.builtin_functions.len() && before.builtin_functions[i] == f.0;
                if i < fewer.builtin_functions.len() {
                    assert(fewer.builtin_functions[i] == f.0);
                    assert(fewer.holds(object));
                    assert(more.holds(object));
                    let j = choose|j: int|
                        0 <= j < more.builtin_functions.len() && more.builtin_functions[j] == f.0;
                    assert(after.builtin_functions[j] == f.0);
                } else {
                    assert(after.builtin_functions[more.builtin_functions.len() + i
                        - fewer.builtin_functions.len()] == f.0);
                }
            },
            Object::Array(a) => {
                let i = choose|i: int| 0 <= i < before.arrays.len() && before.arrays[i] == a.0;
                if i < fewer.arrays.len() {
                    assert(fewer.arrays[i] == a.0);
                    assert(fewer.holds(object));
                    assert(more.holds(object));
                    let j = choose|j: int| 0 <= j < more.arrays.len() && more.arrays[j] == a.0;
                    assert(after.arrays[j] == a.0);
                } else {
                    assert(after.arrays[more.arrays.len() as int] == a.0);
                }
            },
        }
    }

    /// Marking puts nothing on the worklists but slots of the realm: what
    /// is there afterwards was there before or is owned by the realm.
    pub proof fn lemma_mark_values_origin(&self, queues: WorkQueuesView, object: Object)
        requires
            self.is_valid(),
            self.marked(queues).holds(object),
        ensures
            queues.holds(object) || self.owns(object),
    {
        let after = self.marked(queues);
        match object {
            Object::Object(o) => {
                let i = choose|i: int| 0 <= i < after.objects.len() && after.objects[i] == o.0;
                if i < queues.objects.len() {
                    assert(queues.objects[i] == o.0);
                }
            },
            Object::PrimitiveObject(p) => {
                let i = choose|i: int|
                    0 <= i < after.primitive_objects.len() && after.primitive_objects[i] == p.0;
                if i < queues.primitive_objects.len() {
                    assert(queues.primitive_objects[i] == p.0);
                }
            },
            Object::BuiltinFunction(f) => {
                let i = choose|i: int|
                    0 <= i < after.builtin_functions.len() && after.builtin_functions[i] == f.0;
                if i < queues.builtin_functions.len() {
                    assert(queues.builtin_functions[i] == f.0);
                }
            },
            Object::Array(a) => {
                let i = choose|i: int| 0 <= i < after.arrays.len() && after.arrays[i] == a.0;
                if i < queues.arrays.len() {
                    assert(queues.arrays[i] == a.0);
                }
            },
        }
    }

    /// Marking a registry a second time adds no root: the worklists hold the
    /// same set of handles as after the first time.
    pub proof fn lemma_mark_values_idempotent(&self, queues: WorkQueuesView)
        ensures
            self.marked(self.marked(queues)).same_reachable(
                self.marked(queues),
            ),
    {
        let once = self.marked(queues);
        let twice = self.marked(once);
        lemma_append_again(queues.objects, self.object_roots());
        lemma_append_again(queues.primitive_objects, self.primitive_object_roots());
        lemma_append_again(queues.builtin_functions, self.builtin_function_roots());
        lemma_append_again(queues.arrays, seq![self.array_prototype.0]);
        assert(once.arrays =~= queues.arrays + seq![self.array_prototype.0]);
        assert(twice.arrays =~= queues.arrays + seq![self.array_prototype.0]
            + seq![self.array_prototype.0]);
    }
}

impl HeapMarkAndSweep for Intrinsics {
    /// A registry can be marked once its ranges are valid.
    open spec fn can_mark(&self) -> bool {
        self.is_valid()
    }

    /// The worklists after this registry has been marked.
    open spec fn marked(&self, queues: WorkQueuesView) -> WorkQueuesView {
        WorkQueuesView {
            objects: queues.objects + self.object_roots(),
            primitive_objects: queues.primitive_objects + self.primitive_object_roots(),
            builtin_functions: queues.builtin_functions + self.builtin_function_roots(),
            arrays: queues.arrays.push(self.array_prototype.0),
        }
    }

    /// Submits every slot that this realm reserved to the worklist of its
    /// slab, after what the worklists already hold: the whole object range,
    /// the whole primitive-object range, the whole function range, and
    /// `Array.prototype`.
    fn mark_values(&self, queues: &mut WorkQueues)
    {
        let object_base: usize = self.object_index_base.into_index();
        let mut i: usize = 0;
        while i < intrinsic_object_count()
            invariant
                i <= intrinsic_object_count(),
                self.is_valid(),
                object_base == self.object_index_base@,
                queues.objects@ == old(queues).objects@ + self.object_roots().take(i as int),
                queues.primitive_objects@ == old(queues).primitive_objects@,
                queues.builtin_functions@ == old(queues).builtin_functions@,
                queues.arrays@ == old(queues).arrays@,
            decreases intrinsic_object_count() - i,
        {
            OrdinaryObject(ObjectIndex::from_index(object_base + i)).mark_values(queues);
            i = i + 1;
            assert(queues.objects@ =~= old(queues).objects@ + self.object_roots().take(i as int));
        }
        assert(self.object_roots().take(i as int) =~= self.object_roots());
        let primitive_object_base: usize = self.primitive_object_index_base.into_index();
        let mut i: usize = 0;
        while i < intrinsic_primitive_object_count()
            invariant
                i <= intrinsic_primitive_object_count(),
                self.is_valid(),
                primitive_object_base == self.primitive_object_index_base@,
                queues.objects@ == old(queues).objects@ + self.object_roots(),
                queues.primitive_objects@ == old(queues).primitive_objects@
                    + self.primitive_object_roots().take(i as int),
                queues.builtin_functions@ == old(queues).builtin_functions@,
                queues.arrays@ == old(queues).arrays@,
            decreases intrinsic_primitive_object_count() - i,
        {
            PrimitiveObject(
                PrimitiveObjectIndex::from_index(primitive_object_base + i),
            ).mark_values(queues);
            i = i + 1;
            assert(queues.primitive_objects@ =~= old(queues).primitive_objects@
                + self.primitive_object_roots().take(i as int));
        }
        assert(self.primitive_object_roots().take(i as int) =~= self.primitive_object_roots());
        let builtin_function_base: usize = self.builtin_function_index_base.into_index();
        let mut i: usize = 0;
        while i < intrinsic_function_count()
            invariant
                i <= intrinsic_function_count(),
                self.is_valid(),
                builtin_function_base == self.builtin_function_index_base@,
                queues.objects@ == old(queues).objects@ + self.object_roots(),
                queues.primitive_objects@ == old(queues).primitive_objects@
                    + self.primitive_object_roots(),
                queues.builtin_functions@ == old(queues).builtin_functions@
                    + self.builtin_function_roots().take(i as int),
                queues.arrays@ == old(queues).arrays@,
            decreases intrinsic_function_count() - i,
        {
            BuiltinFunction(
                BuiltinFunctionIndex::from_index(builtin_function_base + i),
            ).mark_values(queues);
            i = i + 1;
            assert(queues.builtin_functions@ =~= old(queues).builtin_functions@
                + self.builtin_function_roots().take(i as int));
        }
        assert(self.builtin_function_roots().take(i as int) =~= self.builtin_function_roots());
        self.array_prototype.mark_values(queues);
    }

    /// A registry can be swept by lists that are valid and were made for
    /// slabs that hold its ranges.
    open spec fn can_sweep(&self, compactions: &CompactionLists) -> bool {
        compactions.is_valid() && self.within(compactions)
    }

    /// This registry after `compactions`: every base, and the handle of
    /// `Array.prototype`, less the reclaimed slots before it.
    open spec fn swept(&self, compactions: &CompactionLists) -> Self {
        Intrinsics {
            object_index_base: ObjectIndex(
                compactions.objects.shifted(self.object_index_base@) as usize,
            ),
            primitive_object_index_base: PrimitiveObjectIndex(
                compactions.primitive_objects.shifted(self.primitive_object_index_base@) as usize,
            ),
            array_prototype: Array(
                ArrayIndex(compactions.arrays.shifted(self.array_prototype.0@) as usize),
            ),
            builtin_function_index_base: BuiltinFunctionIndex(
                compactions.builtin_functions.shifted(self.builtin_function_index_base@) as usize,
            ),
        }
    }

    /// Rewrites the three bases and the handle of `Array.prototype` for a
    /// compaction: each moves down by the number of reclaimed slots before
    /// it. Nothing else is needed to find every built-in again.
    fn sweep_values(&mut self, compactions: &CompactionLists)
        ensures
            final(self).is_valid(),
    {
        assert(compactions.objects.shifts@.len() == compactions.objects.shifts.len());
        assert(compactions.primitive_objects.shifts@.len()
            == compactions.primitive_objects.shifts.len());
        assert(compactions.builtin_functions.shifts@.len()
            == compactions.builtin_functions.shifts.len());
        let mut object_base = OrdinaryObject(self.object_index_base);
        object_base.sweep_values(compactions);
        self.object_index_base = object_base.0;
        let mut builtin_function_base = BuiltinFunction(self.builtin_function_index_base);
        builtin_function_base.sweep_values(compactions);
        self.builtin_function_index_base = builtin_function_base.0;
        compactions.primitive_objects.shift_index(&mut self.primitive_object_index_base.0);
        self.array_prototype.sweep_values(compactions);
    }
}

impl CompactionLists {
    /// The lists were made for the slabs of `heap`: one position per slot.
    pub open spec fn made_for(&self, heap: &Heap) -> bool {
        &&& self.objects.slots() == heap.objects@.len()
        &&& self.primitive_objects.slots() == heap.primitive_objects@.len()
        &&& self.builtin_functions.slots() == heap.builtin_functions@.len()
        &&& self.arrays.slots() == heap.arrays@.len()
    }
}

impl Heap {
    /// Whether this heap is `before` with the reclaimed slots of every slab
    /// dropped. The realms are the same.
    pub open spec fn is_compaction_of(&self, before: &Heap, compactions: &CompactionLists) -> bool {
        &&& self.objects@ == compactions.objects.compacted(before.objects@)
        &&& self.primitive_objects@ == compactions.primitive_objects.compacted(
            before.primitive_objects@,
        )
        &&& self.builtin_functions@ == compactions.builtin_functions.compacted(
            before.builtin_functions@,
        )
        &&& self.arrays@ == compactions.arrays.compacted(before.arrays@)
        &&& self.realms@ == before.realms@
    }

    /// Drops the reclaimed slots of every slab and moves the survivors down.
    /// The registries of the realms are left as they are: each is swept by
    /// its own `sweep_values`.
    pub fn compact(&mut self, compactions: &CompactionLists)
        requires
            compactions.is_valid(),
            compactions.made_for(old(self)),
        ensures
            final(self).is_compaction_of(old(self), compactions),
    {
        compact_slab(&mut self.objects, &compactions.objects);
        compact_slab(&mut self.primitive_objects, &compactions.primitive_objects);
        compact_slab(&mut self.builtin_functions, &compactions.builtin_functions);
        compact_slab(&mut self.arrays, &compactions.arrays);
    }
}

impl Intrinsics {
    /// The reserved ranges lie within the slabs that `compactions` was made
    /// for.
    pub open spec fn within(&self, compactions: &CompactionLists) -> bool {
        &&& self.object_index_base@ + intrinsic_object_count() <= compactions.objects.slots()
        &&& self.primitive_object_index_base@ + intrinsic_primitive_object_count()
            <= compactions.primitive_objects.slots()
        &&& self.builtin_function_index_base@ + intrinsic_function_count()
            <= compactions.builtin_functions.slots()
        &&& self.array_prototype.0@ < compactions.arrays.slots()
    }

    /// Every slot that this realm reserved survives `compactions`.
    pub open spec fn retained_by(&self, compactions: &CompactionLists) -> bool {
        &&& compactions.objects.retains(self.object_index_base@, intrinsic_object_count() as int)
        &&& compactions.primitive_objects.retains(
            self.primitive_object_index_base@,
            intrinsic_primitive_object_count() as int,
        )
        &&& compactions.builtin_functions.retains(
            self.builtin_function_index_base@,
            intrinsic_function_count() as int,
        )
        &&& compactions.arrays.retains(self.array_prototype.0@, 1)
    }

    /// Compaction preserves identity: if every slot of the realm survives,
    /// the swept registry resolves every name to the slot that holds what
    /// the name's slot held before.
    pub proof fn lemma_sweep_preserves_identity(
        &self,
        compactions: &CompactionLists,
        before: &Heap,
        after: &Heap,
    )
        requires
            compactions.is_valid(),
            compactions.made_for(before),
            self.reserved_in(before),
            self.retained_by(compactions),
            after.is_compaction_of(before, compactions),
        ensures
            self.swept(compactions).reserved_in(after),
            forall|name: IntrinsicObjectIndexes|
                after.objects@[(#[trigger] self.swept(compactions).intrinsic_object(
                    name,
                )).0@] == before.objects@[self.intrinsic_object(name).0@],
            forall|name: IntrinsicPrimitiveObjectIndexes|
                after.primitive_objects@[(#[trigger] self.swept(
                    compactions,
                ).intrinsic_primitive_object(name)).0@]
                    == before.primitive_objects@[self.intrinsic_primitive_object(name).0@],
            forall|name: IntrinsicPrimitiveObjectIndexes|
                after.objects@[(#[trigger] self.swept(
                    compactions,
                ).intrinsic_primitive_base_object(name))@]
                    == before.objects@[self.intrinsic_primitive_base_object(name)@],
            forall|name: IntrinsicConstructorIndexes|
                after.builtin_functions@[(#[trigger] self.swept(
                    compactions,
                ).intrinsic_constructor(name)).0@]
                    == before.builtin_functions@[self.intrinsic_constructor(name).0@],
            forall|name: IntrinsicConstructorIndexes|
                after.objects@[(#[trigger] self.swept(
                    compactions,
                ).intrinsic_constructor_base_object(name))@]
                    == before.objects@[self.intrinsic_constructor_base_object(name)@],
            forall|name: IntrinsicFunctionIndexes|
                after.builtin_functions@[(#[trigger] self.swept(
                    compactions,
                ).intrinsic_function(name)).0@]
                    == before.builtin_functions@[self.intrinsic_function(name).0@],
            after.arrays@[self.swept(compactions).array_prototype.0@]
                == before.arrays@[self.array_prototype.0@],
    {
        let swept = self.swept(compactions);
        assert(before.objects@.len() == before.objects.len());
        assert(before.primitive_objects@.len() == before.primitive_objects.len());
        assert(before.builtin_functions@.len() == before.builtin_functions.len());
        assert(before.arrays@.len() == before.arrays.len());
        let objects = intrinsic_object_count() as int;
        let primitive_objects = intrinsic_primitive_object_count() as int;
        let builtin_functions = intrinsic_function_count() as int;
        let object_base = self.object_index_base@;
        let primitive_object_base = self.primitive_object_index_base@;
        let builtin_function_base = self.builtin_function_index_base@;
        compactions.objects.lemma_compaction_keeps_run(
            before.objects@,
            object_base,
            objects,
            objects - 1,
        );
        compactions.primitive_objects.lemma_compaction_keeps_run(
            before.primitive_objects@,
            primitive_object_base,
            primitive_objects,
            primitive_objects - 1,
        );
        compactions.builtin_functions.lemma_compaction_keeps_run(
            before.builtin_functions@,
            builtin_function_base,
            builtin_functions,
            builtin_functions - 1,
        );
        compactions.arrays.lemma_compaction_keeps_run(
            before.arrays@,
            self.array_prototype.0@,
            1,
            0,
        );
        assert(compactions.objects.shifts@[object_base] <= object_base);
        assert(compactions.primitive_objects.shifts@[primitive_object_base]
            <= primitive_object_base);
        assert(compactions.builtin_functions.shifts@[builtin_function_base]
            <= builtin_function_base);
        assert(compactions.arrays.shifts@[self.array_prototype.0@] <= self.array_prototype.0@);
        assert forall|name: IntrinsicObjectIndexes|
            after.objects@[(#[trigger] swept.intrinsic_object(name)).0@]
                == before.objects@[self.intrinsic_object(name).0@] by {
            name.lemma_ordinal_round_trip();
            compactions.objects.lemma_compaction_keeps_run(
                before.objects@,
                object_base,
                objects,
                name.object_offset(),
            );
        }
        assert forall|name: IntrinsicPrimitiveObjectIndexes|
            after.primitive_objects@[(#[trigger] swept.intrinsic_primitive_object(name)).0@]
                == before.primitive_objects@[self.intrinsic_primitive_object(name).0@] by {
            name.lemma_ordinal_round_trip();
            compactions.primitive_objects.lemma_compaction_keeps_run(
                before.primitive_objects@,
                primitive_object_base,
                primitive_objects,
                name.primitive_object_offset(),
            );
        }
        assert forall|name: IntrinsicPrimitiveObjectIndexes|
            after.objects@[(#[trigger] swept.intrinsic_primitive_base_object(name))@]
                == before.objects@[self.intrinsic_primitive_base_object(name)@] by {
            name.lemma_ordinal_round_trip();
            compactions.objects.lemma_compaction_keeps_run(
                before.objects@,
                object_base,
                objects,
                name.object_offset(),
            );
        }
        assert forall|name: IntrinsicConstructorIndexes|
            after.builtin_functions@[(#[trigger] swept.intrinsic_constructor(name)).0@]
                == before.builtin_functions@[self.intrinsic_constructor(name).0@] by {
            name.lemma_ordinal_round_trip();
            compactions.builtin_functions.lemma_compaction_keeps_run(
                before.builtin_functions@,
                builtin_function_base,
                builtin_functions,
                name.builtin_function_offset(),
            );
        }
        assert forall|name: IntrinsicConstructorIndexes|
            after.objects@[(#[trigger] swept.intrinsic_constructor_base_object(name))@]
                == before.objects@[self.intrinsic_constructor_base_object(name)@] by {
            name.lemma_ordinal_round_trip();
            compactions.objects.lemma_compaction_keeps_run(
                before.objects@,
                object_base,
                objects,
                name.object_offset(),
            );
        }
        assert forall|name: IntrinsicFunctionIndexes|
            after.builtin_functions@[(#[trigger] swept.intrinsic_function(name)).0@]
                == before.builtin_functions@[self.intrinsic_function(name).0@] by {
            name.lemma_ordinal_round_trip();
            compactions.builtin_functions.lemma_compaction_keeps_run(
                before.builtin_functions@,
                builtin_function_base,
                builtin_functions,
                name.builtin_function_offset(),
            );
        }
    }
}

/// Appending a sequence a second time adds no element.
proof fn lemma_append_again<T>(queue: Seq<T>, roots: Seq<T>)
    ensures
        (queue + roots + roots).to_set() == (queue + roots).to_set(),
{
    let once = queue + roots;
    let twice = queue + roots + roots;
    assert forall|x: T| twice.to_set().contains(x) <==> once.to_set().contains(x) by {
        if twice.contains(x) {
            let i = choose|i: int| 0 <= i < twice.len() && twice[i] == x;
            if i < once.len() {
                assert(once[i] == x);
            } else {
                assert(once[i - roots.len()] == x);
            }
        }
        if once.contains(x) {
            let i = choose|i: int| 0 <= i < once.len() && once[i] == x;
            assert(twice[i] == x);
        }
    }
    assert(twice.to_set() =~= once.to_set());
}

} // verus!
