//! The per-realm registry of well-known built-ins.
//!
//! A registry holds one base index per slab and the handle of the one
//! built-in that is an Array exotic object. Every other built-in is found by
//! adding its fixed offset to the base of its slab.

use vstd::prelude::*;
use crate::heap::{empty_slots, reserve_slots, Agent, Heap};
use crate::heap_constants::{
    intrinsic_function_count, intrinsic_object_count, intrinsic_primitive_object_count,
    IntrinsicConstructorIndexes, IntrinsicFunctionIndexes, IntrinsicObjectIndexes,
    IntrinsicPrimitiveObjectIndexes,
};
use crate::indexes::{
    Array, ArrayIndex, BuiltinFunction, BuiltinFunctionIndex, ObjectIndex, OrdinaryObject,
    PrimitiveObject, PrimitiveObjectIndex,
};

verus! {

/// The registry of one realm.
#[derive(Clone, Copy, Debug, PartialEq, Eq, Structural)]
pub struct Intrinsics {
    /// First object slot that the realm reserved.
    pub object_index_base: ObjectIndex,
    /// First primitive-object slot that the realm reserved.
    pub primitive_object_index_base: PrimitiveObjectIndex,
    /// `Array.prototype` is the one built-in that is an Array exotic object,
    /// so its handle is held as it is and the array slab needs no base.
    pub array_prototype: Array,
    /// First function slot that the realm reserved.
    pub builtin_function_index_base: BuiltinFunctionIndex,
}

impl Intrinsics {
    /// The reserved ranges end within the range of an index, so that no
    /// `base + offset` overflows.
    pub open spec fn is_valid(&self) -> bool {
        &&& self.object_index_base@ + intrinsic_object_count() <= usize::MAX
        &&& self.primitive_object_index_base@ + intrinsic_primitive_object_count() <= usize::MAX
        &&& self.builtin_function_index_base@ + intrinsic_function_count() <= usize::MAX
    }

    /// The reserved ranges lie within the slabs of `heap`.
    pub open spec fn reserved_in(&self, heap: &Heap) -> bool {
        &&& self.object_index_base@ + intrinsic_object_count() <= heap.objects@.len()
        &&& self.primitive_object_index_base@ + intrinsic_primitive_object_count()
            <= heap.primitive_objects@.len()
        &&& self.builtin_function_index_base@ + intrinsic_function_count()
            <= heap.builtin_functions@.len()
        &&& self.array_prototype.0@ < heap.arrays@.len()
    }

    /// The ranges start where the slabs of `heap` end: what a registry made
    /// on `heap` holds.
    pub open spec fn starts_at_end_of(&self, heap: &Heap) -> bool {
        &&& self.object_index_base@ == heap.objects@.len()
        &&& self.primitive_object_index_base@ == heap.primitive_objects@.len()
        &&& self.builtin_function_index_base@ == heap.builtin_functions@.len()
        &&& self.array_prototype.0@ == heap.arrays@.len()
    }

    /// The handle of the ordinary-object built-in `name`.
    pub open spec fn intrinsic_object(&self, name: IntrinsicObjectIndexes) -> OrdinaryObject {
        OrdinaryObject(ObjectIndex((self.object_index_base@ + name.object_offset()) as usize))
    }

    /// The handle of the primitive-valued built-in `name`.
    pub open spec fn intrinsic_primitive_object(
        &self,
        name: IntrinsicPrimitiveObjectIndexes,
    ) -> PrimitiveObject {
        PrimitiveObject(
            PrimitiveObjectIndex(
                (self.primitive_object_index_base@ + name.primitive_object_offset()) as usize,
            ),
        )
    }

    /// The object slot of the property-bag object of the primitive-valued
    /// built-in `name`.
    pub open spec fn intrinsic_primitive_base_object(
        &self,
        name: IntrinsicPrimitiveObjectIndexes,
    ) -> ObjectIndex {
        ObjectIndex((self.object_index_base@ + name.object_offset()) as usize)
    }

    /// The handle of the constructor `name`.
    pub open spec fn intrinsic_constructor(
        &self,
        name: IntrinsicConstructorIndexes,
    ) -> BuiltinFunction {
        BuiltinFunction(
            BuiltinFunctionIndex(
                (self.builtin_function_index_base@ + name.builtin_function_offset()) as usize,
            ),
        )
    }

    /// The object slot of the property-bag object of the constructor `name`.
    pub open spec fn intrinsic_constructor_base_object(
        &self,
        name: IntrinsicConstructorIndexes,
    ) -> ObjectIndex {
        ObjectIndex((self.object_index_base@ + name.object_offset()) as usize)
    }

    /// The handle of the plain built-in function `name`.
    pub open spec fn intrinsic_function(&self, name: IntrinsicFunctionIndexes) -> BuiltinFunction {
        BuiltinFunction(
            BuiltinFunctionIndex(
                (self.builtin_function_index_base@ + name.builtin_function_offset()) as usize,
            ),
        )
    }

    /// No slot of this registry is a slot of `other`.
    pub open spec fn disjoint_from(&self, other: &Intrinsics) -> bool {
        &&& (self.object_index_base@ + intrinsic_object_count() <= other.object_index_base@
            || other.object_index_base@ + intrinsic_object_count() <= self.object_index_base@)
        &&& (self.primitive_object_index_base@ + intrinsic_primitive_object_count()
            <= other.primitive_object_index_base@ || other.primitive_object_index_base@
            + intrinsic_primitive_object_count() <= self.primitive_object_index_base@)
        &&& (self.builtin_function_index_base@ + intrinsic_function_count()
            <= other.builtin_function_index_base@ || other.builtin_function_index_base@
            + intrinsic_function_count() <= self.builtin_function_index_base@)
        &&& self.array_prototype != other.array_prototype
    }

    /// A registry made on a heap shares no slot with a registry whose slots
    /// that heap already holds: two realms of one heap never resolve a name
    /// to the same slot, whichever two names are asked for.
    pub proof fn lemma_realms_disjoint(&self, later: &Intrinsics, heap: &Heap)
        requires
            self.reserved_in(heap),
            later.starts_at_end_of(heap),
            later.is_valid(),
        ensures
            self.disjoint_from(later),
            forall|a: IntrinsicObjectIndexes, b: IntrinsicObjectIndexes|
                #[trigger] self.intrinsic_object(a) != #[trigger] later.intrinsic_object(b),
            forall|a: IntrinsicPrimitiveObjectIndexes, b: IntrinsicPrimitiveObjectIndexes|
                #[trigger] self.intrinsic_primitive_object(a)
                    != #[trigger] later.intrinsic_primitive_object(b),
            forall|a: IntrinsicConstructorIndexes, b: IntrinsicConstructorIndexes|
                #[trigger] self.intrinsic_constructor(a) != #[trigger] later.intrinsic_constructor(
                    b,
                ),
            forall|a: IntrinsicFunctionIndexes, b: IntrinsicFunctionIndexes|
                #[trigger] self.intrinsic_function(a) != #[trigger] later.intrinsic_function(b),
            forall|a: IntrinsicConstructorIndexes, b: IntrinsicFunctionIndexes|
                #[trigger] self.intrinsic_constructor(a) != #[trigger] later.intrinsic_function(b),
            forall|a: IntrinsicFunctionIndexes, b: IntrinsicConstructorIndexes|
                #[trigger] self.intrinsic_function(a) != #[trigger] later.intrinsic_constructor(b),
            forall|a: IntrinsicConstructorIndexes, b: IntrinsicConstructorIndexes|
                #[trigger] self.intrinsic_constructor_base_object(a)
                    != #[trigger] later.intrinsic_constructor_base_object(b),
            forall|a: IntrinsicPrimitiveObjectIndexes, b: IntrinsicPrimitiveObjectIndexes|
                #[trigger] self.intrinsic_primitive_base_object(a)
                    != #[trigger] later.intrinsic_primitive_base_object(b),
    {
        assert(heap.objects@.len() == heap.objects.len());
        assert(heap.primitive_objects@.len() == heap.primitive_objects.len());
        assert(heap.builtin_functions@.len() == heap.builtin_functions.len());
        assert forall|a: IntrinsicObjectIndexes, b: IntrinsicObjectIndexes|
            #[trigger] self.intrinsic_object(a) != #[trigger] later.intrinsic_object(b) by {
            a.lemma_ordinal_round_trip();
            b.lemma_ordinal_round_trip();
        }
        assert forall|a: IntrinsicPrimitiveObjectIndexes, b: IntrinsicPrimitiveObjectIndexes|
            #[trigger] self.intrinsic_primitive_object(a)
                != #[trigger] later.intrinsic_primitive_object(b) by {
            a.lemma_ordinal_round_trip();
            b.lemma_ordinal_round_trip();
        }
        assert forall|a: IntrinsicConstructorIndexes, b: IntrinsicConstructorIndexes|
            #[trigger] self.intrinsic_constructor(a) != #[trigger] later.intrinsic_constructor(
                b,
            ) by {
            a.lemma_ordinal_round_trip();
            b.lemma_ordinal_round_trip();
        }
        assert forall|a: IntrinsicFunctionIndexes, b: IntrinsicFunctionIndexes|
            #[trigger] self.intrinsic_function(a) != #[trigger] later.intrinsic_function(b) by {
            a.lemma_ordinal_round_trip();
            b.lemma_ordinal_round_trip();
        }
        assert forall|a: IntrinsicConstructorIndexes, b: IntrinsicFunctionIndexes|
            #[trigger] self.intrinsic_constructor(a) != #[trigger] later.intrinsic_function(b) by {
            a.lemma_ordinal_round_trip();
            b.lemma_ordinal_round_trip();
        }
        assert forall|a: IntrinsicFunctionIndexes, b: IntrinsicConstructorIndexes|
            #[trigger] self.intrinsic_function(a) != #[trigger] later.intrinsic_constructor(b) by {
            a.lemma_ordinal_round_trip();
            b.lemma_ordinal_round_trip();
        }
        assert forall|a: IntrinsicConstructorIndexes, b: IntrinsicConstructorIndexes|
            #[trigger] self.intrinsic_constructor_base_object(a)
                != #[trigger] later.intrinsic_constructor_base_object(b) by {
            a.lemma_ordinal_round_trip();
            b.lemma_ordinal_round_trip();
        }
        assert forall|a: IntrinsicPrimitiveObjectIndexes, b: IntrinsicPrimitiveObjectIndexes|
            #[trigger] self.intrinsic_primitive_base_object(a)
                != #[trigger] later.intrinsic_primitive_base_object(b) by {
            a.lemma_ordinal_round_trip();
            b.lemma_ordinal_round_trip();
        }
    }

    /// Reserves, at the end of every slab, the slots of one realm's built-ins
    /// and returns the registry that addresses them. All the new slots are
    /// empty; nothing that the heap held before is touched.
    pub fn new(agent: &mut Agent) -> (intrinsics: Self)
        ensures
            intrinsics.starts_at_end_of(&old(agent).heap),
            intrinsics.is_valid(),
            intrinsics.reserved_in(&final(agent).heap),
            final(agent).heap.objects@ == old(agent).heap.objects@ + empty_slots(
                intrinsic_object_count() as int,
            ),
            final(agent).heap.primitive_objects@ == old(agent).heap.primitive_objects@
                + empty_slots(intrinsic_primitive_object_count() as int),
            final(agent).heap.builtin_functions@ == old(agent).heap.builtin_functions@
                + empty_slots(intrinsic_function_count() as int),
            final(agent).heap.arrays@ == old(agent).heap.arrays@.push(None),
            final(agent).heap.realms == old(agent).heap.realms,
    {
        let object_base: usize = reserve_slots(&mut agent.heap.objects, intrinsic_object_count());
        let primitive_object_base: usize = reserve_slots(
            &mut agent.heap.primitive_objects,
            intrinsic_primitive_object_count(),
        );
        let builtin_function_base: usize = reserve_slots(
            &mut agent.heap.builtin_functions,
            intrinsic_function_count(),
        );
        let array_prototype = Array(ArrayIndex::from_index(agent.heap.arrays.len()));
        agent.heap.arrays.push(None);
        Intrinsics {
            object_index_base: ObjectIndex::from_index(object_base),
            primitive_object_index_base: PrimitiveObjectIndex::from_index(primitive_object_base),
            builtin_function_index_base: BuiltinFunctionIndex::from_index(builtin_function_base),
            array_prototype,
        }
    }

    /// The handle of the plain built-in function `index`.
    pub fn intrinsic_function_index_to_builtin_function(
        &self,
        index: IntrinsicFunctionIndexes,
    ) -> (function: BuiltinFunction)
        requires
            self.is_valid(),
        ensures
            function == self.intrinsic_function(index),
    {
        BuiltinFunction(index.get_builtin_function_index(self.builtin_function_index_base))
    }

    /// The handle of the constructor `index`.
    pub fn intrinsic_constructor_index_to_builtin_function(
        &self,
        index: IntrinsicConstructorIndexes,
    ) -> (function: BuiltinFunction)
        requires
            self.is_valid(),
        ensures
            function == self.intrinsic_constructor(index),
    {
        BuiltinFunction(index.get_builtin_function_index(self.builtin_function_index_base))
    }

    /// The object slot of the property-bag object of the constructor `index`.
    pub fn intrinsic_constructor_index_to_object_index(
        &self,
        index: IntrinsicConstructorIndexes,
    ) -> (object: ObjectIndex)
        requires
            self.is_valid(),
        ensures
            object == self.intrinsic_constructor_base_object(index),
    {
        index.get_object_index(self.object_index_base)
    }
}

} // verus!
