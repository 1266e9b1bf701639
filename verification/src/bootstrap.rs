//! The bootstrap sequencer: populates every slot that a realm reserved.
//!
//! The built-ins are created rank by rank, so that the target of every
//! `[[Prototype]]` link, and the property-bag object of every function and
//! primitive-valued object, is populated before anything refers to it. Every
//! slot is written exactly once.

use vstd::prelude::*;
use crate::heap::{
    Agent, ArrayHeapData, BuiltinFunctionHeapData, Heap, ObjectHeapData, PrimitiveObjectHeapData,
    RealmIdentifier,
};
use crate::heap_constants::{
    intrinsic_function_count, intrinsic_object_count, intrinsic_primitive_object_count,
    IntrinsicConstructorIndexes, IntrinsicFunctionIndexes, IntrinsicObjectIndexes,
    IntrinsicPrimitiveObjectIndexes,
};
use crate::indexes::{
    ArrayIndex, BuiltinFunctionIndex, Object, ObjectIndex, OrdinaryObject, PrimitiveObjectIndex,
};
use crate::intrinsics::Intrinsics;
use crate::prototypes::{
    builtin_function_plan, lemma_constructor_after_prototype, lemma_object_after_prototype,
    lemma_primitive_object_after_prototype, object_plan, primitive_object_plan,
    IntrinsicPrototype, CREATION_RANKS,
};

verus! {

impl Heap {
    /// Populates the empty object slot `index` with `data`. The target of
    /// the object's `[[Prototype]]` link must be live already.
    pub fn create_object(&mut self, index: ObjectIndex, data: ObjectHeapData)
        requires
            index@ < old(self).objects@.len(),
            old(self).objects@[index@] is None,
            data.prototype is Some ==> old(self).is_live(data.prototype.unwrap()),
        ensures
            final(self).objects@ == old(self).objects@.update(index@, Some(data)),
            final(self).primitive_objects@ == old(self).primitive_objects@,
            final(self).builtin_functions@ == old(self).builtin_functions@,
            final(self).arrays@ == old(self).arrays@,
            final(self).realms@ == old(self).realms@,
    {
        self.objects[index.into_index()] = Some(data);
    }

    /// Populates the empty primitive-object slot `index` with `data`. The
    /// property-bag object of the entity must be live already.
    pub fn create_primitive_object(
        &mut self,
        index: PrimitiveObjectIndex,
        data: PrimitiveObjectHeapData,
    )
        requires
            index@ < old(self).primitive_objects@.len(),
            old(self).primitive_objects@[index@] is None,
            data.object_index is Some ==> old(self).is_live(
                Object::Object(data.object_index.unwrap()),
            ),
        ensures
            final(self).primitive_objects@ == old(self).primitive_objects@.update(
                index@,
                Some(data),
            ),
            final(self).objects@ == old(self).objects@,
            final(self).builtin_functions@ == old(self).builtin_functions@,
            final(self).arrays@ == old(self).arrays@,
            final(self).realms@ == old(self).realms@,
    {
        self.primitive_objects[index.into_index()] = Some(data);
    }

    /// Populates the empty function slot `index` with `data`. The
    /// property-bag object of the function, if it has one, must be live
    /// already.
    pub fn create_builtin_function(
        &mut self,
        index: BuiltinFunctionIndex,
        data: BuiltinFunctionHeapData,
    )
        requires
            index@ < old(self).builtin_functions@.len(),
            old(self).builtin_functions@[index@] is None,
            data.object_index is Some ==> old(self).is_live(
                Object::Object(data.object_index.unwrap()),
            ),
        ensures
            final(self).builtin_functions@ == old(self).builtin_functions@.update(
                index@,
                Some(data),
            ),
            final(self).objects@ == old(self).objects@,
            final(self).primitive_objects@ == old(self).primitive_objects@,
            final(self).arrays@ == old(self).arrays@,
            final(self).realms@ == old(self).realms@,
    {
        self.builtin_functions[index.into_index()] = Some(data);
    }

    /// Populates the empty array slot `index` with `data`. The property-bag
    /// object of the array must be live already.
    pub fn create_array(&mut self, index: ArrayIndex, data: ArrayHeapData)
        requires
            index@ < old(self).arrays@.len(),
            old(self).arrays@[index@] is None,
            data.object_index is Some ==> old(self).is_live(
                Object::Object(data.object_index.unwrap()),
            ),
        ensures
            final(self).arrays@ == old(self).arrays@.update(index@, Some(data)),
            final(self).objects@ == old(self).objects@,
            final(self).primitive_objects@ == old(self).primitive_objects@,
            final(self).builtin_functions@ == old(self).builtin_functions@,
            final(self).realms@ == old(self).realms@,
    {
        self.arrays[index.into_index()] = Some(data);
    }

    /// Whether this heap is `before` but for the slots that `intrinsics`
    /// reserved: no slab has grown or shrunk, every slot of another owner
    /// holds what it held, and the realms are the same.
    pub open spec fn differs_only_in(&self, before: &Heap, intrinsics: Intrinsics) -> bool {
        &&& self.objects@.len() == before.objects@.len()
        &&& self.primitive_objects@.len() == before.primitive_objects@.len()
        &&& self.builtin_functions@.len() == before.builtin_functions@.len()
        &&& self.arrays@.len() == before.arrays@.len()
        &&& self.realms@ == before.realms@
        &&& forall|i: int|
            0 <= i < self.objects@.len() && !(intrinsics.object_index_base@ <= i
                < intrinsics.object_index_base@ + intrinsic_object_count())
                ==> #[trigger] self.objects@[i] == before.objects@[i]
        &&& forall|i: int|
            0 <= i < self.primitive_objects@.len() && !(intrinsics.primitive_object_index_base@
                <= i < intrinsics.primitive_object_index_base@
                + intrinsic_primitive_object_count()) ==> #[trigger] self.primitive_objects@[i]
                == before.primitive_objects@[i]
        &&& forall|i: int|
            0 <= i < self.builtin_functions@.len() && !(intrinsics.builtin_function_index_base@
                <= i < intrinsics.builtin_function_index_base@ + intrinsic_function_count())
                ==> #[trigger] self.builtin_functions@[i] == before.builtin_functions@[i]
        &&& forall|i: int|
            0 <= i < self.arrays@.len() && i != intrinsics.array_prototype.0@
                ==> #[trigger] self.arrays@[i] == before.arrays@[i]
    }
}

/// Whether a slot of rank `slot_rank` at `offset` is populated once the
/// ranks below `rank` are done and, of rank `rank`, the offsets below `upto`.
pub open spec fn is_created(slot_rank: usize, offset: usize, rank: usize, upto: usize) -> bool {
    slot_rank < rank || (slot_rank == rank && offset < upto)
}

impl Intrinsics {
    /// The handle that `link` names in this realm; `None` for the null link.
    pub open spec fn resolve(&self, link: IntrinsicPrototype) -> Option<Object> {
        match link {
            IntrinsicPrototype::Null => None,
            IntrinsicPrototype::Object(name) => Some(Object::Object(self.intrinsic_object(name))),
            IntrinsicPrototype::Constructor(name) => Some(
                Object::BuiltinFunction(self.intrinsic_constructor(name)),
            ),
        }
    }

    /// The handle that `link` names in this realm; `None` for the null link.
    pub fn resolve_prototype(&self, link: IntrinsicPrototype) -> (target: Option<Object>)
        requires
            self.is_valid(),
        ensures
            target == self.resolve(link),
    {
        match link {
            IntrinsicPrototype::Null => None,
            IntrinsicPrototype::Object(name) => Some(
                Object::Object(OrdinaryObject(name.get_object_index(self.object_index_base))),
            ),
            IntrinsicPrototype::Constructor(name) => Some(
                Object::BuiltinFunction(
                    self.intrinsic_constructor_index_to_builtin_function(name),
                ),
            ),
        }
    }

    /// What the object slot at `offset` of this realm's range holds.
    pub open spec fn object_slot(&self, heap: &Heap, offset: usize) -> Option<ObjectHeapData> {
        heap.objects@[self.object_index_base@ + offset]
    }

    /// What the primitive-object slot at `offset` of this realm's range
    /// holds.
    pub open spec fn primitive_object_slot(&self, heap: &Heap, offset: usize) -> Option<
        PrimitiveObjectHeapData,
    > {
        heap.primitive_objects@[self.primitive_object_index_base@ + offset]
    }

    /// What the function slot at `offset` of this realm's range holds.
    pub open spec fn builtin_function_slot(&self, heap: &Heap, offset: usize) -> Option<
        BuiltinFunctionHeapData,
    > {
        heap.builtin_functions@[self.builtin_function_index_base@ + offset]
    }

    /// What bootstrap puts in the object slot at `offset`: an extensible
    /// object with no own property, linked as its plan says.
    pub open spec fn expected_object(&self, offset: usize) -> ObjectHeapData {
        ObjectHeapData {
            extensible: true,
            prototype: self.resolve(object_plan(offset).prototype),
            property_storage: None,
        }
    }

    /// What bootstrap puts in the primitive-object slot at `offset`.
    pub open spec fn expected_primitive_object(&self, offset: usize) -> PrimitiveObjectHeapData {
        PrimitiveObjectHeapData {
            object_index: Some(
                OrdinaryObject(
                    ObjectIndex(
                        (self.object_index_base@ + primitive_object_plan(
                            offset,
                        ).object_offset) as usize,
                    ),
                ),
            ),
            kind: primitive_object_plan(offset).kind,
        }
    }

    /// What bootstrap puts in the function slot at `offset`, for the realm
    /// named `realm`.
    pub open spec fn expected_builtin_function(
        &self,
        offset: usize,
        realm: RealmIdentifier,
    ) -> BuiltinFunctionHeapData {
        BuiltinFunctionHeapData {
            object_index: match builtin_function_plan(offset).object_offset {
                Some(object_offset) => Some(
                    OrdinaryObject(
                        ObjectIndex((self.object_index_base@ + object_offset) as usize),
                    ),
                ),
                None => None,
            },
            realm,
        }
    }

    /// What bootstrap puts in the slot of `Array.prototype`: an empty array
    /// whose property-bag object is the ordinary-object built-in of the same
    /// name.
    pub open spec fn expected_array_prototype(&self) -> ArrayHeapData {
        ArrayHeapData {
            object_index: Some(self.intrinsic_object(IntrinsicObjectIndexes::ArrayPrototype)),
            len: 0,
        }
    }

    /// Of this realm's object slots, exactly those that `is_created` names
    /// are populated, each with what bootstrap puts there.
    pub open spec fn objects_created(&self, heap: &Heap, rank: usize, upto: usize) -> bool {
        forall|offset: usize|
            offset < intrinsic_object_count() ==> #[trigger] self.object_slot(heap, offset) == (
            if is_created(object_plan(offset).rank, offset, rank, upto) {
                Some(self.expected_object(offset))
            } else {
                None
            })
    }

    /// Of this realm's primitive-object slots, exactly those that
    /// `is_created` names are populated, each with what bootstrap puts there.
    pub open spec fn primitive_objects_created(
        &self,
        heap: &Heap,
        rank: usize,
        upto: usize,
    ) -> bool {
        forall|offset: usize|
            offset < intrinsic_primitive_object_count() ==> #[trigger] self.primitive_object_slot(
                heap,
                offset,
            ) == (if is_created(primitive_object_plan(offset).rank, offset, rank, upto) {
                Some(self.expected_primitive_object(offset))
            } else {
                None
            })
    }

    /// Of this realm's function slots, exactly those that `is_created` names
    /// are populated, each with what bootstrap puts there.
    pub open spec fn builtin_functions_created(
        &self,
        heap: &Heap,
        realm: RealmIdentifier,
        rank: usize,
        upto: usize,
    ) -> bool {
        forall|offset: usize|
            offset < intrinsic_function_count() ==> #[trigger] self.builtin_function_slot(
                heap,
                offset,
            ) == (if is_created(builtin_function_plan(offset).rank, offset, rank, upto) {
                Some(self.expected_builtin_function(offset, realm))
            } else {
                None
            })
    }

    /// Every slot that this realm reserved in `heap` is still empty: the
    /// state in which `new` leaves them.
    pub open spec fn unpopulated_in(&self, heap: &Heap, realm: RealmIdentifier) -> bool {
        &&& self.reserved_in(heap)
        &&& self.objects_created(heap, 0, 0)
        &&& self.primitive_objects_created(heap, 0, 0)
        &&& self.builtin_functions_created(heap, realm, 0, 0)
        &&& heap.arrays@[self.array_prototype.0@] is None
    }

    /// Every slot that this realm reserved in `heap` holds what bootstrap
    /// puts there.
    pub open spec fn bootstrapped_in(&self, heap: &Heap, realm: RealmIdentifier) -> bool {
        &&& self.reserved_in(heap)
        &&& self.objects_created(heap, CREATION_RANKS, 0)
        &&& self.primitive_objects_created(heap, CREATION_RANKS, 0)
        &&& self.builtin_functions_created(heap, realm, CREATION_RANKS, 0)
        &&& heap.arrays@[self.array_prototype.0@] == Some(self.expected_array_prototype())
    }

    /// Populates the object slots of rank `rank`.
    fn create_objects_of_rank(&self, heap: &mut Heap, realm: RealmIdentifier, rank: usize)
        requires
            self.is_valid(),
            self.reserved_in(old(heap)),
            rank < CREATION_RANKS,
            self.objects_created(old(heap), rank, 0),
            self.primitive_objects_created(old(heap), rank, 0),
            self.builtin_functions_created(old(heap), realm, rank, 0),
        ensures
            self.objects_created(final(heap), rank, intrinsic_object_count()),
            final(heap).differs_only_in(old(heap), *self),
            final(heap).primitive_objects@ == old(heap).primitive_objects@,
            final(heap).builtin_functions@ == old(heap).builtin_functions@,
            final(heap).arrays@ == old(heap).arrays@,
    {
        let base: usize = self.object_index_base.into_index();
        let mut offset: usize = 0;
        while offset < intrinsic_object_count()
            invariant
                offset <= intrinsic_object_count(),
                base == self.object_index_base@,
                self.is_valid(),
                self.reserved_in(heap),
                rank < CREATION_RANKS,
                self.objects_created(heap, rank, offset),
                self.primitive_objects_created(heap, rank, 0),
                self.builtin_functions_created(heap, realm, rank, 0),
                heap.differs_only_in(old(heap), *self),
                heap.primitive_objects@ == old(heap).primitive_objects@,
                heap.builtin_functions@ == old(heap).builtin_functions@,
                heap.arrays@ == old(heap).arrays@,
            decreases intrinsic_object_count() - offset,
        {
            let plan = object_plan(offset);
            let ghost before = *heap;
            if plan.rank == rank {
                assert(self.object_slot(heap, offset) is None);
                let data = ObjectHeapData {
                    extensible: true,
                    prototype: self.resolve_prototype(plan.prototype),
                    property_storage: None,
                };
                proof {
                    self.lemma_prototype_is_live(heap, realm, rank, offset);
                }
                heap.create_object(ObjectIndex::from_index(base + offset), data);
            }
            proof {
                assert forall|other: usize| other < intrinsic_object_count() implies (
                #[trigger] self.object_slot(heap, other)) == (if is_created(
                    object_plan(other).rank,
                    other,
                    rank,
                    (offset + 1) as usize,
                ) {
                    Some(self.expected_object(other))
                } else {
                    None
                }) by {
                    assert(self.object_slot(&before, other) == (if is_created(
                        object_plan(other).rank,
                        other,
                        rank,
                        offset,
                    ) {
                        Some(self.expected_object(other))
                    } else {
                        None
                    }));
                }
                assert forall|other: usize|
                    other < intrinsic_primitive_object_count() implies
                        #[trigger] self.primitive_object_slot(
                    heap,
                    other,
                ) == self.primitive_object_slot(&before, other) by {}
                assert forall|other: usize|
                    other < intrinsic_function_count() implies
                        #[trigger] self.builtin_function_slot(
                    heap,
                    other,
                ) == self.builtin_function_slot(&before, other) by {}
            }
            offset = offset + 1;
        }
    }

    /// Populates the primitive-object slots of rank `rank`, once the object
    /// slots of that rank are done.
    fn create_primitive_objects_of_rank(
        &self,
        heap: &mut Heap,
        realm: RealmIdentifier,
        rank: usize,
    )
        requires
            self.is_valid(),
            self.reserved_in(old(heap)),
            rank < CREATION_RANKS,
            self.objects_created(old(heap), rank, intrinsic_object_count()),
            self.primitive_objects_created(old(heap), rank, 0),
        ensures
            self.primitive_objects_created(
                final(heap),
                rank,
                intrinsic_primitive_object_count(),
            ),
            final(heap).differs_only_in(old(heap), *self),
            final(heap).objects@ == old(heap).objects@,
            final(heap).builtin_functions@ == old(heap).builtin_functions@,
            final(heap).arrays@ == old(heap).arrays@,
    {
        let base: usize = self.primitive_object_index_base.into_index();
        let object_base: usize = self.object_index_base.into_index();
        let mut offset: usize = 0;
        while offset < intrinsic_primitive_object_count()
            invariant
                offset <= intrinsic_primitive_object_count(),
                base == self.primitive_object_index_base@,
                object_base == self.object_index_base@,
                self.is_valid(),
                self.reserved_in(heap),
                rank < CREATION_RANKS,
                self.objects_created(heap, rank, intrinsic_object_count()),
                self.primitive_objects_created(heap, rank, offset),
                heap.differs_only_in(old(heap), *self),
                heap.objects@ == old(heap).objects@,
                heap.builtin_functions@ == old(heap).builtin_functions@,
                heap.arrays@ == old(heap).arrays@,
            decreases intrinsic_primitive_object_count() - offset,
        {
            let plan = primitive_object_plan(offset);
            let ghost before = *heap;
            if plan.rank == rank {
                let data = PrimitiveObjectHeapData {
                    object_index: Some(
                        OrdinaryObject(ObjectIndex::from_index(object_base + plan.object_offset)),
                    ),
                    kind: plan.kind,
                };
                proof {
                    assert(self.primitive_object_slot(heap, offset) is None);
                    assert(object_plan(plan.object_offset).rank == rank);
                    assert(self.object_slot(heap, plan.object_offset) is Some);
                }
                heap.create_primitive_object(PrimitiveObjectIndex::from_index(base + offset), data);
            }
            proof {
                assert forall|other: usize|
                    other < intrinsic_primitive_object_count() implies (
                #[trigger] self.primitive_object_slot(heap, other)) == (if is_created(
                    primitive_object_plan(other).rank,
                    other,
                    rank,
                    (offset + 1) as usize,
                ) {
                    Some(self.expected_primitive_object(other))
                } else {
                    None
                }) by {
                    assert(self.primitive_object_slot(&before, other) == (if is_created(
                        primitive_object_plan(other).rank,
                        other,
                        rank,
                        offset,
                    ) {
                        Some(self.expected_primitive_object(other))
                    } else {
                        None
                    }));
                }
                assert forall|other: usize|
                    other < intrinsic_object_count() implies #[trigger] self.object_slot(
                    heap,
                    other,
                ) == self.object_slot(&before, other) by {}
            }
            offset = offset + 1;
        }
    }

    /// Populates the function slots of rank `rank`, once the object slots of
    /// that rank are done.
    fn create_builtin_functions_of_rank(
        &self,
        heap: &mut Heap,
        realm: RealmIdentifier,
        rank: usize,
    )
        requires
            self.is_valid(),
            self.reserved_in(old(heap)),
            rank < CREATION_RANKS,
            self.objects_created(old(heap), rank, intrinsic_object_count()),
            self.builtin_functions_created(old(heap), realm, rank, 0),
        ensures
            self.builtin_functions_created(final(heap), realm, rank, intrinsic_function_count()),
            final(heap).differs_only_in(old(heap), *self),
            final(heap).objects@ == old(heap).objects@,
            final(heap).primitive_objects@ == old(heap).primitive_objects@,
            final(heap).arrays@ == old(heap).arrays@,
    {
        let base: usize = self.builtin_function_index_base.into_index();
        let object_base: usize = self.object_index_base.into_index();
        let mut offset: usize = 0;
        while offset < intrinsic_function_count()
            invariant
                offset <= intrinsic_function_count(),
                base == self.builtin_function_index_base@,
                object_base == self.object_index_base@,
                self.is_valid(),
                self.reserved_in(heap),
                rank < CREATION_RANKS,
                self.objects_created(heap, rank, intrinsic_object_count()),
                self.builtin_functions_created(heap, realm, rank, offset),
                heap.differs_only_in(old(heap), *self),
                heap.objects@ == old(heap).objects@,
                heap.primitive_objects@ == old(heap).primitive_objects@,
                heap.arrays@ == old(heap).arrays@,
            decreases intrinsic_function_count() - offset,
        {
            let plan = builtin_function_plan(offset);
            let ghost before = *heap;
            if plan.rank == rank {
                let data = BuiltinFunctionHeapData {
                    object_index: match plan.object_offset {
                        Some(object_offset) => Some(
                            OrdinaryObject(ObjectIndex::from_index(object_base + object_offset)),
                        ),
                        None => None,
                    },
                    realm,
                };
                proof {
                    assert(self.builtin_function_slot(heap, offset) is None);
                    if plan.object_offset is Some {
                        let object_offset = plan.object_offset.unwrap();
                        assert(object_plan(object_offset).rank == rank);
                        assert(self.object_slot(heap, object_offset) is Some);
                    }
                }
                heap.create_builtin_function(BuiltinFunctionIndex::from_index(base + offset), data);
            }
            proof {
                assert forall|other: usize|
                    other < intrinsic_function_count() implies (
                #[trigger] self.builtin_function_slot(heap, other)) == (if is_created(
                    builtin_function_plan(other).rank,
                    other,
                    rank,
                    (offset + 1) as usize,
                ) {
                    Some(self.expected_builtin_function(other, realm))
                } else {
                    None
                }) by {
                    assert(self.builtin_function_slot(&before, other) == (if is_created(
                        builtin_function_plan(other).rank,
                        other,
                        rank,
                        offset,
                    ) {
                        Some(self.expected_builtin_function(other, realm))
                    } else {
                        None
                    }));
                }
                assert forall|other: usize|
                    other < intrinsic_object_count() implies #[trigger] self.object_slot(
                    heap,
                    other,
                ) == self.object_slot(&before, other) by {}
            }
            offset = offset + 1;
        }
    }

    /// Populates every slot that the realm `realm` reserved, rank by rank:
    /// in each rank the objects first, then the primitive-valued objects and
    /// the functions, whose property-bag objects are then in place; at the
    /// end `Array.prototype`. The realm's slots must be empty, so this runs
    /// once per realm. No slot of another owner is touched.
    pub fn create_intrinsics(agent: &mut Agent, realm: RealmIdentifier)
        requires
            old(agent).has_realm(realm),
            old(agent).heap.realms@[realm.0 as int].unwrap().intrinsics.unpopulated_in(
                &old(agent).heap,
                realm,
            ),
        ensures
            old(agent).heap.realms@[realm.0 as int].unwrap().intrinsics.bootstrapped_in(
                &final(agent).heap,
                realm,
            ),
            final(agent).heap.differs_only_in(
                &old(agent).heap,
                old(agent).heap.realms@[realm.0 as int].unwrap().intrinsics,
            ),
    {
        let intrinsics: Intrinsics = agent.get_realm(realm).intrinsics;
        assert(intrinsics.is_valid()) by {
            assert(agent.heap.objects@.len() == agent.heap.objects.len());
            assert(agent.heap.primitive_objects@.len() == agent.heap.primitive_objects.len());
            assert(agent.heap.builtin_functions@.len() == agent.heap.builtin_functions.len());
        }
        let mut rank: usize = 0;
        while rank < CREATION_RANKS
            invariant
                rank <= CREATION_RANKS,
                intrinsics == old(agent).heap.realms@[realm.0 as int].unwrap().intrinsics,
                intrinsics.is_valid(),
                intrinsics.reserved_in(&agent.heap),
                intrinsics.objects_created(&agent.heap, rank, 0),
                intrinsics.primitive_objects_created(&agent.heap, rank, 0),
                intrinsics.builtin_functions_created(&agent.heap, realm, rank, 0),
                agent.heap.arrays@[intrinsics.array_prototype.0@] is None,
                agent.heap.differs_only_in(&old(agent).heap, intrinsics),
            decreases CREATION_RANKS - rank,
        {
            let ghost before = agent.heap;
            intrinsics.create_objects_of_rank(&mut agent.heap, realm, rank);
            let ghost with_objects = agent.heap;
            proof {
                assert forall|other: usize|
                    other < intrinsic_primitive_object_count() implies
                        #[trigger] intrinsics.primitive_object_slot(
                    &with_objects,
                    other,
                ) == intrinsics.primitive_object_slot(&before, other) by {}
                assert forall|other: usize|
                    other < intrinsic_function_count() implies
                        #[trigger] intrinsics.builtin_function_slot(
                    &with_objects,
                    other,
                ) == intrinsics.builtin_function_slot(&before, other) by {}
            }
            intrinsics.create_primitive_objects_of_rank(&mut agent.heap, realm, rank);
            let ghost with_primitive_objects = agent.heap;
            proof {
                assert forall|other: usize|
                    other < intrinsic_object_count() implies #[trigger] intrinsics.object_slot(
                    &with_primitive_objects,
                    other,
                ) == intrinsics.object_slot(&with_objects, other) by {}
                assert forall|other: usize|
                    other < intrinsic_function_count() implies
                        #[trigger] intrinsics.builtin_function_slot(
                    &with_primitive_objects,
                    other,
                ) == intrinsics.builtin_function_slot(&before, other) by {}
            }
            intrinsics.create_builtin_functions_of_rank(&mut agent.heap, realm, rank);
            proof {
                let after = agent.heap;
                assert forall|other: usize|
                    other < intrinsic_object_count() implies #[trigger] intrinsics.object_slot(
                    &after,
                    other,
                ) == intrinsics.object_slot(&with_objects, other) by {}
                assert forall|other: usize|
                    other < intrinsic_primitive_object_count() implies
                        #[trigger] intrinsics.primitive_object_slot(
                    &after,
                    other,
                ) == intrinsics.primitive_object_slot(&with_primitive_objects, other) by {}
            }
            rank = rank + 1;
        }
        let data = ArrayHeapData {
            object_index: Some(
                OrdinaryObject(
                    IntrinsicObjectIndexes::ArrayPrototype.get_object_index(
                        intrinsics.object_index_base,
                    ),
                ),
            ),
            len: 0,
        };
        proof {
            let bag: usize = IntrinsicObjectIndexes::ArrayPrototype.ordinal();
            assert(intrinsics.object_slot(&agent.heap, bag) is Some);
        }
        let ghost before = agent.heap;
        agent.heap.create_array(intrinsics.array_prototype.0, data);
        proof {
            let after = agent.heap;
            assert forall|other: usize|
                other < intrinsic_object_count() implies #[trigger] intrinsics.object_slot(
                &after,
                other,
            ) == intrinsics.object_slot(&before, other) by {}
            assert forall|other: usize|
                other < intrinsic_primitive_object_count() implies
                    #[trigger] intrinsics.primitive_object_slot(
                &after,
                other,
            ) == intrinsics.primitive_object_slot(&before, other) by {}
            assert forall|other: usize|
                other < intrinsic_function_count() implies
                    #[trigger] intrinsics.builtin_function_slot(
                &after,
                other,
            ) == intrinsics.builtin_function_slot(&before, other) by {}
        }
    }

    /// After bootstrap, the slot of every built-in holds what its name says:
    /// an object linked as the name's `[[Prototype]]` says, a primitive-valued
    /// object or a constructor with its own property-bag object, a plain
    /// function without one.
    pub proof fn lemma_bootstrapped_by_name(&self, heap: &Heap, realm: RealmIdentifier)
        requires
            self.is_valid(),
            self.bootstrapped_in(heap, realm),
        ensures
            forall|name: IntrinsicObjectIndexes|
                heap.objects@[(#[trigger] self.intrinsic_object(name)).0@] == Some(
                    ObjectHeapData {
                        extensible: true,
                        prototype: self.resolve(name.prototype()),
                        property_storage: None,
                    },
                ),
            forall|name: IntrinsicPrimitiveObjectIndexes|
                heap.primitive_objects@[(#[trigger] self.intrinsic_primitive_object(name)).0@]
                    == Some(
                    PrimitiveObjectHeapData {
                        object_index: Some(
                            OrdinaryObject(self.intrinsic_primitive_base_object(name)),
                        ),
                        kind: name.kind(),
                    },
                ),
            forall|name: IntrinsicPrimitiveObjectIndexes|
                heap.objects@[(#[trigger] self.intrinsic_primitive_base_object(name))@] == Some(
                    ObjectHeapData {
                        extensible: true,
                        prototype: self.resolve(name.prototype()),
                        property_storage: None,
                    },
                ),
            forall|name: IntrinsicConstructorIndexes|
                heap.builtin_functions@[(#[trigger] self.intrinsic_constructor(name)).0@] == Some(
                    BuiltinFunctionHeapData {
                        object_index: Some(
                            OrdinaryObject(self.intrinsic_constructor_base_object(name)),
                        ),
                        realm,
                    },
                ),
            forall|name: IntrinsicConstructorIndexes|
                heap.objects@[(#[trigger] self.intrinsic_constructor_base_object(name))@] == Some(
                    ObjectHeapData {
                        extensible: true,
                        prototype: self.resolve(name.prototype()),
                        property_storage: None,
                    },
                ),
            forall|name: IntrinsicFunctionIndexes|
                heap.builtin_functions@[(#[trigger] self.intrinsic_function(name)).0@] == Some(
                    BuiltinFunctionHeapData { object_index: None, realm },
                ),
            heap.arrays@[self.array_prototype.0@] == Some(
                ArrayHeapData {
                    object_index: Some(
                        self.intrinsic_object(IntrinsicObjectIndexes::ArrayPrototype),
                    ),
                    len: 0,
                },
            ),
    {
        assert forall|name: IntrinsicObjectIndexes|
            heap.objects@[(#[trigger] self.intrinsic_object(name)).0@] == Some(
                ObjectHeapData {
                    extensible: true,
                    prototype: self.resolve(name.prototype()),
                    property_storage: None,
                },
            ) by {
            name.lemma_ordinal_round_trip();
            let offset: usize = name.object_offset() as usize;
            assert(self.object_slot(heap, offset) == Some(self.expected_object(offset)));
        }
        assert forall|name: IntrinsicPrimitiveObjectIndexes|
            heap.primitive_objects@[(#[trigger] self.intrinsic_primitive_object(name)).0@] == Some(
                PrimitiveObjectHeapData {
                    object_index: Some(OrdinaryObject(self.intrinsic_primitive_base_object(name))),
                    kind: name.kind(),
                },
            ) by {
            name.lemma_ordinal_round_trip();
            let offset: usize = name.primitive_object_offset() as usize;
            assert(self.primitive_object_slot(heap, offset) == Some(
                self.expected_primitive_object(offset),
            ));
        }
        assert forall|name: IntrinsicPrimitiveObjectIndexes|
            heap.objects@[(#[trigger] self.intrinsic_primitive_base_object(name))@] == Some(
                ObjectHeapData {
                    extensible: true,
                    prototype: self.resolve(name.prototype()),
                    property_storage: None,
                },
            ) by {
            name.lemma_ordinal_round_trip();
            let offset: usize = name.object_offset() as usize;
            assert(self.object_slot(heap, offset) == Some(self.expected_object(offset)));
        }
        assert forall|name: IntrinsicConstructorIndexes|
            heap.builtin_functions@[(#[trigger] self.intrinsic_constructor(name)).0@] == Some(
                BuiltinFunctionHeapData {
                    object_index: Some(
                        OrdinaryObject(self.intrinsic_constructor_base_object(name)),
                    ),
                    realm,
                },
            ) by {
            name.lemma_ordinal_round_trip();
            let offset: usize = name.builtin_function_offset() as usize;
            assert(self.builtin_function_slot(heap, offset) == Some(
                self.expected_builtin_function(offset, realm),
            ));
        }
        assert forall|name: IntrinsicConstructorIndexes|
            heap.objects@[(#[trigger] self.intrinsic_constructor_base_object(name))@] == Some(
                ObjectHeapData {
                    extensible: true,
                    prototype: self.resolve(name.prototype()),
                    property_storage: None,
                },
            ) by {
            name.lemma_ordinal_round_trip();
            let offset: usize = name.object_offset() as usize;
            assert(self.object_slot(heap, offset) == Some(self.expected_object(offset)));
        }
        assert forall|name: IntrinsicFunctionIndexes|
            heap.builtin_functions@[(#[trigger] self.intrinsic_function(name)).0@] == Some(
                BuiltinFunctionHeapData { object_index: None, realm },
            ) by {
            name.lemma_ordinal_round_trip();
            let offset: usize = name.builtin_function_offset() as usize;
            assert(self.builtin_function_slot(heap, offset) == Some(
                self.expected_builtin_function(offset, realm),
            ));
        }
    }

    /// After bootstrap, every handle that the registry resolves a name to is
    /// live, and so is the target of every `[[Prototype]]` link.
    pub proof fn lemma_bootstrapped_live(&self, heap: &Heap, realm: RealmIdentifier)
        requires
            self.is_valid(),
            self.bootstrapped_in(heap, realm),
        ensures
            forall|name: IntrinsicObjectIndexes|
                heap.is_live(Object::Object(#[trigger] self.intrinsic_object(name))),
            forall|name: IntrinsicPrimitiveObjectIndexes|
                heap.is_live(
                    Object::PrimitiveObject(#[trigger] self.intrinsic_primitive_object(name)),
                ),
            forall|name: IntrinsicPrimitiveObjectIndexes|
                heap.is_live(
                    Object::Object(
                        OrdinaryObject(#[trigger] self.intrinsic_primitive_base_object(name)),
                    ),
                ),
            forall|name: IntrinsicConstructorIndexes|
                heap.is_live(Object::BuiltinFunction(#[trigger] self.intrinsic_constructor(name))),
            forall|name: IntrinsicConstructorIndexes|
                heap.is_live(
                    Object::Object(
                        OrdinaryObject(#[trigger] self.intrinsic_constructor_base_object(name)),
                    ),
                ),
            forall|name: IntrinsicFunctionIndexes|
                heap.is_live(Object::BuiltinFunction(#[trigger] self.intrinsic_function(name))),
            heap.is_live(Object::Array(self.array_prototype)),
            forall|link: IntrinsicPrototype|
                link != IntrinsicPrototype::Null ==> heap.is_live(
                    (#[trigger] self.resolve(link)).unwrap(),
                ),
    {
        self.lemma_bootstrapped_by_name(heap, realm);
        assert forall|name: IntrinsicObjectIndexes|
            heap.is_live(Object::Object(#[trigger] self.intrinsic_object(name))) by {
            name.lemma_ordinal_round_trip();
        }
        assert forall|name: IntrinsicPrimitiveObjectIndexes|
            heap.is_live(
                Object::PrimitiveObject(#[trigger] self.intrinsic_primitive_object(name)),
            ) by {
            name.lemma_ordinal_round_trip();
        }
        assert forall|name: IntrinsicPrimitiveObjectIndexes|
            heap.is_live(
                Object::Object(
                    OrdinaryObject(#[trigger] self.intrinsic_primitive_base_object(name)),
                ),
            ) by {
            name.lemma_ordinal_round_trip();
        }
        assert forall|name: IntrinsicConstructorIndexes|
            heap.is_live(Object::BuiltinFunction(#[trigger] self.intrinsic_constructor(name))) by {
            name.lemma_ordinal_round_trip();
        }
        assert forall|name: IntrinsicConstructorIndexes|
            heap.is_live(
                Object::Object(
                    OrdinaryObject(#[trigger] self.intrinsic_constructor_base_object(name)),
                ),
            ) by {
            name.lemma_ordinal_round_trip();
        }
        assert forall|name: IntrinsicFunctionIndexes|
            heap.is_live(Object::BuiltinFunction(#[trigger] self.intrinsic_function(name))) by {
            name.lemma_ordinal_round_trip();
        }
        assert forall|link: IntrinsicPrototype| link != IntrinsicPrototype::Null implies
            heap.is_live(
            (#[trigger] self.resolve(link)).unwrap(),
        ) by {
            match link {
                IntrinsicPrototype::Null => {},
                IntrinsicPrototype::Object(name) => {
                    assert(heap.is_live(Object::Object(self.intrinsic_object(name))));
                },
                IntrinsicPrototype::Constructor(name) => {
                    assert(heap.is_live(Object::BuiltinFunction(self.intrinsic_constructor(name))));
                },
            }
        }
    }

    /// After bootstrap, the link of `Object.prototype` is null, that of
    /// `Function.prototype` is `Object.prototype`, that of
    /// `GeneratorFunction.prototype` is `Function.prototype`, and that of the
    /// generator prototype is the iterator prototype.
    pub proof fn lemma_bootstrapped_links(&self, heap: &Heap, realm: RealmIdentifier)
        requires
            self.is_valid(),
            self.bootstrapped_in(heap, realm),
        ensures
            heap.objects@[self.intrinsic_object(
                IntrinsicObjectIndexes::ObjectPrototype,
            ).0@].unwrap().prototype is None,
            heap.objects@[self.intrinsic_constructor_base_object(
                IntrinsicConstructorIndexes::FunctionPrototype,
            )@].unwrap().prototype == Some(
                Object::Object(self.intrinsic_object(IntrinsicObjectIndexes::ObjectPrototype)),
            ),
            heap.objects@[self.intrinsic_object(
                IntrinsicObjectIndexes::GeneratorFunctionPrototype,
            ).0@].unwrap().prototype == Some(
                Object::BuiltinFunction(
                    self.intrinsic_constructor(IntrinsicConstructorIndexes::FunctionPrototype),
                ),
            ),
            heap.objects@[self.intrinsic_object(
                IntrinsicObjectIndexes::GeneratorPrototype,
            ).0@].unwrap().prototype == Some(
                Object::Object(self.intrinsic_object(IntrinsicObjectIndexes::IteratorPrototype)),
            ),
    {
        self.lemma_bootstrapped_by_name(heap, realm);
    }

    /// A registry made by `new` on a heap finds all its slots empty there.
    pub proof fn lemma_new_is_unpopulated(
        &self,
        before: &Heap,
        after: &Heap,
        realm: RealmIdentifier,
    )
        requires
            self.starts_at_end_of(before),
            after.objects@ == before.objects@ + crate::heap::empty_slots(
                intrinsic_object_count() as int,
            ),
            after.primitive_objects@ == before.primitive_objects@ + crate::heap::empty_slots(
                intrinsic_primitive_object_count() as int,
            ),
            after.builtin_functions@ == before.builtin_functions@ + crate::heap::empty_slots(
                intrinsic_function_count() as int,
            ),
            after.arrays@ == before.arrays@.push(None),
        ensures
            self.unpopulated_in(after, realm),
    {
        assert forall|offset: usize| offset < intrinsic_object_count() implies (
        #[trigger] self.object_slot(after, offset)) is None by {}
        assert forall|offset: usize| offset < intrinsic_primitive_object_count() implies (
        #[trigger] self.primitive_object_slot(after, offset)) is None by {}
        assert forall|offset: usize| offset < intrinsic_function_count() implies (
        #[trigger] self.builtin_function_slot(after, offset)) is None by {}
    }

    /// Realms do not reach into each other: a change that is confined to the
    /// slots of this realm leaves every slot of a disjoint realm as it was.
    pub proof fn lemma_other_realm_untouched(
        &self,
        other: &Intrinsics,
        before: &Heap,
        after: &Heap,
    )
        requires
            after.differs_only_in(before, *self),
            self.disjoint_from(other),
            other.reserved_in(before),
        ensures
            other.reserved_in(after),
            forall|offset: usize|
                offset < intrinsic_object_count() ==> #[trigger] other.object_slot(after, offset)
                    == other.object_slot(before, offset),
            forall|offset: usize|
                offset < intrinsic_primitive_object_count()
                    ==> #[trigger] other.primitive_object_slot(after, offset)
                    == other.primitive_object_slot(before, offset),
            forall|offset: usize|
                offset < intrinsic_function_count() ==> #[trigger] other.builtin_function_slot(
                    after,
                    offset,
                ) == other.builtin_function_slot(before, offset),
            after.arrays@[other.array_prototype.0@] == before.arrays@[other.array_prototype.0@],
            forall|realm: RealmIdentifier|
                other.bootstrapped_in(before, realm) ==> other.bootstrapped_in(after, realm),
    {
        assert forall|realm: RealmIdentifier| other.bootstrapped_in(before, realm) implies
            other.bootstrapped_in(
            after,
            realm,
        ) by {
            assert forall|offset: usize| offset < intrinsic_object_count() implies (
            #[trigger] other.object_slot(after, offset)) == Some(other.expected_object(offset)) by {
                assert(other.object_slot(before, offset) == Some(other.expected_object(offset)));
            }
            assert forall|offset: usize| offset < intrinsic_primitive_object_count() implies (
            #[trigger] other.primitive_object_slot(after, offset)) == Some(
                other.expected_primitive_object(offset),
            ) by {
                assert(other.primitive_object_slot(before, offset) == Some(
                    other.expected_primitive_object(offset),
                ));
            }
            assert forall|offset: usize| offset < intrinsic_function_count() implies (
            #[trigger] other.builtin_function_slot(after, offset)) == Some(
                other.expected_builtin_function(offset, realm),
            ) by {
                assert(other.builtin_function_slot(before, offset) == Some(
                    other.expected_builtin_function(offset, realm),
                ));
            }
        }
    }

    /// Whether `object` names a slot that this realm reserved.
    pub open spec fn owns(&self, object: Object) -> bool {
        match object {
            Object::Object(o) => self.object_index_base@ <= o.0@ < self.object_index_base@
                + intrinsic_object_count(),
            Object::PrimitiveObject(p) => self.primitive_object_index_base@ <= p.0@
                < self.primitive_object_index_base@ + intrinsic_primitive_object_count(),
            Object::BuiltinFunction(f) => self.builtin_function_index_base@ <= f.0@
                < self.builtin_function_index_base@ + intrinsic_function_count(),
            Object::Array(a) => a == self.array_prototype,
        }
    }

    /// The built-ins of a realm refer to built-ins of that realm only: every
    /// handle that bootstrap puts in an entry names a slot of the realm.
    pub proof fn lemma_expected_in_range(&self, realm: RealmIdentifier)
        requires
            self.is_valid(),
        ensures
            forall|offset: usize|
                offset < intrinsic_object_count() && (#[trigger] self.expected_object(
                    offset,
                )).prototype is Some ==> self.owns(self.expected_object(offset).prototype.unwrap()),
            forall|offset: usize|
                offset < intrinsic_primitive_object_count() ==> self.owns(
                    Object::Object(
                        (#[trigger] self.expected_primitive_object(offset)).object_index.unwrap(),
                    ),
                ),
            forall|offset: usize|
                offset < intrinsic_function_count() && (#[trigger] self.expected_builtin_function(
                    offset,
                    realm,
                )).object_index is Some ==> self.owns(
                    Object::Object(
                        self.expected_builtin_function(offset, realm).object_index.unwrap(),
                    ),
                ),
            self.owns(Object::Object(self.expected_array_prototype().object_index.unwrap())),
    {
        assert forall|offset: usize|
            offset < intrinsic_object_count() && (#[trigger] self.expected_object(
                offset,
            )).prototype is Some implies self.owns(
            self.expected_object(offset).prototype.unwrap(),
        ) by {
            match object_plan(offset).prototype {
                IntrinsicPrototype::Null => {},
                IntrinsicPrototype::Object(name) => {
                    name.lemma_ordinal_round_trip();
                },
                IntrinsicPrototype::Constructor(name) => {
                    name.lemma_ordinal_round_trip();
                },
            }
        }
        assert forall|offset: usize| offset < intrinsic_function_count() && (
        #[trigger] self.expected_builtin_function(offset, realm)).object_index
            is Some implies self.owns(
            Object::Object(self.expected_builtin_function(offset, realm).object_index.unwrap()),
        ) by {
            if offset < crate::heap_constants::FUNCTION_FAMILY_OFFSET {
                IntrinsicConstructorIndexes::lemma_ordinals_dense(offset as int);
            }
        }
    }

    /// When the ranks below `rank` are done, the target of the link of an
    /// object slot of rank `rank` is live.
    proof fn lemma_prototype_is_live(
        &self,
        heap: &Heap,
        realm: RealmIdentifier,
        rank: usize,
        offset: usize,
    )
        requires
            self.is_valid(),
            self.reserved_in(heap),
            offset < intrinsic_object_count(),
            object_plan(offset).rank == rank,
            self.objects_created(heap, rank, offset),
            self.builtin_functions_created(heap, realm, rank, 0),
        ensures
            self.resolve(object_plan(offset).prototype) is Some ==> heap.is_live(
                self.resolve(object_plan(offset).prototype).unwrap(),
            ),
    {
        match object_plan(offset).prototype {
            IntrinsicPrototype::Null => {},
            IntrinsicPrototype::Object(name) => {
                name.lemma_ordinal_round_trip();
                let target: usize = name.ordinal();
                assert(object_plan(target).rank == name.creation_rank());
                assert(object_plan(target).rank < rank) by {
                    lemma_plan_after_prototype(offset);
                }
                assert(self.object_slot(heap, target) is Some);
            },
            IntrinsicPrototype::Constructor(name) => {
                name.lemma_ordinal_round_trip();
                let target: usize = name.ordinal();
                assert(builtin_function_plan(target).rank == name.creation_rank());
                assert(builtin_function_plan(target).rank < rank) by {
                    lemma_plan_after_prototype(offset);
                }
                assert(self.builtin_function_slot(heap, target) is Some);
            },
        }
    }
}

impl Agent {
    /// Every realm of the agent is bootstrapped, and no two realms share a
    /// slot.
    pub open spec fn is_well_formed(&self) -> bool {
        &&& forall|i: int|
            0 <= i < self.heap.realms@.len() && self.heap.realms@[i] is Some ==> {
                &&& (#[trigger] self.heap.realms@[i]).unwrap().intrinsics.is_valid()
                &&& self.heap.realms@[i].unwrap().intrinsics.bootstrapped_in(
                    &self.heap,
                    RealmIdentifier(i as usize),
                )
            }
        &&& forall|i: int, j: int|
            0 <= i < self.heap.realms@.len() && 0 <= j < self.heap.realms@.len() && i != j
                && self.heap.realms@[i] is Some && self.heap.realms@[j] is Some ==> (
            #[trigger] self.heap.realms@[i]).unwrap().intrinsics.disjoint_from(
                &(#[trigger] self.heap.realms@[j]).unwrap().intrinsics,
            )
    }

    /// Creates a realm: reserves the slots of its built-ins at the end of
    /// every slab, registers the realm, and populates the slots. Whatever
    /// the heap held before is still there, at the same place.
    pub fn create_realm(&mut self) -> (realm: RealmIdentifier)
        ensures
            realm.0 == old(self).heap.realms@.len(),
            final(self).has_realm(realm),
            final(self).heap.realms@ == old(self).heap.realms@.push(
                final(self).heap.realms@[realm.0 as int],
            ),
            final(self).heap.realms@[realm.0 as int].unwrap().intrinsics.starts_at_end_of(
                &old(self).heap,
            ),
            final(self).heap.realms@[realm.0 as int].unwrap().intrinsics.is_valid(),
            final(self).heap.realms@[realm.0 as int].unwrap().intrinsics.bootstrapped_in(
                &final(self).heap,
                realm,
            ),
            final(self).heap.objects@.len() == old(self).heap.objects@.len()
                + intrinsic_object_count(),
            final(self).heap.primitive_objects@.len() == old(self).heap.primitive_objects@.len()
                + intrinsic_primitive_object_count(),
            final(self).heap.builtin_functions@.len() == old(self).heap.builtin_functions@.len()
                + intrinsic_function_count(),
            final(self).heap.arrays@.len() == old(self).heap.arrays@.len() + 1,
            final(self).heap.objects@.take(old(self).heap.objects@.len() as int) == old(
                self,
            ).heap.objects@,
            final(self).heap.primitive_objects@.take(
                old(self).heap.primitive_objects@.len() as int,
            ) == old(self).heap.primitive_objects@,
            final(self).heap.builtin_functions@.take(
                old(self).heap.builtin_functions@.len() as int,
            ) == old(self).heap.builtin_functions@,
            final(self).heap.arrays@.take(old(self).heap.arrays@.len() as int) == old(
                self,
            ).heap.arrays@,
            old(self).is_well_formed() ==> final(self).is_well_formed(),
            old(self).heap.is_closed() ==> final(self).heap.is_closed(),
    {
        let intrinsics = Intrinsics::new(self);
        let ghost reserved = self.heap;
        proof {
            intrinsics.lemma_new_is_unpopulated(&old(self).heap, &reserved, RealmIdentifier(0));
        }
        let realm = self.add_realm(intrinsics);
        proof {
            let registered = self.heap;
            assert forall|offset: usize| offset < intrinsic_object_count() implies (
            #[trigger] intrinsics.object_slot(&registered, offset)) is None by {
                assert(intrinsics.object_slot(&reserved, offset) is None);
            }
            assert forall|offset: usize| offset < intrinsic_primitive_object_count() implies (
            #[trigger] intrinsics.primitive_object_slot(&registered, offset)) is None by {
                assert(intrinsics.primitive_object_slot(&reserved, offset) is None);
            }
            assert forall|offset: usize| offset < intrinsic_function_count() implies (
            #[trigger] intrinsics.builtin_function_slot(&registered, offset)) is None by {
                assert(intrinsics.builtin_function_slot(&reserved, offset) is None);
            }
        }
        Intrinsics::create_intrinsics(self, realm);
        proof {
            assert(self.heap.realms@ =~= old(self).heap.realms@.push(
                self.heap.realms@[realm.0 as int],
            ));
            assert(self.heap.objects@.take(old(self).heap.objects@.len() as int) =~= old(
                self,
            ).heap.objects@);
            assert(self.heap.primitive_objects@.take(
                old(self).heap.primitive_objects@.len() as int,
            ) =~= old(self).heap.primitive_objects@);
            assert(self.heap.builtin_functions@.take(
                old(self).heap.builtin_functions@.len() as int,
            ) =~= old(self).heap.builtin_functions@);
            assert(self.heap.arrays@.take(old(self).heap.arrays@.len() as int) =~= old(
                self,
            ).heap.arrays@);
            if old(self).is_well_formed() {
                self.lemma_well_formed_with(old(self), realm);
            }
            if old(self).heap.is_closed() {
                self.lemma_closed_with(old(self), realm);
            }
        }
        realm
    }

    /// A closed heap stays closed when a bootstrapped realm is added at its
    /// end: the handles in the entries of the realm name slots of the realm.
    proof fn lemma_closed_with(&self, before: &Agent, realm: RealmIdentifier)
        requires
            before.heap.is_closed(),
            self.has_realm(realm),
            self.heap.realms@[realm.0 as int].unwrap().intrinsics.starts_at_end_of(&before.heap),
            self.heap.realms@[realm.0 as int].unwrap().intrinsics.is_valid(),
            self.heap.realms@[realm.0 as int].unwrap().intrinsics.bootstrapped_in(
                &self.heap,
                realm,
            ),
            self.heap.objects@.len() == before.heap.objects@.len() + intrinsic_object_count(),
            self.heap.primitive_objects@.len() == before.heap.primitive_objects@.len()
                + intrinsic_primitive_object_count(),
            self.heap.builtin_functions@.len() == before.heap.builtin_functions@.len()
                + intrinsic_function_count(),
            self.heap.arrays@.len() == before.heap.arrays@.len() + 1,
            self.heap.objects@.take(before.heap.objects@.len() as int) == before.heap.objects@,
            self.heap.primitive_objects@.take(before.heap.primitive_objects@.len() as int)
                == before.heap.primitive_objects@,
            self.heap.builtin_functions@.take(before.heap.builtin_functions@.len() as int)
                == before.heap.builtin_functions@,
            self.heap.arrays@.take(before.heap.arrays@.len() as int) == before.heap.arrays@,
        ensures
            self.heap.is_closed(),
    {
        let added = self.heap.realms@[realm.0 as int].unwrap().intrinsics;
        added.lemma_expected_in_range(realm);
        assert forall|i: int|
            0 <= i < self.heap.objects@.len() && self.heap.objects@[i] is Some && (
            #[trigger] self.heap.objects@[i]).unwrap().prototype is Some implies self.heap.has_slot(
            self.heap.objects@[i].unwrap().prototype.unwrap(),
        ) by {
            if i < before.heap.objects@.len() {
                assert(self.heap.objects@.take(before.heap.objects@.len() as int)[i]
                    == self.heap.objects@[i]);
                assert(before.heap.has_slot(before.heap.objects@[i].unwrap().prototype.unwrap()));
            } else {
                let offset = (i - added.object_index_base@) as usize;
                assert(added.object_slot(&self.heap, offset) == Some(
                    added.expected_object(offset),
                ));
            }
        }
        assert forall|i: int|
            0 <= i < self.heap.primitive_objects@.len() && self.heap.primitive_objects@[i] is Some
                && (#[trigger] self.heap.primitive_objects@[i]).unwrap().object_index
                is Some implies self.heap.has_slot(
            Object::Object(self.heap.primitive_objects@[i].unwrap().object_index.unwrap()),
        ) by {
            if i < before.heap.primitive_objects@.len() {
                assert(self.heap.primitive_objects@.take(
                    before.heap.primitive_objects@.len() as int,
                )[i] == self.heap.primitive_objects@[i]);
                assert(before.heap.has_slot(
                    Object::Object(
                        before.heap.primitive_objects@[i].unwrap().object_index.unwrap(),
                    ),
                ));
            } else {
                let offset = (i - added.primitive_object_index_base@) as usize;
                assert(added.primitive_object_slot(&self.heap, offset) == Some(
                    added.expected_primitive_object(offset),
                ));
            }
        }
        assert forall|i: int|
            0 <= i < self.heap.builtin_functions@.len() && self.heap.builtin_functions@[i] is Some
                && (#[trigger] self.heap.builtin_functions@[i]).unwrap().object_index
                is Some implies self.heap.has_slot(
            Object::Object(self.heap.builtin_functions@[i].unwrap().object_index.unwrap()),
        ) by {
            if i < before.heap.builtin_functions@.len() {
                assert(self.heap.builtin_functions@.take(
                    before.heap.builtin_functions@.len() as int,
                )[i] == self.heap.builtin_functions@[i]);
                assert(before.heap.has_slot(
                    Object::Object(
                        before.heap.builtin_functions@[i].unwrap().object_index.unwrap(),
                    ),
                ));
            } else {
                let offset = (i - added.builtin_function_index_base@) as usize;
                assert(added.builtin_function_slot(&self.heap, offset) == Some(
                    added.expected_builtin_function(offset, realm),
                ));
            }
        }
        assert forall|i: int|
            0 <= i < self.heap.arrays@.len() && self.heap.arrays@[i] is Some && (
            #[trigger] self.heap.arrays@[i]).unwrap().object_index is Some implies
                self.heap.has_slot(
            Object::Object(self.heap.arrays@[i].unwrap().object_index.unwrap()),
        ) by {
            if i < before.heap.arrays@.len() {
                assert(self.heap.arrays@.take(before.heap.arrays@.len() as int)[i]
                    == self.heap.arrays@[i]);
                assert(before.heap.has_slot(
                    Object::Object(before.heap.arrays@[i].unwrap().object_index.unwrap()),
                ));
            }
        }
    }

    /// A well-formed agent stays well-formed when a bootstrapped realm is
    /// added at the end of its heap.
    proof fn lemma_well_formed_with(&self, before: &Agent, realm: RealmIdentifier)
        requires
            before.is_well_formed(),
            realm.0 == before.heap.realms@.len(),
            self.has_realm(realm),
            self.heap.realms@ == before.heap.realms@.push(self.heap.realms@[realm.0 as int]),
            self.heap.realms@[realm.0 as int].unwrap().intrinsics.starts_at_end_of(&before.heap),
            self.heap.realms@[realm.0 as int].unwrap().intrinsics.is_valid(),
            self.heap.realms@[realm.0 as int].unwrap().intrinsics.bootstrapped_in(
                &self.heap,
                realm,
            ),
            self.heap.objects@.len() >= before.heap.objects@.len(),
            self.heap.primitive_objects@.len() >= before.heap.primitive_objects@.len(),
            self.heap.builtin_functions@.len() >= before.heap.builtin_functions@.len(),
            self.heap.arrays@.len() >= before.heap.arrays@.len(),
            self.heap.objects@.take(before.heap.objects@.len() as int) == before.heap.objects@,
            self.heap.primitive_objects@.take(before.heap.primitive_objects@.len() as int)
                == before.heap.primitive_objects@,
            self.heap.builtin_functions@.take(before.heap.builtin_functions@.len() as int)
                == before.heap.builtin_functions@,
            self.heap.arrays@.take(before.heap.arrays@.len() as int) == before.heap.arrays@,
        ensures
            self.is_well_formed(),
    {
        let added = self.heap.realms@[realm.0 as int].unwrap().intrinsics;
        assert forall|i: int|
            0 <= i < self.heap.realms@.len() && self.heap.realms@[i] is Some implies {
            &&& (#[trigger] self.heap.realms@[i]).unwrap().intrinsics.is_valid()
            &&& self.heap.realms@[i].unwrap().intrinsics.bootstrapped_in(
                &self.heap,
                RealmIdentifier(i as usize),
            )
        } by {
            if i < realm.0 {
                let earlier = before.heap.realms@[i].unwrap().intrinsics;
                let name = RealmIdentifier(i as usize);
                assert(earlier.bootstrapped_in(&before.heap, name));
                assert forall|offset: usize| offset < intrinsic_object_count() implies (
                #[trigger] earlier.object_slot(&self.heap, offset)) == Some(
                    earlier.expected_object(offset),
                ) by {
                    assert(earlier.object_slot(&before.heap, offset) == Some(
                        earlier.expected_object(offset),
                    ));
                    assert(self.heap.objects@.take(
                        before.heap.objects@.len() as int,
                    )[earlier.object_index_base@ + offset]
                        == self.heap.objects@[earlier.object_index_base@ + offset]);
                }
                assert forall|offset: usize|
                    offset < intrinsic_primitive_object_count() implies (
                #[trigger] earlier.primitive_object_slot(&self.heap, offset)) == Some(
                    earlier.expected_primitive_object(offset),
                ) by {
                    assert(earlier.primitive_object_slot(&before.heap, offset) == Some(
                        earlier.expected_primitive_object(offset),
                    ));
                    assert(self.heap.primitive_objects@.take(
                        before.heap.primitive_objects@.len() as int,
                    )[earlier.primitive_object_index_base@ + offset]
                        == self.heap.primitive_objects@[earlier.primitive_object_index_base@
                        + offset]);
                }
                assert forall|offset: usize| offset < intrinsic_function_count() implies (
                #[trigger] earlier.builtin_function_slot(&self.heap, offset)) == Some(
                    earlier.expected_builtin_function(offset, name),
                ) by {
                    assert(earlier.builtin_function_slot(&before.heap, offset) == Some(
                        earlier.expected_builtin_function(offset, name),
                    ));
                    assert(self.heap.builtin_functions@.take(
                        before.heap.builtin_functions@.len() as int,
                    )[earlier.builtin_function_index_base@ + offset]
                        == self.heap.builtin_functions@[earlier.builtin_function_index_base@
                        + offset]);
                }
                assert(self.heap.arrays@.take(
                    before.heap.arrays@.len() as int,
                )[earlier.array_prototype.0@] == self.heap.arrays@[earlier.array_prototype.0@]);
            }
        }
        assert forall|i: int, j: int|
            0 <= i < self.heap.realms@.len() && 0 <= j < self.heap.realms@.len() && i != j
                && self.heap.realms@[i] is Some && self.heap.realms@[j] is Some implies (
        #[trigger] self.heap.realms@[i]).unwrap().intrinsics.disjoint_from(
            &(#[trigger] self.heap.realms@[j]).unwrap().intrinsics,
        ) by {
            if i < realm.0 && j < realm.0 {
                assert(before.heap.realms@[i].unwrap().intrinsics.disjoint_from(
                    &before.heap.realms@[j].unwrap().intrinsics,
                ));
            } else if i < realm.0 {
                let earlier = before.heap.realms@[i].unwrap().intrinsics;
                assert(earlier.bootstrapped_in(&before.heap, RealmIdentifier(i as usize)));
                earlier.lemma_realms_disjoint(&added, &before.heap);
            } else {
                let earlier = before.heap.realms@[j].unwrap().intrinsics;
                assert(earlier.bootstrapped_in(&before.heap, RealmIdentifier(j as usize)));
                earlier.lemma_realms_disjoint(&added, &before.heap);
            }
        }
    }
}

/// The object slot at `offset` has a rank above that of the target of its
/// link.
pub proof fn lemma_plan_after_prototype(offset: usize)
    requires
        offset < intrinsic_object_count(),
    ensures
        match object_plan(offset).prototype {
            IntrinsicPrototype::Null => true,
            IntrinsicPrototype::Object(name) => name.creation_rank() < object_plan(offset).rank,
            IntrinsicPrototype::Constructor(name) => name.creation_rank() < object_plan(
                offset,
            ).rank,
        },
{
    if offset < crate::heap_constants::PRIMITIVE_OBJECT_FAMILY_OFFSET {
        let name = IntrinsicObjectIndexes::spec_from_ordinal(offset as int).unwrap();
        lemma_object_after_prototype(name);
    } else if offset < crate::heap_constants::CONSTRUCTOR_OBJECT_FAMILY_OFFSET {
        let name = IntrinsicPrimitiveObjectIndexes::spec_from_ordinal(
            offset - crate::heap_constants::PRIMITIVE_OBJECT_FAMILY_OFFSET,
        ).unwrap();
        lemma_primitive_object_after_prototype(name);
    } else {
        let name = IntrinsicConstructorIndexes::spec_from_ordinal(
            offset - crate::heap_constants::CONSTRUCTOR_OBJECT_FAMILY_OFFSET,
        ).unwrap();
        lemma_constructor_after_prototype(name);
    }
}

} // verus!
