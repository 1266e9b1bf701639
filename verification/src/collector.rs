//! The two phases of a collection, as far as the realms take part in them.
//!
//! The mark phase makes every slot of every realm a root. The sweep phase
//! drops what is not marked, moves the survivors down and rewrites every
//! handle that survives: those in the entries of the heap and the bases of
//! the realms. A well-formed agent is well-formed afterwards.

use vstd::prelude::*;
use crate::compaction::{CompactionList, CompactionLists};
use crate::heap::{Agent, Heap, Realm, RealmIdentifier};
use crate::heap_constants::{
    intrinsic_function_count, intrinsic_object_count, intrinsic_primitive_object_count,
};
use crate::indexes::{
    Array, ArrayIndex, BuiltinFunction, BuiltinFunctionIndex, HeapIndex, Object, ObjectIndex,
    OrdinaryObject, PrimitiveObject, PrimitiveObjectIndex,
};
use crate::intrinsics::Intrinsics;
use crate::prototypes::{
    builtin_function_plan, object_plan, primitive_object_plan, IntrinsicPrototype,
};
use crate::mark_and_sweep::{
    slab_can_sweep, sweep_slab_entries, swept_slab, swept_slot, HeapMarkAndSweep, WorkQueues,
    WorkQueuesView,
};

verus! {

/// One mark bit per slot of every slab: set once the slot is found
/// reachable.
pub struct HeapBits {
    pub objects: Vec<bool>,
    pub primitive_objects: Vec<bool>,
    pub builtin_functions: Vec<bool>,
    pub arrays: Vec<bool>,
}

/// `len` cleared bits.
fn cleared_bits(len: usize) -> (bits: Vec<bool>)
    ensures
        bits@ == Seq::new(len as nat, |i: int| false),
{
    let mut bits: Vec<bool> = Vec::new();
    while bits.len() < len
        invariant
            bits@.len() <= len,
            bits@ == Seq::new(bits@.len(), |i: int| false),
        decreases len - bits@.len(),
    {
        bits.push(false);
        assert(bits@ =~= Seq::new(bits@.len(), |i: int| false));
    }
    bits
}

/// Sets the bit of `slot`, if the slab has such a slot.
fn mark_slot(bits: &mut Vec<bool>, slot: usize)
    ensures
        final(bits)@ == (if slot < old(bits)@.len() {
            old(bits)@.update(slot as int, true)
        } else {
            old(bits)@
        }),
{
    if slot < bits.len() {
        bits[slot] = true;
    }
}

/// Sets the bit of every slot that `queue` names. A bit that was set stays
/// set; an index beyond the end of the slab sets none.
fn mark_slots<I: HeapIndex>(bits: &mut Vec<bool>, queue: &Vec<I>)
    ensures
        final(bits)@.len() == old(bits)@.len(),
        forall|i: usize|
            i < final(bits)@.len() ==> #[trigger] final(bits)@[i as int] == (old(bits)@[i as int]
                || queue@.contains(I::at(i))),
{
    let mut next: usize = 0;
    while next < queue.len()
        invariant
            next <= queue@.len(),
            bits@.len() == old(bits)@.len(),
            forall|i: usize|
                i < bits@.len() ==> #[trigger] bits@[i as int] == (old(bits)@[i as int]
                    || queue@.take(next as int).contains(I::at(i))),
        decreases queue@.len() - next,
    {
        let slot: usize = queue[next].slot_number();
        let ghost before = bits@;
        mark_slot(bits, slot);
        proof {
            let seen = queue@.take(next as int);
            let grown = queue@.take(next + 1);
            assert(grown =~= seen.push(queue@[next as int]));
            queue@[next as int].lemma_index_of_slot();
            assert forall|i: usize| i < bits@.len() implies #[trigger] bits@[i as int] == (old(
                bits,
            )@[i as int] || grown.contains(I::at(i))) by {
                let index = I::at(i);
                assert(before[i as int] == (old(bits)@[i as int] || seen.contains(index)));
                if seen.contains(index) {
                    let place = choose|place: int| 0 <= place < seen.len() && seen[place] == index;
                    assert(grown[place] == index);
                }
                if i == slot {
                    assert(grown[next as int] == index);
                }
                if grown.contains(index) && !seen.contains(index) {
                    let place = choose|place: int|
                        0 <= place < grown.len() && grown[place] == index;
                    assert(place == next);
                    I::lemma_slot_of_index(i);
                }
            }
        }
        next = next + 1;
    }
    assert(queue@.take(next as int) =~= queue@);
}

impl HeapBits {
    /// One cleared bit for every slot of `heap`.
    pub fn new(heap: &Heap) -> (bits: Self)
        ensures
            bits.objects@ == Seq::new(heap.objects@.len(), |i: int| false),
            bits.primitive_objects@ == Seq::new(heap.primitive_objects@.len(), |i: int| false),
            bits.builtin_functions@ == Seq::new(heap.builtin_functions@.len(), |i: int| false),
            bits.arrays@ == Seq::new(heap.arrays@.len(), |i: int| false),
    {
        HeapBits {
            objects: cleared_bits(heap.objects.len()),
            primitive_objects: cleared_bits(heap.primitive_objects.len()),
            builtin_functions: cleared_bits(heap.builtin_functions.len()),
            arrays: cleared_bits(heap.arrays.len()),
        }
    }

    /// Sets the bit of every slot that is on a worklist. A bit that was set
    /// stays set; a handle beyond the end of its slab sets none.
    pub fn mark_queued(&mut self, queues: &WorkQueues)
        ensures
            final(self).objects@.len() == old(self).objects@.len(),
            final(self).primitive_objects@.len() == old(self).primitive_objects@.len(),
            final(self).builtin_functions@.len() == old(self).builtin_functions@.len(),
            final(self).arrays@.len() == old(self).arrays@.len(),
            forall|i: usize|
                i < final(self).objects@.len() ==> #[trigger] final(self).objects@[i as int] == (
                old(self).objects@[i as int] || queues@.objects.contains(ObjectIndex(i))),
            forall|i: usize|
                i < final(self).primitive_objects@.len()
                    ==> #[trigger] final(self).primitive_objects@[i as int] == (old(
                    self,
                ).primitive_objects@[i as int] || queues@.primitive_objects.contains(
                    PrimitiveObjectIndex(i),
                )),
            forall|i: usize|
                i < final(self).builtin_functions@.len()
                    ==> #[trigger] final(self).builtin_functions@[i as int] == (old(
                    self,
                ).builtin_functions@[i as int] || queues@.builtin_functions.contains(
                    BuiltinFunctionIndex(i),
                )),
            forall|i: usize|
                i < final(self).arrays@.len() ==> #[trigger] final(self).arrays@[i as int] == (
                old(self).arrays@[i as int] || queues@.arrays.contains(ArrayIndex(i))),
    {
        mark_slots(&mut self.objects, &queues.objects);
        mark_slots(&mut self.primitive_objects, &queues.primitive_objects);
        mark_slots(&mut self.builtin_functions, &queues.builtin_functions);
        mark_slots(&mut self.arrays, &queues.arrays);
    }

    /// Whether the slot of `object` exists and its bit is set.
    pub open spec fn is_set(&self, object: Object) -> bool {
        match object {
            Object::Object(o) => o.0@ < self.objects@.len() && self.objects@[o.0@],
            Object::PrimitiveObject(p) => p.0@ < self.primitive_objects@.len()
                && self.primitive_objects@[p.0@],
            Object::BuiltinFunction(f) => f.0@ < self.builtin_functions@.len()
                && self.builtin_functions@[f.0@],
            Object::Array(a) => a.0@ < self.arrays@.len() && self.arrays@[a.0@],
        }
    }

    /// Every marked entry of `heap` refers to marked slots only: nothing
    /// that survives will point at something reclaimed.
    pub open spec fn closed_under(&self, heap: &Heap) -> bool {
        &&& forall|i: int|
            0 <= i < heap.objects@.len() && self.objects@[i] && heap.objects@[i] is Some && (
            #[trigger] heap.objects@[i]).unwrap().prototype is Some ==> self.is_set(
                heap.objects@[i].unwrap().prototype.unwrap(),
            )
        &&& forall|i: int|
            0 <= i < heap.primitive_objects@.len() && self.primitive_objects@[i]
                && heap.primitive_objects@[i] is Some && (
            #[trigger] heap.primitive_objects@[i]).unwrap().object_index is Some ==> self.is_set(
                Object::Object(heap.primitive_objects@[i].unwrap().object_index.unwrap()),
            )
        &&& forall|i: int|
            0 <= i < heap.builtin_functions@.len() && self.builtin_functions@[i]
                && heap.builtin_functions@[i] is Some && (
            #[trigger] heap.builtin_functions@[i]).unwrap().object_index is Some ==> self.is_set(
                Object::Object(heap.builtin_functions@[i].unwrap().object_index.unwrap()),
            )
        &&& forall|i: int|
            0 <= i < heap.arrays@.len() && self.arrays@[i] && heap.arrays@[i] is Some && (
            #[trigger] heap.arrays@[i]).unwrap().object_index is Some ==> self.is_set(
                Object::Object(heap.arrays@[i].unwrap().object_index.unwrap()),
            )
    }

    /// Exactly the bits of the slots that are on the worklists are set.
    pub open spec fn records(&self, queues: WorkQueuesView) -> bool {
        &&& forall|i: usize|
            i < self.objects@.len() ==> #[trigger] self.objects@[i as int]
                == queues.objects.contains(ObjectIndex(i))
        &&& forall|i: usize|
            i < self.primitive_objects@.len() ==> #[trigger] self.primitive_objects@[i as int]
                == queues.primitive_objects.contains(PrimitiveObjectIndex(i))
        &&& forall|i: usize|
            i < self.builtin_functions@.len() ==> #[trigger] self.builtin_functions@[i as int]
                == queues.builtin_functions.contains(BuiltinFunctionIndex(i))
        &&& forall|i: usize|
            i < self.arrays@.len() ==> #[trigger] self.arrays@[i as int] == queues.arrays.contains(
                ArrayIndex(i),
            )
    }

    /// The lists reclaim exactly the slots whose bit is not set.
    pub open spec fn decides(&self, compactions: &CompactionLists) -> bool {
        &&& forall|i: int|
            0 <= i < self.objects@.len() ==> compactions.objects.is_reclaimed(i)
                == !self.objects@[i]
        &&& forall|i: int|
            0 <= i < self.primitive_objects@.len() ==> compactions.primitive_objects.is_reclaimed(
                i,
            ) == !self.primitive_objects@[i]
        &&& forall|i: int|
            0 <= i < self.builtin_functions@.len() ==> compactions.builtin_functions.is_reclaimed(
                i,
            ) == !self.builtin_functions@[i]
        &&& forall|i: int|
            0 <= i < self.arrays@.len() ==> compactions.arrays.is_reclaimed(i) == !self.arrays@[i]
    }

    /// A marked slot survives, so a handle to it still names a slot after
    /// the sweep.
    pub proof fn lemma_marked_target_survives(
        &self,
        compactions: &CompactionLists,
        before: &Heap,
        after: &Heap,
        object: Object,
    )
        requires
            self.fits(before),
            self.decides(compactions),
            compactions.is_valid(),
            compactions.made_for(before),
            after.is_compaction_of_swept(before, compactions),
            self.is_set(object),
        ensures
            after.has_slot(object.swept(compactions)),
    {
        match object {
            Object::Object(o) => {
                assert(!compactions.objects.is_reclaimed(o.0@));
                compactions.objects.lemma_survivor_moves(
                    swept_slab(before.objects@, compactions),
                    compactions.objects.slots(),
                    o.0@,
                );
            },
            Object::PrimitiveObject(p) => {
                assert(!compactions.primitive_objects.is_reclaimed(p.0@));
                compactions.primitive_objects.lemma_survivor_moves(
                    swept_slab(before.primitive_objects@, compactions),
                    compactions.primitive_objects.slots(),
                    p.0@,
                );
            },
            Object::BuiltinFunction(f) => {
                assert(!compactions.builtin_functions.is_reclaimed(f.0@));
                compactions.builtin_functions.lemma_survivor_moves(
                    swept_slab(before.builtin_functions@, compactions),
                    compactions.builtin_functions.slots(),
                    f.0@,
                );
            },
            Object::Array(a) => {
                assert(!compactions.arrays.is_reclaimed(a.0@));
                compactions.arrays.lemma_survivor_moves(
                    swept_slab(before.arrays@, compactions),
                    compactions.arrays.slots(),
                    a.0@,
                );
            },
        }
    }

    /// Where every marked entry refers to marked slots only, the heap is
    /// closed after the sweep.
    pub proof fn lemma_sweep_keeps_closed(
        &self,
        compactions: &CompactionLists,
        before: &Heap,
        after: &Heap,
    )
        requires
            self.fits(before),
            self.decides(compactions),
            self.closed_under(before),
            compactions.is_valid(),
            compactions.made_for(before),
            after.is_compaction_of_swept(before, compactions),
        ensures
            after.is_closed(),
    {
        assert forall|i: int|
            0 <= i < after.objects@.len() && after.objects@[i] is Some && (
            #[trigger] after.objects@[i]).unwrap().prototype is Some implies after.has_slot(
            after.objects@[i].unwrap().prototype.unwrap(),
        ) by {
            let slot = compactions.objects.lemma_survivor_origin(
                swept_slab(before.objects@, compactions),
                compactions.objects.slots(),
                i,
            );
            assert(self.objects@[slot]);
            let target = before.objects@[slot].unwrap().prototype.unwrap();
            self.lemma_marked_target_survives(compactions, before, after, target);
        }
        assert forall|i: int|
            0 <= i < after.primitive_objects@.len() && after.primitive_objects@[i] is Some && (
            #[trigger] after.primitive_objects@[i]).unwrap().object_index
                is Some implies after.has_slot(
            Object::Object(after.primitive_objects@[i].unwrap().object_index.unwrap()),
        ) by {
            let slot = compactions.primitive_objects.lemma_survivor_origin(
                swept_slab(before.primitive_objects@, compactions),
                compactions.primitive_objects.slots(),
                i,
            );
            assert(self.primitive_objects@[slot]);
            let target = Object::Object(
                before.primitive_objects@[slot].unwrap().object_index.unwrap(),
            );
            self.lemma_marked_target_survives(compactions, before, after, target);
        }
        assert forall|i: int|
            0 <= i < after.builtin_functions@.len() && after.builtin_functions@[i] is Some && (
            #[trigger] after.builtin_functions@[i]).unwrap().object_index
                is Some implies after.has_slot(
            Object::Object(after.builtin_functions@[i].unwrap().object_index.unwrap()),
        ) by {
            let slot = compactions.builtin_functions.lemma_survivor_origin(
                swept_slab(before.builtin_functions@, compactions),
                compactions.builtin_functions.slots(),
                i,
            );
            assert(self.builtin_functions@[slot]);
            let target = Object::Object(
                before.builtin_functions@[slot].unwrap().object_index.unwrap(),
            );
            self.lemma_marked_target_survives(compactions, before, after, target);
        }
        assert forall|i: int|
            0 <= i < after.arrays@.len() && after.arrays@[i] is Some && (
            #[trigger] after.arrays@[i]).unwrap().object_index is Some implies after.has_slot(
            Object::Object(after.arrays@[i].unwrap().object_index.unwrap()),
        ) by {
            let slot = compactions.arrays.lemma_survivor_origin(
                swept_slab(before.arrays@, compactions),
                compactions.arrays.slots(),
                i,
            );
            assert(self.arrays@[slot]);
            let target = Object::Object(before.arrays@[slot].unwrap().object_index.unwrap());
            self.lemma_marked_target_survives(compactions, before, after, target);
        }
    }

    /// There is one bit for every slot of `heap`.
    pub open spec fn fits(&self, heap: &Heap) -> bool {
        &&& self.objects@.len() == heap.objects@.len()
        &&& self.primitive_objects@.len() == heap.primitive_objects@.len()
        &&& self.builtin_functions@.len() == heap.builtin_functions@.len()
        &&& self.arrays@.len() == heap.arrays@.len()
    }

    /// The bit of every slot that `intrinsics` reserved is set.
    pub open spec fn marks(&self, intrinsics: &Intrinsics) -> bool {
        &&& forall|i: int|
            intrinsics.object_index_base@ <= i < intrinsics.object_index_base@
                + intrinsic_object_count() ==> #[trigger] self.objects@[i]
        &&& forall|i: int|
            intrinsics.primitive_object_index_base@ <= i
                < intrinsics.primitive_object_index_base@ + intrinsic_primitive_object_count()
                ==> #[trigger] self.primitive_objects@[i]
        &&& forall|i: int|
            intrinsics.builtin_function_index_base@ <= i
                < intrinsics.builtin_function_index_base@ + intrinsic_function_count()
                ==> #[trigger] self.builtin_functions@[i]
        &&& self.arrays@[intrinsics.array_prototype.0@]
    }
}

impl CompactionLists {
    /// The lists that reclaim exactly the slots whose bit is not set.
    pub fn from_heap_bits(bits: &HeapBits) -> (lists: Self)
        ensures
            lists.is_valid(),
            lists.objects.slots() == bits.objects@.len(),
            lists.primitive_objects.slots() == bits.primitive_objects@.len(),
            lists.builtin_functions.slots() == bits.builtin_functions@.len(),
            lists.arrays.slots() == bits.arrays@.len(),
            bits.decides(&lists),
    {
        CompactionLists {
            objects: CompactionList::from_mark_bits(&bits.objects),
            primitive_objects: CompactionList::from_mark_bits(&bits.primitive_objects),
            builtin_functions: CompactionList::from_mark_bits(&bits.builtin_functions),
            arrays: CompactionList::from_mark_bits(&bits.arrays),
        }
    }

    /// No slot that is on a worklist is reclaimed.
    pub open spec fn retains_queued(&self, queues: WorkQueuesView) -> bool {
        &&& forall|i: usize|
            i < self.objects.slots() && queues.objects.contains(ObjectIndex(i))
                ==> !#[trigger] self.objects.is_reclaimed(i as int)
        &&& forall|i: usize|
            i < self.primitive_objects.slots() && queues.primitive_objects.contains(
                PrimitiveObjectIndex(i),
            ) ==> !#[trigger] self.primitive_objects.is_reclaimed(i as int)
        &&& forall|i: usize|
            i < self.builtin_functions.slots() && queues.builtin_functions.contains(
                BuiltinFunctionIndex(i),
            ) ==> !#[trigger] self.builtin_functions.is_reclaimed(i as int)
        &&& forall|i: usize|
            i < self.arrays.slots() && queues.arrays.contains(ArrayIndex(i))
                ==> !#[trigger] self.arrays.is_reclaimed(i as int)
    }
}

impl Intrinsics {
    /// Marking puts every slot of the realm on the worklist of its slab.
    pub proof fn lemma_mark_values_holds_slots(&self, queues: WorkQueuesView)
        requires
            self.is_valid(),
        ensures
            forall|i: usize|
                self.object_index_base@ <= i < self.object_index_base@ + intrinsic_object_count()
                    ==> #[trigger] self.marked(queues).holds(
                    Object::Object(OrdinaryObject(ObjectIndex(i))),
                ),
            forall|i: usize|
                self.primitive_object_index_base@ <= i < self.primitive_object_index_base@
                    + intrinsic_primitive_object_count() ==> #[trigger] self.marked(queues).holds(
                    Object::PrimitiveObject(PrimitiveObject(PrimitiveObjectIndex(i))),
                ),
            forall|i: usize|
                self.builtin_function_index_base@ <= i < self.builtin_function_index_base@
                    + intrinsic_function_count() ==> #[trigger] self.marked(queues).holds(
                    Object::BuiltinFunction(BuiltinFunction(BuiltinFunctionIndex(i))),
                ),
            self.marked(queues).holds(Object::Array(self.array_prototype)),
    {
        let after = self.marked(queues);
        assert forall|i: usize|
            self.object_index_base@ <= i < self.object_index_base@
                + intrinsic_object_count() implies #[trigger] after.holds(
            Object::Object(OrdinaryObject(ObjectIndex(i))),
        ) by {
            assert(after.objects[queues.objects.len() + i - self.object_index_base@]
                == ObjectIndex(i));
        }
        assert forall|i: usize|
            self.primitive_object_index_base@ <= i < self.primitive_object_index_base@
                + intrinsic_primitive_object_count() implies #[trigger] after.holds(
            Object::PrimitiveObject(PrimitiveObject(PrimitiveObjectIndex(i))),
        ) by {
            assert(after.primitive_objects[queues.primitive_objects.len() + i
                - self.primitive_object_index_base@] == PrimitiveObjectIndex(i));
        }
        assert forall|i: usize|
            self.builtin_function_index_base@ <= i < self.builtin_function_index_base@
                + intrinsic_function_count() implies #[trigger] after.holds(
            Object::BuiltinFunction(BuiltinFunction(BuiltinFunctionIndex(i))),
        ) by {
            assert(after.builtin_functions[queues.builtin_functions.len() + i
                - self.builtin_function_index_base@] == BuiltinFunctionIndex(i));
        }
        assert(after.arrays[queues.arrays.len() as int] == self.array_prototype.0);
    }

    /// A registry that was marked loses no slot: if every slot on the
    /// worklists survives, every slot of the realm does.
    pub proof fn lemma_marked_registry_is_retained(
        &self,
        earlier: WorkQueuesView,
        compactions: &CompactionLists,
    )
        requires
            self.is_valid(),
            self.within(compactions),
            compactions.retains_queued(self.marked(earlier)),
        ensures
            self.retained_by(compactions),
    {
        let queues = self.marked(earlier);
        assert forall|i: int|
            self.object_index_base@ <= i < self.object_index_base@
                + intrinsic_object_count() implies !#[trigger] compactions.objects.is_reclaimed(
            i,
        ) by {
            assert(queues.objects[earlier.objects.len() + i - self.object_index_base@]
                == ObjectIndex(i as usize));
            assert(!compactions.objects.is_reclaimed((i as usize) as int));
        }
        assert forall|i: int|
            self.primitive_object_index_base@ <= i < self.primitive_object_index_base@
                + intrinsic_primitive_object_count() implies
                    !#[trigger] compactions.primitive_objects.is_reclaimed(
        i) by {
            assert(queues.primitive_objects[earlier.primitive_objects.len() + i
                - self.primitive_object_index_base@] == PrimitiveObjectIndex(i as usize));
            assert(!compactions.primitive_objects.is_reclaimed((i as usize) as int));
        }
        assert forall|i: int|
            self.builtin_function_index_base@ <= i < self.builtin_function_index_base@
                + intrinsic_function_count() implies
                    !#[trigger] compactions.builtin_functions.is_reclaimed(
        i) by {
            assert(queues.builtin_functions[earlier.builtin_functions.len() + i
                - self.builtin_function_index_base@] == BuiltinFunctionIndex(i as usize));
            assert(!compactions.builtin_functions.is_reclaimed((i as usize) as int));
        }
        assert(queues.arrays[earlier.arrays.len() as int] == self.array_prototype.0);
        assert(!compactions.arrays.is_reclaimed(self.array_prototype.0.0 as int));
    }
}

impl Agent {
    /// The registry of every realm is valid.
    pub open spec fn realms_are_valid(&self) -> bool {
        forall|i: int|
            0 <= i < self.heap.realms@.len() && self.heap.realms@[i] is Some ==> (
            #[trigger] self.heap.realms@[i]).unwrap().intrinsics.is_valid()
    }

    /// The registry of every realm lies within the slabs that `compactions`
    /// was made for.
    pub open spec fn realms_are_within(&self, compactions: &CompactionLists) -> bool {
        forall|i: int|
            0 <= i < self.heap.realms@.len() && self.heap.realms@[i] is Some ==> (
            #[trigger] self.heap.realms@[i]).unwrap().intrinsics.within(compactions)
    }

    /// The worklists after the registries of the first `count` realms have
    /// been marked, in the order of the realms.
    pub open spec fn marked_realms(&self, queues: WorkQueuesView, count: int) -> WorkQueuesView
        decreases count,
    {
        if count <= 0 {
            queues
        } else {
            let earlier = self.marked_realms(queues, count - 1);
            match self.heap.realms@[count - 1] {
                Some(realm) => realm.intrinsics.marked(earlier),
                None => earlier,
            }
        }
    }

    /// Marks the registry of every realm: one pass that makes the built-ins
    /// of all realms roots before anything is reclaimed.
    pub fn mark_realms(&self, queues: &mut WorkQueues)
        requires
            self.realms_are_valid(),
        ensures
            final(queues)@ == self.marked_realms(old(queues)@, self.heap.realms@.len() as int),
    {
        let mut next: usize = 0;
        while next < self.heap.realms.len()
            invariant
                next <= self.heap.realms@.len(),
                self.realms_are_valid(),
                queues@ == self.marked_realms(old(queues)@, next as int),
            decreases self.heap.realms@.len() - next,
        {
            match &self.heap.realms[next] {
                Some(realm) => {
                    realm.intrinsics.mark_values(queues);
                },
                None => {},
            }
            next = next + 1;
        }
    }

    /// After the realms have been marked, the worklists hold every handle
    /// of every realm that was marked, and all that they held before.
    pub proof fn lemma_marked_realms_hold(
        &self,
        queues: WorkQueuesView,
        count: int,
        realm: int,
        object: Object,
    )
        requires
            self.realms_are_valid(),
            0 <= realm < count <= self.heap.realms@.len(),
            self.heap.realms@[realm] is Some,
            self.heap.realms@[realm].unwrap().intrinsics.marked(queues).holds(object),
        ensures
            self.marked_realms(queues, count).holds(object),
        decreases count,
    {
        let earlier = self.marked_realms(queues, count - 1);
        if realm < count - 1 {
            self.lemma_marked_realms_hold(queues, count - 1, realm, object);
            match self.heap.realms@[count - 1] {
                Some(last) => {
                    last.intrinsics.lemma_mark_values_covers(earlier);
                },
                None => {},
            }
        } else {
            let registry = self.heap.realms@[realm].unwrap().intrinsics;
            self.lemma_marked_realms_keep(queues, count - 1);
            registry.lemma_mark_values_extends(queues, earlier, object);
        }
    }

    /// Marking realms puts nothing on the worklists but slots of realms:
    /// what is there afterwards was there before or is owned by one of the
    /// realms that were marked.
    pub proof fn lemma_marked_realms_origin(
        &self,
        queues: WorkQueuesView,
        count: int,
        object: Object,
    ) -> (realm: int)
        requires
            self.realms_are_valid(),
            0 <= count <= self.heap.realms@.len(),
            self.marked_realms(queues, count).holds(object),
            !queues.holds(object),
        ensures
            0 <= realm < count,
            self.heap.realms@[realm] is Some,
            self.heap.realms@[realm].unwrap().intrinsics.owns(object),
        decreases count,
    {
        let earlier = self.marked_realms(queues, count - 1);
        match self.heap.realms@[count - 1] {
            Some(last) => {
                last.intrinsics.lemma_mark_values_origin(earlier, object);
                if earlier.holds(object) {
                    self.lemma_marked_realms_origin(queues, count - 1, object)
                } else {
                    count - 1
                }
            },
            None => self.lemma_marked_realms_origin(queues, count - 1, object),
        }
    }

    /// Marking realms takes nothing off the worklists.
    pub proof fn lemma_marked_realms_keep(&self, queues: WorkQueuesView, count: int)
        requires
            self.realms_are_valid(),
            0 <= count <= self.heap.realms@.len(),
        ensures
            forall|object: Object|
                queues.holds(object) ==> #[trigger] self.marked_realms(queues, count).holds(
                    object,
                ),
        decreases count,
    {
        if count > 0 {
            self.lemma_marked_realms_keep(queues, count - 1);
            let earlier = self.marked_realms(queues, count - 1);
            match self.heap.realms@[count - 1] {
                Some(last) => {
                    last.intrinsics.lemma_mark_values_covers(earlier);
                },
                None => {},
            }
        }
    }

    /// Sweeps the registry of every realm. The slabs are left as they are.
    pub fn sweep_realms(&mut self, compactions: &CompactionLists)
        requires
            compactions.is_valid(),
            old(self).realms_are_within(compactions),
        ensures
            final(self).heap.realms@.len() == old(self).heap.realms@.len(),
            forall|i: int|
                0 <= i < old(self).heap.realms@.len() ==> #[trigger] final(self).heap.realms@[i]
                    == (match old(self).heap.realms@[i] {
                    Some(realm) => Some(Realm { intrinsics: realm.intrinsics.swept(compactions) }),
                    None => None,
                }),
            final(self).heap.objects@ == old(self).heap.objects@,
            final(self).heap.primitive_objects@ == old(self).heap.primitive_objects@,
            final(self).heap.builtin_functions@ == old(self).heap.builtin_functions@,
            final(self).heap.arrays@ == old(self).heap.arrays@,
    {
        let mut next: usize = 0;
        while next < self.heap.realms.len()
            invariant
                next <= self.heap.realms@.len(),
                compactions.is_valid(),
                old(self).realms_are_within(compactions),
                self.heap.realms@.len() == old(self).heap.realms@.len(),
                forall|i: int|
                    0 <= i < next ==> #[trigger] self.heap.realms@[i] == (match old(
                        self,
                    ).heap.realms@[i] {
                        Some(realm) => Some(
                            Realm { intrinsics: realm.intrinsics.swept(compactions) },
                        ),
                        None => None,
                    }),
                forall|i: int|
                    next <= i < self.heap.realms@.len() ==> #[trigger] self.heap.realms@[i] == old(
                        self,
                    ).heap.realms@[i],
                self.heap.objects@ == old(self).heap.objects@,
                self.heap.primitive_objects@ == old(self).heap.primitive_objects@,
                self.heap.builtin_functions@ == old(self).heap.builtin_functions@,
                self.heap.arrays@ == old(self).heap.arrays@,
            decreases self.heap.realms@.len() - next,
        {
            let found: Option<Realm> = self.heap.realms[next];
            match found {
                Some(realm) => {
                    let mut intrinsics = realm.intrinsics;
                    intrinsics.sweep_values(compactions);
                    self.heap.realms[next] = Some(Realm { intrinsics });
                },
                None => {},
            }
            next = next + 1;
        }
    }

    /// In a well-formed agent, the bits that come from marking the realms
    /// and nothing else are closed: the built-ins of a realm refer to
    /// built-ins of that realm only.
    proof fn lemma_roots_are_closed(
        &self,
        earlier: WorkQueuesView,
        queues: WorkQueuesView,
        bits: &HeapBits,
    )
        requires
            self.is_well_formed(),
            earlier.is_empty(),
            queues == self.marked_realms(earlier, self.heap.realms@.len() as int),
            bits.fits(&self.heap),
            bits.records(queues),
        ensures
            bits.closed_under(&self.heap),
    {
        self.lemma_well_formed_can_collect();
        let count = self.heap.realms@.len() as int;
        assert(self.heap.objects@.len() == self.heap.objects.len());
        assert(self.heap.primitive_objects@.len() == self.heap.primitive_objects.len());
        assert(self.heap.builtin_functions@.len() == self.heap.builtin_functions.len());
        assert(self.heap.arrays@.len() == self.heap.arrays.len());
        assert forall|i: int|
            0 <= i < self.heap.objects@.len() && bits.objects@[i] && self.heap.objects@[i] is Some
                && (#[trigger] self.heap.objects@[i]).unwrap().prototype is Some implies
                    bits.is_set(
            self.heap.objects@[i].unwrap().prototype.unwrap(),
        ) by {
            let slot = i as usize;
            assert(bits.objects@[slot as int]);
            let marked = Object::Object(OrdinaryObject(ObjectIndex(slot)));
            let realm = self.lemma_marked_realms_origin(earlier, count, marked);
            let registry = self.heap.realms@[realm].unwrap().intrinsics;
            let name = RealmIdentifier(realm as usize);
            assert(registry.bootstrapped_in(&self.heap, name));
            let offset = (i - registry.object_index_base@) as usize;
            assert(registry.object_slot(&self.heap, offset) == Some(
                registry.expected_object(offset),
            ));
            registry.lemma_expected_in_range(name);
            let target = self.heap.objects@[i].unwrap().prototype.unwrap();
            self.lemma_owned_is_set(earlier, queues, bits, realm, target);
        }
        assert forall|i: int|
            0 <= i < self.heap.primitive_objects@.len() && bits.primitive_objects@[i]
                && self.heap.primitive_objects@[i] is Some && (
            #[trigger] self.heap.primitive_objects@[i]).unwrap().object_index
                is Some implies bits.is_set(
            Object::Object(self.heap.primitive_objects@[i].unwrap().object_index.unwrap()),
        ) by {
            let slot = i as usize;
            assert(bits.primitive_objects@[slot as int]);
            let marked = Object::PrimitiveObject(PrimitiveObject(PrimitiveObjectIndex(slot)));
            let realm = self.lemma_marked_realms_origin(earlier, count, marked);
            let registry = self.heap.realms@[realm].unwrap().intrinsics;
            let name = RealmIdentifier(realm as usize);
            assert(registry.bootstrapped_in(&self.heap, name));
            let offset = (i - registry.primitive_object_index_base@) as usize;
            assert(registry.primitive_object_slot(&self.heap, offset) == Some(
                registry.expected_primitive_object(offset),
            ));
            registry.lemma_expected_in_range(name);
            let target = Object::Object(
                self.heap.primitive_objects@[i].unwrap().object_index.unwrap(),
            );
            self.lemma_owned_is_set(earlier, queues, bits, realm, target);
        }
        assert forall|i: int|
            0 <= i < self.heap.builtin_functions@.len() && bits.builtin_functions@[i]
                && self.heap.builtin_functions@[i] is Some && (
            #[trigger] self.heap.builtin_functions@[i]).unwrap().object_index
                is Some implies bits.is_set(
            Object::Object(self.heap.builtin_functions@[i].unwrap().object_index.unwrap()),
        ) by {
            let slot = i as usize;
            assert(bits.builtin_functions@[slot as int]);
            let marked = Object::BuiltinFunction(BuiltinFunction(BuiltinFunctionIndex(slot)));
            let realm = self.lemma_marked_realms_origin(earlier, count, marked);
            let registry = self.heap.realms@[realm].unwrap().intrinsics;
            let name = RealmIdentifier(realm as usize);
            assert(registry.bootstrapped_in(&self.heap, name));
            let offset = (i - registry.builtin_function_index_base@) as usize;
            assert(registry.builtin_function_slot(&self.heap, offset) == Some(
                registry.expected_builtin_function(offset, name),
            ));
            registry.lemma_expected_in_range(name);
            let target = Object::Object(
                self.heap.builtin_functions@[i].unwrap().object_index.unwrap(),
            );
            self.lemma_owned_is_set(earlier, queues, bits, realm, target);
        }
        assert forall|i: int|
            0 <= i < self.heap.arrays@.len() && bits.arrays@[i] && self.heap.arrays@[i] is Some
                && (#[trigger] self.heap.arrays@[i]).unwrap().object_index
                is Some implies bits.is_set(
            Object::Object(self.heap.arrays@[i].unwrap().object_index.unwrap()),
        ) by {
            let slot = i as usize;
            assert(bits.arrays@[slot as int]);
            let marked = Object::Array(Array(ArrayIndex(slot)));
            let realm = self.lemma_marked_realms_origin(earlier, count, marked);
            let registry = self.heap.realms@[realm].unwrap().intrinsics;
            let name = RealmIdentifier(realm as usize);
            assert(registry.bootstrapped_in(&self.heap, name));
            registry.lemma_expected_in_range(name);
            let target = Object::Object(self.heap.arrays@[i].unwrap().object_index.unwrap());
            self.lemma_owned_is_set(earlier, queues, bits, realm, target);
        }
    }

    /// The bit of every slot that a marked realm owns is set.
    proof fn lemma_owned_is_set(
        &self,
        earlier: WorkQueuesView,
        queues: WorkQueuesView,
        bits: &HeapBits,
        realm: int,
        object: Object,
    )
        requires
            self.realms_are_valid(),
            self.realms_are_reserved(),
            0 <= realm < self.heap.realms@.len(),
            self.heap.realms@[realm] is Some,
            self.heap.realms@[realm].unwrap().intrinsics.owns(object),
            queues == self.marked_realms(earlier, self.heap.realms@.len() as int),
            bits.fits(&self.heap),
            bits.records(queues),
        ensures
            bits.is_set(object),
    {
        let registry = self.heap.realms@[realm].unwrap().intrinsics;
        assert(registry.reserved_in(&self.heap));
        registry.lemma_mark_values_holds_slots(earlier);
        match object {
            Object::Object(o) => {
                assert(registry.marked(earlier).holds(
                    Object::Object(OrdinaryObject(ObjectIndex(o.0.0))),
                ));
                self.lemma_marked_realms_hold(
                    earlier,
                    self.heap.realms@.len() as int,
                    realm,
                    object,
                );
                assert(bits.objects@[o.0.0 as int]);
            },
            Object::PrimitiveObject(p) => {
                assert(registry.marked(earlier).holds(
                    Object::PrimitiveObject(PrimitiveObject(PrimitiveObjectIndex(p.0.0))),
                ));
                self.lemma_marked_realms_hold(
                    earlier,
                    self.heap.realms@.len() as int,
                    realm,
                    object,
                );
                assert(bits.primitive_objects@[p.0.0 as int]);
            },
            Object::BuiltinFunction(f) => {
                assert(registry.marked(earlier).holds(
                    Object::BuiltinFunction(BuiltinFunction(BuiltinFunctionIndex(f.0.0))),
                ));
                self.lemma_marked_realms_hold(
                    earlier,
                    self.heap.realms@.len() as int,
                    realm,
                    object,
                );
                assert(bits.builtin_functions@[f.0.0 as int]);
            },
            Object::Array(a) => {
                self.lemma_marked_realms_hold(
                    earlier,
                    self.heap.realms@.len() as int,
                    realm,
                    object,
                );
                assert(bits.arrays@[a.0.0 as int]);
            },
        }
    }

    /// The mark phase, as far as the realms go: marks the registry of every
    /// realm and sets the bits of what that put on the worklists. All slots
    /// of all realms are marked afterwards. `queues` holds the roots for
    /// whoever traces from them.
    pub fn mark_roots(&self, queues: &mut WorkQueues) -> (bits: HeapBits)
        requires
            self.realms_are_reserved(),
        ensures
            final(queues)@ == self.marked_realms(old(queues)@, self.heap.realms@.len() as int),
            bits.fits(&self.heap),
            forall|i: int|
                0 <= i < self.heap.realms@.len() && self.heap.realms@[i] is Some ==> bits.marks(
                    &(#[trigger] self.heap.realms@[i]).unwrap().intrinsics,
                ),
            bits.records(final(queues)@),
            old(queues)@.is_empty() && self.is_well_formed() ==> bits.closed_under(&self.heap),
    {
        proof {
            self.lemma_reserved_realms_are_valid();
        }
        self.mark_realms(queues);
        let mut bits = HeapBits::new(&self.heap);
        bits.mark_queued(queues);
        proof {
            if old(queues)@.is_empty() && self.is_well_formed() {
                self.lemma_roots_are_closed(old(queues)@, queues@, &bits);
            }
        }
        proof {
            let count = self.heap.realms@.len() as int;
            assert forall|i: int|
                0 <= i < self.heap.realms@.len() && self.heap.realms@[i] is Some implies bits.marks(
                &(#[trigger] self.heap.realms@[i]).unwrap().intrinsics,
            ) by {
                let registry = self.heap.realms@[i].unwrap().intrinsics;
                assert(registry.reserved_in(&self.heap));
                registry.lemma_mark_values_holds_slots(old(queues)@);
                assert forall|k: int|
                    registry.object_index_base@ <= k < registry.object_index_base@
                        + intrinsic_object_count() implies #[trigger] bits.objects@[k] by {
                    let slot = k as usize;
                    self.lemma_marked_realms_hold(
                        old(queues)@,
                        count,
                        i,
                        Object::Object(OrdinaryObject(ObjectIndex(slot))),
                    );
                    assert(bits.objects@[slot as int]);
                }
                assert forall|k: int|
                    registry.primitive_object_index_base@ <= k
                        < registry.primitive_object_index_base@
                        + intrinsic_primitive_object_count() implies
                            #[trigger] bits.primitive_objects@[k] by {
                    let slot = k as usize;
                    self.lemma_marked_realms_hold(
                        old(queues)@,
                        count,
                        i,
                        Object::PrimitiveObject(PrimitiveObject(PrimitiveObjectIndex(slot))),
                    );
                    assert(bits.primitive_objects@[slot as int]);
                }
                assert forall|k: int|
                    registry.builtin_function_index_base@ <= k
                        < registry.builtin_function_index_base@
                        + intrinsic_function_count() implies
                            #[trigger] bits.builtin_functions@[k] by {
                    let slot = k as usize;
                    self.lemma_marked_realms_hold(
                        old(queues)@,
                        count,
                        i,
                        Object::BuiltinFunction(BuiltinFunction(BuiltinFunctionIndex(slot))),
                    );
                    assert(bits.builtin_functions@[slot as int]);
                }
                self.lemma_marked_realms_hold(
                    old(queues)@,
                    count,
                    i,
                    Object::Array(registry.array_prototype),
                );
                assert(bits.arrays@[registry.array_prototype.0.0 as int]);
            }
        }
        bits
    }
}

impl Heap {
    /// Whether this heap is `before` with every entry swept and the
    /// reclaimed slots of every slab dropped.
    pub open spec fn is_compaction_of_swept(
        &self,
        before: &Heap,
        compactions: &CompactionLists,
    ) -> bool {
        &&& self.objects@ == compactions.objects.compacted(
            swept_slab(before.objects@, compactions),
        )
        &&& self.primitive_objects@ == compactions.primitive_objects.compacted(
            swept_slab(before.primitive_objects@, compactions),
        )
        &&& self.builtin_functions@ == compactions.builtin_functions.compacted(
            swept_slab(before.builtin_functions@, compactions),
        )
        &&& self.arrays@ == compactions.arrays.compacted(swept_slab(before.arrays@, compactions))
    }

    /// Every entry of every slab can be swept.
    pub open spec fn entries_can_sweep(&self, compactions: &CompactionLists) -> bool {
        &&& slab_can_sweep(self.objects@, compactions)
        &&& slab_can_sweep(self.primitive_objects@, compactions)
        &&& slab_can_sweep(self.builtin_functions@, compactions)
        &&& slab_can_sweep(self.arrays@, compactions)
    }

    /// In a closed heap every entry can be swept by lists made for it.
    pub proof fn lemma_closed_can_sweep(&self, compactions: &CompactionLists)
        requires
            self.is_closed(),
            compactions.is_valid(),
            compactions.made_for(self),
        ensures
            self.entries_can_sweep(compactions),
    {
        assert forall|i: int|
            0 <= i < self.objects@.len() && self.objects@[i] is Some implies (
        #[trigger] self.objects@[i]).unwrap().can_sweep(compactions) by {
            if self.objects@[i].unwrap().prototype is Some {
                assert(self.has_slot(self.objects@[i].unwrap().prototype.unwrap()));
            }
        }
    }

    /// Sweeps the entries of every slab: every handle that an entry holds
    /// moves down by the number of reclaimed slots before it. No entry
    /// changes its place.
    pub fn sweep_entries(&mut self, compactions: &CompactionLists)
        requires
            old(self).entries_can_sweep(compactions),
        ensures
            final(self).objects@ == swept_slab(old(self).objects@, compactions),
            final(self).primitive_objects@ == swept_slab(
                old(self).primitive_objects@,
                compactions,
            ),
            final(self).builtin_functions@ == swept_slab(
                old(self).builtin_functions@,
                compactions,
            ),
            final(self).arrays@ == swept_slab(old(self).arrays@, compactions),
            final(self).realms@ == old(self).realms@,
    {
        sweep_slab_entries(&mut self.objects, compactions);
        sweep_slab_entries(&mut self.primitive_objects, compactions);
        sweep_slab_entries(&mut self.builtin_functions, compactions);
        sweep_slab_entries(&mut self.arrays, compactions);
    }
}

impl Intrinsics {
    /// Every slot of this registry in `heap` holds what the slot at the same
    /// offset of `before` held in `before_heap`.
    pub open spec fn same_slots(
        &self,
        heap: &Heap,
        before: &Intrinsics,
        before_heap: &Heap,
    ) -> bool {
        &&& forall|offset: int|
            0 <= offset < intrinsic_object_count()
                ==> #[trigger] heap.objects@[self.object_index_base@
                + offset] == before_heap.objects@[before.object_index_base@ + offset]
        &&& forall|offset: int|
            0 <= offset < intrinsic_primitive_object_count()
                ==> #[trigger] heap.primitive_objects@[self.primitive_object_index_base@ + offset]
                == before_heap.primitive_objects@[before.primitive_object_index_base@ + offset]
        &&& forall|offset: int|
            0 <= offset < intrinsic_function_count()
                ==> #[trigger] heap.builtin_functions@[self.builtin_function_index_base@ + offset]
                == before_heap.builtin_functions@[before.builtin_function_index_base@ + offset]
        &&& heap.arrays@[self.array_prototype.0@] == before_heap.arrays@[before.array_prototype.0@]
    }

    /// Compaction moves a retained realm as a whole: the swept registry
    /// finds, at every offset, what the registry found there before.
    pub proof fn lemma_sweep_keeps_slots(
        &self,
        compactions: &CompactionLists,
        before: &Heap,
        after: &Heap,
    )
        requires
            compactions.is_valid(),
            compactions.made_for(before),
            self.reserved_in(before),
            self.retained_by(compactions),
            after.is_compaction_of(before, compactions),
        ensures
            self.swept(compactions).reserved_in(after),
            self.swept(compactions).same_slots(after, self, before),
    {
        let swept = self.swept(compactions);
        self.lemma_sweep_preserves_identity(compactions, before, after);
        assert(compactions.objects.shifts@[self.object_index_base@] <= self.object_index_base@);
        assert(compactions.primitive_objects.shifts@[self.primitive_object_index_base@]
            <= self.primitive_object_index_base@);
        assert(compactions.builtin_functions.shifts@[self.builtin_function_index_base@]
            <= self.builtin_function_index_base@);
        assert forall|offset: int| 0 <= offset < intrinsic_object_count() implies (
        #[trigger] after.objects@[swept.object_index_base@ + offset])
            == before.objects@[self.object_index_base@ + offset] by {
            compactions.objects.lemma_compaction_keeps_run(
                before.objects@,
                self.object_index_base@,
                intrinsic_object_count() as int,
                offset,
            );
        }
        assert forall|offset: int| 0 <= offset < intrinsic_primitive_object_count() implies (
        #[trigger] after.primitive_objects@[swept.primitive_object_index_base@ + offset])
            == before.primitive_objects@[self.primitive_object_index_base@ + offset] by {
            compactions.primitive_objects.lemma_compaction_keeps_run(
                before.primitive_objects@,
                self.primitive_object_index_base@,
                intrinsic_primitive_object_count() as int,
                offset,
            );
        }
        assert forall|offset: int| 0 <= offset < intrinsic_function_count() implies (
        #[trigger] after.builtin_functions@[swept.builtin_function_index_base@ + offset])
            == before.builtin_functions@[self.builtin_function_index_base@ + offset] by {
            compactions.builtin_functions.lemma_compaction_keeps_run(
                before.builtin_functions@,
                self.builtin_function_index_base@,
                intrinsic_function_count() as int,
                offset,
            );
        }
    }

    /// Every slot of this registry in `heap` holds the entry, swept, that
    /// the slot at the same offset of `before` held in `before_heap`.
    pub open spec fn moved_slots(
        &self,
        heap: &Heap,
        before: &Intrinsics,
        before_heap: &Heap,
        compactions: &CompactionLists,
    ) -> bool {
        &&& forall|offset: int|
            0 <= offset < intrinsic_object_count()
                ==> #[trigger] heap.objects@[self.object_index_base@ + offset] == swept_slot(
                before_heap.objects@[before.object_index_base@ + offset],
                compactions,
            )
        &&& forall|offset: int|
            0 <= offset < intrinsic_primitive_object_count()
                ==> #[trigger] heap.primitive_objects@[self.primitive_object_index_base@ + offset]
                == swept_slot(
                before_heap.primitive_objects@[before.primitive_object_index_base@ + offset],
                compactions,
            )
        &&& forall|offset: int|
            0 <= offset < intrinsic_function_count()
                ==> #[trigger] heap.builtin_functions@[self.builtin_function_index_base@ + offset]
                == swept_slot(
                before_heap.builtin_functions@[before.builtin_function_index_base@ + offset],
                compactions,
            )
        &&& heap.arrays@[self.array_prototype.0@] == swept_slot(
            before_heap.arrays@[before.array_prototype.0@],
            compactions,
        )
    }

    /// What bootstrap puts in a slot moves with the registry: sweeping the
    /// entry that a registry expects gives the entry that the swept registry
    /// expects.
    pub proof fn lemma_expected_moves(&self, compactions: &CompactionLists, realm: RealmIdentifier)
        requires
            compactions.is_valid(),
            self.within(compactions),
            self.retained_by(compactions),
        ensures
            forall|offset: usize|
                offset < intrinsic_object_count() ==> (#[trigger] self.expected_object(
                    offset,
                )).swept(compactions) == self.swept(compactions).expected_object(offset),
            forall|offset: usize|
                offset < intrinsic_primitive_object_count()
                    ==> (#[trigger] self.expected_primitive_object(offset)).swept(compactions)
                    == self.swept(compactions).expected_primitive_object(offset),
            forall|offset: usize|
                offset < intrinsic_function_count() ==> (#[trigger] self.expected_builtin_function(
                    offset,
                    realm,
                )).swept(compactions) == self.swept(compactions).expected_builtin_function(
                    offset,
                    realm,
                ),
            self.expected_array_prototype().swept(compactions) == self.swept(
                compactions,
            ).expected_array_prototype(),
    {
        let swept = self.swept(compactions);
        assert(compactions.objects.shifts@.len() == compactions.objects.shifts.len());
        assert(compactions.builtin_functions.shifts@.len()
            == compactions.builtin_functions.shifts.len());
        assert(compactions.objects.shifts@[self.object_index_base@] <= self.object_index_base@);
        assert(compactions.builtin_functions.shifts@[self.builtin_function_index_base@]
            <= self.builtin_function_index_base@);
        assert forall|offset: int| 0 <= offset < intrinsic_object_count() implies (
        #[trigger] compactions.objects.shifted(self.object_index_base@ + offset))
            == compactions.objects.shifted(self.object_index_base@) + offset by {
            compactions.objects.lemma_run_moves_together(
                self.object_index_base@,
                intrinsic_object_count() as int,
                offset,
            );
        }
        assert forall|offset: int| 0 <= offset < intrinsic_function_count() implies (
        #[trigger] compactions.builtin_functions.shifted(
            self.builtin_function_index_base@ + offset,
        )) == compactions.builtin_functions.shifted(self.builtin_function_index_base@)
            + offset by {
            compactions.builtin_functions.lemma_run_moves_together(
                self.builtin_function_index_base@,
                intrinsic_function_count() as int,
                offset,
            );
        }
        assert forall|offset: usize| offset < intrinsic_object_count() implies (
        #[trigger] self.expected_object(offset)).swept(compactions) == swept.expected_object(
            offset,
        ) by {
            match object_plan(offset).prototype {
                IntrinsicPrototype::Null => {},
                IntrinsicPrototype::Object(name) => {
                    name.lemma_ordinal_round_trip();
                    assert(compactions.objects.shifted(
                        self.object_index_base@ + name.object_offset(),
                    ) == compactions.objects.shifted(self.object_index_base@)
                        + name.object_offset());
                },
                IntrinsicPrototype::Constructor(name) => {
                    name.lemma_ordinal_round_trip();
                    assert(compactions.builtin_functions.shifted(
                        self.builtin_function_index_base@ + name.builtin_function_offset(),
                    ) == compactions.builtin_functions.shifted(self.builtin_function_index_base@)
                        + name.builtin_function_offset());
                },
            }
        }
        assert forall|offset: usize| offset < intrinsic_primitive_object_count() implies (
        #[trigger] self.expected_primitive_object(offset)).swept(compactions)
            == swept.expected_primitive_object(offset) by {
            let bag = primitive_object_plan(offset).object_offset as int;
            assert(compactions.objects.shifted(self.object_index_base@ + bag)
                == compactions.objects.shifted(self.object_index_base@) + bag);
        }
        assert forall|offset: usize| offset < intrinsic_function_count() implies (
        #[trigger] self.expected_builtin_function(offset, realm)).swept(compactions)
            == swept.expected_builtin_function(offset, realm) by {
            match builtin_function_plan(offset).object_offset {
                Some(bag) => {
                    if offset < crate::heap_constants::FUNCTION_FAMILY_OFFSET {
                        crate::heap_constants::IntrinsicConstructorIndexes::lemma_ordinals_dense(
                            offset as int,
                        );
                    }
                    assert(compactions.objects.shifted(self.object_index_base@ + bag)
                        == compactions.objects.shifted(self.object_index_base@) + bag);
                },
                None => {},
            }
        }
        let bag = crate::heap_constants::IntrinsicObjectIndexes::ArrayPrototype.object_offset();
        assert(compactions.objects.shifted(self.object_index_base@ + bag)
            == compactions.objects.shifted(self.object_index_base@) + bag);
    }

    /// Realms that are disjoint and retained are disjoint after the sweep.
    pub proof fn lemma_swept_stay_disjoint(&self, other: &Intrinsics, compactions: &CompactionLists)
        requires
            compactions.is_valid(),
            self.within(compactions),
            other.within(compactions),
            self.retained_by(compactions),
            other.retained_by(compactions),
            self.disjoint_from(other),
        ensures
            self.swept(compactions).disjoint_from(&other.swept(compactions)),
    {
        assert(compactions.objects.shifts@.len() == compactions.objects.shifts.len());
        assert(compactions.primitive_objects.shifts@.len()
            == compactions.primitive_objects.shifts.len());
        assert(compactions.builtin_functions.shifts@.len()
            == compactions.builtin_functions.shifts.len());
        assert(compactions.arrays.shifts@.len() == compactions.arrays.shifts.len());
        lemma_runs_stay_apart(
            &compactions.objects,
            self.object_index_base@,
            other.object_index_base@,
            intrinsic_object_count() as int,
        );
        lemma_runs_stay_apart(
            &compactions.primitive_objects,
            self.primitive_object_index_base@,
            other.primitive_object_index_base@,
            intrinsic_primitive_object_count() as int,
        );
        lemma_runs_stay_apart(
            &compactions.builtin_functions,
            self.builtin_function_index_base@,
            other.builtin_function_index_base@,
            intrinsic_function_count() as int,
        );
        lemma_runs_stay_apart(
            &compactions.arrays,
            self.array_prototype.0@,
            other.array_prototype.0@,
            1,
        );
    }
}

/// Two runs of survivors that do not overlap do not overlap after
/// compaction.
proof fn lemma_runs_stay_apart(list: &CompactionList, a: int, b: int, count: int)
    requires
        list.is_valid(),
        0 <= a,
        0 <= b,
        0 <= count,
        a + count <= list.slots(),
        b + count <= list.slots(),
        list.retains(a, count),
        list.retains(b, count),
        a + count <= b || b + count <= a,
    ensures
        0 <= list.shifted(a),
        0 <= list.shifted(b),
        list.shifted(a) + count <= list.shifted(b) || list.shifted(b) + count <= list.shifted(a),
{
    assert(list.shifts@[a] <= a);
    assert(list.shifts@[b] <= b);
    list.lemma_run_moves_together(a, count, count);
    list.lemma_run_moves_together(b, count, count);
    if a + count <= b {
        list.lemma_shifted_monotone(a + count, b);
    } else {
        list.lemma_shifted_monotone(b + count, a);
    }
}

impl Agent {
    /// A registry whose slots the heap holds is valid.
    pub proof fn lemma_reserved_realms_are_valid(&self)
        requires
            self.realms_are_reserved(),
        ensures
            self.realms_are_valid(),
    {
        assert(self.heap.objects@.len() == self.heap.objects.len());
        assert(self.heap.primitive_objects@.len() == self.heap.primitive_objects.len());
        assert(self.heap.builtin_functions@.len() == self.heap.builtin_functions.len());
        assert forall|i: int|
            0 <= i < self.heap.realms@.len() && self.heap.realms@[i] is Some implies (
        #[trigger] self.heap.realms@[i]).unwrap().intrinsics.is_valid() by {
            assert(self.heap.realms@[i].unwrap().intrinsics.reserved_in(&self.heap));
        }
    }

    /// A well-formed agent is fit for both phases.
    pub proof fn lemma_well_formed_can_collect(&self)
        requires
            self.is_well_formed(),
        ensures
            self.realms_are_valid(),
            self.realms_are_reserved(),
    {
        assert forall|i: int|
            0 <= i < self.heap.realms@.len() && self.heap.realms@[i] is Some implies (
        #[trigger] self.heap.realms@[i]).unwrap().intrinsics.reserved_in(&self.heap) by {
            assert(self.heap.realms@[i].unwrap().intrinsics.bootstrapped_in(
                &self.heap,
                RealmIdentifier(i as usize),
            ));
        }
    }

    /// The slots of every realm lie within the heap.
    pub open spec fn realms_are_reserved(&self) -> bool {
        forall|i: int|
            0 <= i < self.heap.realms@.len() && self.heap.realms@[i] is Some ==> (
            #[trigger] self.heap.realms@[i]).unwrap().intrinsics.reserved_in(&self.heap)
    }

    /// The sweep phase: rewrites the handles in every entry, drops every
    /// slot whose bit is not set, moves the survivors down, and rewrites the
    /// bases of every realm. Where the bits mark all slots of the realms,
    /// every realm finds each of its built-ins again, holding what it held,
    /// and a well-formed agent stays well-formed. Returns the compaction
    /// lists for whoever else holds handles.
    pub fn sweep(&mut self, bits: &HeapBits) -> (compactions: CompactionLists)
        requires
            bits.fits(&old(self).heap),
            old(self).heap.is_closed(),
            old(self).realms_are_reserved(),
            forall|i: int|
                0 <= i < old(self).heap.realms@.len() && old(self).heap.realms@[i] is Some
                    ==> bits.marks(&(#[trigger] old(self).heap.realms@[i]).unwrap().intrinsics),
        ensures
            compactions.is_valid(),
            compactions.made_for(&old(self).heap),
            bits.decides(&compactions),
            final(self).heap.is_compaction_of_swept(&old(self).heap, &compactions),
            bits.closed_under(&old(self).heap) ==> final(self).heap.is_closed(),
            final(self).heap.realms@.len() == old(self).heap.realms@.len(),
            forall|i: int|
                0 <= i < old(self).heap.realms@.len() ==> #[trigger] final(self).heap.realms@[i]
                    == (match old(self).heap.realms@[i] {
                    Some(realm) => Some(Realm { intrinsics: realm.intrinsics.swept(&compactions) }),
                    None => None,
                }),
            final(self).realms_are_reserved(),
            forall|i: int|
                0 <= i < old(self).heap.realms@.len() && old(self).heap.realms@[i] is Some ==> (
                #[trigger] final(self).heap.realms@[i]).unwrap().intrinsics.moved_slots(
                    &final(self).heap,
                    &old(self).heap.realms@[i].unwrap().intrinsics,
                    &old(self).heap,
                    &compactions,
                ),
            old(self).is_well_formed() ==> final(self).is_well_formed(),
    {
        let compactions = CompactionLists::from_heap_bits(bits);
        proof {
            self.heap.lemma_closed_can_sweep(&compactions);
            assert forall|i: int|
                0 <= i < self.heap.realms@.len() && self.heap.realms@[i] is Some implies (
            #[trigger] self.heap.realms@[i]).unwrap().intrinsics.within(&compactions) by {
                assert(self.heap.realms@[i].unwrap().intrinsics.reserved_in(&self.heap));
            }
        }
        self.heap.sweep_entries(&compactions);
        let ghost rewritten = self.heap;
        self.heap.compact(&compactions);
        let ghost compacted = self.heap;
        self.sweep_realms(&compactions);
        proof {
            assert forall|i: int|
                0 <= i < old(self).heap.realms@.len() && old(self).heap.realms@[i] is Some implies {
                &&& (#[trigger] self.heap.realms@[i]).unwrap().intrinsics.reserved_in(&self.heap)
                &&& self.heap.realms@[i].unwrap().intrinsics.moved_slots(
                    &self.heap,
                    &old(self).heap.realms@[i].unwrap().intrinsics,
                    &old(self).heap,
                    &compactions,
                )
            } by {
                let registry = old(self).heap.realms@[i].unwrap().intrinsics;
                assert(registry.reserved_in(&old(self).heap));
                assert(bits.marks(&registry));
                assert(compacted.realms@[i] == old(self).heap.realms@[i]);
                registry.lemma_sweep_keeps_slots(&compactions, &rewritten, &compacted);
            }
            if old(self).is_well_formed() {
                self.lemma_sweep_keeps_well_formed(old(self), &compactions);
            }
            if bits.closed_under(&old(self).heap) {
                bits.lemma_sweep_keeps_closed(&compactions, &old(self).heap, &compacted);
            }
        }
        compactions
    }

    /// A sweep that retains every realm leaves a well-formed agent
    /// well-formed: every realm is bootstrapped in the new heap, with every
    /// link and every property-bag handle pointing where its target went.
    proof fn lemma_sweep_keeps_well_formed(&self, before: &Agent, compactions: &CompactionLists)
        requires
            before.is_well_formed(),
            compactions.is_valid(),
            compactions.made_for(&before.heap),
            self.heap.realms@.len() == before.heap.realms@.len(),
            forall|i: int|
                0 <= i < before.heap.realms@.len() ==> #[trigger] self.heap.realms@[i] == (
                match before.heap.realms@[i] {
                    Some(realm) => Some(Realm { intrinsics: realm.intrinsics.swept(compactions) }),
                    None => None,
                }),
            forall|i: int|
                0 <= i < before.heap.realms@.len() && before.heap.realms@[i] is Some ==> {
                    &&& (#[trigger] before.heap.realms@[i]).unwrap().intrinsics.retained_by(
                        compactions,
                    )
                    &&& self.heap.realms@[i].unwrap().intrinsics.reserved_in(&self.heap)
                    &&& self.heap.realms@[i].unwrap().intrinsics.moved_slots(
                        &self.heap,
                        &before.heap.realms@[i].unwrap().intrinsics,
                        &before.heap,
                        compactions,
                    )
                },
        ensures
            self.is_well_formed(),
    {
        assert forall|i: int|
            0 <= i < self.heap.realms@.len() && self.heap.realms@[i] is Some implies {
            &&& (#[trigger] self.heap.realms@[i]).unwrap().intrinsics.is_valid()
            &&& self.heap.realms@[i].unwrap().intrinsics.bootstrapped_in(
                &self.heap,
                RealmIdentifier(i as usize),
            )
        } by {
            let name = RealmIdentifier(i as usize);
            let earlier = before.heap.realms@[i].unwrap().intrinsics;
            let later = self.heap.realms@[i].unwrap().intrinsics;
            assert(earlier.retained_by(compactions));
            assert(earlier.bootstrapped_in(&before.heap, name));
            assert(later.reserved_in(&self.heap));
            assert(self.heap.objects@.len() == self.heap.objects.len());
            assert(self.heap.primitive_objects@.len() == self.heap.primitive_objects.len());
            assert(self.heap.builtin_functions@.len() == self.heap.builtin_functions.len());
            earlier.lemma_expected_moves(compactions, name);
            assert forall|offset: usize| offset < intrinsic_object_count() implies (
            #[trigger] later.object_slot(&self.heap, offset)) == Some(
                later.expected_object(offset),
            ) by {
                assert(earlier.object_slot(&before.heap, offset) == Some(
                    earlier.expected_object(offset),
                ));
                assert(self.heap.objects@[later.object_index_base@ + offset] == swept_slot(
                    before.heap.objects@[earlier.object_index_base@ + offset],
                    compactions,
                ));
            }
            assert forall|offset: usize| offset < intrinsic_primitive_object_count() implies (
            #[trigger] later.primitive_object_slot(&self.heap, offset)) == Some(
                later.expected_primitive_object(offset),
            ) by {
                assert(earlier.primitive_object_slot(&before.heap, offset) == Some(
                    earlier.expected_primitive_object(offset),
                ));
                assert(self.heap.primitive_objects@[later.primitive_object_index_base@ + offset]
                    == swept_slot(
                    before.heap.primitive_objects@[earlier.primitive_object_index_base@ + offset],
                    compactions,
                ));
            }
            assert forall|offset: usize| offset < intrinsic_function_count() implies (
            #[trigger] later.builtin_function_slot(&self.heap, offset)) == Some(
                later.expected_builtin_function(offset, name),
            ) by {
                assert(earlier.builtin_function_slot(&before.heap, offset) == Some(
                    earlier.expected_builtin_function(offset, name),
                ));
                assert(self.heap.builtin_functions@[later.builtin_function_index_base@ + offset]
                    == swept_slot(
                    before.heap.builtin_functions@[earlier.builtin_function_index_base@ + offset],
                    compactions,
                ));
            }
        }
        assert forall|i: int, j: int|
            0 <= i < self.heap.realms@.len() && 0 <= j < self.heap.realms@.len() && i != j
                && self.heap.realms@[i] is Some && self.heap.realms@[j] is Some implies (
        #[trigger] self.heap.realms@[i]).unwrap().intrinsics.disjoint_from(
            &(#[trigger] self.heap.realms@[j]).unwrap().intrinsics,
        ) by {
            let a = before.heap.realms@[i].unwrap().intrinsics;
            let b = before.heap.realms@[j].unwrap().intrinsics;
            assert(a.disjoint_from(&b));
            assert(a.bootstrapped_in(&before.heap, RealmIdentifier(i as usize)));
            assert(b.bootstrapped_in(&before.heap, RealmIdentifier(j as usize)));
            assert(a.retained_by(compactions));
            assert(b.retained_by(compactions));
            a.lemma_swept_stay_disjoint(&b, compactions);
        }
    }
}

} // verus!
