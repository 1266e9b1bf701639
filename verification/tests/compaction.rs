use realm_intrinsics::compaction::{compact_slab, CompactionList, CompactionLists};
use realm_intrinsics::heap::{Agent, ObjectHeapData};
use realm_intrinsics::indexes::{
    Array, ArrayIndex, BuiltinFunction, BuiltinFunctionIndex, ObjectIndex, OrdinaryObject,
    PrimitiveObject, PrimitiveObjectIndex,
};
use realm_intrinsics::intrinsics::Intrinsics;
use realm_intrinsics::collector::HeapBits;
use realm_intrinsics::mark_and_sweep::{HeapMarkAndSweep, WorkQueues};

fn lists(objects: &[bool], primitive_objects: &[bool], functions: &[bool], arrays: &[bool]) -> CompactionLists {
    CompactionLists {
        objects: CompactionList::from_mark_bits(&objects.to_vec()),
        primitive_objects: CompactionList::from_mark_bits(&primitive_objects.to_vec()),
        builtin_functions: CompactionList::from_mark_bits(&functions.to_vec()),
        arrays: CompactionList::from_mark_bits(&arrays.to_vec()),
    }
}

#[test]
fn compaction_list_counts_reclaimed_slots() {
    let list = CompactionList::from_mark_bits(&vec![true, false, false, true, true, false]);
    assert_eq!(list.shifts, vec![0, 0, 1, 2, 2, 2, 3]);
    assert_eq!(list.len(), 6);
    assert_eq!(list.shift(0), 0);
    assert_eq!(list.shift(3), 1);
    assert_eq!(list.shift(4), 2);
    assert_eq!(list.shift(6), 3);
}

#[test]
fn compaction_list_of_an_empty_slab() {
    let list = CompactionList::from_mark_bits(&Vec::new());
    assert_eq!(list.shifts, vec![0]);
    assert_eq!(list.len(), 0);
    assert_eq!(list.shift(0), 0);
}

#[test]
fn shift_index_moves_in_place() {
    let list = CompactionList::from_mark_bits(&vec![false, false, true, true]);
    let mut index: usize = 3;
    list.shift_index(&mut index);
    assert_eq!(index, 1);
    let mut index: usize = 2;
    list.shift_index(&mut index);
    assert_eq!(index, 0);
}

#[test]
fn compact_slab_keeps_survivors_in_order() {
    let list = CompactionList::from_mark_bits(&vec![true, false, false, true, true, false]);
    let mut slab: Vec<Option<char>> =
        vec![Some('a'), Some('b'), None, Some('d'), None, Some('f')];
    compact_slab(&mut slab, &list);
    assert_eq!(slab, vec![Some('a'), Some('d'), None]);
}

#[test]
fn compact_slab_with_nothing_reclaimed_or_everything() {
    let keep = CompactionList::from_mark_bits(&vec![true, true]);
    let mut slab: Vec<Option<u8>> = vec![Some(1), Some(2)];
    compact_slab(&mut slab, &keep);
    assert_eq!(slab, vec![Some(1), Some(2)]);
    let drop = CompactionList::from_mark_bits(&vec![false, false]);
    compact_slab(&mut slab, &drop);
    assert_eq!(slab, Vec::new());
}

#[test]
fn handles_follow_their_slots() {
    let compactions = lists(
        &[false, true, false, true],
        &[true, false, true],
        &[false, false, true],
        &[false, true],
    );
    let mut object = OrdinaryObject(ObjectIndex(3));
    object.sweep_values(&compactions);
    assert_eq!(object, OrdinaryObject(ObjectIndex(1)));
    let mut primitive_object = PrimitiveObject(PrimitiveObjectIndex(2));
    primitive_object.sweep_values(&compactions);
    assert_eq!(primitive_object, PrimitiveObject(PrimitiveObjectIndex(1)));
    let mut function = BuiltinFunction(BuiltinFunctionIndex(2));
    function.sweep_values(&compactions);
    assert_eq!(function, BuiltinFunction(BuiltinFunctionIndex(0)));
    let mut array = Array(ArrayIndex(1));
    array.sweep_values(&compactions);
    assert_eq!(array, Array(ArrayIndex(0)));
}

#[test]
fn sweep_rewrites_every_base() {
    let mut objects = vec![false, true, false];
    objects.extend(vec![true; 101]);
    let mut primitive_objects = vec![false];
    primitive_objects.extend(vec![true; 3]);
    let mut functions = vec![true, true, false, false, false];
    functions.extend(vec![true; 69]);
    let compactions = lists(&objects, &primitive_objects, &functions, &[false, false, true]);
    let mut r = Intrinsics {
        object_index_base: ObjectIndex(3),
        primitive_object_index_base: PrimitiveObjectIndex(1),
        array_prototype: Array(ArrayIndex(2)),
        builtin_function_index_base: BuiltinFunctionIndex(5),
    };
    r.sweep_values(&compactions);
    assert_eq!(
        r,
        Intrinsics {
            object_index_base: ObjectIndex(1),
            primitive_object_index_base: PrimitiveObjectIndex(0),
            array_prototype: Array(ArrayIndex(0)),
            builtin_function_index_base: BuiltinFunctionIndex(2),
        }
    );
}

#[test]
fn sweep_without_reclaimed_slots_changes_nothing() {
    let compactions = lists(&vec![true; 101], &vec![true; 3], &vec![true; 69], &[true]);
    let mut r = Intrinsics {
        object_index_base: ObjectIndex(0),
        primitive_object_index_base: PrimitiveObjectIndex(0),
        array_prototype: Array(ArrayIndex(0)),
        builtin_function_index_base: BuiltinFunctionIndex(0),
    };
    let before = r;
    r.sweep_values(&compactions);
    assert_eq!(r, before);
}

#[test]
fn mark_queued_sets_the_bits_of_queued_slots() {
    let mut agent = Agent::new();
    for _ in 0..4 {
        agent.heap.objects.push(None);
        agent.heap.arrays.push(None);
    }
    agent.heap.builtin_functions.push(None);
    let mut bits = HeapBits::new(&agent.heap);
    assert_eq!(bits.objects, vec![false, false, false, false]);
    assert_eq!(bits.primitive_objects, Vec::<bool>::new());
    assert_eq!(bits.builtin_functions, vec![false]);
    assert_eq!(bits.arrays, vec![false, false, false, false]);
    let mut queues = WorkQueues::new();
    queues.objects.push(ObjectIndex(2));
    queues.objects.push(ObjectIndex(0));
    queues.objects.push(ObjectIndex(2));
    queues.objects.push(ObjectIndex(9));
    queues.primitive_objects.push(PrimitiveObjectIndex(0));
    queues.arrays.push(ArrayIndex(3));
    bits.mark_queued(&queues);
    assert_eq!(bits.objects, vec![true, false, true, false]);
    assert_eq!(bits.primitive_objects, Vec::<bool>::new());
    assert_eq!(bits.builtin_functions, vec![false]);
    assert_eq!(bits.arrays, vec![false, false, false, true]);
    let mut more = WorkQueues::new();
    more.objects.push(ObjectIndex(1));
    more.builtin_functions.push(BuiltinFunctionIndex(0));
    bits.mark_queued(&more);
    assert_eq!(bits.objects, vec![true, true, true, false]);
    assert_eq!(bits.builtin_functions, vec![true]);
    let lists = CompactionLists::from_heap_bits(&bits);
    assert_eq!(lists.objects.shifts, vec![0, 0, 0, 0, 1]);
    assert_eq!(lists.arrays.shifts, vec![0, 1, 2, 3, 3]);
    assert_eq!(lists.builtin_functions.shifts, vec![0, 0]);
    assert_eq!(lists.primitive_objects.shifts, vec![0]);
}

#[test]
fn compaction_preserves_the_identity_of_every_built_in() {
    let mut agent = Agent::new();
    // Garbage before, between and after the two realms.
    for _ in 0..5 {
        agent.heap.objects.push(Some(ObjectHeapData {
            extensible: true,
            prototype: None,
            property_storage: Some(1),
        }));
    }
    agent.heap.builtin_functions.push(None);
    agent.heap.primitive_objects.push(None);
    agent.heap.arrays.push(None);
    let first = agent.create_realm();
    for _ in 0..7 {
        agent.heap.objects.push(None);
        agent.heap.builtin_functions.push(None);
    }
    agent.heap.arrays.push(None);
    let second = agent.create_realm();
    agent.heap.objects.push(None);

    // Tag every object of both realms with a marker of its own.
    let mut realms = vec![agent.get_realm(first).intrinsics, agent.get_realm(second).intrinsics];
    for (number, r) in realms.iter().enumerate() {
        for offset in 0..101 {
            let slot = r.object_index_base.into_index() + offset;
            let mut data = agent.heap.objects[slot].unwrap();
            data.property_storage = Some(1000 * (number + 1) + offset);
            agent.heap.objects[slot] = Some(data);
        }
    }
    let object_before: Vec<Vec<Option<usize>>> = realms
        .iter()
        .map(|r| {
            vec![
                agent.heap.get_object(r.object_prototype().0).property_storage,
                agent.heap.get_object(r.weak_set_prototype().0).property_storage,
                agent.heap.get_object(r.array_base_object()).property_storage,
                agent.heap.get_object(r.string_prototype_base_object()).property_storage,
            ]
        })
        .collect();
    assert_eq!(object_before[0], vec![Some(1030), Some(1052), Some(1057), Some(1055)]);
    assert_eq!(object_before[1], vec![Some(2030), Some(2052), Some(2057), Some(2055)]);
    let functions_before: Vec<_> = realms
        .iter()
        .map(|r| {
            (
                *agent.heap.get_builtin_function(r.array().0),
                *agent.heap.get_builtin_function(r.eval().0),
                *agent.heap.get_primitive_object(r.number_prototype().0),
                *agent.heap.get_array(r.array_prototype().0),
            )
        })
        .collect();

    // One liveness pass over both registries, then one compaction.
    let mut queues = WorkQueues::new();
    for r in realms.iter() {
        r.mark_values(&mut queues);
    }
    let mut bits = HeapBits::new(&agent.heap);
    assert_eq!(bits.objects, vec![false; agent.heap.objects.len()]);
    bits.mark_queued(&queues);
    assert_eq!(bits.objects.iter().filter(|bit| **bit).count(), 202);
    let compactions = CompactionLists::from_heap_bits(&bits);
    agent.heap.compact(&compactions);
    for r in realms.iter_mut() {
        r.sweep_values(&compactions);
    }

    assert_eq!(agent.heap.objects.len(), 202);
    assert_eq!(agent.heap.builtin_functions.len(), 138);
    assert_eq!(agent.heap.primitive_objects.len(), 6);
    assert_eq!(agent.heap.arrays.len(), 2);
    assert_eq!(realms[0].object_index_base, ObjectIndex(0));
    assert_eq!(realms[1].object_index_base, ObjectIndex(101));
    assert_eq!(realms[1].builtin_function_index_base, BuiltinFunctionIndex(69));
    assert_eq!(realms[1].array_prototype, Array(ArrayIndex(1)));
    for (number, r) in realms.iter().enumerate() {
        for offset in 0..101 {
            let slot = r.object_index_base.into_index() + offset;
            assert_eq!(
                agent.heap.objects[slot].unwrap().property_storage,
                Some(1000 * (number + 1) + offset)
            );
        }
        assert_eq!(
            vec![
                agent.heap.get_object(r.object_prototype().0).property_storage,
                agent.heap.get_object(r.weak_set_prototype().0).property_storage,
                agent.heap.get_object(r.array_base_object()).property_storage,
                agent.heap.get_object(r.string_prototype_base_object()).property_storage,
            ],
            object_before[number]
        );
        assert_eq!(
            (
                *agent.heap.get_builtin_function(r.array().0),
                *agent.heap.get_builtin_function(r.eval().0),
                *agent.heap.get_primitive_object(r.number_prototype().0),
                *agent.heap.get_array(r.array_prototype().0),
            ),
            functions_before[number]
        );
    }
}
