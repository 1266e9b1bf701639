use realm_intrinsics::compaction::{CompactionList, CompactionLists};
use realm_intrinsics::heap::{Agent, ObjectHeapData, Realm};
use realm_intrinsics::collector::HeapBits;
use realm_intrinsics::indexes::{
    Array, ArrayIndex, BuiltinFunction, BuiltinFunctionIndex, Object, ObjectIndex, OrdinaryObject,
    PrimitiveObject, PrimitiveObjectIndex,
};
use realm_intrinsics::mark_and_sweep::sweep_slab_entries;
use realm_intrinsics::intrinsics::Intrinsics;
use realm_intrinsics::mark_and_sweep::{HeapMarkAndSweep, WorkQueues};

fn garbage(marker: usize) -> Option<ObjectHeapData> {
    Some(ObjectHeapData { extensible: true, prototype: None, property_storage: Some(marker) })
}

#[test]
fn mark_realms_marks_every_realm_in_order() {
    let mut agent = Agent::new();
    agent.heap.objects.push(garbage(1));
    let first = agent.create_realm();
    agent.heap.objects.push(garbage(2));
    let second = agent.create_realm();
    let mut queues = WorkQueues::new();
    queues.objects.push(ObjectIndex(0));
    agent.mark_realms(&mut queues);
    let mut expected = WorkQueues::new();
    expected.objects.push(ObjectIndex(0));
    agent.get_realm(first).intrinsics.mark_values(&mut expected);
    agent.get_realm(second).intrinsics.mark_values(&mut expected);
    assert_eq!(queues.objects, expected.objects);
    assert_eq!(queues.primitive_objects, expected.primitive_objects);
    assert_eq!(queues.builtin_functions, expected.builtin_functions);
    assert_eq!(queues.arrays, expected.arrays);
    assert_eq!(queues.objects.len(), 203);
    assert_eq!(queues.objects[1], ObjectIndex(1));
    assert_eq!(queues.objects[102], ObjectIndex(103));
    assert_eq!(queues.arrays, vec![ArrayIndex(0), ArrayIndex(1)]);
}

#[test]
fn mark_realms_skips_vacant_realms() {
    let mut agent = Agent::new();
    agent.heap.realms.push(None);
    let realm = agent.create_realm();
    assert_eq!(realm.0, 1);
    let mut queues = WorkQueues::new();
    agent.mark_realms(&mut queues);
    assert_eq!(queues.objects.len(), 101);
    assert_eq!(queues.builtin_functions.len(), 69);
}

#[test]
fn mark_roots_sets_the_bits_of_all_realms_and_no_other() {
    let mut agent = Agent::new();
    agent.heap.objects.push(garbage(1));
    agent.heap.arrays.push(None);
    agent.create_realm();
    agent.heap.objects.push(garbage(2));
    agent.heap.builtin_functions.push(None);
    agent.create_realm();
    agent.heap.primitive_objects.push(None);
    let mut queues = WorkQueues::new();
    let bits = agent.mark_roots(&mut queues);
    let mut objects = vec![false];
    objects.extend(vec![true; 101]);
    objects.push(false);
    objects.extend(vec![true; 101]);
    assert_eq!(bits.objects, objects);
    assert_eq!(bits.primitive_objects, vec![true, true, true, true, true, true, false]);
    let mut functions = vec![true; 69];
    functions.push(false);
    functions.extend(vec![true; 69]);
    assert_eq!(bits.builtin_functions, functions);
    assert_eq!(bits.arrays, vec![false, true, true]);
    assert_eq!(queues.objects.len(), 202);
}

#[test]
fn sweep_realms_rewrites_every_registry() {
    let mut agent = Agent::new();
    let lengths = [3usize, 1, 2, 2];
    for _ in 0..lengths[0] {
        agent.heap.objects.push(None);
    }
    agent.heap.primitive_objects.push(None);
    agent.heap.builtin_functions.push(None);
    agent.heap.builtin_functions.push(None);
    agent.heap.arrays.push(None);
    agent.heap.arrays.push(None);
    let first = agent.create_realm();
    agent.heap.realms.push(None);
    let mut marks = |reclaimed: usize, kept: usize| {
        let mut bits = vec![false; reclaimed];
        bits.extend(vec![true; kept]);
        CompactionList::from_mark_bits(&bits)
    };
    let compactions = CompactionLists {
        objects: marks(3, 101),
        primitive_objects: marks(1, 3),
        builtin_functions: marks(2, 69),
        arrays: marks(2, 1),
    };
    let objects = agent.heap.objects.clone();
    agent.sweep_realms(&compactions);
    assert_eq!(
        agent.heap.realms,
        vec![
            Some(Realm {
                intrinsics: Intrinsics {
                    object_index_base: ObjectIndex(0),
                    primitive_object_index_base: PrimitiveObjectIndex(0),
                    array_prototype: Array(ArrayIndex(0)),
                    builtin_function_index_base: BuiltinFunctionIndex(0),
                },
            }),
            None,
        ]
    );
    assert_eq!(agent.heap.objects, objects);
    assert_eq!(agent.get_realm(first).intrinsics.object_index_base, ObjectIndex(0));
}

#[test]
fn collection_elsewhere_keeps_every_marker() {
    let mut agent = Agent::new();
    for marker in 0..4 {
        agent.heap.objects.push(garbage(marker));
    }
    let first = agent.create_realm();
    for marker in 0..9 {
        agent.heap.objects.push(garbage(marker));
        agent.heap.builtin_functions.push(None);
    }
    agent.heap.arrays.push(None);
    let second = agent.create_realm();
    for realm in [first, second] {
        let r = agent.get_realm(realm).intrinsics;
        for offset in 0..101 {
            let slot = r.object_index_base.into_index() + offset;
            let mut data = agent.heap.objects[slot].unwrap();
            data.property_storage = Some(10_000 * (realm.0 + 1) + offset);
            agent.heap.objects[slot] = Some(data);
        }
    }
    let before = [agent.get_realm(first).intrinsics, agent.get_realm(second).intrinsics];
    assert_eq!(before[0].object_index_base, ObjectIndex(4));
    assert_eq!(before[1].object_index_base, ObjectIndex(114));
    let functions_before: Vec<_> = before
        .iter()
        .map(|r| *agent.heap.get_builtin_function(r.promise().0))
        .collect();

    let mut queues = WorkQueues::new();
    let bits = agent.mark_roots(&mut queues);
    let compactions = agent.sweep(&bits);

    assert_eq!(compactions.objects.len(), 215);
    assert_eq!(compactions.objects.shift(114), 101);
    assert_eq!(agent.heap.objects.len(), 202);
    assert_eq!(agent.heap.builtin_functions.len(), 138);
    assert_eq!(agent.heap.arrays.len(), 2);
    let after = [agent.get_realm(first).intrinsics, agent.get_realm(second).intrinsics];
    assert_eq!(after[0].object_index_base, ObjectIndex(0));
    assert_eq!(after[1].object_index_base, ObjectIndex(101));
    assert_eq!(after[1].builtin_function_index_base, BuiltinFunctionIndex(69));
    assert_eq!(after[1].primitive_object_index_base, PrimitiveObjectIndex(3));
    assert_eq!(after[1].array_prototype, Array(ArrayIndex(1)));
    for (number, r) in after.iter().enumerate() {
        let marker = |offset: usize| Some(10_000 * (number + 1) + offset);
        assert_eq!(agent.heap.get_object(r.aggregate_error_prototype().0).property_storage, marker(0));
        assert_eq!(agent.heap.get_object(r.object_prototype().0).property_storage, marker(30));
        assert_eq!(agent.heap.get_object(r.weak_set_prototype().0).property_storage, marker(52));
        assert_eq!(agent.heap.get_object(r.boolean_prototype_base_object()).property_storage, marker(53));
        assert_eq!(agent.heap.get_object(r.aggregate_error_base_object()).property_storage, marker(56));
        assert_eq!(agent.heap.get_object(r.weak_set_base_object()).property_storage, marker(100));
        let mut promise = functions_before[number];
        assert_eq!(promise.realm.0, number);
        promise.object_index = Some(OrdinaryObject(r.promise_base_object()));
        assert_eq!(*agent.heap.get_builtin_function(r.promise().0), promise);
        assert_eq!(
            agent.heap.get_object(r.function_prototype_base_object()).prototype,
            Some(Object::Object(r.object_prototype()))
        );
        assert_eq!(
            agent.heap.get_object(r.type_error_prototype().0).prototype,
            Some(Object::Object(r.error_prototype()))
        );
        assert_eq!(
            agent.heap.get_object(r.map_base_object()).prototype,
            Some(Object::BuiltinFunction(r.function_prototype()))
        );
        assert_eq!(agent.heap.get_object(r.object_prototype().0).prototype, None);
        assert_eq!(
            agent.heap.get_array(r.array_prototype().0).object_index,
            Some(r.array_prototype_base_object())
        );
        assert_eq!(
            agent.heap.get_primitive_object(r.number_prototype().0).object_index,
            Some(OrdinaryObject(r.number_prototype_base_object()))
        );
        assert!(agent.heap.contains(Object::Array(r.array_prototype())));
        assert!(agent.heap.contains(Object::PrimitiveObject(r.string_prototype())));
        assert!(agent.heap.contains(Object::BuiltinFunction(r.unescape())));
    }
}

#[test]
fn accessor_results_are_stale_after_a_sweep() {
    let mut agent = Agent::new();
    agent.heap.objects.push(garbage(0));
    let realm = agent.create_realm();
    let stale = agent.get_realm(realm).intrinsics.object_prototype();
    let mut queues = WorkQueues::new();
    let bits = agent.mark_roots(&mut queues);
    agent.sweep(&bits);
    let fresh = agent.get_realm(realm).intrinsics.object_prototype();
    assert_eq!(stale.0, ObjectIndex(31));
    assert_eq!(fresh.0, ObjectIndex(30));
}

fn lists(objects: &[bool], primitive_objects: &[bool], functions: &[bool], arrays: &[bool]) -> CompactionLists {
    CompactionLists {
        objects: CompactionList::from_mark_bits(&objects.to_vec()),
        primitive_objects: CompactionList::from_mark_bits(&primitive_objects.to_vec()),
        builtin_functions: CompactionList::from_mark_bits(&functions.to_vec()),
        arrays: CompactionList::from_mark_bits(&arrays.to_vec()),
    }
}

#[test]
fn any_handle_marks_and_sweeps_by_its_kind() {
    let compactions = lists(&[false, true], &[false, false, true], &[true], &[false, true, true]);
    let mut handles = [
        Object::Object(OrdinaryObject(ObjectIndex(1))),
        Object::PrimitiveObject(PrimitiveObject(PrimitiveObjectIndex(2))),
        Object::BuiltinFunction(BuiltinFunction(BuiltinFunctionIndex(0))),
        Object::Array(Array(ArrayIndex(2))),
    ];
    let mut queues = WorkQueues::new();
    for handle in handles.iter() {
        handle.mark_values(&mut queues);
    }
    assert_eq!(queues.objects, vec![ObjectIndex(1)]);
    assert_eq!(queues.primitive_objects, vec![PrimitiveObjectIndex(2)]);
    assert_eq!(queues.builtin_functions, vec![BuiltinFunctionIndex(0)]);
    assert_eq!(queues.arrays, vec![ArrayIndex(2)]);
    for handle in handles.iter_mut() {
        handle.sweep_values(&compactions);
    }
    assert_eq!(
        handles,
        [
            Object::Object(OrdinaryObject(ObjectIndex(0))),
            Object::PrimitiveObject(PrimitiveObject(PrimitiveObjectIndex(0))),
            Object::BuiltinFunction(BuiltinFunction(BuiltinFunctionIndex(0))),
            Object::Array(Array(ArrayIndex(1))),
        ]
    );
}

#[test]
fn entries_mark_and_sweep_the_handles_they_hold() {
    let compactions = lists(&[false, false, true, true], &[], &[false, true], &[]);
    let mut object = ObjectHeapData {
        extensible: false,
        prototype: Some(Object::BuiltinFunction(BuiltinFunction(BuiltinFunctionIndex(1)))),
        property_storage: Some(8),
    };
    let mut orphan = ObjectHeapData { extensible: true, prototype: None, property_storage: None };
    let mut function = realm_intrinsics::heap::BuiltinFunctionHeapData {
        object_index: Some(OrdinaryObject(ObjectIndex(3))),
        realm: realm_intrinsics::heap::RealmIdentifier(5),
    };
    let mut array =
        realm_intrinsics::heap::ArrayHeapData { object_index: Some(OrdinaryObject(ObjectIndex(2))), len: 4 };
    let mut primitive = realm_intrinsics::heap::PrimitiveObjectHeapData {
        object_index: None,
        kind: realm_intrinsics::heap::PrimitiveObjectKind::Number,
    };
    let mut queues = WorkQueues::new();
    object.mark_values(&mut queues);
    orphan.mark_values(&mut queues);
    function.mark_values(&mut queues);
    array.mark_values(&mut queues);
    primitive.mark_values(&mut queues);
    assert_eq!(queues.objects, vec![ObjectIndex(3), ObjectIndex(2)]);
    assert_eq!(queues.builtin_functions, vec![BuiltinFunctionIndex(1)]);
    assert!(queues.primitive_objects.is_empty());
    assert!(queues.arrays.is_empty());
    object.sweep_values(&compactions);
    orphan.sweep_values(&compactions);
    function.sweep_values(&compactions);
    array.sweep_values(&compactions);
    primitive.sweep_values(&compactions);
    assert_eq!(
        object,
        ObjectHeapData {
            extensible: false,
            prototype: Some(Object::BuiltinFunction(BuiltinFunction(BuiltinFunctionIndex(0)))),
            property_storage: Some(8),
        }
    );
    assert_eq!(orphan, ObjectHeapData { extensible: true, prototype: None, property_storage: None });
    assert_eq!(function.object_index, Some(OrdinaryObject(ObjectIndex(1))));
    assert_eq!(function.realm.0, 5);
    assert_eq!(array.object_index, Some(OrdinaryObject(ObjectIndex(0))));
    assert_eq!(array.len, 4);
    assert_eq!(primitive.object_index, None);
}

#[test]
fn sweeping_a_slab_rewrites_entries_in_place() {
    let compactions = lists(&[false, true, true], &[], &[], &[]);
    let link = |index: usize| Some(Object::Object(OrdinaryObject(ObjectIndex(index))));
    let entry = |prototype| Some(ObjectHeapData { extensible: true, prototype, property_storage: None });
    let mut slab = vec![entry(link(2)), None, entry(None), entry(link(1))];
    sweep_slab_entries(&mut slab, &compactions);
    assert_eq!(slab, vec![entry(link(1)), None, entry(None), entry(link(0))]);
}

#[test]
fn sweeping_the_heap_rewrites_every_slab_and_moves_nothing() {
    let mut agent = Agent::new();
    agent.heap.objects.push(garbage(0));
    let realm = agent.create_realm();
    let r = agent.get_realm(realm).intrinsics;
    let mut bits = HeapBits::new(&agent.heap);
    let mut queues = WorkQueues::new();
    r.mark_values(&mut queues);
    bits.mark_queued(&queues);
    let compactions = CompactionLists::from_heap_bits(&bits);
    agent.heap.sweep_entries(&compactions);
    assert_eq!(agent.heap.objects.len(), 102);
    assert_eq!(agent.heap.objects[0], garbage(0));
    assert_eq!(agent.heap.get_object(r.object_prototype().0).prototype, None);
    assert_eq!(
        agent.heap.get_object(r.error_prototype().0).prototype,
        Some(Object::Object(OrdinaryObject(ObjectIndex(30))))
    );
    assert_eq!(
        agent.heap.get_builtin_function(r.array().0).object_index,
        Some(OrdinaryObject(ObjectIndex(57)))
    );
    assert_eq!(agent.get_realm(realm).intrinsics, r);
}

#[test]
fn a_realm_survives_collection_after_collection() {
    let mut agent = Agent::new();
    agent.heap.objects.push(garbage(0));
    let first = agent.create_realm();
    for round in 0..3 {
        agent.heap.objects.push(garbage(round));
        agent.heap.builtin_functions.push(None);
        agent.heap.arrays.push(None);
        agent.create_realm();
        agent.heap.primitive_objects.push(None);
        let mut queues = WorkQueues::new();
        let bits = agent.mark_roots(&mut queues);
        agent.sweep(&bits);
        assert_eq!(agent.heap.objects.len(), 101 * (round + 2));
        assert_eq!(agent.heap.primitive_objects.len(), 3 * (round + 2));
        assert_eq!(agent.heap.builtin_functions.len(), 69 * (round + 2));
        assert_eq!(agent.heap.arrays.len(), round + 2);
        assert!(agent.heap.objects.iter().all(|slot| slot.is_some()));
        for number in 0..round + 2 {
            let r = agent.heap.realms[number].unwrap().intrinsics;
            assert_eq!(r.object_index_base, ObjectIndex(101 * number));
            assert_eq!(
                agent.heap.get_object(r.uri_error_prototype().0).prototype,
                Some(Object::Object(r.error_prototype()))
            );
            assert_eq!(
                agent.heap.get_object(r.uint8_array_base_object()).prototype,
                Some(Object::BuiltinFunction(r.typed_array()))
            );
            assert_eq!(agent.heap.get_builtin_function(r.eval().0).realm.0, number);
        }
    }
    assert_eq!(agent.get_realm(first).intrinsics.object_index_base, ObjectIndex(0));
}
