use realm_intrinsics::heap::Agent;
use realm_intrinsics::indexes::{
    Array, ArrayIndex, BuiltinFunction, BuiltinFunctionIndex, ObjectIndex, OrdinaryObject,
    PrimitiveObject, PrimitiveObjectIndex,
};
use realm_intrinsics::intrinsics::Intrinsics;
use realm_intrinsics::mark_and_sweep::{HeapMarkAndSweep, WorkQueues};
use std::collections::BTreeSet;

fn registry() -> Intrinsics {
    Intrinsics {
        object_index_base: ObjectIndex(10),
        primitive_object_index_base: PrimitiveObjectIndex(20),
        array_prototype: Array(ArrayIndex(4)),
        builtin_function_index_base: BuiltinFunctionIndex(30),
    }
}

fn reachable(queues: &WorkQueues) -> (BTreeSet<usize>, BTreeSet<usize>, BTreeSet<usize>, BTreeSet<usize>) {
    (
        queues.objects.iter().map(|i| i.into_index()).collect(),
        queues.primitive_objects.iter().map(|i| i.into_index()).collect(),
        queues.builtin_functions.iter().map(|i| i.into_index()).collect(),
        queues.arrays.iter().map(|i| i.into_index()).collect(),
    )
}

#[test]
fn handles_mark_themselves() {
    let mut queues = WorkQueues::new();
    OrdinaryObject(ObjectIndex(3)).mark_values(&mut queues);
    PrimitiveObject(PrimitiveObjectIndex(4)).mark_values(&mut queues);
    BuiltinFunction(BuiltinFunctionIndex(5)).mark_values(&mut queues);
    Array(ArrayIndex(6)).mark_values(&mut queues);
    OrdinaryObject(ObjectIndex(1)).mark_values(&mut queues);
    assert_eq!(queues.objects, vec![ObjectIndex(3), ObjectIndex(1)]);
    assert_eq!(queues.primitive_objects, vec![PrimitiveObjectIndex(4)]);
    assert_eq!(queues.builtin_functions, vec![BuiltinFunctionIndex(5)]);
    assert_eq!(queues.arrays, vec![ArrayIndex(6)]);
}

#[test]
fn marking_submits_every_reserved_slot_in_order() {
    let r = registry();
    let mut queues = WorkQueues::new();
    queues.objects.push(ObjectIndex(2));
    r.mark_values(&mut queues);
    let mut objects = vec![ObjectIndex(2)];
    objects.extend((10..111).map(ObjectIndex));
    assert_eq!(queues.objects, objects);
    assert_eq!(
        queues.primitive_objects,
        vec![PrimitiveObjectIndex(20), PrimitiveObjectIndex(21), PrimitiveObjectIndex(22)]
    );
    let functions: Vec<BuiltinFunctionIndex> = (30..99).map(BuiltinFunctionIndex).collect();
    assert_eq!(queues.builtin_functions, functions);
    assert_eq!(queues.arrays, vec![ArrayIndex(4)]);
}

#[test]
fn marking_covers_chosen_accessors() {
    let r = registry();
    let mut queues = WorkQueues::new();
    r.mark_values(&mut queues);
    assert!(queues.objects.contains(&r.object_prototype().0));
    assert!(queues.objects.contains(&r.weak_set_prototype().0));
    assert!(queues.objects.contains(&r.weak_set_base_object()));
    assert!(queues.objects.contains(&r.string_prototype_base_object()));
    assert!(queues.primitive_objects.contains(&r.string_prototype().0));
    assert!(queues.builtin_functions.contains(&r.aggregate_error().0));
    assert!(queues.builtin_functions.contains(&r.unescape().0));
    assert!(queues.arrays.contains(&r.array_prototype().0));
}

#[test]
fn marking_twice_reaches_what_marking_once_reaches() {
    let r = registry();
    let mut once = WorkQueues::new();
    once.objects.push(ObjectIndex(500));
    once.arrays.push(ArrayIndex(4));
    r.mark_values(&mut once);
    let mut twice = WorkQueues::new();
    twice.objects.push(ObjectIndex(500));
    twice.arrays.push(ArrayIndex(4));
    r.mark_values(&mut twice);
    r.mark_values(&mut twice);
    assert_eq!(twice.objects.len(), once.objects.len() + 101);
    assert_eq!(reachable(&twice), reachable(&once));
}

#[test]
fn marking_a_bootstrapped_realm_submits_only_live_slots() {
    let mut agent = Agent::new();
    let realm = agent.create_realm();
    let r = agent.get_realm(realm).intrinsics;
    let mut queues = WorkQueues::new();
    r.mark_values(&mut queues);
    assert_eq!(queues.objects.len(), 101);
    assert!(queues.objects.iter().all(|i| agent.heap.objects[i.into_index()].is_some()));
    assert!(queues
        .builtin_functions
        .iter()
        .all(|i| agent.heap.builtin_functions[i.into_index()].is_some()));
}
