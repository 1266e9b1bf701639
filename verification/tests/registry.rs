use realm_intrinsics::heap::{
    reserve_slots, Agent, ArrayHeapData, BuiltinFunctionHeapData, Heap, ObjectHeapData,
    PrimitiveObjectHeapData, PrimitiveObjectKind, RealmIdentifier,
};
use realm_intrinsics::heap_constants::{
    IntrinsicConstructorIndexes, IntrinsicFunctionIndexes,
};
use realm_intrinsics::indexes::{
    Array, ArrayIndex, BuiltinFunction, BuiltinFunctionIndex, HeapIndex, Object, ObjectIndex,
    OrdinaryObject, PrimitiveObjectIndex,
};
use realm_intrinsics::intrinsics::Intrinsics;

#[test]
fn reserve_slots_appends_empty_slots() {
    let mut slab: Vec<Option<u8>> = vec![Some(1), None, Some(3)];
    let base = reserve_slots(&mut slab, 4);
    assert_eq!(base, 3);
    assert_eq!(slab, vec![Some(1), None, Some(3), None, None, None, None]);
    let base = reserve_slots(&mut slab, 0);
    assert_eq!(base, 7);
    assert_eq!(slab.len(), 7);
}

#[test]
fn new_on_an_empty_heap_starts_at_zero() {
    let mut agent = Agent::new();
    let intrinsics = Intrinsics::new(&mut agent);
    assert_eq!(intrinsics.object_index_base, ObjectIndex(0));
    assert_eq!(intrinsics.primitive_object_index_base, PrimitiveObjectIndex(0));
    assert_eq!(intrinsics.builtin_function_index_base, BuiltinFunctionIndex(0));
    assert_eq!(intrinsics.array_prototype, Array(ArrayIndex(0)));
    assert_eq!(agent.heap.objects.len(), 101);
    assert_eq!(agent.heap.primitive_objects.len(), 3);
    assert_eq!(agent.heap.builtin_functions.len(), 69);
    assert_eq!(agent.heap.arrays.len(), 1);
    assert!(agent.heap.objects.iter().all(|slot| slot.is_none()));
    assert!(agent.heap.primitive_objects.iter().all(|slot| slot.is_none()));
    assert!(agent.heap.builtin_functions.iter().all(|slot| slot.is_none()));
    assert!(agent.heap.arrays.iter().all(|slot| slot.is_none()));
    assert!(agent.heap.realms.is_empty());
}

#[test]
fn new_snapshots_the_slab_lengths_and_keeps_what_was_there() {
    let mut agent = Agent::new();
    let data = ObjectHeapData { extensible: false, prototype: None, property_storage: Some(77) };
    agent.heap.objects.push(Some(data));
    agent.heap.objects.push(None);
    agent.heap.arrays.push(None);
    agent.heap.arrays.push(None);
    agent.heap.arrays.push(None);
    let intrinsics = Intrinsics::new(&mut agent);
    assert_eq!(intrinsics.object_index_base, ObjectIndex(2));
    assert_eq!(intrinsics.primitive_object_index_base, PrimitiveObjectIndex(0));
    assert_eq!(intrinsics.builtin_function_index_base, BuiltinFunctionIndex(0));
    assert_eq!(intrinsics.array_prototype, Array(ArrayIndex(3)));
    assert_eq!(agent.heap.objects.len(), 103);
    assert_eq!(agent.heap.arrays.len(), 4);
    assert_eq!(agent.heap.objects[0], Some(data));
    assert_eq!(agent.heap.objects[1], None);
    assert!(agent.heap.objects[2..].iter().all(|slot| slot.is_none()));
}

#[test]
fn two_registries_on_one_heap_are_disjoint() {
    let mut agent = Agent::new();
    let a = Intrinsics::new(&mut agent);
    let b = Intrinsics::new(&mut agent);
    assert_eq!(b.object_index_base, ObjectIndex(101));
    assert_eq!(b.primitive_object_index_base, PrimitiveObjectIndex(3));
    assert_eq!(b.builtin_function_index_base, BuiltinFunctionIndex(69));
    assert_eq!(b.array_prototype, Array(ArrayIndex(1)));
    assert!(a.object_index_base.into_index() + 101 <= b.object_index_base.into_index());
    assert!(
        a.primitive_object_index_base.into_index() + 3
            <= b.primitive_object_index_base.into_index()
    );
    assert!(
        a.builtin_function_index_base.into_index() + 69
            <= b.builtin_function_index_base.into_index()
    );
    assert_ne!(a.array_prototype, b.array_prototype);
    assert_ne!(a.object_prototype(), b.object_prototype());
    assert_ne!(a.weak_set_base_object(), b.aggregate_error_prototype().0);
    assert_ne!(a.unescape(), b.aggregate_error());
}

#[test]
fn index_to_handle_conversions() {
    let r = Intrinsics {
        object_index_base: ObjectIndex(100),
        primitive_object_index_base: PrimitiveObjectIndex(200),
        array_prototype: Array(ArrayIndex(0)),
        builtin_function_index_base: BuiltinFunctionIndex(300),
    };
    assert_eq!(
        r.intrinsic_function_index_to_builtin_function(IntrinsicFunctionIndexes::ParseInt),
        BuiltinFunction(BuiltinFunctionIndex(361))
    );
    assert_eq!(
        r.intrinsic_constructor_index_to_builtin_function(IntrinsicConstructorIndexes::Object),
        BuiltinFunction(BuiltinFunctionIndex(324))
    );
    assert_eq!(
        r.intrinsic_constructor_index_to_object_index(IntrinsicConstructorIndexes::Object),
        ObjectIndex(180)
    );
    assert_eq!(r.parse_int(), BuiltinFunction(BuiltinFunctionIndex(361)));
    assert_eq!(r.object(), BuiltinFunction(BuiltinFunctionIndex(324)));
    assert_eq!(r.object_base_object(), ObjectIndex(180));
}

#[test]
fn heap_lookup_and_liveness() {
    let mut agent = Agent::new();
    let data = ObjectHeapData { extensible: true, prototype: None, property_storage: Some(5) };
    agent.heap.objects.push(None);
    agent.heap.objects.push(Some(data));
    let dead = Object::Object(OrdinaryObject(ObjectIndex(0)));
    let live = Object::Object(OrdinaryObject(ObjectIndex(1)));
    let beyond = Object::Object(OrdinaryObject(ObjectIndex(2)));
    assert!(!agent.heap.contains(dead));
    assert!(agent.heap.contains(live));
    assert!(!agent.heap.contains(beyond));
    assert!(!agent.heap.contains(Object::Array(Array(ArrayIndex(0)))));
    assert_eq!(*agent.heap.get_object(ObjectIndex(1)), data);
}

#[test]
fn add_realm_names_realms_in_order() {
    let mut agent = Agent::new();
    let a = Intrinsics::new(&mut agent);
    let first = agent.add_realm(a);
    let b = Intrinsics::new(&mut agent);
    let second = agent.add_realm(b);
    assert_eq!(first, RealmIdentifier(0));
    assert_eq!(second, RealmIdentifier(1));
    assert_eq!(agent.get_realm(first).intrinsics, a);
    assert_eq!(agent.get_realm(second).intrinsics, b);
}

#[test]
fn every_kind_of_index_gives_its_slot_number() {
    assert_eq!(ObjectIndex(7).slot_number(), 7);
    assert_eq!(PrimitiveObjectIndex(0).slot_number(), 0);
    assert_eq!(BuiltinFunctionIndex(usize::MAX).slot_number(), usize::MAX);
    assert_eq!(ArrayIndex(3).slot_number(), 3);
    assert_eq!(ArrayIndex::from_index(3).offset(4), ArrayIndex(7));
}

#[test]
fn empty_heap_has_no_slot() {
    let heap = Heap::new();
    assert!(heap.objects.is_empty());
    assert!(heap.primitive_objects.is_empty());
    assert!(heap.builtin_functions.is_empty());
    assert!(heap.arrays.is_empty());
    assert!(heap.realms.is_empty());
    assert!(!heap.contains(Object::Object(OrdinaryObject(ObjectIndex(0)))));
    assert!(!heap.contains(Object::BuiltinFunction(BuiltinFunction(BuiltinFunctionIndex(0)))));
}

#[test]
fn create_helpers_of_the_other_slabs_fill_one_slot() {
    let mut heap = Heap::new();
    heap.objects.push(None);
    heap.primitive_objects.push(None);
    heap.builtin_functions.push(None);
    heap.builtin_functions.push(None);
    heap.arrays.push(None);
    let bag = ObjectHeapData { extensible: true, prototype: None, property_storage: None };
    heap.create_object(ObjectIndex(0), bag);
    let handle = Some(OrdinaryObject(ObjectIndex(0)));
    let primitive = PrimitiveObjectHeapData { object_index: handle, kind: PrimitiveObjectKind::String };
    heap.create_primitive_object(PrimitiveObjectIndex(0), primitive);
    let function = BuiltinFunctionHeapData { object_index: None, realm: RealmIdentifier(2) };
    heap.create_builtin_function(BuiltinFunctionIndex(1), function);
    let array = ArrayHeapData { object_index: handle, len: 0 };
    heap.create_array(ArrayIndex(0), array);
    assert_eq!(heap.objects, vec![Some(bag)]);
    assert_eq!(heap.primitive_objects, vec![Some(primitive)]);
    assert_eq!(heap.builtin_functions, vec![None, Some(function)]);
    assert_eq!(heap.arrays, vec![Some(array)]);
    assert_eq!(*heap.get_primitive_object(PrimitiveObjectIndex(0)), primitive);
    assert_eq!(*heap.get_builtin_function(BuiltinFunctionIndex(1)), function);
    assert_eq!(*heap.get_array(ArrayIndex(0)), array);
    assert!(heap.contains(Object::Array(Array(ArrayIndex(0)))));
    assert!(!heap.contains(Object::BuiltinFunction(BuiltinFunction(BuiltinFunctionIndex(0)))));
}
