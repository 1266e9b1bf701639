use realm_intrinsics::heap::{
    Agent, ArrayHeapData, BuiltinFunctionHeapData, ObjectHeapData, PrimitiveObjectHeapData,
    PrimitiveObjectKind, RealmIdentifier,
};
use realm_intrinsics::heap_constants::{
    intrinsic_function_count, intrinsic_object_count, IntrinsicConstructorIndexes,
    IntrinsicFunctionIndexes, IntrinsicObjectIndexes, IntrinsicPrimitiveObjectIndexes,
};
use realm_intrinsics::indexes::{Object, ObjectIndex, OrdinaryObject};
use realm_intrinsics::intrinsics::Intrinsics;
use realm_intrinsics::prototypes::{
    builtin_function_plan, object_plan, primitive_object_plan, IntrinsicPrototype, CREATION_RANKS,
};

fn prototype_of(agent: &Agent, index: ObjectIndex) -> Option<Object> {
    agent.heap.get_object(index).prototype
}

#[test]
fn every_reserved_slot_is_populated_after_bootstrap() {
    let mut agent = Agent::new();
    let realm = agent.create_realm();
    assert_eq!(realm, RealmIdentifier(0));
    assert_eq!(agent.heap.objects.len(), 101);
    assert_eq!(agent.heap.primitive_objects.len(), 3);
    assert_eq!(agent.heap.builtin_functions.len(), 69);
    assert_eq!(agent.heap.arrays.len(), 1);
    assert!(agent.heap.objects.iter().all(|slot| slot.is_some()));
    assert!(agent.heap.primitive_objects.iter().all(|slot| slot.is_some()));
    assert!(agent.heap.builtin_functions.iter().all(|slot| slot.is_some()));
    assert!(agent.heap.arrays.iter().all(|slot| slot.is_some()));
}

#[test]
fn create_intrinsics_populates_what_new_reserved() {
    let mut agent = Agent::new();
    let intrinsics = Intrinsics::new(&mut agent);
    let realm = agent.add_realm(intrinsics);
    assert!(agent.heap.objects.iter().all(|slot| slot.is_none()));
    Intrinsics::create_intrinsics(&mut agent, realm);
    assert!(agent.heap.objects.iter().all(|slot| slot.is_some()));
    assert!(agent.heap.builtin_functions.iter().all(|slot| slot.is_some()));
    assert_eq!(agent.get_realm(realm).intrinsics, intrinsics);
}

#[test]
fn object_prototype_has_the_null_link() {
    let mut agent = Agent::new();
    let realm = agent.create_realm();
    let r = agent.get_realm(realm).intrinsics;
    assert_eq!(prototype_of(&agent, r.object_prototype().0), None);
    assert_eq!(
        *agent.heap.get_object(r.object_prototype().0),
        ObjectHeapData { extensible: true, prototype: None, property_storage: None }
    );
}

#[test]
fn function_prototype_links_to_object_prototype() {
    let mut agent = Agent::new();
    let realm = agent.create_realm();
    let r = agent.get_realm(realm).intrinsics;
    assert_eq!(
        prototype_of(&agent, r.function_prototype_base_object()),
        Some(Object::Object(r.object_prototype()))
    );
    assert_eq!(
        *agent.heap.get_builtin_function(r.function_prototype().0),
        BuiltinFunctionHeapData {
            object_index: Some(OrdinaryObject(r.function_prototype_base_object())),
            realm,
        }
    );
}

#[test]
fn generator_function_chain_resolves_to_the_generator_prototype() {
    let mut agent = Agent::new();
    let realm = agent.create_realm();
    let r = agent.get_realm(realm).intrinsics;
    assert_eq!(r.generator_function_prototype_prototype(), r.generator_prototype());
    assert!(agent.heap.contains(Object::Object(r.generator_function_prototype_prototype())));
    assert_eq!(
        prototype_of(&agent, r.generator_function_prototype().0),
        Some(Object::BuiltinFunction(r.function_prototype()))
    );
    assert_eq!(
        prototype_of(&agent, r.generator_prototype().0),
        Some(Object::Object(r.iterator_prototype()))
    );
    assert_eq!(
        prototype_of(&agent, r.generator_function_base_object()),
        Some(Object::BuiltinFunction(r.function()))
    );
}

#[test]
fn links_of_chosen_built_ins() {
    let mut agent = Agent::new();
    let realm = agent.create_realm();
    let r = agent.get_realm(realm).intrinsics;
    let object_prototype = Some(Object::Object(r.object_prototype()));
    let function_prototype = Some(Object::BuiltinFunction(r.function_prototype()));
    assert_eq!(prototype_of(&agent, r.error_prototype().0), object_prototype);
    assert_eq!(prototype_of(&agent, r.math().0), object_prototype);
    assert_eq!(prototype_of(&agent, r.array_prototype_base_object().0), object_prototype);
    assert_eq!(prototype_of(&agent, r.string_prototype_base_object()), object_prototype);
    assert_eq!(
        prototype_of(&agent, r.type_error_prototype().0),
        Some(Object::Object(r.error_prototype()))
    );
    assert_eq!(
        prototype_of(&agent, r.uint8_clamped_array_prototype().0),
        Some(Object::Object(r.typed_array_prototype()))
    );
    assert_eq!(
        prototype_of(&agent, r.async_generator_prototype().0),
        Some(Object::Object(r.async_iterator_prototype()))
    );
    assert_eq!(prototype_of(&agent, r.object_base_object()), function_prototype);
    assert_eq!(prototype_of(&agent, r.typed_array_base_object()), function_prototype);
    assert_eq!(
        prototype_of(&agent, r.range_error_base_object()),
        Some(Object::BuiltinFunction(r.error()))
    );
    assert_eq!(
        prototype_of(&agent, r.float64_array_base_object()),
        Some(Object::BuiltinFunction(r.typed_array()))
    );
    assert_eq!(
        prototype_of(&agent, r.async_function_base_object()),
        Some(Object::BuiltinFunction(r.function()))
    );
}

#[test]
fn entities_of_the_other_slabs() {
    let mut agent = Agent::new();
    agent.create_realm();
    let realm = agent.create_realm();
    let r = agent.get_realm(realm).intrinsics;
    assert_eq!(
        *agent.heap.get_primitive_object(r.boolean_prototype().0),
        PrimitiveObjectHeapData {
            object_index: Some(OrdinaryObject(r.boolean_prototype_base_object())),
            kind: PrimitiveObjectKind::Boolean,
        }
    );
    assert_eq!(
        agent.heap.get_primitive_object(r.number_prototype().0).kind,
        PrimitiveObjectKind::Number
    );
    assert_eq!(
        agent.heap.get_primitive_object(r.string_prototype().0).kind,
        PrimitiveObjectKind::String
    );
    assert_eq!(
        *agent.heap.get_builtin_function(r.array().0),
        BuiltinFunctionHeapData {
            object_index: Some(OrdinaryObject(r.array_base_object())),
            realm: RealmIdentifier(1),
        }
    );
    assert_eq!(
        *agent.heap.get_builtin_function(r.eval().0),
        BuiltinFunctionHeapData { object_index: None, realm: RealmIdentifier(1) }
    );
    assert_eq!(
        *agent.heap.get_array(r.array_prototype().0),
        ArrayHeapData { object_index: Some(r.array_prototype_base_object()), len: 0 }
    );
}

#[test]
fn every_link_points_to_a_lower_rank() {
    for offset in 0..intrinsic_object_count() {
        let plan = object_plan(offset);
        assert!(plan.rank < CREATION_RANKS);
        match plan.prototype {
            IntrinsicPrototype::Null => {
                assert_eq!(offset, IntrinsicObjectIndexes::ObjectPrototype.ordinal());
                assert_eq!(plan.rank, 0);
            }
            IntrinsicPrototype::Object(name) => assert!(name.creation_rank() < plan.rank),
            IntrinsicPrototype::Constructor(name) => assert!(name.creation_rank() < plan.rank),
        }
    }
    for offset in 0..intrinsic_function_count() {
        let plan = builtin_function_plan(offset);
        assert!(plan.rank < CREATION_RANKS);
        if let Some(object_offset) = plan.object_offset {
            assert_eq!(object_plan(object_offset).rank, plan.rank);
        }
    }
    for offset in 0..3 {
        let plan = primitive_object_plan(offset);
        assert_eq!(plan.object_offset, 53 + offset);
        assert_eq!(object_plan(plan.object_offset).rank, plan.rank);
    }
}

#[test]
fn chosen_plans() {
    assert_eq!(IntrinsicObjectIndexes::ObjectPrototype.prototype(), IntrinsicPrototype::Null);
    assert_eq!(IntrinsicObjectIndexes::ObjectPrototype.creation_rank(), 0);
    assert_eq!(
        IntrinsicObjectIndexes::MathObject.prototype(),
        IntrinsicPrototype::Object(IntrinsicObjectIndexes::ObjectPrototype)
    );
    assert_eq!(IntrinsicObjectIndexes::MathObject.creation_rank(), 1);
    assert_eq!(
        IntrinsicObjectIndexes::GeneratorPrototype.prototype(),
        IntrinsicPrototype::Object(IntrinsicObjectIndexes::IteratorPrototype)
    );
    assert_eq!(IntrinsicObjectIndexes::GeneratorPrototype.creation_rank(), 2);
    assert_eq!(
        IntrinsicObjectIndexes::AsyncFunctionPrototype.prototype(),
        IntrinsicPrototype::Constructor(IntrinsicConstructorIndexes::FunctionPrototype)
    );
    assert_eq!(
        IntrinsicPrimitiveObjectIndexes::BooleanPrototype.prototype(),
        IntrinsicPrototype::Object(IntrinsicObjectIndexes::ObjectPrototype)
    );
    assert_eq!(IntrinsicPrimitiveObjectIndexes::BooleanPrototype.creation_rank(), 1);
    assert_eq!(
        IntrinsicConstructorIndexes::FunctionPrototype.prototype(),
        IntrinsicPrototype::Object(IntrinsicObjectIndexes::ObjectPrototype)
    );
    assert_eq!(IntrinsicConstructorIndexes::FunctionPrototype.creation_rank(), 1);
    assert_eq!(
        IntrinsicConstructorIndexes::Promise.prototype(),
        IntrinsicPrototype::Constructor(IntrinsicConstructorIndexes::FunctionPrototype)
    );
    assert_eq!(IntrinsicConstructorIndexes::Promise.creation_rank(), 2);
    assert_eq!(
        IntrinsicConstructorIndexes::URIError.prototype(),
        IntrinsicPrototype::Constructor(IntrinsicConstructorIndexes::Error)
    );
    assert_eq!(IntrinsicConstructorIndexes::URIError.creation_rank(), 3);
    assert_eq!(IntrinsicFunctionIndexes::Eval.creation_rank(), 2);
    assert_eq!(CREATION_RANKS, 4);
}

#[test]
fn resolve_prototype_names_handles_of_the_realm() {
    let mut agent = Agent::new();
    agent.create_realm();
    let realm = agent.create_realm();
    let r = agent.get_realm(realm).intrinsics;
    assert_eq!(r.resolve_prototype(IntrinsicPrototype::Null), None);
    assert_eq!(
        r.resolve_prototype(IntrinsicPrototype::Object(IntrinsicObjectIndexes::ErrorPrototype)),
        Some(Object::Object(r.error_prototype()))
    );
    assert_eq!(
        r.resolve_prototype(IntrinsicPrototype::Constructor(IntrinsicConstructorIndexes::Error)),
        Some(Object::BuiltinFunction(r.error()))
    );
}

#[test]
fn second_realm_leaves_the_first_untouched() {
    let mut agent = Agent::new();
    let first = agent.create_realm();
    let objects: Vec<Option<ObjectHeapData>> = agent.heap.objects.clone();
    let functions: Vec<Option<BuiltinFunctionHeapData>> = agent.heap.builtin_functions.clone();
    let a = agent.get_realm(first).intrinsics;
    let second = agent.create_realm();
    let b = agent.get_realm(second).intrinsics;
    assert_eq!(agent.get_realm(first).intrinsics, a);
    assert_eq!(agent.heap.objects.len(), 202);
    assert_eq!(&agent.heap.objects[..101], &objects[..]);
    assert_eq!(&agent.heap.builtin_functions[..69], &functions[..]);
    assert_eq!(b.object_index_base, ObjectIndex(101));
    assert_eq!(
        prototype_of(&agent, b.error_prototype().0),
        Some(Object::Object(b.object_prototype()))
    );
    assert_ne!(a.object_prototype(), b.object_prototype());
    assert_eq!(agent.heap.get_builtin_function(a.array().0).realm, first);
    assert_eq!(agent.heap.get_builtin_function(b.array().0).realm, second);
}

#[test]
fn mutating_one_realm_does_not_reach_the_other() {
    let mut agent = Agent::new();
    let first = agent.create_realm();
    let second = agent.create_realm();
    let a = agent.get_realm(first).intrinsics;
    let b = agent.get_realm(second).intrinsics;
    let before = *agent.heap.get_object(b.array_buffer_prototype().0);
    let slot = a.array_buffer_prototype().0.into_index();
    agent.heap.objects[slot] =
        Some(ObjectHeapData { extensible: false, prototype: None, property_storage: Some(9) });
    assert_eq!(*agent.heap.get_object(b.array_buffer_prototype().0), before);
    assert_eq!(agent.heap.get_object(a.array_buffer_prototype().0).property_storage, Some(9));
    assert_eq!(agent.heap.get_object(b.array_buffer_prototype().0).property_storage, None);
}

#[test]
fn create_helpers_fill_one_slot() {
    let mut agent = Agent::new();
    agent.heap.objects.push(None);
    agent.heap.objects.push(None);
    let data = ObjectHeapData { extensible: true, prototype: None, property_storage: None };
    agent.heap.create_object(ObjectIndex(1), data);
    assert_eq!(agent.heap.objects, vec![None, Some(data)]);
    let child = ObjectHeapData {
        extensible: true,
        prototype: Some(Object::Object(OrdinaryObject(ObjectIndex(1)))),
        property_storage: None,
    };
    agent.heap.create_object(ObjectIndex(0), child);
    assert_eq!(agent.heap.objects, vec![Some(child), Some(data)]);
}
