use realm_intrinsics::accessors::ProtoIntrinsics;
use realm_intrinsics::heap::Agent;
use realm_intrinsics::indexes::{
    Array, ArrayIndex, BuiltinFunction, BuiltinFunctionIndex, Object, ObjectIndex, OrdinaryObject,
    PrimitiveObject, PrimitiveObjectIndex,
};
use realm_intrinsics::intrinsics::Intrinsics;

fn registry() -> Intrinsics {
    Intrinsics {
        object_index_base: ObjectIndex(1000),
        primitive_object_index_base: PrimitiveObjectIndex(2000),
        array_prototype: Array(ArrayIndex(7)),
        builtin_function_index_base: BuiltinFunctionIndex(3000),
    }
}

#[test]
fn ordinary_object_accessors_resolve_to_base_plus_offset() {
    let r = registry();
    assert_eq!(r.aggregate_error_prototype(), OrdinaryObject(ObjectIndex(1000)));
    assert_eq!(r.array_prototype_base_object(), OrdinaryObject(ObjectIndex(1001)));
    assert_eq!(r.array_buffer_prototype(), OrdinaryObject(ObjectIndex(1002)));
    assert_eq!(r.array_iterator_prototype(), OrdinaryObject(ObjectIndex(1003)));
    assert_eq!(r.async_from_sync_iterator_prototype(), OrdinaryObject(ObjectIndex(1004)));
    assert_eq!(r.async_function_prototype(), OrdinaryObject(ObjectIndex(1005)));
    assert_eq!(r.async_generator_function_prototype_prototype(), OrdinaryObject(ObjectIndex(1006)));
    assert_eq!(r.async_generator_function_prototype(), OrdinaryObject(ObjectIndex(1007)));
    assert_eq!(r.async_generator_prototype(), OrdinaryObject(ObjectIndex(1006)));
    assert_eq!(r.async_iterator_prototype(), OrdinaryObject(ObjectIndex(1008)));
    assert_eq!(r.atomics(), OrdinaryObject(ObjectIndex(1009)));
    assert_eq!(r.big_int_prototype(), OrdinaryObject(ObjectIndex(1010)));
    assert_eq!(r.big_int64_array_prototype(), OrdinaryObject(ObjectIndex(1011)));
    assert_eq!(r.big_uint64_array_prototype(), OrdinaryObject(ObjectIndex(1012)));
    assert_eq!(r.data_view_prototype(), OrdinaryObject(ObjectIndex(1013)));
    assert_eq!(r.date_prototype(), OrdinaryObject(ObjectIndex(1014)));
    assert_eq!(r.error_prototype(), OrdinaryObject(ObjectIndex(1015)));
    assert_eq!(r.eval_error_prototype(), OrdinaryObject(ObjectIndex(1016)));
    assert_eq!(r.finalization_registry_prototype(), OrdinaryObject(ObjectIndex(1017)));
    assert_eq!(r.float32_array_prototype(), OrdinaryObject(ObjectIndex(1018)));
    assert_eq!(r.float64_array_prototype(), OrdinaryObject(ObjectIndex(1019)));
    assert_eq!(r.generator_function_prototype_prototype(), OrdinaryObject(ObjectIndex(1020)));
    assert_eq!(r.generator_function_prototype(), OrdinaryObject(ObjectIndex(1021)));
    assert_eq!(r.generator_prototype(), OrdinaryObject(ObjectIndex(1020)));
    assert_eq!(r.int16_array_prototype(), OrdinaryObject(ObjectIndex(1022)));
    assert_eq!(r.int32_array_prototype(), OrdinaryObject(ObjectIndex(1023)));
    assert_eq!(r.int8_array_prototype(), OrdinaryObject(ObjectIndex(1024)));
    assert_eq!(r.iterator_prototype(), OrdinaryObject(ObjectIndex(1025)));
    assert_eq!(r.json(), OrdinaryObject(ObjectIndex(1026)));
    assert_eq!(r.map_prototype(), OrdinaryObject(ObjectIndex(1027)));
    assert_eq!(r.map_iterator_prototype(), OrdinaryObject(ObjectIndex(1028)));
    assert_eq!(r.math(), OrdinaryObject(ObjectIndex(1029)));
    assert_eq!(r.object_prototype(), OrdinaryObject(ObjectIndex(1030)));
    assert_eq!(r.promise_prototype(), OrdinaryObject(ObjectIndex(1031)));
    assert_eq!(r.range_error_prototype(), OrdinaryObject(ObjectIndex(1032)));
    assert_eq!(r.reference_error_prototype(), OrdinaryObject(ObjectIndex(1033)));
    assert_eq!(r.reflect(), OrdinaryObject(ObjectIndex(1034)));
    assert_eq!(r.reg_exp_prototype(), OrdinaryObject(ObjectIndex(1035)));
    assert_eq!(r.reg_exp_string_iterator_prototype(), OrdinaryObject(ObjectIndex(1036)));
    assert_eq!(r.set_prototype(), OrdinaryObject(ObjectIndex(1037)));
    assert_eq!(r.set_iterator_prototype(), OrdinaryObject(ObjectIndex(1038)));
    assert_eq!(r.shared_array_buffer_prototype(), OrdinaryObject(ObjectIndex(1039)));
    assert_eq!(r.string_iterator_prototype(), OrdinaryObject(ObjectIndex(1040)));
    assert_eq!(r.symbol_prototype(), OrdinaryObject(ObjectIndex(1041)));
    assert_eq!(r.syntax_error_prototype(), OrdinaryObject(ObjectIndex(1042)));
    assert_eq!(r.typed_array_prototype(), OrdinaryObject(ObjectIndex(1043)));
    assert_eq!(r.type_error_prototype(), OrdinaryObject(ObjectIndex(1044)));
    assert_eq!(r.uint16_array_prototype(), OrdinaryObject(ObjectIndex(1045)));
    assert_eq!(r.uint32_array_prototype(), OrdinaryObject(ObjectIndex(1046)));
    assert_eq!(r.uint8_array_prototype(), OrdinaryObject(ObjectIndex(1047)));
    assert_eq!(r.uint8_clamped_array_prototype(), OrdinaryObject(ObjectIndex(1048)));
    assert_eq!(r.uri_error_prototype(), OrdinaryObject(ObjectIndex(1049)));
    assert_eq!(r.weak_map_prototype(), OrdinaryObject(ObjectIndex(1050)));
    assert_eq!(r.weak_ref_prototype(), OrdinaryObject(ObjectIndex(1051)));
    assert_eq!(r.weak_set_prototype(), OrdinaryObject(ObjectIndex(1052)));
}

#[test]
fn builtin_function_accessors_resolve_to_base_plus_offset() {
    let r = registry();
    assert_eq!(r.aggregate_error(), BuiltinFunction(BuiltinFunctionIndex(3000)));
    assert_eq!(r.array_prototype_sort(), BuiltinFunction(BuiltinFunctionIndex(3045)));
    assert_eq!(r.array_prototype_to_string(), BuiltinFunction(BuiltinFunctionIndex(3046)));
    assert_eq!(r.array_prototype_values(), BuiltinFunction(BuiltinFunctionIndex(3047)));
    assert_eq!(r.array(), BuiltinFunction(BuiltinFunctionIndex(3001)));
    assert_eq!(r.array_buffer(), BuiltinFunction(BuiltinFunctionIndex(3002)));
    assert_eq!(r.async_function(), BuiltinFunction(BuiltinFunctionIndex(3003)));
    assert_eq!(r.async_generator_function(), BuiltinFunction(BuiltinFunctionIndex(3004)));
    assert_eq!(r.big_int(), BuiltinFunction(BuiltinFunctionIndex(3005)));
    assert_eq!(r.big_int64_array(), BuiltinFunction(BuiltinFunctionIndex(3006)));
    assert_eq!(r.big_uint64_array(), BuiltinFunction(BuiltinFunctionIndex(3007)));
    assert_eq!(r.boolean(), BuiltinFunction(BuiltinFunctionIndex(3008)));
    assert_eq!(r.data_view(), BuiltinFunction(BuiltinFunctionIndex(3009)));
    assert_eq!(r.date_prototype_to_utcstring(), BuiltinFunction(BuiltinFunctionIndex(3048)));
    assert_eq!(r.date(), BuiltinFunction(BuiltinFunctionIndex(3010)));
    assert_eq!(r.decode_uri(), BuiltinFunction(BuiltinFunctionIndex(3049)));
    assert_eq!(r.decode_uri_component(), BuiltinFunction(BuiltinFunctionIndex(3050)));
    assert_eq!(r.encode_uri(), BuiltinFunction(BuiltinFunctionIndex(3051)));
    assert_eq!(r.encode_uri_component(), BuiltinFunction(BuiltinFunctionIndex(3052)));
    assert_eq!(r.error(), BuiltinFunction(BuiltinFunctionIndex(3011)));
    assert_eq!(r.escape(), BuiltinFunction(BuiltinFunctionIndex(3053)));
    assert_eq!(r.eval(), BuiltinFunction(BuiltinFunctionIndex(3054)));
    assert_eq!(r.eval_error(), BuiltinFunction(BuiltinFunctionIndex(3012)));
    assert_eq!(r.finalization_registry(), BuiltinFunction(BuiltinFunctionIndex(3013)));
    assert_eq!(r.float32_array(), BuiltinFunction(BuiltinFunctionIndex(3014)));
    assert_eq!(r.float64_array(), BuiltinFunction(BuiltinFunctionIndex(3015)));
    assert_eq!(r.function_prototype(), BuiltinFunction(BuiltinFunctionIndex(3016)));
    assert_eq!(r.function(), BuiltinFunction(BuiltinFunctionIndex(3017)));
    assert_eq!(r.generator_function_prototype_prototype_next(), BuiltinFunction(BuiltinFunctionIndex(3055)));
    assert_eq!(r.generator_function(), BuiltinFunction(BuiltinFunctionIndex(3018)));
    assert_eq!(r.int16_array(), BuiltinFunction(BuiltinFunctionIndex(3019)));
    assert_eq!(r.int32_array(), BuiltinFunction(BuiltinFunctionIndex(3020)));
    assert_eq!(r.int8_array(), BuiltinFunction(BuiltinFunctionIndex(3021)));
    assert_eq!(r.is_finite(), BuiltinFunction(BuiltinFunctionIndex(3056)));
    assert_eq!(r.is_nan(), BuiltinFunction(BuiltinFunctionIndex(3057)));
    assert_eq!(r.map_prototype_entries(), BuiltinFunction(BuiltinFunctionIndex(3058)));
    assert_eq!(r.map(), BuiltinFunction(BuiltinFunctionIndex(3022)));
    assert_eq!(r.number(), BuiltinFunction(BuiltinFunctionIndex(3023)));
    assert_eq!(r.object_prototype_to_string(), BuiltinFunction(BuiltinFunctionIndex(3059)));
    assert_eq!(r.object(), BuiltinFunction(BuiltinFunctionIndex(3024)));
    assert_eq!(r.parse_float(), BuiltinFunction(BuiltinFunctionIndex(3060)));
    assert_eq!(r.parse_int(), BuiltinFunction(BuiltinFunctionIndex(3061)));
    assert_eq!(r.promise(), BuiltinFunction(BuiltinFunctionIndex(3025)));
    assert_eq!(r.proxy(), BuiltinFunction(BuiltinFunctionIndex(3026)));
    assert_eq!(r.range_error(), BuiltinFunction(BuiltinFunctionIndex(3027)));
    assert_eq!(r.reference_error(), BuiltinFunction(BuiltinFunctionIndex(3028)));
    assert_eq!(r.reg_exp_prototype_exec(), BuiltinFunction(BuiltinFunctionIndex(3062)));
    assert_eq!(r.reg_exp(), BuiltinFunction(BuiltinFunctionIndex(3029)));
    assert_eq!(r.set_prototype_values(), BuiltinFunction(BuiltinFunctionIndex(3063)));
    assert_eq!(r.set(), BuiltinFunction(BuiltinFunctionIndex(3030)));
    assert_eq!(r.shared_array_buffer(), BuiltinFunction(BuiltinFunctionIndex(3031)));
    assert_eq!(r.string_prototype_trim_end(), BuiltinFunction(BuiltinFunctionIndex(3064)));
    assert_eq!(r.string_prototype_trim_start(), BuiltinFunction(BuiltinFunctionIndex(3065)));
    assert_eq!(r.string(), BuiltinFunction(BuiltinFunctionIndex(3032)));
    assert_eq!(r.symbol(), BuiltinFunction(BuiltinFunctionIndex(3033)));
    assert_eq!(r.syntax_error(), BuiltinFunction(BuiltinFunctionIndex(3034)));
    assert_eq!(r.throw_type_error(), BuiltinFunction(BuiltinFunctionIndex(3066)));
    assert_eq!(r.typed_array_prototype_values(), BuiltinFunction(BuiltinFunctionIndex(3067)));
    assert_eq!(r.typed_array(), BuiltinFunction(BuiltinFunctionIndex(3035)));
    assert_eq!(r.type_error(), BuiltinFunction(BuiltinFunctionIndex(3036)));
    assert_eq!(r.uint16_array(), BuiltinFunction(BuiltinFunctionIndex(3037)));
    assert_eq!(r.uint32_array(), BuiltinFunction(BuiltinFunctionIndex(3038)));
    assert_eq!(r.uint8_array(), BuiltinFunction(BuiltinFunctionIndex(3039)));
    assert_eq!(r.uint8_clamped_array(), BuiltinFunction(BuiltinFunctionIndex(3040)));
    assert_eq!(r.unescape(), BuiltinFunction(BuiltinFunctionIndex(3068)));
    assert_eq!(r.uri_error(), BuiltinFunction(BuiltinFunctionIndex(3041)));
    assert_eq!(r.weak_map(), BuiltinFunction(BuiltinFunctionIndex(3042)));
    assert_eq!(r.weak_ref(), BuiltinFunction(BuiltinFunctionIndex(3043)));
    assert_eq!(r.weak_set(), BuiltinFunction(BuiltinFunctionIndex(3044)));
}

#[test]
fn base_object_accessors_resolve_to_base_plus_offset() {
    let r = registry();
    assert_eq!(r.aggregate_error_base_object(), ObjectIndex(1056));
    assert_eq!(r.array_base_object(), ObjectIndex(1057));
    assert_eq!(r.array_buffer_base_object(), ObjectIndex(1058));
    assert_eq!(r.async_function_base_object(), ObjectIndex(1059));
    assert_eq!(r.async_generator_function_base_object(), ObjectIndex(1060));
    assert_eq!(r.big_int_base_object(), ObjectIndex(1061));
    assert_eq!(r.big_int64_array_base_object(), ObjectIndex(1062));
    assert_eq!(r.big_uint64_array_base_object(), ObjectIndex(1063));
    assert_eq!(r.boolean_prototype_base_object(), ObjectIndex(1053));
    assert_eq!(r.boolean_base_object(), ObjectIndex(1064));
    assert_eq!(r.data_view_base_object(), ObjectIndex(1065));
    assert_eq!(r.date_base_object(), ObjectIndex(1066));
    assert_eq!(r.error_base_object(), ObjectIndex(1067));
    assert_eq!(r.eval_error_base_object(), ObjectIndex(1068));
    assert_eq!(r.finalization_registry_base_object(), ObjectIndex(1069));
    assert_eq!(r.float32_array_base_object(), ObjectIndex(1070));
    assert_eq!(r.float64_array_base_object(), ObjectIndex(1071));
    assert_eq!(r.function_prototype_base_object(), ObjectIndex(1072));
    assert_eq!(r.function_base_object(), ObjectIndex(1073));
    assert_eq!(r.generator_function_base_object(), ObjectIndex(1074));
    assert_eq!(r.int16_array_base_object(), ObjectIndex(1075));
    assert_eq!(r.int32_array_base_object(), ObjectIndex(1076));
    assert_eq!(r.int8_array_base_object(), ObjectIndex(1077));
    assert_eq!(r.map_base_object(), ObjectIndex(1078));
    assert_eq!(r.number_prototype_base_object(), ObjectIndex(1054));
    assert_eq!(r.number_base_object(), ObjectIndex(1079));
    assert_eq!(r.object_base_object(), ObjectIndex(1080));
    assert_eq!(r.promise_base_object(), ObjectIndex(1081));
    assert_eq!(r.proxy_base_object(), ObjectIndex(1082));
    assert_eq!(r.range_error_base_object(), ObjectIndex(1083));
    assert_eq!(r.reference_error_base_object(), ObjectIndex(1084));
    assert_eq!(r.reg_exp_base_object(), ObjectIndex(1085));
    assert_eq!(r.set_base_object(), ObjectIndex(1086));
    assert_eq!(r.shared_array_buffer_base_object(), ObjectIndex(1087));
    assert_eq!(r.string_prototype_base_object(), ObjectIndex(1055));
    assert_eq!(r.string_base_object(), ObjectIndex(1088));
    assert_eq!(r.symbol_base_object(), ObjectIndex(1089));
    assert_eq!(r.syntax_error_base_object(), ObjectIndex(1090));
    assert_eq!(r.typed_array_base_object(), ObjectIndex(1091));
    assert_eq!(r.type_error_base_object(), ObjectIndex(1092));
    assert_eq!(r.uint16_array_base_object(), ObjectIndex(1093));
    assert_eq!(r.uint32_array_base_object(), ObjectIndex(1094));
    assert_eq!(r.uint8_array_base_object(), ObjectIndex(1095));
    assert_eq!(r.uint8_clamped_array_base_object(), ObjectIndex(1096));
    assert_eq!(r.uri_error_base_object(), ObjectIndex(1097));
    assert_eq!(r.weak_map_base_object(), ObjectIndex(1098));
    assert_eq!(r.weak_ref_base_object(), ObjectIndex(1099));
    assert_eq!(r.weak_set_base_object(), ObjectIndex(1100));
}

#[test]
fn array_accessors_resolve_to_base_plus_offset() {
    let r = registry();
    assert_eq!(r.array_prototype(), Array(ArrayIndex(7)));
}

#[test]
fn primitive_object_accessors_resolve_to_base_plus_offset() {
    let r = registry();
    assert_eq!(r.boolean_prototype(), PrimitiveObject(PrimitiveObjectIndex(2000)));
    assert_eq!(r.number_prototype(), PrimitiveObject(PrimitiveObjectIndex(2001)));
    assert_eq!(r.string_prototype(), PrimitiveObject(PrimitiveObjectIndex(2002)));
}

fn bootstrapped() -> (Agent, Intrinsics) {
    let mut agent = Agent::new();
    let realm = agent.create_realm();
    let intrinsics = agent.get_realm(realm).intrinsics;
    (agent, intrinsics)
}

#[test]
fn ordinary_object_accessors_are_live_after_bootstrap() {
    let (agent, r) = bootstrapped();
    assert!(agent.heap.contains(Object::Object(r.aggregate_error_prototype())));
    assert!(agent.heap.contains(Object::Object(r.array_prototype_base_object())));
    assert!(agent.heap.contains(Object::Object(r.array_buffer_prototype())));
    assert!(agent.heap.contains(Object::Object(r.array_iterator_prototype())));
    assert!(agent.heap.contains(Object::Object(r.async_from_sync_iterator_prototype())));
    assert!(agent.heap.contains(Object::Object(r.async_function_prototype())));
    assert!(agent.heap.contains(Object::Object(r.async_generator_function_prototype_prototype())));
    assert!(agent.heap.contains(Object::Object(r.async_generator_function_prototype())));
    assert!(agent.heap.contains(Object::Object(r.async_generator_prototype())));
    assert!(agent.heap.contains(Object::Object(r.async_iterator_prototype())));
    assert!(agent.heap.contains(Object::Object(r.atomics())));
    assert!(agent.heap.contains(Object::Object(r.big_int_prototype())));
    assert!(agent.heap.contains(Object::Object(r.big_int64_array_prototype())));
    assert!(agent.heap.contains(Object::Object(r.big_uint64_array_prototype())));
    assert!(agent.heap.contains(Object::Object(r.data_view_prototype())));
    assert!(agent.heap.contains(Object::Object(r.date_prototype())));
    assert!(agent.heap.contains(Object::Object(r.error_prototype())));
    assert!(agent.heap.contains(Object::Object(r.eval_error_prototype())));
    assert!(agent.heap.contains(Object::Object(r.finalization_registry_prototype())));
    assert!(agent.heap.contains(Object::Object(r.float32_array_prototype())));
    assert!(agent.heap.contains(Object::Object(r.float64_array_prototype())));
    assert!(agent.heap.contains(Object::Object(r.generator_function_prototype_prototype())));
    assert!(agent.heap.contains(Object::Object(r.generator_function_prototype())));
    assert!(agent.heap.contains(Object::Object(r.generator_prototype())));
    assert!(agent.heap.contains(Object::Object(r.int16_array_prototype())));
    assert!(agent.heap.contains(Object::Object(r.int32_array_prototype())));
    assert!(agent.heap.contains(Object::Object(r.int8_array_prototype())));
    assert!(agent.heap.contains(Object::Object(r.iterator_prototype())));
    assert!(agent.heap.contains(Object::Object(r.json())));
    assert!(agent.heap.contains(Object::Object(r.map_prototype())));
    assert!(agent.heap.contains(Object::Object(r.map_iterator_prototype())));
    assert!(agent.heap.contains(Object::Object(r.math())));
    assert!(agent.heap.contains(Object::Object(r.object_prototype())));
    assert!(agent.heap.contains(Object::Object(r.promise_prototype())));
    assert!(agent.heap.contains(Object::Object(r.range_error_prototype())));
    assert!(agent.heap.contains(Object::Object(r.reference_error_prototype())));
    assert!(agent.heap.contains(Object::Object(r.reflect())));
    assert!(agent.heap.contains(Object::Object(r.reg_exp_prototype())));
    assert!(agent.heap.contains(Object::Object(r.reg_exp_string_iterator_prototype())));
    assert!(agent.heap.contains(Object::Object(r.set_prototype())));
    assert!(agent.heap.contains(Object::Object(r.set_iterator_prototype())));
    assert!(agent.heap.contains(Object::Object(r.shared_array_buffer_prototype())));
    assert!(agent.heap.contains(Object::Object(r.string_iterator_prototype())));
    assert!(agent.heap.contains(Object::Object(r.symbol_prototype())));
    assert!(agent.heap.contains(Object::Object(r.syntax_error_prototype())));
    assert!(agent.heap.contains(Object::Object(r.typed_array_prototype())));
    assert!(agent.heap.contains(Object::Object(r.type_error_prototype())));
    assert!(agent.heap.contains(Object::Object(r.uint16_array_prototype())));
    assert!(agent.heap.contains(Object::Object(r.uint32_array_prototype())));
    assert!(agent.heap.contains(Object::Object(r.uint8_array_prototype())));
    assert!(agent.heap.contains(Object::Object(r.uint8_clamped_array_prototype())));
    assert!(agent.heap.contains(Object::Object(r.uri_error_prototype())));
    assert!(agent.heap.contains(Object::Object(r.weak_map_prototype())));
    assert!(agent.heap.contains(Object::Object(r.weak_ref_prototype())));
    assert!(agent.heap.contains(Object::Object(r.weak_set_prototype())));
}

#[test]
fn builtin_function_accessors_are_live_after_bootstrap() {
    let (agent, r) = bootstrapped();
    assert!(agent.heap.contains(Object::BuiltinFunction(r.aggregate_error())));
    assert!(agent.heap.contains(Object::BuiltinFunction(r.array_prototype_sort())));
    assert!(agent.heap.contains(Object::BuiltinFunction(r.array_prototype_to_string())));
    assert!(agent.heap.contains(Object::BuiltinFunction(r.array_prototype_values())));
    assert!(agent.heap.contains(Object::BuiltinFunction(r.array())));
    assert!(agent.heap.contains(Object::BuiltinFunction(r.array_buffer())));
    assert!(agent.heap.contains(Object::BuiltinFunction(r.async_function())));
    assert!(agent.heap.contains(Object::BuiltinFunction(r.async_generator_function())));
    assert!(agent.heap.contains(Object::BuiltinFunction(r.big_int())));
    assert!(agent.heap.contains(Object::BuiltinFunction(r.big_int64_array())));
    assert!(agent.heap.contains(Object::BuiltinFunction(r.big_uint64_array())));
    assert!(agent.heap.contains(Object::BuiltinFunction(r.boolean())));
    assert!(agent.heap.contains(Object::BuiltinFunction(r.data_view())));
    assert!(agent.heap.contains(Object::BuiltinFunction(r.date_prototype_to_utcstring())));
    assert!(agent.heap.contains(Object::BuiltinFunction(r.date())));
    assert!(agent.heap.contains(Object::BuiltinFunction(r.decode_uri())));
    assert!(agent.heap.contains(Object::BuiltinFunction(r.decode_uri_component())));
    assert!(agent.heap.contains(Object::BuiltinFunction(r.encode_uri())));
    assert!(agent.heap.contains(Object::BuiltinFunction(r.encode_uri_component())));
    assert!(agent.heap.contains(Object::BuiltinFunction(r.error())));
    assert!(agent.heap.contains(Object::BuiltinFunction(r.escape())));
    assert!(agent.heap.contains(Object::BuiltinFunction(r.eval())));
    assert!(agent.heap.contains(Object::BuiltinFunction(r.eval_error())));
    assert!(agent.heap.contains(Object::BuiltinFunction(r.finalization_registry())));
    assert!(agent.heap.contains(Object::BuiltinFunction(r.float32_array())));
    assert!(agent.heap.contains(Object::BuiltinFunction(r.float64_array())));
    assert!(agent.heap.contains(Object::BuiltinFunction(r.function_prototype())));
    assert!(agent.heap.contains(Object::BuiltinFunction(r.function())));
    assert!(agent.heap.contains(Object::BuiltinFunction(r.generator_function_prototype_prototype_next())));
    assert!(agent.heap.contains(Object::BuiltinFunction(r.generator_function())));
    assert!(agent.heap.contains(Object::BuiltinFunction(r.int16_array())));
    assert!(agent.heap.contains(Object::BuiltinFunction(r.int32_array())));
    assert!(agent.heap.contains(Object::BuiltinFunction(r.int8_array())));
    assert!(agent.heap.contains(Object::BuiltinFunction(r.is_finite())));
    assert!(agent.heap.contains(Object::BuiltinFunction(r.is_nan())));
    assert!(agent.heap.contains(Object::BuiltinFunction(r.map_prototype_entries())));
    assert!(agent.heap.contains(Object::BuiltinFunction(r.map())));
    assert!(agent.heap.contains(Object::BuiltinFunction(r.number())));
    assert!(agent.heap.contains(Object::BuiltinFunction(r.object_prototype_to_string())));
    assert!(agent.heap.contains(Object::BuiltinFunction(r.object())));
    assert!(agent.heap.contains(Object::BuiltinFunction(r.parse_float())));
    assert!(agent.heap.contains(Object::BuiltinFunction(r.parse_int())));
    assert!(agent.heap.contains(Object::BuiltinFunction(r.promise())));
    assert!(agent.heap.contains(Object::BuiltinFunction(r.proxy())));
    assert!(agent.heap.contains(Object::BuiltinFunction(r.range_error())));
    assert!(agent.heap.contains(Object::BuiltinFunction(r.reference_error())));
    assert!(agent.heap.contains(Object::BuiltinFunction(r.reg_exp_prototype_exec())));
    assert!(agent.heap.contains(Object::BuiltinFunction(r.reg_exp())));
    assert!(agent.heap.contains(Object::BuiltinFunction(r.set_prototype_values())));
    assert!(agent.heap.contains(Object::BuiltinFunction(r.set())));
    assert!(agent.heap.contains(Object::BuiltinFunction(r.shared_array_buffer())));
    assert!(agent.heap.contains(Object::BuiltinFunction(r.string_prototype_trim_end())));
    assert!(agent.heap.contains(Object::BuiltinFunction(r.string_prototype_trim_start())));
    assert!(agent.heap.contains(Object::BuiltinFunction(r.string())));
    assert!(agent.heap.contains(Object::BuiltinFunction(r.symbol())));
    assert!(agent.heap.contains(Object::BuiltinFunction(r.syntax_error())));
    assert!(agent.heap.contains(Object::BuiltinFunction(r.throw_type_error())));
    assert!(agent.heap.contains(Object::BuiltinFunction(r.typed_array_prototype_values())));
    assert!(agent.heap.contains(Object::BuiltinFunction(r.typed_array())));
    assert!(agent.heap.contains(Object::BuiltinFunction(r.type_error())));
    assert!(agent.heap.contains(Object::BuiltinFunction(r.uint16_array())));
    assert!(agent.heap.contains(Object::BuiltinFunction(r.uint32_array())));
    assert!(agent.heap.contains(Object::BuiltinFunction(r.uint8_array())));
    assert!(agent.heap.contains(Object::BuiltinFunction(r.uint8_clamped_array())));
    assert!(agent.heap.contains(Object::BuiltinFunction(r.unescape())));
    assert!(agent.heap.contains(Object::BuiltinFunction(r.uri_error())));
    assert!(agent.heap.contains(Object::BuiltinFunction(r.weak_map())));
    assert!(agent.heap.contains(Object::BuiltinFunction(r.weak_ref())));
    assert!(agent.heap.contains(Object::BuiltinFunction(r.weak_set())));
}

#[test]
fn base_object_accessors_are_live_after_bootstrap() {
    let (agent, r) = bootstrapped();
    assert!(agent.heap.contains(Object::Object(OrdinaryObject(r.aggregate_error_base_object()))));
    assert!(agent.heap.contains(Object::Object(OrdinaryObject(r.array_base_object()))));
    assert!(agent.heap.contains(Object::Object(OrdinaryObject(r.array_buffer_base_object()))));
    assert!(agent.heap.contains(Object::Object(OrdinaryObject(r.async_function_base_object()))));
    assert!(agent.heap.contains(Object::Object(OrdinaryObject(r.async_generator_function_base_object()))));
    assert!(agent.heap.contains(Object::Object(OrdinaryObject(r.big_int_base_object()))));
    assert!(agent.heap.contains(Object::Object(OrdinaryObject(r.big_int64_array_base_object()))));
    assert!(agent.heap.contains(Object::Object(OrdinaryObject(r.big_uint64_array_base_object()))));
    assert!(agent.heap.contains(Object::Object(OrdinaryObject(r.boolean_prototype_base_object()))));
    assert!(agent.heap.contains(Object::Object(OrdinaryObject(r.boolean_base_object()))));
    assert!(agent.heap.contains(Object::Object(OrdinaryObject(r.data_view_base_object()))));
    assert!(agent.heap.contains(Object::Object(OrdinaryObject(r.date_base_object()))));
    assert!(agent.heap.contains(Object::Object(OrdinaryObject(r.error_base_object()))));
    assert!(agent.heap.contains(Object::Object(OrdinaryObject(r.eval_error_base_object()))));
    assert!(agent.heap.contains(Object::Object(OrdinaryObject(r.finalization_registry_base_object()))));
    assert!(agent.heap.contains(Object::Object(OrdinaryObject(r.float32_array_base_object()))));
    assert!(agent.heap.contains(Object::Object(OrdinaryObject(r.float64_array_base_object()))));
    assert!(agent.heap.contains(Object::Object(OrdinaryObject(r.function_prototype_base_object()))));
    assert!(agent.heap.contains(Object::Object(OrdinaryObject(r.function_base_object()))));
    assert!(agent.heap.contains(Object::Object(OrdinaryObject(r.generator_function_base_object()))));
    assert!(agent.heap.contains(Object::Object(OrdinaryObject(r.int16_array_base_object()))));
    assert!(agent.heap.contains(Object::Object(OrdinaryObject(r.int32_array_base_object()))));
    assert!(agent.heap.contains(Object::Object(OrdinaryObject(r.int8_array_base_object()))));
    assert!(agent.heap.contains(Object::Object(OrdinaryObject(r.map_base_object()))));
    assert!(agent.heap.contains(Object::Object(OrdinaryObject(r.number_prototype_base_object()))));
    assert!(agent.heap.contains(Object::Object(OrdinaryObject(r.number_base_object()))));
    assert!(agent.heap.contains(Object::Object(OrdinaryObject(r.object_base_object()))));
    assert!(agent.heap.contains(Object::Object(OrdinaryObject(r.promise_base_object()))));
    assert!(agent.heap.contains(Object::Object(OrdinaryObject(r.proxy_base_object()))));
    assert!(agent.heap.contains(Object::Object(OrdinaryObject(r.range_error_base_object()))));
    assert!(agent.heap.contains(Object::Object(OrdinaryObject(r.reference_error_base_object()))));
    assert!(agent.heap.contains(Object::Object(OrdinaryObject(r.reg_exp_base_object()))));
    assert!(agent.heap.contains(Object::Object(OrdinaryObject(r.set_base_object()))));
    assert!(agent.heap.contains(Object::Object(OrdinaryObject(r.shared_array_buffer_base_object()))));
    assert!(agent.heap.contains(Object::Object(OrdinaryObject(r.string_prototype_base_object()))));
    assert!(agent.heap.contains(Object::Object(OrdinaryObject(r.string_base_object()))));
    assert!(agent.heap.contains(Object::Object(OrdinaryObject(r.symbol_base_object()))));
    assert!(agent.heap.contains(Object::Object(OrdinaryObject(r.syntax_error_base_object()))));
    assert!(agent.heap.contains(Object::Object(OrdinaryObject(r.typed_array_base_object()))));
    assert!(agent.heap.contains(Object::Object(OrdinaryObject(r.type_error_base_object()))));
    assert!(agent.heap.contains(Object::Object(OrdinaryObject(r.uint16_array_base_object()))));
    assert!(agent.heap.contains(Object::Object(OrdinaryObject(r.uint32_array_base_object()))));
    assert!(agent.heap.contains(Object::Object(OrdinaryObject(r.uint8_array_base_object()))));
    assert!(agent.heap.contains(Object::Object(OrdinaryObject(r.uint8_clamped_array_base_object()))));
    assert!(agent.heap.contains(Object::Object(OrdinaryObject(r.uri_error_base_object()))));
    assert!(agent.heap.contains(Object::Object(OrdinaryObject(r.weak_map_base_object()))));
    assert!(agent.heap.contains(Object::Object(OrdinaryObject(r.weak_ref_base_object()))));
    assert!(agent.heap.contains(Object::Object(OrdinaryObject(r.weak_set_base_object()))));
}

#[test]
fn array_accessors_are_live_after_bootstrap() {
    let (agent, r) = bootstrapped();
    assert!(agent.heap.contains(Object::Array(r.array_prototype())));
}

#[test]
fn primitive_object_accessors_are_live_after_bootstrap() {
    let (agent, r) = bootstrapped();
    assert!(agent.heap.contains(Object::PrimitiveObject(r.boolean_prototype())));
    assert!(agent.heap.contains(Object::PrimitiveObject(r.number_prototype())));
    assert!(agent.heap.contains(Object::PrimitiveObject(r.string_prototype())));
}

#[test]
fn default_proto_resolves_every_tag() {
    let r = registry();
    assert_eq!(r.get_intrinsic_default_proto(ProtoIntrinsics::Array), Object::Array(Array(ArrayIndex(7))));
    assert_eq!(r.get_intrinsic_default_proto(ProtoIntrinsics::ArrayBuffer), Object::Object(OrdinaryObject(ObjectIndex(1002))));
    assert_eq!(r.get_intrinsic_default_proto(ProtoIntrinsics::BigInt), Object::Object(OrdinaryObject(ObjectIndex(1010))));
    assert_eq!(r.get_intrinsic_default_proto(ProtoIntrinsics::Boolean), Object::PrimitiveObject(PrimitiveObject(PrimitiveObjectIndex(2000))));
    assert_eq!(r.get_intrinsic_default_proto(ProtoIntrinsics::Error), Object::Object(OrdinaryObject(ObjectIndex(1015))));
    assert_eq!(r.get_intrinsic_default_proto(ProtoIntrinsics::Date), Object::Object(OrdinaryObject(ObjectIndex(1014))));
    assert_eq!(r.get_intrinsic_default_proto(ProtoIntrinsics::EvalError), Object::Object(OrdinaryObject(ObjectIndex(1016))));
    assert_eq!(r.get_intrinsic_default_proto(ProtoIntrinsics::Function), Object::BuiltinFunction(BuiltinFunction(BuiltinFunctionIndex(3016))));
    assert_eq!(r.get_intrinsic_default_proto(ProtoIntrinsics::Number), Object::PrimitiveObject(PrimitiveObject(PrimitiveObjectIndex(2001))));
    assert_eq!(r.get_intrinsic_default_proto(ProtoIntrinsics::Object), Object::Object(OrdinaryObject(ObjectIndex(1030))));
    assert_eq!(r.get_intrinsic_default_proto(ProtoIntrinsics::RangeError), Object::Object(OrdinaryObject(ObjectIndex(1032))));
    assert_eq!(r.get_intrinsic_default_proto(ProtoIntrinsics::ReferenceError), Object::Object(OrdinaryObject(ObjectIndex(1033))));
    assert_eq!(r.get_intrinsic_default_proto(ProtoIntrinsics::String), Object::PrimitiveObject(PrimitiveObject(PrimitiveObjectIndex(2002))));
    assert_eq!(r.get_intrinsic_default_proto(ProtoIntrinsics::Symbol), Object::Object(OrdinaryObject(ObjectIndex(1041))));
    assert_eq!(r.get_intrinsic_default_proto(ProtoIntrinsics::SyntaxError), Object::Object(OrdinaryObject(ObjectIndex(1042))));
    assert_eq!(r.get_intrinsic_default_proto(ProtoIntrinsics::TypeError), Object::Object(OrdinaryObject(ObjectIndex(1044))));
    assert_eq!(r.get_intrinsic_default_proto(ProtoIntrinsics::UriError), Object::Object(OrdinaryObject(ObjectIndex(1049))));
    assert_eq!(r.get_intrinsic_default_proto(ProtoIntrinsics::AggregateError), Object::Object(OrdinaryObject(ObjectIndex(1000))));
    assert_eq!(r.get_intrinsic_default_proto(ProtoIntrinsics::AsyncFunction), Object::Object(OrdinaryObject(ObjectIndex(1005))));
    assert_eq!(r.get_intrinsic_default_proto(ProtoIntrinsics::AsyncGeneratorFunction), Object::Object(OrdinaryObject(ObjectIndex(1007))));
    assert_eq!(r.get_intrinsic_default_proto(ProtoIntrinsics::BigInt64Array), Object::Object(OrdinaryObject(ObjectIndex(1011))));
    assert_eq!(r.get_intrinsic_default_proto(ProtoIntrinsics::BigUint64Array), Object::Object(OrdinaryObject(ObjectIndex(1011))));
    assert_eq!(r.get_intrinsic_default_proto(ProtoIntrinsics::DataView), Object::Object(OrdinaryObject(ObjectIndex(1013))));
    assert_eq!(r.get_intrinsic_default_proto(ProtoIntrinsics::FinalizationRegistry), Object::Object(OrdinaryObject(ObjectIndex(1017))));
    assert_eq!(r.get_intrinsic_default_proto(ProtoIntrinsics::Float32Array), Object::Object(OrdinaryObject(ObjectIndex(1018))));
    assert_eq!(r.get_intrinsic_default_proto(ProtoIntrinsics::Float64Array), Object::Object(OrdinaryObject(ObjectIndex(1019))));
    assert_eq!(r.get_intrinsic_default_proto(ProtoIntrinsics::GeneratorFunction), Object::Object(OrdinaryObject(ObjectIndex(1021))));
    assert_eq!(r.get_intrinsic_default_proto(ProtoIntrinsics::Int16Array), Object::Object(OrdinaryObject(ObjectIndex(1022))));
    assert_eq!(r.get_intrinsic_default_proto(ProtoIntrinsics::Int32Array), Object::Object(OrdinaryObject(ObjectIndex(1023))));
    assert_eq!(r.get_intrinsic_default_proto(ProtoIntrinsics::Int8Array), Object::Object(OrdinaryObject(ObjectIndex(1024))));
    assert_eq!(r.get_intrinsic_default_proto(ProtoIntrinsics::MapObject), Object::Object(OrdinaryObject(ObjectIndex(1027))));
    assert_eq!(r.get_intrinsic_default_proto(ProtoIntrinsics::Promise), Object::Object(OrdinaryObject(ObjectIndex(1031))));
    assert_eq!(r.get_intrinsic_default_proto(ProtoIntrinsics::RegExp), Object::Object(OrdinaryObject(ObjectIndex(1035))));
    assert_eq!(r.get_intrinsic_default_proto(ProtoIntrinsics::SetObject), Object::Object(OrdinaryObject(ObjectIndex(1037))));
    assert_eq!(r.get_intrinsic_default_proto(ProtoIntrinsics::SharedArrayBuffer), Object::Object(OrdinaryObject(ObjectIndex(1039))));
    assert_eq!(r.get_intrinsic_default_proto(ProtoIntrinsics::Uint16Array), Object::Object(OrdinaryObject(ObjectIndex(1045))));
    assert_eq!(r.get_intrinsic_default_proto(ProtoIntrinsics::Uint32Array), Object::Object(OrdinaryObject(ObjectIndex(1046))));
    assert_eq!(r.get_intrinsic_default_proto(ProtoIntrinsics::Uint8Array), Object::Object(OrdinaryObject(ObjectIndex(1047))));
    assert_eq!(r.get_intrinsic_default_proto(ProtoIntrinsics::WeakMap), Object::Object(OrdinaryObject(ObjectIndex(1050))));
    assert_eq!(r.get_intrinsic_default_proto(ProtoIntrinsics::WeakRef), Object::Object(OrdinaryObject(ObjectIndex(1051))));
    assert_eq!(r.get_intrinsic_default_proto(ProtoIntrinsics::WeakSet), Object::Object(OrdinaryObject(ObjectIndex(1052))));
}

#[test]
fn default_proto_of_every_tag_is_live_after_bootstrap() {
    let (agent, r) = bootstrapped();
    let tags = [
        ProtoIntrinsics::Array,
        ProtoIntrinsics::ArrayBuffer,
        ProtoIntrinsics::BigInt,
        ProtoIntrinsics::Boolean,
        ProtoIntrinsics::Error,
        ProtoIntrinsics::Date,
        ProtoIntrinsics::EvalError,
        ProtoIntrinsics::Function,
        ProtoIntrinsics::Number,
        ProtoIntrinsics::Object,
        ProtoIntrinsics::RangeError,
        ProtoIntrinsics::ReferenceError,
        ProtoIntrinsics::String,
        ProtoIntrinsics::Symbol,
        ProtoIntrinsics::SyntaxError,
        ProtoIntrinsics::TypeError,
        ProtoIntrinsics::UriError,
        ProtoIntrinsics::AggregateError,
        ProtoIntrinsics::AsyncFunction,
        ProtoIntrinsics::AsyncGeneratorFunction,
        ProtoIntrinsics::BigInt64Array,
        ProtoIntrinsics::BigUint64Array,
        ProtoIntrinsics::DataView,
        ProtoIntrinsics::FinalizationRegistry,
        ProtoIntrinsics::Float32Array,
        ProtoIntrinsics::Float64Array,
        ProtoIntrinsics::GeneratorFunction,
        ProtoIntrinsics::Int16Array,
        ProtoIntrinsics::Int32Array,
        ProtoIntrinsics::Int8Array,
        ProtoIntrinsics::MapObject,
        ProtoIntrinsics::Promise,
        ProtoIntrinsics::RegExp,
        ProtoIntrinsics::SetObject,
        ProtoIntrinsics::SharedArrayBuffer,
        ProtoIntrinsics::Uint16Array,
        ProtoIntrinsics::Uint32Array,
        ProtoIntrinsics::Uint8Array,
        ProtoIntrinsics::WeakMap,
        ProtoIntrinsics::WeakRef,
        ProtoIntrinsics::WeakSet,
    ];
    assert_eq!(tags.len(), 41);
    for tag in tags {
        assert!(agent.heap.contains(r.get_intrinsic_default_proto(tag)));
    }
}

#[test]
fn big_uint64_array_tag_shares_the_big_int64_array_prototype() {
    let r = registry();
    assert_eq!(
        r.get_intrinsic_default_proto(ProtoIntrinsics::BigUint64Array),
        Object::Object(r.big_int64_array_prototype())
    );
    assert_eq!(
        r.get_intrinsic_default_proto(ProtoIntrinsics::BigUint64Array),
        r.get_intrinsic_default_proto(ProtoIntrinsics::BigInt64Array)
    );
    assert_ne!(r.big_uint64_array_prototype(), r.big_int64_array_prototype());
}

#[test]
fn aliased_accessors_share_one_slot() {
    let r = registry();
    assert_eq!(r.generator_function_prototype_prototype(), r.generator_prototype());
    assert_eq!(
        r.async_generator_function_prototype_prototype(),
        r.async_generator_prototype()
    );
}
