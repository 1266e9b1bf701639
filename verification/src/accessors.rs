//! One accessor per well-known built-in: the handle at `base + offset`.
//!
//! Every accessor is pure and constant-time. Several names may resolve to
//! one slot.

use vstd::prelude::*;
use crate::heap::{Heap, RealmIdentifier};
use crate::heap_constants::{
    IntrinsicConstructorIndexes, IntrinsicFunctionIndexes, IntrinsicObjectIndexes,
    IntrinsicPrimitiveObjectIndexes,
};
use crate::indexes::{
    Array, BuiltinFunction, Object, ObjectIndex, OrdinaryObject, PrimitiveObject,
};
use crate::intrinsics::Intrinsics;

verus! {

/// The built-ins that serve as the default `[[Prototype]]` of new objects,
/// named by the constructor that they belong to.
#[derive(Debug, Clone, Copy, PartialEq, Eq, Structural)]
pub enum ProtoIntrinsics {
    AggregateError,
    Array,
    ArrayBuffer,
    AsyncFunction,
    AsyncGeneratorFunction,
    BigInt,
    BigInt64Array,
    BigUint64Array,
    Boolean,
    DataView,
    Date,
    Error,
    EvalError,
    FinalizationRegistry,
    Float32Array,
    Float64Array,
    Function,
    GeneratorFunction,
    Int16Array,
    Int32Array,
    Int8Array,
    MapObject,
    Number,
    Object,
    Promise,
    RangeError,
    ReferenceError,
    RegExp,
    SetObject,
    SharedArrayBuffer,
    String,
    Symbol,
    SyntaxError,
    TypeError,
    Uint16Array,
    Uint32Array,
    Uint8Array,
    UriError,
    WeakMap,
    WeakRef,
    WeakSet,
}

impl Intrinsics {
    /// The default prototype that `tag` asks for. `BigUint64Array` asks for
    /// the same object as `BigInt64Array`.
    pub open spec fn default_proto(&self, tag: ProtoIntrinsics) -> Object {
        match tag {
            ProtoIntrinsics::Array => Object::Array(self.array_prototype),
            ProtoIntrinsics::ArrayBuffer => Object::Object(
                self.intrinsic_object(IntrinsicObjectIndexes::ArrayBufferPrototype),
            ),
            ProtoIntrinsics::BigInt => Object::Object(
                self.intrinsic_object(IntrinsicObjectIndexes::BigIntPrototype),
            ),
            ProtoIntrinsics::Boolean => Object::PrimitiveObject(
                self.intrinsic_primitive_object(IntrinsicPrimitiveObjectIndexes::BooleanPrototype),
            ),
            ProtoIntrinsics::Error => Object::Object(
                self.intrinsic_object(IntrinsicObjectIndexes::ErrorPrototype),
            ),
            ProtoIntrinsics::Date => Object::Object(
                self.intrinsic_object(IntrinsicObjectIndexes::DatePrototype),
            ),
            ProtoIntrinsics::EvalError => Object::Object(
                self.intrinsic_object(IntrinsicObjectIndexes::EvalErrorPrototype),
            ),
            ProtoIntrinsics::Function => Object::BuiltinFunction(
                self.intrinsic_constructor(IntrinsicConstructorIndexes::FunctionPrototype),
            ),
            ProtoIntrinsics::Number => Object::PrimitiveObject(
                self.intrinsic_primitive_object(IntrinsicPrimitiveObjectIndexes::NumberPrototype),
            ),
            ProtoIntrinsics::Object => Object::Object(
                self.intrinsic_object(IntrinsicObjectIndexes::ObjectPrototype),
            ),
            ProtoIntrinsics::RangeError => Object::Object(
                self.intrinsic_object(IntrinsicObjectIndexes::RangeErrorPrototype),
            ),
            ProtoIntrinsics::ReferenceError => Object::Object(
                self.intrinsic_object(IntrinsicObjectIndexes::ReferenceErrorPrototype),
            ),
            ProtoIntrinsics::String => Object::PrimitiveObject(
                self.intrinsic_primitive_object(IntrinsicPrimitiveObjectIndexes::StringPrototype),
            ),
            ProtoIntrinsics::Symbol => Object::Object(
                self.intrinsic_object(IntrinsicObjectIndexes::SymbolPrototype),
            ),
            ProtoIntrinsics::SyntaxError => Object::Object(
                self.intrinsic_object(IntrinsicObjectIndexes::SyntaxErrorPrototype),
            ),
            ProtoIntrinsics::TypeError => Object::Object(
                self.intrinsic_object(IntrinsicObjectIndexes::TypeErrorPrototype),
            ),
            ProtoIntrinsics::UriError => Object::Object(
                self.intrinsic_object(IntrinsicObjectIndexes::URIErrorPrototype),
            ),
            ProtoIntrinsics::AggregateError => Object::Object(
                self.intrinsic_object(IntrinsicObjectIndexes::AggregateErrorPrototype),
            ),
            ProtoIntrinsics::AsyncFunction => Object::Object(
                self.intrinsic_object(IntrinsicObjectIndexes::AsyncFunctionPrototype),
            ),
            ProtoIntrinsics::AsyncGeneratorFunction => Object::Object(
                self.intrinsic_object(IntrinsicObjectIndexes::AsyncGeneratorFunctionPrototype),
            ),
            ProtoIntrinsics::BigInt64Array => Object::Object(
                self.intrinsic_object(IntrinsicObjectIndexes::BigInt64ArrayPrototype),
            ),
            ProtoIntrinsics::BigUint64Array => Object::Object(
                self.intrinsic_object(IntrinsicObjectIndexes::BigInt64ArrayPrototype),
            ),
            ProtoIntrinsics::DataView => Object::Object(
                self.intrinsic_object(IntrinsicObjectIndexes::DataViewPrototype),
            ),
            ProtoIntrinsics::FinalizationRegistry => Object::Object(
                self.intrinsic_object(IntrinsicObjectIndexes::FinalizationRegistryPrototype),
            ),
            ProtoIntrinsics::Float32Array => Object::Object(
                self.intrinsic_object(IntrinsicObjectIndexes::Float32ArrayPrototype),
            ),
            ProtoIntrinsics::Float64Array => Object::Object(
                self.intrinsic_object(IntrinsicObjectIndexes::Float64ArrayPrototype),
            ),
            ProtoIntrinsics::GeneratorFunction => Object::Object(
                self.intrinsic_object(IntrinsicObjectIndexes::GeneratorFunctionPrototype),
            ),
            ProtoIntrinsics::Int16Array => Object::Object(
                self.intrinsic_object(IntrinsicObjectIndexes::Int16ArrayPrototype),
            ),
            ProtoIntrinsics::Int32Array => Object::Object(
                self.intrinsic_object(IntrinsicObjectIndexes::Int32ArrayPrototype),
            ),
            ProtoIntrinsics::Int8Array => Object::Object(
                self.intrinsic_object(IntrinsicObjectIndexes::Int8ArrayPrototype),
            ),
            ProtoIntrinsics::MapObject => Object::Object(
                self.intrinsic_object(IntrinsicObjectIndexes::MapPrototype),
            ),
            ProtoIntrinsics::Promise => Object::Object(
                self.intrinsic_object(IntrinsicObjectIndexes::PromisePrototype),
            ),
            ProtoIntrinsics::RegExp => Object::Object(
                self.intrinsic_object(IntrinsicObjectIndexes::RegExpPrototype),
            ),
            ProtoIntrinsics::SetObject => Object::Object(
                self.intrinsic_object(IntrinsicObjectIndexes::SetPrototype),
            ),
            ProtoIntrinsics::SharedArrayBuffer => Object::Object(
                self.intrinsic_object(IntrinsicObjectIndexes::SharedArrayBufferPrototype),
            ),
            ProtoIntrinsics::Uint16Array => Object::Object(
                self.intrinsic_object(IntrinsicObjectIndexes::Uint16ArrayPrototype),
            ),
            ProtoIntrinsics::Uint32Array => Object::Object(
                self.intrinsic_object(IntrinsicObjectIndexes::Uint32ArrayPrototype),
            ),
            ProtoIntrinsics::Uint8Array => Object::Object(
                self.intrinsic_object(IntrinsicObjectIndexes::Uint8ArrayPrototype),
            ),
            ProtoIntrinsics::WeakMap => Object::Object(
                self.intrinsic_object(IntrinsicObjectIndexes::WeakMapPrototype),
            ),
            ProtoIntrinsics::WeakRef => Object::Object(
                self.intrinsic_object(IntrinsicObjectIndexes::WeakRefPrototype),
            ),
            ProtoIntrinsics::WeakSet => Object::Object(
                self.intrinsic_object(IntrinsicObjectIndexes::WeakSetPrototype),
            ),
        }
    }

    /// The default prototype that `intrinsic_default_proto` asks for. Every
    /// tag has an answer. The tags `BigInt64Array` and `BigUint64Array`
    /// share one: the prototype of `BigInt64Array`.
    #[inline]
    pub fn get_intrinsic_default_proto(&self, intrinsic_default_proto: ProtoIntrinsics) -> (proto:
        Object)
        requires
            self.is_valid(),
        ensures
            proto == self.default_proto(intrinsic_default_proto),
    {
        match intrinsic_default_proto {
            ProtoIntrinsics::Array => Object::Array(self.array_prototype()),
            ProtoIntrinsics::ArrayBuffer => Object::Object(self.array_buffer_prototype()),
            ProtoIntrinsics::BigInt => Object::Object(self.big_int_prototype()),
            ProtoIntrinsics::Boolean => Object::PrimitiveObject(self.boolean_prototype()),
            ProtoIntrinsics::Error => Object::Object(self.error_prototype()),
            ProtoIntrinsics::Date => Object::Object(self.date_prototype()),
            ProtoIntrinsics::EvalError => Object::Object(self.eval_error_prototype()),
            ProtoIntrinsics::Function => Object::BuiltinFunction(self.function_prototype()),
            ProtoIntrinsics::Number => Object::PrimitiveObject(self.number_prototype()),
            ProtoIntrinsics::Object => Object::Object(self.object_prototype()),
            ProtoIntrinsics::RangeError => Object::Object(self.range_error_prototype()),
            ProtoIntrinsics::ReferenceError => Object::Object(self.reference_error_prototype()),
            ProtoIntrinsics::String => Object::PrimitiveObject(self.string_prototype()),
            ProtoIntrinsics::Symbol => Object::Object(self.symbol_prototype()),
            ProtoIntrinsics::SyntaxError => Object::Object(self.syntax_error_prototype()),
            ProtoIntrinsics::TypeError => Object::Object(self.type_error_prototype()),
            ProtoIntrinsics::UriError => Object::Object(self.uri_error_prototype()),
            ProtoIntrinsics::AggregateError => Object::Object(self.aggregate_error_prototype()),
            ProtoIntrinsics::AsyncFunction => Object::Object(self.async_function_prototype()),
            ProtoIntrinsics::AsyncGeneratorFunction => Object::Object(
                self.async_generator_function_prototype(),
            ),
            ProtoIntrinsics::BigInt64Array => Object::Object(self.big_int64_array_prototype()),
            ProtoIntrinsics::BigUint64Array => Object::Object(self.big_int64_array_prototype()),
            ProtoIntrinsics::DataView => Object::Object(self.data_view_prototype()),
            ProtoIntrinsics::FinalizationRegistry => Object::Object(
                self.finalization_registry_prototype(),
            ),
            ProtoIntrinsics::Float32Array => Object::Object(self.float32_array_prototype()),
            ProtoIntrinsics::Float64Array => Object::Object(self.float64_array_prototype()),
            ProtoIntrinsics::GeneratorFunction => Object::Object(
                self.generator_function_prototype(),
            ),
            ProtoIntrinsics::Int16Array => Object::Object(self.int16_array_prototype()),
            ProtoIntrinsics::Int32Array => Object::Object(self.int32_array_prototype()),
            ProtoIntrinsics::Int8Array => Object::Object(self.int8_array_prototype()),
            ProtoIntrinsics::MapObject => Object::Object(self.map_prototype()),
            ProtoIntrinsics::Promise => Object::Object(self.promise_prototype()),
            ProtoIntrinsics::RegExp => Object::Object(self.reg_exp_prototype()),
            ProtoIntrinsics::SetObject => Object::Object(self.set_prototype()),
            ProtoIntrinsics::SharedArrayBuffer => Object::Object(
                self.shared_array_buffer_prototype(),
            ),
            ProtoIntrinsics::Uint16Array => Object::Object(self.uint16_array_prototype()),
            ProtoIntrinsics::Uint32Array => Object::Object(self.uint32_array_prototype()),
            ProtoIntrinsics::Uint8Array => Object::Object(self.uint8_array_prototype()),
            ProtoIntrinsics::WeakMap => Object::Object(self.weak_map_prototype()),
            ProtoIntrinsics::WeakRef => Object::Object(self.weak_ref_prototype()),
            ProtoIntrinsics::WeakSet => Object::Object(self.weak_set_prototype()),
        }
    }

    /// After bootstrap, the default prototype of every tag is live.
    pub proof fn lemma_default_proto_is_live(
        &self,
        heap: &Heap,
        realm: RealmIdentifier,
        tag: ProtoIntrinsics,
    )
        requires
            self.is_valid(),
            self.bootstrapped_in(heap, realm),
        ensures
            heap.is_live(self.default_proto(tag)),
    {
        self.lemma_bootstrapped_live(heap, realm);
    }

    /// %AggregateError.prototype%
    pub fn aggregate_error_prototype(&self) -> (handle: OrdinaryObject)
        requires
            self.is_valid(),
        ensures
            handle == self.intrinsic_object(IntrinsicObjectIndexes::AggregateErrorPrototype),
    {
        OrdinaryObject(
            IntrinsicObjectIndexes::AggregateErrorPrototype.get_object_index(
                self.object_index_base,
            ),
        )
    }

    /// %AggregateError%
    pub fn aggregate_error(&self) -> (handle: BuiltinFunction)
        requires
            self.is_valid(),
        ensures
            handle == self.intrinsic_constructor(IntrinsicConstructorIndexes::AggregateError),
    {
        BuiltinFunction(
            IntrinsicConstructorIndexes::AggregateError.get_builtin_function_index(
                self.builtin_function_index_base,
            ),
        )
    }

    /// The property-bag object of %AggregateError%.
    pub fn aggregate_error_base_object(&self) -> (handle: ObjectIndex)
        requires
            self.is_valid(),
        ensures
            handle == self.intrinsic_constructor_base_object(
                IntrinsicConstructorIndexes::AggregateError,
            ),
    {
        IntrinsicConstructorIndexes::AggregateError.get_object_index(self.object_index_base)
    }

    /// %Array.prototype.sort%
    pub fn array_prototype_sort(&self) -> (handle: BuiltinFunction)
        requires
            self.is_valid(),
        ensures
            handle == self.intrinsic_function(IntrinsicFunctionIndexes::ArrayPrototypeSort),
    {
        BuiltinFunction(
            IntrinsicFunctionIndexes::ArrayPrototypeSort.get_builtin_function_index(
                self.builtin_function_index_base,
            ),
        )
    }

    /// %Array.prototype.toString%
    pub fn array_prototype_to_string(&self) -> (handle: BuiltinFunction)
        requires
            self.is_valid(),
        ensures
            handle == self.intrinsic_function(IntrinsicFunctionIndexes::ArrayPrototypeToString),
    {
        BuiltinFunction(
            IntrinsicFunctionIndexes::ArrayPrototypeToString.get_builtin_function_index(
                self.builtin_function_index_base,
            ),
        )
    }

    /// %Array.prototype.values%
    pub fn array_prototype_values(&self) -> (handle: BuiltinFunction)
        requires
            self.is_valid(),
        ensures
            handle == self.intrinsic_function(IntrinsicFunctionIndexes::ArrayPrototypeValues),
    {
        BuiltinFunction(
            IntrinsicFunctionIndexes::ArrayPrototypeValues.get_builtin_function_index(
                self.builtin_function_index_base,
            ),
        )
    }

    /// %Array.prototype%, as the Array exotic object that it is.
    pub fn array_prototype(&self) -> (handle: Array)
        ensures
            handle == self.array_prototype,
    {
        self.array_prototype
    }

    /// The property-bag object of %Array.prototype%.
    pub fn array_prototype_base_object(&self) -> (handle: OrdinaryObject)
        requires
            self.is_valid(),
        ensures
            handle == self.intrinsic_object(IntrinsicObjectIndexes::ArrayPrototype),
    {
        OrdinaryObject(
            IntrinsicObjectIndexes::ArrayPrototype.get_object_index(self.object_index_base),
        )
    }

    /// %Array%
    pub fn array(&self) -> (handle: BuiltinFunction)
        requires
            self.is_valid(),
        ensures
            handle == self.intrinsic_constructor(IntrinsicConstructorIndexes::Array),
    {
        BuiltinFunction(
            IntrinsicConstructorIndexes::Array.get_builtin_function_index(
                self.builtin_function_index_base,
            ),
        )
    }

    /// The property-bag object of %Array%.
    pub fn array_base_object(&self) -> (handle: ObjectIndex)
        requires
            self.is_valid(),
        ensures
            handle == self.intrinsic_constructor_base_object(IntrinsicConstructorIndexes::Array),
    {
        IntrinsicConstructorIndexes::Array.get_object_index(self.object_index_base)
    }

    /// %ArrayBuffer.prototype%
    pub fn array_buffer_prototype(&self) -> (handle: OrdinaryObject)
        requires
            self.is_valid(),
        ensures
            handle == self.intrinsic_object(IntrinsicObjectIndexes::ArrayBufferPrototype),
    {
        OrdinaryObject(
            IntrinsicObjectIndexes::ArrayBufferPrototype.get_object_index(self.object_index_base),
        )
    }

    /// %ArrayBuffer%
    pub fn array_buffer(&self) -> (handle: BuiltinFunction)
        requires
            self.is_valid(),
        ensures
            handle == self.intrinsic_constructor(IntrinsicConstructorIndexes::ArrayBuffer),
    {
        BuiltinFunction(
            IntrinsicConstructorIndexes::ArrayBuffer.get_builtin_function_index(
                self.builtin_function_index_base,
            ),
        )
    }

    /// The property-bag object of %ArrayBuffer%.
    pub fn array_buffer_base_object(&self) -> (handle: ObjectIndex)
        requires
            self.is_valid(),
        ensures
            handle == self.intrinsic_constructor_base_object(
                IntrinsicConstructorIndexes::ArrayBuffer,
            ),
    {
        IntrinsicConstructorIndexes::ArrayBuffer.get_object_index(self.object_index_base)
    }

    /// %ArrayIteratorPrototype%
    pub fn array_iterator_prototype(&self) -> (handle: OrdinaryObject)
        requires
            self.is_valid(),
        ensures
            handle == self.intrinsic_object(IntrinsicObjectIndexes::ArrayIteratorPrototype),
    {
        OrdinaryObject(
            IntrinsicObjectIndexes::ArrayIteratorPrototype.get_object_index(self.object_index_base),
        )
    }

    /// %AsyncFromSyncIteratorPrototype%
    pub fn async_from_sync_iterator_prototype(&self) -> (handle: OrdinaryObject)
        requires
            self.is_valid(),
        ensures
            handle == self.intrinsic_object(IntrinsicObjectIndexes::AsyncFromSyncIteratorPrototype),
    {
        OrdinaryObject(
            IntrinsicObjectIndexes::AsyncFromSyncIteratorPrototype.get_object_index(
                self.object_index_base,
            ),
        )
    }

    /// %AsyncFunction.prototype%
    pub fn async_function_prototype(&self) -> (handle: OrdinaryObject)
        requires
            self.is_valid(),
        ensures
            handle == self.intrinsic_object(IntrinsicObjectIndexes::AsyncFunctionPrototype),
    {
        OrdinaryObject(
            IntrinsicObjectIndexes::AsyncFunctionPrototype.get_object_index(self.object_index_base),
        )
    }

    /// %AsyncFunction%
    pub fn async_function(&self) -> (handle: BuiltinFunction)
        requires
            self.is_valid(),
        ensures
            handle == self.intrinsic_constructor(IntrinsicConstructorIndexes::AsyncFunction),
    {
        BuiltinFunction(
            IntrinsicConstructorIndexes::AsyncFunction.get_builtin_function_index(
                self.builtin_function_index_base,
            ),
        )
    }

    /// The property-bag object of %AsyncFunction%.
    pub fn async_function_base_object(&self) -> (handle: ObjectIndex)
        requires
            self.is_valid(),
        ensures
            handle == self.intrinsic_constructor_base_object(
                IntrinsicConstructorIndexes::AsyncFunction,
            ),
    {
        IntrinsicConstructorIndexes::AsyncFunction.get_object_index(self.object_index_base)
    }

    /// %AsyncGeneratorFunction.prototype.prototype%
    ///
    /// The %AsyncGeneratorPrototype% object is %AsyncGeneratorFunction.prototype.prototype%.
    pub fn async_generator_function_prototype_prototype(&self) -> (handle: OrdinaryObject)
        requires
            self.is_valid(),
        ensures
            handle == self.intrinsic_object(IntrinsicObjectIndexes::AsyncGeneratorPrototype),
    {
        OrdinaryObject(
            IntrinsicObjectIndexes::AsyncGeneratorPrototype.get_object_index(
                self.object_index_base,
            ),
        )
    }

    /// %AsyncGeneratorFunction.prototype%
    pub fn async_generator_function_prototype(&self) -> (handle: OrdinaryObject)
        requires
            self.is_valid(),
        ensures
            handle == self.intrinsic_object(
                IntrinsicObjectIndexes::AsyncGeneratorFunctionPrototype,
            ),
    {
        OrdinaryObject(
            IntrinsicObjectIndexes::AsyncGeneratorFunctionPrototype.get_object_index(
                self.object_index_base,
            ),
        )
    }

    /// %AsyncGeneratorFunction%
    pub fn async_generator_function(&self) -> (handle: BuiltinFunction)
        requires
            self.is_valid(),
        ensures
            handle == self.intrinsic_constructor(
                IntrinsicConstructorIndexes::AsyncGeneratorFunction,
            ),
    {
        BuiltinFunction(
            IntrinsicConstructorIndexes::AsyncGeneratorFunction.get_builtin_function_index(
                self.builtin_function_index_base,
            ),
        )
    }

    /// The property-bag object of %AsyncGeneratorFunction%.
    pub fn async_generator_function_base_object(&self) -> (handle: ObjectIndex)
        requires
            self.is_valid(),
        ensures
            handle == self.intrinsic_constructor_base_object(
                IntrinsicConstructorIndexes::AsyncGeneratorFunction,
            ),
    {
        IntrinsicConstructorIndexes::AsyncGeneratorFunction.get_object_index(self.object_index_base)
    }

    /// %AsyncGeneratorPrototype%
    pub fn async_generator_prototype(&self) -> (handle: OrdinaryObject)
        requires
            self.is_valid(),
        ensures
            handle == self.intrinsic_object(IntrinsicObjectIndexes::AsyncGeneratorPrototype),
    {
        OrdinaryObject(
            IntrinsicObjectIndexes::AsyncGeneratorPrototype.get_object_index(
                self.object_index_base,
            ),
        )
    }

    /// %AsyncIteratorPrototype%
    pub fn async_iterator_prototype(&self) -> (handle: OrdinaryObject)
        requires
            self.is_valid(),
        ensures
            handle == self.intrinsic_object(IntrinsicObjectIndexes::AsyncIteratorPrototype),
    {
        OrdinaryObject(
            IntrinsicObjectIndexes::AsyncIteratorPrototype.get_object_index(self.object_index_base),
        )
    }

    /// %Atomics%
    pub fn atomics(&self) -> (handle: OrdinaryObject)
        requires
            self.is_valid(),
        ensures
            handle == self.intrinsic_object(IntrinsicObjectIndexes::AtomicsObject),
    {
        OrdinaryObject(
            IntrinsicObjectIndexes::AtomicsObject.get_object_index(self.object_index_base),
        )
    }

    /// %BigInt.prototype%
    pub fn big_int_prototype(&self) -> (handle: OrdinaryObject)
        requires
            self.is_valid(),
        ensures
            handle == self.intrinsic_object(IntrinsicObjectIndexes::BigIntPrototype),
    {
        OrdinaryObject(
            IntrinsicObjectIndexes::BigIntPrototype.get_object_index(self.object_index_base),
        )
    }

    /// %BigInt%
    pub fn big_int(&self) -> (handle: BuiltinFunction)
        requires
            self.is_valid(),
        ensures
            handle == self.intrinsic_constructor(IntrinsicConstructorIndexes::BigInt),
    {
        BuiltinFunction(
            IntrinsicConstructorIndexes::BigInt.get_builtin_function_index(
                self.builtin_function_index_base,
            ),
        )
    }

    /// The property-bag object of %BigInt%.
    pub fn big_int_base_object(&self) -> (handle: ObjectIndex)
        requires
            self.is_valid(),
        ensures
            handle == self.intrinsic_constructor_base_object(IntrinsicConstructorIndexes::BigInt),
    {
        IntrinsicConstructorIndexes::BigInt.get_object_index(self.object_index_base)
    }

    /// %BigInt64Array.prototype%
    pub fn big_int64_array_prototype(&self) -> (handle: OrdinaryObject)
        requires
            self.is_valid(),
        ensures
            handle == self.intrinsic_object(IntrinsicObjectIndexes::BigInt64ArrayPrototype),
    {
        OrdinaryObject(
            IntrinsicObjectIndexes::BigInt64ArrayPrototype.get_object_index(self.object_index_base),
        )
    }

    /// %BigInt64Array%
    pub fn big_int64_array(&self) -> (handle: BuiltinFunction)
        requires
            self.is_valid(),
        ensures
            handle == self.intrinsic_constructor(IntrinsicConstructorIndexes::BigInt64Array),
    {
        BuiltinFunction(
            IntrinsicConstructorIndexes::BigInt64Array.get_builtin_function_index(
                self.builtin_function_index_base,
            ),
        )
    }

    /// The property-bag object of %BigInt64Array%.
    pub fn big_int64_array_base_object(&self) -> (handle: ObjectIndex)
        requires
            self.is_valid(),
        ensures
            handle == self.intrinsic_constructor_base_object(
                IntrinsicConstructorIndexes::BigInt64Array,
            ),
    {
        IntrinsicConstructorIndexes::BigInt64Array.get_object_index(self.object_index_base)
    }

    /// %BigUint64Array.prototype%
    pub fn big_uint64_array_prototype(&self) -> (handle: OrdinaryObject)
        requires
            self.is_valid(),
        ensures
            handle == self.intrinsic_object(IntrinsicObjectIndexes::BigUint64ArrayPrototype),
    {
        OrdinaryObject(
            IntrinsicObjectIndexes::BigUint64ArrayPrototype.get_object_index(
                self.object_index_base,
            ),
        )
    }

    /// %BigUint64Array%
    pub fn big_uint64_array(&self) -> (handle: BuiltinFunction)
        requires
            self.is_valid(),
        ensures
            handle == self.intrinsic_constructor(IntrinsicConstructorIndexes::BigUint64Array),
    {
        BuiltinFunction(
            IntrinsicConstructorIndexes::BigUint64Array.get_builtin_function_index(
                self.builtin_function_index_base,
            ),
        )
    }

    /// The property-bag object of %BigUint64Array%.
    pub fn big_uint64_array_base_object(&self) -> (handle: ObjectIndex)
        requires
            self.is_valid(),
        ensures
            handle == self.intrinsic_constructor_base_object(
                IntrinsicConstructorIndexes::BigUint64Array,
            ),
    {
        IntrinsicConstructorIndexes::BigUint64Array.get_object_index(self.object_index_base)
    }

    /// %Boolean.prototype%
    pub fn boolean_prototype(&self) -> (handle: PrimitiveObject)
        requires
            self.is_valid(),
        ensures
            handle == self.intrinsic_primitive_object(
                IntrinsicPrimitiveObjectIndexes::BooleanPrototype,
            ),
    {
        PrimitiveObject(
            IntrinsicPrimitiveObjectIndexes::BooleanPrototype.get_primitive_object_index(
                self.primitive_object_index_base,
            ),
        )
    }

    /// The property-bag object of %Boolean.prototype%.
    pub fn boolean_prototype_base_object(&self) -> (handle: ObjectIndex)
        requires
            self.is_valid(),
        ensures
            handle == self.intrinsic_primitive_base_object(
                IntrinsicPrimitiveObjectIndexes::BooleanPrototype,
            ),
    {
        IntrinsicPrimitiveObjectIndexes::BooleanPrototype.get_object_index(self.object_index_base)
    }

    /// %Boolean%
    pub fn boolean(&self) -> (handle: BuiltinFunction)
        requires
            self.is_valid(),
        ensures
            handle == self.intrinsic_constructor(IntrinsicConstructorIndexes::Boolean),
    {
        BuiltinFunction(
            IntrinsicConstructorIndexes::Boolean.get_builtin_function_index(
                self.builtin_function_index_base,
            ),
        )
    }

    /// The property-bag object of %Boolean%.
    pub fn boolean_base_object(&self) -> (handle: ObjectIndex)
        requires
            self.is_valid(),
        ensures
            handle == self.intrinsic_constructor_base_object(IntrinsicConstructorIndexes::Boolean),
    {
        IntrinsicConstructorIndexes::Boolean.get_object_index(self.object_index_base)
    }

    /// %DataView.prototype%
    pub fn data_view_prototype(&self) -> (handle: OrdinaryObject)
        requires
            self.is_valid(),
        ensures
            handle == self.intrinsic_object(IntrinsicObjectIndexes::DataViewPrototype),
    {
        OrdinaryObject(
            IntrinsicObjectIndexes::DataViewPrototype.get_object_index(self.object_index_base),
        )
    }

    /// %DataView%
    pub fn data_view(&self) -> (handle: BuiltinFunction)
        requires
            self.is_valid(),
        ensures
            handle == self.intrinsic_constructor(IntrinsicConstructorIndexes::DataView),
    {
        BuiltinFunction(
            IntrinsicConstructorIndexes::DataView.get_builtin_function_index(
                self.builtin_function_index_base,
            ),
        )
    }

    /// The property-bag object of %DataView%.
    pub fn data_view_base_object(&self) -> (handle: ObjectIndex)
        requires
            self.is_valid(),
        ensures
            handle == self.intrinsic_constructor_base_object(IntrinsicConstructorIndexes::DataView),
    {
        IntrinsicConstructorIndexes::DataView.get_object_index(self.object_index_base)
    }

    /// %Date.prototype.toUTCString%
    pub fn date_prototype_to_utcstring(&self) -> (handle: BuiltinFunction)
        requires
            self.is_valid(),
        ensures
            handle == self.intrinsic_function(IntrinsicFunctionIndexes::DatePrototypeToUTCString),
    {
        BuiltinFunction(
            IntrinsicFunctionIndexes::DatePrototypeToUTCString.get_builtin_function_index(
                self.builtin_function_index_base,
            ),
        )
    }

    /// %Date.prototype%
    pub fn date_prototype(&self) -> (handle: OrdinaryObject)
        requires
            self.is_valid(),
        ensures
            handle == self.intrinsic_object(IntrinsicObjectIndexes::DatePrototype),
    {
        OrdinaryObject(
            IntrinsicObjectIndexes::DatePrototype.get_object_index(self.object_index_base),
        )
    }

    /// %Date%
    pub fn date(&self) -> (handle: BuiltinFunction)
        requires
            self.is_valid(),
        ensures
            handle == self.intrinsic_constructor(IntrinsicConstructorIndexes::Date),
    {
        BuiltinFunction(
            IntrinsicConstructorIndexes::Date.get_builtin_function_index(
                self.builtin_function_index_base,
            ),
        )
    }

    /// The property-bag object of %Date%.
    pub fn date_base_object(&self) -> (handle: ObjectIndex)
        requires
            self.is_valid(),
        ensures
            handle == self.intrinsic_constructor_base_object(IntrinsicConstructorIndexes::Date),
    {
        IntrinsicConstructorIndexes::Date.get_object_index(self.object_index_base)
    }

    /// %decodeURI%
    pub fn decode_uri(&self) -> (handle: BuiltinFunction)
        requires
            self.is_valid(),
        ensures
            handle == self.intrinsic_function(IntrinsicFunctionIndexes::DecodeURI),
    {
        BuiltinFunction(
            IntrinsicFunctionIndexes::DecodeURI.get_builtin_function_index(
                self.builtin_function_index_base,
            ),
        )
    }

    /// %decodeURIComponent%
    pub fn decode_uri_component(&self) -> (handle: BuiltinFunction)
        requires
            self.is_valid(),
        ensures
            handle == self.intrinsic_function(IntrinsicFunctionIndexes::DecodeURIComponent),
    {
        BuiltinFunction(
            IntrinsicFunctionIndexes::DecodeURIComponent.get_builtin_function_index(
                self.builtin_function_index_base,
            ),
        )
    }

    /// %encodeURI%
    pub fn encode_uri(&self) -> (handle: BuiltinFunction)
        requires
            self.is_valid(),
        ensures
            handle == self.intrinsic_function(IntrinsicFunctionIndexes::EncodeURI),
    {
        BuiltinFunction(
            IntrinsicFunctionIndexes::EncodeURI.get_builtin_function_index(
                self.builtin_function_index_base,
            ),
        )
    }

    /// %encodeURIComponent%
    pub fn encode_uri_component(&self) -> (handle: BuiltinFunction)
        requires
            self.is_valid(),
        ensures
            handle == self.intrinsic_function(IntrinsicFunctionIndexes::EncodeURIComponent),
    {
        BuiltinFunction(
            IntrinsicFunctionIndexes::EncodeURIComponent.get_builtin_function_index(
                self.builtin_function_index_base,
            ),
        )
    }

    /// %Error.prototype%
    pub fn error_prototype(&self) -> (handle: OrdinaryObject)
        requires
            self.is_valid(),
        ensures
            handle == self.intrinsic_object(IntrinsicObjectIndexes::ErrorPrototype),
    {
        OrdinaryObject(
            IntrinsicObjectIndexes::ErrorPrototype.get_object_index(self.object_index_base),
        )
    }

    /// %Error%
    pub fn error(&self) -> (handle: BuiltinFunction)
        requires
            self.is_valid(),
        ensures
            handle == self.intrinsic_constructor(IntrinsicConstructorIndexes::Error),
    {
        BuiltinFunction(
            IntrinsicConstructorIndexes::Error.get_builtin_function_index(
                self.builtin_function_index_base,
            ),
        )
    }

    /// The property-bag object of %Error%.
    pub fn error_base_object(&self) -> (handle: ObjectIndex)
        requires
            self.is_valid(),
        ensures
            handle == self.intrinsic_constructor_base_object(IntrinsicConstructorIndexes::Error),
    {
        IntrinsicConstructorIndexes::Error.get_object_index(self.object_index_base)
    }

    /// %escape%
    pub fn escape(&self) -> (handle: BuiltinFunction)
        requires
            self.is_valid(),
        ensures
            handle == self.intrinsic_function(IntrinsicFunctionIndexes::Escape),
    {
        BuiltinFunction(
            IntrinsicFunctionIndexes::Escape.get_builtin_function_index(
                self.builtin_function_index_base,
            ),
        )
    }

    /// %eval%
    pub fn eval(&self) -> (handle: BuiltinFunction)
        requires
            self.is_valid(),
        ensures
            handle == self.intrinsic_function(IntrinsicFunctionIndexes::Eval),
    {
        BuiltinFunction(
            IntrinsicFunctionIndexes::Eval.get_builtin_function_index(
                self.builtin_function_index_base,
            ),
        )
    }

    /// %EvalError.prototype%
    pub fn eval_error_prototype(&self) -> (handle: OrdinaryObject)
        requires
            self.is_valid(),
        ensures
            handle == self.intrinsic_object(IntrinsicObjectIndexes::EvalErrorPrototype),
    {
        OrdinaryObject(
            IntrinsicObjectIndexes::EvalErrorPrototype.get_object_index(self.object_index_base),
        )
    }

    /// %EvalError%
    pub fn eval_error(&self) -> (handle: BuiltinFunction)
        requires
            self.is_valid(),
        ensures
            handle == self.intrinsic_constructor(IntrinsicConstructorIndexes::EvalError),
    {
        BuiltinFunction(
            IntrinsicConstructorIndexes::EvalError.get_builtin_function_index(
                self.builtin_function_index_base,
            ),
        )
    }

    /// The property-bag object of %EvalError%.
    pub fn eval_error_base_object(&self) -> (handle: ObjectIndex)
        requires
            self.is_valid(),
        ensures
            handle == self.intrinsic_constructor_base_object(
                IntrinsicConstructorIndexes::EvalError,
            ),
    {
        IntrinsicConstructorIndexes::EvalError.get_object_index(self.object_index_base)
    }

    /// %FinalizationRegistry.prototype%
    pub fn finalization_registry_prototype(&self) -> (handle: OrdinaryObject)
        requires
            self.is_valid(),
        ensures
            handle == self.intrinsic_object(IntrinsicObjectIndexes::FinalizationRegistryPrototype),
    {
        OrdinaryObject(
            IntrinsicObjectIndexes::FinalizationRegistryPrototype.get_object_index(
                self.object_index_base,
            ),
        )
    }

    /// %FinalizationRegistry%
    pub fn finalization_registry(&self) -> (handle: BuiltinFunction)
        requires
            self.is_valid(),
        ensures
            handle == self.intrinsic_constructor(IntrinsicConstructorIndexes::FinalizationRegistry),
    {
        BuiltinFunction(
            IntrinsicConstructorIndexes::FinalizationRegistry.get_builtin_function_index(
                self.builtin_function_index_base,
            ),
        )
    }

    /// The property-bag object of %FinalizationRegistry%.
    pub fn finalization_registry_base_object(&self) -> (handle: ObjectIndex)
        requires
            self.is_valid(),
        ensures
            handle == self.intrinsic_constructor_base_object(
                IntrinsicConstructorIndexes::FinalizationRegistry,
            ),
    {
        IntrinsicConstructorIndexes::FinalizationRegistry.get_object_index(self.object_index_base)
    }

    /// %Float32Array.prototype%
    pub fn float32_array_prototype(&self) -> (handle: OrdinaryObject)
        requires
            self.is_valid(),
        ensures
            handle == self.intrinsic_object(IntrinsicObjectIndexes::Float32ArrayPrototype),
    {
        OrdinaryObject(
            IntrinsicObjectIndexes::Float32ArrayPrototype.get_object_index(self.object_index_base),
        )
    }

    /// %Float32Array%
    pub fn float32_array(&self) -> (handle: BuiltinFunction)
        requires
            self.is_valid(),
        ensures
            handle == self.intrinsic_constructor(IntrinsicConstructorIndexes::Float32Array),
    {
        BuiltinFunction(
            IntrinsicConstructorIndexes::Float32Array.get_builtin_function_index(
                self.builtin_function_index_base,
            ),
        )
    }

    /// The property-bag object of %Float32Array%.
    pub fn float32_array_base_object(&self) -> (handle: ObjectIndex)
        requires
            self.is_valid(),
        ensures
            handle == self.intrinsic_constructor_base_object(
                IntrinsicConstructorIndexes::Float32Array,
            ),
    {
        IntrinsicConstructorIndexes::Float32Array.get_object_index(self.object_index_base)
    }

    /// %Float64Array.prototype%
    pub fn float64_array_prototype(&self) -> (handle: OrdinaryObject)
        requires
            self.is_valid(),
        ensures
            handle == self.intrinsic_object(IntrinsicObjectIndexes::Float64ArrayPrototype),
    {
        OrdinaryObject(
            IntrinsicObjectIndexes::Float64ArrayPrototype.get_object_index(self.object_index_base),
        )
    }

    /// %Float64Array%
    pub fn float64_array(&self) -> (handle: BuiltinFunction)
        requires
            self.is_valid(),
        ensures
            handle == self.intrinsic_constructor(IntrinsicConstructorIndexes::Float64Array),
    {
        BuiltinFunction(
            IntrinsicConstructorIndexes::Float64Array.get_builtin_function_index(
                self.builtin_function_index_base,
            ),
        )
    }

    /// The property-bag object of %Float64Array%.
    pub fn float64_array_base_object(&self) -> (handle: ObjectIndex)
        requires
            self.is_valid(),
        ensures
            handle == self.intrinsic_constructor_base_object(
                IntrinsicConstructorIndexes::Float64Array,
            ),
    {
        IntrinsicConstructorIndexes::Float64Array.get_object_index(self.object_index_base)
    }

    /// %Function.prototype%
    pub fn function_prototype(&self) -> (handle: BuiltinFunction)
        requires
            self.is_valid(),
        ensures
            handle == self.intrinsic_constructor(IntrinsicConstructorIndexes::FunctionPrototype),
    {
        BuiltinFunction(
            IntrinsicConstructorIndexes::FunctionPrototype.get_builtin_function_index(
                self.builtin_function_index_base,
            ),
        )
    }

    /// The property-bag object of %Function.prototype%.
    pub fn function_prototype_base_object(&self) -> (handle: ObjectIndex)
        requires
            self.is_valid(),
        ensures
            handle == self.intrinsic_constructor_base_object(
                IntrinsicConstructorIndexes::FunctionPrototype,
            ),
    {
        IntrinsicConstructorIndexes::FunctionPrototype.get_object_index(self.object_index_base)
    }

    /// %Function%
    pub fn function(&self) -> (handle: BuiltinFunction)
        requires
            self.is_valid(),
        ensures
            handle == self.intrinsic_constructor(IntrinsicConstructorIndexes::Function),
    {
        BuiltinFunction(
            IntrinsicConstructorIndexes::Function.get_builtin_function_index(
                self.builtin_function_index_base,
            ),
        )
    }

    /// The property-bag object of %Function%.
    pub fn function_base_object(&self) -> (handle: ObjectIndex)
        requires
            self.is_valid(),
        ensures
            handle == self.intrinsic_constructor_base_object(IntrinsicConstructorIndexes::Function),
    {
        IntrinsicConstructorIndexes::Function.get_object_index(self.object_index_base)
    }

    /// %GeneratorFunction.prototype.prototype.next%
    pub fn generator_function_prototype_prototype_next(&self) -> (handle: BuiltinFunction)
        requires
            self.is_valid(),
        ensures
            handle == self.intrinsic_function(
                IntrinsicFunctionIndexes::GeneratorFunctionPrototypePrototypeNext,
            ),
    {
        BuiltinFunction(
            IntrinsicFunctionIndexes::GeneratorFunctionPrototypePrototypeNext
                .get_builtin_function_index(
                self.builtin_function_index_base,
            ),
        )
    }

    /// %GeneratorFunction.prototype.prototype%
    ///
    /// The %GeneratorPrototype% object is %GeneratorFunction.prototype.prototype%.
    pub fn generator_function_prototype_prototype(&self) -> (handle: OrdinaryObject)
        requires
            self.is_valid(),
        ensures
            handle == self.intrinsic_object(IntrinsicObjectIndexes::GeneratorPrototype),
    {
        OrdinaryObject(
            IntrinsicObjectIndexes::GeneratorPrototype.get_object_index(self.object_index_base),
        )
    }

    /// %GeneratorFunction.prototype%
    pub fn generator_function_prototype(&self) -> (handle: OrdinaryObject)
        requires
            self.is_valid(),
        ensures
            handle == self.intrinsic_object(IntrinsicObjectIndexes::GeneratorFunctionPrototype),
    {
        OrdinaryObject(
            IntrinsicObjectIndexes::GeneratorFunctionPrototype.get_object_index(
                self.object_index_base,
            ),
        )
    }

    /// %GeneratorFunction%
    pub fn generator_function(&self) -> (handle: BuiltinFunction)
        requires
            self.is_valid(),
        ensures
            handle == self.intrinsic_constructor(IntrinsicConstructorIndexes::GeneratorFunction),
    {
        BuiltinFunction(
            IntrinsicConstructorIndexes::GeneratorFunction.get_builtin_function_index(
                self.builtin_function_index_base,
            ),
        )
    }

    /// The property-bag object of %GeneratorFunction%.
    pub fn generator_function_base_object(&self) -> (handle: ObjectIndex)
        requires
            self.is_valid(),
        ensures
            handle == self.intrinsic_constructor_base_object(
                IntrinsicConstructorIndexes::GeneratorFunction,
            ),
    {
        IntrinsicConstructorIndexes::GeneratorFunction.get_object_index(self.object_index_base)
    }

    /// %GeneratorPrototype%
    pub fn generator_prototype(&self) -> (handle: OrdinaryObject)
        requires
            self.is_valid(),
        ensures
            handle == self.intrinsic_object(IntrinsicObjectIndexes::GeneratorPrototype),
    {
        OrdinaryObject(
            IntrinsicObjectIndexes::GeneratorPrototype.get_object_index(self.object_index_base),
        )
    }

    /// %Int16Array.prototype%
    pub fn int16_array_prototype(&self) -> (handle: OrdinaryObject)
        requires
            self.is_valid(),
        ensures
            handle == self.intrinsic_object(IntrinsicObjectIndexes::Int16ArrayPrototype),
    {
        OrdinaryObject(
            IntrinsicObjectIndexes::Int16ArrayPrototype.get_object_index(self.object_index_base),
        )
    }

    /// %Int16Array%
    pub fn int16_array(&self) -> (handle: BuiltinFunction)
        requires
            self.is_valid(),
        ensures
            handle == self.intrinsic_constructor(IntrinsicConstructorIndexes::Int16Array),
    {
        BuiltinFunction(
            IntrinsicConstructorIndexes::Int16Array.get_builtin_function_index(
                self.builtin_function_index_base,
            ),
        )
    }

    /// The property-bag object of %Int16Array%.
    pub fn int16_array_base_object(&self) -> (handle: ObjectIndex)
        requires
            self.is_valid(),
        ensures
            handle == self.intrinsic_constructor_base_object(
                IntrinsicConstructorIndexes::Int16Array,
            ),
    {
        IntrinsicConstructorIndexes::Int16Array.get_object_index(self.object_index_base)
    }

    /// %Int32Array.prototype%
    pub fn int32_array_prototype(&self) -> (handle: OrdinaryObject)
        requires
            self.is_valid(),
        ensures
            handle == self.intrinsic_object(IntrinsicObjectIndexes::Int32ArrayPrototype),
    {
        OrdinaryObject(
            IntrinsicObjectIndexes::Int32ArrayPrototype.get_object_index(self.object_index_base),
        )
    }

    /// %Int32Array%
    pub fn int32_array(&self) -> (handle: BuiltinFunction)
        requires
            self.is_valid(),
        ensures
            handle == self.intrinsic_constructor(IntrinsicConstructorIndexes::Int32Array),
    {
        BuiltinFunction(
            IntrinsicConstructorIndexes::Int32Array.get_builtin_function_index(
                self.builtin_function_index_base,
            ),
        )
    }

    /// The property-bag object of %Int32Array%.
    pub fn int32_array_base_object(&self) -> (handle: ObjectIndex)
        requires
            self.is_valid(),
        ensures
            handle == self.intrinsic_constructor_base_object(
                IntrinsicConstructorIndexes::Int32Array,
            ),
    {
        IntrinsicConstructorIndexes::Int32Array.get_object_index(self.object_index_base)
    }

    /// %Int8Array.prototype%
    pub fn int8_array_prototype(&self) -> (handle: OrdinaryObject)
        requires
            self.is_valid(),
        ensures
            handle == self.intrinsic_object(IntrinsicObjectIndexes::Int8ArrayPrototype),
    {
        OrdinaryObject(
            IntrinsicObjectIndexes::Int8ArrayPrototype.get_object_index(self.object_index_base),
        )
    }

    /// %Int8Array%
    pub fn int8_array(&self) -> (handle: BuiltinFunction)
        requires
            self.is_valid(),
        ensures
            handle == self.intrinsic_constructor(IntrinsicConstructorIndexes::Int8Array),
    {
        BuiltinFunction(
            IntrinsicConstructorIndexes::Int8Array.get_builtin_function_index(
                self.builtin_function_index_base,
            ),
        )
    }

    /// The property-bag object of %Int8Array%.
    pub fn int8_array_base_object(&self) -> (handle: ObjectIndex)
        requires
            self.is_valid(),
        ensures
            handle == self.intrinsic_constructor_base_object(
                IntrinsicConstructorIndexes::Int8Array,
            ),
    {
        IntrinsicConstructorIndexes::Int8Array.get_object_index(self.object_index_base)
    }

    /// %isFinite%
    pub fn is_finite(&self) -> (handle: BuiltinFunction)
        requires
            self.is_valid(),
        ensures
            handle == self.intrinsic_function(IntrinsicFunctionIndexes::IsFinite),
    {
        BuiltinFunction(
            IntrinsicFunctionIndexes::IsFinite.get_builtin_function_index(
                self.builtin_function_index_base,
            ),
        )
    }

    /// %isNaN%
    pub fn is_nan(&self) -> (handle: BuiltinFunction)
        requires
            self.is_valid(),
        ensures
            handle == self.intrinsic_function(IntrinsicFunctionIndexes::IsNaN),
    {
        BuiltinFunction(
            IntrinsicFunctionIndexes::IsNaN.get_builtin_function_index(
                self.builtin_function_index_base,
            ),
        )
    }

    /// %IteratorPrototype%
    pub fn iterator_prototype(&self) -> (handle: OrdinaryObject)
        requires
            self.is_valid(),
        ensures
            handle == self.intrinsic_object(IntrinsicObjectIndexes::IteratorPrototype),
    {
        OrdinaryObject(
            IntrinsicObjectIndexes::IteratorPrototype.get_object_index(self.object_index_base),
        )
    }

    /// %JSON%
    pub fn json(&self) -> (handle: OrdinaryObject)
        requires
            self.is_valid(),
        ensures
            handle == self.intrinsic_object(IntrinsicObjectIndexes::JSONObject),
    {
        OrdinaryObject(IntrinsicObjectIndexes::JSONObject.get_object_index(self.object_index_base))
    }

    /// %Map.prototype.entries%
    pub fn map_prototype_entries(&self) -> (handle: BuiltinFunction)
        requires
            self.is_valid(),
        ensures
            handle == self.intrinsic_function(IntrinsicFunctionIndexes::MapPrototypeEntries),
    {
        BuiltinFunction(
            IntrinsicFunctionIndexes::MapPrototypeEntries.get_builtin_function_index(
                self.builtin_function_index_base,
            ),
        )
    }

    /// %Map.prototype%
    pub fn map_prototype(&self) -> (handle: OrdinaryObject)
        requires
            self.is_valid(),
        ensures
            handle == self.intrinsic_object(IntrinsicObjectIndexes::MapPrototype),
    {
        OrdinaryObject(
            IntrinsicObjectIndexes::MapPrototype.get_object_index(self.object_index_base),
        )
    }

    /// %Map%
    pub fn map(&self) -> (handle: BuiltinFunction)
        requires
            self.is_valid(),
        ensures
            handle == self.intrinsic_constructor(IntrinsicConstructorIndexes::MapObject),
    {
        BuiltinFunction(
            IntrinsicConstructorIndexes::MapObject.get_builtin_function_index(
                self.builtin_function_index_base,
            ),
        )
    }

    /// The property-bag object of %Map%.
    pub fn map_base_object(&self) -> (handle: ObjectIndex)
        requires
            self.is_valid(),
        ensures
            handle == self.intrinsic_constructor_base_object(
                IntrinsicConstructorIndexes::MapObject,
            ),
    {
        IntrinsicConstructorIndexes::MapObject.get_object_index(self.object_index_base)
    }

    /// %MapIteratorPrototype%
    pub fn map_iterator_prototype(&self) -> (handle: OrdinaryObject)
        requires
            self.is_valid(),
        ensures
            handle == self.intrinsic_object(IntrinsicObjectIndexes::MapIteratorPrototype),
    {
        OrdinaryObject(
            IntrinsicObjectIndexes::MapIteratorPrototype.get_object_index(self.object_index_base),
        )
    }

    /// %Math%
    pub fn math(&self) -> (handle: OrdinaryObject)
        requires
            self.is_valid(),
        ensures
            handle == self.intrinsic_object(IntrinsicObjectIndexes::MathObject),
    {
        OrdinaryObject(IntrinsicObjectIndexes::MathObject.get_object_index(self.object_index_base))
    }

    /// %Number.prototype%
    pub fn number_prototype(&self) -> (handle: PrimitiveObject)
        requires
            self.is_valid(),
        ensures
            handle == self.intrinsic_primitive_object(
                IntrinsicPrimitiveObjectIndexes::NumberPrototype,
            ),
    {
        PrimitiveObject(
            IntrinsicPrimitiveObjectIndexes::NumberPrototype.get_primitive_object_index(
                self.primitive_object_index_base,
            ),
        )
    }

    /// The property-bag object of %Number.prototype%.
    pub fn number_prototype_base_object(&self) -> (handle: ObjectIndex)
        requires
            self.is_valid(),
        ensures
            handle == self.intrinsic_primitive_base_object(
                IntrinsicPrimitiveObjectIndexes::NumberPrototype,
            ),
    {
        IntrinsicPrimitiveObjectIndexes::NumberPrototype.get_object_index(self.object_index_base)
    }

    /// %Number%
    pub fn number(&self) -> (handle: BuiltinFunction)
        requires
            self.is_valid(),
        ensures
            handle == self.intrinsic_constructor(IntrinsicConstructorIndexes::Number),
    {
        BuiltinFunction(
            IntrinsicConstructorIndexes::Number.get_builtin_function_index(
                self.builtin_function_index_base,
            ),
        )
    }

    /// The property-bag object of %Number%.
    pub fn number_base_object(&self) -> (handle: ObjectIndex)
        requires
            self.is_valid(),
        ensures
            handle == self.intrinsic_constructor_base_object(IntrinsicConstructorIndexes::Number),
    {
        IntrinsicConstructorIndexes::Number.get_object_index(self.object_index_base)
    }

    /// %Object.prototype.toString%
    pub fn object_prototype_to_string(&self) -> (handle: BuiltinFunction)
        requires
            self.is_valid(),
        ensures
            handle == self.intrinsic_function(IntrinsicFunctionIndexes::ObjectPrototypeToString),
    {
        BuiltinFunction(
            IntrinsicFunctionIndexes::ObjectPrototypeToString.get_builtin_function_index(
                self.builtin_function_index_base,
            ),
        )
    }

    /// %Object.prototype%
    pub fn object_prototype(&self) -> (handle: OrdinaryObject)
        requires
            self.is_valid(),
        ensures
            handle == self.intrinsic_object(IntrinsicObjectIndexes::ObjectPrototype),
    {
        OrdinaryObject(
            IntrinsicObjectIndexes::ObjectPrototype.get_object_index(self.object_index_base),
        )
    }

    /// %Object%
    pub fn object(&self) -> (handle: BuiltinFunction)
        requires
            self.is_valid(),
        ensures
            handle == self.intrinsic_constructor(IntrinsicConstructorIndexes::Object),
    {
        BuiltinFunction(
            IntrinsicConstructorIndexes::Object.get_builtin_function_index(
                self.builtin_function_index_base,
            ),
        )
    }

    /// The property-bag object of %Object%.
    pub fn object_base_object(&self) -> (handle: ObjectIndex)
        requires
            self.is_valid(),
        ensures
            handle == self.intrinsic_constructor_base_object(IntrinsicConstructorIndexes::Object),
    {
        IntrinsicConstructorIndexes::Object.get_object_index(self.object_index_base)
    }

    /// %parseFloat%
    pub fn parse_float(&self) -> (handle: BuiltinFunction)
        requires
            self.is_valid(),
        ensures
            handle == self.intrinsic_function(IntrinsicFunctionIndexes::ParseFloat),
    {
        BuiltinFunction(
            IntrinsicFunctionIndexes::ParseFloat.get_builtin_function_index(
                self.builtin_function_index_base,
            ),
        )
    }

    /// %parseInt%
    pub fn parse_int(&self) -> (handle: BuiltinFunction)
        requires
            self.is_valid(),
        ensures
            handle == self.intrinsic_function(IntrinsicFunctionIndexes::ParseInt),
    {
        BuiltinFunction(
            IntrinsicFunctionIndexes::ParseInt.get_builtin_function_index(
                self.builtin_function_index_base,
            ),
        )
    }

    /// %Promise.prototype%
    pub fn promise_prototype(&self) -> (handle: OrdinaryObject)
        requires
            self.is_valid(),
        ensures
            handle == self.intrinsic_object(IntrinsicObjectIndexes::PromisePrototype),
    {
        OrdinaryObject(
            IntrinsicObjectIndexes::PromisePrototype.get_object_index(self.object_index_base),
        )
    }

    /// %Promise%
    pub fn promise(&self) -> (handle: BuiltinFunction)
        requires
            self.is_valid(),
        ensures
            handle == self.intrinsic_constructor(IntrinsicConstructorIndexes::Promise),
    {
        BuiltinFunction(
            IntrinsicConstructorIndexes::Promise.get_builtin_function_index(
                self.builtin_function_index_base,
            ),
        )
    }

    /// The property-bag object of %Promise%.
    pub fn promise_base_object(&self) -> (handle: ObjectIndex)
        requires
            self.is_valid(),
        ensures
            handle == self.intrinsic_constructor_base_object(IntrinsicConstructorIndexes::Promise),
    {
        IntrinsicConstructorIndexes::Promise.get_object_index(self.object_index_base)
    }

    /// %Proxy%
    pub fn proxy(&self) -> (handle: BuiltinFunction)
        requires
            self.is_valid(),
        ensures
            handle == self.intrinsic_constructor(IntrinsicConstructorIndexes::Proxy),
    {
        BuiltinFunction(
            IntrinsicConstructorIndexes::Proxy.get_builtin_function_index(
                self.builtin_function_index_base,
            ),
        )
    }

    /// The property-bag object of %Proxy%.
    pub fn proxy_base_object(&self) -> (handle: ObjectIndex)
        requires
            self.is_valid(),
        ensures
            handle == self.intrinsic_constructor_base_object(IntrinsicConstructorIndexes::Proxy),
    {
        IntrinsicConstructorIndexes::Proxy.get_object_index(self.object_index_base)
    }

    /// %RangeError.prototype%
    pub fn range_error_prototype(&self) -> (handle: OrdinaryObject)
        requires
            self.is_valid(),
        ensures
            handle == self.intrinsic_object(IntrinsicObjectIndexes::RangeErrorPrototype),
    {
        OrdinaryObject(
            IntrinsicObjectIndexes::RangeErrorPrototype.get_object_index(self.object_index_base),
        )
    }

    /// %RangeError%
    pub fn range_error(&self) -> (handle: BuiltinFunction)
        requires
            self.is_valid(),
        ensures
            handle == self.intrinsic_constructor(IntrinsicConstructorIndexes::RangeError),
    {
        BuiltinFunction(
            IntrinsicConstructorIndexes::RangeError.get_builtin_function_index(
                self.builtin_function_index_base,
            ),
        )
    }

    /// The property-bag object of %RangeError%.
    pub fn range_error_base_object(&self) -> (handle: ObjectIndex)
        requires
            self.is_valid(),
        ensures
            handle == self.intrinsic_constructor_base_object(
                IntrinsicConstructorIndexes::RangeError,
            ),
    {
        IntrinsicConstructorIndexes::RangeError.get_object_index(self.object_index_base)
    }

    /// %ReferenceError.prototype%
    pub fn reference_error_prototype(&self) -> (handle: OrdinaryObject)
        requires
            self.is_valid(),
        ensures
            handle == self.intrinsic_object(IntrinsicObjectIndexes::ReferenceErrorPrototype),
    {
        OrdinaryObject(
            IntrinsicObjectIndexes::ReferenceErrorPrototype.get_object_index(
                self.object_index_base,
            ),
        )
    }

    /// %ReferenceError%
    pub fn reference_error(&self) -> (handle: BuiltinFunction)
        requires
            self.is_valid(),
        ensures
            handle == self.intrinsic_constructor(IntrinsicConstructorIndexes::ReferenceError),
    {
        BuiltinFunction(
            IntrinsicConstructorIndexes::ReferenceError.get_builtin_function_index(
                self.builtin_function_index_base,
            ),
        )
    }

    /// The property-bag object of %ReferenceError%.
    pub fn reference_error_base_object(&self) -> (handle: ObjectIndex)
        requires
            self.is_valid(),
        ensures
            handle == self.intrinsic_constructor_base_object(
                IntrinsicConstructorIndexes::ReferenceError,
            ),
    {
        IntrinsicConstructorIndexes::ReferenceError.get_object_index(self.object_index_base)
    }

    /// %Reflect%
    pub fn reflect(&self) -> (handle: OrdinaryObject)
        requires
            self.is_valid(),
        ensures
            handle == self.intrinsic_object(IntrinsicObjectIndexes::ReflectObject),
    {
        OrdinaryObject(
            IntrinsicObjectIndexes::ReflectObject.get_object_index(self.object_index_base),
        )
    }

    /// %RegExp.prototype.exec%
    pub fn reg_exp_prototype_exec(&self) -> (handle: BuiltinFunction)
        requires
            self.is_valid(),
        ensures
            handle == self.intrinsic_function(IntrinsicFunctionIndexes::RegExpPrototypeExec),
    {
        BuiltinFunction(
            IntrinsicFunctionIndexes::RegExpPrototypeExec.get_builtin_function_index(
                self.builtin_function_index_base,
            ),
        )
    }

    /// %RegExp.prototype%
    pub fn reg_exp_prototype(&self) -> (handle: OrdinaryObject)
        requires
            self.is_valid(),
        ensures
            handle == self.intrinsic_object(IntrinsicObjectIndexes::RegExpPrototype),
    {
        OrdinaryObject(
            IntrinsicObjectIndexes::RegExpPrototype.get_object_index(self.object_index_base),
        )
    }

    /// %RegExp%
    pub fn reg_exp(&self) -> (handle: BuiltinFunction)
        requires
            self.is_valid(),
        ensures
            handle == self.intrinsic_constructor(IntrinsicConstructorIndexes::RegExp),
    {
        BuiltinFunction(
            IntrinsicConstructorIndexes::RegExp.get_builtin_function_index(
                self.builtin_function_index_base,
            ),
        )
    }

    /// The property-bag object of %RegExp%.
    pub fn reg_exp_base_object(&self) -> (handle: ObjectIndex)
        requires
            self.is_valid(),
        ensures
            handle == self.intrinsic_constructor_base_object(IntrinsicConstructorIndexes::RegExp),
    {
        IntrinsicConstructorIndexes::RegExp.get_object_index(self.object_index_base)
    }

    /// %RegExpStringIteratorPrototype%
    pub fn reg_exp_string_iterator_prototype(&self) -> (handle: OrdinaryObject)
        requires
            self.is_valid(),
        ensures
            handle == self.intrinsic_object(IntrinsicObjectIndexes::RegExpStringIteratorPrototype),
    {
        OrdinaryObject(
            IntrinsicObjectIndexes::RegExpStringIteratorPrototype.get_object_index(
                self.object_index_base,
            ),
        )
    }

    /// %Set.prototype.values%
    pub fn set_prototype_values(&self) -> (handle: BuiltinFunction)
        requires
            self.is_valid(),
        ensures
            handle == self.intrinsic_function(IntrinsicFunctionIndexes::SetPrototypeValues),
    {
        BuiltinFunction(
            IntrinsicFunctionIndexes::SetPrototypeValues.get_builtin_function_index(
                self.builtin_function_index_base,
            ),
        )
    }

    /// %Set.prototype%
    pub fn set_prototype(&self) -> (handle: OrdinaryObject)
        requires
            self.is_valid(),
        ensures
            handle == self.intrinsic_object(IntrinsicObjectIndexes::SetPrototype),
    {
        OrdinaryObject(
            IntrinsicObjectIndexes::SetPrototype.get_object_index(self.object_index_base),
        )
    }

    /// %Set%
    pub fn set(&self) -> (handle: BuiltinFunction)
        requires
            self.is_valid(),
        ensures
            handle == self.intrinsic_constructor(IntrinsicConstructorIndexes::SetObject),
    {
        BuiltinFunction(
            IntrinsicConstructorIndexes::SetObject.get_builtin_function_index(
                self.builtin_function_index_base,
            ),
        )
    }

    /// The property-bag object of %Set%.
    pub fn set_base_object(&self) -> (handle: ObjectIndex)
        requires
            self.is_valid(),
        ensures
            handle == self.intrinsic_constructor_base_object(
                IntrinsicConstructorIndexes::SetObject,
            ),
    {
        IntrinsicConstructorIndexes::SetObject.get_object_index(self.object_index_base)
    }

    /// %SetIteratorPrototype%
    pub fn set_iterator_prototype(&self) -> (handle: OrdinaryObject)
        requires
            self.is_valid(),
        ensures
            handle == self.intrinsic_object(IntrinsicObjectIndexes::SetIteratorPrototype),
    {
        OrdinaryObject(
            IntrinsicObjectIndexes::SetIteratorPrototype.get_object_index(self.object_index_base),
        )
    }

    /// %SharedArrayBuffer.prototype%
    pub fn shared_array_buffer_prototype(&self) -> (handle: OrdinaryObject)
        requires
            self.is_valid(),
        ensures
            handle == self.intrinsic_object(IntrinsicObjectIndexes::SharedArrayBufferPrototype),
    {
        OrdinaryObject(
            IntrinsicObjectIndexes::SharedArrayBufferPrototype.get_object_index(
                self.object_index_base,
            ),
        )
    }

    /// %SharedArrayBuffer%
    pub fn shared_array_buffer(&self) -> (handle: BuiltinFunction)
        requires
            self.is_valid(),
        ensures
            handle == self.intrinsic_constructor(IntrinsicConstructorIndexes::SharedArrayBuffer),
    {
        BuiltinFunction(
            IntrinsicConstructorIndexes::SharedArrayBuffer.get_builtin_function_index(
                self.builtin_function_index_base,
            ),
        )
    }

    /// The property-bag object of %SharedArrayBuffer%.
    pub fn shared_array_buffer_base_object(&self) -> (handle: ObjectIndex)
        requires
            self.is_valid(),
        ensures
            handle == self.intrinsic_constructor_base_object(
                IntrinsicConstructorIndexes::SharedArrayBuffer,
            ),
    {
        IntrinsicConstructorIndexes::SharedArrayBuffer.get_object_index(self.object_index_base)
    }

    /// %String.prototype.trimEnd%
    pub fn string_prototype_trim_end(&self) -> (handle: BuiltinFunction)
        requires
            self.is_valid(),
        ensures
            handle == self.intrinsic_function(IntrinsicFunctionIndexes::StringPrototypeTrimEnd),
    {
        BuiltinFunction(
            IntrinsicFunctionIndexes::StringPrototypeTrimEnd.get_builtin_function_index(
                self.builtin_function_index_base,
            ),
        )
    }

    /// %String.prototype.trimStart%
    pub fn string_prototype_trim_start(&self) -> (handle: BuiltinFunction)
        requires
            self.is_valid(),
        ensures
            handle == self.intrinsic_function(IntrinsicFunctionIndexes::StringPrototypeTrimStart),
    {
        BuiltinFunction(
            IntrinsicFunctionIndexes::StringPrototypeTrimStart.get_builtin_function_index(
                self.builtin_function_index_base,
            ),
        )
    }

    /// %String.prototype%
    pub fn string_prototype(&self) -> (handle: PrimitiveObject)
        requires
            self.is_valid(),
        ensures
            handle == self.intrinsic_primitive_object(
                IntrinsicPrimitiveObjectIndexes::StringPrototype,
            ),
    {
        PrimitiveObject(
            IntrinsicPrimitiveObjectIndexes::StringPrototype.get_primitive_object_index(
                self.primitive_object_index_base,
            ),
        )
    }

    /// The property-bag object of %String.prototype%.
    pub fn string_prototype_base_object(&self) -> (handle: ObjectIndex)
        requires
            self.is_valid(),
        ensures
            handle == self.intrinsic_primitive_base_object(
                IntrinsicPrimitiveObjectIndexes::StringPrototype,
            ),
    {
        IntrinsicPrimitiveObjectIndexes::StringPrototype.get_object_index(self.object_index_base)
    }

    /// %String%
    pub fn string(&self) -> (handle: BuiltinFunction)
        requires
            self.is_valid(),
        ensures
            handle == self.intrinsic_constructor(IntrinsicConstructorIndexes::String),
    {
        BuiltinFunction(
            IntrinsicConstructorIndexes::String.get_builtin_function_index(
                self.builtin_function_index_base,
            ),
        )
    }

    /// The property-bag object of %String%.
    pub fn string_base_object(&self) -> (handle: ObjectIndex)
        requires
            self.is_valid(),
        ensures
            handle == self.intrinsic_constructor_base_object(IntrinsicConstructorIndexes::String),
    {
        IntrinsicConstructorIndexes::String.get_object_index(self.object_index_base)
    }

    /// %StringIteratorPrototype%
    pub fn string_iterator_prototype(&self) -> (handle: OrdinaryObject)
        requires
            self.is_valid(),
        ensures
            handle == self.intrinsic_object(IntrinsicObjectIndexes::StringIteratorPrototype),
    {
        OrdinaryObject(
            IntrinsicObjectIndexes::StringIteratorPrototype.get_object_index(
                self.object_index_base,
            ),
        )
    }

    /// %Symbol.prototype%
    pub fn symbol_prototype(&self) -> (handle: OrdinaryObject)
        requires
            self.is_valid(),
        ensures
            handle == self.intrinsic_object(IntrinsicObjectIndexes::SymbolPrototype),
    {
        OrdinaryObject(
            IntrinsicObjectIndexes::SymbolPrototype.get_object_index(self.object_index_base),
        )
    }

    /// %Symbol%
    pub fn symbol(&self) -> (handle: BuiltinFunction)
        requires
            self.is_valid(),
        ensures
            handle == self.intrinsic_constructor(IntrinsicConstructorIndexes::Symbol),
    {
        BuiltinFunction(
            IntrinsicConstructorIndexes::Symbol.get_builtin_function_index(
                self.builtin_function_index_base,
            ),
        )
    }

    /// The property-bag object of %Symbol%.
    pub fn symbol_base_object(&self) -> (handle: ObjectIndex)
        requires
            self.is_valid(),
        ensures
            handle == self.intrinsic_constructor_base_object(IntrinsicConstructorIndexes::Symbol),
    {
        IntrinsicConstructorIndexes::Symbol.get_object_index(self.object_index_base)
    }

    /// %SyntaxError.prototype%
    pub fn syntax_error_prototype(&self) -> (handle: OrdinaryObject)
        requires
            self.is_valid(),
        ensures
            handle == self.intrinsic_object(IntrinsicObjectIndexes::SyntaxErrorPrototype),
    {
        OrdinaryObject(
            IntrinsicObjectIndexes::SyntaxErrorPrototype.get_object_index(self.object_index_base),
        )
    }

    /// %SyntaxError%
    pub fn syntax_error(&self) -> (handle: BuiltinFunction)
        requires
            self.is_valid(),
        ensures
            handle == self.intrinsic_constructor(IntrinsicConstructorIndexes::SyntaxError),
    {
        BuiltinFunction(
            IntrinsicConstructorIndexes::SyntaxError.get_builtin_function_index(
                self.builtin_function_index_base,
            ),
        )
    }

    /// The property-bag object of %SyntaxError%.
    pub fn syntax_error_base_object(&self) -> (handle: ObjectIndex)
        requires
            self.is_valid(),
        ensures
            handle == self.intrinsic_constructor_base_object(
                IntrinsicConstructorIndexes::SyntaxError,
            ),
    {
        IntrinsicConstructorIndexes::SyntaxError.get_object_index(self.object_index_base)
    }

    /// %ThrowTypeError%
    pub fn throw_type_error(&self) -> (handle: BuiltinFunction)
        requires
            self.is_valid(),
        ensures
            handle == self.intrinsic_function(IntrinsicFunctionIndexes::ThrowTypeError),
    {
        BuiltinFunction(
            IntrinsicFunctionIndexes::ThrowTypeError.get_builtin_function_index(
                self.builtin_function_index_base,
            ),
        )
    }

    /// %TypedArray.prototype.values%
    pub fn typed_array_prototype_values(&self) -> (handle: BuiltinFunction)
        requires
            self.is_valid(),
        ensures
            handle == self.intrinsic_function(IntrinsicFunctionIndexes::TypedArrayPrototypeValues),
    {
        BuiltinFunction(
            IntrinsicFunctionIndexes::TypedArrayPrototypeValues.get_builtin_function_index(
                self.builtin_function_index_base,
            ),
        )
    }

    /// %TypedArray.prototype%
    pub fn typed_array_prototype(&self) -> (handle: OrdinaryObject)
        requires
            self.is_valid(),
        ensures
            handle == self.intrinsic_object(IntrinsicObjectIndexes::TypedArrayPrototype),
    {
        OrdinaryObject(
            IntrinsicObjectIndexes::TypedArrayPrototype.get_object_index(self.object_index_base),
        )
    }

    /// %TypedArray%
    pub fn typed_array(&self) -> (handle: BuiltinFunction)
        requires
            self.is_valid(),
        ensures
            handle == self.intrinsic_constructor(IntrinsicConstructorIndexes::TypedArray),
    {
        BuiltinFunction(
            IntrinsicConstructorIndexes::TypedArray.get_builtin_function_index(
                self.builtin_function_index_base,
            ),
        )
    }

    /// The property-bag object of %TypedArray%.
    pub fn typed_array_base_object(&self) -> (handle: ObjectIndex)
        requires
            self.is_valid(),
        ensures
            handle == self.intrinsic_constructor_base_object(
                IntrinsicConstructorIndexes::TypedArray,
            ),
    {
        IntrinsicConstructorIndexes::TypedArray.get_object_index(self.object_index_base)
    }

    /// %TypeError.prototype%
    pub fn type_error_prototype(&self) -> (handle: OrdinaryObject)
        requires
            self.is_valid(),
        ensures
            handle == self.intrinsic_object(IntrinsicObjectIndexes::TypeErrorPrototype),
    {
        OrdinaryObject(
            IntrinsicObjectIndexes::TypeErrorPrototype.get_object_index(self.object_index_base),
        )
    }

    /// %TypeError%
    pub fn type_error(&self) -> (handle: BuiltinFunction)
        requires
            self.is_valid(),
        ensures
            handle == self.intrinsic_constructor(IntrinsicConstructorIndexes::TypeError),
    {
        BuiltinFunction(
            IntrinsicConstructorIndexes::TypeError.get_builtin_function_index(
                self.builtin_function_index_base,
            ),
        )
    }

    /// The property-bag object of %TypeError%.
    pub fn type_error_base_object(&self) -> (handle: ObjectIndex)
        requires
            self.is_valid(),
        ensures
            handle == self.intrinsic_constructor_base_object(
                IntrinsicConstructorIndexes::TypeError,
            ),
    {
        IntrinsicConstructorIndexes::TypeError.get_object_index(self.object_index_base)
    }

    /// %Uint16Array.prototype%
    pub fn uint16_array_prototype(&self) -> (handle: OrdinaryObject)
        requires
            self.is_valid(),
        ensures
            handle == self.intrinsic_object(IntrinsicObjectIndexes::Uint16ArrayPrototype),
    {
        OrdinaryObject(
            IntrinsicObjectIndexes::Uint16ArrayPrototype.get_object_index(self.object_index_base),
        )
    }

    /// %Uint16Array%
    pub fn uint16_array(&self) -> (handle: BuiltinFunction)
        requires
            self.is_valid(),
        ensures
            handle == self.intrinsic_constructor(IntrinsicConstructorIndexes::Uint16Array),
    {
        BuiltinFunction(
            IntrinsicConstructorIndexes::Uint16Array.get_builtin_function_index(
                self.builtin_function_index_base,
            ),
        )
    }

    /// The property-bag object of %Uint16Array%.
    pub fn uint16_array_base_object(&self) -> (handle: ObjectIndex)
        requires
            self.is_valid(),
        ensures
            handle == self.intrinsic_constructor_base_object(
                IntrinsicConstructorIndexes::Uint16Array,
            ),
    {
        IntrinsicConstructorIndexes::Uint16Array.get_object_index(self.object_index_base)
    }

    /// %Uint32Array.prototype%
    pub fn uint32_array_prototype(&self) -> (handle: OrdinaryObject)
        requires
            self.is_valid(),
        ensures
            handle == self.intrinsic_object(IntrinsicObjectIndexes::Uint32ArrayPrototype),
    {
        OrdinaryObject(
            IntrinsicObjectIndexes::Uint32ArrayPrototype.get_object_index(self.object_index_base),
        )
    }

    /// %Uint32Array%
    pub fn uint32_array(&self) -> (handle: BuiltinFunction)
        requires
            self.is_valid(),
        ensures
            handle == self.intrinsic_constructor(IntrinsicConstructorIndexes::Uint32Array),
    {
        BuiltinFunction(
            IntrinsicConstructorIndexes::Uint32Array.get_builtin_function_index(
                self.builtin_function_index_base,
            ),
        )
    }

    /// The property-bag object of %Uint32Array%.
    pub fn uint32_array_base_object(&self) -> (handle: ObjectIndex)
        requires
            self.is_valid(),
        ensures
            handle == self.intrinsic_constructor_base_object(
                IntrinsicConstructorIndexes::Uint32Array,
            ),
    {
        IntrinsicConstructorIndexes::Uint32Array.get_object_index(self.object_index_base)
    }

    /// %Uint8Array.prototype%
    pub fn uint8_array_prototype(&self) -> (handle: OrdinaryObject)
        requires
            self.is_valid(),
        ensures
            handle == self.intrinsic_object(IntrinsicObjectIndexes::Uint8ArrayPrototype),
    {
        OrdinaryObject(
            IntrinsicObjectIndexes::Uint8ArrayPrototype.get_object_index(self.object_index_base),
        )
    }

    /// %Uint8Array%
    pub fn uint8_array(&self) -> (handle: BuiltinFunction)
        requires
            self.is_valid(),
        ensures
            handle == self.intrinsic_constructor(IntrinsicConstructorIndexes::Uint8Array),
    {
        BuiltinFunction(
            IntrinsicConstructorIndexes::Uint8Array.get_builtin_function_index(
                self.builtin_function_index_base,
            ),
        )
    }

    /// The property-bag object of %Uint8Array%.
    pub fn uint8_array_base_object(&self) -> (handle: ObjectIndex)
        requires
            self.is_valid(),
        ensures
            handle == self.intrinsic_constructor_base_object(
                IntrinsicConstructorIndexes::Uint8Array,
            ),
    {
        IntrinsicConstructorIndexes::Uint8Array.get_object_index(self.object_index_base)
    }

    /// %Uint8ClampedArray.prototype%
    pub fn uint8_clamped_array_prototype(&self) -> (handle: OrdinaryObject)
        requires
            self.is_valid(),
        ensures
            handle == self.intrinsic_object(IntrinsicObjectIndexes::Uint8ClampedArrayPrototype),
    {
        OrdinaryObject(
            IntrinsicObjectIndexes::Uint8ClampedArrayPrototype.get_object_index(
                self.object_index_base,
            ),
        )
    }

    /// %Uint8ClampedArray%
    pub fn uint8_clamped_array(&self) -> (handle: BuiltinFunction)
        requires
            self.is_valid(),
        ensures
            handle == self.intrinsic_constructor(IntrinsicConstructorIndexes::Uint8ClampedArray),
    {
        BuiltinFunction(
            IntrinsicConstructorIndexes::Uint8ClampedArray.get_builtin_function_index(
                self.builtin_function_index_base,
            ),
        )
    }

    /// The property-bag object of %Uint8ClampedArray%.
    pub fn uint8_clamped_array_base_object(&self) -> (handle: ObjectIndex)
        requires
            self.is_valid(),
        ensures
            handle == self.intrinsic_constructor_base_object(
                IntrinsicConstructorIndexes::Uint8ClampedArray,
            ),
    {
        IntrinsicConstructorIndexes::Uint8ClampedArray.get_object_index(self.object_index_base)
    }

    /// %unescape%
    pub fn unescape(&self) -> (handle: BuiltinFunction)
        requires
            self.is_valid(),
        ensures
            handle == self.intrinsic_function(IntrinsicFunctionIndexes::Unescape),
    {
        BuiltinFunction(
            IntrinsicFunctionIndexes::Unescape.get_builtin_function_index(
                self.builtin_function_index_base,
            ),
        )
    }

    /// %URIError.prototype%
    pub fn uri_error_prototype(&self) -> (handle: OrdinaryObject)
        requires
            self.is_valid(),
        ensures
            handle == self.intrinsic_object(IntrinsicObjectIndexes::URIErrorPrototype),
    {
        OrdinaryObject(
            IntrinsicObjectIndexes::URIErrorPrototype.get_object_index(self.object_index_base),
        )
    }

    /// %URIError%
    pub fn uri_error(&self) -> (handle: BuiltinFunction)
        requires
            self.is_valid(),
        ensures
            handle == self.intrinsic_constructor(IntrinsicConstructorIndexes::URIError),
    {
        BuiltinFunction(
            IntrinsicConstructorIndexes::URIError.get_builtin_function_index(
                self.builtin_function_index_base,
            ),
        )
    }

    /// The property-bag object of %URIError%.
    pub fn uri_error_base_object(&self) -> (handle: ObjectIndex)
        requires
            self.is_valid(),
        ensures
            handle == self.intrinsic_constructor_base_object(IntrinsicConstructorIndexes::URIError),
    {
        IntrinsicConstructorIndexes::URIError.get_object_index(self.object_index_base)
    }

    /// %WeakMap.prototype%
    pub fn weak_map_prototype(&self) -> (handle: OrdinaryObject)
        requires
            self.is_valid(),
        ensures
            handle == self.intrinsic_object(IntrinsicObjectIndexes::WeakMapPrototype),
    {
        OrdinaryObject(
            IntrinsicObjectIndexes::WeakMapPrototype.get_object_index(self.object_index_base),
        )
    }

    /// %WeakMap%
    pub fn weak_map(&self) -> (handle: BuiltinFunction)
        requires
            self.is_valid(),
        ensures
            handle == self.intrinsic_constructor(IntrinsicConstructorIndexes::WeakMap),
    {
        BuiltinFunction(
            IntrinsicConstructorIndexes::WeakMap.get_builtin_function_index(
                self.builtin_function_index_base,
            ),
        )
    }

    /// The property-bag object of %WeakMap%.
    pub fn weak_map_base_object(&self) -> (handle: ObjectIndex)
        requires
            self.is_valid(),
        ensures
            handle == self.intrinsic_constructor_base_object(IntrinsicConstructorIndexes::WeakMap),
    {
        IntrinsicConstructorIndexes::WeakMap.get_object_index(self.object_index_base)
    }

    /// %WeakRef.prototype%
    pub fn weak_ref_prototype(&self) -> (handle: OrdinaryObject)
        requires
            self.is_valid(),
        ensures
            handle == self.intrinsic_object(IntrinsicObjectIndexes::WeakRefPrototype),
    {
        OrdinaryObject(
            IntrinsicObjectIndexes::WeakRefPrototype.get_object_index(self.object_index_base),
        )
    }

    /// %WeakRef%
    pub fn weak_ref(&self) -> (handle: BuiltinFunction)
        requires
            self.is_valid(),
        ensures
            handle == self.intrinsic_constructor(IntrinsicConstructorIndexes::WeakRef),
    {
        BuiltinFunction(
            IntrinsicConstructorIndexes::WeakRef.get_builtin_function_index(
                self.builtin_function_index_base,
            ),
        )
    }

    /// The property-bag object of %WeakRef%.
    pub fn weak_ref_base_object(&self) -> (handle: ObjectIndex)
        requires
            self.is_valid(),
        ensures
            handle == self.intrinsic_constructor_base_object(IntrinsicConstructorIndexes::WeakRef),
    {
        IntrinsicConstructorIndexes::WeakRef.get_object_index(self.object_index_base)
    }

    /// %WeakSet.prototype%
    pub fn weak_set_prototype(&self) -> (handle: OrdinaryObject)
        requires
            self.is_valid(),
        ensures
            handle == self.intrinsic_object(IntrinsicObjectIndexes::WeakSetPrototype),
    {
        OrdinaryObject(
            IntrinsicObjectIndexes::WeakSetPrototype.get_object_index(self.object_index_base),
        )
    }

    /// %WeakSet%
    pub fn weak_set(&self) -> (handle: BuiltinFunction)
        requires
            self.is_valid(),
        ensures
            handle == self.intrinsic_constructor(IntrinsicConstructorIndexes::WeakSet),
    {
        BuiltinFunction(
            IntrinsicConstructorIndexes::WeakSet.get_builtin_function_index(
                self.builtin_function_index_base,
            ),
        )
    }

    /// The property-bag object of %WeakSet%.
    pub fn weak_set_base_object(&self) -> (handle: ObjectIndex)
        requires
            self.is_valid(),
        ensures
            handle == self.intrinsic_constructor_base_object(IntrinsicConstructorIndexes::WeakSet),
    {
        IntrinsicConstructorIndexes::WeakSet.get_object_index(self.object_index_base)
    }
}

} // verus!
