//! What every built-in is linked to, and when it can be created.
//!
//! The `[[Prototype]]` of a built-in is null or another built-in. A built-in
//! can be created once the target of its link exists, so every built-in has a
//! rank: 0 for the one whose link is null, and otherwise a rank above that of
//! its target. Creating the built-ins rank by rank respects every link.

use vstd::prelude::*;
use crate::heap::PrimitiveObjectKind;
use crate::heap_constants::{
    intrinsic_function_count, intrinsic_object_count, intrinsic_primitive_object_count,
    IntrinsicConstructorIndexes, IntrinsicFunctionIndexes, IntrinsicObjectIndexes,
    IntrinsicPrimitiveObjectIndexes, CONSTRUCTOR_OBJECT_FAMILY_OFFSET, FUNCTION_FAMILY_OFFSET,
    PRIMITIVE_OBJECT_FAMILY_OFFSET,
};

verus! {

/// Number of ranks: every rank is below it.
pub const CREATION_RANKS: usize = 4;

/// The `[[Prototype]]` link of a built-in, by name.
#[derive(Clone, Copy, Debug, PartialEq, Eq, Structural)]
pub enum IntrinsicPrototype {
    /// The link is null.
    Null,
    /// The link is an ordinary-object built-in.
    Object(IntrinsicObjectIndexes),
    /// The link is a constructor.
    Constructor(IntrinsicConstructorIndexes),
}

impl IntrinsicObjectIndexes {
    /// The `[[Prototype]]` link of this built-in.
    pub open spec fn spec_prototype(self) -> IntrinsicPrototype {
        match self {
            IntrinsicObjectIndexes::ObjectPrototype => IntrinsicPrototype::Null,
            IntrinsicObjectIndexes::AggregateErrorPrototype
            | IntrinsicObjectIndexes::EvalErrorPrototype
            | IntrinsicObjectIndexes::RangeErrorPrototype
            | IntrinsicObjectIndexes::ReferenceErrorPrototype
            | IntrinsicObjectIndexes::SyntaxErrorPrototype
            | IntrinsicObjectIndexes::TypeErrorPrototype
            | IntrinsicObjectIndexes::URIErrorPrototype => IntrinsicPrototype::Object(
                IntrinsicObjectIndexes::ErrorPrototype,
            ),
            IntrinsicObjectIndexes::BigInt64ArrayPrototype
            | IntrinsicObjectIndexes::BigUint64ArrayPrototype
            | IntrinsicObjectIndexes::Float32ArrayPrototype
            | IntrinsicObjectIndexes::Float64ArrayPrototype
            | IntrinsicObjectIndexes::Int16ArrayPrototype
            | IntrinsicObjectIndexes::Int32ArrayPrototype
            | IntrinsicObjectIndexes::Int8ArrayPrototype
            | IntrinsicObjectIndexes::Uint16ArrayPrototype
            | IntrinsicObjectIndexes::Uint32ArrayPrototype
            | IntrinsicObjectIndexes::Uint8ArrayPrototype
            | IntrinsicObjectIndexes::Uint8ClampedArrayPrototype => IntrinsicPrototype::Object(
                IntrinsicObjectIndexes::TypedArrayPrototype,
            ),
            IntrinsicObjectIndexes::ArrayIteratorPrototype
            | IntrinsicObjectIndexes::GeneratorPrototype
            | IntrinsicObjectIndexes::MapIteratorPrototype
            | IntrinsicObjectIndexes::RegExpStringIteratorPrototype
            | IntrinsicObjectIndexes::SetIteratorPrototype
            | IntrinsicObjectIndexes::StringIteratorPrototype => IntrinsicPrototype::Object(
                IntrinsicObjectIndexes::IteratorPrototype,
            ),
            IntrinsicObjectIndexes::AsyncFromSyncIteratorPrototype
            | IntrinsicObjectIndexes::AsyncGeneratorPrototype => IntrinsicPrototype::Object(
                IntrinsicObjectIndexes::AsyncIteratorPrototype,
            ),
            IntrinsicObjectIndexes::AsyncFunctionPrototype
            | IntrinsicObjectIndexes::AsyncGeneratorFunctionPrototype
            | IntrinsicObjectIndexes::GeneratorFunctionPrototype => IntrinsicPrototype::Constructor(
                IntrinsicConstructorIndexes::FunctionPrototype,
            ),
            _ => IntrinsicPrototype::Object(IntrinsicObjectIndexes::ObjectPrototype),
        }
    }

    /// The `[[Prototype]]` link of this built-in.
    #[verifier::when_used_as_spec(spec_prototype)]
    pub fn prototype(self) -> (result: IntrinsicPrototype)
        ensures
            result == self.spec_prototype(),
    {
        match self {
            IntrinsicObjectIndexes::ObjectPrototype => IntrinsicPrototype::Null,
            IntrinsicObjectIndexes::AggregateErrorPrototype
            | IntrinsicObjectIndexes::EvalErrorPrototype
            | IntrinsicObjectIndexes::RangeErrorPrototype
            | IntrinsicObjectIndexes::ReferenceErrorPrototype
            | IntrinsicObjectIndexes::SyntaxErrorPrototype
            | IntrinsicObjectIndexes::TypeErrorPrototype
            | IntrinsicObjectIndexes::URIErrorPrototype => IntrinsicPrototype::Object(
                IntrinsicObjectIndexes::ErrorPrototype,
            ),
            IntrinsicObjectIndexes::BigInt64ArrayPrototype
            | IntrinsicObjectIndexes::BigUint64ArrayPrototype
            | IntrinsicObjectIndexes::Float32ArrayPrototype
            | IntrinsicObjectIndexes::Float64ArrayPrototype
            | IntrinsicObjectIndexes::Int16ArrayPrototype
            | IntrinsicObjectIndexes::Int32ArrayPrototype
            | IntrinsicObjectIndexes::Int8ArrayPrototype
            | IntrinsicObjectIndexes::Uint16ArrayPrototype
            | IntrinsicObjectIndexes::Uint32ArrayPrototype
            | IntrinsicObjectIndexes::Uint8ArrayPrototype
            | IntrinsicObjectIndexes::Uint8ClampedArrayPrototype => IntrinsicPrototype::Object(
                IntrinsicObjectIndexes::TypedArrayPrototype,
            ),
            IntrinsicObjectIndexes::ArrayIteratorPrototype
            | IntrinsicObjectIndexes::GeneratorPrototype
            | IntrinsicObjectIndexes::MapIteratorPrototype
            | IntrinsicObjectIndexes::RegExpStringIteratorPrototype
            | IntrinsicObjectIndexes::SetIteratorPrototype
            | IntrinsicObjectIndexes::StringIteratorPrototype => IntrinsicPrototype::Object(
                IntrinsicObjectIndexes::IteratorPrototype,
            ),
            IntrinsicObjectIndexes::AsyncFromSyncIteratorPrototype
            | IntrinsicObjectIndexes::AsyncGeneratorPrototype => IntrinsicPrototype::Object(
                IntrinsicObjectIndexes::AsyncIteratorPrototype,
            ),
            IntrinsicObjectIndexes::AsyncFunctionPrototype
            | IntrinsicObjectIndexes::AsyncGeneratorFunctionPrototype
            | IntrinsicObjectIndexes::GeneratorFunctionPrototype => IntrinsicPrototype::Constructor(
                IntrinsicConstructorIndexes::FunctionPrototype,
            ),
            _ => IntrinsicPrototype::Object(IntrinsicObjectIndexes::ObjectPrototype),
        }
    }

    /// The rank of this built-in.
    pub open spec fn spec_creation_rank(self) -> usize {
        match self {
            IntrinsicObjectIndexes::ObjectPrototype => 0,
            IntrinsicObjectIndexes::AggregateErrorPrototype
            | IntrinsicObjectIndexes::EvalErrorPrototype
            | IntrinsicObjectIndexes::RangeErrorPrototype
            | IntrinsicObjectIndexes::ReferenceErrorPrototype
            | IntrinsicObjectIndexes::SyntaxErrorPrototype
            | IntrinsicObjectIndexes::TypeErrorPrototype
            | IntrinsicObjectIndexes::URIErrorPrototype
            | IntrinsicObjectIndexes::BigInt64ArrayPrototype
            | IntrinsicObjectIndexes::BigUint64ArrayPrototype
            | IntrinsicObjectIndexes::Float32ArrayPrototype
            | IntrinsicObjectIndexes::Float64ArrayPrototype
            | IntrinsicObjectIndexes::Int16ArrayPrototype
            | IntrinsicObjectIndexes::Int32ArrayPrototype
            | IntrinsicObjectIndexes::Int8ArrayPrototype
            | IntrinsicObjectIndexes::Uint16ArrayPrototype
            | IntrinsicObjectIndexes::Uint32ArrayPrototype
            | IntrinsicObjectIndexes::Uint8ArrayPrototype
            | IntrinsicObjectIndexes::Uint8ClampedArrayPrototype
            | IntrinsicObjectIndexes::ArrayIteratorPrototype
            | IntrinsicObjectIndexes::GeneratorPrototype
            | IntrinsicObjectIndexes::MapIteratorPrototype
            | IntrinsicObjectIndexes::RegExpStringIteratorPrototype
            | IntrinsicObjectIndexes::SetIteratorPrototype
            | IntrinsicObjectIndexes::StringIteratorPrototype
            | IntrinsicObjectIndexes::AsyncFromSyncIteratorPrototype
            | IntrinsicObjectIndexes::AsyncGeneratorPrototype
            | IntrinsicObjectIndexes::AsyncFunctionPrototype
            | IntrinsicObjectIndexes::AsyncGeneratorFunctionPrototype
            | IntrinsicObjectIndexes::GeneratorFunctionPrototype => 2,
            _ => 1,
        }
    }

    /// The rank of this built-in.
    #[verifier::when_used_as_spec(spec_creation_rank)]
    pub fn creation_rank(self) -> (result: usize)
        ensures
            result == self.spec_creation_rank(),
            result < CREATION_RANKS,
    {
        match self {
            IntrinsicObjectIndexes::ObjectPrototype => 0,
            IntrinsicObjectIndexes::AggregateErrorPrototype
            | IntrinsicObjectIndexes::EvalErrorPrototype
            | IntrinsicObjectIndexes::RangeErrorPrototype
            | IntrinsicObjectIndexes::ReferenceErrorPrototype
            | IntrinsicObjectIndexes::SyntaxErrorPrototype
            | IntrinsicObjectIndexes::TypeErrorPrototype
            | IntrinsicObjectIndexes::URIErrorPrototype
            | IntrinsicObjectIndexes::BigInt64ArrayPrototype
            | IntrinsicObjectIndexes::BigUint64ArrayPrototype
            | IntrinsicObjectIndexes::Float32ArrayPrototype
            | IntrinsicObjectIndexes::Float64ArrayPrototype
            | IntrinsicObjectIndexes::Int16ArrayPrototype
            | IntrinsicObjectIndexes::Int32ArrayPrototype
            | IntrinsicObjectIndexes::Int8ArrayPrototype
            | IntrinsicObjectIndexes::Uint16ArrayPrototype
            | IntrinsicObjectIndexes::Uint32ArrayPrototype
            | IntrinsicObjectIndexes::Uint8ArrayPrototype
            | IntrinsicObjectIndexes::Uint8ClampedArrayPrototype
            | IntrinsicObjectIndexes::ArrayIteratorPrototype
            | IntrinsicObjectIndexes::GeneratorPrototype
            | IntrinsicObjectIndexes::MapIteratorPrototype
            | IntrinsicObjectIndexes::RegExpStringIteratorPrototype
            | IntrinsicObjectIndexes::SetIteratorPrototype
            | IntrinsicObjectIndexes::StringIteratorPrototype
            | IntrinsicObjectIndexes::AsyncFromSyncIteratorPrototype
            | IntrinsicObjectIndexes::AsyncGeneratorPrototype
            | IntrinsicObjectIndexes::AsyncFunctionPrototype
            | IntrinsicObjectIndexes::AsyncGeneratorFunctionPrototype
            | IntrinsicObjectIndexes::GeneratorFunctionPrototype => 2,
            _ => 1,
        }
    }
}

impl IntrinsicPrimitiveObjectIndexes {
    /// The `[[Prototype]]` link of this built-in.
    pub open spec fn spec_prototype(self) -> IntrinsicPrototype {
        IntrinsicPrototype::Object(IntrinsicObjectIndexes::ObjectPrototype)
    }

    /// The `[[Prototype]]` link of this built-in.
    #[verifier::when_used_as_spec(spec_prototype)]
    pub fn prototype(self) -> (result: IntrinsicPrototype)
        ensures
            result == self.spec_prototype(),
    {
        IntrinsicPrototype::Object(IntrinsicObjectIndexes::ObjectPrototype)
    }

    /// The rank of this built-in.
    pub open spec fn spec_creation_rank(self) -> usize {
        1
    }

    /// The rank of this built-in.
    #[verifier::when_used_as_spec(spec_creation_rank)]
    pub fn creation_rank(self) -> (result: usize)
        ensures
            result == self.spec_creation_rank(),
            result < CREATION_RANKS,
    {
        1
    }

    /// What this built-in wraps.
    pub open spec fn spec_kind(self) -> PrimitiveObjectKind {
        match self {
            IntrinsicPrimitiveObjectIndexes::BooleanPrototype => PrimitiveObjectKind::Boolean,
            IntrinsicPrimitiveObjectIndexes::NumberPrototype => PrimitiveObjectKind::Number,
            IntrinsicPrimitiveObjectIndexes::StringPrototype => PrimitiveObjectKind::String,
        }
    }

    /// What this built-in wraps.
    #[verifier::when_used_as_spec(spec_kind)]
    pub fn kind(self) -> (result: PrimitiveObjectKind)
        ensures
            result == self.spec_kind(),
    {
        match self {
            IntrinsicPrimitiveObjectIndexes::BooleanPrototype => PrimitiveObjectKind::Boolean,
            IntrinsicPrimitiveObjectIndexes::NumberPrototype => PrimitiveObjectKind::Number,
            IntrinsicPrimitiveObjectIndexes::StringPrototype => PrimitiveObjectKind::String,
        }
    }
}

impl IntrinsicConstructorIndexes {
    /// The `[[Prototype]]` link of this constructor.
    pub open spec fn spec_prototype(self) -> IntrinsicPrototype {
        match self {
            IntrinsicConstructorIndexes::FunctionPrototype => IntrinsicPrototype::Object(
                IntrinsicObjectIndexes::ObjectPrototype,
            ),
            IntrinsicConstructorIndexes::AggregateError
            | IntrinsicConstructorIndexes::EvalError
            | IntrinsicConstructorIndexes::RangeError
            | IntrinsicConstructorIndexes::ReferenceError
            | IntrinsicConstructorIndexes::SyntaxError
            | IntrinsicConstructorIndexes::TypeError
            | IntrinsicConstructorIndexes::URIError => IntrinsicPrototype::Constructor(
                IntrinsicConstructorIndexes::Error,
            ),
            IntrinsicConstructorIndexes::BigInt64Array
            | IntrinsicConstructorIndexes::BigUint64Array
            | IntrinsicConstructorIndexes::Float32Array
            | IntrinsicConstructorIndexes::Float64Array
            | IntrinsicConstructorIndexes::Int16Array
            | IntrinsicConstructorIndexes::Int32Array
            | IntrinsicConstructorIndexes::Int8Array
            | IntrinsicConstructorIndexes::Uint16Array
            | IntrinsicConstructorIndexes::Uint32Array
            | IntrinsicConstructorIndexes::Uint8Array
            | IntrinsicConstructorIndexes::Uint8ClampedArray => IntrinsicPrototype::Constructor(
                IntrinsicConstructorIndexes::TypedArray,
            ),
            IntrinsicConstructorIndexes::AsyncFunction
            | IntrinsicConstructorIndexes::AsyncGeneratorFunction
            | IntrinsicConstructorIndexes::GeneratorFunction => IntrinsicPrototype::Constructor(
                IntrinsicConstructorIndexes::Function,
            ),
            _ => IntrinsicPrototype::Constructor(IntrinsicConstructorIndexes::FunctionPrototype),
        }
    }

    /// The `[[Prototype]]` link of this constructor.
    #[verifier::when_used_as_spec(spec_prototype)]
    pub fn prototype(self) -> (result: IntrinsicPrototype)
        ensures
            result == self.spec_prototype(),
    {
        match self {
            IntrinsicConstructorIndexes::FunctionPrototype => IntrinsicPrototype::Object(
                IntrinsicObjectIndexes::ObjectPrototype,
            ),
            IntrinsicConstructorIndexes::AggregateError
            | IntrinsicConstructorIndexes::EvalError
            | IntrinsicConstructorIndexes::RangeError
            | IntrinsicConstructorIndexes::ReferenceError
            | IntrinsicConstructorIndexes::SyntaxError
            | IntrinsicConstructorIndexes::TypeError
            | IntrinsicConstructorIndexes::URIError => IntrinsicPrototype::Constructor(
                IntrinsicConstructorIndexes::Error,
            ),
            IntrinsicConstructorIndexes::BigInt64Array
            | IntrinsicConstructorIndexes::BigUint64Array
            | IntrinsicConstructorIndexes::Float32Array
            | IntrinsicConstructorIndexes::Float64Array
            | IntrinsicConstructorIndexes::Int16Array
            | IntrinsicConstructorIndexes::Int32Array
            | IntrinsicConstructorIndexes::Int8Array
            | IntrinsicConstructorIndexes::Uint16Array
            | IntrinsicConstructorIndexes::Uint32Array
            | IntrinsicConstructorIndexes::Uint8Array
            | IntrinsicConstructorIndexes::Uint8ClampedArray => IntrinsicPrototype::Constructor(
                IntrinsicConstructorIndexes::TypedArray,
            ),
            IntrinsicConstructorIndexes::AsyncFunction
            | IntrinsicConstructorIndexes::AsyncGeneratorFunction
            | IntrinsicConstructorIndexes::GeneratorFunction => IntrinsicPrototype::Constructor(
                IntrinsicConstructorIndexes::Function,
            ),
            _ => IntrinsicPrototype::Constructor(IntrinsicConstructorIndexes::FunctionPrototype),
        }
    }

    /// The rank of this constructor.
    pub open spec fn spec_creation_rank(self) -> usize {
        match self {
            IntrinsicConstructorIndexes::FunctionPrototype => 1,
            IntrinsicConstructorIndexes::AggregateError
            | IntrinsicConstructorIndexes::EvalError
            | IntrinsicConstructorIndexes::RangeError
            | IntrinsicConstructorIndexes::ReferenceError
            | IntrinsicConstructorIndexes::SyntaxError
            | IntrinsicConstructorIndexes::TypeError
            | IntrinsicConstructorIndexes::URIError
            | IntrinsicConstructorIndexes::BigInt64Array
            | IntrinsicConstructorIndexes::BigUint64Array
            | IntrinsicConstructorIndexes::Float32Array
            | IntrinsicConstructorIndexes::Float64Array
            | IntrinsicConstructorIndexes::Int16Array
            | IntrinsicConstructorIndexes::Int32Array
            | IntrinsicConstructorIndexes::Int8Array
            | IntrinsicConstructorIndexes::Uint16Array
            | IntrinsicConstructorIndexes::Uint32Array
            | IntrinsicConstructorIndexes::Uint8Array
            | IntrinsicConstructorIndexes::Uint8ClampedArray
            | IntrinsicConstructorIndexes::AsyncFunction
            | IntrinsicConstructorIndexes::AsyncGeneratorFunction
            | IntrinsicConstructorIndexes::GeneratorFunction => 3,
            _ => 2,
        }
    }

    /// The rank of this constructor.
    #[verifier::when_used_as_spec(spec_creation_rank)]
    pub fn creation_rank(self) -> (result: usize)
        ensures
            result == self.spec_creation_rank(),
            result < CREATION_RANKS,
    {
        match self {
            IntrinsicConstructorIndexes::FunctionPrototype => 1,
            IntrinsicConstructorIndexes::AggregateError
            | IntrinsicConstructorIndexes::EvalError
            | IntrinsicConstructorIndexes::RangeError
            | IntrinsicConstructorIndexes::ReferenceError
            | IntrinsicConstructorIndexes::SyntaxError
            | IntrinsicConstructorIndexes::TypeError
            | IntrinsicConstructorIndexes::URIError
            | IntrinsicConstructorIndexes::BigInt64Array
            | IntrinsicConstructorIndexes::BigUint64Array
            | IntrinsicConstructorIndexes::Float32Array
            | IntrinsicConstructorIndexes::Float64Array
            | IntrinsicConstructorIndexes::Int16Array
            | IntrinsicConstructorIndexes::Int32Array
            | IntrinsicConstructorIndexes::Int8Array
            | IntrinsicConstructorIndexes::Uint16Array
            | IntrinsicConstructorIndexes::Uint32Array
            | IntrinsicConstructorIndexes::Uint8Array
            | IntrinsicConstructorIndexes::Uint8ClampedArray
            | IntrinsicConstructorIndexes::AsyncFunction
            | IntrinsicConstructorIndexes::AsyncGeneratorFunction
            | IntrinsicConstructorIndexes::GeneratorFunction => 3,
            _ => 2,
        }
    }
}

impl IntrinsicFunctionIndexes {
    /// The rank of this function: it has no property-bag object, and its
    /// `[[Prototype]]` is `Function.prototype`, of rank 1.
    pub open spec fn spec_creation_rank(self) -> usize {
        2
    }

    /// The rank of this function.
    #[verifier::when_used_as_spec(spec_creation_rank)]
    pub fn creation_rank(self) -> (result: usize)
        ensures
            result == self.spec_creation_rank(),
            result < CREATION_RANKS,
    {
        2
    }
}

/// What the object slot at one offset of a realm's range is to hold.
#[derive(Clone, Copy, Debug, PartialEq, Eq, Structural)]
pub struct ObjectPlan {
    /// The rank at which the slot is populated.
    pub rank: usize,
    /// The `[[Prototype]]` link of the object.
    pub prototype: IntrinsicPrototype,
}

/// What the primitive-object slot at one offset of a realm's range is to hold.
#[derive(Clone, Copy, Debug, PartialEq, Eq, Structural)]
pub struct PrimitiveObjectPlan {
    /// The rank at which the slot is populated.
    pub rank: usize,
    /// Offset, in the realm's object range, of the property-bag object.
    pub object_offset: usize,
    /// What the entity wraps.
    pub kind: PrimitiveObjectKind,
}

/// What the function slot at one offset of a realm's range is to hold.
#[derive(Clone, Copy, Debug, PartialEq, Eq, Structural)]
pub struct BuiltinFunctionPlan {
    /// The rank at which the slot is populated.
    pub rank: usize,
    /// Offset, in the realm's object range, of the property-bag object, if
    /// the function has one.
    pub object_offset: Option<usize>,
}

/// The plan of the object slot at `offset`: that of the name whose slot it
/// is.
pub open spec fn spec_object_plan(offset: usize) -> ObjectPlan {
    if offset < PRIMITIVE_OBJECT_FAMILY_OFFSET {
        match IntrinsicObjectIndexes::spec_from_ordinal(offset as int) {
            Some(name) => ObjectPlan { rank: name.creation_rank(), prototype: name.prototype() },
            None => ObjectPlan { rank: 0, prototype: IntrinsicPrototype::Null },
        }
    } else if offset < CONSTRUCTOR_OBJECT_FAMILY_OFFSET {
        match IntrinsicPrimitiveObjectIndexes::spec_from_ordinal(
            offset - PRIMITIVE_OBJECT_FAMILY_OFFSET,
        ) {
            Some(name) => ObjectPlan { rank: name.creation_rank(), prototype: name.prototype() },
            None => ObjectPlan { rank: 0, prototype: IntrinsicPrototype::Null },
        }
    } else {
        match IntrinsicConstructorIndexes::spec_from_ordinal(
            offset - CONSTRUCTOR_OBJECT_FAMILY_OFFSET,
        ) {
            Some(name) => ObjectPlan { rank: name.creation_rank(), prototype: name.prototype() },
            None => ObjectPlan { rank: 0, prototype: IntrinsicPrototype::Null },
        }
    }
}

/// The plan of the object slot at `offset`.
#[verifier::when_used_as_spec(spec_object_plan)]
pub fn object_plan(offset: usize) -> (plan: ObjectPlan)
    requires
        offset < intrinsic_object_count(),
    ensures
        plan == spec_object_plan(offset),
        plan.rank < CREATION_RANKS,
{
    if offset < PRIMITIVE_OBJECT_FAMILY_OFFSET {
        match IntrinsicObjectIndexes::from_ordinal(offset) {
            Some(name) => ObjectPlan { rank: name.creation_rank(), prototype: name.prototype() },
            None => ObjectPlan { rank: 0, prototype: IntrinsicPrototype::Null },
        }
    } else if offset < CONSTRUCTOR_OBJECT_FAMILY_OFFSET {
        match IntrinsicPrimitiveObjectIndexes::from_ordinal(
            offset - PRIMITIVE_OBJECT_FAMILY_OFFSET,
        ) {
            Some(name) => ObjectPlan { rank: name.creation_rank(), prototype: name.prototype() },
            None => ObjectPlan { rank: 0, prototype: IntrinsicPrototype::Null },
        }
    } else {
        match IntrinsicConstructorIndexes::from_ordinal(offset - CONSTRUCTOR_OBJECT_FAMILY_OFFSET) {
            Some(name) => ObjectPlan { rank: name.creation_rank(), prototype: name.prototype() },
            None => ObjectPlan { rank: 0, prototype: IntrinsicPrototype::Null },
        }
    }
}

/// The plan of the primitive-object slot at `offset`.
pub open spec fn spec_primitive_object_plan(offset: usize) -> PrimitiveObjectPlan {
    match IntrinsicPrimitiveObjectIndexes::spec_from_ordinal(offset as int) {
        Some(name) => PrimitiveObjectPlan {
            rank: name.creation_rank(),
            object_offset: (PRIMITIVE_OBJECT_FAMILY_OFFSET + name.ordinal()) as usize,
            kind: name.kind(),
        },
        None => PrimitiveObjectPlan {
            rank: 0,
            object_offset: 0,
            kind: PrimitiveObjectKind::Boolean,
        },
    }
}

/// The plan of the primitive-object slot at `offset`.
#[verifier::when_used_as_spec(spec_primitive_object_plan)]
pub fn primitive_object_plan(offset: usize) -> (plan: PrimitiveObjectPlan)
    requires
        offset < intrinsic_primitive_object_count(),
    ensures
        plan == spec_primitive_object_plan(offset),
        plan.rank < CREATION_RANKS,
        plan.object_offset < intrinsic_object_count(),
{
    match IntrinsicPrimitiveObjectIndexes::from_ordinal(offset) {
        Some(name) => PrimitiveObjectPlan {
            rank: name.creation_rank(),
            object_offset: PRIMITIVE_OBJECT_FAMILY_OFFSET + name.ordinal(),
            kind: name.kind(),
        },
        None => PrimitiveObjectPlan {
            rank: 0,
            object_offset: 0,
            kind: PrimitiveObjectKind::Boolean,
        },
    }
}

/// The plan of the function slot at `offset`.
pub open spec fn spec_builtin_function_plan(offset: usize) -> BuiltinFunctionPlan {
    if offset < FUNCTION_FAMILY_OFFSET {
        match IntrinsicConstructorIndexes::spec_from_ordinal(offset as int) {
            Some(name) => BuiltinFunctionPlan {
                rank: name.creation_rank(),
                object_offset: Some((CONSTRUCTOR_OBJECT_FAMILY_OFFSET + name.ordinal()) as usize),
            },
            None => BuiltinFunctionPlan { rank: 0, object_offset: None },
        }
    } else {
        match IntrinsicFunctionIndexes::spec_from_ordinal(offset - FUNCTION_FAMILY_OFFSET) {
            Some(name) => BuiltinFunctionPlan { rank: name.creation_rank(), object_offset: None },
            None => BuiltinFunctionPlan { rank: 0, object_offset: None },
        }
    }
}

/// The plan of the function slot at `offset`.
#[verifier::when_used_as_spec(spec_builtin_function_plan)]
pub fn builtin_function_plan(offset: usize) -> (plan: BuiltinFunctionPlan)
    requires
        offset < intrinsic_function_count(),
    ensures
        plan == spec_builtin_function_plan(offset),
        plan.rank < CREATION_RANKS,
        plan.object_offset is Some ==> plan.object_offset.unwrap() < intrinsic_object_count(),
{
    if offset < FUNCTION_FAMILY_OFFSET {
        match IntrinsicConstructorIndexes::from_ordinal(offset) {
            Some(name) => BuiltinFunctionPlan {
                rank: name.creation_rank(),
                object_offset: Some(CONSTRUCTOR_OBJECT_FAMILY_OFFSET + name.ordinal()),
            },
            None => BuiltinFunctionPlan { rank: 0, object_offset: None },
        }
    } else {
        match IntrinsicFunctionIndexes::from_ordinal(offset - FUNCTION_FAMILY_OFFSET) {
            Some(name) => BuiltinFunctionPlan { rank: name.creation_rank(), object_offset: None },
            None => BuiltinFunctionPlan { rank: 0, object_offset: None },
        }
    }
}

/// The rank of the target of `link`; none for the null link.
pub open spec fn rank_of_target(link: IntrinsicPrototype) -> Option<usize> {
    match link {
        IntrinsicPrototype::Null => None,
        IntrinsicPrototype::Object(name) => Some(name.creation_rank()),
        IntrinsicPrototype::Constructor(name) => Some(name.creation_rank()),
    }
}

/// Every ordinary-object built-in has a rank above that of the target of its
/// link, and only `Object.prototype` has the null link.
pub proof fn lemma_object_after_prototype(name: IntrinsicObjectIndexes)
    ensures
        rank_of_target(name.prototype()) is Some ==> rank_of_target(name.prototype()).unwrap()
            < name.creation_rank(),
        name.prototype() == IntrinsicPrototype::Null <==> name
            == IntrinsicObjectIndexes::ObjectPrototype,
{
}

/// Every primitive-valued built-in has a rank above that of the target of
/// its link.
pub proof fn lemma_primitive_object_after_prototype(name: IntrinsicPrimitiveObjectIndexes)
    ensures
        rank_of_target(name.prototype()) is Some,
        rank_of_target(name.prototype()).unwrap() < name.creation_rank(),
{
}

/// Every constructor has a rank above that of the target of its link.
pub proof fn lemma_constructor_after_prototype(name: IntrinsicConstructorIndexes)
    ensures
        rank_of_target(name.prototype()) is Some,
        rank_of_target(name.prototype()).unwrap() < name.creation_rank(),
{
}

/// Every plain function has a rank above that of `Function.prototype`.
pub proof fn lemma_function_after_prototype(name: IntrinsicFunctionIndexes)
    ensures
        IntrinsicConstructorIndexes::FunctionPrototype.creation_rank() < name.creation_rank(),
{
}

} // verus!
