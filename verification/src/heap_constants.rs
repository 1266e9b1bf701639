//! Ordinal tables: one dense, zero-based number for every well-known
//! built-in, in the family that its representation puts it in.
//!
//! A realm reserves one contiguous range per slab. The object slab's range
//! holds the ordinary-object family first, then the property-bag objects of
//! the primitive-valued family, then those of the constructor family. The
//! function slab's range holds the constructor family first, then the plain
//! function family. Every slot is `base + offset of the family + ordinal`.

use vstd::prelude::*;
use crate::indexes::{BuiltinFunctionIndex, ObjectIndex, PrimitiveObjectIndex};

verus! {

/// Number of variants of [`IntrinsicObjectIndexes`].
pub const INTRINSIC_OBJECT_VARIANTS: usize = 53;

/// Number of variants of [`IntrinsicPrimitiveObjectIndexes`].
pub const INTRINSIC_PRIMITIVE_OBJECT_VARIANTS: usize = 3;

/// Number of variants of [`IntrinsicConstructorIndexes`].
pub const INTRINSIC_CONSTRUCTOR_VARIANTS: usize = 45;

/// Number of variants of [`IntrinsicFunctionIndexes`].
pub const INTRINSIC_FUNCTION_VARIANTS: usize = 24;

/// Offset, in a realm's object range, of the first ordinary-object built-in.
pub const OBJECT_FAMILY_OFFSET: usize = 0;

/// Offset, in a realm's object range, of the first property-bag object of the
/// primitive-valued family.
pub const PRIMITIVE_OBJECT_FAMILY_OFFSET: usize = OBJECT_FAMILY_OFFSET
    + INTRINSIC_OBJECT_VARIANTS;

/// Offset, in a realm's object range, of the first property-bag object of the
/// constructor family.
pub const CONSTRUCTOR_OBJECT_FAMILY_OFFSET: usize = PRIMITIVE_OBJECT_FAMILY_OFFSET
    + INTRINSIC_PRIMITIVE_OBJECT_VARIANTS;

/// Offset, in a realm's function range, of the first constructor.
pub const CONSTRUCTOR_FAMILY_OFFSET: usize = 0;

/// Offset, in a realm's function range, of the first plain function.
pub const FUNCTION_FAMILY_OFFSET: usize = CONSTRUCTOR_FAMILY_OFFSET
    + INTRINSIC_CONSTRUCTOR_VARIANTS;

/// Number of object slots that a realm reserves.
pub open spec fn spec_intrinsic_object_count() -> usize {
    (CONSTRUCTOR_OBJECT_FAMILY_OFFSET + INTRINSIC_CONSTRUCTOR_VARIANTS) as usize
}

/// Number of object slots that a realm reserves: one per variant of the three
/// families that live in the object slab.
#[verifier::when_used_as_spec(spec_intrinsic_object_count)]
pub fn intrinsic_object_count() -> (count: usize)
    ensures
        count == spec_intrinsic_object_count(),
{
    CONSTRUCTOR_OBJECT_FAMILY_OFFSET + INTRINSIC_CONSTRUCTOR_VARIANTS
}

/// Number of primitive-object slots that a realm reserves.
pub open spec fn spec_intrinsic_primitive_object_count() -> usize {
    INTRINSIC_PRIMITIVE_OBJECT_VARIANTS
}

/// Number of primitive-object slots that a realm reserves: one per variant of
/// the primitive-valued family.
#[verifier::when_used_as_spec(spec_intrinsic_primitive_object_count)]
pub fn intrinsic_primitive_object_count() -> (count: usize)
    ensures
        count == spec_intrinsic_primitive_object_count(),
{
    INTRINSIC_PRIMITIVE_OBJECT_VARIANTS
}

/// Number of function slots that a realm reserves.
pub open spec fn spec_intrinsic_function_count() -> usize {
    (FUNCTION_FAMILY_OFFSET + INTRINSIC_FUNCTION_VARIANTS) as usize
}

/// Number of function slots that a realm reserves: one per variant of the two
/// families that live in the function slab.
#[verifier::when_used_as_spec(spec_intrinsic_function_count)]
pub fn intrinsic_function_count() -> (count: usize)
    ensures
        count == spec_intrinsic_function_count(),
{
    FUNCTION_FAMILY_OFFSET + INTRINSIC_FUNCTION_VARIANTS
}

/// Names the built-ins that are ordinary objects.
#[derive(Clone, Copy, Debug, PartialEq, Eq, Structural)]
pub enum IntrinsicObjectIndexes {
    AggregateErrorPrototype,
    ArrayPrototype,
    ArrayBufferPrototype,
    ArrayIteratorPrototype,
    AsyncFromSyncIteratorPrototype,
    AsyncFunctionPrototype,
    AsyncGeneratorPrototype,
    AsyncGeneratorFunctionPrototype,
    AsyncIteratorPrototype,
    AtomicsObject,
    BigIntPrototype,
    BigInt64ArrayPrototype,
    BigUint64ArrayPrototype,
    DataViewPrototype,
    DatePrototype,
    ErrorPrototype,
    EvalErrorPrototype,
    FinalizationRegistryPrototype,
    Float32ArrayPrototype,
    Float64ArrayPrototype,
    GeneratorPrototype,
    GeneratorFunctionPrototype,
    Int16ArrayPrototype,
    Int32ArrayPrototype,
    Int8ArrayPrototype,
    IteratorPrototype,
    JSONObject,
    MapPrototype,
    MapIteratorPrototype,
    MathObject,
    ObjectPrototype,
    PromisePrototype,
    RangeErrorPrototype,
    ReferenceErrorPrototype,
    ReflectObject,
    RegExpPrototype,
    RegExpStringIteratorPrototype,
    SetPrototype,
    SetIteratorPrototype,
    SharedArrayBufferPrototype,
    StringIteratorPrototype,
    SymbolPrototype,
    SyntaxErrorPrototype,
    TypedArrayPrototype,
    TypeErrorPrototype,
    Uint16ArrayPrototype,
    Uint32ArrayPrototype,
    Uint8ArrayPrototype,
    Uint8ClampedArrayPrototype,
    URIErrorPrototype,
    WeakMapPrototype,
    WeakRefPrototype,
    WeakSetPrototype,
}

impl IntrinsicObjectIndexes {
    /// The ordinal of this name: its place in the enumeration, from 0.
    pub open spec fn spec_ordinal(self) -> usize {
        match self {
            IntrinsicObjectIndexes::AggregateErrorPrototype => 0,
            IntrinsicObjectIndexes::ArrayPrototype => 1,
            IntrinsicObjectIndexes::ArrayBufferPrototype => 2,
            IntrinsicObjectIndexes::ArrayIteratorPrototype => 3,
            IntrinsicObjectIndexes::AsyncFromSyncIteratorPrototype => 4,
            IntrinsicObjectIndexes::AsyncFunctionPrototype => 5,
            IntrinsicObjectIndexes::AsyncGeneratorPrototype => 6,
            IntrinsicObjectIndexes::AsyncGeneratorFunctionPrototype => 7,
            IntrinsicObjectIndexes::AsyncIteratorPrototype => 8,
            IntrinsicObjectIndexes::AtomicsObject => 9,
            IntrinsicObjectIndexes::BigIntPrototype => 10,
            IntrinsicObjectIndexes::BigInt64ArrayPrototype => 11,
            IntrinsicObjectIndexes::BigUint64ArrayPrototype => 12,
            IntrinsicObjectIndexes::DataViewPrototype => 13,
            IntrinsicObjectIndexes::DatePrototype => 14,
            IntrinsicObjectIndexes::ErrorPrototype => 15,
            IntrinsicObjectIndexes::EvalErrorPrototype => 16,
            IntrinsicObjectIndexes::FinalizationRegistryPrototype => 17,
            IntrinsicObjectIndexes::Float32ArrayPrototype => 18,
            IntrinsicObjectIndexes::Float64ArrayPrototype => 19,
            IntrinsicObjectIndexes::GeneratorPrototype => 20,
            IntrinsicObjectIndexes::GeneratorFunctionPrototype => 21,
            IntrinsicObjectIndexes::Int16ArrayPrototype => 22,
            IntrinsicObjectIndexes::Int32ArrayPrototype => 23,
            IntrinsicObjectIndexes::Int8ArrayPrototype => 24,
            IntrinsicObjectIndexes::IteratorPrototype => 25,
            IntrinsicObjectIndexes::JSONObject => 26,
            IntrinsicObjectIndexes::MapPrototype => 27,
            IntrinsicObjectIndexes::MapIteratorPrototype => 28,
            IntrinsicObjectIndexes::MathObject => 29,
            IntrinsicObjectIndexes::ObjectPrototype => 30,
            IntrinsicObjectIndexes::PromisePrototype => 31,
            IntrinsicObjectIndexes::RangeErrorPrototype => 32,
            IntrinsicObjectIndexes::ReferenceErrorPrototype => 33,
            IntrinsicObjectIndexes::ReflectObject => 34,
            IntrinsicObjectIndexes::RegExpPrototype => 35,
            IntrinsicObjectIndexes::RegExpStringIteratorPrototype => 36,
            IntrinsicObjectIndexes::SetPrototype => 37,
            IntrinsicObjectIndexes::SetIteratorPrototype => 38,
            IntrinsicObjectIndexes::SharedArrayBufferPrototype => 39,
            IntrinsicObjectIndexes::StringIteratorPrototype => 40,
            IntrinsicObjectIndexes::SymbolPrototype => 41,
            IntrinsicObjectIndexes::SyntaxErrorPrototype => 42,
            IntrinsicObjectIndexes::TypedArrayPrototype => 43,
            IntrinsicObjectIndexes::TypeErrorPrototype => 44,
            IntrinsicObjectIndexes::Uint16ArrayPrototype => 45,
            IntrinsicObjectIndexes::Uint32ArrayPrototype => 46,
            IntrinsicObjectIndexes::Uint8ArrayPrototype => 47,
            IntrinsicObjectIndexes::Uint8ClampedArrayPrototype => 48,
            IntrinsicObjectIndexes::URIErrorPrototype => 49,
            IntrinsicObjectIndexes::WeakMapPrototype => 50,
            IntrinsicObjectIndexes::WeakRefPrototype => 51,
            IntrinsicObjectIndexes::WeakSetPrototype => 52,
        }
    }

    /// The ordinal of this name: its place in the enumeration, from 0.
    #[verifier::when_used_as_spec(spec_ordinal)]
    pub fn ordinal(self) -> (n: usize)
        ensures
            n == self.spec_ordinal(),
            n < INTRINSIC_OBJECT_VARIANTS,
    {
        match self {
            IntrinsicObjectIndexes::AggregateErrorPrototype => 0,
            IntrinsicObjectIndexes::ArrayPrototype => 1,
            IntrinsicObjectIndexes::ArrayBufferPrototype => 2,
            IntrinsicObjectIndexes::ArrayIteratorPrototype => 3,
            IntrinsicObjectIndexes::AsyncFromSyncIteratorPrototype => 4,
            IntrinsicObjectIndexes::AsyncFunctionPrototype => 5,
            IntrinsicObjectIndexes::AsyncGeneratorPrototype => 6,
            IntrinsicObjectIndexes::AsyncGeneratorFunctionPrototype => 7,
            IntrinsicObjectIndexes::AsyncIteratorPrototype => 8,
            IntrinsicObjectIndexes::AtomicsObject => 9,
            IntrinsicObjectIndexes::BigIntPrototype => 10,
            IntrinsicObjectIndexes::BigInt64ArrayPrototype => 11,
            IntrinsicObjectIndexes::BigUint64ArrayPrototype => 12,
            IntrinsicObjectIndexes::DataViewPrototype => 13,
            IntrinsicObjectIndexes::DatePrototype => 14,
            IntrinsicObjectIndexes::ErrorPrototype => 15,
            IntrinsicObjectIndexes::EvalErrorPrototype => 16,
            IntrinsicObjectIndexes::FinalizationRegistryPrototype => 17,
            IntrinsicObjectIndexes::Float32ArrayPrototype => 18,
            IntrinsicObjectIndexes::Float64ArrayPrototype => 19,
            IntrinsicObjectIndexes::GeneratorPrototype => 20,
            IntrinsicObjectIndexes::GeneratorFunctionPrototype => 21,
            IntrinsicObjectIndexes::Int16ArrayPrototype => 22,
            IntrinsicObjectIndexes::Int32ArrayPrototype => 23,
            IntrinsicObjectIndexes::Int8ArrayPrototype => 24,
            IntrinsicObjectIndexes::IteratorPrototype => 25,
            IntrinsicObjectIndexes::JSONObject => 26,
            IntrinsicObjectIndexes::MapPrototype => 27,
            IntrinsicObjectIndexes::MapIteratorPrototype => 28,
            IntrinsicObjectIndexes::MathObject => 29,
            IntrinsicObjectIndexes::ObjectPrototype => 30,
            IntrinsicObjectIndexes::PromisePrototype => 31,
            IntrinsicObjectIndexes::RangeErrorPrototype => 32,
            IntrinsicObjectIndexes::ReferenceErrorPrototype => 33,
            IntrinsicObjectIndexes::ReflectObject => 34,
            IntrinsicObjectIndexes::RegExpPrototype => 35,
            IntrinsicObjectIndexes::RegExpStringIteratorPrototype => 36,
            IntrinsicObjectIndexes::SetPrototype => 37,
            IntrinsicObjectIndexes::SetIteratorPrototype => 38,
            IntrinsicObjectIndexes::SharedArrayBufferPrototype => 39,
            IntrinsicObjectIndexes::StringIteratorPrototype => 40,
            IntrinsicObjectIndexes::SymbolPrototype => 41,
            IntrinsicObjectIndexes::SyntaxErrorPrototype => 42,
            IntrinsicObjectIndexes::TypedArrayPrototype => 43,
            IntrinsicObjectIndexes::TypeErrorPrototype => 44,
            IntrinsicObjectIndexes::Uint16ArrayPrototype => 45,
            IntrinsicObjectIndexes::Uint32ArrayPrototype => 46,
            IntrinsicObjectIndexes::Uint8ArrayPrototype => 47,
            IntrinsicObjectIndexes::Uint8ClampedArrayPrototype => 48,
            IntrinsicObjectIndexes::URIErrorPrototype => 49,
            IntrinsicObjectIndexes::WeakMapPrototype => 50,
            IntrinsicObjectIndexes::WeakRefPrototype => 51,
            IntrinsicObjectIndexes::WeakSetPrototype => 52,
        }
    }

    /// The name with ordinal `n`, if there is one.
    pub open spec fn spec_from_ordinal(n: int) -> Option<Self> {
        if n == 0 {
            Some(IntrinsicObjectIndexes::AggregateErrorPrototype)
        } else if n == 1 {
            Some(IntrinsicObjectIndexes::ArrayPrototype)
        } else if n == 2 {
            Some(IntrinsicObjectIndexes::ArrayBufferPrototype)
        } else if n == 3 {
            Some(IntrinsicObjectIndexes::ArrayIteratorPrototype)
        } else if n == 4 {
            Some(IntrinsicObjectIndexes::AsyncFromSyncIteratorPrototype)
        } else if n == 5 {
            Some(IntrinsicObjectIndexes::AsyncFunctionPrototype)
        } else if n == 6 {
            Some(IntrinsicObjectIndexes::AsyncGeneratorPrototype)
        } else if n == 7 {
            Some(IntrinsicObjectIndexes::AsyncGeneratorFunctionPrototype)
        } else if n == 8 {
            Some(IntrinsicObjectIndexes::AsyncIteratorPrototype)
        } else if n == 9 {
            Some(IntrinsicObjectIndexes::AtomicsObject)
        } else if n == 10 {
            Some(IntrinsicObjectIndexes::BigIntPrototype)
        } else if n == 11 {
            Some(IntrinsicObjectIndexes::BigInt64ArrayPrototype)
        } else if n == 12 {
            Some(IntrinsicObjectIndexes::BigUint64ArrayPrototype)
        } else if n == 13 {
            Some(IntrinsicObjectIndexes::DataViewPrototype)
        } else if n == 14 {
            Some(IntrinsicObjectIndexes::DatePrototype)
        } else if n == 15 {
            Some(IntrinsicObjectIndexes::ErrorPrototype)
        } else if n == 16 {
            Some(IntrinsicObjectIndexes::EvalErrorPrototype)
        } else if n == 17 {
            Some(IntrinsicObjectIndexes::FinalizationRegistryPrototype)
        } else if n == 18 {
            Some(IntrinsicObjectIndexes::Float32ArrayPrototype)
        } else if n == 19 {
            Some(IntrinsicObjectIndexes::Float64ArrayPrototype)
        } else if n == 20 {
            Some(IntrinsicObjectIndexes::GeneratorPrototype)
        } else if n == 21 {
            Some(IntrinsicObjectIndexes::GeneratorFunctionPrototype)
        } else if n == 22 {
            Some(IntrinsicObjectIndexes::Int16ArrayPrototype)
        } else if n == 23 {
            Some(IntrinsicObjectIndexes::Int32ArrayPrototype)
        } else if n == 24 {
            Some(IntrinsicObjectIndexes::Int8ArrayPrototype)
        } else if n == 25 {
            Some(IntrinsicObjectIndexes::IteratorPrototype)
        } else if n == 26 {
            Some(IntrinsicObjectIndexes::JSONObject)
        } else if n == 27 {
            Some(IntrinsicObjectIndexes::MapPrototype)
        } else if n == 28 {
            Some(IntrinsicObjectIndexes::MapIteratorPrototype)
        } else if n == 29 {
            Some(IntrinsicObjectIndexes::MathObject)
        } else if n == 30 {
            Some(IntrinsicObjectIndexes::ObjectPrototype)
        } else if n == 31 {
            Some(IntrinsicObjectIndexes::PromisePrototype)
        } else if n == 32 {
            Some(IntrinsicObjectIndexes::RangeErrorPrototype)
        } else if n == 33 {
            Some(IntrinsicObjectIndexes::ReferenceErrorPrototype)
        } else if n == 34 {
            Some(IntrinsicObjectIndexes::ReflectObject)
        } else if n == 35 {
            Some(IntrinsicObjectIndexes::RegExpPrototype)
        } else if n == 36 {
            Some(IntrinsicObjectIndexes::RegExpStringIteratorPrototype)
        } else if n == 37 {
            Some(IntrinsicObjectIndexes::SetPrototype)
        } else if n == 38 {
            Some(IntrinsicObjectIndexes::SetIteratorPrototype)
        } else if n == 39 {
            Some(IntrinsicObjectIndexes::SharedArrayBufferPrototype)
        } else if n == 40 {
            Some(IntrinsicObjectIndexes::StringIteratorPrototype)
        } else if n == 41 {
            Some(IntrinsicObjectIndexes::SymbolPrototype)
        } else if n == 42 {
            Some(IntrinsicObjectIndexes::SyntaxErrorPrototype)
        } else if n == 43 {
            Some(IntrinsicObjectIndexes::TypedArrayPrototype)
        } else if n == 44 {
            Some(IntrinsicObjectIndexes::TypeErrorPrototype)
        } else if n == 45 {
            Some(IntrinsicObjectIndexes::Uint16ArrayPrototype)
        } else if n == 46 {
            Some(IntrinsicObjectIndexes::Uint32ArrayPrototype)
        } else if n == 47 {
            Some(IntrinsicObjectIndexes::Uint8ArrayPrototype)
        } else if n == 48 {
            Some(IntrinsicObjectIndexes::Uint8ClampedArrayPrototype)
        } else if n == 49 {
            Some(IntrinsicObjectIndexes::URIErrorPrototype)
        } else if n == 50 {
            Some(IntrinsicObjectIndexes::WeakMapPrototype)
        } else if n == 51 {
            Some(IntrinsicObjectIndexes::WeakRefPrototype)
        } else if n == 52 {
            Some(IntrinsicObjectIndexes::WeakSetPrototype)
        } else {
            None
        }
    }

    /// The name with ordinal `n`; `None` from the number of variants on.
    pub fn from_ordinal(n: usize) -> (name: Option<Self>)
        ensures
            name == Self::spec_from_ordinal(n as int),
            name is Some <==> n < INTRINSIC_OBJECT_VARIANTS,
    {
        match n {
            0 => Some(IntrinsicObjectIndexes::AggregateErrorPrototype),
            1 => Some(IntrinsicObjectIndexes::ArrayPrototype),
            2 => Some(IntrinsicObjectIndexes::ArrayBufferPrototype),
            3 => Some(IntrinsicObjectIndexes::ArrayIteratorPrototype),
            4 => Some(IntrinsicObjectIndexes::AsyncFromSyncIteratorPrototype),
            5 => Some(IntrinsicObjectIndexes::AsyncFunctionPrototype),
            6 => Some(IntrinsicObjectIndexes::AsyncGeneratorPrototype),
            7 => Some(IntrinsicObjectIndexes::AsyncGeneratorFunctionPrototype),
            8 => Some(IntrinsicObjectIndexes::AsyncIteratorPrototype),
            9 => Some(IntrinsicObjectIndexes::AtomicsObject),
            10 => Some(IntrinsicObjectIndexes::BigIntPrototype),
            11 => Some(IntrinsicObjectIndexes::BigInt64ArrayPrototype),
            12 => Some(IntrinsicObjectIndexes::BigUint64ArrayPrototype),
            13 => Some(IntrinsicObjectIndexes::DataViewPrototype),
            14 => Some(IntrinsicObjectIndexes::DatePrototype),
            15 => Some(IntrinsicObjectIndexes::ErrorPrototype),
            16 => Some(IntrinsicObjectIndexes::EvalErrorPrototype),
            17 => Some(IntrinsicObjectIndexes::FinalizationRegistryPrototype),
            18 => Some(IntrinsicObjectIndexes::Float32ArrayPrototype),
            19 => Some(IntrinsicObjectIndexes::Float64ArrayPrototype),
            20 => Some(IntrinsicObjectIndexes::GeneratorPrototype),
            21 => Some(IntrinsicObjectIndexes::GeneratorFunctionPrototype),
            22 => Some(IntrinsicObjectIndexes::Int16ArrayPrototype),
            23 => Some(IntrinsicObjectIndexes::Int32ArrayPrototype),
            24 => Some(IntrinsicObjectIndexes::Int8ArrayPrototype),
            25 => Some(IntrinsicObjectIndexes::IteratorPrototype),
            26 => Some(IntrinsicObjectIndexes::JSONObject),
            27 => Some(IntrinsicObjectIndexes::MapPrototype),
            28 => Some(IntrinsicObjectIndexes::MapIteratorPrototype),
            29 => Some(IntrinsicObjectIndexes::MathObject),
            30 => Some(IntrinsicObjectIndexes::ObjectPrototype),
            31 => Some(IntrinsicObjectIndexes::PromisePrototype),
            32 => Some(IntrinsicObjectIndexes::RangeErrorPrototype),
            33 => Some(IntrinsicObjectIndexes::ReferenceErrorPrototype),
            34 => Some(IntrinsicObjectIndexes::ReflectObject),
            35 => Some(IntrinsicObjectIndexes::RegExpPrototype),
            36 => Some(IntrinsicObjectIndexes::RegExpStringIteratorPrototype),
            37 => Some(IntrinsicObjectIndexes::SetPrototype),
            38 => Some(IntrinsicObjectIndexes::SetIteratorPrototype),
            39 => Some(IntrinsicObjectIndexes::SharedArrayBufferPrototype),
            40 => Some(IntrinsicObjectIndexes::StringIteratorPrototype),
            41 => Some(IntrinsicObjectIndexes::SymbolPrototype),
            42 => Some(IntrinsicObjectIndexes::SyntaxErrorPrototype),
            43 => Some(IntrinsicObjectIndexes::TypedArrayPrototype),
            44 => Some(IntrinsicObjectIndexes::TypeErrorPrototype),
            45 => Some(IntrinsicObjectIndexes::Uint16ArrayPrototype),
            46 => Some(IntrinsicObjectIndexes::Uint32ArrayPrototype),
            47 => Some(IntrinsicObjectIndexes::Uint8ArrayPrototype),
            48 => Some(IntrinsicObjectIndexes::Uint8ClampedArrayPrototype),
            49 => Some(IntrinsicObjectIndexes::URIErrorPrototype),
            50 => Some(IntrinsicObjectIndexes::WeakMapPrototype),
            51 => Some(IntrinsicObjectIndexes::WeakRefPrototype),
            52 => Some(IntrinsicObjectIndexes::WeakSetPrototype),
            _ => None,
        }
    }

    /// Every name has an ordinal below the number of variants, and
    /// `from_ordinal` gives the name back: no two names share an ordinal.
    pub proof fn lemma_ordinal_round_trip(self)
        ensures
            0 <= self.ordinal() < INTRINSIC_OBJECT_VARIANTS,
            Self::spec_from_ordinal(self.ordinal() as int) == Some(self),
    {
    }

    /// Every number below the number of variants is the ordinal of a name:
    /// the numbering has no gap.
    pub proof fn lemma_ordinals_dense(n: int)
        requires
            0 <= n < INTRINSIC_OBJECT_VARIANTS,
        ensures
            Self::spec_from_ordinal(n) is Some,
            Self::spec_from_ordinal(n).unwrap().ordinal() == n,
    {
    }

    /// Distinct names have distinct ordinals.
    pub proof fn lemma_ordinal_injective(self, other: Self)
        requires
            self.ordinal() == other.ordinal(),
        ensures
            self == other,
    {
        self.lemma_ordinal_round_trip();
        other.lemma_ordinal_round_trip();
    }

    /// Offset of this name's slot in a realm's object range.
    pub open spec fn object_offset(self) -> int {
        OBJECT_FAMILY_OFFSET + self.ordinal() as int
    }

    /// The object slot of this built-in in the realm whose object range
    /// starts at `base`.
    pub fn get_object_index(self, base: ObjectIndex) -> (index: ObjectIndex)
        requires
            base@ + intrinsic_object_count() <= usize::MAX,
        ensures
            index@ == base@ + self.object_offset(),
            base@ <= index@ < base@ + intrinsic_object_count(),
    {
        ObjectIndex::from_index(base.into_index() + OBJECT_FAMILY_OFFSET + self.ordinal())
    }
}

/// Names the built-ins that are primitive-valued objects.
#[derive(Clone, Copy, Debug, PartialEq, Eq, Structural)]
pub enum IntrinsicPrimitiveObjectIndexes {
    BooleanPrototype,
    NumberPrototype,
    StringPrototype,
}

impl IntrinsicPrimitiveObjectIndexes {
    /// The ordinal of this name: its place in the enumeration, from 0.
    pub open spec fn spec_ordinal(self) -> usize {
        match self {
            IntrinsicPrimitiveObjectIndexes::BooleanPrototype => 0,
            IntrinsicPrimitiveObjectIndexes::NumberPrototype => 1,
            IntrinsicPrimitiveObjectIndexes::StringPrototype => 2,
        }
    }

    /// The ordinal of this name: its place in the enumeration, from 0.
    #[verifier::when_used_as_spec(spec_ordinal)]
    pub fn ordinal(self) -> (n: usize)
        ensures
            n == self.spec_ordinal(),
            n < INTRINSIC_PRIMITIVE_OBJECT_VARIANTS,
    {
        match self {
            IntrinsicPrimitiveObjectIndexes::BooleanPrototype => 0,
            IntrinsicPrimitiveObjectIndexes::NumberPrototype => 1,
            IntrinsicPrimitiveObjectIndexes::StringPrototype => 2,
        }
    }

    /// The name with ordinal `n`, if there is one.
    pub open spec fn spec_from_ordinal(n: int) -> Option<Self> {
        if n == 0 {
            Some(IntrinsicPrimitiveObjectIndexes::BooleanPrototype)
        } else if n == 1 {
            Some(IntrinsicPrimitiveObjectIndexes::NumberPrototype)
        } else if n == 2 {
            Some(IntrinsicPrimitiveObjectIndexes::StringPrototype)
        } else {
            None
        }
    }

    /// The name with ordinal `n`; `None` from the number of variants on.
    pub fn from_ordinal(n: usize) -> (name: Option<Self>)
        ensures
            name == Self::spec_from_ordinal(n as int),
            name is Some <==> n < INTRINSIC_PRIMITIVE_OBJECT_VARIANTS,
    {
        match n {
            0 => Some(IntrinsicPrimitiveObjectIndexes::BooleanPrototype),
            1 => Some(IntrinsicPrimitiveObjectIndexes::NumberPrototype),
            2 => Some(IntrinsicPrimitiveObjectIndexes::StringPrototype),
            _ => None,
        }
    }

    /// Every name has an ordinal below the number of variants, and
    /// `from_ordinal` gives the name back: no two names share an ordinal.
    pub proof fn lemma_ordinal_round_trip(self)
        ensures
            0 <= self.ordinal() < INTRINSIC_PRIMITIVE_OBJECT_VARIANTS,
            Self::spec_from_ordinal(self.ordinal() as int) == Some(self),
    {
    }

    /// Every number below the number of variants is the ordinal of a name:
    /// the numbering has no gap.
    pub proof fn lemma_ordinals_dense(n: int)
        requires
            0 <= n < INTRINSIC_PRIMITIVE_OBJECT_VARIANTS,
        ensures
            Self::spec_from_ordinal(n) is Some,
            Self::spec_from_ordinal(n).unwrap().ordinal() == n,
    {
    }

    /// Distinct names have distinct ordinals.
    pub proof fn lemma_ordinal_injective(self, other: Self)
        requires
            self.ordinal() == other.ordinal(),
        ensures
            self == other,
    {
        self.lemma_ordinal_round_trip();
        other.lemma_ordinal_round_trip();
    }

    /// Offset of this name's slot in a realm's object range.
    pub open spec fn object_offset(self) -> int {
        PRIMITIVE_OBJECT_FAMILY_OFFSET + self.ordinal() as int
    }

    /// The object slot of this built-in's property-bag object in the realm whose object range
    /// starts at `base`.
    pub fn get_object_index(self, base: ObjectIndex) -> (index: ObjectIndex)
        requires
            base@ + intrinsic_object_count() <= usize::MAX,
        ensures
            index@ == base@ + self.object_offset(),
            base@ <= index@ < base@ + intrinsic_object_count(),
    {
        ObjectIndex::from_index(base.into_index() + PRIMITIVE_OBJECT_FAMILY_OFFSET + self.ordinal())
    }

    /// Offset of this name's slot in a realm's primitive object range.
    pub open spec fn primitive_object_offset(self) -> int {
        self.ordinal() as int
    }

    /// The primitive-object slot of this built-in in the realm whose primitive object range
    /// starts at `base`.
    pub fn get_primitive_object_index(self, base: PrimitiveObjectIndex) -> (index:
        PrimitiveObjectIndex)
        requires
            base@ + intrinsic_primitive_object_count() <= usize::MAX,
        ensures
            index@ == base@ + self.primitive_object_offset(),
            base@ <= index@ < base@ + intrinsic_primitive_object_count(),
    {
        PrimitiveObjectIndex::from_index(base.into_index() + self.ordinal())
    }
}

/// Names the built-in constructors, each a function with a property-bag object of its own.
#[derive(Clone, Copy, Debug, PartialEq, Eq, Structural)]
pub enum IntrinsicConstructorIndexes {
    AggregateError,
    Array,
    ArrayBuffer,
    AsyncFunction,
    AsyncGeneratorFunction,
    BigInt,
    BigInt64Array,
    BigUint64Array,
    Boolean,
    DataView,
    Date,
    Error,
    EvalError,
    FinalizationRegistry,
    Float32Array,
    Float64Array,
    FunctionPrototype,
    Function,
    GeneratorFunction,
    Int16Array,
    Int32Array,
    Int8Array,
    MapObject,
    Number,
    Object,
    Promise,
    Proxy,
    RangeError,
    ReferenceError,
    RegExp,
    SetObject,
    SharedArrayBuffer,
    String,
    Symbol,
    SyntaxError,
    TypedArray,
    TypeError,
    Uint16Array,
    Uint32Array,
    Uint8Array,
    Uint8ClampedArray,
    URIError,
    WeakMap,
    WeakRef,
    WeakSet,
}

impl IntrinsicConstructorIndexes {
    /// The ordinal of this name: its place in the enumeration, from 0.
    pub open spec fn spec_ordinal(self) -> usize {
        match self {
            IntrinsicConstructorIndexes::AggregateError => 0,
            IntrinsicConstructorIndexes::Array => 1,
            IntrinsicConstructorIndexes::ArrayBuffer => 2,
            IntrinsicConstructorIndexes::AsyncFunction => 3,
            IntrinsicConstructorIndexes::AsyncGeneratorFunction => 4,
            IntrinsicConstructorIndexes::BigInt => 5,
            IntrinsicConstructorIndexes::BigInt64Array => 6,
            IntrinsicConstructorIndexes::BigUint64Array => 7,
            IntrinsicConstructorIndexes::Boolean => 8,
            IntrinsicConstructorIndexes::DataView => 9,
            IntrinsicConstructorIndexes::Date => 10,
            IntrinsicConstructorIndexes::Error => 11,
            IntrinsicConstructorIndexes::EvalError => 12,
            IntrinsicConstructorIndexes::FinalizationRegistry => 13,
            IntrinsicConstructorIndexes::Float32Array => 14,
            IntrinsicConstructorIndexes::Float64Array => 15,
            IntrinsicConstructorIndexes::FunctionPrototype => 16,
            IntrinsicConstructorIndexes::Function => 17,
            IntrinsicConstructorIndexes::GeneratorFunction => 18,
            IntrinsicConstructorIndexes::Int16Array => 19,
            IntrinsicConstructorIndexes::Int32Array => 20,
            IntrinsicConstructorIndexes::Int8Array => 21,
            IntrinsicConstructorIndexes::MapObject => 22,
            IntrinsicConstructorIndexes::Number => 23,
            IntrinsicConstructorIndexes::Object => 24,
            IntrinsicConstructorIndexes::Promise => 25,
            IntrinsicConstructorIndexes::Proxy => 26,
            IntrinsicConstructorIndexes::RangeError => 27,
            IntrinsicConstructorIndexes::ReferenceError => 28,
            IntrinsicConstructorIndexes::RegExp => 29,
            IntrinsicConstructorIndexes::SetObject => 30,
            IntrinsicConstructorIndexes::SharedArrayBuffer => 31,
            IntrinsicConstructorIndexes::String => 32,
            IntrinsicConstructorIndexes::Symbol => 33,
            IntrinsicConstructorIndexes::SyntaxError => 34,
            IntrinsicConstructorIndexes::TypedArray => 35,
            IntrinsicConstructorIndexes::TypeError => 36,
            IntrinsicConstructorIndexes::Uint16Array => 37,
            IntrinsicConstructorIndexes::Uint32Array => 38,
            IntrinsicConstructorIndexes::Uint8Array => 39,
            IntrinsicConstructorIndexes::Uint8ClampedArray => 40,
            IntrinsicConstructorIndexes::URIError => 41,
            IntrinsicConstructorIndexes::WeakMap => 42,
            IntrinsicConstructorIndexes::WeakRef => 43,
            IntrinsicConstructorIndexes::WeakSet => 44,
        }
    }

    /// The ordinal of this name: its place in the enumeration, from 0.
    #[verifier::when_used_as_spec(spec_ordinal)]
    pub fn ordinal(self) -> (n: usize)
        ensures
            n == self.spec_ordinal(),
            n < INTRINSIC_CONSTRUCTOR_VARIANTS,
    {
        match self {
            IntrinsicConstructorIndexes::AggregateError => 0,
            IntrinsicConstructorIndexes::Array => 1,
            IntrinsicConstructorIndexes::ArrayBuffer => 2,
            IntrinsicConstructorIndexes::AsyncFunction => 3,
            IntrinsicConstructorIndexes::AsyncGeneratorFunction => 4,
            IntrinsicConstructorIndexes::BigInt => 5,
            IntrinsicConstructorIndexes::BigInt64Array => 6,
            IntrinsicConstructorIndexes::BigUint64Array => 7,
            IntrinsicConstructorIndexes::Boolean => 8,
            IntrinsicConstructorIndexes::DataView => 9,
            IntrinsicConstructorIndexes::Date => 10,
            IntrinsicConstructorIndexes::Error => 11,
            IntrinsicConstructorIndexes::EvalError => 12,
            IntrinsicConstructorIndexes::FinalizationRegistry => 13,
            IntrinsicConstructorIndexes::Float32Array => 14,
            IntrinsicConstructorIndexes::Float64Array => 15,
            IntrinsicConstructorIndexes::FunctionPrototype => 16,
            IntrinsicConstructorIndexes::Function => 17,
            IntrinsicConstructorIndexes::GeneratorFunction => 18,
            IntrinsicConstructorIndexes::Int16Array => 19,
            IntrinsicConstructorIndexes::Int32Array => 20,
            IntrinsicConstructorIndexes::Int8Array => 21,
            IntrinsicConstructorIndexes::MapObject => 22,
            IntrinsicConstructorIndexes::Number => 23,
            IntrinsicConstructorIndexes::Object => 24,
            IntrinsicConstructorIndexes::Promise => 25,
            IntrinsicConstructorIndexes::Proxy => 26,
            IntrinsicConstructorIndexes::RangeError => 27,
            IntrinsicConstructorIndexes::ReferenceError => 28,
            IntrinsicConstructorIndexes::RegExp => 29,
            IntrinsicConstructorIndexes::SetObject => 30,
            IntrinsicConstructorIndexes::SharedArrayBuffer => 31,
            IntrinsicConstructorIndexes::String => 32,
            IntrinsicConstructorIndexes::Symbol => 33,
            IntrinsicConstructorIndexes::SyntaxError => 34,
            IntrinsicConstructorIndexes::TypedArray => 35,
            IntrinsicConstructorIndexes::TypeError => 36,
            IntrinsicConstructorIndexes::Uint16Array => 37,
            IntrinsicConstructorIndexes::Uint32Array => 38,
            IntrinsicConstructorIndexes::Uint8Array => 39,
            IntrinsicConstructorIndexes::Uint8ClampedArray => 40,
            IntrinsicConstructorIndexes::URIError => 41,
            IntrinsicConstructorIndexes::WeakMap => 42,
            IntrinsicConstructorIndexes::WeakRef => 43,
            IntrinsicConstructorIndexes::WeakSet => 44,
        }
    }

    /// The name with ordinal `n`, if there is one.
    pub open spec fn spec_from_ordinal(n: int) -> Option<Self> {
        if n == 0 {
            Some(IntrinsicConstructorIndexes::AggregateError)
        } else if n == 1 {
            Some(IntrinsicConstructorIndexes::Array)
        } else if n == 2 {
            Some(IntrinsicConstructorIndexes::ArrayBuffer)
        } else if n == 3 {
            Some(IntrinsicConstructorIndexes::AsyncFunction)
        } else if n == 4 {
            Some(IntrinsicConstructorIndexes::AsyncGeneratorFunction)
        } else if n == 5 {
            Some(IntrinsicConstructorIndexes::BigInt)
        } else if n == 6 {
            Some(IntrinsicConstructorIndexes::BigInt64Array)
        } else if n == 7 {
            Some(IntrinsicConstructorIndexes::BigUint64Array)
        } else if n == 8 {
            Some(IntrinsicConstructorIndexes::Boolean)
        } else if n == 9 {
            Some(IntrinsicConstructorIndexes::DataView)
        } else if n == 10 {
            Some(IntrinsicConstructorIndexes::Date)
        } else if n == 11 {
            Some(IntrinsicConstructorIndexes::Error)
        } else if n == 12 {
            Some(IntrinsicConstructorIndexes::EvalError)
        } else if n == 13 {
            Some(IntrinsicConstructorIndexes::FinalizationRegistry)
        } else if n == 14 {
            Some(IntrinsicConstructorIndexes::Float32Array)
        } else if n == 15 {
            Some(IntrinsicConstructorIndexes::Float64Array)
        } else if n == 16 {
            Some(IntrinsicConstructorIndexes::FunctionPrototype)
        } else if n == 17 {
            Some(IntrinsicConstructorIndexes::Function)
        } else if n == 18 {
            Some(IntrinsicConstructorIndexes::GeneratorFunction)
        } else if n == 19 {
            Some(IntrinsicConstructorIndexes::Int16Array)
        } else if n == 20 {
            Some(IntrinsicConstructorIndexes::Int32Array)
        } else if n == 21 {
            Some(IntrinsicConstructorIndexes::Int8Array)
        } else if n == 22 {
            Some(IntrinsicConstructorIndexes::MapObject)
        } else if n == 23 {
            Some(IntrinsicConstructorIndexes::Number)
        } else if n == 24 {
            Some(IntrinsicConstructorIndexes::Object)
        } else if n == 25 {
            Some(IntrinsicConstructorIndexes::Promise)
        } else if n == 26 {
            Some(IntrinsicConstructorIndexes::Proxy)
        } else if n == 27 {
            Some(IntrinsicConstructorIndexes::RangeError)
        } else if n == 28 {
            Some(IntrinsicConstructorIndexes::ReferenceError)
        } else if n == 29 {
            Some(IntrinsicConstructorIndexes::RegExp)
        } else if n == 30 {
            Some(IntrinsicConstructorIndexes::SetObject)
        } else if n == 31 {
            Some(IntrinsicConstructorIndexes::SharedArrayBuffer)
        } else if n == 32 {
            Some(IntrinsicConstructorIndexes::String)
        } else if n == 33 {
            Some(IntrinsicConstructorIndexes::Symbol)
        } else if n == 34 {
            Some(IntrinsicConstructorIndexes::SyntaxError)
        } else if n == 35 {
            Some(IntrinsicConstructorIndexes::TypedArray)
        } else if n == 36 {
            Some(IntrinsicConstructorIndexes::TypeError)
        } else if n == 37 {
            Some(IntrinsicConstructorIndexes::Uint16Array)
        } else if n == 38 {
            Some(IntrinsicConstructorIndexes::Uint32Array)
        } else if n == 39 {
            Some(IntrinsicConstructorIndexes::Uint8Array)
        } else if n == 40 {
            Some(IntrinsicConstructorIndexes::Uint8ClampedArray)
        } else if n == 41 {
            Some(IntrinsicConstructorIndexes::URIError)
        } else if n == 42 {
            Some(IntrinsicConstructorIndexes::WeakMap)
        } else if n == 43 {
            Some(IntrinsicConstructorIndexes::WeakRef)
        } else if n == 44 {
            Some(IntrinsicConstructorIndexes::WeakSet)
        } else {
            None
        }
    }

    /// The name with ordinal `n`; `None` from the number of variants on.
    pub fn from_ordinal(n: usize) -> (name: Option<Self>)
        ensures
            name == Self::spec_from_ordinal(n as int),
            name is Some <==> n < INTRINSIC_CONSTRUCTOR_VARIANTS,
    {
        match n {
            0 => Some(IntrinsicConstructorIndexes::AggregateError),
            1 => Some(IntrinsicConstructorIndexes::Array),
            2 => Some(IntrinsicConstructorIndexes::ArrayBuffer),
            3 => Some(IntrinsicConstructorIndexes::AsyncFunction),
            4 => Some(IntrinsicConstructorIndexes::AsyncGeneratorFunction),
            5 => Some(IntrinsicConstructorIndexes::BigInt),
            6 => Some(IntrinsicConstructorIndexes::BigInt64Array),
            7 => Some(IntrinsicConstructorIndexes::BigUint64Array),
            8 => Some(IntrinsicConstructorIndexes::Boolean),
            9 => Some(IntrinsicConstructorIndexes::DataView),
            10 => Some(IntrinsicConstructorIndexes::Date),
            11 => Some(IntrinsicConstructorIndexes::Error),
            12 => Some(IntrinsicConstructorIndexes::EvalError),
            13 => Some(IntrinsicConstructorIndexes::FinalizationRegistry),
            14 => Some(IntrinsicConstructorIndexes::Float32Array),
            15 => Some(IntrinsicConstructorIndexes::Float64Array),
            16 => Some(IntrinsicConstructorIndexes::FunctionPrototype),
            17 => Some(IntrinsicConstructorIndexes::Function),
            18 => Some(IntrinsicConstructorIndexes::GeneratorFunction),
            19 => Some(IntrinsicConstructorIndexes::Int16Array),
            20 => Some(IntrinsicConstructorIndexes::Int32Array),
            21 => Some(IntrinsicConstructorIndexes::Int8Array),
            22 => Some(IntrinsicConstructorIndexes::MapObject),
            23 => Some(IntrinsicConstructorIndexes::Number),
            24 => Some(IntrinsicConstructorIndexes::Object),
            25 => Some(IntrinsicConstructorIndexes::Promise),
            26 => Some(IntrinsicConstructorIndexes::Proxy),
            27 => Some(IntrinsicConstructorIndexes::RangeError),
            28 => Some(IntrinsicConstructorIndexes::ReferenceError),
            29 => Some(IntrinsicConstructorIndexes::RegExp),
            30 => Some(IntrinsicConstructorIndexes::SetObject),
            31 => Some(IntrinsicConstructorIndexes::SharedArrayBuffer),
            32 => Some(IntrinsicConstructorIndexes::String),
            33 => Some(IntrinsicConstructorIndexes::Symbol),
            34 => Some(IntrinsicConstructorIndexes::SyntaxError),
            35 => Some(IntrinsicConstructorIndexes::TypedArray),
            36 => Some(IntrinsicConstructorIndexes::TypeError),
            37 => Some(IntrinsicConstructorIndexes::Uint16Array),
            38 => Some(IntrinsicConstructorIndexes::Uint32Array),
            39 => Some(IntrinsicConstructorIndexes::Uint8Array),
            40 => Some(IntrinsicConstructorIndexes::Uint8ClampedArray),
            41 => Some(IntrinsicConstructorIndexes::URIError),
            42 => Some(IntrinsicConstructorIndexes::WeakMap),
            43 => Some(IntrinsicConstructorIndexes::WeakRef),
            44 => Some(IntrinsicConstructorIndexes::WeakSet),
            _ => None,
        }
    }

    /// Every name has an ordinal below the number of variants, and
    /// `from_ordinal` gives the name back: no two names share an ordinal.
    pub proof fn lemma_ordinal_round_trip(self)
        ensures
            0 <= self.ordinal() < INTRINSIC_CONSTRUCTOR_VARIANTS,
            Self::spec_from_ordinal(self.ordinal() as int) == Some(self),
    {
    }

    /// Every number below the number of variants is the ordinal of a name:
    /// the numbering has no gap.
    pub proof fn lemma_ordinals_dense(n: int)
        requires
            0 <= n < INTRINSIC_CONSTRUCTOR_VARIANTS,
        ensures
            Self::spec_from_ordinal(n) is Some,
            Self::spec_from_ordinal(n).unwrap().ordinal() == n,
    {
    }

    /// Distinct names have distinct ordinals.
    pub proof fn lemma_ordinal_injective(self, other: Self)
        requires
            self.ordinal() == other.ordinal(),
        ensures
            self == other,
    {
        self.lemma_ordinal_round_trip();
        other.lemma_ordinal_round_trip();
    }

    /// Offset of this name's slot in a realm's object range.
    pub open spec fn object_offset(self) -> int {
        CONSTRUCTOR_OBJECT_FAMILY_OFFSET + self.ordinal() as int
    }

    /// The object slot of this constructor's property-bag object in the realm whose object range
    /// starts at `base`.
    pub fn get_object_index(self, base: ObjectIndex) -> (index: ObjectIndex)
        requires
            base@ + intrinsic_object_count() <= usize::MAX,
        ensures
            index@ == base@ + self.object_offset(),
            base@ <= index@ < base@ + intrinsic_object_count(),
    {
        ObjectIndex::from_index(base.into_index() + CONSTRUCTOR_OBJECT_FAMILY_OFFSET
            + self.ordinal())
    }

    /// Offset of this name's slot in a realm's builtin function range.
    pub open spec fn builtin_function_offset(self) -> int {
        CONSTRUCTOR_FAMILY_OFFSET + self.ordinal() as int
    }

    /// The function slot of this constructor in the realm whose builtin function range
    /// starts at `base`.
    pub fn get_builtin_function_index(self, base: BuiltinFunctionIndex) -> (index:
        BuiltinFunctionIndex)
        requires
            base@ + intrinsic_function_count() <= usize::MAX,
        ensures
            index@ == base@ + self.builtin_function_offset(),
            base@ <= index@ < base@ + intrinsic_function_count(),
    {
        BuiltinFunctionIndex::from_index(base.into_index() + CONSTRUCTOR_FAMILY_OFFSET
            + self.ordinal())
    }
}

/// Names the well-known built-in functions that are no constructors.
#[derive(Clone, Copy, Debug, PartialEq, Eq, Structural)]
pub enum IntrinsicFunctionIndexes {
    ArrayPrototypeSort,
    ArrayPrototypeToString,
    ArrayPrototypeValues,
    DatePrototypeToUTCString,
    DecodeURI,
    DecodeURIComponent,
    EncodeURI,
    EncodeURIComponent,
    Escape,
    Eval,
    GeneratorFunctionPrototypePrototypeNext,
    IsFinite,
    IsNaN,
    MapPrototypeEntries,
    ObjectPrototypeToString,
    ParseFloat,
    ParseInt,
    RegExpPrototypeExec,
    SetPrototypeValues,
    StringPrototypeTrimEnd,
    StringPrototypeTrimStart,
    ThrowTypeError,
    TypedArrayPrototypeValues,
    Unescape,
}

impl IntrinsicFunctionIndexes {
    /// The ordinal of this name: its place in the enumeration, from 0.
    pub open spec fn spec_ordinal(self) -> usize {
        match self {
            IntrinsicFunctionIndexes::ArrayPrototypeSort => 0,
            IntrinsicFunctionIndexes::ArrayPrototypeToString => 1,
            IntrinsicFunctionIndexes::ArrayPrototypeValues => 2,
            IntrinsicFunctionIndexes::DatePrototypeToUTCString => 3,
            IntrinsicFunctionIndexes::DecodeURI => 4,
            IntrinsicFunctionIndexes::DecodeURIComponent => 5,
            IntrinsicFunctionIndexes::EncodeURI => 6,
            IntrinsicFunctionIndexes::EncodeURIComponent => 7,
            IntrinsicFunctionIndexes::Escape => 8,
            IntrinsicFunctionIndexes::Eval => 9,
            IntrinsicFunctionIndexes::GeneratorFunctionPrototypePrototypeNext => 10,
            IntrinsicFunctionIndexes::IsFinite => 11,
            IntrinsicFunctionIndexes::IsNaN => 12,
            IntrinsicFunctionIndexes::MapPrototypeEntries => 13,
            IntrinsicFunctionIndexes::ObjectPrototypeToString => 14,
            IntrinsicFunctionIndexes::ParseFloat => 15,
            IntrinsicFunctionIndexes::ParseInt => 16,
            IntrinsicFunctionIndexes::RegExpPrototypeExec => 17,
            IntrinsicFunctionIndexes::SetPrototypeValues => 18,
            IntrinsicFunctionIndexes::StringPrototypeTrimEnd => 19,
            IntrinsicFunctionIndexes::StringPrototypeTrimStart => 20,
            IntrinsicFunctionIndexes::ThrowTypeError => 21,
            IntrinsicFunctionIndexes::TypedArrayPrototypeValues => 22,
            IntrinsicFunctionIndexes::Unescape => 23,
        }
    }

    /// The ordinal of this name: its place in the enumeration, from 0.
    #[verifier::when_used_as_spec(spec_ordinal)]
    pub fn ordinal(self) -> (n: usize)
        ensures
            n == self.spec_ordinal(),
            n < INTRINSIC_FUNCTION_VARIANTS,
    {
        match self {
            IntrinsicFunctionIndexes::ArrayPrototypeSort => 0,
            IntrinsicFunctionIndexes::ArrayPrototypeToString => 1,
            IntrinsicFunctionIndexes::ArrayPrototypeValues => 2,
            IntrinsicFunctionIndexes::DatePrototypeToUTCString => 3,
            IntrinsicFunctionIndexes::DecodeURI => 4,
            IntrinsicFunctionIndexes::DecodeURIComponent => 5,
            IntrinsicFunctionIndexes::EncodeURI => 6,
            IntrinsicFunctionIndexes::EncodeURIComponent => 7,
            IntrinsicFunctionIndexes::Escape => 8,
            IntrinsicFunctionIndexes::Eval => 9,
            IntrinsicFunctionIndexes::GeneratorFunctionPrototypePrototypeNext => 10,
            IntrinsicFunctionIndexes::IsFinite => 11,
            IntrinsicFunctionIndexes::IsNaN => 12,
            IntrinsicFunctionIndexes::MapPrototypeEntries => 13,
            IntrinsicFunctionIndexes::ObjectPrototypeToString => 14,
            IntrinsicFunctionIndexes::ParseFloat => 15,
            IntrinsicFunctionIndexes::ParseInt => 16,
            IntrinsicFunctionIndexes::RegExpPrototypeExec => 17,
            IntrinsicFunctionIndexes::SetPrototypeValues => 18,
            IntrinsicFunctionIndexes::StringPrototypeTrimEnd => 19,
            IntrinsicFunctionIndexes::StringPrototypeTrimStart => 20,
            IntrinsicFunctionIndexes::ThrowTypeError => 21,
            IntrinsicFunctionIndexes::TypedArrayPrototypeValues => 22,
            IntrinsicFunctionIndexes::Unescape => 23,
        }
    }

    /// The name with ordinal `n`, if there is one.
    pub open spec fn spec_from_ordinal(n: int) -> Option<Self> {
        if n == 0 {
            Some(IntrinsicFunctionIndexes::ArrayPrototypeSort)
        } else if n == 1 {
            Some(IntrinsicFunctionIndexes::ArrayPrototypeToString)
        } else if n == 2 {
            Some(IntrinsicFunctionIndexes::ArrayPrototypeValues)
        } else if n == 3 {
            Some(IntrinsicFunctionIndexes::DatePrototypeToUTCString)
        } else if n == 4 {
            Some(IntrinsicFunctionIndexes::DecodeURI)
        } else if n == 5 {
            Some(IntrinsicFunctionIndexes::DecodeURIComponent)
        } else if n == 6 {
            Some(IntrinsicFunctionIndexes::EncodeURI)
        } else if n == 7 {
            Some(IntrinsicFunctionIndexes::EncodeURIComponent)
        } else if n == 8 {
            Some(IntrinsicFunctionIndexes::Escape)
        } else if n == 9 {
            Some(IntrinsicFunctionIndexes::Eval)
        } else if n == 10 {
            Some(IntrinsicFunctionIndexes::GeneratorFunctionPrototypePrototypeNext)
        } else if n == 11 {
            Some(IntrinsicFunctionIndexes::IsFinite)
        } else if n == 12 {
            Some(IntrinsicFunctionIndexes::IsNaN)
        } else if n == 13 {
            Some(IntrinsicFunctionIndexes::MapPrototypeEntries)
        } else if n == 14 {
            Some(IntrinsicFunctionIndexes::ObjectPrototypeToString)
        } else if n == 15 {
            Some(IntrinsicFunctionIndexes::ParseFloat)
        } else if n == 16 {
            Some(IntrinsicFunctionIndexes::ParseInt)
        } else if n == 17 {
            Some(IntrinsicFunctionIndexes::RegExpPrototypeExec)
        } else if n == 18 {
            Some(IntrinsicFunctionIndexes::SetPrototypeValues)
        } else if n == 19 {
            Some(IntrinsicFunctionIndexes::StringPrototypeTrimEnd)
        } else if n == 20 {
            Some(IntrinsicFunctionIndexes::StringPrototypeTrimStart)
        } else if n == 21 {
            Some(IntrinsicFunctionIndexes::ThrowTypeError)
        } else if n == 22 {
            Some(IntrinsicFunctionIndexes::TypedArrayPrototypeValues)
        } else if n == 23 {
            Some(IntrinsicFunctionIndexes::Unescape)
        } else {
            None
        }
    }

    /// The name with ordinal `n`; `None` from the number of variants on.
    pub fn from_ordinal(n: usize) -> (name: Option<Self>)
        ensures
            name == Self::spec_from_ordinal(n as int),
            name is Some <==> n < INTRINSIC_FUNCTION_VARIANTS,
    {
        match n {
            0 => Some(IntrinsicFunctionIndexes::ArrayPrototypeSort),
            1 => Some(IntrinsicFunctionIndexes::ArrayPrototypeToString),
            2 => Some(IntrinsicFunctionIndexes::ArrayPrototypeValues),
            3 => Some(IntrinsicFunctionIndexes::DatePrototypeToUTCString),
            4 => Some(IntrinsicFunctionIndexes::DecodeURI),
            5 => Some(IntrinsicFunctionIndexes::DecodeURIComponent),
            6 => Some(IntrinsicFunctionIndexes::EncodeURI),
            7 => Some(IntrinsicFunctionIndexes::EncodeURIComponent),
            8 => Some(IntrinsicFunctionIndexes::Escape),
            9 => Some(IntrinsicFunctionIndexes::Eval),
            10 => Some(IntrinsicFunctionIndexes::GeneratorFunctionPrototypePrototypeNext),
            11 => Some(IntrinsicFunctionIndexes::IsFinite),
            12 => Some(IntrinsicFunctionIndexes::IsNaN),
            13 => Some(IntrinsicFunctionIndexes::MapPrototypeEntries),
            14 => Some(IntrinsicFunctionIndexes::ObjectPrototypeToString),
            15 => Some(IntrinsicFunctionIndexes::ParseFloat),
            16 => Some(IntrinsicFunctionIndexes::ParseInt),
            17 => Some(IntrinsicFunctionIndexes::RegExpPrototypeExec),
            18 => Some(IntrinsicFunctionIndexes::SetPrototypeValues),
            19 => Some(IntrinsicFunctionIndexes::StringPrototypeTrimEnd),
            20 => Some(IntrinsicFunctionIndexes::StringPrototypeTrimStart),
            21 => Some(IntrinsicFunctionIndexes::ThrowTypeError),
            22 => Some(IntrinsicFunctionIndexes::TypedArrayPrototypeValues),
            23 => Some(IntrinsicFunctionIndexes::Unescape),
            _ => None,
        }
    }

    /// Every name has an ordinal below the number of variants, and
    /// `from_ordinal` gives the name back: no two names share an ordinal.
    pub proof fn lemma_ordinal_round_trip(self)
        ensures
            0 <= self.ordinal() < INTRINSIC_FUNCTION_VARIANTS,
            Self::spec_from_ordinal(self.ordinal() as int) == Some(self),
    {
    }

    /// Every number below the number of variants is the ordinal of a name:
    /// the numbering has no gap.
    pub proof fn lemma_ordinals_dense(n: int)
        requires
            0 <= n < INTRINSIC_FUNCTION_VARIANTS,
        ensures
            Self::spec_from_ordinal(n) is Some,
            Self::spec_from_ordinal(n).unwrap().ordinal() == n,
    {
    }

    /// Distinct names have distinct ordinals.
    pub proof fn lemma_ordinal_injective(self, other: Self)
        requires
            self.ordinal() == other.ordinal(),
        ensures
            self == other,
    {
        self.lemma_ordinal_round_trip();
        other.lemma_ordinal_round_trip();
    }

    /// Offset of this name's slot in a realm's builtin function range.
    pub open spec fn builtin_function_offset(self) -> int {
        FUNCTION_FAMILY_OFFSET + self.ordinal() as int
    }

    /// The function slot of this built-in in the realm whose builtin function range
    /// starts at `base`.
    pub fn get_builtin_function_index(self, base: BuiltinFunctionIndex) -> (index:
        BuiltinFunctionIndex)
        requires
            base@ + intrinsic_function_count() <= usize::MAX,
        ensures
            index@ == base@ + self.builtin_function_offset(),
            base@ <= index@ < base@ + intrinsic_function_count(),
    {
        BuiltinFunctionIndex::from_index(base.into_index() + FUNCTION_FAMILY_OFFSET
            + self.ordinal())
    }
}

/// The families of one slab follow each other without overlap: in the object
/// range the ordinary objects come first, then the property-bag objects of
/// the primitive-valued objects, then those of the constructors; in the
/// function range the constructors come first, then the plain functions.
/// Every offset is below the number of slots that a realm reserves.
pub proof fn lemma_families_do_not_overlap()
    ensures
        OBJECT_FAMILY_OFFSET < PRIMITIVE_OBJECT_FAMILY_OFFSET < CONSTRUCTOR_OBJECT_FAMILY_OFFSET
            < intrinsic_object_count(),
        CONSTRUCTOR_FAMILY_OFFSET < FUNCTION_FAMILY_OFFSET < intrinsic_function_count(),
        forall|name: IntrinsicObjectIndexes|
            OBJECT_FAMILY_OFFSET <= #[trigger] name.object_offset()
                < PRIMITIVE_OBJECT_FAMILY_OFFSET,
        forall|name: IntrinsicPrimitiveObjectIndexes|
            PRIMITIVE_OBJECT_FAMILY_OFFSET <= #[trigger] name.object_offset()
                < CONSTRUCTOR_OBJECT_FAMILY_OFFSET,
        forall|name: IntrinsicConstructorIndexes|
            CONSTRUCTOR_OBJECT_FAMILY_OFFSET <= #[trigger] name.object_offset()
                < intrinsic_object_count(),
        forall|name: IntrinsicPrimitiveObjectIndexes|
            0 <= #[trigger] name.primitive_object_offset() < intrinsic_primitive_object_count(),
        forall|name: IntrinsicConstructorIndexes|
            CONSTRUCTOR_FAMILY_OFFSET <= #[trigger] name.builtin_function_offset()
                < FUNCTION_FAMILY_OFFSET,
        forall|name: IntrinsicFunctionIndexes|
            FUNCTION_FAMILY_OFFSET <= #[trigger] name.builtin_function_offset()
                < intrinsic_function_count(),
{
    assert forall|name: IntrinsicObjectIndexes|
        OBJECT_FAMILY_OFFSET <= #[trigger] name.object_offset()
            < PRIMITIVE_OBJECT_FAMILY_OFFSET by {
        name.lemma_ordinal_round_trip();
    }
    assert forall|name: IntrinsicPrimitiveObjectIndexes|
        PRIMITIVE_OBJECT_FAMILY_OFFSET <= #[trigger] name.object_offset()
            < CONSTRUCTOR_OBJECT_FAMILY_OFFSET by {
        name.lemma_ordinal_round_trip();
    }
    assert forall|name: IntrinsicConstructorIndexes|
        CONSTRUCTOR_OBJECT_FAMILY_OFFSET <= #[trigger] name.object_offset()
            < intrinsic_object_count() by {
        name.lemma_ordinal_round_trip();
    }
    assert forall|name: IntrinsicPrimitiveObjectIndexes|
        0 <= #[trigger] name.primitive_object_offset()
            < intrinsic_primitive_object_count() by {
        name.lemma_ordinal_round_trip();
    }
    assert forall|name: IntrinsicConstructorIndexes|
        CONSTRUCTOR_FAMILY_OFFSET <= #[trigger] name.builtin_function_offset()
            < FUNCTION_FAMILY_OFFSET by {
        name.lemma_ordinal_round_trip();
    }
    assert forall|name: IntrinsicFunctionIndexes|
        FUNCTION_FAMILY_OFFSET <= #[trigger] name.builtin_function_offset()
            < intrinsic_function_count() by {
        name.lemma_ordinal_round_trip();
    }
}

/// A realm reserves no slot in vain: every offset of its object range is the
/// slot of a name of one of the three families of that slab.
pub proof fn lemma_every_object_slot_is_named(offset: int)
    requires
        0 <= offset < intrinsic_object_count(),
    ensures
        offset < PRIMITIVE_OBJECT_FAMILY_OFFSET ==> IntrinsicObjectIndexes::spec_from_ordinal(
            offset,
        ).unwrap().object_offset() == offset,
        PRIMITIVE_OBJECT_FAMILY_OFFSET <= offset < CONSTRUCTOR_OBJECT_FAMILY_OFFSET
            ==> IntrinsicPrimitiveObjectIndexes::spec_from_ordinal(
            offset - PRIMITIVE_OBJECT_FAMILY_OFFSET,
        ).unwrap().object_offset() == offset,
        CONSTRUCTOR_OBJECT_FAMILY_OFFSET <= offset
            ==> IntrinsicConstructorIndexes::spec_from_ordinal(
            offset - CONSTRUCTOR_OBJECT_FAMILY_OFFSET,
        ).unwrap().object_offset() == offset,
{
    if offset < PRIMITIVE_OBJECT_FAMILY_OFFSET {
        IntrinsicObjectIndexes::lemma_ordinals_dense(offset);
    } else if offset < CONSTRUCTOR_OBJECT_FAMILY_OFFSET {
        IntrinsicPrimitiveObjectIndexes::lemma_ordinals_dense(
            offset - PRIMITIVE_OBJECT_FAMILY_OFFSET,
        );
    } else {
        IntrinsicConstructorIndexes::lemma_ordinals_dense(
            offset - CONSTRUCTOR_OBJECT_FAMILY_OFFSET,
        );
    }
}

/// A realm reserves no slot in vain: every offset of its function range is
/// the slot of a constructor or of a plain function.
pub proof fn lemma_every_function_slot_is_named(offset: int)
    requires
        0 <= offset < intrinsic_function_count(),
    ensures
        offset < FUNCTION_FAMILY_OFFSET ==> IntrinsicConstructorIndexes::spec_from_ordinal(
            offset,
        ).unwrap().builtin_function_offset() == offset,
        FUNCTION_FAMILY_OFFSET <= offset ==> IntrinsicFunctionIndexes::spec_from_ordinal(
            offset - FUNCTION_FAMILY_OFFSET,
        ).unwrap().builtin_function_offset() == offset,
{
    if offset < FUNCTION_FAMILY_OFFSET {
        IntrinsicConstructorIndexes::lemma_ordinals_dense(offset);
    } else {
        IntrinsicFunctionIndexes::lemma_ordinals_dense(offset - FUNCTION_FAMILY_OFFSET);
    }
}

/// A realm reserves no slot in vain: every offset of its primitive-object
/// range is the slot of a name.
pub proof fn lemma_every_primitive_object_slot_is_named(offset: int)
    requires
        0 <= offset < intrinsic_primitive_object_count(),
    ensures
        IntrinsicPrimitiveObjectIndexes::spec_from_ordinal(
            offset,
        ).unwrap().primitive_object_offset() == offset,
{
    IntrinsicPrimitiveObjectIndexes::lemma_ordinals_dense(offset);
}

} // verus!
