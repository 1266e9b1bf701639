//! Heap indexes: typed, zero-based offsets into one slab each.
//!
//! An index is not an address. It names a slot of the slab of its kind and
//! stays meaningful only until that slab is next compacted.

use vstd::prelude::*;

verus! {

/// Offset of one slot in the slab of ordinary objects.
#[derive(Clone, Copy, Debug, PartialEq, Eq, Structural)]
pub struct ObjectIndex(pub usize);

impl ObjectIndex {
    /// The slot number as a mathematical integer.
    pub open spec fn view(self) -> int {
        self.0 as int
    }

    /// The index of slot `n`.
    pub fn from_index(n: usize) -> (index: Self)
        ensures
            index@ == n,
    {
        ObjectIndex(n)
    }

    /// The slot number of this index.
    pub fn into_index(self) -> (n: usize)
        ensures
            n == self@,
    {
        self.0
    }

    /// The index `k` slots further on.
    pub fn offset(self, k: usize) -> (index: Self)
        requires
            self@ + k <= usize::MAX,
        ensures
            index@ == self@ + k,
    {
        ObjectIndex(self.0 + k)
    }
}

/// Offset of one slot in the slab of primitive-valued objects.
#[derive(Clone, Copy, Debug, PartialEq, Eq, Structural)]
pub struct PrimitiveObjectIndex(pub usize);

impl PrimitiveObjectIndex {
    /// The slot number as a mathematical integer.
    pub open spec fn view(self) -> int {
        self.0 as int
    }

    /// The index of slot `n`.
    pub fn from_index(n: usize) -> (index: Self)
        ensures
            index@ == n,
    {
        PrimitiveObjectIndex(n)
    }

    /// The slot number of this index.
    pub fn into_index(self) -> (n: usize)
        ensures
            n == self@,
    {
        self.0
    }

    /// The index `k` slots further on.
    pub fn offset(self, k: usize) -> (index: Self)
        requires
            self@ + k <= usize::MAX,
        ensures
            index@ == self@ + k,
    {
        PrimitiveObjectIndex(self.0 + k)
    }
}

/// Offset of one slot in the slab of built-in functions.
#[derive(Clone, Copy, Debug, PartialEq, Eq, Structural)]
pub struct BuiltinFunctionIndex(pub usize);

impl BuiltinFunctionIndex {
    /// The slot number as a mathematical integer.
    pub open spec fn view(self) -> int {
        self.0 as int
    }

    /// The index of slot `n`.
    pub fn from_index(n: usize) -> (index: Self)
        ensures
            index@ == n,
    {
        BuiltinFunctionIndex(n)
    }

    /// The slot number of this index.
    pub fn into_index(self) -> (n: usize)
        ensures
            n == self@,
    {
        self.0
    }

    /// The index `k` slots further on.
    pub fn offset(self, k: usize) -> (index: Self)
        requires
            self@ + k <= usize::MAX,
        ensures
            index@ == self@ + k,
    {
        BuiltinFunctionIndex(self.0 + k)
    }
}

/// Offset of one slot in the slab of Array exotic objects.
#[derive(Clone, Copy, Debug, PartialEq, Eq, Structural)]
pub struct ArrayIndex(pub usize);

impl ArrayIndex {
    /// The slot number as a mathematical integer.
    pub open spec fn view(self) -> int {
        self.0 as int
    }

    /// The index of slot `n`.
    pub fn from_index(n: usize) -> (index: Self)
        ensures
            index@ == n,
    {
        ArrayIndex(n)
    }

    /// The slot number of this index.
    pub fn into_index(self) -> (n: usize)
        ensures
            n == self@,
    {
        self.0
    }

    /// The index `k` slots further on.
    pub fn offset(self, k: usize) -> (index: Self)
        requires
            self@ + k <= usize::MAX,
        ensures
            index@ == self@ + k,
    {
        ArrayIndex(self.0 + k)
    }
}

/// What the four kinds of index have in common: each is a slot number, and
/// every slot number is an index of each kind.
pub trait HeapIndex: Copy {
    /// The index of slot `n`.
    spec fn at(n: usize) -> Self;

    /// The slot number of this index.
    spec fn slot(self) -> usize;

    /// An index is the index of its slot, and no other.
    proof fn lemma_index_of_slot(self)
        ensures
            Self::at(self.slot()) == self,
    ;

    /// Every slot number has an index, and it is the number of that index.
    proof fn lemma_slot_of_index(n: usize)
        ensures
            Self::at(n).slot() == n,
    ;

    /// The slot number of this index.
    fn slot_number(self) -> (n: usize)
        ensures
            n == self.slot(),
    ;
}

impl HeapIndex for ObjectIndex {
    open spec fn at(n: usize) -> Self {
        ObjectIndex(n)
    }

    open spec fn slot(self) -> usize {
        self.0
    }

    proof fn lemma_index_of_slot(self) {
    }

    proof fn lemma_slot_of_index(n: usize) {
    }

    fn slot_number(self) -> (n: usize) {
        self.0
    }
}

impl HeapIndex for PrimitiveObjectIndex {
    open spec fn at(n: usize) -> Self {
        PrimitiveObjectIndex(n)
    }

    open spec fn slot(self) -> usize {
        self.0
    }

    proof fn lemma_index_of_slot(self) {
    }

    proof fn lemma_slot_of_index(n: usize) {
    }

    fn slot_number(self) -> (n: usize) {
        self.0
    }
}

impl HeapIndex for BuiltinFunctionIndex {
    open spec fn at(n: usize) -> Self {
        BuiltinFunctionIndex(n)
    }

    open spec fn slot(self) -> usize {
        self.0
    }

    proof fn lemma_index_of_slot(self) {
    }

    proof fn lemma_slot_of_index(n: usize) {
    }

    fn slot_number(self) -> (n: usize) {
        self.0
    }
}

impl HeapIndex for ArrayIndex {
    open spec fn at(n: usize) -> Self {
        ArrayIndex(n)
    }

    open spec fn slot(self) -> usize {
        self.0
    }

    proof fn lemma_index_of_slot(self) {
    }

    proof fn lemma_slot_of_index(n: usize) {
    }

    fn slot_number(self) -> (n: usize) {
        self.0
    }
}

/// Handle of an ordinary object.
#[derive(Clone, Copy, Debug, PartialEq, Eq, Structural)]
pub struct OrdinaryObject(pub ObjectIndex);

/// Handle of a primitive-valued object.
#[derive(Clone, Copy, Debug, PartialEq, Eq, Structural)]
pub struct PrimitiveObject(pub PrimitiveObjectIndex);

/// Handle of a built-in function.
#[derive(Clone, Copy, Debug, PartialEq, Eq, Structural)]
pub struct BuiltinFunction(pub BuiltinFunctionIndex);

/// Handle of an Array exotic object.
#[derive(Clone, Copy, Debug, PartialEq, Eq, Structural)]
pub struct Array(pub ArrayIndex);

/// Handle of any object, whatever slab holds it.
#[derive(Clone, Copy, Debug, PartialEq, Eq, Structural)]
pub enum Object {
    Object(OrdinaryObject),
    PrimitiveObject(PrimitiveObject),
    BuiltinFunction(BuiltinFunction),
    Array(Array),
}

} // verus!
