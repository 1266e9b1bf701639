//! Compaction of one slab: which slots are reclaimed, and where the
//! survivors move.
//!
//! A compaction list holds, for every position of a slab, the number of
//! reclaimed slots before it. A surviving slot at `i` moves to `i` minus that
//! number, so a run of survivors stays a run.

use vstd::prelude::*;

verus! {

/// For one slab, the number of reclaimed slots before each position.
pub struct CompactionList {
    /// `shifts[i]` counts the reclaimed slots among the first `i`; the last
    /// entry counts all of them.
    pub shifts: Vec<usize>,
}

impl CompactionList {
    /// The counts start at 0 and grow by at most one per slot.
    pub open spec fn is_valid(&self) -> bool {
        &&& self.shifts@.len() >= 1
        &&& self.shifts@[0] == 0
        &&& forall|i: int|
            0 <= i < self.shifts@.len() - 1 ==> {
                ||| #[trigger] self.shifts@[i + 1] == self.shifts@[i]
                ||| self.shifts@[i + 1] == self.shifts@[i] + 1
            }
        &&& forall|i: int| 0 <= i < self.shifts@.len() ==> #[trigger] self.shifts@[i] <= i
    }

    /// Number of slots of the slab that the list was made for.
    pub open spec fn slots(&self) -> int {
        self.shifts@.len() - 1
    }

    /// Whether slot `i` is reclaimed.
    pub open spec fn is_reclaimed(&self, i: int) -> bool {
        self.shifts@[i + 1] != self.shifts@[i]
    }

    /// Where position `i` lies after compaction: `i` less the reclaimed
    /// slots before it.
    pub open spec fn shifted(&self, i: int) -> int {
        i - self.shifts@[i]
    }

    /// No slot from `start` up to, but not including, `start + count` is
    /// reclaimed.
    pub open spec fn retains(&self, start: int, count: int) -> bool {
        forall|i: int| start <= i < start + count ==> !#[trigger] self.is_reclaimed(i)
    }

    /// The survivors among the first `n` slots of `slab`, in order.
    pub open spec fn survivors<T>(&self, slab: Seq<T>, n: int) -> Seq<T>
        decreases n,
    {
        if n <= 0 {
            Seq::empty()
        } else if self.is_reclaimed(n - 1) {
            self.survivors(slab, n - 1)
        } else {
            self.survivors(slab, n - 1).push(slab[n - 1])
        }
    }

    /// `slab` after compaction.
    pub open spec fn compacted<T>(&self, slab: Seq<T>) -> Seq<T> {
        self.survivors(slab, self.slots())
    }

    /// The list for a slab whose slot `i` survives exactly if `marks[i]`.
    pub fn from_mark_bits(marks: &Vec<bool>) -> (list: Self)
        ensures
            list.is_valid(),
            list.slots() == marks@.len(),
            forall|i: int| 0 <= i < marks@.len() ==> list.is_reclaimed(i) == !marks@[i],
    {
        let mut shifts: Vec<usize> = Vec::new();
        let mut reclaimed: usize = 0;
        shifts.push(reclaimed);
        let mut i: usize = 0;
        while i < marks.len()
            invariant
                i <= marks@.len(),
                shifts@.len() == i + 1,
                shifts@[0] == 0,
                shifts@[i as int] == reclaimed,
                forall|j: int| 0 <= j <= i ==> #[trigger] shifts@[j] <= j,
                forall|j: int|
                    0 <= j < i ==> {
                        ||| #[trigger] shifts@[j + 1] == shifts@[j]
                        ||| shifts@[j + 1] == shifts@[j] + 1
                    },
                forall|j: int| 0 <= j < i ==> (#[trigger] shifts@[j + 1] != shifts@[j])
                    == !marks@[j],
            decreases marks@.len() - i,
        {
            if !marks[i] {
                reclaimed = reclaimed + 1;
            }
            shifts.push(reclaimed);
            i = i + 1;
        }
        CompactionList { shifts }
    }

    /// Number of slots of the slab that the list was made for.
    pub fn len(&self) -> (slots: usize)
        requires
            self.is_valid(),
        ensures
            slots == self.slots(),
    {
        self.shifts.len() - 1
    }

    /// Where position `index` lies after compaction.
    pub fn shift(&self, index: usize) -> (moved: usize)
        requires
            self.is_valid(),
            index <= self.slots(),
        ensures
            moved == self.shifted(index as int),
    {
        index - self.shifts[index]
    }

    /// Moves `index` down by the number of reclaimed slots before it.
    pub fn shift_index(&self, index: &mut usize)
        requires
            self.is_valid(),
            *old(index) <= self.slots(),
        ensures
            *final(index) == self.shifted(*old(index) as int),
    {
        *index = self.shift(*index);
    }

    /// In a run of survivors every slot moves as far as the first: the slot
    /// `k` places after `start` lies `k` places after where `start` went.
    pub proof fn lemma_run_moves_together(&self, start: int, count: int, k: int)
        requires
            self.is_valid(),
            0 <= start,
            start + count <= self.slots(),
            self.retains(start, count),
            0 <= k <= count,
        ensures
            self.shifted(start + k) == self.shifted(start) + k,
        decreases k,
    {
        if k > 0 {
            self.lemma_run_moves_together(start, count, k - 1);
            assert(!self.is_reclaimed(start + k - 1));
        }
    }

    /// Shifting keeps the order of positions.
    pub proof fn lemma_shifted_monotone(&self, i: int, j: int)
        requires
            self.is_valid(),
            0 <= i <= j <= self.slots(),
        ensures
            self.shifted(i) <= self.shifted(j),
        decreases j - i,
    {
        if i < j {
            self.lemma_shifted_monotone(i, j - 1);
            assert(self.shifts@[j - 1 + 1] == self.shifts@[j - 1] || self.shifts@[j - 1 + 1]
                == self.shifts@[j - 1] + 1);
        }
    }

    /// Of the first `n` slots, as many survive as `n` says after shifting.
    pub proof fn lemma_survivors_len<T>(&self, slab: Seq<T>, n: int)
        requires
            self.is_valid(),
            0 <= n <= self.slots(),
        ensures
            self.survivors(slab, n).len() == self.shifted(n),
        decreases n,
    {
        if n > 0 {
            self.lemma_survivors_len(slab, n - 1);
            assert(self.shifts@[n - 1 + 1] == self.shifts@[n - 1] || self.shifts@[n - 1 + 1]
                == self.shifts@[n - 1] + 1);
        }
    }

    /// A surviving slot is found, after compaction, where `shifted` says.
    pub proof fn lemma_survivor_moves<T>(&self, slab: Seq<T>, n: int, i: int)
        requires
            self.is_valid(),
            0 <= i < n <= self.slots(),
            !self.is_reclaimed(i),
        ensures
            0 <= self.shifted(i) < self.survivors(slab, n).len(),
            self.survivors(slab, n)[self.shifted(i)] == slab[i],
        decreases n,
    {
        self.lemma_survivors_len(slab, n - 1);
        self.lemma_survivors_len(slab, n);
        assert(self.shifts@[i] <= i);
        if i < n - 1 {
            self.lemma_survivor_moves(slab, n - 1, i);
        }
    }

    /// Everything in a compacted slab was a survivor: the entry at `place`
    /// stood at a slot that is not reclaimed and that moved to `place`.
    pub proof fn lemma_survivor_origin<T>(&self, slab: Seq<T>, n: int, place: int) -> (slot: int)
        requires
            self.is_valid(),
            0 <= n <= self.slots(),
            0 <= place < self.survivors(slab, n).len(),
        ensures
            0 <= slot < n,
            !self.is_reclaimed(slot),
            self.shifted(slot) == place,
            self.survivors(slab, n)[place] == slab[slot],
        decreases n,
    {
        self.lemma_survivors_len(slab, n);
        self.lemma_survivors_len(slab, n - 1);
        if !self.is_reclaimed(n - 1) && place == self.survivors(slab, n - 1).len() {
            n - 1
        } else {
            self.lemma_survivor_origin(slab, n - 1, place)
        }
    }

    /// Compaction keeps a run of survivors together and in order: what stood
    /// `k` places after `start` stands `k` places after where `start` went.
    pub proof fn lemma_compaction_keeps_run<T>(&self, slab: Seq<T>, start: int, count: int, k: int)
        requires
            self.is_valid(),
            self.slots() == slab.len(),
            0 <= start,
            start + count <= slab.len(),
            self.retains(start, count),
            0 <= k < count,
        ensures
            0 <= self.shifted(start) + k < self.compacted(slab).len(),
            self.compacted(slab)[self.shifted(start) + k] == slab[start + k],
    {
        self.lemma_run_moves_together(start, count, k);
        assert(!self.is_reclaimed(start + k));
        self.lemma_survivor_moves(slab, self.slots(), start + k);
    }
}

/// Drops the reclaimed slots of `slab` and moves the survivors down, in
/// order.
pub fn compact_slab<T>(slab: &mut Vec<Option<T>>, compactions: &CompactionList)
    requires
        compactions.is_valid(),
        compactions.slots() == old(slab)@.len(),
    ensures
        final(slab)@ == compactions.compacted(old(slab)@),
{
    let len: usize = slab.len();
    let mut write: usize = 0;
    let mut read: usize = 0;
    while read < len
        invariant
            read <= len,
            len == old(slab)@.len(),
            slab@.len() == len,
            compactions.is_valid(),
            compactions.slots() == len,
            write == compactions.shifted(read as int),
            slab@.take(write as int) == compactions.survivors(old(slab)@, read as int),
            forall|j: int| read <= j < len ==> slab@[j] == old(slab)@[j],
        decreases len - read,
    {
        assert(compactions.shifts@[read as int] <= read);
        assert(compactions.shifts@[read + 1] == compactions.shifts@[read as int]
            || compactions.shifts@[read + 1] == compactions.shifts@[read as int] + 1);
        if compactions.shifts[read + 1] == compactions.shifts[read] {
            let mut item: Option<T> = None;
            core::mem::swap(&mut slab[read], &mut item);
            slab[write] = item;
            write = write + 1;
            assert(slab@.take(write as int) =~= compactions.survivors(
                old(slab)@,
                read as int,
            ).push(old(slab)@[read as int]));
        } else {
            assert(slab@.take(write as int) =~= compactions.survivors(old(slab)@, read as int));
        }
        read = read + 1;
    }
    slab.truncate(write);
    assert(slab@ =~= compactions.compacted(old(slab)@));
}

/// The compaction lists of all slabs.
pub struct CompactionLists {
    pub objects: CompactionList,
    pub primitive_objects: CompactionList,
    pub builtin_functions: CompactionList,
    pub arrays: CompactionList,
}

impl CompactionLists {
    /// Every list is valid.
    pub open spec fn is_valid(&self) -> bool {
        &&& self.objects.is_valid()
        &&& self.primitive_objects.is_valid()
        &&& self.builtin_functions.is_valid()
        &&& self.arrays.is_valid()
    }
}

} // verus!
