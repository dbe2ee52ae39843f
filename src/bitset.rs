use vstd::prelude::*;
use crate::error::AcademyError;

verus! {

/// How many slots a [`BitSet`] has.
pub const BITSET_CAPACITY: u32 = 256;

/// Whether bit `b` of `w` is one.
pub open spec fn word_bit(w: u64, b: u64) -> bool {
    (w >> b) & 1u64 == 1u64
}

proof fn lemma_word_bit_or_shift(w: u64, b: u64, c: u64)
    requires
        b < 64,
        c < 64,
    ensures
        word_bit(w | (1u64 << b), c) == (word_bit(w, c) || c == b),
{
    assert(((w | (1u64 << b)) >> c) & 1u64 == 1u64 <==> (((w >> c) & 1u64 == 1u64) || c == b))
        by (bit_vector)
        requires
            b < 64,
            c < 64,
    ;
}

proof fn lemma_word_bit_zero(c: u64)
    requires
        c < 64,
    ensures
        !word_bit(0u64, c),
{
    assert((0u64 >> c) & 1u64 != 1u64) by (bit_vector);
}

/// A fixed set of boolean slots `0..256`, stored as four 64-bit words:
/// slot `i` is bit `i % 64` of word `i / 64`.
#[derive(Clone, Copy, Debug, PartialEq, Eq)]
pub struct BitSet {
    pub words: [u64; 4],
}

impl View for BitSet {
    type V = Set<int>;

    /// The indices whose slot is set.
    open spec fn view(&self) -> Set<int> {
        Set::new(|i: int| self.has(i))
    }
}

impl BitSet {
    pub open spec fn has(&self, i: int) -> bool {
        0 <= i < BITSET_CAPACITY && word_bit(self.words@[i / 64], (i % 64) as u64)
    }

    /// How many of the slots `0..k` are set.
    pub open spec fn count_below(&self, k: nat) -> nat
        decreases k,
    {
        if k == 0 {
            0
        } else {
            self.count_below((k - 1) as nat) + if self.has(k - 1) { 1nat } else { 0nat }
        }
    }

    /// A set with no slot set.
    pub fn new() -> (r: BitSet)
        ensures
            r@ == Set::<int>::empty(),
    {
        let r = BitSet { words: [0u64; 4] };
        assert forall|i: int| !r.has(i) by {
            if 0 <= i < BITSET_CAPACITY {
                lemma_word_bit_zero((i % 64) as u64);
            }
        }
        assert(r@ =~= Set::<int>::empty());
        r
    }

    /// Whether slot `i` is set; false for any index beyond the capacity.
    pub fn is_set(&self, i: u32) -> (r: bool)
        ensures
            r == self@.contains(i as int),
    {
        if i >= BITSET_CAPACITY {
            return false;
        }
        let w = self.words[(i / 64) as usize];
        (w >> ((i % 64) as u64)) & 1u64 == 1u64
    }

    /// Sets slot `i`; fails, changing nothing, when `i` is beyond the capacity.
    pub fn set(&mut self, i: u32) -> (r: Result<(), AcademyError>)
        ensures
            i < BITSET_CAPACITY ==> r is Ok && final(self)@ == old(self)@.insert(i as int),
            i >= BITSET_CAPACITY ==> r == Err::<(), AcademyError>(AcademyError::LessonOutOfBounds)
                && *final(self) == *old(self),
    {
        if i >= BITSET_CAPACITY {
            return Err(AcademyError::LessonOutOfBounds);
        }
        let ghost before = *self;
        let wi = (i / 64) as usize;
        let b = (i % 64) as u64;
        let nw = self.words[wi] | (1u64 << b);
        self.words[wi] = nw;
        assert forall|j: int| #[trigger] self@.contains(j) == before@.insert(i as int).contains(j) by {
            if 0 <= j < BITSET_CAPACITY {
                if j / 64 == wi as int {
                    lemma_word_bit_or_shift(before.words@[wi as int], b, (j % 64) as u64);
                }
            }
        }
        assert(self@ =~= before@.insert(i as int));
        Ok(())
    }

    /// The number of set slots.
    pub fn count_set(&self) -> (r: u32)
        ensures
            r == self.count_below(BITSET_CAPACITY as nat),
    {
        let mut count: u32 = 0;
        let mut i: u32 = 0;
        while i < BITSET_CAPACITY
            invariant
                i <= BITSET_CAPACITY,
                count == self.count_below(i as nat),
                count <= i,
            decreases BITSET_CAPACITY - i,
        {
            if self.is_set(i) {
                count = count + 1;
            }
            i = i + 1;
        }
        count
    }

    /// Whether every slot `0..expected` is set.
    pub fn is_full(&self, expected: u32) -> (r: bool)
        ensures
            r == (forall|i: int| 0 <= i < expected ==> #[trigger] self@.contains(i)),
    {
        if expected > BITSET_CAPACITY {
            assert(!self@.contains(BITSET_CAPACITY as int));
            return false;
        }
        let mut i: u32 = 0;
        while i < expected
            invariant
                i <= expected <= BITSET_CAPACITY,
                forall|j: int| 0 <= j < i ==> #[trigger] self@.contains(j),
            decreases expected - i,
        {
            if !self.is_set(i) {
                return false;
            }
            i = i + 1;
        }
        true
    }
}

} // verus!
