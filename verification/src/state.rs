//! Register files and condition state of one wavefront.
use vstd::prelude::*;

verus! {

/// Number of addressable scalar registers.
pub const SGPR_COUNT: usize = 105;

/// Number of vector registers of one lane.
pub const VGPR_COUNT: usize = 256;

/// Number of lanes of a wavefront.
pub const LANE_COUNT: usize = 32;

/// The 64-bit value held by two adjacent 32-bit slots, low word first.
pub open spec fn pair_of(words: Seq<u32>, idx: int) -> u64 {
    (words[idx + 1] * 0x1_0000_0000 + words[idx]) as u64
}

/// The low word of a 64-bit value.
pub open spec fn low_word(val: u64) -> u32 {
    (val % 0x1_0000_0000) as u32
}

/// The high word of a 64-bit value.
pub open spec fn high_word(val: u64) -> u32 {
    (val / 0x1_0000_0000) as u32
}

/// `words` after a 64-bit value was stored in the slots `idx` and `idx + 1`.
pub open spec fn with_pair(words: Seq<u32>, idx: int, val: u64) -> Seq<u32> {
    words.update(idx, low_word(val)).update(idx + 1, high_word(val))
}

/// A 64-bit value stored in a register pair is read back from it, and the
/// other registers keep what they held.
pub proof fn lemma_pair_round_trip(words: Seq<u32>, idx: int, val: u64)
    requires
        0 <= idx,
        idx + 1 < words.len(),
    ensures
        pair_of(with_pair(words, idx, val), idx) == val,
        with_pair(words, idx, val).len() == words.len(),
        forall|i: int|
            0 <= i < words.len() && i != idx && i != idx + 1 ==> with_pair(words, idx, val)[i]
                == words[i],
{
}

/// Joins two words into a 64-bit value.
pub fn join_words(lo: u32, hi: u32) -> (r: u64)
    ensures
        r == hi * 0x1_0000_0000 + lo,
        low_word(r) == lo,
        high_word(r) == hi,
{
    (hi as u64) * 0x1_0000_0000 + (lo as u64)
}

/// Splits a 64-bit value into its low and high word.
pub fn split_words(val: u64) -> (r: (u32, u32))
    ensures
        r.0 == low_word(val),
        r.1 == high_word(val),
        val == r.1 * 0x1_0000_0000 + r.0,
{
    ((val % 0x1_0000_0000) as u32, (val / 0x1_0000_0000) as u32)
}

/// 64-bit access to a file of 32-bit registers.
pub trait Register {
    /// The slots that an index without a lane addresses.
    spec fn words(&self) -> Seq<u32>;

    /// Reads the slots `idx` and `idx + 1` as one value, low word first.
    fn read64(&self, idx: usize) -> (r: u64)
        requires
            idx + 1 < self.words().len(),
        ensures
            r == pair_of(self.words(), idx as int),
    ;

    /// Stores `val` in the slots `idx` and `idx + 1`, low word first.
    fn write64(&mut self, idx: usize, val: u64)
        requires
            idx + 1 < old(self).words().len(),
        ensures
            final(self).words() == with_pair(old(self).words(), idx as int, val),
    ;
}

impl Register for [u32; SGPR_COUNT] {
    open spec fn words(&self) -> Seq<u32> {
        self@
    }

    fn read64(&self, idx: usize) -> (r: u64) {
        join_words(self[idx], self[idx + 1])
    }

    fn write64(&mut self, idx: usize, val: u64) {
        let (lo, hi) = split_words(val);
        self[idx] = lo;
        self[idx + 1] = hi;
    }
}

/// The vector register file: `VGPR_COUNT` slots for each of `LANE_COUNT` lanes.
/// An access that names no lane goes to lane 0.
pub struct VGPR {
    pub lanes: [[u32; VGPR_COUNT]; LANE_COUNT],
}

impl View for VGPR {
    type V = Seq<Seq<u32>>;

    open spec fn view(&self) -> Seq<Seq<u32>> {
        Seq::new(LANE_COUNT as nat, |l: int| self.lanes@[l]@)
    }
}

/// A register file with `val` in slot `idx` of lane `lane`.
pub open spec fn with_lane_slot(file: Seq<Seq<u32>>, lane: int, idx: int, val: u32) -> Seq<
    Seq<u32>,
> {
    file.update(lane, file[lane].update(idx, val))
}

/// Whether a sequence has the shape of a vector register file.
pub open spec fn is_vector_file(file: Seq<Seq<u32>>) -> bool {
    &&& file.len() == LANE_COUNT
    &&& forall|l: int| 0 <= l < LANE_COUNT ==> (#[trigger] file[l]).len() == VGPR_COUNT
}

impl VGPR {
    /// A register file with every slot zero.
    pub fn new() -> (r: VGPR)
        ensures
            forall|l: int, i: int|
                0 <= l < LANE_COUNT && 0 <= i < VGPR_COUNT ==> #[trigger] r@[l][i] == 0,
    {
        VGPR { lanes: [[0u32; VGPR_COUNT]; LANE_COUNT] }
    }

    /// The shape of the view never changes.
    pub proof fn lemma_shape(&self)
        ensures
            is_vector_file(self@),
    {
    }

    /// Reads slot `idx` of lane 0.
    pub fn get(&self, idx: usize) -> (r: u32)
        requires
            idx < VGPR_COUNT,
        ensures
            r == self@[0][idx as int],
    {
        self.lanes[0][idx]
    }

    /// Writes slot `idx` of lane 0.
    pub fn set(&mut self, idx: usize, val: u32)
        requires
            idx < VGPR_COUNT,
        ensures
            final(self)@ == with_lane_slot(old(self)@, 0, idx as int, val),
    {
        self.write_lane(0, idx, val);
    }

    /// Reads slot `idx` of the given lane.
    pub fn read_lane(&self, lane: usize, idx: usize) -> (r: u32)
        requires
            lane < LANE_COUNT,
            idx < VGPR_COUNT,
        ensures
            r == self@[lane as int][idx as int],
    {
        self.lanes[lane][idx]
    }

    /// Writes slot `idx` of the given lane.
    pub fn write_lane(&mut self, lane: usize, idx: usize, val: u32)
        requires
            lane < LANE_COUNT,
            idx < VGPR_COUNT,
        ensures
            final(self)@ == with_lane_slot(old(self)@, lane as int, idx as int, val),
    {
        self.lanes[lane][idx] = val;
        assert(self@ =~= with_lane_slot(old(self)@, lane as int, idx as int, val));
    }
}

impl Register for VGPR {
    open spec fn words(&self) -> Seq<u32> {
        self@[0]
    }

    fn read64(&self, idx: usize) -> (r: u64) {
        join_words(self.lanes[0][idx], self.lanes[0][idx + 1])
    }

    fn write64(&mut self, idx: usize, val: u64)
        ensures
            final(self)@ == old(self)@.update(0, with_pair(old(self)@[0], idx as int, val)),
    {
        let (lo, hi) = split_words(val);
        self.lanes[0][idx] = lo;
        self.lanes[0][idx + 1] = hi;
        assert(self@ =~= old(self)@.update(0, with_pair(old(self)@[0], idx as int, val)));
    }
}

/// Assignment of a plain value to a piece of condition state.
pub trait Assign<T> {
    /// What the state holds after `val` was assigned to it.
    spec fn assigned(val: T) -> u32;

    /// The value that the state holds.
    spec fn held(&self) -> u32;

    fn assign(&mut self, val: T)
        ensures
            final(self).held() == Self::assigned(val),
    ;
}

/// The vector condition code of the modelled lane: one bit.
pub struct VCC {
    pub val: u32,
}

impl View for VCC {
    type V = u32;

    open spec fn view(&self) -> u32 {
        self.val
    }
}

/// The lowest bit of a mask: the part that belongs to lane 0.
pub open spec fn lane_bit(val: u32) -> u32 {
    val % 2
}

impl VCC {
    /// A condition code that holds the lowest bit of `val`.
    pub fn from(val: u32) -> (r: VCC)
        ensures
            r@ == lane_bit(val),
    {
        VCC { val: val % 2 }
    }
}

impl core::ops::Deref for VCC {
    type Target = u32;

    fn deref(&self) -> (r: &u32)
        ensures
            *r == self@,
    {
        &self.val
    }
}

impl Assign<u32> for VCC {
    open spec fn assigned(val: u32) -> u32 {
        lane_bit(val)
    }

    open spec fn held(&self) -> u32 {
        self@
    }

    fn assign(&mut self, val: u32) {
        self.val = val % 2;
    }
}

impl Assign<bool> for VCC {
    open spec fn assigned(val: bool) -> u32 {
        if val {
            1
        } else {
            0
        }
    }

    open spec fn held(&self) -> u32 {
        self@
    }

    fn assign(&mut self, val: bool) {
        self.val = if val {
            1
        } else {
            0
        };
    }
}

} // verus!
