use vstd::prelude::*;

verus! {

/// The matrix is a fixed 3x3 grid; a frame buffer holds one color per cell.
pub const MATRIX_WIDTH: usize = 3;

pub const MATRIX_HEIGHT: usize = 3;

pub const MATRIX_CELLS: usize = 9;

/// A bitmask with one bit per matrix cell.  Bit `i` addresses exactly one
/// cell through the fixed wiring tables below.
#[derive(Clone, Copy, PartialEq, Eq, Structural, Debug)]
pub struct LedPattern {
    pub pattern: u16,
}

impl LedPattern {
    pub fn new(pattern: u16) -> (p: LedPattern)
        ensures
            p.pattern == pattern,
    {
        LedPattern { pattern }
    }

    /// Whether bit `i` of the mask is set.
    pub open spec fn spec_bit(self, i: u16) -> bool {
        self.pattern & (1u16 << i) != 0
    }

    pub fn bit(self, i: u16) -> (b: bool)
        requires
            i < 16,
        ensures
            b == self.spec_bit(i),
    {
        self.pattern & (1u16 << i) != 0
    }
}

/// The wiring of the strip: bit `i` of a mask drives the cell at column
/// `BIT_COLUMN[i]`, row `BIT_ROW[i]` (bit 0 is the first led of the strip).
pub const BIT_COLUMN: [usize; 9] = [0, 0, 0, 1, 1, 1, 2, 2, 2];

pub const BIT_ROW: [usize; 9] = [2, 1, 0, 2, 1, 0, 2, 1, 0];

/// The frame-buffer index that bit `i` addresses: row-major order.
pub open spec fn wired_cell(i: int) -> int {
    BIT_ROW[i] * 3 + BIT_COLUMN[i]
}

pub fn bit_cell(i: usize) -> (c: usize)
    requires
        i < 9,
    ensures
        c as int == wired_cell(i as int),
        c < 9,
{
    BIT_ROW[i] * 3 + BIT_COLUMN[i]
}

/// Distinct mask bits drive distinct cells, and every bit drives a cell of
/// the grid: the wiring tables form a permutation of the frame buffer
/// indices, so no two bits alias the same cell.
pub proof fn lemma_wiring_injective()
    ensures
        forall|i: int| 0 <= i < 9 ==> 0 <= #[trigger] wired_cell(i) < 9,
        forall|i: int, j: int|
            0 <= i < 9 && 0 <= j < 9 && i != j ==> #[trigger] wired_cell(i) != #[trigger] wired_cell(j),
{
    assert(forall|i: int| 0 <= i < 9 ==> 0 <= #[trigger] wired_cell(i) < 9) by {
        assert(wired_cell(0) == 6);
        assert(wired_cell(1) == 3);
        assert(wired_cell(2) == 0);
        assert(wired_cell(3) == 7);
        assert(wired_cell(4) == 4);
        assert(wired_cell(5) == 1);
        assert(wired_cell(6) == 8);
        assert(wired_cell(7) == 5);
        assert(wired_cell(8) == 2);
    }
    assert(forall|i: int, j: int|
        0 <= i < 9 && 0 <= j < 9 && i != j ==> #[trigger] wired_cell(i) != #[trigger] wired_cell(j)) by {
        assert(wired_cell(0) == 6);
        assert(wired_cell(1) == 3);
        assert(wired_cell(2) == 0);
        assert(wired_cell(3) == 7);
        assert(wired_cell(4) == 4);
        assert(wired_cell(5) == 1);
        assert(wired_cell(6) == 8);
        assert(wired_cell(7) == 5);
        assert(wired_cell(8) == 2);
    }
}

/// An ordered, fixed sequence of masks played as successive animation
/// frames; the total cycle duration is supplied at evaluation time.
pub struct AnimationPattern {
    pub frames: Vec<LedPattern>,
}

impl AnimationPattern {
    /// Builds the animation from the raw masks, one frame per entry, in order.
    pub fn new(masks: &Vec<u16>) -> (a: AnimationPattern)
        ensures
            a.frames@.len() == masks@.len(),
            forall|i: int|
                0 <= i < masks@.len() ==> #[trigger] a.frames@[i].pattern == masks@[i],
    {
        let mut frames: Vec<LedPattern> = Vec::new();
        let mut i: usize = 0;
        while i < masks.len()
            invariant
                i <= masks@.len(),
                frames@.len() == i,
                forall|j: int| 0 <= j < i ==> #[trigger] frames@[j].pattern == masks@[j],
            decreases masks@.len() - i,
        {
            frames.push(LedPattern { pattern: masks[i] });
            i = i + 1;
        }
        AnimationPattern { frames }
    }

    pub fn len(&self) -> (n: usize)
        ensures
            n == self.frames@.len(),
    {
        self.frames.len()
    }
}

/// Which animation frame is active at time `t_us` for a looping animation of
/// `k` frames and a total cycle of `cycle_us`: floor((t mod D) / (D / k)),
/// clamped to the last frame.
pub open spec fn spec_frame_index(t_us: u64, cycle_us: u64, k: int) -> int
    recommends
        cycle_us > 0,
        k > 0,
{
    let pos = (t_us as int % cycle_us as int) * k / cycle_us as int;
    if pos >= k {
        k - 1
    } else {
        pos
    }
}

pub fn frame_index(t_us: u64, cycle_us: u64, frame_count: usize) -> (idx: usize)
    requires
        cycle_us > 0,
        frame_count > 0,
    ensures
        idx as int == spec_frame_index(t_us, cycle_us, frame_count as int),
        idx < frame_count,
{
    let rem: u64 = t_us % cycle_us;
    proof {
        assert(rem as int * frame_count as int <= u128::MAX as int) by (nonlinear_arith)
            requires
                rem <= u64::MAX && frame_count <= u64::MAX,
        ;
        assert((rem as int * frame_count as int) / cycle_us as int <= rem as int
            * frame_count as int) by (nonlinear_arith)
            requires
                cycle_us >= 1 && rem >= 0 && frame_count >= 0,
        ;
    }
    let pos: u128 = (rem as u128) * (frame_count as u128) / (cycle_us as u128);
    if pos >= frame_count as u128 {
        frame_count - 1
    } else {
        pos as usize
    }
}

} // verus!
