use vstd::prelude::*;

use crate::color::{correct_color, corrected_rgb, Rgb, GAIN_UNIT};
use crate::pattern::{wired_cell, LedPattern, BIT_COLUMN, BIT_ROW, MATRIX_CELLS, MATRIX_HEIGHT, MATRIX_WIDTH};

verus! {

/// Whether one of the first `n` bits of the mask is set and drives cell `c`.
pub open spec fn covered_upto(p: LedPattern, c: int, n: u16) -> bool {
    exists|i: u16| i < n && #[trigger] p.spec_bit(i) && wired_cell(i as int) == c
}

/// Whether some set bit of the mask drives cell `c`.
pub open spec fn mask_covers(p: LedPattern, c: int) -> bool {
    covered_upto(p, c, 9)
}

/// The frame buffer (one color per cell, row-major) together with the two
/// gain scalars of the correction pipeline: the perceptual, user-facing
/// corrected gain and the thermal, post-gamma raw gain.
pub struct LedMatrix {
    framebuffer: Vec<Rgb>,
    corrected_gain: u16,
    raw_gain: u16,
}

impl LedMatrix {
    /// The frame buffer always has one cell per matrix position, and both
    /// gains stay in [0, 1].
    pub closed spec fn wf(self) -> bool {
        self.framebuffer@.len() == MATRIX_CELLS && self.corrected_gain <= GAIN_UNIT
            && self.raw_gain <= GAIN_UNIT
    }

    pub closed spec fn fb(self) -> Seq<Rgb> {
        self.framebuffer@
    }

    pub closed spec fn spec_corrected_gain(self) -> u16 {
        self.corrected_gain
    }

    pub closed spec fn spec_raw_gain(self) -> u16 {
        self.raw_gain
    }

    /// What well-formedness gives every caller: a full frame buffer and
    /// gains within [0, 1].
    pub proof fn lemma_wf(self)
        requires
            self.wf(),
        ensures
            self.fb().len() == MATRIX_CELLS,
            self.spec_corrected_gain() <= GAIN_UNIT,
            self.spec_raw_gain() <= GAIN_UNIT,
    {
    }

    /// A fresh matrix: all black, corrected gain at half, raw gain at full.
    pub fn new() -> (m: LedMatrix)
        ensures
            m.wf(),
            m.fb().len() == MATRIX_CELLS,
            forall|c: int| 0 <= c < MATRIX_CELLS ==> m.fb()[c] == Rgb::black(),
            m.spec_corrected_gain() == 500,
            m.spec_raw_gain() == GAIN_UNIT,
    {
        let mut framebuffer: Vec<Rgb> = Vec::new();
        let mut i: usize = 0;
        while i < MATRIX_CELLS
            invariant
                i <= MATRIX_CELLS,
                framebuffer@.len() == i,
                forall|c: int| 0 <= c < i ==> framebuffer@[c] == Rgb::black(),
            decreases MATRIX_CELLS - i,
        {
            framebuffer.push(Rgb { r: 0, g: 0, b: 0 });
            i = i + 1;
        }
        LedMatrix { framebuffer, corrected_gain: 500, raw_gain: GAIN_UNIT }
    }

    /// Sets the perceptual gain; the frame buffer and the raw gain are
    /// untouched.  Callers keep the gain in [0, 1].
    pub fn set_gain(&mut self, gain: u16)
        requires
            old(self).wf(),
            gain <= GAIN_UNIT,
        ensures
            final(self).wf(),
            final(self).fb() == old(self).fb(),
            final(self).spec_corrected_gain() == gain,
            final(self).spec_raw_gain() == old(self).spec_raw_gain(),
    {
        self.corrected_gain = gain;
    }

    /// Sets the thermal gain; the frame buffer and the corrected gain are
    /// untouched.  Callers keep the gain in [0, 1].
    pub fn set_raw_gain(&mut self, gain: u16)
        requires
            old(self).wf(),
            gain <= GAIN_UNIT,
        ensures
            final(self).wf(),
            final(self).fb() == old(self).fb(),
            final(self).spec_corrected_gain() == old(self).spec_corrected_gain(),
            final(self).spec_raw_gain() == gain,
    {
        self.raw_gain = gain;
    }

    pub fn corrected_gain(&self) -> (g: u16)
        ensures
            g == self.spec_corrected_gain(),
    {
        self.corrected_gain
    }

    pub fn raw_gain(&self) -> (g: u16)
        ensures
            g == self.spec_raw_gain(),
    {
        self.raw_gain
    }

    /// The finished frame, one color per cell in wiring order, for the
    /// hand-off to the output sink.
    pub fn frame(&self) -> (f: &Vec<Rgb>)
        ensures
            f@ == self.fb(),
    {
        &self.framebuffer
    }

    /// Writes one cell as it is, without correction; a write outside the
    /// matrix bounds is silently ignored.
    pub fn set_pixel(&mut self, x: usize, y: usize, rgb: Rgb)
        requires
            old(self).wf(),
        ensures
            final(self).wf(),
            x < MATRIX_WIDTH && y < MATRIX_HEIGHT ==> final(self).fb() == old(self).fb().update(
                y * 3 + x,
                rgb,
            ),
            !(x < MATRIX_WIDTH && y < MATRIX_HEIGHT) ==> final(self).fb() == old(self).fb(),
            final(self).spec_corrected_gain() == old(self).spec_corrected_gain(),
            final(self).spec_raw_gain() == old(self).spec_raw_gain(),
    {
        if x < MATRIX_WIDTH && y < MATRIX_HEIGHT {
            self.framebuffer[y * MATRIX_WIDTH + x] = rgb;
        }
    }

    /// Writes every cell to the same color, without correction.
    pub fn set_all(&mut self, rgb: Rgb)
        requires
            old(self).wf(),
        ensures
            final(self).wf(),
            final(self).fb().len() == MATRIX_CELLS,
            forall|c: int| 0 <= c < MATRIX_CELLS ==> final(self).fb()[c] == rgb,
            final(self).spec_corrected_gain() == old(self).spec_corrected_gain(),
            final(self).spec_raw_gain() == old(self).spec_raw_gain(),
    {
        let mut i: usize = 0;
        while i < MATRIX_CELLS
            invariant
                old(self).wf(),
                self.wf(),
                i <= MATRIX_CELLS,
                forall|c: int| 0 <= c < i ==> #[trigger] self.framebuffer@[c] == rgb,
                self.spec_corrected_gain() == old(self).spec_corrected_gain(),
                self.spec_raw_gain() == old(self).spec_raw_gain(),
            decreases MATRIX_CELLS - i,
        {
            self.framebuffer[i] = rgb;
            i = i + 1;
        }
    }

    /// Resets every cell to black; the gain scalars are untouched.
    pub fn clear(&mut self)
        requires
            old(self).wf(),
        ensures
            final(self).wf(),
            final(self).fb().len() == MATRIX_CELLS,
            forall|c: int| 0 <= c < MATRIX_CELLS ==> final(self).fb()[c] == Rgb::black(),
            final(self).spec_corrected_gain() == old(self).spec_corrected_gain(),
            final(self).spec_raw_gain() == old(self).spec_raw_gain(),
    {
        self.set_all(Rgb { r: 0, g: 0, b: 0 });
    }

    /// Paints a mask: the color goes once through the correction pipeline,
    /// then lands in exactly the cells the mask's set bits drive; every other
    /// cell keeps its value.
    pub fn render(&mut self, pattern: &LedPattern, colour: Rgb)
        requires
            old(self).wf(),
        ensures
            final(self).wf(),
            forall|c: int|
                0 <= c < MATRIX_CELLS ==> final(self).fb()[c] == if mask_covers(*pattern, c) {
                    corrected_rgb(
                        colour,
                        old(self).spec_corrected_gain(),
                        old(self).spec_raw_gain(),
                    )
                } else {
                    old(self).fb()[c]
                },
            final(self).spec_corrected_gain() == old(self).spec_corrected_gain(),
            final(self).spec_raw_gain() == old(self).spec_raw_gain(),
    {
        let col = correct_color(colour, self.corrected_gain, self.raw_gain);
        let mut i: u16 = 0;
        while i < 9
            invariant
                old(self).wf(),
                self.wf(),
                i <= 9,
                col == corrected_rgb(
                    colour,
                    old(self).spec_corrected_gain(),
                    old(self).spec_raw_gain(),
                ),
                forall|c: int|
                    0 <= c < MATRIX_CELLS ==> self.fb()[c] == if covered_upto(*pattern, c, i) {
                        col
                    } else {
                        old(self).fb()[c]
                    },
                self.spec_corrected_gain() == old(self).spec_corrected_gain(),
                self.spec_raw_gain() == old(self).spec_raw_gain(),
            decreases 9 - i,
        {
            if pattern.bit(i) {
                let idx: usize = i as usize;
                let x = BIT_COLUMN[idx];
                let y = BIT_ROW[idx];
                proof {
                    assert(y * 3 + x == wired_cell(i as int));
                    assert(0 <= wired_cell(i as int) < 9);
                }
                self.set_pixel(x, y, col);
                proof {
                    assert forall|c: int| 0 <= c < MATRIX_CELLS implies self.fb()[c]
                        == if covered_upto(*pattern, c, (i + 1) as u16) {
                        col
                    } else {
                        old(self).fb()[c]
                    } by {
                        if c == wired_cell(i as int) {
                            assert(pattern.spec_bit(i) && wired_cell(i as int) == c);
                            assert(covered_upto(*pattern, c, (i + 1) as u16));
                        } else {
                            assert(covered_upto(*pattern, c, (i + 1) as u16) <==> covered_upto(
                                *pattern,
                                c,
                                i,
                            )) by {
                                if covered_upto(*pattern, c, (i + 1) as u16) {
                                    let j = choose|j: u16|
                                        j < i + 1 && #[trigger] pattern.spec_bit(j) && wired_cell(
                                            j as int,
                                        ) == c;
                                    assert(j != i);
                                    assert(j < i && pattern.spec_bit(j) && wired_cell(j as int)
                                        == c);
                                }
                            }
                        }
                    }
                }
            } else {
                proof {
                    assert forall|c: int| 0 <= c < MATRIX_CELLS implies (covered_upto(
                        *pattern,
                        c,
                        (i + 1) as u16,
                    ) <==> covered_upto(*pattern, c, i)) by {
                        if covered_upto(*pattern, c, (i + 1) as u16) {
                            let j = choose|j: u16|
                                j < i + 1 && #[trigger] pattern.spec_bit(j) && wired_cell(j as int)
                                    == c;
                            assert(j != i);
                            assert(j < i && pattern.spec_bit(j) && wired_cell(j as int) == c);
                        }
                    }
                }
            }
            i = i + 1;
        }
    }
}

} // verus!
