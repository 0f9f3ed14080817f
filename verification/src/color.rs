use vstd::prelude::*;

verus! {

/// An RGB color with 8-bit channels, the value a frame buffer cell holds.
#[derive(Clone, Copy, PartialEq, Eq, Structural, Debug)]
pub struct Rgb {
    pub r: u8,
    pub g: u8,
    pub b: u8,
}

impl Rgb {
    /// The color every cell is reset to by a clear.
    pub open spec fn black() -> Rgb {
        Rgb { r: 0, g: 0, b: 0 }
    }

    pub fn new(r: u8, g: u8, b: u8) -> (c: Rgb)
        ensures
            c == (Rgb { r, g, b }),
    {
        Rgb { r, g, b }
    }
}

/// Gains are scalars in [0, 1] held in fixed point as thousandths,
/// so `GAIN_UNIT` stands for 1.0.
pub const GAIN_UNIT: u16 = 1000;

/// The fixed perceptual-correction lookup table: 256 entries, monotonically
/// non-decreasing, mapping raw 0-255 intensity to corrected 0-255 intensity.
pub const GAMMA_LUT: [u8; 256] = [
    0, 0, 0, 0, 0, 0, 0, 0, 0, 0, 0, 0, 0, 0, 0, 0,
    0, 0, 0, 0, 0, 0, 0, 0, 0, 0, 0, 0, 1, 1, 1, 1,
    1, 1, 1, 1, 1, 1, 1, 1, 1, 2, 2, 2, 2, 2, 2, 2,
    2, 3, 3, 3, 3, 3, 3, 3, 4, 4, 4, 4, 4, 5, 5, 5,
    5, 6, 6, 6, 6, 7, 7, 7, 7, 8, 8, 8, 9, 9, 9, 10,
    10, 10, 11, 11, 11, 12, 12, 13, 13, 13, 14, 14, 15, 15, 16, 16,
    17, 17, 18, 18, 19, 19, 20, 20, 21, 21, 22, 22, 23, 24, 24, 25,
    25, 26, 27, 27, 28, 29, 29, 30, 31, 32, 32, 33, 34, 35, 35, 36,
    37, 38, 39, 39, 40, 41, 42, 43, 44, 45, 46, 47, 48, 49, 50, 50,
    51, 52, 54, 55, 56, 57, 58, 59, 60, 61, 62, 63, 64, 66, 67, 68,
    69, 70, 72, 73, 74, 75, 77, 78, 79, 81, 82, 83, 85, 86, 87, 89,
    90, 92, 93, 95, 96, 98, 99, 101, 102, 104, 105, 107, 109, 110, 112, 114,
    115, 117, 119, 120, 122, 124, 126, 127, 129, 131, 133, 135, 137, 138, 140, 142,
    144, 146, 148, 150, 152, 154, 156, 158, 160, 162, 164, 167, 169, 171, 173, 175,
    177, 180, 182, 184, 186, 189, 191, 193, 196, 198, 200, 203, 205, 208, 210, 213,
    215, 218, 220, 223, 225, 228, 231, 233, 236, 239, 241, 244, 247, 249, 252, 255,
];

/// One channel attenuated by a gain: floor(v * gain / 1000).
pub open spec fn scaled(v: u8, gain: u16) -> u8 {
    ((v as int * gain as int) / 1000) as u8
}

/// A whole color attenuated by a gain, channel-wise.
pub open spec fn scaled_rgb(c: Rgb, gain: u16) -> Rgb {
    Rgb { r: scaled(c.r, gain), g: scaled(c.g, gain), b: scaled(c.b, gain) }
}

pub open spec fn gamma_of(v: u8) -> u8 {
    GAMMA_LUT[v as int]
}

/// One channel through the full correction pipeline, in this fixed order:
/// corrected gain first, then the gamma table, then the raw (thermal) gain.
pub open spec fn corrected_channel(v: u8, corrected_gain: u16, raw_gain: u16) -> u8 {
    scaled(gamma_of(scaled(v, corrected_gain)), raw_gain)
}

/// A whole color through the correction pipeline, channel-wise.
pub open spec fn corrected_rgb(c: Rgb, corrected_gain: u16, raw_gain: u16) -> Rgb {
    Rgb {
        r: corrected_channel(c.r, corrected_gain, raw_gain),
        g: corrected_channel(c.g, corrected_gain, raw_gain),
        b: corrected_channel(c.b, corrected_gain, raw_gain),
    }
}

proof fn lemma_scaled_fits(v: u8, gain: u16)
    requires
        gain <= GAIN_UNIT,
    ensures
        0 <= v as int * gain as int / 1000 <= 255,
{
    assert(v as int * gain as int <= 255 * 1000) by (nonlinear_arith)
        requires
            v <= 255 && gain <= 1000,
    ;
}

pub fn scale_channel(v: u8, gain: u16) -> (r: u8)
    requires
        gain <= GAIN_UNIT,
    ensures
        r == scaled(v, gain),
{
    proof {
        lemma_scaled_fits(v, gain);
    }
    ((v as u32 * gain as u32) / 1000) as u8
}

pub fn scale_rgb(c: Rgb, gain: u16) -> (r: Rgb)
    requires
        gain <= GAIN_UNIT,
    ensures
        r == scaled_rgb(c, gain),
{
    Rgb { r: scale_channel(c.r, gain), g: scale_channel(c.g, gain), b: scale_channel(c.b, gain) }
}

pub fn gamma(v: u8) -> (r: u8)
    ensures
        r == gamma_of(v),
{
    GAMMA_LUT[v as usize]
}

/// The correction pipeline applied to a color: corrected gain, gamma, raw gain.
pub fn correct_color(c: Rgb, corrected_gain: u16, raw_gain: u16) -> (r: Rgb)
    requires
        corrected_gain <= GAIN_UNIT,
        raw_gain <= GAIN_UNIT,
    ensures
        r == corrected_rgb(c, corrected_gain, raw_gain),
{
    let after_gain = scale_rgb(c, corrected_gain);
    let after_gamma = Rgb { r: gamma(after_gain.r), g: gamma(after_gain.g), b: gamma(after_gain.b) };
    scale_rgb(after_gamma, raw_gain)
}

/// The correction table never maps a brighter input to a darker output:
/// it is monotonically non-decreasing over its whole range.
pub proof fn lemma_gamma_monotone(a: u8, b: u8)
    requires
        a <= b,
    ensures
        gamma_of(a) <= gamma_of(b),
{
}

/// The pipeline applies the raw gain after the gamma table, never before:
/// on every channel the result is exactly gamma(v * g1) * g2.
pub proof fn lemma_correction_order(c: Rgb, corrected_gain: u16, raw_gain: u16)
    ensures
        corrected_rgb(c, corrected_gain, raw_gain).r == scaled(
            gamma_of(scaled(c.r, corrected_gain)),
            raw_gain,
        ),
        corrected_rgb(c, corrected_gain, raw_gain).g == scaled(
            gamma_of(scaled(c.g, corrected_gain)),
            raw_gain,
        ),
        corrected_rgb(c, corrected_gain, raw_gain).b == scaled(
            gamma_of(scaled(c.b, corrected_gain)),
            raw_gain,
        ),
{
}

/// The order of the pipeline stages matters: applying both gains before the
/// gamma table gives a different color for some inputs, because the table is
/// not linear.  Witness: full white at full corrected gain and half raw gain.
pub proof fn lemma_correction_order_matters()
    ensures
        exists|v: u8, g1: u16, g2: u16|
            g1 <= GAIN_UNIT && g2 <= GAIN_UNIT && corrected_channel(v, g1, g2) != gamma_of(
                scaled(scaled(v, g1), g2),
            ),
{
    assert(scaled(255u8, 1000u16) == 255u8);
    assert(gamma_of(255u8) == 255u8);
    assert(scaled(255u8, 500u16) == 127u8);
    assert(gamma_of(127u8) == 36u8);
    assert(corrected_channel(255u8, 1000u16, 500u16) == 127u8);
    assert(gamma_of(scaled(scaled(255u8, 1000u16), 500u16)) == 36u8);
}

} // verus!
