use vstd::prelude::*;

use crate::color::{scaled_rgb, scale_rgb, Rgb, GAIN_UNIT};
use crate::pattern::{frame_index, spec_frame_index, AnimationPattern, LedPattern};

verus! {

/// How the base color of a command is chosen: either a constant color, or a
/// hue that advances linearly with time.  Rainbow speed is in thousandths of
/// a turn per second, its phase offset in thousandths of a turn.
pub enum ColorPalette {
    Solid(Rgb),
    Rainbow(u32, u32),
}

/// A time-dependent brightness modulation applied to the base color.
/// `Breathing` is a smooth oscillation between a fixed floor and full
/// brightness; `Blinking` is an on/off square wave.  Rates are in
/// thousandths of a cycle per second.
pub enum FragmentShader {
    Breathing(u32),
    Blinking(u32),
}

/// What a command lights: a constant mask, or one frame of an animation
/// resolved from the time and the cycle duration (in microseconds), played
/// forward or back-to-front.
pub enum RunEffect {
    SimplePattern(LedPattern),
    AnimationPattern(AnimationPattern, u64),
    ReverseAnimationPattern(AnimationPattern, u64),
}

/// One entry of a scene: an effect giving the mask, a palette giving the
/// base color, and an ordered shader chain modulating it.
pub struct RenderCommand {
    pub effect: RunEffect,
    pub color: ColorPalette,
    pub color_shaders: Vec<FragmentShader>,
}

/// The hue circle is split into 1536 positions (6 sectors of 256), the usual
/// integer form of the hue-to-RGB mapping at full saturation and value.
pub const HUE_POSITIONS: u16 = 1536;

/// Where on the hue circle a rainbow palette sits at time `t_us`:
/// fract(t * speed + phase) of a turn, in 1536ths.
pub open spec fn hue_position(t_us: u64, speed_mturns: u32, phase_mturns: u32) -> int {
    ((t_us as int * speed_mturns as int + phase_mturns as int * 1000000) * 1536 / 1000000000)
        % 1536
}

/// The standard hue wheel at full saturation and value: red at position 0,
/// one channel ramping per sector of 256 positions.
pub open spec fn hue_rgb(h: int) -> Rgb
    recommends
        0 <= h < 1536,
{
    let sector = h / 256;
    let f = (h % 256) as u8;
    if sector == 0 {
        Rgb { r: 255, g: f, b: 0 }
    } else if sector == 1 {
        Rgb { r: (255 - f as int) as u8, g: 255, b: 0 }
    } else if sector == 2 {
        Rgb { r: 0, g: 255, b: f }
    } else if sector == 3 {
        Rgb { r: 0, g: (255 - f as int) as u8, b: 255 }
    } else if sector == 4 {
        Rgb { r: f, g: 0, b: 255 }
    } else {
        Rgb { r: 255, g: 0, b: (255 - f as int) as u8 }
    }
}

/// The color a palette yields at time `t_us`.
pub open spec fn palette_rgb(p: ColorPalette, t_us: u64) -> Rgb {
    match p {
        ColorPalette::Solid(c) => c,
        ColorPalette::Rainbow(speed, phase) => hue_rgb(hue_position(t_us, speed, phase)),
    }
}

pub fn hue_color(h: u16) -> (c: Rgb)
    requires
        h < HUE_POSITIONS,
    ensures
        c == hue_rgb(h as int),
{
    let sector: u16 = h / 256;
    let f: u8 = (h % 256) as u8;
    if sector == 0 {
        Rgb { r: 255, g: f, b: 0 }
    } else if sector == 1 {
        Rgb { r: 255 - f, g: 255, b: 0 }
    } else if sector == 2 {
        Rgb { r: 0, g: 255, b: f }
    } else if sector == 3 {
        Rgb { r: 0, g: 255 - f, b: 255 }
    } else if sector == 4 {
        Rgb { r: f, g: 0, b: 255 }
    } else {
        Rgb { r: 255, g: 0, b: 255 - f }
    }
}

pub fn palette_color(p: &ColorPalette, t_us: u64) -> (c: Rgb)
    ensures
        c == palette_rgb(*p, t_us),
{
    match p {
        ColorPalette::Solid(c) => *c,
        ColorPalette::Rainbow(speed, phase) => {
            proof {
                assert(t_us as int * *speed as int <= u64::MAX as int * u32::MAX as int)
                    by (nonlinear_arith)
                    requires
                        t_us <= u64::MAX && *speed <= u32::MAX,
                ;
                assert((u64::MAX as int * u32::MAX as int + u32::MAX as int * 1000000) * 1536
                    <= u128::MAX as int) by (nonlinear_arith);
            }
            let num: u128 = (t_us as u128) * (*speed as u128) + (*phase as u128) * 1000000;
            let h: u16 = ((num * 1536 / 1000000000) % 1536) as u16;
            hue_color(h)
        },
    }
}

/// The lowest brightness factor the breathing oscillation reaches, in
/// thousandths: the oscillation spans this floor up to full brightness.
pub const BREATHING_FLOOR: u16 = 100;

/// The breathing factor at time `t_us`: a triangle wave at `rate` cycles per
/// second between `BREATHING_FLOOR` and `GAIN_UNIT`, in thousandths.
pub open spec fn breathing_factor(t_us: u64, rate_mcycles: u32) -> u16 {
    let pos = (t_us as int * rate_mcycles as int * 2000 / 1000000000) % 2000;
    if pos < 1000 {
        (100 + 900 * pos / 1000) as u16
    } else {
        (100 + 900 * (2000 - pos) / 1000) as u16
    }
}

/// The blinking factor at time `t_us`: full brightness in the first half of
/// each cycle, off in the second.
pub open spec fn blinking_factor(t_us: u64, rate_mcycles: u32) -> u16 {
    let half = (t_us as int * rate_mcycles as int * 2 / 1000000000) % 2;
    if half == 0 {
        1000u16
    } else {
        0u16
    }
}

/// The multiplicative brightness factor a shader contributes at time `t_us`.
pub open spec fn shader_factor(s: FragmentShader, t_us: u64) -> u16 {
    match s {
        FragmentShader::Breathing(rate) => breathing_factor(t_us, rate),
        FragmentShader::Blinking(rate) => blinking_factor(t_us, rate),
    }
}

/// Every shader factor is a gain: it never brightens past full.
pub proof fn lemma_shader_factor_bounded(s: FragmentShader, t_us: u64)
    ensures
        shader_factor(s, t_us) <= GAIN_UNIT,
{
}

/// A shader chain applied to a base color, first shader first; the factors
/// compose multiplicatively, one attenuation per link.
pub open spec fn apply_shaders(shaders: Seq<FragmentShader>, c: Rgb, t_us: u64) -> Rgb
    decreases shaders.len(),
{
    if shaders.len() == 0 {
        c
    } else {
        apply_shaders(shaders.drop_first(), scaled_rgb(c, shader_factor(shaders[0], t_us)), t_us)
    }
}

pub fn shade_color(shaders: &Vec<FragmentShader>, base: Rgb, t_us: u64) -> (c: Rgb)
    ensures
        c == apply_shaders(shaders@, base, t_us),
{
    let mut acc = base;
    let mut i: usize = 0;
    proof {
        assert(shaders@.skip(0) =~= shaders@);
    }
    while i < shaders.len()
        invariant
            i <= shaders@.len(),
            apply_shaders(shaders@, base, t_us) == apply_shaders(shaders@.skip(i as int), acc, t_us),
        decreases shaders@.len() - i,
    {
        let factor = match &shaders[i] {
            FragmentShader::Breathing(rate) => breathing(t_us, *rate),
            FragmentShader::Blinking(rate) => blinking(t_us, *rate),
        };
        proof {
            lemma_shader_factor_bounded(shaders@[i as int], t_us);
            assert(shaders@.skip(i as int)[0] == shaders@[i as int]);
            assert(shaders@.skip(i as int).drop_first() =~= shaders@.skip(i as int + 1));
        }
        acc = scale_rgb(acc, factor);
        i = i + 1;
    }
    proof {
        assert(shaders@.skip(shaders@.len() as int) =~= Seq::<FragmentShader>::empty());
    }
    acc
}

pub fn breathing(t_us: u64, rate_mcycles: u32) -> (factor: u16)
    ensures
        factor == breathing_factor(t_us, rate_mcycles),
        factor <= GAIN_UNIT,
{
    proof {
        assert(t_us as int * rate_mcycles as int * 2000 <= u128::MAX as int) by (nonlinear_arith)
            requires
                t_us <= u64::MAX && rate_mcycles <= u32::MAX,
        ;
    }
    let pos: u128 = ((t_us as u128) * (rate_mcycles as u128) * 2000 / 1000000000) % 2000;
    if pos < 1000 {
        (100 + 900 * (pos as u64) / 1000) as u16
    } else {
        (100 + 900 * (2000 - pos as u64) / 1000) as u16
    }
}

pub fn blinking(t_us: u64, rate_mcycles: u32) -> (factor: u16)
    ensures
        factor == blinking_factor(t_us, rate_mcycles),
        factor <= GAIN_UNIT,
{
    proof {
        assert(t_us as int * rate_mcycles as int * 2 <= u128::MAX as int) by (nonlinear_arith)
            requires
                t_us <= u64::MAX && rate_mcycles <= u32::MAX,
        ;
    }
    let half: u128 = ((t_us as u128) * (rate_mcycles as u128) * 2 / 1000000000) % 2;
    if half == 0 {
        1000
    } else {
        0
    }
}

impl RunEffect {
    /// Animations must have at least one frame and a positive cycle: a zero
    /// cycle would divide by zero when the frame is resolved.
    pub open spec fn wf(self) -> bool {
        match self {
            RunEffect::SimplePattern(_) => true,
            RunEffect::AnimationPattern(a, cycle_us) => a.frames@.len() > 0 && cycle_us > 0,
            RunEffect::ReverseAnimationPattern(a, cycle_us) => a.frames@.len() > 0 && cycle_us > 0,
        }
    }
}

/// The mask an effect lights at time `t_us`: a simple pattern is constant;
/// an animation picks the active frame; a reverse animation indexes the
/// frames back-to-front.
pub open spec fn effect_mask(e: RunEffect, t_us: u64) -> u16
    recommends
        e.wf(),
{
    match e {
        RunEffect::SimplePattern(p) => p.pattern,
        RunEffect::AnimationPattern(a, cycle_us) => a.frames@[spec_frame_index(
            t_us,
            cycle_us,
            a.frames@.len() as int,
        )].pattern,
        RunEffect::ReverseAnimationPattern(a, cycle_us) => a.frames@[a.frames@.len() - 1
            - spec_frame_index(t_us, cycle_us, a.frames@.len() as int)].pattern,
    }
}

pub fn resolve_mask(e: &RunEffect, t_us: u64) -> (m: LedPattern)
    requires
        e.wf(),
    ensures
        m.pattern == effect_mask(*e, t_us),
{
    match e {
        RunEffect::SimplePattern(p) => *p,
        RunEffect::AnimationPattern(a, cycle_us) => {
            let idx = frame_index(t_us, *cycle_us, a.frames.len());
            a.frames[idx]
        },
        RunEffect::ReverseAnimationPattern(a, cycle_us) => {
            let idx = frame_index(t_us, *cycle_us, a.frames.len());
            a.frames[a.frames.len() - 1 - idx]
        },
    }
}

impl RenderCommand {
    /// A command is well formed when its effect is, and its shader chain is
    /// within the small fixed capacity of a scene entry.
    pub open spec fn wf(self) -> bool {
        self.effect.wf() && self.color_shaders@.len() <= 8
    }
}

/// The mask a command lights at time `t_us`.
pub open spec fn command_mask(cmd: RenderCommand, t_us: u64) -> u16
    recommends
        cmd.wf(),
{
    effect_mask(cmd.effect, t_us)
}

/// The color a command paints at time `t_us`: the palette color passed
/// through the shader chain in order.
pub open spec fn command_color(cmd: RenderCommand, t_us: u64) -> Rgb {
    apply_shaders(cmd.color_shaders@, palette_rgb(cmd.color, t_us), t_us)
}

/// Evaluating one command yields the pair (active mask, color).
pub fn eval_command(cmd: &RenderCommand, t_us: u64) -> (r: (LedPattern, Rgb))
    requires
        cmd.wf(),
    ensures
        r.0.pattern == command_mask(*cmd, t_us),
        r.1 == command_color(*cmd, t_us),
{
    let mask = resolve_mask(&cmd.effect, t_us);
    let base = palette_color(&cmd.color, t_us);
    let color = shade_color(&cmd.color_shaders, base, t_us);
    (mask, color)
}

} // verus!
