use vstd::prelude::*;

use crate::color::{Rgb, GAIN_UNIT};
use crate::effects::{ColorPalette, FragmentShader, RenderCommand, RunEffect};
use crate::events::ControlEvent;
use crate::matrix::LedMatrix;
use crate::pattern::{AnimationPattern, LedPattern};

verus! {

/// The four discrete brightness levels a long press cycles through, as
/// corrected gains in thousandths: full, then three steps down.
pub const BRIGHTNESS_LEVELS: [u16; 4] = [1000, 700, 500, 250];

/// The indicator mask shown for each brightness level: all nine cells at
/// full power, then six, three, one.
pub const POWER_MASKS: [u16; 4] = [0b111111111, 0b000111111, 0b000000111, 0b000000001];

/// The glider figure used by the built-in scenes.
pub const GLIDER_MASK: u16 = 0b010001111;

/// Every cell lit.
pub const ALL_ON_MASK: u16 = 0b111111111;

pub fn gain_level(gain_id: usize) -> (g: u16)
    requires
        gain_id < 4,
    ensures
        g == BRIGHTNESS_LEVELS[gain_id as int],
        g <= GAIN_UNIT,
{
    BRIGHTNESS_LEVELS[gain_id]
}

pub fn power_pattern(gain_id: usize) -> (p: LedPattern)
    requires
        gain_id < 4,
    ensures
        p.pattern == POWER_MASKS[gain_id as int],
{
    LedPattern { pattern: POWER_MASKS[gain_id] }
}

pub fn glider() -> (p: LedPattern)
    ensures
        p.pattern == GLIDER_MASK,
{
    LedPattern { pattern: GLIDER_MASK }
}

pub fn all_on() -> (p: LedPattern)
    ensures
        p.pattern == ALL_ON_MASK,
{
    LedPattern { pattern: ALL_ON_MASK }
}

/// The masks of the sweep animation: each frame lights exactly one cell,
/// walking the strip from the highest mask bit down to the lowest.
pub open spec fn sweep_masks() -> Seq<u16> {
    seq![
        0b100000000u16,
        0b010000000u16,
        0b001000000u16,
        0b000100000u16,
        0b000010000u16,
        0b000001000u16,
        0b000000100u16,
        0b000000010u16,
        0b000000001u16,
    ]
}

/// Whether an animation is the nine-frame sweep.
pub open spec fn is_sweep_animation(a: AnimationPattern) -> bool {
    a.frames@.len() == 9 && forall|k: int|
        0 <= k < 9 ==> #[trigger] a.frames@[k].pattern == sweep_masks()[k]
}

/// Builds the sweep animation: nine frames, one lit cell each.
pub fn sweep_animation() -> (a: AnimationPattern)
    ensures
        is_sweep_animation(a),
{
    let mut masks: Vec<u16> = Vec::new();
    masks.push(0b100000000);
    masks.push(0b010000000);
    masks.push(0b001000000);
    masks.push(0b000100000);
    masks.push(0b000010000);
    masks.push(0b000001000);
    masks.push(0b000000100);
    masks.push(0b000000010);
    masks.push(0b000000001);
    proof {
        assert(masks@ =~= sweep_masks());
    }
    AnimationPattern::new(&masks)
}

/// The render state the main loop owns: which scene is active and which of
/// the four brightness levels is selected.
pub struct RenderState {
    pub scene_id: usize,
    pub gain_id: usize,
}

impl RenderState {
    /// The indices stay within the scene list and the brightness table.
    pub open spec fn wf(self, scene_count: int) -> bool {
        self.scene_id < scene_count && self.gain_id < 4
    }

    pub fn new() -> (s: RenderState)
        ensures
            s.scene_id == 0,
            s.gain_id == 0,
    {
        RenderState { scene_id: 0, gain_id: 0 }
    }

    /// Applies one consumed control event, exactly as the main loop does: a
    /// thermal throttle sets the raw gain and nothing else; a remote command
    /// is an extension point and changes nothing; a short press advances the
    /// scene; a long press advances the brightness level, applies it, and
    /// asks the caller to show the matching power indicator for a moment.
    pub fn apply_event(
        &mut self,
        mtrx: &mut LedMatrix,
        ev: ControlEvent,
        scene_count: usize,
    ) -> (indicator: Option<LedPattern>)
        requires
            scene_count > 0,
            old(self).wf(scene_count as int),
            old(mtrx).wf(),
            ev.wf(),
        ensures
            final(self).wf(scene_count as int),
            final(mtrx).wf(),
            final(mtrx).fb() == old(mtrx).fb(),
            ev matches ControlEvent::ThermalThrottle(g) ==> *final(self) == *old(self)
                && indicator is None && final(mtrx).spec_raw_gain() == g
                && final(mtrx).spec_corrected_gain() == old(mtrx).spec_corrected_gain(),
            ev is RemoteCommand ==> *final(self) == *old(self) && indicator is None && *final(mtrx)
                == *old(mtrx),
            ev is ShortPress ==> final(self).scene_id == (old(self).scene_id + 1) % (
            scene_count as int) && final(self).gain_id == old(self).gain_id && indicator is None
                && *final(mtrx) == *old(mtrx),
            ev is LongPress ==> final(self).scene_id == old(self).scene_id && final(self).gain_id
                == (old(self).gain_id + 1) % 4 && final(mtrx).spec_corrected_gain()
                == BRIGHTNESS_LEVELS[final(self).gain_id as int] && final(mtrx).spec_raw_gain()
                == old(mtrx).spec_raw_gain() && indicator == Some(
                LedPattern { pattern: POWER_MASKS[final(self).gain_id as int] },
            ),
    {
        match ev {
            ControlEvent::ThermalThrottle(gain) => {
                mtrx.set_raw_gain(gain);
                None
            },
            ControlEvent::RemoteCommand(_) => None,
            ControlEvent::ShortPress => {
                self.scene_id = (self.scene_id + 1) % scene_count;
                None
            },
            ControlEvent::LongPress => {
                self.gain_id = (self.gain_id + 1) % 4;
                let g = gain_level(self.gain_id);
                mtrx.set_gain(g);
                Some(power_pattern(self.gain_id))
            },
        }
    }
}

/// Whether every command of a scene is well formed.
pub open spec fn scene_wf(scene: Seq<RenderCommand>) -> bool {
    forall|j: int| 0 <= j < scene.len() ==> (#[trigger] scene[j]).wf()
}

/// The indicator scene a long press shows: the power mask at full white,
/// with no shaders.
pub fn indicator_scene(p: LedPattern) -> (scene: Vec<RenderCommand>)
    ensures
        scene@.len() == 1,
        scene_wf(scene@),
        scene@[0].effect == RunEffect::SimplePattern(p),
        scene@[0].color == ColorPalette::Solid(Rgb { r: 255, g: 255, b: 255 }),
        scene@[0].color_shaders@.len() == 0,
{
    let mut scene: Vec<RenderCommand> = Vec::new();
    scene.push(
        RenderCommand {
            effect: RunEffect::SimplePattern(p),
            color: ColorPalette::Solid(Rgb { r: 255, g: 255, b: 255 }),
            color_shaders: Vec::new(),
        },
    );
    scene
}

/// The three built-in scenes, in selection order: the strobing, breathing
/// glider; the breathing glider under two counter-rotating rainbow sweeps;
/// and the glider over a full rainbow wash.
pub fn default_scenes() -> (scenes: Vec<Vec<RenderCommand>>)
    ensures
        scenes@.len() == 3,
        forall|s: int| 0 <= s < 3 ==> scene_wf(#[trigger] scenes@[s]@),
        forall|s: int| 0 <= s < 3 ==> (#[trigger] scenes@[s]@).len() > 0,
        scenes@[0]@.len() == 1,
        scenes@[0]@[0].effect == RunEffect::SimplePattern(LedPattern { pattern: GLIDER_MASK }),
        scenes@[0]@[0].color == ColorPalette::Solid(Rgb { r: 0, g: 0, b: 255 }),
        scenes@[0]@[0].color_shaders@ == seq![
            FragmentShader::Breathing(700u32),
            FragmentShader::Blinking(10000u32),
        ],
        scenes@[1]@.len() == 3,
        scenes@[1]@[0].effect == RunEffect::SimplePattern(LedPattern { pattern: GLIDER_MASK }),
        scenes@[1]@[0].color == ColorPalette::Solid(Rgb { r: 0, g: 0, b: 255 }),
        scenes@[1]@[0].color_shaders@ == seq![FragmentShader::Breathing(700u32)],
        (scenes@[1]@[1].effect matches RunEffect::AnimationPattern(a, cycle) && is_sweep_animation(
            a,
        ) && cycle == 6000000),
        scenes@[1]@[1].color == ColorPalette::Rainbow(250, 0),
        scenes@[1]@[1].color_shaders@.len() == 0,
        (scenes@[1]@[2].effect matches RunEffect::ReverseAnimationPattern(a, cycle)
            && is_sweep_animation(a) && cycle == 6000000),
        scenes@[1]@[2].color == ColorPalette::Rainbow(250, 500),
        scenes@[1]@[2].color_shaders@.len() == 0,
        scenes@[2]@.len() == 2,
        scenes@[2]@[0].effect == RunEffect::SimplePattern(LedPattern { pattern: ALL_ON_MASK }),
        scenes@[2]@[0].color == ColorPalette::Rainbow(250, 0),
        scenes@[2]@[0].color_shaders@.len() == 0,
        scenes@[2]@[1].effect == RunEffect::SimplePattern(LedPattern { pattern: GLIDER_MASK }),
        scenes@[2]@[1].color == ColorPalette::Rainbow(250, 500),
        scenes@[2]@[1].color_shaders@.len() == 0,
{
    let mut strobing_shaders: Vec<FragmentShader> = Vec::new();
    strobing_shaders.push(FragmentShader::Breathing(700));
    strobing_shaders.push(FragmentShader::Blinking(10000));
    proof {
        assert(strobing_shaders@ =~= seq![
            FragmentShader::Breathing(700u32),
            FragmentShader::Blinking(10000u32),
        ]);
    }
    let mut scene0: Vec<RenderCommand> = Vec::new();
    scene0.push(
        RenderCommand {
            effect: RunEffect::SimplePattern(glider()),
            color: ColorPalette::Solid(Rgb { r: 0, g: 0, b: 255 }),
            color_shaders: strobing_shaders,
        },
    );

    let mut breathing_shaders: Vec<FragmentShader> = Vec::new();
    breathing_shaders.push(FragmentShader::Breathing(700));
    proof {
        assert(breathing_shaders@ =~= seq![FragmentShader::Breathing(700u32)]);
    }
    let mut scene1: Vec<RenderCommand> = Vec::new();
    scene1.push(
        RenderCommand {
            effect: RunEffect::SimplePattern(glider()),
            color: ColorPalette::Solid(Rgb { r: 0, g: 0, b: 255 }),
            color_shaders: breathing_shaders,
        },
    );
    scene1.push(
        RenderCommand {
            effect: RunEffect::AnimationPattern(sweep_animation(), 6000000),
            color: ColorPalette::Rainbow(250, 0),
            color_shaders: Vec::new(),
        },
    );
    scene1.push(
        RenderCommand {
            effect: RunEffect::ReverseAnimationPattern(sweep_animation(), 6000000),
            color: ColorPalette::Rainbow(250, 500),
            color_shaders: Vec::new(),
        },
    );

    let mut scene2: Vec<RenderCommand> = Vec::new();
    scene2.push(
        RenderCommand {
            effect: RunEffect::SimplePattern(all_on()),
            color: ColorPalette::Rainbow(250, 0),
            color_shaders: Vec::new(),
        },
    );
    scene2.push(
        RenderCommand {
            effect: RunEffect::SimplePattern(glider()),
            color: ColorPalette::Rainbow(250, 500),
            color_shaders: Vec::new(),
        },
    );

    let mut scenes: Vec<Vec<RenderCommand>> = Vec::new();
    scenes.push(scene0);
    scenes.push(scene1);
    scenes.push(scene2);
    scenes
}

} // verus!
