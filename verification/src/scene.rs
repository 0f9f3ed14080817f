use vstd::prelude::*;

use crate::color::{corrected_rgb, Rgb};
use crate::effects::{command_color, command_mask, eval_command, RenderCommand};
use crate::matrix::{mask_covers, LedMatrix};
use crate::pattern::{LedPattern, MATRIX_CELLS};

verus! {

/// The mask a command lights at time `t_us`, as a pattern value.
pub open spec fn command_pattern(cmd: RenderCommand, t_us: u64) -> LedPattern {
    LedPattern { pattern: command_mask(cmd, t_us) }
}

/// The frame buffer after one command is painted at time `t_us` with the
/// given gains: the command's corrected color wherever its mask covers, the
/// previous value everywhere else.
pub open spec fn apply_command(
    fb: Seq<Rgb>,
    cmd: RenderCommand,
    t_us: u64,
    corrected_gain: u16,
    raw_gain: u16,
) -> Seq<Rgb> {
    Seq::new(
        fb.len(),
        |c: int|
            if mask_covers(command_pattern(cmd, t_us), c) {
                corrected_rgb(command_color(cmd, t_us), corrected_gain, raw_gain)
            } else {
                fb[c]
            },
    )
}

/// The frame buffer after a whole scene is painted in order: evaluation
/// order is paint order, so later commands overwrite earlier ones wherever
/// their masks overlap.
pub open spec fn apply_scene(
    fb: Seq<Rgb>,
    cmds: Seq<RenderCommand>,
    t_us: u64,
    corrected_gain: u16,
    raw_gain: u16,
) -> Seq<Rgb>
    decreases cmds.len(),
{
    if cmds.len() == 0 {
        fb
    } else {
        apply_command(
            apply_scene(fb, cmds.drop_last(), t_us, corrected_gain, raw_gain),
            cmds.last(),
            t_us,
            corrected_gain,
            raw_gain,
        )
    }
}

/// Painting a scene never changes the size of the frame buffer.
pub proof fn lemma_apply_scene_len(
    fb: Seq<Rgb>,
    cmds: Seq<RenderCommand>,
    t_us: u64,
    corrected_gain: u16,
    raw_gain: u16,
)
    ensures
        apply_scene(fb, cmds, t_us, corrected_gain, raw_gain).len() == fb.len(),
    decreases cmds.len(),
{
    if cmds.len() > 0 {
        lemma_apply_scene_len(fb, cmds.drop_last(), t_us, corrected_gain, raw_gain);
    }
}

/// An empty scene paints nothing: the frame buffer is exactly what it was,
/// so evaluating an empty scene right after a clear leaves every cell black.
pub proof fn lemma_empty_scene(fb: Seq<Rgb>, t_us: u64, corrected_gain: u16, raw_gain: u16)
    ensures
        apply_scene(fb, Seq::<RenderCommand>::empty(), t_us, corrected_gain, raw_gain) == fb,
{
}

/// Compositing is paint order: if command `j` covers cell `c` and no later
/// command does, the finished frame holds command `j`'s corrected color at
/// `c` — never a blend.
pub proof fn lemma_later_command_wins(
    fb: Seq<Rgb>,
    cmds: Seq<RenderCommand>,
    t_us: u64,
    corrected_gain: u16,
    raw_gain: u16,
    j: int,
    c: int,
)
    requires
        0 <= c < fb.len(),
        0 <= j < cmds.len(),
        mask_covers(command_pattern(cmds[j], t_us), c),
        forall|l: int|
            j < l < cmds.len() ==> !mask_covers(command_pattern(#[trigger] cmds[l], t_us), c),
    ensures
        apply_scene(fb, cmds, t_us, corrected_gain, raw_gain)[c] == corrected_rgb(
            command_color(cmds[j], t_us),
            corrected_gain,
            raw_gain,
        ),
    decreases cmds.len(),
{
    lemma_apply_scene_len(fb, cmds.drop_last(), t_us, corrected_gain, raw_gain);
    if j == cmds.len() - 1 {
        assert(cmds.last() == cmds[j]);
    } else {
        assert(!mask_covers(command_pattern(cmds[cmds.len() - 1], t_us), c));
        assert(cmds.drop_last()[j] == cmds[j]);
        lemma_later_command_wins(
            fb,
            cmds.drop_last(),
            t_us,
            corrected_gain,
            raw_gain,
            j,
            c,
        );
    }
}

/// A cell no command covers keeps whatever the frame buffer held before the
/// scene was painted.
pub proof fn lemma_untouched_cell_keeps_value(
    fb: Seq<Rgb>,
    cmds: Seq<RenderCommand>,
    t_us: u64,
    corrected_gain: u16,
    raw_gain: u16,
    c: int,
)
    requires
        0 <= c < fb.len(),
        forall|l: int|
            0 <= l < cmds.len() ==> !mask_covers(command_pattern(#[trigger] cmds[l], t_us), c),
    ensures
        apply_scene(fb, cmds, t_us, corrected_gain, raw_gain)[c] == fb[c],
    decreases cmds.len(),
{
    if cmds.len() > 0 {
        lemma_apply_scene_len(fb, cmds.drop_last(), t_us, corrected_gain, raw_gain);
        assert(!mask_covers(command_pattern(cmds[cmds.len() - 1], t_us), c));
        lemma_untouched_cell_keeps_value(
            fb,
            cmds.drop_last(),
            t_us,
            corrected_gain,
            raw_gain,
            c,
        );
    }
}

/// The effect evaluator: owns the matrix it composites into.
pub struct RenderManager {
    pub mtrx: LedMatrix,
}

impl RenderManager {
    pub open spec fn wf(self) -> bool {
        self.mtrx.wf()
    }

    pub fn new() -> (m: RenderManager)
        ensures
            m.wf(),
            m.mtrx.fb().len() == MATRIX_CELLS,
            forall|c: int| 0 <= c < MATRIX_CELLS ==> m.mtrx.fb()[c] == Rgb::black(),
    {
        RenderManager { mtrx: LedMatrix::new() }
    }

    /// Evaluates a scene at time `t_us` and composites it into the matrix:
    /// for each command in order, the active mask and color are resolved and
    /// painted through the correction pipeline.
    pub fn render(&mut self, scene: &Vec<RenderCommand>, t_us: u64)
        requires
            old(self).wf(),
            forall|j: int| 0 <= j < scene@.len() ==> (#[trigger] scene@[j]).wf(),
        ensures
            final(self).wf(),
            final(self).mtrx.fb() == apply_scene(
                old(self).mtrx.fb(),
                scene@,
                t_us,
                old(self).mtrx.spec_corrected_gain(),
                old(self).mtrx.spec_raw_gain(),
            ),
            final(self).mtrx.spec_corrected_gain() == old(self).mtrx.spec_corrected_gain(),
            final(self).mtrx.spec_raw_gain() == old(self).mtrx.spec_raw_gain(),
    {
        proof {
            old(self).mtrx.lemma_wf();
        }
        let ghost g1 = self.mtrx.spec_corrected_gain();
        let ghost g2 = self.mtrx.spec_raw_gain();
        let mut j: usize = 0;
        proof {
            assert(scene@.take(0) =~= Seq::<RenderCommand>::empty());
        }
        while j < scene.len()
            invariant
                self.wf(),
                j <= scene@.len(),
                forall|k: int| 0 <= k < scene@.len() ==> (#[trigger] scene@[k]).wf(),
                self.mtrx.spec_corrected_gain() == g1,
                self.mtrx.spec_raw_gain() == g2,
                self.mtrx.fb() == apply_scene(
                    old(self).mtrx.fb(),
                    scene@.take(j as int),
                    t_us,
                    g1,
                    g2,
                ),
            decreases scene@.len() - j,
        {
            let ghost fb_before = self.mtrx.fb();
            proof {
                self.mtrx.lemma_wf();
            }
            let (mask, color) = eval_command(&scene[j], t_us);
            self.mtrx.render(&mask, color);
            proof {
                assert(mask == command_pattern(scene@[j as int], t_us));
                assert(scene@.take(j as int + 1).drop_last() =~= scene@.take(j as int));
                assert(scene@.take(j as int + 1).last() == scene@[j as int]);
                self.mtrx.lemma_wf();
                assert(fb_before.len() == MATRIX_CELLS);
                assert(self.mtrx.fb() =~= apply_command(
                    fb_before,
                    scene@[j as int],
                    t_us,
                    g1,
                    g2,
                ));
            }
            j = j + 1;
        }
        proof {
            assert(scene@.take(scene@.len() as int) =~= scene@);
        }
    }
}

} // verus!
