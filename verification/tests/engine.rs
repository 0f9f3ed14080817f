use antani_sw::color::{correct_color, gamma, scale_channel, Rgb};
use antani_sw::control::{all_on, default_scenes, glider, indicator_scene, sweep_animation};
use antani_sw::effects::{
    blinking, breathing, eval_command, palette_color, resolve_mask, shade_color, ColorPalette,
    FragmentShader, RenderCommand, RunEffect,
};
use antani_sw::matrix::LedMatrix;
use antani_sw::pattern::{bit_cell, frame_index, LedPattern};
use antani_sw::scene::RenderManager;

fn black() -> Rgb {
    Rgb { r: 0, g: 0, b: 0 }
}

#[test]
fn gamma_table_endpoints_and_midpoint() {
    assert_eq!(gamma(0), 0);
    assert_eq!(gamma(1), 0);
    assert_eq!(gamma(127), 36);
    assert_eq!(gamma(128), 37);
    assert_eq!(gamma(255), 255);
}

#[test]
fn gain_scaling_truncates() {
    assert_eq!(scale_channel(255, 1000), 255);
    assert_eq!(scale_channel(255, 700), 178);
    assert_eq!(scale_channel(255, 500), 127);
    assert_eq!(scale_channel(255, 0), 0);
    assert_eq!(scale_channel(0, 1000), 0);
}

#[test]
fn correction_applies_gains_around_gamma_in_order() {
    // corrected gain first, then the table, then the raw gain
    let c = correct_color(Rgb { r: 255, g: 255, b: 255 }, 1000, 500);
    assert_eq!(c, Rgb { r: 127, g: 127, b: 127 });
    // fusing both gains before the table would give gamma(127) = 36 instead
    assert_ne!(c.r, gamma(scale_channel(scale_channel(255, 1000), 500)));
    let d = correct_color(Rgb { r: 255, g: 0, b: 0 }, 500, 1000);
    assert_eq!(d, Rgb { r: 36, g: 0, b: 0 });
}

#[test]
fn each_mask_bit_drives_its_own_cell() {
    let expected_cells = [6usize, 3, 0, 7, 4, 1, 8, 5, 2];
    for i in 0..9usize {
        assert_eq!(bit_cell(i), expected_cells[i]);
    }
    for i in 0..9usize {
        let mut m = LedMatrix::new();
        m.set_gain(1000);
        m.render(&LedPattern::new(1u16 << i), Rgb { r: 255, g: 255, b: 255 });
        let frame = m.frame();
        for c in 0..9usize {
            if c == expected_cells[i] {
                assert_eq!(frame[c], Rgb { r: 255, g: 255, b: 255 });
            } else {
                assert_eq!(frame[c], black());
            }
        }
    }
}

#[test]
fn out_of_bounds_pixel_writes_are_ignored() {
    let mut m = LedMatrix::new();
    m.set_pixel(3, 0, Rgb { r: 9, g: 9, b: 9 });
    m.set_pixel(0, 3, Rgb { r: 9, g: 9, b: 9 });
    m.set_pixel(7, 7, Rgb { r: 9, g: 9, b: 9 });
    for c in 0..9usize {
        assert_eq!(m.frame()[c], black());
    }
    m.set_pixel(1, 2, Rgb { r: 9, g: 9, b: 9 });
    assert_eq!(m.frame()[2 * 3 + 1], Rgb { r: 9, g: 9, b: 9 });
}

#[test]
fn clear_then_empty_scene_is_all_black() {
    let mut rm = RenderManager::new();
    rm.mtrx.set_all(Rgb { r: 20, g: 30, b: 40 });
    rm.mtrx.clear();
    let empty: Vec<RenderCommand> = Vec::new();
    rm.render(&empty, 123456);
    for c in 0..9usize {
        assert_eq!(rm.mtrx.frame()[c], black());
    }
}

#[test]
fn animation_frame_indexing_forward_and_reverse() {
    // nine frames over a six-second cycle
    assert_eq!(frame_index(0, 6_000_000, 9), 0);
    assert_eq!(frame_index(5_999_000, 6_000_000, 9), 8);
    assert_eq!(frame_index(666_666, 6_000_000, 9), 0);
    assert_eq!(frame_index(666_667, 6_000_000, 9), 1);
    assert_eq!(frame_index(6_000_000, 6_000_000, 9), 0);

    let forward = RunEffect::AnimationPattern(sweep_animation(), 6_000_000);
    assert_eq!(resolve_mask(&forward, 0).pattern, 0b100000000);
    assert_eq!(resolve_mask(&forward, 5_999_000).pattern, 0b000000001);
    let reverse = RunEffect::ReverseAnimationPattern(sweep_animation(), 6_000_000);
    assert_eq!(resolve_mask(&reverse, 0).pattern, 0b000000001);
    assert_eq!(resolve_mask(&reverse, 5_999_000).pattern, 0b100000000);
}

#[test]
fn rainbow_palette_walks_the_hue_wheel() {
    // a quarter turn per second, starting at red
    let p = ColorPalette::Rainbow(250, 0);
    assert_eq!(palette_color(&p, 0), Rgb { r: 255, g: 0, b: 0 });
    assert_eq!(palette_color(&p, 1_000_000), Rgb { r: 127, g: 255, b: 0 });
    // a half-turn phase offset lands the complementary hue
    let q = ColorPalette::Rainbow(250, 500);
    assert_eq!(palette_color(&q, 0), Rgb { r: 0, g: 255, b: 255 });
    let solid = ColorPalette::Solid(Rgb { r: 1, g: 2, b: 3 });
    assert_eq!(palette_color(&solid, 77), Rgb { r: 1, g: 2, b: 3 });
}

#[test]
fn breathing_oscillates_between_floor_and_full() {
    // one cycle per second
    assert_eq!(breathing(0, 1000), 100);
    assert_eq!(breathing(250_000, 1000), 550);
    assert_eq!(breathing(500_000, 1000), 1000);
    assert_eq!(breathing(750_000, 1000), 550);
}

#[test]
fn blinking_is_a_square_wave() {
    // one cycle per second: on in the first half, off in the second
    assert_eq!(blinking(0, 1000), 1000);
    assert_eq!(blinking(499_999, 1000), 1000);
    assert_eq!(blinking(500_000, 1000), 0);
    assert_eq!(blinking(999_999, 1000), 0);
    assert_eq!(blinking(1_000_000, 1000), 1000);
}

#[test]
fn shader_chain_composes_in_order() {
    let base = Rgb { r: 255, g: 100, b: 0 };
    let chain = vec![FragmentShader::Breathing(1000)];
    // at time zero the breathing factor is at its floor
    assert_eq!(shade_color(&chain, base, 0), Rgb { r: 25, g: 10, b: 0 });
    let chain2 = vec![FragmentShader::Breathing(1000), FragmentShader::Blinking(1000)];
    // blinking off zeroes whatever breathing left
    assert_eq!(shade_color(&chain2, base, 500_000), Rgb { r: 0, g: 0, b: 0 });
    let empty: Vec<FragmentShader> = Vec::new();
    assert_eq!(shade_color(&empty, base, 12345), base);
}

#[test]
fn eval_command_pairs_mask_and_shaded_color() {
    let cmd = RenderCommand {
        effect: RunEffect::SimplePattern(glider()),
        color: ColorPalette::Solid(Rgb { r: 0, g: 0, b: 255 }),
        color_shaders: vec![FragmentShader::Blinking(1000)],
    };
    let (mask, color) = eval_command(&cmd, 0);
    assert_eq!(mask.pattern, 0b010001111);
    assert_eq!(color, Rgb { r: 0, g: 0, b: 255 });
    let (_, color_off) = eval_command(&cmd, 500_000);
    assert_eq!(color_off, Rgb { r: 0, g: 0, b: 0 });
}

#[test]
fn later_command_overwrites_overlap() {
    let mut rm = RenderManager::new();
    rm.mtrx.set_gain(1000);
    let scene = vec![
        RenderCommand {
            effect: RunEffect::SimplePattern(all_on()),
            color: ColorPalette::Solid(Rgb { r: 255, g: 0, b: 0 }),
            color_shaders: Vec::new(),
        },
        RenderCommand {
            effect: RunEffect::SimplePattern(glider()),
            color: ColorPalette::Solid(Rgb { r: 0, g: 0, b: 255 }),
            color_shaders: Vec::new(),
        },
    ];
    rm.render(&scene, 0);
    let frame = rm.mtrx.frame();
    // glider bits 0,1,2,3,7 drive cells 6,3,0,7,5: those show the second
    // command's blue, never a blend
    for &c in &[6usize, 3, 0, 7, 5] {
        assert_eq!(frame[c], Rgb { r: 0, g: 0, b: 255 });
    }
    // the rest keep the first command's red
    for &c in &[1usize, 2, 4, 8] {
        assert_eq!(frame[c], Rgb { r: 255, g: 0, b: 0 });
    }
}

#[test]
fn built_in_scenes_have_the_advertised_shape() {
    let scenes = default_scenes();
    assert_eq!(scenes.len(), 3);
    assert_eq!(scenes[0].len(), 1);
    assert_eq!(scenes[1].len(), 3);
    assert_eq!(scenes[2].len(), 2);
    assert!(matches!(scenes[0][0].effect, RunEffect::SimplePattern(p) if p.pattern == 0b010001111));
    assert!(matches!(scenes[0][0].color, ColorPalette::Solid(c) if c == Rgb { r: 0, g: 0, b: 255 }));
    assert_eq!(scenes[0][0].color_shaders.len(), 2);
    assert!(
        matches!(scenes[1][1].effect, RunEffect::AnimationPattern(ref a, cycle)
            if a.frames.len() == 9 && cycle == 6_000_000)
    );
    assert!(
        matches!(scenes[1][2].effect, RunEffect::ReverseAnimationPattern(ref a, cycle)
            if a.frames.len() == 9 && cycle == 6_000_000)
    );
    assert!(matches!(scenes[2][0].effect, RunEffect::SimplePattern(p) if p.pattern == 0b111111111));
}

#[test]
fn indicator_scene_is_one_white_command() {
    let scene = indicator_scene(LedPattern::new(0b000111111));
    assert_eq!(scene.len(), 1);
    assert!(matches!(scene[0].effect, RunEffect::SimplePattern(p) if p.pattern == 0b000111111));
    assert!(
        matches!(scene[0].color, ColorPalette::Solid(c) if c == Rgb { r: 255, g: 255, b: 255 })
    );
    assert!(scene[0].color_shaders.is_empty());
}
