use gym_rs::utils::renderer::RenderColor;
use gym_rs::utils::renderer::RenderFrame;
use gym_rs::utils::renderer::RenderMode;
use gym_rs::utils::renderer::Renderer;
use gym_rs::utils::renderer::Renders;
use gym_rs::utils::structs::Metadata;

fn one_pixel_frame(shade: u8) -> RenderFrame {
    RenderFrame(vec![vec![RenderColor::RGB(shade, shade, shade)]])
}

#[test]
fn accumulating_mode_returns_every_step_frame_then_none() {
    let mut renderer = Renderer::new(RenderMode::RgbArray, None, None);
    let k: u8 = 5;
    let mut draws: u8 = 0;
    for i in 0..k {
        if renderer.wants_step_frame() {
            draws += 1;
            renderer.render_step(Renders::SingleRgbArray(one_pixel_frame(i)));
        }
    }
    assert_eq!(draws, k);
    match renderer.get_renders(None) {
        Renders::RgbArray(frames) => {
            assert_eq!(frames.len(), k as usize);
            for (i, frame) in frames.iter().enumerate() {
                assert_eq!(*frame, one_pixel_frame(i as u8));
            }
        }
        other => panic!("expected the accumulated list, got {:?}", other),
    }
    match renderer.get_renders(None) {
        Renders::RgbArray(frames) => assert_eq!(frames.len(), 0),
        other => panic!("expected an empty list, got {:?}", other),
    }
}

#[test]
fn disabled_mode_never_asks_for_a_frame() {
    let mut renderer = Renderer::new(RenderMode::Disabled, None, None);
    let mut draws: u32 = 0;
    for _ in 0..10 {
        if renderer.wants_step_frame() {
            draws += 1;
            renderer.render_step(Renders::SingleRgbArray(one_pixel_frame(0)));
        }
    }
    assert_eq!(draws, 0);
    assert!(!renderer.wants_fresh_frame());
    assert!(matches!(renderer.get_renders(None), Renders::Empty));
}

#[test]
fn single_shot_mode_passes_a_fresh_frame_through_without_storing_it() {
    let mut renderer = Renderer::new(RenderMode::SingleRgbArray, None, None);
    assert!(!renderer.wants_step_frame());
    assert!(renderer.wants_fresh_frame());
    let fresh = Renders::SingleRgbArray(one_pixel_frame(9));
    let out = renderer.get_renders(Some(fresh.clone()));
    assert_eq!(out, fresh);
    let again = renderer.get_renders(Some(fresh.clone()));
    assert_eq!(again, fresh);
}

#[test]
fn human_mode_draws_every_step_but_retains_nothing() {
    let mut renderer = Renderer::new(RenderMode::Human, None, None);
    assert!(renderer.wants_step_frame());
    renderer.render_step(Renders::SingleRgbArray(one_pixel_frame(1)));
    renderer.render_step(Renders::SingleRgbArray(one_pixel_frame(2)));
    assert!(matches!(renderer.get_renders(None), Renders::Empty));
}

#[test]
fn reset_clears_the_accumulated_frames() {
    let mut renderer = Renderer::new(RenderMode::RgbArray, None, None);
    renderer.render_step(Renders::SingleRgbArray(one_pixel_frame(1)));
    renderer.render_step(Renders::SingleRgbArray(one_pixel_frame(2)));
    renderer.reset();
    match renderer.get_renders(None) {
        Renders::RgbArray(frames) => assert_eq!(frames.len(), 0),
        other => panic!("expected an empty list, got {:?}", other),
    }
}

#[test]
fn caller_supplied_classification_sets_are_honoured() {
    // RgbArray is declared single-shot here, so a step skips drawing.
    let mut renderer = Renderer::new(
        RenderMode::RgbArray,
        Some(vec![RenderMode::Human]),
        Some(vec![RenderMode::SingleRgbArray, RenderMode::RgbArray]),
    );
    assert!(!renderer.wants_step_frame());
    assert!(renderer.wants_fresh_frame());
    let fresh = Renders::SingleRgbArray(one_pixel_frame(7));
    assert_eq!(renderer.get_renders(Some(fresh.clone())), fresh);
}

#[test]
fn default_render_mode_is_disabled() {
    assert_eq!(RenderMode::default(), RenderMode::Disabled);
}

#[test]
fn metadata_keeps_modes_and_frame_rate() {
    let metadata: Metadata<u8> = Metadata::new(&[RenderMode::Human, RenderMode::RgbArray], 30);
    assert_eq!(metadata.render_modes.len(), 2);
    assert_eq!(metadata.render_modes[0], RenderMode::Human);
    assert_eq!(metadata.render_fps, 30);
}
