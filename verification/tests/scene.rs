use mandelbrot_viewer::action::Action;
use mandelbrot_viewer::fractal::palette::Palette;
use mandelbrot_viewer::fractal::reference::{OrbitBuilder, Reference};
use mandelbrot_viewer::render::mandelbrot::OrbitUpload;
use mandelbrot_viewer::scene::{Redraw, Scene};

type TestAction = Action<f64, (f64, f64)>;
type TestScene = Scene<&'static str, (f64, f64), u32>;

/// Trace an orbit through the builder, escaping after three points if asked.
fn trace(max_iter: u32, escaped: bool) -> (OrbitBuilder<(f64, f64), u32>, bool) {
    let mut b = OrbitBuilder::new((-0.5, 0.0), max_iter);
    let mut i = 0;
    while b.has_room() {
        b.push(i);
        i += 1;
        if escaped && i == 3 {
            return (b, true);
        }
    }
    (b, false)
}

fn reference(max_iter: u32, escaped: bool) -> Reference<(f64, f64), u32> {
    let (b, escaped) = trace(max_iter, escaped);
    b.finish(escaped)
}

/// One sync step: rebuild the reference if it cannot serve the view.
fn sync(s: &mut TestScene, near_enough: bool, max_iter: u32) {
    if s.needs_new_reference(near_enough, max_iter) {
        let (orbit, escaped) = trace(max_iter, false);
        s.install_orbit(orbit, escaped);
    }
}

fn scene() -> TestScene {
    Scene::new("camera", reference(100, false))
}

#[test]
fn palette_cycles_and_wraps() {
    let mut s = scene();
    let start = s.palette;
    for _ in 0..Palette::ALL.len() {
        let _ = s.apply(TestAction::CyclePalette, false);
    }
    assert_eq!(s.palette, start);
}

#[test]
fn setting_the_same_palette_needs_no_redraw() {
    let mut s = scene();
    let current = s.palette;
    assert_eq!(s.apply(TestAction::SetPalette(current), false), Redraw::No);
    assert_eq!(s.apply(TestAction::SetPalette(current.next()), false), Redraw::Yes);
}

#[test]
fn logging_position_never_forces_a_redraw() {
    assert_eq!(scene().apply(TestAction::LogPosition, true), Redraw::No);
}

#[test]
fn redraw_follows_the_change() {
    assert!(Redraw::Yes.is_needed());
    assert!(!Redraw::No.is_needed());
    assert_eq!(Redraw::from_changed(true), Redraw::Yes);
    assert_eq!(Redraw::from_changed(false), Redraw::No);
}

#[test]
fn camera_moves_always_redraw() {
    let mut s = scene();
    assert_eq!(s.apply(TestAction::Pan { dx: 1.0, dy: 1.0 }, false), Redraw::Yes);
    assert_eq!(s.apply(TestAction::ZoomAt { px: 1.0, py: 1.0, factor: 0.5 }, false), Redraw::Yes);
    assert_eq!(s.apply(TestAction::ResetView, false), Redraw::Yes);
    assert_eq!(s.palette, Palette::Rainbow);
}

#[test]
fn refused_camera_changes_need_no_redraw() {
    let mut s = scene();
    assert_eq!(s.apply(TestAction::SetCenter((f64::NAN, 0.0)), false), Redraw::No);
    assert_eq!(s.apply(TestAction::SetCenter((0.25, -0.5)), true), Redraw::Yes);
    assert_eq!(s.apply(TestAction::ScaleIterBias(1.5), false), Redraw::No);
    assert_eq!(s.apply(TestAction::SetIterBias(2.0), true), Redraw::Yes);
    assert_eq!(s.apply(TestAction::Exit, true), Redraw::No);
}

#[test]
fn set_palette_stores_the_choice() {
    let mut s = scene();
    assert_eq!(s.apply(TestAction::SetPalette(Palette::Ocean), false), Redraw::Yes);
    assert_eq!(s.palette, Palette::Ocean);
    assert_eq!(s.apply(TestAction::CyclePalette, false), Redraw::Yes);
    assert_eq!(s.palette, Palette::Grey);
}

#[test]
fn actions_never_touch_the_reference() {
    let mut s = scene();
    let generation = s.reference_generation();
    let _ = s.apply(TestAction::CyclePalette, false);
    let _ = s.apply(TestAction::Pan { dx: 3.0, dy: -2.0 }, true);
    assert_eq!(s.reference_generation(), generation);
    assert_eq!(s.view, "camera");
}

#[test]
fn sync_is_idempotent_when_nothing_moves() {
    let mut s = scene();
    sync(&mut s, true, 100);
    let generation = s.reference_generation();
    for _ in 0..10 {
        sync(&mut s, true, 100);
    }
    assert_eq!(s.reference_generation(), generation);
}

#[test]
fn idle_syncs_never_regenerate() {
    let mut s = scene();
    sync(&mut s, false, 2_000);
    let start = s.reference_generation();
    assert_eq!(start, 1);
    for _ in 0..240 {
        sync(&mut s, true, 2_000);
    }
    assert_eq!(s.reference_generation(), start, "idle redraws must not touch the reference orbit");
}

#[test]
fn a_distant_or_deeper_view_needs_a_new_reference() {
    let mut s = scene();
    assert!(!s.needs_new_reference(true, 100));
    assert!(s.needs_new_reference(false, 100));
    assert!(!s.needs_new_reference(true, 101));
    assert!(s.needs_new_reference(true, 102));
    let (orbit, escaped) = trace(1_000, false);
    s.install_orbit(orbit, escaped);
    assert_eq!(s.reference_generation(), 1);
    assert!(!s.needs_new_reference(true, 1_000));
    assert_eq!(s.reference().orbit.len(), 1_001);
}

#[test]
fn an_escaped_reference_serves_any_budget() {
    let mut s = scene();
    let (orbit, escaped) = trace(100, true);
    s.install_orbit(orbit, escaped);
    assert!(s.reference().escaped);
    assert!(!s.needs_new_reference(true, 50_000));
}

#[test]
fn the_generation_counter_only_moves_forward() {
    let mut s = scene();
    let mut last = s.reference_generation();
    let mut max_iter = 100u32;

    for step in 0..200u32 {
        // Pans occasionally leave the reference's neighbourhood; zooms and
        // bias changes raise the iteration budget.
        let near_enough = step % 7 != 0;
        match step % 3 {
            0 => {
                let _ = s.apply(TestAction::Pan { dx: 3.0, dy: -2.0 }, true);
            }
            1 => {
                let _ = s.apply(TestAction::ZoomAt { px: 100.0, py: 100.0, factor: 0.9 }, true);
                max_iter += 40;
            }
            _ => {
                let _ = s.apply(TestAction::ScaleIterBias(1.5), true);
                max_iter += 10;
            }
        }
        sync(&mut s, near_enough, max_iter);

        let now = s.reference_generation();
        assert!(now >= last, "generation went backwards: {last} -> {now}");
        assert!(now <= last + 1, "one sync rebuilt more than once");
        last = now;
    }
    assert!(last > 0);
}

#[test]
fn orbit_is_uploaded_once_per_generation() {
    let mut upload = OrbitUpload::new();
    assert_eq!(upload.uploaded_generation(), None);
    assert!(upload.needs_upload(0));
    upload.record(0);
    assert!(!upload.needs_upload(0));
    assert!(upload.needs_upload(1));
    upload.record(1);
    assert_eq!(upload.uploaded_generation(), Some(1));
    assert!(!upload.needs_upload(1));
}

#[test]
fn only_exit_is_app_level() {
    assert!(TestAction::Exit.is_app_level());
    assert!(!TestAction::LogPosition.is_app_level());
}
