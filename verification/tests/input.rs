use mandelbrot_viewer::action::Action;
use mandelbrot_viewer::input::{key_action, InputEvent, InputResponse, InputState, Key};
use mandelbrot_viewer::ui::{center_from_parts, PanelState, IM_NOT_FINITE, RE_NOT_FINITE};

#[test]
fn moving_without_a_press_does_not_pan() {
    let mut input = InputState::new((0.0f64, 0.0f64));
    assert_eq!(input.cursor_moved((10.0, 5.0)), None);
    assert_eq!(*input.cursor(), (10.0, 5.0));
}

#[test]
fn dragging_reports_the_previous_position() {
    let mut input = InputState::new((0.0f64, 0.0f64));
    let _ = input.cursor_moved((10.0, 5.0));
    input.left_button(true);
    assert!(input.is_dragging());
    assert_eq!(input.cursor_moved((12.0, 6.0)), Some((10.0, 5.0)));
    assert_eq!(input.cursor_moved((15.0, 2.0)), Some((12.0, 6.0)));
    input.left_button(false);
    assert_eq!(input.cursor_moved((20.0, 2.0)), None);
}

#[test]
fn leaving_the_window_cancels_the_drag() {
    let mut input = InputState::new((1i32, 1i32));
    input.left_button(true);
    input.cancel_drag();
    assert!(!input.is_dragging());
    assert_eq!(input.cursor_moved((2, 2)), None);
    assert_eq!(*input.cursor(), (2, 2));
}

#[test]
fn both_parts_make_a_center() {
    assert_eq!(center_from_parts(Some(-0.75), Some(0.1)), Ok((-0.75, 0.1)));
}

#[test]
fn the_real_part_is_reported_first() {
    assert_eq!(center_from_parts::<f64>(None, None), Err(RE_NOT_FINITE));
    assert_eq!(center_from_parts(None, Some(0.1)), Err(RE_NOT_FINITE));
    assert_eq!(center_from_parts(Some(-0.75), None), Err(IM_NOT_FINITE));
    assert_eq!(RE_NOT_FINITE, "re is not a finite number");
    assert_eq!(IM_NOT_FINITE, "im is not a finite number");
}

#[test]
fn panel_remembers_only_the_last_refusal() {
    let mut panel = PanelState::default();
    assert_eq!(panel.jump_error(), None);
    assert!(panel.re_text.is_empty() && panel.im_text.is_empty());
    panel.re_text.push_str("abc");
    assert_eq!(panel.record_jump(center_from_parts::<f64>(None, Some(0.1))), None);
    assert_eq!(panel.jump_error(), Some(RE_NOT_FINITE));
    assert_eq!(panel.record_jump(center_from_parts(Some(-0.75), Some(0.1))), Some((-0.75, 0.1)));
    assert_eq!(panel.jump_error(), None);
    assert_eq!(panel.re_text, "abc");
}

type TestAction = Action<f64, (f64, f64)>;

/// Multiplier the explorer binds to the bracket keys.
const ITER_BIAS_STEP: f64 = 1.5;

#[test]
fn bracket_keys_are_exact_inverses() {
    let (Some(TestAction::ScaleIterBias(up)), Some(TestAction::ScaleIterBias(down))) = (
        key_action::<f64, (f64, f64)>(Key::BracketRight, ITER_BIAS_STEP, 1.0 / ITER_BIAS_STEP),
        key_action::<f64, (f64, f64)>(Key::BracketLeft, ITER_BIAS_STEP, 1.0 / ITER_BIAS_STEP),
    ) else {
        panic!("bracket keys should scale the iteration bias");
    };
    assert!((up * down - 1.0).abs() < 1e-12);
}

#[test]
fn unmapped_keys_ask_for_nothing() {
    assert_eq!(key_action::<f64, (f64, f64)>(Key::Other, ITER_BIAS_STEP, 1.0 / ITER_BIAS_STEP), None);
}

#[test]
fn the_controls_table() {
    let act = |k| key_action::<f64, (f64, f64)>(k, 2.0, 0.5);
    assert_eq!(act(Key::Escape), Some(TestAction::Exit));
    assert_eq!(act(Key::R), Some(TestAction::ResetView));
    assert_eq!(act(Key::P), Some(TestAction::CyclePalette));
    assert_eq!(act(Key::C), Some(TestAction::LogPosition));
    assert_eq!(act(Key::BracketRight), Some(TestAction::ScaleIterBias(2.0)));
    assert_eq!(act(Key::BracketLeft), Some(TestAction::ScaleIterBias(0.5)));
}

fn handle(input: &mut InputState<f64>, event: InputEvent<f64>) -> Option<InputResponse<f64, (f64, f64)>> {
    input.handle(event, ITER_BIAS_STEP, 1.0 / ITER_BIAS_STEP)
}

#[test]
fn a_left_drag_pans_by_the_cursor_travel() {
    let mut input = InputState::new((0.0, 0.0));
    assert_eq!(handle(&mut input, InputEvent::CursorMoved(10.0, 5.0)), None);
    assert_eq!(handle(&mut input, InputEvent::LeftButton { pressed: true }), None);
    assert_eq!(
        handle(&mut input, InputEvent::CursorMoved(12.0, 6.0)),
        Some(InputResponse::Pan { from: (10.0, 5.0), to: (12.0, 6.0) })
    );
    assert_eq!(handle(&mut input, InputEvent::CursorLeft), None);
    assert_eq!(handle(&mut input, InputEvent::CursorMoved(20.0, 6.0)), None);
}

#[test]
fn the_wheel_zooms_about_the_cursor() {
    let mut input = InputState::new((0.0, 0.0));
    let _ = handle(&mut input, InputEvent::CursorMoved(200.0, 150.0));
    assert_eq!(
        handle(&mut input, InputEvent::Wheel(-1.0)),
        Some(InputResponse::ZoomAt { at: (200.0, 150.0), notches: -1.0 })
    );
    assert!(!input.is_dragging());
}

#[test]
fn keys_and_other_events_leave_the_pointer_alone() {
    let mut input = InputState::new((3.0, 4.0));
    let _ = handle(&mut input, InputEvent::LeftButton { pressed: true });
    assert_eq!(
        handle(&mut input, InputEvent::KeyPressed(Key::P)),
        Some(InputResponse::Act(TestAction::CyclePalette))
    );
    assert_eq!(handle(&mut input, InputEvent::KeyPressed(Key::Other)), None);
    assert_eq!(handle(&mut input, InputEvent::Ignored), None);
    assert!(input.is_dragging());
    assert_eq!(*input.cursor(), (3.0, 4.0));
}
