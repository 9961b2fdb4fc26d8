use mandelbrot_viewer::routing::{next_frame, route_window_event, EventRoute, NextFrame, WindowEventKind};

#[test]
fn lifecycle_events_bypass_the_panel() {
    assert_eq!(route_window_event(WindowEventKind::CloseRequested, true, true, true), EventRoute::Exit);
    assert_eq!(route_window_event(WindowEventKind::Resized, true, false, true), EventRoute::Resize);
    assert_eq!(route_window_event(WindowEventKind::RedrawRequested, false, true, false), EventRoute::Render);
}

#[test]
fn the_panel_gets_first_refusal() {
    assert_eq!(
        route_window_event(WindowEventKind::Other, true, true, false),
        EventRoute::Panel { repaint: true }
    );
    assert_eq!(
        route_window_event(WindowEventKind::Other, false, false, true),
        EventRoute::Panel { repaint: false }
    );
    assert_eq!(
        route_window_event(WindowEventKind::Other, false, true, false),
        EventRoute::Canvas { repaint: true }
    );
    assert_eq!(
        route_window_event(WindowEventKind::Other, false, false, false),
        EventRoute::Canvas { repaint: false }
    );
}

#[test]
fn the_next_frame_comes_at_once_only_when_owed() {
    assert_eq!(next_frame(true, false), NextFrame::Now);
    assert_eq!(next_frame(false, true), NextFrame::Now);
    assert_eq!(next_frame(false, false), NextFrame::AtPanelDeadline);
}
