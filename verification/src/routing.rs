//! Event routing and frame scheduling for the application's event loop.
//!
//! The panel gets first refusal on every window event; what is left decides
//! between quitting, resizing, drawing, and handing the event to the canvas.
//! After a frame, the next one is drawn at once when the scene changed or the
//! panel is animating, and otherwise waits for the panel's next deadline.

use vstd::prelude::*;

verus! {

/// The window events the loop tells apart.
#[derive(Copy, Clone, PartialEq, Eq, Debug, Structural)]
pub enum WindowEventKind {
    CloseRequested,
    Resized,
    RedrawRequested,
    /// Any other event: pointer, keyboard, focus and so on.
    Other,
}

/// Where a window event goes.
#[derive(Copy, Clone, PartialEq, Eq, Debug, Structural)]
pub enum EventRoute {
    /// Leave the event loop.
    Exit,
    /// Resize the surface and the scene, then redraw.
    Resize,
    /// Draw a frame.
    Render,
    /// The panel has the event: cancel any canvas drag. `repaint` asks for a
    /// redraw on the panel's behalf.
    Panel { repaint: bool },
    /// The canvas gets the event. `repaint` asks for a redraw on the panel's
    /// behalf.
    Canvas { repaint: bool },
}

/// Where an event of `kind` goes, given whether the panel consumed it,
/// whether the panel wants a repaint, and whether the pointer is over the
/// panel.
pub open spec fn spec_route(kind: WindowEventKind, consumed: bool, repaint: bool, pointer_over_panel: bool) -> EventRoute {
    match kind {
        WindowEventKind::CloseRequested => EventRoute::Exit,
        WindowEventKind::Resized => EventRoute::Resize,
        WindowEventKind::RedrawRequested => EventRoute::Render,
        WindowEventKind::Other => if consumed || pointer_over_panel {
            EventRoute::Panel { repaint }
        } else {
            EventRoute::Canvas { repaint }
        },
    }
}

/// Route one window event after the panel has seen it.
pub fn route_window_event(kind: WindowEventKind, consumed: bool, repaint: bool, pointer_over_panel: bool) -> (r: EventRoute)
    ensures
        r == spec_route(kind, consumed, repaint, pointer_over_panel),
        kind == WindowEventKind::CloseRequested ==> r == EventRoute::Exit,
        kind == WindowEventKind::Resized ==> r == EventRoute::Resize,
        kind == WindowEventKind::RedrawRequested ==> r == EventRoute::Render,
        kind == WindowEventKind::Other && (consumed || pointer_over_panel) ==> r == (EventRoute::Panel { repaint }),
        kind == WindowEventKind::Other && !consumed && !pointer_over_panel ==> r == (EventRoute::Canvas { repaint }),
{
    match kind {
        WindowEventKind::CloseRequested => EventRoute::Exit,
        WindowEventKind::Resized => EventRoute::Resize,
        WindowEventKind::RedrawRequested => EventRoute::Render,
        WindowEventKind::Other => {
            if consumed || pointer_over_panel {
                EventRoute::Panel { repaint }
            } else {
                EventRoute::Canvas { repaint }
            }
        },
    }
}

/// When the frame after this one is drawn.
#[derive(Copy, Clone, PartialEq, Eq, Debug, Structural)]
pub enum NextFrame {
    /// Request a redraw now.
    Now,
    /// Wait until the panel's repaint deadline, or for the next event.
    AtPanelDeadline,
}

/// Schedule the next frame: at once when the scene changed or the panel
/// wants a frame without delay, otherwise at the panel's deadline.
pub fn next_frame(scene_changed: bool, panel_repaints_now: bool) -> (r: NextFrame)
    ensures
        r == (if scene_changed || panel_repaints_now {
            NextFrame::Now
        } else {
            NextFrame::AtPanelDeadline
        }),
{
    if scene_changed || panel_repaints_now {
        NextFrame::Now
    } else {
        NextFrame::AtPanelDeadline
    }
}

/// Closing, resizing and drawing never depend on the panel's response.
pub proof fn law_lifecycle_events_ignore_the_panel(consumed: bool, repaint: bool, pointer_over_panel: bool)
    ensures
        spec_route(WindowEventKind::CloseRequested, consumed, repaint, pointer_over_panel) == EventRoute::Exit,
        spec_route(WindowEventKind::Resized, consumed, repaint, pointer_over_panel) == EventRoute::Resize,
        spec_route(WindowEventKind::RedrawRequested, consumed, repaint, pointer_over_panel) == EventRoute::Render,
{
}

/// Any other event goes to the canvas exactly when the panel neither consumed
/// it nor has the pointer, and carries the panel's repaint request either way.
pub proof fn law_other_events(consumed: bool, repaint: bool, pointer_over_panel: bool)
    ensures
        (spec_route(WindowEventKind::Other, consumed, repaint, pointer_over_panel) is Canvas) <==> (!consumed
            && !pointer_over_panel),
        spec_route(WindowEventKind::Other, consumed, repaint, pointer_over_panel) == (EventRoute::Canvas { repaint })
            || spec_route(WindowEventKind::Other, consumed, repaint, pointer_over_panel) == (EventRoute::Panel {
            repaint,
        }),
{
}

/// An event the panel consumed, or any event while the pointer is over the
/// panel, never reaches the canvas.
pub proof fn law_panel_has_first_refusal(consumed: bool, repaint: bool, pointer_over_panel: bool)
    requires
        consumed || pointer_over_panel,
    ensures
        !(spec_route(WindowEventKind::Other, consumed, repaint, pointer_over_panel) is Canvas),
{
}

} // verus!
