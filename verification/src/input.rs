//! Input handling: the pointer state behind canvas gestures (where the cursor
//! is and whether the left button is dragging the view), the keyboard
//! bindings, and what each input event asks for.
//!
//! Positions and wheel amounts are carried as opaque `F`; the application
//! decodes window events into [`InputEvent`]s, and turns the pan endpoints and
//! wheel notches that come back into pan offsets and zoom factors.

use vstd::prelude::*;
use crate::action::Action;

verus! {

/// The keys the explorer reacts to; every other key is `Other`.
#[derive(Copy, Clone, PartialEq, Eq, Debug, Structural)]
pub enum Key {
    Escape,
    R,
    P,
    C,
    BracketRight,
    BracketLeft,
    Other,
}

/// The action bound to a pressed key: `Esc` quits, `R` resets the view, `P`
/// cycles the palette, `C` logs the position, `]` and `[` scale the iteration
/// bias by `up` and `down`; any other key asks for nothing.
pub open spec fn spec_key_action<F, C>(key: Key, up: F, down: F) -> Option<Action<F, C>> {
    match key {
        Key::Escape => Some(Action::Exit),
        Key::R => Some(Action::ResetView),
        Key::P => Some(Action::CyclePalette),
        Key::C => Some(Action::LogPosition),
        Key::BracketRight => Some(Action::ScaleIterBias(up)),
        Key::BracketLeft => Some(Action::ScaleIterBias(down)),
        Key::Other => None,
    }
}

/// The action bound to a pressed key, with `up` and `down` the factors by
/// which `]` and `[` scale the iteration bias.
pub fn key_action<F, C>(key: Key, up: F, down: F) -> (r: Option<Action<F, C>>)
    ensures
        r == spec_key_action::<F, C>(key, up, down),
{
    match key {
        Key::Escape => Some(Action::Exit),
        Key::R => Some(Action::ResetView),
        Key::P => Some(Action::CyclePalette),
        Key::C => Some(Action::LogPosition),
        Key::BracketRight => Some(Action::ScaleIterBias(up)),
        Key::BracketLeft => Some(Action::ScaleIterBias(down)),
        Key::Other => None,
    }
}

/// The Controls table: `Esc` quits, `R` resets the view, `P` cycles the
/// palette, `C` logs the position, `]` scales the iteration bias by `up` and
/// `[` by `down`; every other key asks for nothing.
pub proof fn law_controls_table<F, C>(up: F, down: F)
    ensures
        spec_key_action::<F, C>(Key::Escape, up, down) == Some(Action::<F, C>::Exit),
        spec_key_action::<F, C>(Key::R, up, down) == Some(Action::<F, C>::ResetView),
        spec_key_action::<F, C>(Key::P, up, down) == Some(Action::<F, C>::CyclePalette),
        spec_key_action::<F, C>(Key::C, up, down) == Some(Action::<F, C>::LogPosition),
        spec_key_action::<F, C>(Key::BracketRight, up, down) == Some(Action::<F, C>::ScaleIterBias(up)),
        spec_key_action::<F, C>(Key::BracketLeft, up, down) == Some(Action::<F, C>::ScaleIterBias(down)),
        spec_key_action::<F, C>(Key::Other, up, down) == None::<Action<F, C>>,
        spec_key_response::<F, C>(Key::Other, up, down) == None::<InputResponse<F, C>>,
        spec_key_response::<F, C>(Key::P, up, down) == Some(InputResponse::<F, C>::Act(Action::CyclePalette)),
{
}

/// A window event, as far as canvas input cares.
pub enum InputEvent<F> {
    /// The cursor moved to this position.
    CursorMoved(F, F),
    /// The left mouse button went down (`pressed`) or up.
    LeftButton { pressed: bool },
    /// The cursor left the window.
    CursorLeft,
    /// The wheel turned by this many notches (positive: away from the user).
    Wheel(F),
    /// A key went down.
    KeyPressed(Key),
    /// Anything else.
    Ignored,
}

/// What an input event asks of the explorer.
#[derive(PartialEq, Debug)]
pub enum InputResponse<F, C> {
    /// Pan the view by the cursor's travel from `from` to `to`.
    Pan { from: (F, F), to: (F, F) },
    /// Zoom about the cursor position `at` by `notches` wheel notches.
    ZoomAt { at: (F, F), notches: F },
    /// Carry out this action.
    Act(Action<F, C>),
}

/// What a pressed key asks for.
pub open spec fn spec_key_response<F, C>(key: Key, up: F, down: F) -> Option<InputResponse<F, C>> {
    match spec_key_action::<F, C>(key, up, down) {
        Some(a) => Some(InputResponse::Act(a)),
        None => None,
    }
}

pub struct InputState<F> {
    cursor: (F, F),
    dragging: bool,
}

impl<F> InputState<F> {
    /// The last reported cursor position.
    pub closed spec fn spec_cursor(&self) -> (F, F) {
        self.cursor
    }

    /// Whether the left button is held down over the canvas.
    pub closed spec fn spec_dragging(&self) -> bool {
        self.dragging
    }

    /// Pointer state with the cursor at `cursor` and no drag in progress.
    pub fn new(cursor: (F, F)) -> (r: Self)
        ensures
            r.spec_cursor() == cursor,
            !r.spec_dragging(),
    {
        InputState { cursor, dragging: false }
    }

    /// Forget any drag in progress (the pointer left the canvas, or the
    /// panel took the event).
    pub fn cancel_drag(&mut self)
        ensures
            !final(self).spec_dragging(),
            final(self).spec_cursor() == old(self).spec_cursor(),
    {
        self.dragging = false;
    }

    /// The left button went down (`pressed`) or up.
    pub fn left_button(&mut self, pressed: bool)
        ensures
            final(self).spec_dragging() == pressed,
            final(self).spec_cursor() == old(self).spec_cursor(),
    {
        self.dragging = pressed;
    }

    /// The cursor moved to `position`. While dragging, the previous position
    /// comes back so the caller can pan by the difference; otherwise nothing
    /// does.
    pub fn cursor_moved(&mut self, position: (F, F)) -> (r: Option<(F, F)>)
        ensures
            final(self).spec_cursor() == position,
            final(self).spec_dragging() == old(self).spec_dragging(),
            r == (if old(self).spec_dragging() {
                Some(old(self).spec_cursor())
            } else {
                None
            }),
    {
        let mut previous = position;
        std::mem::swap(&mut previous, &mut self.cursor);
        if self.dragging {
            Some(previous)
        } else {
            None
        }
    }

    /// The last reported cursor position, the anchor for wheel zooms.
    pub fn cursor(&self) -> (r: &(F, F))
        ensures
            *r == self.spec_cursor(),
    {
        &self.cursor
    }

    pub fn is_dragging(&self) -> (r: bool)
        ensures
            r == self.spec_dragging(),
    {
        self.dragging
    }
}

impl<F: Copy> InputState<F> {
    /// Take one input event: update the pointer state and say what it asks
    /// for. `up` and `down` are the iteration-bias factors of `]` and `[`.
    pub fn handle<C>(&mut self, event: InputEvent<F>, up: F, down: F) -> (r: Option<InputResponse<F, C>>)
        ensures
            match event {
                InputEvent::CursorMoved(x, y) => {
                    &&& final(self).spec_cursor() == (x, y)
                    &&& final(self).spec_dragging() == old(self).spec_dragging()
                    &&& r == (if old(self).spec_dragging() {
                        Some(InputResponse::<F, C>::Pan { from: old(self).spec_cursor(), to: (x, y) })
                    } else {
                        None
                    })
                },
                InputEvent::LeftButton { pressed } => {
                    &&& final(self).spec_dragging() == pressed
                    &&& final(self).spec_cursor() == old(self).spec_cursor()
                    &&& r == None::<InputResponse<F, C>>
                },
                InputEvent::CursorLeft => {
                    &&& !final(self).spec_dragging()
                    &&& final(self).spec_cursor() == old(self).spec_cursor()
                    &&& r == None::<InputResponse<F, C>>
                },
                InputEvent::Wheel(notches) => {
                    &&& final(self).spec_dragging() == old(self).spec_dragging()
                    &&& final(self).spec_cursor() == old(self).spec_cursor()
                    &&& r == Some(InputResponse::<F, C>::ZoomAt { at: old(self).spec_cursor(), notches })
                },
                InputEvent::KeyPressed(key) => {
                    &&& final(self).spec_dragging() == old(self).spec_dragging()
                    &&& final(self).spec_cursor() == old(self).spec_cursor()
                    &&& r == spec_key_response::<F, C>(key, up, down)
                },
                InputEvent::Ignored => {
                    &&& final(self).spec_dragging() == old(self).spec_dragging()
                    &&& final(self).spec_cursor() == old(self).spec_cursor()
                    &&& r == None::<InputResponse<F, C>>
                },
            },
    {
        match event {
            InputEvent::CursorMoved(x, y) => {
                let from = self.cursor;
                let moved = self.cursor_moved((x, y));
                match moved {
                    Some(_) => Some(InputResponse::Pan { from, to: (x, y) }),
                    None => None,
                }
            },
            InputEvent::LeftButton { pressed } => {
                self.left_button(pressed);
                None
            },
            InputEvent::CursorLeft => {
                self.cancel_drag();
                None
            },
            InputEvent::Wheel(notches) => Some(InputResponse::ZoomAt { at: self.cursor, notches }),
            InputEvent::KeyPressed(key) => match key_action::<F, C>(key, up, down) {
                Some(a) => Some(InputResponse::Act(a)),
                None => None,
            },
            InputEvent::Ignored => None,
        }
    }
}

} // verus!
