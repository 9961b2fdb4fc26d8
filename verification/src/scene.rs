//! The user-editable state of the explorer, and the one place it is mutated.
//!
//! The camera `V` and the reference orbit's centre `C` and points `P` are
//! carried opaquely: the application moves the camera and computes orbits,
//! and reports back what happened. The scene owns the palette, the stored
//! reference with its generation counter, and every redraw decision.

use vstd::prelude::*;
use crate::action::Action;
use crate::fractal::palette::{Palette, palette_next, palette_index};
use crate::fractal::reference::{OrbitBuilder, Reference, MAX_REF};

verus! {

#[derive(Copy, Clone, PartialEq, Eq, Debug, Structural)]
#[must_use]
pub enum Redraw {
    Yes,
    No,
}

/// The redraw owed for a change (or lack of one).
pub open spec fn spec_redraw_from_changed(changed: bool) -> Redraw {
    if changed {
        Redraw::Yes
    } else {
        Redraw::No
    }
}

impl Redraw {
    pub fn is_needed(self) -> (r: bool)
        ensures
            r == (self == Redraw::Yes),
    {
        match self {
            Redraw::Yes => true,
            Redraw::No => false,
        }
    }

    pub fn from_changed(changed: bool) -> (r: Self)
        ensures
            r == spec_redraw_from_changed(changed),
            (r == Redraw::Yes) == changed,
    {
        if changed {
            Redraw::Yes
        } else {
            Redraw::No
        }
    }
}

/// What [`Scene::apply`] owes for `action`, given the palette before it and,
/// for the actions that move the camera, whether the camera reported a change.
pub open spec fn spec_apply_redraw<F, AC>(action: Action<F, AC>, palette: Palette, view_changed: bool) -> Redraw {
    match action {
        Action::Pan { .. } => Redraw::Yes,
        Action::ZoomAt { .. } => Redraw::Yes,
        Action::SetCenter(_) => spec_redraw_from_changed(view_changed),
        Action::ScaleIterBias(_) => spec_redraw_from_changed(view_changed),
        Action::SetIterBias(_) => spec_redraw_from_changed(view_changed),
        Action::SetPalette(p) => spec_redraw_from_changed(palette != p),
        Action::CyclePalette => Redraw::Yes,
        Action::ResetView => Redraw::Yes,
        Action::LogPosition => Redraw::No,
        Action::Exit => Redraw::No,
    }
}

/// The palette after [`Scene::apply`] of `action`.
pub open spec fn spec_apply_palette<F, AC>(action: Action<F, AC>, palette: Palette) -> Palette {
    match action {
        Action::SetPalette(p) => p,
        Action::CyclePalette => palette_next(palette),
        _ => palette,
    }
}

pub struct Scene<V, C, P> {
    pub view: V,
    pub palette: Palette,
    reference: Reference<C, P>,
    /// Bumped whenever `reference` is replaced, so the renderer can tell
    /// whether its uploaded copy is still current.
    reference_generation: u64,
}

impl<V, C, P> Scene<V, C, P> {
    /// The camera.
    pub closed spec fn spec_view(&self) -> V {
        self.view
    }

    /// The active palette.
    pub closed spec fn spec_palette(&self) -> Palette {
        self.palette
    }

    /// The stored reference orbit.
    pub closed spec fn spec_reference(&self) -> Reference<C, P> {
        self.reference
    }

    /// How many times the reference has been replaced.
    pub closed spec fn spec_generation(&self) -> u64 {
        self.reference_generation
    }

    /// A scene around `view`, with the default palette and `reference` as
    /// its first reference orbit.
    pub fn new(view: V, reference: Reference<C, P>) -> (r: Self)
        ensures
            r.spec_view() == view,
            r.spec_palette() == Palette::Rainbow,
            r.spec_reference() == reference,
            r.spec_generation() == 0,
    {
        Scene { view, palette: Palette::Rainbow, reference, reference_generation: 0 }
    }

    pub fn reference(&self) -> (r: &Reference<C, P>)
        ensures
            *r == self.spec_reference(),
    {
        &self.reference
    }

    pub fn reference_generation(&self) -> (r: u64)
        ensures
            r == self.spec_generation(),
    {
        self.reference_generation
    }

    /// Whether the stored reference must be rebuilt before a view asking for
    /// `max_iter` iterations can be drawn.
    pub open spec fn spec_needs_new_reference(&self, near_enough: bool, max_iter: u32) -> bool {
        !(near_enough && self.spec_reference().spec_covers(max_iter))
    }

    /// Whether the stored reference must be rebuilt before the view can be
    /// drawn: it must lie near enough to the view's centre, and cover the
    /// view's iteration budget.
    pub fn needs_new_reference(&self, near_enough: bool, max_iter: u32) -> (r: bool)
        ensures
            r == self.spec_needs_new_reference(near_enough, max_iter),
            r == !(near_enough && (self.spec_reference().escaped || self.spec_reference().orbit@.len()
                >= (if max_iter <= MAX_REF {
                max_iter as int
            } else {
                MAX_REF as int
            }))),
    {
        !self.reference.is_valid_for(near_enough, max_iter)
    }

    /// Close a freshly traced orbit and install it as the reference, moving
    /// the generation forward. The new reference covers the budget it was
    /// traced for, so asking again for that budget near its centre rebuilds
    /// nothing.
    pub fn install_orbit(&mut self, orbit: OrbitBuilder<C, P>, escaped: bool)
        requires
            old(self).spec_generation() < u64::MAX,
            orbit.spec_can_finish(escaped),
        ensures
            final(self).spec_reference().center == orbit.spec_center(),
            final(self).spec_reference().orbit@ == orbit.points(),
            final(self).spec_reference().escaped == escaped,
            final(self).spec_reference().spec_is_complete_for(orbit.spec_max_iter()),
            !final(self).spec_needs_new_reference(true, orbit.spec_max_iter()),
            final(self).spec_generation() == old(self).spec_generation() + 1,
            final(self).spec_view() == old(self).spec_view(),
            final(self).spec_palette() == old(self).spec_palette(),
    {
        let fresh = orbit.finish(escaped);
        self.reference = fresh;
        self.reference_generation = self.reference_generation + 1;
    }

    /// Apply one action. The single mutation point for the scene's own state.
    ///
    /// The camera carries out the actions that move it before this is called;
    /// `view_changed` is what it reported for `SetCenter` and for the two
    /// iteration-bias actions, and is not read for any other action.
    pub fn apply<F, AC>(&mut self, action: Action<F, AC>, view_changed: bool) -> (r: Redraw)
        ensures
            r == spec_apply_redraw(action, old(self).spec_palette(), view_changed),
            (action is Pan || action is ZoomAt || action is ResetView || action is CyclePalette)
                ==> r == Redraw::Yes,
            (action is SetCenter || action is ScaleIterBias || action is SetIterBias) ==> ((r
                == Redraw::Yes) == view_changed),
            (action is LogPosition || action is Exit) ==> r == Redraw::No,
            action matches Action::SetPalette(p) ==> ((r == Redraw::Yes) == (old(self).spec_palette()
                != p) && final(self).spec_palette() == p),
            action is CyclePalette ==> palette_index(final(self).spec_palette()) == (palette_index(
                old(self).spec_palette()) + 1) % 4,
            !(action is SetPalette || action is CyclePalette) ==> final(self).spec_palette()
                == old(self).spec_palette(),
            final(self).spec_palette() == spec_apply_palette(action, old(self).spec_palette()),
            final(self).spec_view() == old(self).spec_view(),
            final(self).spec_reference() == old(self).spec_reference(),
            final(self).spec_generation() == old(self).spec_generation(),
    {
        match action {
            Action::Pan { .. } => Redraw::Yes,
            Action::ZoomAt { .. } => Redraw::Yes,
            Action::SetCenter(_) => Redraw::from_changed(view_changed),
            Action::ScaleIterBias(_) => Redraw::from_changed(view_changed),
            Action::SetIterBias(_) => Redraw::from_changed(view_changed),
            Action::SetPalette(p) => {
                let changed = self.palette != p;
                self.palette = p;
                Redraw::from_changed(changed)
            },
            Action::CyclePalette => {
                self.palette = self.palette.next();
                Redraw::Yes
            },
            Action::ResetView => Redraw::Yes,
            Action::LogPosition => Redraw::No,
            Action::Exit => Redraw::No,
        }
    }
}

/// The redraw owed for each action: camera moves, resets and palette cycling
/// always redraw; a jump or an iteration-bias change redraws exactly when the
/// camera reports a change; choosing a palette redraws exactly when it differs
/// from the current one; logging and quitting never redraw.
pub proof fn law_apply_redraw<F, AC>(action: Action<F, AC>, palette: Palette, view_changed: bool)
    ensures
        (action is Pan || action is ZoomAt || action is ResetView || action is CyclePalette)
            ==> spec_apply_redraw(action, palette, view_changed) == Redraw::Yes,
        (action is SetCenter || action is ScaleIterBias || action is SetIterBias) ==> ((
        spec_apply_redraw(action, palette, view_changed) == Redraw::Yes) == view_changed),
        (action is LogPosition || action is Exit) ==> spec_apply_redraw(action, palette, view_changed)
            == Redraw::No,
        action matches Action::SetPalette(p) ==> ((spec_apply_redraw(action, palette, view_changed)
            == Redraw::Yes) == (palette != p)),
{
}

/// Choosing a palette selects it; cycling steps to the next shader index,
/// wrapping after the last; no other action touches the palette.
pub proof fn law_apply_palette<F, AC>(action: Action<F, AC>, palette: Palette)
    ensures
        action matches Action::SetPalette(p) ==> spec_apply_palette(action, palette) == p,
        action is CyclePalette ==> palette_index(spec_apply_palette(action, palette)) == (
        palette_index(palette) + 1) % 4,
        action is CyclePalette && palette == Palette::Rainbow ==> spec_apply_palette(action, palette)
            == Palette::Ember,
        action is CyclePalette && palette == Palette::Ember ==> spec_apply_palette(action, palette)
            == Palette::Ocean,
        action is CyclePalette && palette == Palette::Ocean ==> spec_apply_palette(action, palette)
            == Palette::Grey,
        action is CyclePalette && palette == Palette::Grey ==> spec_apply_palette(action, palette)
            == Palette::Rainbow,
        !(action is SetPalette || action is CyclePalette) ==> spec_apply_palette(action, palette)
            == palette,
{
}

/// A stored reference that is whole for a budget is kept for that budget
/// while the view stays near it: a sync right after a rebuild, or any number
/// of syncs with nothing moving, rebuild nothing.
pub proof fn law_complete_reference_is_kept<V, C, P>(s: Scene<V, C, P>, max_iter: u32, lower: u32)
    requires
        s.spec_reference().spec_is_complete_for(max_iter),
        lower <= max_iter,
    ensures
        !s.spec_needs_new_reference(true, max_iter),
        !s.spec_needs_new_reference(true, lower),
{
}

/// A reference is rebuilt exactly when the view has left its neighbourhood
/// or asks for more iterations than it holds and it did not escape.
pub proof fn law_rebuild_condition<V, C, P>(s: Scene<V, C, P>, near_enough: bool, max_iter: u32)
    ensures
        s.spec_needs_new_reference(near_enough, max_iter) <==> (!near_enough || (!s.spec_reference().escaped
            && s.spec_reference().orbit@.len() < (if max_iter <= MAX_REF {
            max_iter as int
        } else {
            MAX_REF as int
        }))),
{
}

} // verus!
