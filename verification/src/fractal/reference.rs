//! Bookkeeping for the reference orbit behind perturbation rendering.
//!
//! One point is iterated at high precision (the reference) and every pixel
//! tracks its small delta from it, so one reference serves a neighbourhood of
//! the view and is only rebuilt when the view leaves that neighbourhood or
//! asks for more iterations than the orbit holds.
//!
//! The orbit's points and centre are carried here as opaque values `P` and
//! `C`; the arithmetic that produces them lives with the caller. What this
//! module decides is how long an orbit may grow, when it is complete, and
//! whether a stored orbit can still serve a request.

use vstd::prelude::*;

verus! {

/// Hard cap on stored orbit points, bounding both the CPU work and the
/// storage buffer at `MAX_REF * 8` bytes.
pub const MAX_REF: usize = 100_000;

/// How many orbit points a computation for `max_iter` iterations may store:
/// the starting point plus one per iteration, capped at [`MAX_REF`].
pub open spec fn spec_orbit_capacity(max_iter: u32) -> nat {
    if max_iter + 1 < MAX_REF {
        (max_iter + 1) as nat
    } else {
        MAX_REF as nat
    }
}

/// How many orbit points are needed to serve `max_iter` iterations.
pub open spec fn spec_points_needed(max_iter: u32) -> nat {
    if max_iter < MAX_REF {
        max_iter as nat
    } else {
        MAX_REF as nat
    }
}

/// Number of points a computation for `max_iter` iterations stores at most.
pub fn orbit_capacity(max_iter: u32) -> (r: usize)
    ensures
        r == spec_orbit_capacity(max_iter),
        max_iter as int + 1 <= MAX_REF as int ==> r as int == max_iter as int + 1,
        max_iter as int + 1 > MAX_REF as int ==> r == MAX_REF,
        1 <= r <= MAX_REF,
{
    let wanted: u64 = max_iter as u64 + 1;
    if wanted < MAX_REF as u64 {
        wanted as usize
    } else {
        MAX_REF
    }
}

pub struct Reference<C, P> {
    pub center: C,
    pub orbit: Vec<P>,
    /// Whether the orbit terminated by escaping rather than by running out of
    /// iterations. An escaped orbit is complete: it stays valid no matter how
    /// far `max_iter` later rises.
    pub escaped: bool,
}

impl<C, P> Reference<C, P> {
    /// Whether this is a whole orbit for a budget of `max_iter` iterations:
    /// either it escaped (and holds at least the escaping point), or it used
    /// the whole capacity for that budget.
    pub open spec fn spec_is_complete_for(&self, max_iter: u32) -> bool {
        if self.escaped {
            self.orbit@.len() >= 1
        } else {
            self.orbit@.len() == spec_orbit_capacity(max_iter)
        }
    }

    /// Whether the orbit runs far enough for `max_iter` iterations.
    pub open spec fn spec_covers(&self, max_iter: u32) -> bool {
        self.escaped || self.orbit@.len() >= spec_points_needed(max_iter)
    }

    /// Whether the orbit runs far enough for `max_iter` iterations. A shorter
    /// orbit that escaped is still complete; the shader stops at the escape.
    pub fn covers(&self, max_iter: u32) -> (r: bool)
        ensures
            r == self.spec_covers(max_iter),
            r == (self.escaped || self.orbit@.len() >= (if max_iter as int <= MAX_REF as int {
                max_iter as int
            } else {
                MAX_REF as int
            })),
    {
        let needed: usize = if (max_iter as usize) < MAX_REF {
            max_iter as usize
        } else {
            MAX_REF
        };
        self.escaped || self.orbit.len() >= needed
    }

    /// Whether this orbit can still serve a view that asks for `max_iter`
    /// iterations, given whether the view's centre is near enough to the
    /// reference for the pixel deltas to stay small.
    pub fn is_valid_for(&self, near_enough: bool, max_iter: u32) -> (r: bool)
        ensures
            r == (near_enough && self.spec_covers(max_iter)),
            r == (near_enough && (self.escaped || self.orbit@.len() >= (if max_iter as int
                <= MAX_REF as int {
                max_iter as int
            } else {
                MAX_REF as int
            }))),
    {
        near_enough && self.covers(max_iter)
    }
}

/// An orbit under construction: points are appended one per iteration until
/// the orbit escapes or its capacity for the requested budget is used up.
pub struct OrbitBuilder<C, P> {
    center: C,
    orbit: Vec<P>,
    max_iter: u32,
    cap: usize,
}

impl<C, P> OrbitBuilder<C, P> {
    #[verifier::type_invariant]
    spec fn inv(&self) -> bool {
        &&& self.cap == spec_orbit_capacity(self.max_iter)
        &&& self.orbit@.len() <= self.cap
    }

    /// The centre the orbit is computed for.
    pub closed spec fn spec_center(&self) -> C {
        self.center
    }

    /// The points recorded so far.
    pub closed spec fn points(&self) -> Seq<P> {
        self.orbit@
    }

    /// The iteration budget the orbit is computed for.
    pub closed spec fn spec_max_iter(&self) -> u32 {
        self.max_iter
    }

    /// Start an empty orbit around `center` for `max_iter` iterations.
    pub fn new(center: C, max_iter: u32) -> (r: Self)
        ensures
            r.spec_center() == center,
            r.spec_max_iter() == max_iter,
            r.points() == Seq::<P>::empty(),
    {
        let cap = orbit_capacity(max_iter);
        OrbitBuilder { center, orbit: Vec::new(), max_iter, cap }
    }

    /// The centre the orbit is computed for.
    pub fn center(&self) -> (r: &C)
        ensures
            *r == self.spec_center(),
    {
        &self.center
    }

    /// Whether another point may still be recorded.
    pub fn has_room(&self) -> (r: bool)
        ensures
            r == (self.points().len() < spec_orbit_capacity(self.spec_max_iter())),
            r == (self.points().len() < (if self.spec_max_iter() as int + 1 <= MAX_REF {
                self.spec_max_iter() as int + 1
            } else {
                MAX_REF as int
            })),
    {
        proof {
            use_type_invariant(self);
        }
        self.orbit.len() < self.cap
    }

    /// Record the next point of the orbit.
    pub fn push(&mut self, point: P)
        requires
            old(self).points().len() < spec_orbit_capacity(old(self).spec_max_iter()),
        ensures
            final(self).points() == old(self).points().push(point),
            final(self).spec_center() == old(self).spec_center(),
            final(self).spec_max_iter() == old(self).spec_max_iter(),
    {
        proof {
            use_type_invariant(&*self);
        }
        let mut orbit = Vec::new();
        std::mem::swap(&mut orbit, &mut self.orbit);
        orbit.push(point);
        self.orbit = orbit;
    }

    /// Whether the orbit may be closed with this `escaped` flag: an escaped
    /// orbit holds at least the escaping point, and one that did not escape
    /// has used its whole capacity.
    pub open spec fn spec_can_finish(&self, escaped: bool) -> bool {
        if escaped {
            self.points().len() >= 1
        } else {
            self.points().len() == spec_orbit_capacity(self.spec_max_iter())
        }
    }

    /// Whether the orbit may be closed with this `escaped` flag.
    pub fn can_finish(&self, escaped: bool) -> (r: bool)
        ensures
            r == self.spec_can_finish(escaped),
    {
        proof {
            use_type_invariant(self);
        }
        if escaped {
            self.orbit.len() >= 1
        } else {
            self.orbit.len() == self.cap
        }
    }

    /// Close the orbit. `escaped` says whether the last recorded point left
    /// the bailout radius; an orbit that did not escape is only complete once
    /// its whole capacity has been used.
    pub fn finish(self, escaped: bool) -> (r: Reference<C, P>)
        requires
            self.spec_can_finish(escaped),
        ensures
            r.spec_is_complete_for(self.spec_max_iter()),
            r.orbit@.len() >= 1,
            r.center == self.spec_center(),
            r.orbit@ == self.points(),
            r.escaped == escaped,
            r.orbit@.len() <= MAX_REF,
            !escaped ==> r.orbit@.len() == spec_orbit_capacity(self.spec_max_iter()),
            !escaped ==> r.orbit@.len() == (if self.spec_max_iter() as int + 1 <= MAX_REF {
                self.spec_max_iter() as int + 1
            } else {
                MAX_REF as int
            }),
            r.spec_covers(self.spec_max_iter()),
    {
        proof {
            use_type_invariant(&self);
        }
        let OrbitBuilder { center, orbit, .. } = self;
        Reference { center, orbit, escaped }
    }
}

/// An orbit that covers a budget covers every smaller budget too, so lowering
/// `max_iter` never forces a new reference.
pub proof fn law_lowering_max_iter_keeps_cover<C, P>(r: Reference<C, P>, high: u32, low: u32)
    requires
        low <= high,
        r.spec_covers(high),
    ensures
        r.spec_covers(low),
{
}

/// An escaped orbit is complete: it covers every budget.
pub proof fn law_escaped_orbit_covers_every_budget<C, P>(r: Reference<C, P>, max_iter: u32)
    requires
        r.escaped,
    ensures
        r.spec_covers(max_iter),
{
}

/// An unescaped orbit shorter than the points a budget needs does not cover
/// it, so raising `max_iter` past the orbit forces a new reference.
pub proof fn law_raising_max_iter_past_the_orbit_drops_cover<C, P>(r: Reference<C, P>, max_iter: u32)
    requires
        !r.escaped,
        r.orbit@.len() < max_iter,
        max_iter <= MAX_REF,
    ensures
        !r.spec_covers(max_iter),
{
}

/// The orbit cap is one hundred thousand points.
pub proof fn law_max_ref_is_one_hundred_thousand()
    ensures
        MAX_REF == 100_000,
{
}

/// An orbit covers a budget exactly when it escaped or holds at least as many
/// points as the budget asks for, counting at most [`MAX_REF`] of them.
pub proof fn law_covers_exactly<C, P>(r: Reference<C, P>, max_iter: u32)
    ensures
        r.spec_covers(max_iter) <==> (r.escaped || r.orbit@.len() >= (if max_iter <= MAX_REF {
            max_iter as int
        } else {
            MAX_REF as int
        })),
        max_iter <= MAX_REF ==> (r.spec_covers(max_iter) <==> (r.escaped || r.orbit@.len() >= max_iter)),
        max_iter >= MAX_REF ==> (r.spec_covers(max_iter) <==> (r.escaped || r.orbit@.len() >= MAX_REF)),
{
}

/// An orbit traced for a budget holds the starting point plus one point per
/// iteration, capped at [`MAX_REF`].
pub proof fn law_capacity_exactly(max_iter: u32)
    ensures
        max_iter as int + 1 <= MAX_REF ==> spec_orbit_capacity(max_iter) == max_iter as int + 1,
        max_iter as int + 1 >= MAX_REF ==> spec_orbit_capacity(max_iter) == MAX_REF,
        spec_orbit_capacity(max_iter) >= 1,
{
}

/// An unescaped orbit that is whole for a budget holds exactly the starting
/// point plus one point per iteration, capped at [`MAX_REF`].
pub proof fn law_unescaped_complete_orbit_length<C, P>(r: Reference<C, P>, max_iter: u32)
    requires
        !r.escaped,
        r.spec_is_complete_for(max_iter),
    ensures
        r.orbit@.len() == (if max_iter as int + 1 <= MAX_REF {
            max_iter as int + 1
        } else {
            MAX_REF as int
        }),
{
}

/// A whole orbit for a budget covers that budget, so a reference is never
/// rebuilt for the budget it was built for.
pub proof fn law_complete_orbit_covers_its_budget<C, P>(r: Reference<C, P>, max_iter: u32)
    requires
        r.spec_is_complete_for(max_iter),
    ensures
        r.spec_covers(max_iter),
{
}

/// However large the budget, an orbit never needs or stores more than
/// [`MAX_REF`] points.
pub proof fn law_capacity_is_capped(max_iter: u32)
    ensures
        spec_points_needed(max_iter) <= MAX_REF,
        spec_orbit_capacity(max_iter) <= MAX_REF,
        spec_points_needed(max_iter) <= spec_orbit_capacity(max_iter),
{
}

} // verus!
