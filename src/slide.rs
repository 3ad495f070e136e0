//! Control of the multi-bounce slide that corrects the player's velocity.
//!
//! Each tick the player's collider is cast along its velocity for the distance
//! it would travel. On a hit the travelled part is kept, the rest of the motion
//! is projected onto the surface it hit, and the cast is repeated from there
//! along that tangent; a clear cast keeps the whole remaining motion. The
//! displacements are summed, and the velocity is turned to the direction of
//! the sum while keeping its speed.
//!
//! The vector arithmetic and the casts belong to the caller. This module
//! decides when the loop goes on and when it stops, and whether the summed
//! displacement replaces the velocity's direction. The loop casts at most
//! `MAX_BOUNCES` times, whatever the casts return.
use vstd::prelude::*;

verus! {

/// Most casts made in one tick.
pub const MAX_BOUNCES: u32 = 5;

/// What one cast along the current direction found.
#[derive(Clone, Copy, Debug, PartialEq, Eq)]
pub enum CastOutcome {
    /// Nothing within the remaining distance: the caller adds the remaining
    /// motion to the slide.
    Clear,
    /// A surface: the caller adds the travelled part to the slide and projects
    /// the rest onto the surface. `tangent_degenerate` tells that the
    /// projection is too short to give a direction (the surface absorbed the
    /// motion).
    Hit { tangent_degenerate: bool },
}

/// Why the loop stopped.
#[derive(Clone, Copy, Debug, PartialEq, Eq)]
pub enum SlideStop {
    /// The velocity was too short to give a direction: nothing was cast.
    NoMotion,
    /// A cast was clear.
    Clear,
    /// A surface absorbed what was left of the motion.
    Absorbed,
    /// `MAX_BOUNCES` casts all hit.
    Exhausted,
}

/// What becomes of the velocity once the loop has stopped.
#[derive(Clone, Copy, Debug, PartialEq, Eq)]
pub enum SlideVerdict {
    /// Leave the velocity as it was.
    KeepVelocity,
    /// Turn the velocity to the direction of the summed slide, keeping its
    /// speed.
    Redirect,
}

/// The state of one tick's bounce loop.
#[derive(Clone, Copy, Debug, PartialEq, Eq)]
pub struct SlideLoop {
    /// Casts made so far.
    pub casts: u32,
    /// Why the loop stopped, or `None` while it goes on.
    pub stop: Option<SlideStop>,
}

/// The loop before its first cast.
pub open spec fn fresh_loop(velocity_degenerate: bool) -> SlideLoop {
    SlideLoop {
        casts: 0,
        stop: if velocity_degenerate {
            Some(SlideStop::NoMotion)
        } else {
            None
        },
    }
}

/// The loop after a cast with outcome `o`.
pub open spec fn step(s: SlideLoop, o: CastOutcome) -> SlideLoop {
    let casts = (s.casts + 1) as u32;
    SlideLoop {
        casts,
        stop: match o {
            CastOutcome::Clear => Some(SlideStop::Clear),
            CastOutcome::Hit { tangent_degenerate } => {
                if tangent_degenerate {
                    Some(SlideStop::Absorbed)
                } else if casts >= MAX_BOUNCES {
                    Some(SlideStop::Exhausted)
                } else {
                    None
                }
            },
        },
    }
}

/// The loop after a run of casts; outcomes after it stopped are not cast.
pub open spec fn run(s: SlideLoop, outcomes: Seq<CastOutcome>) -> SlideLoop
    decreases outcomes.len(),
{
    if outcomes.len() == 0 {
        s
    } else {
        let before = run(s, outcomes.drop_last());
        if before.stop.is_some() {
            before
        } else {
            step(before, outcomes.last())
        }
    }
}

/// What the loop decides once stopped, given whether the summed slide is too
/// short to give a direction.
pub open spec fn verdict_spec(stop: SlideStop, slide_degenerate: bool) -> SlideVerdict {
    if stop == SlideStop::NoMotion || slide_degenerate {
        SlideVerdict::KeepVelocity
    } else {
        SlideVerdict::Redirect
    }
}

impl SlideLoop {
    /// The state invariant: a running loop has a cast left, and a loop that
    /// never had a direction cast nothing.
    pub open spec fn wf(&self) -> bool {
        &&& self.casts <= MAX_BOUNCES
        &&& self.stop.is_none() ==> self.casts < MAX_BOUNCES
        &&& self.stop == Some(SlideStop::NoMotion) ==> self.casts == 0
    }

    /// Casts that may still be made.
    pub open spec fn casts_left(&self) -> nat {
        if self.stop.is_some() {
            0
        } else {
            (MAX_BOUNCES - self.casts) as nat
        }
    }

    /// Starts a tick's loop. A velocity too short to give a direction has
    /// nothing to resolve, and the loop is stopped from the start.
    pub fn start(velocity_degenerate: bool) -> (r: Self)
        ensures
            r == fresh_loop(velocity_degenerate),
            r.wf(),
            r.casts_left() <= MAX_BOUNCES,
    {
        SlideLoop {
            casts: 0,
            stop: if velocity_degenerate {
                Some(SlideStop::NoMotion)
            } else {
                None
            },
        }
    }

    /// Whether the caller casts again.
    pub fn wants_cast(&self) -> (r: bool)
        ensures
            r == self.stop.is_none(),
    {
        self.stop.is_none()
    }

    /// Takes in the outcome of the cast just made. The loop stops on a clear
    /// cast, on a hit that leaves no direction, and after the last allowed
    /// cast; every call leaves fewer casts to make.
    pub fn record(&mut self, outcome: CastOutcome)
        requires
            old(self).wf(),
            old(self).stop.is_none(),
        ensures
            *final(self) == step(*old(self), outcome),
            final(self).wf(),
            final(self).casts_left() < old(self).casts_left(),
    {
        let casts = self.casts + 1;
        let stop = match outcome {
            CastOutcome::Clear => Some(SlideStop::Clear),
            CastOutcome::Hit { tangent_degenerate } => {
                if tangent_degenerate {
                    Some(SlideStop::Absorbed)
                } else if casts >= MAX_BOUNCES {
                    Some(SlideStop::Exhausted)
                } else {
                    None
                }
            },
        };
        self.casts = casts;
        self.stop = stop;
    }

    /// The decision once the loop has stopped. A slide too short to give a
    /// direction (the player wedged in a corner) leaves the velocity as it
    /// was, as does a velocity that had no direction; otherwise the velocity
    /// takes the slide's direction, also when the casts ran out, so that the
    /// bounces already made are kept.
    pub fn verdict(&self, slide_degenerate: bool) -> (r: SlideVerdict)
        requires
            self.stop.is_some(),
        ensures
            r == verdict_spec(self.stop.unwrap(), slide_degenerate),
            slide_degenerate ==> r == SlideVerdict::KeepVelocity,
    {
        match self.stop {
            Some(SlideStop::NoMotion) => SlideVerdict::KeepVelocity,
            _ => {
                if slide_degenerate {
                    SlideVerdict::KeepVelocity
                } else {
                    SlideVerdict::Redirect
                }
            },
        }
    }
}

proof fn lemma_run_prefix(outcomes: Seq<CastOutcome>, velocity_degenerate: bool, n: int)
    requires
        0 <= n <= outcomes.len(),
    ensures
        run(fresh_loop(velocity_degenerate), outcomes.take(n)).wf(),
        run(fresh_loop(velocity_degenerate), outcomes.take(n)).stop.is_some() || run(
            fresh_loop(velocity_degenerate),
            outcomes.take(n),
        ).casts == n,
    decreases n,
{
    if n > 0 {
        lemma_run_prefix(outcomes, velocity_degenerate, n - 1);
        assert(outcomes.take(n).drop_last() =~= outcomes.take(n - 1));
    }
}

/// Whatever the casts return, the loop has stopped after `MAX_BOUNCES` of
/// them, having cast at most that many times.
pub proof fn lemma_slide_terminates(outcomes: Seq<CastOutcome>, velocity_degenerate: bool)
    requires
        outcomes.len() >= MAX_BOUNCES,
    ensures
        run(fresh_loop(velocity_degenerate), outcomes.take(MAX_BOUNCES as int)).stop.is_some(),
        forall|n: int|
            0 <= n <= outcomes.len() ==> #[trigger] run(
                fresh_loop(velocity_degenerate),
                outcomes.take(n),
            ).casts <= MAX_BOUNCES,
{
    lemma_run_prefix(outcomes, velocity_degenerate, MAX_BOUNCES as int);
    assert forall|n: int| 0 <= n <= outcomes.len() implies #[trigger] run(
        fresh_loop(velocity_degenerate),
        outcomes.take(n),
    ).casts <= MAX_BOUNCES by {
        lemma_run_prefix(outcomes, velocity_degenerate, n);
    }
}

/// A stopped loop whose summed slide is too short to give a direction leaves
/// the velocity unchanged, however it stopped.
pub proof fn lemma_degenerate_slide_keeps_velocity(stop: SlideStop)
    ensures
        verdict_spec(stop, true) == SlideVerdict::KeepVelocity,
{
}

} // verus!
