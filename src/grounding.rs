//! Grounded/airborne classification and the gravity it selects.
//!
//! Each fixed tick the player's collider is cast a short way down. A hit means
//! the player is grounded: no gravity is applied, and on the tick that turns
//! an airborne player into a grounded one a landing-quality grade is taken.
//! No hit means airborne: gravity pulls, harder while fast fall is held.
use vstd::prelude::*;

verus! {

/// Gravity multiplier while airborne.
pub const BASE_GRAVITY_MULTIPLIER: u32 = 2;

/// Gravity multiplier while airborne with fast fall held.
pub const FAST_FALL_GRAVITY_MULTIPLIER: u32 = 7;

/// Multiplier of standard gravity for one tick; zero means no gravity.
pub open spec fn gravity_multiplier_spec(grounded: bool, fast_fall: bool) -> u32 {
    if grounded {
        0
    } else if fast_fall {
        FAST_FALL_GRAVITY_MULTIPLIER
    } else {
        BASE_GRAVITY_MULTIPLIER
    }
}

/// Multiplier of standard gravity for a tick: zero when grounded, else the
/// fast-fall multiplier while fast fall is held and the base one otherwise.
pub fn gravity_multiplier(grounded: bool, fast_fall: bool) -> (r: u32)
    ensures
        r == gravity_multiplier_spec(grounded, fast_fall),
{
    if grounded {
        0
    } else if fast_fall {
        FAST_FALL_GRAVITY_MULTIPLIER
    } else {
        BASE_GRAVITY_MULTIPLIER
    }
}

/// Grade of a landing, from the alignment of the ground's tangent with the
/// velocity the player had on the tick before.
#[derive(Clone, Copy, Debug, PartialEq, Eq)]
pub enum LandingQuality {
    Perfect,
    Good,
    Fair,
    Meh,
}

/// Lowest alignment, in ten-thousandths of cosine similarity, of each grade.
pub const PERFECT_ALIGNMENT: i32 = 9900;
pub const GOOD_ALIGNMENT: i32 = 9800;
pub const FAIR_ALIGNMENT: i32 = 9500;

pub open spec fn landing_quality_spec(alignment: i32) -> LandingQuality {
    if alignment >= PERFECT_ALIGNMENT {
        LandingQuality::Perfect
    } else if alignment >= GOOD_ALIGNMENT {
        LandingQuality::Good
    } else if alignment >= FAIR_ALIGNMENT {
        LandingQuality::Fair
    } else {
        LandingQuality::Meh
    }
}

/// Grades a landing. `alignment` is the cosine similarity between the
/// ground's tangent and the previous tick's direction of travel, in
/// ten-thousandths (rounded down); a direction that could not be taken counts
/// as no alignment at all.
pub fn landing_quality(alignment: i32) -> (r: LandingQuality)
    ensures
        r == landing_quality_spec(alignment),
{
    if alignment >= PERFECT_ALIGNMENT {
        LandingQuality::Perfect
    } else if alignment >= GOOD_ALIGNMENT {
        LandingQuality::Good
    } else if alignment >= FAIR_ALIGNMENT {
        LandingQuality::Fair
    } else {
        LandingQuality::Meh
    }
}

/// What the ground probe decided for one tick.
#[derive(Clone, Copy, Debug, PartialEq, Eq)]
pub struct ProbeOutcome {
    /// The player has just landed: grade the landing this tick.
    pub landed: bool,
    /// Multiplier of standard gravity to apply this tick (zero when grounded).
    pub gravity_multiplier: u32,
}

/// The grounded flag, kept from one tick to the next.
#[derive(Clone, Copy, Debug, PartialEq, Eq)]
pub struct GroundProbe {
    pub grounded: bool,
}

/// The probe's state after a tick whose downward cast hit (`hit`) or not.
pub open spec fn next_grounded(hit: bool) -> bool {
    hit
}

/// Whether a tick grades a landing: the cast hits after an airborne tick.
pub open spec fn lands(was_grounded: bool, hit: bool) -> bool {
    hit && !was_grounded
}

impl GroundProbe {
    /// A probe for a player that starts airborne.
    pub fn new() -> (r: Self)
        ensures
            !r.grounded,
    {
        GroundProbe { grounded: false }
    }

    /// One tick of the probe: `hit` tells whether the downward cast found
    /// ground, `fast_fall` whether fast fall is held.
    pub fn tick(&mut self, hit: bool, fast_fall: bool) -> (r: ProbeOutcome)
        ensures
            final(self).grounded == next_grounded(hit),
            r.landed == lands(old(self).grounded, hit),
            r.gravity_multiplier == gravity_multiplier_spec(hit, fast_fall),
    {
        let landed = hit && !self.grounded;
        self.grounded = hit;
        ProbeOutcome { landed, gravity_multiplier: gravity_multiplier(hit, fast_fall) }
    }
}

/// Grounded flag after a run of ticks with the given cast results.
pub open spec fn grounded_after(start: bool, hits: Seq<bool>) -> bool
    decreases hits.len(),
{
    if hits.len() == 0 {
        start
    } else {
        next_grounded(hits.last())
    }
}

/// Number of ticks of a run on which the probe grades a landing.
pub open spec fn landings_in_run(start: bool, hits: Seq<bool>) -> nat
    decreases hits.len(),
{
    if hits.len() == 0 {
        0
    } else {
        let before = hits.drop_last();
        landings_in_run(start, before) + if lands(grounded_after(start, before), hits.last()) {
            1nat
        } else {
            0nat
        }
    }
}

/// Ticks of a run that turn an airborne player into a grounded one, where the
/// state before the first tick is `start`.
pub open spec fn transition_ticks(start: bool, hits: Seq<bool>) -> Set<int> {
    Set::new(
        |i: int|
            0 <= i < hits.len() && hits[i] && !(if i == 0 {
                start
            } else {
                hits[i - 1]
            }),
    )
}

/// Number of airborne-to-grounded transitions in a run of cast results.
pub open spec fn transitions_in_run(start: bool, hits: Seq<bool>) -> nat {
    transition_ticks(start, hits).len()
}

/// Over any run of ticks, the probe grades exactly one landing per
/// airborne-to-grounded transition, and none on a tick that stays grounded.
pub proof fn lemma_one_landing_per_transition(start: bool, hits: Seq<bool>)
    ensures
        landings_in_run(start, hits) == transitions_in_run(start, hits),
        forall|i: int|
            1 <= i < hits.len() && hits[i - 1] && hits[i] ==> !lands(
                grounded_after(start, hits.take(i)),
                #[trigger] hits[i],
            ),
    decreases hits.len(),
{
    let s = transition_ticks(start, hits);
    if hits.len() == 0 {
        assert(s =~= Set::<int>::empty());
    } else {
        let before = hits.drop_last();
        let n = hits.len() - 1;
        lemma_one_landing_per_transition(start, before);
        let t = transition_ticks(start, before);
        lemma_finite_index_set(t, before.len() as int);
        let prev = if n == 0 {
            start
        } else {
            hits[n - 1]
        };
        assert(grounded_after(start, before) == prev);
        if hits[n] && !prev {
            assert(s =~= t.insert(n));
            assert(!t.contains(n));
            assert(t.insert(n).len() == t.len() + 1);
        } else {
            assert(s =~= t);
        }
    }
    assert forall|i: int|
        1 <= i < hits.len() && hits[i - 1] && hits[i] implies !lands(
        grounded_after(start, hits.take(i)),
        #[trigger] hits[i],
    ) by {
        assert(hits.take(i).last() == hits[i - 1]);
    }
}

proof fn lemma_finite_index_set(s: Set<int>, n: int)
    requires
        0 <= n,
        forall|i: int| s.contains(i) ==> 0 <= i < n,
    ensures
        s.finite(),
{
    let full = Set::new(|i: int| 0 <= i < n);
    assert(full =~= vstd::set_lib::set_int_range(0, n));
    vstd::set_lib::lemma_int_range(0, n);
    assert(s.subset_of(full));
    vstd::set_lib::lemma_len_subset(s, full);
}

} // verus!
