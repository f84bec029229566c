//! The phases of an enemy tick, the markers the rest of the game sets on
//! enemies, and the collision pass's say on navigation.
use vstd::prelude::*;
use crate::agent::{Enemy, EnemyView, Navigation};

verus! {

/// The phases of a tick that the enemy engine owns, in the order they run.
#[derive(Clone, Copy, Debug, PartialEq, Eq, Structural, Hash)]
pub enum EnemyStateSet {
    Behavior,
    Collisions,
    Transition,
    Animation,
}

pub open spec fn phase_rank(s: EnemyStateSet) -> int {
    match s {
        EnemyStateSet::Behavior => 0,
        EnemyStateSet::Collisions => 1,
        EnemyStateSet::Transition => 2,
        EnemyStateSet::Animation => 3,
    }
}

impl EnemyStateSet {
    /// Place of the phase in a tick.
    pub fn rank(&self) -> (r: u8)
        ensures
            r == phase_rank(*self),
    {
        match self {
            EnemyStateSet::Behavior => 0,
            EnemyStateSet::Collisions => 1,
            EnemyStateSet::Transition => 2,
            EnemyStateSet::Animation => 3,
        }
    }

    /// Whether this phase runs before `other` within a tick.
    pub fn runs_before(&self, other: &EnemyStateSet) -> (r: bool)
        ensures
            r == (phase_rank(*self) < phase_rank(*other)),
    {
        self.rank() < other.rank()
    }
}

/// The enemy engine: spawning, behaviour, transitions, in a fixed order.
#[derive(Clone, Copy, Debug, PartialEq, Eq, Structural)]
pub struct EnemyPlugin;

impl EnemyPlugin {
    /// The phases of one tick, in order.
    pub fn schedule(&self) -> (r: Vec<EnemyStateSet>)
        ensures
            r@ == seq![
                EnemyStateSet::Behavior,
                EnemyStateSet::Collisions,
                EnemyStateSet::Transition,
                EnemyStateSet::Animation,
            ],
    {
        vec![
            EnemyStateSet::Behavior,
            EnemyStateSet::Collisions,
            EnemyStateSet::Transition,
            EnemyStateSet::Animation,
        ]
    }
}

/// Marker: the enemy was hit on this tick.
#[derive(Clone, Copy, Debug, PartialEq, Eq, Structural)]
pub struct JustGotHitMarker;

/// Marker: the player is inside this enemy, whose collision membership
/// is changed until they part.
#[derive(Clone, Copy, Debug, PartialEq, Eq, Structural)]
pub struct Inside;

/// A contact from the collision pass: the way is blocked, unless the
/// enemy is being knocked back.
pub open spec fn blocked(v: EnemyView) -> EnemyView {
    if v.knocked {
        v
    } else {
        EnemyView { navigation: Navigation::Blocked, ..v }
    }
}

impl Enemy {
    /// Records a wall, a body or a ledge ahead.
    pub fn mark_blocked(&mut self)
        ensures
            final(self)@ == blocked(old(self)@),
    {
        if !self.knocked {
            self.navigation = Navigation::Blocked;
        }
    }

    /// Ends the `Inside` state once the player no longer overlaps the
    /// enemy; returns whether it ended, so that the collision membership
    /// can be restored.
    pub fn leave_inside(&mut self, overlapping: bool) -> (left: bool)
        ensures
            left == (old(self).inside && !overlapping),
            final(self)@ == (EnemyView { inside: old(self).inside && overlapping, ..old(self)@ }),
    {
        if self.inside && !overlapping {
            self.inside = false;
            true
        } else {
            false
        }
    }
}

} // verus!
