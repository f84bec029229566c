//! The data every enemy carries: role, facing, proximity class, state tags
//! and their timers.
use vstd::prelude::*;
use crate::queue::{apply_additions_spec, apply_all, apply_queues, AddQueue, Addition, Transition, TransitionQueue};

verus! {

/// Weak reference to an entity of the simulation.
#[derive(Clone, Copy, Debug, PartialEq, Eq, Structural)]
pub struct Entity {
    pub id: u64,
}

/// Sub-units of a [`Point`] per world unit.
pub const SUBUNITS: i64 = 16;

/// A point of the world, in sixteenths of a world unit.
#[derive(Clone, Copy, Debug, PartialEq, Eq, Structural)]
pub struct Point {
    pub x: i32,
    pub y: i32,
}

/// Fighting style, drawn once when the enemy is set up.
#[derive(Clone, Copy, Debug, PartialEq, Eq, Structural)]
pub enum Role {
    Melee,
    Ranged,
}

impl Role {
    /// `0` is melee, anything else ranged.
    pub fn from_index(i: u32) -> (r: Role)
        ensures
            r == (if i == 0 { Role::Melee } else { Role::Ranged }),
    {
        if i == 0 {
            Role::Melee
        } else {
            Role::Ranged
        }
    }

    /// Either role, with even odds.
    pub fn random() -> (r: Role) {
        Role::from_index(crate::rng::random_in(0, 2))
    }
}

/// Which way the enemy's sprite looks.
#[derive(Clone, Copy, Debug, PartialEq, Eq, Structural)]
pub enum Facing {
    Left,
    Right,
}

/// Sign of a facing: `Right` is `1`, `Left` is `-1`.
pub open spec fn direction_of(f: Facing) -> int {
    match f {
        Facing::Right => 1,
        Facing::Left => -1,
    }
}

impl Facing {
    pub fn direction(&self) -> (r: i32)
        ensures
            r == direction_of(*self),
    {
        match self {
            Facing::Right => 1,
            Facing::Left => -1,
        }
    }

    pub fn flipped(&self) -> (r: Facing)
        ensures
            r != *self,
    {
        match self {
            Facing::Right => Facing::Left,
            Facing::Left => Facing::Right,
        }
    }
}

/// Signal from the collision pass: whether the way ahead is free.
#[derive(Clone, Copy, Debug, PartialEq, Eq, Structural)]
pub enum Navigation {
    Grounded,
    Blocked,
}

/// Proximity class of the player, recomputed every tick.
#[derive(Clone, Copy, Debug, PartialEq, Eq, Structural)]
pub enum Range {
    Melee,
    Ranged,
    Aggro,
    Deaggro,
    Far,
    /// No player exists.
    Absent,
}

#[derive(Clone, Copy, Debug, PartialEq, Eq, Structural)]
pub struct Health {
    pub current: u64,
    pub max: u64,
}

/// `x + 1`, held at `u32::MAX` once it gets there.
pub open spec fn tick_up(x: u32) -> u32 {
    if x < u32::MAX {
        (x + 1) as u32
    } else {
        x
    }
}

pub fn incr(x: u32) -> (r: u32)
    ensures
        r == tick_up(x),
{
    if x < u32::MAX {
        x + 1
    } else {
        x
    }
}

/// Idle sub-state: a timer that other states hand control back to.
#[derive(Clone, Copy, Debug, PartialEq, Eq, Structural)]
pub struct Waiting {
    pub ticks: u32,
    pub max_ticks: u32,
}

impl Waiting {
    pub fn new(max: u32) -> (r: Waiting)
        ensures
            r == (Waiting { ticks: 0, max_ticks: max }),
    {
        Waiting { ticks: 0, max_ticks: max }
    }

    /// A fresh timer with no minimum duration.
    pub fn fresh() -> (r: Waiting)
        ensures
            r == (Waiting { ticks: 0, max_ticks: 0 }),
    {
        Waiting { ticks: 0, max_ticks: 0 }
    }
}

/// Strolling in the facing direction for `max_ticks` ticks.
#[derive(Clone, Copy, Debug, PartialEq, Eq, Structural)]
pub struct Walking {
    pub ticks: u32,
    pub max_ticks: u32,
}

#[derive(Clone, Copy, Debug, PartialEq, Eq, Structural)]
pub struct MeleeAttack {
    pub ticks: u32,
}

impl MeleeAttack {
    /// Animation frame (of eight ticks) on which the hitbox appears.
    pub const STARTUP: u32 = 3;
    /// Animation frame (of eight ticks) after which the attack ends.
    pub const MAX: u32 = 5;
}

#[derive(Clone, Copy, Debug, PartialEq, Eq, Structural)]
pub struct RangedAttack {
    pub target: Entity,
    pub ticks: u32,
}

impl RangedAttack {
    /// Animation frame (of eight ticks) on which the projectile leaves.
    pub const STARTUP: u32 = 6;
    /// Tick after which the attack ends whatever the range.
    pub const MAX_TICKS: u32 = 120;
}

/// Guarding sub-state of a ranged enemy caught at melee range.
#[derive(Clone, Copy, Debug, PartialEq, Eq, Structural)]
pub struct Defense;

/// The mode layered over the sub-state: at most one of the two at a time.
#[derive(Clone, Copy, Debug, PartialEq, Eq, Structural)]
pub enum Mode {
    Patrolling,
    Aggroed,
}

/// The primary behaviour, with the timer it owns.
#[derive(Clone, Copy, Debug, PartialEq, Eq, Structural)]
pub enum SubState {
    Waiting(Waiting),
    Walking(Walking),
    Chasing,
    MeleeAttack(MeleeAttack),
    RangedAttack(RangedAttack),
    Defense(Defense),
}

/// Names of the tags, without their payloads.
#[derive(Clone, Copy, Debug, PartialEq, Eq, Structural)]
pub enum StateTag {
    Patrolling,
    Aggroed,
    Waiting,
    Walking,
    Chasing,
    MeleeAttack,
    RangedAttack,
    Defense,
}

pub open spec fn tag_of_sub(s: SubState) -> StateTag {
    match s {
        SubState::Waiting(_) => StateTag::Waiting,
        SubState::Walking(_) => StateTag::Walking,
        SubState::Chasing => StateTag::Chasing,
        SubState::MeleeAttack(_) => StateTag::MeleeAttack,
        SubState::RangedAttack(_) => StateTag::RangedAttack,
        SubState::Defense(_) => StateTag::Defense,
    }
}

pub open spec fn tag_of_mode(m: Mode) -> StateTag {
    match m {
        Mode::Patrolling => StateTag::Patrolling,
        Mode::Aggroed => StateTag::Aggroed,
    }
}

/// The tags an enemy carries: a mode, a sub-state and the cosmetic idle
/// marker.
#[derive(Clone, Copy, Debug, PartialEq, Eq, Structural)]
pub struct StateTags {
    pub mode: Option<Mode>,
    pub sub: Option<SubState>,
    pub idle: bool,
}

/// Where an enemy is in its life.
#[derive(Clone, Copy, Debug, PartialEq, Eq, Structural)]
pub enum Life {
    Alive,
    /// Dying; `ticks` counts the ticks since death.
    Dead { ticks: u32 },
    /// Dead long enough: removed on the next tick.
    Decay,
}

/// Everything the simulation holds of one enemy.
#[derive(Clone, Debug)]
pub struct Enemy {
    pub entity: Entity,
    /// The sprite that shows the enemy.
    pub gfx: Entity,
    /// The sprite that shows hit sparks over the enemy.
    pub effects_gfx: Entity,
    pub position: Point,
    /// Horizontal velocity, in world units per second.
    pub velocity_x: i32,
    pub role: Role,
    pub facing: Facing,
    pub health: Health,
    pub navigation: Navigation,
    pub range: Range,
    pub target: Option<Entity>,
    pub tags: StateTags,
    pub life: Life,
    /// Being pushed back by a hit: movement handlers leave it alone.
    pub knocked: bool,
    /// The player overlaps the enemy's body.
    pub inside: bool,
    pub transitions: TransitionQueue,
    pub additions: AddQueue,
}

/// The value of an [`Enemy`] as contracts see it: its queues as sequences.
pub struct EnemyView {
    pub entity: Entity,
    pub gfx: Entity,
    pub effects_gfx: Entity,
    pub position: Point,
    pub velocity_x: i32,
    pub role: Role,
    pub facing: Facing,
    pub health: Health,
    pub navigation: Navigation,
    pub range: Range,
    pub target: Option<Entity>,
    pub tags: StateTags,
    pub life: Life,
    pub knocked: bool,
    pub inside: bool,
    pub transitions: Seq<Transition>,
    pub additions: Seq<Addition>,
}

impl View for Enemy {
    type V = EnemyView;

    open spec fn view(&self) -> EnemyView {
        EnemyView {
            entity: self.entity,
            gfx: self.gfx,
            effects_gfx: self.effects_gfx,
            position: self.position,
            velocity_x: self.velocity_x,
            role: self.role,
            facing: self.facing,
            health: self.health,
            navigation: self.navigation,
            range: self.range,
            target: self.target,
            tags: self.tags,
            life: self.life,
            knocked: self.knocked,
            inside: self.inside,
            transitions: self.transitions.items@,
            additions: self.additions.items@,
        }
    }
}

impl EnemyView {
    pub open spec fn alive(&self) -> bool {
        self.life == Life::Alive
    }

    pub open spec fn in_mode(&self, m: Mode) -> bool {
        self.alive() && self.tags.mode == Some(m)
    }

    pub open spec fn has_sub(&self, t: StateTag) -> bool {
        self.alive() && self.tags.sub.is_some() && tag_of_sub(self.tags.sub.unwrap()) == t
    }
}

impl Enemy {
    /// Drains both queues into the tags (see `apply_queues`).
    pub fn apply_queues(&mut self)
        ensures
            final(self)@ == (EnemyView {
                tags: apply_additions_spec(apply_all(old(self).tags, old(self)@.transitions), old(self)@.additions),
                transitions: Seq::empty(),
                additions: Seq::empty(),
                ..old(self)@
            }),
    {
        apply_queues(&mut self.tags, &mut self.transitions, &mut self.additions);
        assert(self.transitions.items@ =~= Seq::<Transition>::empty());
        assert(self.additions.items@ =~= Seq::<Addition>::empty());
    }
}

} // verus!
