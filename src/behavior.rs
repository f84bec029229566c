//! One handler per state tag. Handlers read the range, target and timers,
//! move timers and velocity, and queue the transitions they want; only the
//! transition pass changes the tags.
use vstd::prelude::*;
use crate::agent::{
    direction_of, incr, tick_up, Defense, Enemy, EnemyView, Facing, Life, MeleeAttack, Mode,
    Navigation, RangedAttack, Range, Role, StateTag, SubState, Waiting, Walking,
};
use crate::queue::{Addition, NextState, Transition};

verus! {

/// Ticks of idle waiting, while no player exists, before the idle marker
/// is added.
pub const IDLE_AFTER: u32 = 120;
/// Length of the wait that follows a walk.
pub const REST_TICKS: u32 = 240;
/// Walking speed, in world units per second.
pub const WALK_SPEED: i32 = 20;
/// Chasing speed, in world units per second.
pub const CHASE_SPEED: i32 = 35;
/// Ticks of one animation frame.
pub const FRAME_TICKS: u32 = 8;

pub open spec fn fresh_waiting() -> SubState {
    SubState::Waiting(Waiting { ticks: 0, max_ticks: 0 })
}

pub open spec fn into_sub(from: StateTag, s: SubState) -> Transition {
    Transition { from, to: NextState::Sub(s) }
}

pub open spec fn into_mode(from: StateTag, m: Mode) -> Transition {
    Transition { from, to: NextState::Mode(m) }
}

pub open spec fn queued(v: EnemyView, t: Transition) -> EnemyView {
    EnemyView { transitions: v.transitions.push(t), ..v }
}

pub open spec fn queued_idle(v: EnemyView) -> EnemyView {
    EnemyView { additions: v.additions.push(Addition::Idle), ..v }
}

/// Patrol: aggro or melee range enters the aggroed mode over a fresh wait;
/// deaggro, ranged or far range starts a walk of `walk_ticks` ticks once
/// the wait is over; no player adds the idle marker after 120 ticks of
/// waiting.
pub open spec fn patrol_step(v: EnemyView, walk_ticks: u32) -> EnemyView {
    if !v.in_mode(Mode::Patrolling) {
        v
    } else {
        match v.range {
            Range::Aggro | Range::Melee => queued(
                queued(v, into_mode(StateTag::Patrolling, Mode::Aggroed)),
                into_sub(StateTag::Walking, fresh_waiting()),
            ),
            Range::Absent => match v.tags.sub {
                Some(SubState::Waiting(w)) => if w.ticks >= IDLE_AFTER {
                    queued_idle(v)
                } else {
                    v
                },
                _ => v,
            },
            _ => match v.tags.sub {
                Some(SubState::Waiting(w)) => if w.ticks >= w.max_ticks {
                    queued(
                        v,
                        into_sub(
                            StateTag::Waiting,
                            SubState::Walking(Walking { ticks: 0, max_ticks: walk_ticks }),
                        ),
                    )
                } else {
                    v
                },
                _ => v,
            },
        }
    }
}

fn sub_is(e: &Enemy, t: StateTag) -> (r: bool)
    ensures
        r == e@.has_sub(t),
{
    if e.life != Life::Alive {
        return false;
    }
    match (e.tags.sub, t) {
        (Some(SubState::Waiting(_)), StateTag::Waiting) => true,
        (Some(SubState::Walking(_)), StateTag::Walking) => true,
        (Some(SubState::Chasing), StateTag::Chasing) => true,
        (Some(SubState::MeleeAttack(_)), StateTag::MeleeAttack) => true,
        (Some(SubState::RangedAttack(_)), StateTag::RangedAttack) => true,
        (Some(SubState::Defense(_)), StateTag::Defense) => true,
        _ => false,
    }
}

fn mode_is(e: &Enemy, m: Mode) -> (r: bool)
    ensures
        r == e@.in_mode(m),
{
    e.life == Life::Alive && e.tags.mode == Some(m)
}

/// The patrol handler, with the walk length already drawn.
pub fn patrol_with(e: &mut Enemy, walk_ticks: u32)
    ensures
        final(e)@ == patrol_step(old(e)@, walk_ticks),
{
    if !mode_is(e, Mode::Patrolling) {
        return;
    }
    match e.range {
        Range::Aggro | Range::Melee => {
            e.transitions.push(Transition::new(StateTag::Patrolling, NextState::Mode(Mode::Aggroed)));
            e.transitions.push(
                Transition::new(StateTag::Walking, NextState::Sub(SubState::Waiting(Waiting::fresh()))),
            );
        },
        Range::Absent => {
            if let Some(SubState::Waiting(w)) = e.tags.sub {
                if w.ticks >= IDLE_AFTER {
                    e.additions.add(Addition::Idle);
                }
            }
        },
        _ => {
            if let Some(SubState::Waiting(w)) = e.tags.sub {
                if w.ticks >= w.max_ticks {
                    e.transitions.push(
                        Transition::new(
                            StateTag::Waiting,
                            NextState::Sub(SubState::Walking(Walking { ticks: 0, max_ticks: walk_ticks })),
                        ),
                    );
                }
            }
        },
    }
}

/// Shortest walk a patrol starts.
pub const WALK_MIN: u32 = 24;
/// Bound (excluded) of the walks a patrol starts.
pub const WALK_MAX: u32 = 300;

/// The patrol handler: draws a walk length in `24..300` and applies
/// `patrol_step` with it.
pub fn patrolling(e: &mut Enemy)
    ensures
        exists|w: u32| WALK_MIN <= w < WALK_MAX && final(e)@ == patrol_step(old(e)@, w),
{
    let w = crate::rng::random_in(WALK_MIN, WALK_MAX);
    patrol_with(e, w);
}

/// The waiting timer advances by one tick.
pub open spec fn waiting_step(v: EnemyView) -> EnemyView {
    match v.tags.sub {
        Some(SubState::Waiting(w)) => if v.alive() {
            EnemyView {
                tags: crate::agent::StateTags {
                    sub: Some(SubState::Waiting(Waiting { ticks: tick_up(w.ticks), ..w })),
                    ..v.tags
                },
                ..v
            }
        } else {
            v
        },
        _ => v,
    }
}

/// Advances the timer of a waiting enemy; queues nothing.
pub fn waiting(e: &mut Enemy)
    ensures
        final(e)@ == waiting_step(old(e)@),
{
    if e.life != Life::Alive {
        return;
    }
    if let Some(SubState::Waiting(w)) = e.tags.sub {
        e.tags.sub = Some(SubState::Waiting(Waiting { ticks: incr(w.ticks), max_ticks: w.max_ticks }));
    }
}

/// Defense is held only at melee range.
pub open spec fn defense_step(v: EnemyView) -> EnemyView {
    if v.has_sub(StateTag::Defense) && v.range != Range::Melee {
        queued(v, into_sub(StateTag::Defense, fresh_waiting()))
    } else {
        v
    }
}

/// Queues the return to waiting of a defending enemy out of melee range.
pub fn defense(e: &mut Enemy)
    ensures
        final(e)@ == defense_step(old(e)@),
{
    if sub_is(e, StateTag::Defense) && e.range != Range::Melee {
        e.transitions.push(
            Transition::new(StateTag::Defense, NextState::Sub(SubState::Waiting(Waiting::fresh()))),
        );
    }
}

/// Where an aggroed, waiting enemy with a target goes next.
pub open spec fn aggro_route(role: Role, range: Range, target: crate::agent::Entity) -> Transition {
    if range == Range::Far {
        into_mode(StateTag::Aggroed, Mode::Patrolling)
    } else if range == Range::Melee {
        match role {
            Role::Melee => into_sub(StateTag::Waiting, SubState::MeleeAttack(MeleeAttack { ticks: 0 })),
            Role::Ranged => into_sub(StateTag::Waiting, SubState::Defense(Defense)),
        }
    } else {
        match role {
            Role::Melee => into_sub(StateTag::Waiting, SubState::Chasing),
            Role::Ranged => into_sub(
                StateTag::Waiting,
                SubState::RangedAttack(RangedAttack { target, ticks: 0 }),
            ),
        }
    }
}

/// Aggroed mode acts only over a wait: without a target it falls back to
/// patrol, else it takes the route of `aggro_route`; a ranged enemy that
/// turns to defense stops.
pub open spec fn aggro_step(v: EnemyView) -> EnemyView {
    if !(v.in_mode(Mode::Aggroed) && v.has_sub(StateTag::Waiting)) {
        v
    } else {
        match v.target {
            None => queued(v, into_mode(StateTag::Aggroed, Mode::Patrolling)),
            Some(t) => {
                let stop = v.range == Range::Melee && v.role == Role::Ranged;
                let v1 = if stop { EnemyView { velocity_x: 0, ..v } } else { v };
                queued(v1, aggro_route(v.role, v.range, t))
            },
        }
    }
}

pub fn aggro(e: &mut Enemy)
    ensures
        final(e)@ == aggro_step(old(e)@),
{
    if !(mode_is(e, Mode::Aggroed) && sub_is(e, StateTag::Waiting)) {
        return;
    }
    match e.target {
        None => {
            e.transitions.push(Transition::new(StateTag::Aggroed, NextState::Mode(Mode::Patrolling)));
        },
        Some(t) => {
            if e.range == Range::Far {
                e.transitions.push(
                    Transition::new(StateTag::Aggroed, NextState::Mode(Mode::Patrolling)),
                );
            } else if e.range == Range::Melee {
                match e.role {
                    Role::Melee => e.transitions.push(
                        Transition::new(
                            StateTag::Waiting,
                            NextState::Sub(SubState::MeleeAttack(MeleeAttack { ticks: 0 })),
                        ),
                    ),
                    Role::Ranged => {
                        e.velocity_x = 0;
                        e.transitions.push(
                            Transition::new(StateTag::Waiting, NextState::Sub(SubState::Defense(Defense))),
                        );
                    },
                }
            } else {
                match e.role {
                    Role::Melee => e.transitions.push(
                        Transition::new(StateTag::Waiting, NextState::Sub(SubState::Chasing)),
                    ),
                    Role::Ranged => e.transitions.push(
                        Transition::new(
                            StateTag::Waiting,
                            NextState::Sub(SubState::RangedAttack(RangedAttack { target: t, ticks: 0 })),
                        ),
                    ),
                }
            }
        },
    }
}

/// The ranged attack: the enemy stops on its first tick; the timer
/// advances; after 120 ticks it queues the return to waiting and the idle
/// marker; melee range queues defense. The projectile leaves on tick 48,
/// unless the recorded target no longer resolves: then only the firing is
/// skipped and the timer goes on.
pub open spec fn ranged_step(v: EnemyView, target_resolves: bool) -> (EnemyView, bool) {
    match v.tags.sub {
        Some(SubState::RangedAttack(a)) => if !v.alive() || v.knocked {
            (v, false)
        } else {
            let ticks = tick_up(a.ticks);
            let v1 = EnemyView {
                velocity_x: if a.ticks == 0 { 0 } else { v.velocity_x },
                tags: crate::agent::StateTags {
                    sub: Some(SubState::RangedAttack(RangedAttack { ticks, ..a })),
                    ..v.tags
                },
                ..v
            };
            let v2 = if ticks >= RangedAttack::MAX_TICKS {
                queued_idle(queued(v1, into_sub(StateTag::RangedAttack, fresh_waiting())))
            } else {
                v1
            };
            let v3 = if v.range == Range::Melee {
                queued(v2, into_sub(StateTag::RangedAttack, SubState::Defense(Defense)))
            } else {
                v2
            };
            (v3, target_resolves && ticks == RangedAttack::STARTUP * FRAME_TICKS)
        },
        _ => (v, false),
    }
}

/// Advances a ranged attack; `target_resolves` tells whether the attack's
/// recorded target still exists. Returns whether the projectile is fired
/// on this tick.
pub fn ranged_attack(e: &mut Enemy, target_resolves: bool) -> (fire: bool)
    ensures
        (final(e)@, fire) == ranged_step(old(e)@, target_resolves),
{
    if e.life != Life::Alive || e.knocked {
        return false;
    }
    let a = match e.tags.sub {
        Some(SubState::RangedAttack(a)) => a,
        _ => {
            return false;
        },
    };
    if a.ticks == 0 {
        e.velocity_x = 0;
    }
    let ticks = incr(a.ticks);
    e.tags.sub = Some(SubState::RangedAttack(RangedAttack { target: a.target, ticks }));
    if ticks >= RangedAttack::MAX_TICKS {
        e.transitions.push(
            Transition::new(StateTag::RangedAttack, NextState::Sub(SubState::Waiting(Waiting::fresh()))),
        );
        e.additions.add(Addition::Idle);
    }
    if e.range == Range::Melee {
        e.transitions.push(
            Transition::new(StateTag::RangedAttack, NextState::Sub(SubState::Defense(Defense))),
        );
    }
    target_resolves && ticks == RangedAttack::STARTUP * FRAME_TICKS
}

/// The melee attack: the timer advances; the hitbox appears on tick 24
/// and the attack queues its return to waiting from tick 40 on.
pub open spec fn melee_step(v: EnemyView) -> (EnemyView, bool) {
    match v.tags.sub {
        Some(SubState::MeleeAttack(a)) => if !v.alive() {
            (v, false)
        } else {
            let ticks = tick_up(a.ticks);
            let v1 = EnemyView {
                tags: crate::agent::StateTags {
                    sub: Some(SubState::MeleeAttack(MeleeAttack { ticks })),
                    ..v.tags
                },
                ..v
            };
            let v2 = if ticks >= MeleeAttack::MAX * FRAME_TICKS {
                queued(v1, into_sub(StateTag::MeleeAttack, fresh_waiting()))
            } else {
                v1
            };
            (v2, ticks == MeleeAttack::STARTUP * FRAME_TICKS)
        },
        _ => (v, false),
    }
}

/// Advances a melee attack. Returns whether its hitbox is spawned on this
/// tick.
pub fn melee_attack(e: &mut Enemy) -> (hitbox: bool)
    ensures
        (final(e)@, hitbox) == melee_step(old(e)@),
{
    if e.life != Life::Alive {
        return false;
    }
    let a = match e.tags.sub {
        Some(SubState::MeleeAttack(a)) => a,
        _ => {
            return false;
        },
    };
    let ticks = incr(a.ticks);
    e.tags.sub = Some(SubState::MeleeAttack(MeleeAttack { ticks }));
    if ticks >= MeleeAttack::MAX * FRAME_TICKS {
        e.transitions.push(
            Transition::new(StateTag::MeleeAttack, NextState::Sub(SubState::Waiting(Waiting::fresh()))),
        );
    }
    ticks == MeleeAttack::STARTUP * FRAME_TICKS
}

/// The walk: at 20 units per second against the facing; once its time is
/// up it stops, queues a 240-tick wait and the idle marker; when blocked it
/// turns round, reverses and clears the block; each walking tick counts.
pub open spec fn walking_step(v: EnemyView) -> EnemyView {
    match v.tags.sub {
        Some(SubState::Walking(w)) => if !v.alive() || v.knocked {
            v
        } else if w.ticks >= w.max_ticks {
            queued_idle(
                queued(
                    EnemyView { velocity_x: 0, ..v },
                    into_sub(
                        StateTag::Walking,
                        SubState::Waiting(Waiting { ticks: 0, max_ticks: REST_TICKS }),
                    ),
                ),
            )
        } else {
            let blocked = v.navigation == Navigation::Blocked;
            let facing = if blocked { flip(v.facing) } else { v.facing };
            EnemyView {
                velocity_x: (-WALK_SPEED * direction_of(facing)) as i32,
                navigation: Navigation::Grounded,
                facing,
                tags: crate::agent::StateTags {
                    sub: Some(SubState::Walking(Walking { ticks: tick_up(w.ticks), ..w })),
                    ..v.tags
                },
                ..v
            }
        },
        _ => v,
    }
}

pub open spec fn flip(f: Facing) -> Facing {
    match f {
        Facing::Left => Facing::Right,
        Facing::Right => Facing::Left,
    }
}

pub fn walking(e: &mut Enemy)
    ensures
        final(e)@ == walking_step(old(e)@),
{
    if e.life != Life::Alive || e.knocked {
        return;
    }
    let w = match e.tags.sub {
        Some(SubState::Walking(w)) => w,
        _ => {
            return;
        },
    };
    if w.ticks >= w.max_ticks {
        e.velocity_x = 0;
        e.transitions.push(
            Transition::new(
                StateTag::Walking,
                NextState::Sub(SubState::Waiting(Waiting { ticks: 0, max_ticks: REST_TICKS })),
            ),
        );
        e.additions.add(Addition::Idle);
        return;
    }
    // turn round at a wall or a ledge
    if e.navigation == Navigation::Blocked {
        e.navigation = Navigation::Grounded;
        e.facing = e.facing.flipped();
    }
    e.velocity_x = -WALK_SPEED * e.facing.direction();
    e.tags.sub = Some(SubState::Walking(Walking { ticks: incr(w.ticks), max_ticks: w.max_ticks }));
}

/// The chase, melee enemies only: melee range stops and queues the melee
/// attack; ranged, aggro or deaggro range moves at 35 units per second
/// against the facing, unless blocked, which stops, clears the block and
/// queues a wait; anything else, or no target, stops and queues a wait.
pub open spec fn chasing_step(v: EnemyView) -> EnemyView {
    if !v.has_sub(StateTag::Chasing) || v.knocked || v.role != Role::Melee {
        v
    } else {
        let stop = EnemyView { velocity_x: 0, ..v };
        let give_up = queued(stop, into_sub(StateTag::Chasing, fresh_waiting()));
        match v.target {
            None => give_up,
            Some(_) => match v.range {
                Range::Melee => queued(
                    stop,
                    into_sub(StateTag::Chasing, SubState::MeleeAttack(MeleeAttack { ticks: 0 })),
                ),
                Range::Ranged | Range::Aggro | Range::Deaggro => if v.navigation
                    == Navigation::Blocked {
                    EnemyView { navigation: Navigation::Grounded, ..give_up }
                } else {
                    EnemyView { velocity_x: (-CHASE_SPEED * direction_of(v.facing)) as i32, ..v }
                },
                _ => give_up,
            },
        }
    }
}

pub fn chasing(e: &mut Enemy)
    ensures
        final(e)@ == chasing_step(old(e)@),
{
    if !sub_is(e, StateTag::Chasing) || e.knocked || e.role != Role::Melee {
        return;
    }
    if e.target.is_none() {
        e.velocity_x = 0;
        e.transitions.push(
            Transition::new(StateTag::Chasing, NextState::Sub(SubState::Waiting(Waiting::fresh()))),
        );
        return;
    }
    match e.range {
        Range::Melee => {
            e.velocity_x = 0;
            e.transitions.push(
                Transition::new(
                    StateTag::Chasing,
                    NextState::Sub(SubState::MeleeAttack(MeleeAttack { ticks: 0 })),
                ),
            );
        },
        Range::Ranged | Range::Aggro | Range::Deaggro => {
            e.velocity_x = -CHASE_SPEED * e.facing.direction();
            if e.navigation == Navigation::Blocked {
                e.velocity_x = 0;
                e.navigation = Navigation::Grounded;
                e.transitions.push(
                    Transition::new(StateTag::Chasing, NextState::Sub(SubState::Waiting(Waiting::fresh()))),
                );
            }
        },
        _ => {
            e.velocity_x = 0;
            e.transitions.push(
                Transition::new(StateTag::Chasing, NextState::Sub(SubState::Waiting(Waiting::fresh()))),
            );
        },
    }
}

/// The aggro routing table, for every role and range of an aggroed,
/// waiting enemy with a target: exactly one transition is queued; far
/// range returns to patrol; melee range sends the melee role to its melee
/// attack and the ranged role to defense (never to a melee attack); any
/// other range sends the melee role chasing and the ranged role to a ranged
/// attack on its target.
pub proof fn lemma_aggro_routes(v: EnemyView)
    requires
        v.in_mode(Mode::Aggroed),
        v.has_sub(StateTag::Waiting),
        v.target.is_some(),
    ensures
        ({
            let t = aggro_route(v.role, v.range, v.target.unwrap());
            let r = aggro_step(v);
            &&& r.transitions == v.transitions.push(t)
            &&& v.range == Range::Far ==> t == into_mode(StateTag::Aggroed, Mode::Patrolling)
            &&& v.range == Range::Melee && v.role == Role::Melee ==> t == into_sub(
                StateTag::Waiting,
                SubState::MeleeAttack(MeleeAttack { ticks: 0 }),
            )
            &&& v.range == Range::Melee && v.role == Role::Ranged ==> t == into_sub(
                StateTag::Waiting,
                SubState::Defense(Defense),
            ) && r.velocity_x == 0
            &&& v.range != Range::Far && v.range != Range::Melee && v.role == Role::Melee ==> t
                == into_sub(StateTag::Waiting, SubState::Chasing)
            &&& v.range != Range::Far && v.range != Range::Melee && v.role == Role::Ranged ==> t
                == into_sub(
                StateTag::Waiting,
                SubState::RangedAttack(RangedAttack { target: v.target.unwrap(), ticks: 0 }),
            )
            &&& v.role == Role::Ranged ==> t.to != NextState::Sub(SubState::MeleeAttack(MeleeAttack { ticks: 0 }))
        }),
{
}

} // verus!
