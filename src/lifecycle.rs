//! Birth and death of an enemy: the set-up of a spawned blueprint, the
//! dying timer, and the hand-over to decay.
use vstd::prelude::*;
use crate::agent::{
    tick_up, incr, Enemy, EnemyView, Entity, Facing, Health, Life, Mode, Navigation, Point, Range,
    Role, StateTags, SubState, Waiting,
};
use crate::queue::{AddQueue, TransitionQueue};
use crate::spawner::EnemyBlueprintBundle;

verus! {

/// Health of an enemy before the spawner's bonus.
pub const BASE_HP: u64 = 100;
/// Length of the first wait of a new enemy.
pub const FIRST_WAIT: u32 = 12;
/// Height, in sub-units (two world units), the body is lifted by so that
/// its sprite stands on the ground.
pub const SPRITE_LIFT: i32 = 32;
/// Ticks an enemy stays dead before it decays.
pub const DEAD_TICKS: u32 = 56;

/// `y` lifted by the sprite offset, held at the top of the world.
pub open spec fn lifted(y: i32) -> i32 {
    if y <= i32::MAX - SPRITE_LIFT {
        (y + SPRITE_LIFT) as i32
    } else {
        i32::MAX
    }
}

/// The enemy a blueprint becomes: it keeps the blueprint's entity and
/// spot (lifted by two world units), has 100 health plus the bonus, stands still
/// facing right, patrols over a 12-tick wait with the idle marker, and
/// knows no player yet.
pub open spec fn set_up(bp: EnemyBlueprintBundle, gfx: Entity, effects_gfx: Entity, role: Role) -> EnemyView {
    EnemyView {
        entity: bp.entity,
        gfx,
        effects_gfx,
        position: Point { x: bp.position.x, y: lifted(bp.position.y) },
        velocity_x: 0,
        role,
        facing: Facing::Right,
        health: Health {
            current: (BASE_HP + bp.marker.bonus_hp) as u64,
            max: (BASE_HP + bp.marker.bonus_hp) as u64,
        },
        navigation: Navigation::Grounded,
        range: Range::Absent,
        target: None,
        tags: StateTags {
            mode: Some(Mode::Patrolling),
            sub: Some(SubState::Waiting(Waiting { ticks: 0, max_ticks: FIRST_WAIT })),
            idle: true,
        },
        life: Life::Alive,
        knocked: false,
        inside: false,
        transitions: Seq::empty(),
        additions: Seq::empty(),
    }
}

/// Sets up a blueprint as an enemy of the given role, shown by the two
/// given sprite entities.
pub fn setup_enemy_as(bp: EnemyBlueprintBundle, gfx: Entity, effects_gfx: Entity, role: Role) -> (r: Enemy)
    requires
        bp.marker.bonus_hp <= u64::MAX - BASE_HP,
    ensures
        r@ == set_up(bp, gfx, effects_gfx, role),
{
    let y = if bp.position.y <= i32::MAX - SPRITE_LIFT {
        bp.position.y + SPRITE_LIFT
    } else {
        i32::MAX
    };
    let hp = BASE_HP + bp.marker.bonus_hp;
    Enemy {
        entity: bp.entity,
        gfx,
        effects_gfx,
        position: Point { x: bp.position.x, y },
        velocity_x: 0,
        role,
        facing: Facing::Right,
        health: Health { current: hp, max: hp },
        navigation: Navigation::Grounded,
        range: Range::Absent,
        target: None,
        tags: StateTags {
            mode: Some(Mode::Patrolling),
            sub: Some(SubState::Waiting(Waiting::new(FIRST_WAIT))),
            idle: true,
        },
        life: Life::Alive,
        knocked: false,
        inside: false,
        transitions: TransitionQueue::new(),
        additions: AddQueue::new(),
    }
}

/// Sets up a blueprint as an enemy of a role drawn at random.
pub fn setup_enemy(bp: EnemyBlueprintBundle, gfx: Entity, effects_gfx: Entity) -> (r: Enemy)
    requires
        bp.marker.bonus_hp <= u64::MAX - BASE_HP,
    ensures
        r@ == set_up(bp, gfx, effects_gfx, Role::Melee) || r@ == set_up(bp, gfx, effects_gfx, Role::Ranged),
{
    setup_enemy_as(bp, gfx, effects_gfx, Role::random())
}

/// `x + 1`, held at `u64::MAX` once it gets there.
pub open spec fn count_up(x: u64) -> u64 {
    if x < u64::MAX {
        (x + 1) as u64
    } else {
        x
    }
}

/// What a dead enemy keeps: its place, identity, role and death timer.
/// Its tags, queues, velocity and target go, so that no handler acts on it.
pub open spec fn stripped(v: EnemyView) -> EnemyView {
    EnemyView {
        velocity_x: 0,
        target: None,
        tags: StateTags { mode: None, sub: None, idle: false },
        transitions: Seq::empty(),
        additions: Seq::empty(),
        ..v
    }
}

/// The dying timer: on its first tick the global kill count goes up by
/// one and the enemy is stripped; on tick 56 it decays; otherwise the timer
/// advances.
pub open spec fn dead_step(v: EnemyView, kills: u64) -> (EnemyView, u64) {
    match v.life {
        Life::Dead { ticks } => {
            let v1 = if ticks == 0 { stripped(v) } else { v };
            let k = if ticks == 0 { count_up(kills) } else { kills };
            let life = if ticks == DEAD_TICKS { Life::Decay } else { Life::Dead { ticks: tick_up(ticks) } };
            (EnemyView { life, ..v1 }, k)
        },
        _ => (v, kills),
    }
}

/// Advances the death of a dead enemy and counts it in `kill_count` once.
pub fn dead(e: &mut Enemy, kill_count: &mut u64)
    ensures
        (final(e)@, *final(kill_count)) == dead_step(old(e)@, *old(kill_count)),
{
    let ticks = match e.life {
        Life::Dead { ticks } => ticks,
        _ => {
            return;
        },
    };
    if ticks == 0 {
        if *kill_count < u64::MAX {
            *kill_count = *kill_count + 1;
        }
        e.velocity_x = 0;
        e.target = None;
        e.tags = StateTags { mode: None, sub: None, idle: false };
        e.transitions = TransitionQueue::new();
        e.additions = AddQueue::new();
    }
    if ticks == DEAD_TICKS {
        e.life = Life::Decay;
    } else {
        e.life = Life::Dead { ticks: incr(ticks) };
    }
}

/// Marks a living enemy as killed; its death starts on the next tick.
pub fn kill(e: &mut Enemy)
    ensures
        final(e)@ == (if old(e)@.alive() {
            EnemyView { life: Life::Dead { ticks: 0 }, ..old(e)@ }
        } else {
            old(e)@
        }),
{
    if e.life == Life::Alive {
        e.life = Life::Dead { ticks: 0 };
    }
}

/// A dead enemy on tick 56 decays without counting again; on any other
/// tick it stays dead with its timer one further, and only its first tick
/// counts the kill.
pub proof fn lemma_dead_then_decay(v: EnemyView, kills: u64, ticks: u32)
    requires
        v.life == (Life::Dead { ticks }),
    ensures
        ticks == DEAD_TICKS ==> dead_step(v, kills).0.life == Life::Decay && dead_step(v, kills).1 == kills,
        ticks != DEAD_TICKS && ticks < u32::MAX ==> dead_step(v, kills).0.life == (Life::Dead {
            ticks: (ticks + 1) as u32,
        }),
        ticks != 0 ==> dead_step(v, kills).1 == kills,
        ticks == 0 ==> dead_step(v, kills).1 == count_up(kills),
{
}

} // verus!
