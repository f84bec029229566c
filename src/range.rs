//! Proximity classification of the player, once per tick per enemy.
use vstd::prelude::*;
use crate::agent::{SUBUNITS, Enemy, EnemyView, Entity, Facing, Life, Point, Range, Role, StateTag, Mode};

verus! {

impl Range {
    /// Radii of the classes, in world units.
    pub const MELEE: i64 = 14;
    pub const AGGRO: i64 = 50;
    pub const RANGED: i64 = 60;
    pub const DEAGGRO: i64 = 70;
}

/// What the classifier knows of the player.
#[derive(Clone, Copy, Debug, PartialEq, Eq, Structural)]
pub struct PlayerView {
    pub entity: Entity,
    pub position: Point,
    /// Hidden from enemies.
    pub stealthed: bool,
}

/// Square of a radius of `r` world units, in squared sub-units.
pub open spec fn radius_sq(r: int) -> int {
    (r * SUBUNITS) * (r * SUBUNITS)
}

/// Square, in squared sub-units, of a radius of `r` world units.
pub fn radius_squared(r: i64) -> (q: i128)
    requires
        0 <= r <= 1_000_000,
    ensures
        q == radius_sq(r as int),
{
    assert(SUBUNITS == 16);
    let s: i128 = (r as i128) * 16;
    assert(0 <= s * s <= 1_000_000_000_000_000_000_000_000) by (nonlinear_arith)
        requires
            0 <= s <= 16_000_000,
    ;
    s * s
}

/// Square of the planar Euclidean distance, in squared sub-units.
pub open spec fn dist_sq(a: Point, b: Point) -> int {
    (a.x - b.x) * (a.x - b.x) + (a.y - b.y) * (a.y - b.y)
}

/// The class of a visible player at squared distance `d2`.
pub open spec fn class_of(d2: int, role: Role) -> Range {
    if d2 <= radius_sq(Range::MELEE as int) {
        Range::Melee
    } else if d2 <= radius_sq(Range::AGGRO as int) {
        Range::Aggro
    } else if role == Role::Ranged && d2 <= radius_sq(Range::RANGED as int) {
        Range::Ranged
    } else if role == Role::Melee && d2 <= radius_sq(Range::DEAGGRO as int) {
        Range::Deaggro
    } else {
        Range::Far
    }
}

/// The range and target set for an enemy at `pos` of role `role`.
pub open spec fn classification(pos: Point, role: Role, player: Option<PlayerView>) -> (Range, Option<Entity>) {
    match player {
        None => (Range::Absent, None),
        Some(p) => if p.stealthed {
            (Range::Deaggro, None)
        } else {
            let r = class_of(dist_sq(pos, p.position), role);
            (r, if r == Range::Far { None } else { Some(p.entity) })
        },
    }
}

pub fn distance_squared(a: Point, b: Point) -> (r: i128)
    ensures
        r == dist_sq(a, b),
        r >= 0,
{
    let dx: i128 = a.x as i128 - b.x as i128;
    let dy: i128 = a.y as i128 - b.y as i128;
    assert(0 <= dx * dx <= 0x1_0000_0000_0000_0000) by (nonlinear_arith)
        requires -0x1_0000_0000 <= dx <= 0x1_0000_0000;
    assert(0 <= dy * dy <= 0x1_0000_0000_0000_0000) by (nonlinear_arith)
        requires -0x1_0000_0000 <= dy <= 0x1_0000_0000;
    dx * dx + dy * dy
}

/// Classifies the player's distance from `pos`: stealth first, then the
/// radii 14, 50, 60 (ranged role only), 70 (melee role only), else far;
/// no player at all gives `Absent`. A target is kept unless far, stealthed
/// or absent.
pub fn classify(pos: Point, role: Role, player: Option<PlayerView>) -> (r: (Range, Option<Entity>))
    ensures
        r == classification(pos, role, player),
{
    match player {
        None => (Range::Absent, None),
        Some(p) => {
            if p.stealthed {
                return (Range::Deaggro, None);
            }
            let d2 = distance_squared(pos, p.position);
            let melee: i128 = radius_squared(Range::MELEE);
            let aggro: i128 = radius_squared(Range::AGGRO);
            let ranged: i128 = radius_squared(Range::RANGED);
            let deaggro: i128 = radius_squared(Range::DEAGGRO);
            if d2 <= melee {
                (Range::Melee, Some(p.entity))
            } else if d2 <= aggro {
                (Range::Aggro, Some(p.entity))
            } else if role == Role::Ranged && d2 <= ranged {
                (Range::Ranged, Some(p.entity))
            } else if role == Role::Melee && d2 <= deaggro {
                (Range::Deaggro, Some(p.entity))
            } else {
                (Range::Far, None)
            }
        },
    }
}

/// The facing an aggroed enemy takes toward a visible player: `Right`
/// when the player is to its left, `Left` when to its right, unchanged
/// when level.
pub open spec fn facing_toward(f: Facing, pos: Point, player: Point) -> Facing {
    if pos.x > player.x {
        Facing::Right
    } else if pos.x < player.x {
        Facing::Left
    } else {
        f
    }
}

/// Whether this tick's classification turns the enemy toward the player.
pub open spec fn turns_to_player(e: EnemyView, player: Option<PlayerView>) -> bool {
    &&& player.is_some()
    &&& !player.unwrap().stealthed
    &&& e.in_mode(Mode::Aggroed)
    &&& !e.has_sub(StateTag::MeleeAttack)
    &&& !e.has_sub(StateTag::Defense)
}

/// Range, target and facing after classification; a dead enemy is left
/// as it was.
pub open spec fn range_step(v: EnemyView, player: Option<PlayerView>) -> EnemyView {
    if !v.alive() {
        v
    } else {
        let (r, t) = classification(v.position, v.role, player);
        let facing = if turns_to_player(v, player) {
            facing_toward(v.facing, v.position, player.unwrap().position)
        } else {
            v.facing
        };
        EnemyView { range: r, target: t, facing, ..v }
    }
}

/// Overwrites the range and target of a living enemy from the player's
/// position, and turns an aggroed enemy that is neither attacking at melee
/// nor defending toward the player. A dead enemy is left as it was.
pub fn check_player_range(e: &mut Enemy, player: Option<PlayerView>)
    ensures
        final(e)@ == range_step(old(e)@, player),
{
    if e.life != Life::Alive {
        return;
    }
    if let Some(p) = player {
        if !p.stealthed {
            let aggroed = match e.tags.mode {
                Some(Mode::Aggroed) => true,
                _ => false,
            };
            let busy = match e.tags.sub {
                Some(crate::agent::SubState::MeleeAttack(_)) => true,
                Some(crate::agent::SubState::Defense(_)) => true,
                _ => false,
            };
            if aggroed && !busy {
                if e.position.x > p.position.x {
                    e.facing = Facing::Right;
                } else if e.position.x < p.position.x {
                    e.facing = Facing::Left;
                }
            }
        }
    }
    let (r, t) = classify(e.position, e.role, player);
    e.range = r;
    e.target = t;
}

/// The classifier reads only the distance, the role and the
/// stealth flag: two enemies at the same distance from the player, of the
/// same role, are given the same range and target.
pub proof fn lemma_classify_reads_distance(a: Point, b: Point, role: Role, pa: PlayerView, pb: PlayerView)
    requires
        dist_sq(a, pa.position) == dist_sq(b, pb.position),
        pa.stealthed == pb.stealthed,
        pa.entity == pb.entity,
    ensures
        classification(a, role, Some(pa)) == classification(b, role, Some(pb)),
{
}

/// The priority table at its radii: a distance equal to a radius falls
/// inside it, a step beyond falls to the next class.
pub proof fn lemma_range_boundaries(role: Role)
    ensures
        class_of(radius_sq(14), role) == Range::Melee,
        class_of(radius_sq(14) + 1, role) == Range::Aggro,
        class_of(radius_sq(50), role) == Range::Aggro,
        class_of(radius_sq(50) + 1, Role::Ranged) == Range::Ranged,
        class_of(radius_sq(50) + 1, Role::Melee) == Range::Deaggro,
        class_of(radius_sq(60), Role::Ranged) == Range::Ranged,
        class_of(radius_sq(60) + 1, Role::Ranged) == Range::Far,
        class_of(radius_sq(60) + 1, Role::Melee) == Range::Deaggro,
        class_of(radius_sq(70), Role::Melee) == Range::Deaggro,
        class_of(radius_sq(70) + 1, Role::Melee) == Range::Far,
        class_of(radius_sq(70), Role::Ranged) == Range::Far,
{
}

/// For every squared distance, the class is the first row of the table
/// that holds: at most 14 melee, at most 50 aggro, at most 60 ranged for
/// the ranged role, at most 70 deaggro for the melee role, else far; and a
/// stealthed player is deaggro with no target whatever the distance.
pub proof fn lemma_range_table(pos: Point, role: Role, p: PlayerView)
    ensures
        p.stealthed ==> classification(pos, role, Some(p)) == (Range::Deaggro, None::<Entity>),
        !p.stealthed ==> {
            let d2 = dist_sq(pos, p.position);
            let (r, t) = classification(pos, role, Some(p));
            &&& (r == Range::Melee <==> d2 <= radius_sq(14))
            &&& (r == Range::Aggro <==> radius_sq(14) < d2 <= radius_sq(50))
            &&& (r == Range::Ranged <==> role == Role::Ranged && radius_sq(50) < d2 <= radius_sq(60))
            &&& (r == Range::Deaggro <==> role == Role::Melee && radius_sq(50) < d2 <= radius_sq(70))
            &&& (r == Range::Far <==> (role == Role::Ranged && d2 > radius_sq(60)) || (role == Role::Melee && d2 > radius_sq(70)))
            &&& (t == if r == Range::Far { None } else { Some(p.entity) })
        },
        classification(pos, role, None) == (Range::Absent, None::<Entity>),
{
    lemma_radii();
}

/// The squared radii of the classes, in squared sub-units.
pub proof fn lemma_radii()
    ensures
        radius_sq(Range::MELEE as int) == radius_sq(14) == 50176,
        radius_sq(Range::AGGRO as int) == radius_sq(50) == 640000,
        radius_sq(Range::RANGED as int) == radius_sq(60) == 921600,
        radius_sq(Range::DEAGGRO as int) == radius_sq(70) == 1254400,
{
    assert(radius_sq(14) == 50176) by (nonlinear_arith);
    assert(radius_sq(50) == 640000) by (nonlinear_arith);
    assert(radius_sq(60) == 921600) by (nonlinear_arith);
    assert(radius_sq(70) == 1254400) by (nonlinear_arith);
}

/// Classification of a living enemy overwrites its range and target from
/// the table, whatever they were: a visible player gets the class of its
/// distance and is the target unless far; a stealthed player is deaggro
/// with no target and leaves the facing alone; no player at all is absent
/// with no target. Nothing but range, target and facing changes.
pub proof fn lemma_check_player_range(v: EnemyView, player: Option<PlayerView>)
    requires
        v.alive(),
    ensures
        ({
            let w = range_step(v, player);
            &&& w == (EnemyView { range: w.range, target: w.target, facing: w.facing, ..v })
            &&& match player {
                None => w.range == Range::Absent && w.target.is_none() && w.facing == v.facing,
                Some(p) => if p.stealthed {
                    w.range == Range::Deaggro && w.target.is_none() && w.facing == v.facing
                } else {
                    &&& w.range == class_of(dist_sq(v.position, p.position), v.role)
                    &&& w.target == if w.range == Range::Far { None } else { Some(p.entity) }
                },
            }
        }),
{
}

/// Two living enemies of one role at one distance from the player get the
/// same range and target, whatever else differs between them.
pub proof fn lemma_range_reads_distance_only(a: EnemyView, b: EnemyView, p: PlayerView)
    requires
        a.alive(),
        b.alive(),
        a.role == b.role,
        dist_sq(a.position, p.position) == dist_sq(b.position, p.position),
    ensures
        range_step(a, Some(p)).range == range_step(b, Some(p)).range,
        range_step(a, Some(p)).target == range_step(b, Some(p)).target,
{
}

} // verus!
