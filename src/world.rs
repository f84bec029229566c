//! The simulation as the library sees it, and the phases of one tick in
//! their fixed order.
use vstd::prelude::*;
use crate::agent::{Enemy, EnemyView, Entity, Life, SubState};
use crate::behavior::{
    aggro, aggro_step, chasing, chasing_step, defense, defense_step, melee_attack, melee_step,
    patrol_step, patrol_with, ranged_attack, ranged_step, waiting, waiting_step, walking,
    walking_step, WALK_MAX, WALK_MIN,
};
use crate::range::{check_player_range, range_step, PlayerView};
use crate::queue::{apply_additions_spec, apply_all};
use crate::lifecycle::{dead, dead_step, set_up, setup_enemy, BASE_HP};
use crate::spawner::{spawn_enemy, spawner_tick, lemma_run_bounds, EnemyBlueprintBundle, EnemySpawnerBundle, SlotRun};
use crate::agent::{Point, Role};

verus! {

pub open spec fn views(s: Seq<Enemy>) -> Seq<EnemyView> {
    s.map_values(|e: Enemy| e@)
}

/// The enemies' tags after the transition pass.
pub open spec fn applied(v: EnemyView) -> EnemyView {
    EnemyView {
        tags: apply_additions_spec(apply_all(v.tags, v.transitions), v.additions),
        transitions: Seq::empty(),
        additions: Seq::empty(),
        ..v
    }
}

/// Classifies the player for every enemy.
pub fn classify_all(enemies: &mut Vec<Enemy>, player: Option<PlayerView>)
    ensures
        final(enemies)@.len() == old(enemies)@.len(),
        forall|j: int|
            0 <= j < old(enemies)@.len() ==> #[trigger] final(enemies)@[j]@ == range_step(old(enemies)@[j]@, player),
{
    let ghost start = enemies@;
    let n = enemies.len();
    let mut i: usize = 0;
    while i < n
        invariant
            n == start.len(),
            enemies@.len() == n,
            0 <= i <= n,
            forall|j: int| 0 <= j < i ==> #[trigger] enemies@[j]@ == range_step(start[j]@, player),
            forall|j: int| i <= j < n ==> #[trigger] enemies@[j] == start[j],
        decreases n - i,
    {
        check_player_range(&mut enemies[i], player);
        i = i + 1;
    }
}

/// Drains the queues of every enemy, exactly once each.
pub fn apply_all_queues(enemies: &mut Vec<Enemy>)
    ensures
        final(enemies)@.len() == old(enemies)@.len(),
        forall|j: int|
            0 <= j < old(enemies)@.len() ==> #[trigger] final(enemies)@[j]@ == applied(old(enemies)@[j]@),
{
    let ghost start = enemies@;
    let n = enemies.len();
    let mut i: usize = 0;
    while i < n
        invariant
            n == start.len(),
            enemies@.len() == n,
            0 <= i <= n,
            forall|j: int| 0 <= j < i ==> #[trigger] enemies@[j]@ == applied(start[j]@),
            forall|j: int| i <= j < n ==> #[trigger] enemies@[j] == start[j],
        decreases n - i,
    {
        enemies[i].apply_queues();
        i = i + 1;
    }
}

/// What the attack handlers ask of the world on this tick.
#[derive(Clone, Copy, Debug, PartialEq, Eq, Structural)]
pub struct AttackEvents {
    /// A ranged attack lets its projectile go.
    pub fire: bool,
    /// A melee attack spawns its hitbox.
    pub hitbox: bool,
}

/// Whether the target recorded by a ranged attack is still the player.
pub open spec fn attack_target_resolves(v: EnemyView, player: Option<PlayerView>) -> bool {
    match v.tags.sub {
        Some(SubState::RangedAttack(a)) => player.is_some() && player.unwrap().entity == a.target,
        _ => false,
    }
}

/// The behaviour handlers of one tick, in their fixed order: patrol,
/// aggro, waiting, defense, ranged attack, melee attack, then walking and
/// chasing.
pub open spec fn behave(v: EnemyView, player: Option<PlayerView>, walk_ticks: u32) -> (EnemyView, AttackEvents) {
    let v1 = patrol_step(v, walk_ticks);
    let v2 = aggro_step(v1);
    let v3 = waiting_step(v2);
    let v4 = defense_step(v3);
    let (v5, fire) = ranged_step(v4, attack_target_resolves(v4, player));
    let (v6, hitbox) = melee_step(v5);
    let v7 = walking_step(v6);
    (chasing_step(v7), AttackEvents { fire, hitbox })
}

fn target_resolves(e: &Enemy, player: Option<PlayerView>) -> (r: bool)
    ensures
        r == attack_target_resolves(e@, player),
{
    match (e.tags.sub, player) {
        (Some(SubState::RangedAttack(a)), Some(p)) => p.entity == a.target,
        _ => false,
    }
}

/// Runs every behaviour handler on one enemy, with the walk length a
/// patrol would start already drawn.
pub fn behave_enemy(e: &mut Enemy, player: Option<PlayerView>, walk_ticks: u32) -> (r: AttackEvents)
    ensures
        (final(e)@, r) == behave(old(e)@, player, walk_ticks),
{
    patrol_with(e, walk_ticks);
    aggro(e);
    waiting(e);
    defense(e);
    let resolves = target_resolves(e, player);
    let fire = ranged_attack(e, resolves);
    let hitbox = melee_attack(e);
    walking(e);
    chasing(e);
    AttackEvents { fire, hitbox }
}

/// The behaviour phase over all enemies, with one drawn walk length each.
pub fn behave_all_with(enemies: &mut Vec<Enemy>, player: Option<PlayerView>, walks: &Vec<u32>) -> (r: Vec<AttackEvents>)
    requires
        walks@.len() == old(enemies)@.len(),
    ensures
        final(enemies)@.len() == old(enemies)@.len(),
        r@.len() == old(enemies)@.len(),
        forall|j: int|
            0 <= j < old(enemies)@.len() ==> (#[trigger] final(enemies)@[j]@, r@[j]) == behave(
                old(enemies)@[j]@,
                player,
                walks@[j],
            ),
{
    let ghost start = enemies@;
    let n = enemies.len();
    let mut out: Vec<AttackEvents> = Vec::new();
    let mut i: usize = 0;
    while i < n
        invariant
            n == start.len(),
            walks@.len() == n,
            enemies@.len() == n,
            out@.len() == i,
            0 <= i <= n,
            forall|j: int|
                0 <= j < i ==> (#[trigger] enemies@[j]@, out@[j]) == behave(start[j]@, player, walks@[j]),
            forall|j: int| i <= j < n ==> #[trigger] enemies@[j] == start[j],
        decreases n - i,
    {
        let ev = behave_enemy(&mut enemies[i], player, walks[i]);
        out.push(ev);
        i = i + 1;
    }
    out
}

/// Walk lengths in `24..300`, one per enemy.
pub open spec fn fair_walks(walks: Seq<u32>, n: nat) -> bool {
    walks.len() == n && forall|j: int| 0 <= j < n ==> WALK_MIN <= #[trigger] walks[j] < WALK_MAX
}

/// `after` and `events` are the behaviour phase on `before`.
pub open spec fn behaved(
    before: Seq<Enemy>,
    after: Seq<Enemy>,
    events: Seq<AttackEvents>,
    player: Option<PlayerView>,
    walks: Seq<u32>,
) -> bool {
    &&& after.len() == before.len()
    &&& events.len() == before.len()
    &&& forall|j: int|
        0 <= j < before.len() ==> (#[trigger] after[j]@, events[j]) == behave(before[j]@, player, walks[j])
}

/// The behaviour phase over all enemies; each walk a patrol starts lasts
/// a drawn number of ticks in `24..300`.
pub fn behave_all(enemies: &mut Vec<Enemy>, player: Option<PlayerView>) -> (r: Vec<AttackEvents>)
    ensures
        final(enemies)@.len() == old(enemies)@.len(),
        r@.len() == old(enemies)@.len(),
        exists|walks: Seq<u32>|
            fair_walks(walks, old(enemies)@.len()) && #[trigger] behaved(
                old(enemies)@,
                final(enemies)@,
                r@,
                player,
                walks,
            ),
{
    let mut walks: Vec<u32> = Vec::new();
    let n = enemies.len();
    let mut i: usize = 0;
    while i < n
        invariant
            walks@.len() == i,
            0 <= i <= n,
            forall|j: int| 0 <= j < i ==> WALK_MIN <= #[trigger] walks@[j] < WALK_MAX,
        decreases n - i,
    {
        walks.push(crate::rng::random_in(WALK_MIN, WALK_MAX));
        i = i + 1;
    }
    let r = behave_all_with(enemies, player, &walks);
    assert(fair_walks(walks@, old(enemies)@.len()));
    assert(behaved(old(enemies)@, enemies@, r@, player, walks@));
    r
}

/// The sprite entity that shows an enemy.
#[derive(Clone, Copy, Debug, PartialEq, Eq, Structural)]
pub struct EnemyGfx {
    pub entity: Entity,
    /// The enemy shown.
    pub e_gent: Entity,
    /// Playing its decay; despawned once the clip is over.
    pub decay: bool,
}

/// The sprite entity that shows hit sparks over an enemy.
#[derive(Clone, Copy, Debug, PartialEq, Eq, Structural)]
pub struct EnemyEffectGfx {
    pub entity: Entity,
    pub e_gent: Entity,
}

pub open spec fn decays(v: EnemyView) -> bool {
    v.life == Life::Decay
}

pub open spec fn stays(v: EnemyView) -> bool {
    v.life != Life::Decay
}

/// The enemies a decay pass keeps.
pub open spec fn kept() -> spec_fn(EnemyView) -> bool {
    |v: EnemyView| stays(v)
}

/// Some decaying enemy among `enemies` is shown by the sprite `g`.
pub open spec fn decay_shown_by(enemies: Seq<Enemy>, g: Entity) -> bool {
    exists|j: int| 0 <= j < enemies.len() && decays(#[trigger] enemies[j]@) && enemies[j]@.gfx == g
}

fn decay_shown(enemies: &Vec<Enemy>, g: Entity) -> (r: bool)
    ensures
        r == decay_shown_by(enemies@, g),
{
    let mut i: usize = 0;
    while i < enemies.len()
        invariant
            0 <= i <= enemies@.len(),
            forall|j: int| 0 <= j < i ==> !(decays(#[trigger] enemies@[j]@) && enemies@[j]@.gfx == g),
        decreases enemies@.len() - i,
    {
        if enemies[i].life == Life::Decay && enemies[i].gfx == g {
            assert(decays(enemies@[i as int]@) && enemies@[i as int]@.gfx == g);
            return true;
        }
        i = i + 1;
    }
    false
}

/// Hands the decay marker of every decaying enemy to its sprite and
/// despawns the enemy; the others keep their order.
pub fn decay_despawn(enemies: &mut Vec<Enemy>, gfx: &mut Vec<EnemyGfx>)
    ensures
        views(final(enemies)@) == views(old(enemies)@).filter(kept()),
        final(gfx)@.len() == old(gfx)@.len(),
        forall|k: int|
            0 <= k < old(gfx)@.len() ==> #[trigger] final(gfx)@[k] == (EnemyGfx {
                decay: old(gfx)@[k].decay || decay_shown_by(old(enemies)@, old(gfx)@[k].entity),
                ..old(gfx)@[k]
            }),
{
    let ghost g0 = gfx@;
    let m = gfx.len();
    let mut k: usize = 0;
    while k < m
        invariant
            m == g0.len(),
            gfx@.len() == m,
            enemies@ == old(enemies)@,
            0 <= k <= m,
            forall|q: int|
                0 <= q < k ==> #[trigger] gfx@[q] == (EnemyGfx {
                    decay: g0[q].decay || decay_shown_by(old(enemies)@, g0[q].entity),
                    ..g0[q]
                }),
            forall|q: int| k <= q < m ==> #[trigger] gfx@[q] == g0[q],
        decreases m - k,
    {
        let g = gfx[k];
        if decay_shown(enemies, g.entity) {
            gfx[k] = EnemyGfx { decay: true, ..g };
        }
        k = k + 1;
    }
    let ghost start = enemies@;
    let mut rest: Vec<Enemy> = Vec::new();
    std::mem::swap(enemies, &mut rest);
    let n = rest.len();
    let mut i: usize = 0;
    while i < n
        invariant
            n == start.len(),
            rest@ == start.subrange(i as int, n as int),
            0 <= i <= n,
            views(enemies@) == views(start.take(i as int)).filter(kept()),
        decreases n - i,
    {
        let e = rest.remove(0);
        proof {
            reveal(Seq::filter);
            let s1 = views(start.take(i as int + 1));
            assert(s1.drop_last() =~= views(start.take(i as int)));
            assert(s1.last() == e@);
            assert(s1.filter(kept()) == if stays(e@) {
                views(start.take(i as int)).filter(kept()).push(e@)
            } else {
                views(start.take(i as int)).filter(kept())
            });
            assert(start.subrange(i as int + 1, n as int) =~= start.subrange(i as int, n as int).remove(0));
        }
        let ghost before = enemies@;
        if e.life != Life::Decay {
            enemies.push(e);
            assert(views(enemies@) =~= views(before).push(e@));
        }
        i = i + 1;
    }
    assert(start.take(n as int) =~= start);
}

/// Advances the death of every dead enemy, counting each death once in
/// the global `kill_count`.
pub fn dead_all(enemies: &mut Vec<Enemy>, kill_count: &mut u64)
    ensures
        final(enemies)@.len() == old(enemies)@.len(),
        ({
            let r = deaths(views(old(enemies)@), *old(kill_count));
            &&& *final(kill_count) == r.1
            &&& forall|j: int| 0 <= j < old(enemies)@.len() ==> #[trigger] final(enemies)@[j]@ == r.0[j]
        }),
{
    let ghost start = enemies@;
    let ghost k0 = *kill_count;
    let n = enemies.len();
    let mut i: usize = 0;
    while i < n
        invariant
            n == start.len(),
            enemies@.len() == n,
            0 <= i <= n,
            ({
                let r = deaths(views(start.take(i as int)), k0);
                &&& *kill_count == r.1
                &&& r.0.len() == i
                &&& forall|j: int| 0 <= j < i ==> #[trigger] enemies@[j]@ == r.0[j]
            }),
            forall|j: int| i <= j < n ==> #[trigger] enemies@[j] == start[j],
        decreases n - i,
    {
        proof {
            assert(views(start.take(i as int + 1)).drop_last() =~= views(start.take(i as int)));
        }
        dead(&mut enemies[i], kill_count);
        i = i + 1;
    }
    assert(start.take(n as int) =~= start);
}

/// The dying step over the enemies in order, threading the kill count.
pub open spec fn deaths(s: Seq<EnemyView>, kills: u64) -> (Seq<EnemyView>, u64)
    decreases s.len(),
{
    if s.len() == 0 {
        (Seq::empty(), kills)
    } else {
        let (vs, k) = deaths(s.drop_last(), kills);
        let (v, k2) = dead_step(s.last(), k);
        (vs.push(v), k2)
    }
}

/// Sets up every pending blueprint: each gets a sprite and an effects
/// sprite with the next two ids, and a role drawn at random; the pending
/// list is emptied.
pub fn setup_all(
    blueprints: &mut Vec<EnemyBlueprintBundle>,
    enemies: &mut Vec<Enemy>,
    gfx: &mut Vec<EnemyGfx>,
    effects: &mut Vec<EnemyEffectGfx>,
    next_id: &mut u64,
)
    requires
        *old(next_id) + 2 * old(blueprints)@.len() <= u64::MAX,
        forall|j: int|
            0 <= j < old(blueprints)@.len() ==> #[trigger] old(blueprints)@[j].marker.bonus_hp <= u64::MAX
                - BASE_HP,
    ensures
        final(blueprints)@.len() == 0,
        *final(next_id) == *old(next_id) + 2 * old(blueprints)@.len(),
        final(enemies)@.len() == old(enemies)@.len() + old(blueprints)@.len(),
        final(gfx)@.len() == old(gfx)@.len() + old(blueprints)@.len(),
        final(effects)@.len() == old(effects)@.len() + old(blueprints)@.len(),
        forall|j: int| 0 <= j < old(enemies)@.len() ==> #[trigger] final(enemies)@[j] == old(enemies)@[j],
        forall|j: int| 0 <= j < old(gfx)@.len() ==> #[trigger] final(gfx)@[j] == old(gfx)@[j],
        forall|j: int| 0 <= j < old(effects)@.len() ==> #[trigger] final(effects)@[j] == old(effects)@[j],
        forall|j: int|
            0 <= j < old(blueprints)@.len() ==> {
                let bp = old(blueprints)@[j];
                let g = Entity { id: (*old(next_id) + 2 * j) as u64 };
                let fx = Entity { id: (*old(next_id) + 2 * j + 1) as u64 };
                &&& (#[trigger] final(enemies)@[old(enemies)@.len() + j]@ == set_up(bp, g, fx, Role::Melee)
                    || final(enemies)@[old(enemies)@.len() + j]@ == set_up(bp, g, fx, Role::Ranged))
                &&& final(gfx)@[old(gfx)@.len() + j] == (EnemyGfx { entity: g, e_gent: bp.entity, decay: false })
                &&& final(effects)@[old(effects)@.len() + j] == (EnemyEffectGfx { entity: fx, e_gent: bp.entity })
            },
{
    let n = blueprints.len();
    let ghost n0 = enemies@.len();
    let ghost m0 = gfx@.len();
    let ghost f0 = effects@.len();
    let ghost id0 = *next_id;
    let mut i: usize = 0;
    while i < n
        invariant
            n == old(blueprints)@.len(),
            blueprints@ == old(blueprints)@,
            id0 == *old(next_id),
            id0 + 2 * n <= u64::MAX,
            forall|j: int| 0 <= j < n ==> #[trigger] old(blueprints)@[j].marker.bonus_hp <= u64::MAX - BASE_HP,
            0 <= i <= n,
            *next_id == id0 + 2 * i,
            n0 == old(enemies)@.len(),
            m0 == old(gfx)@.len(),
            f0 == old(effects)@.len(),
            enemies@.len() == n0 + i,
            gfx@.len() == m0 + i,
            effects@.len() == f0 + i,
            forall|j: int| 0 <= j < n0 ==> #[trigger] enemies@[j] == old(enemies)@[j],
            forall|j: int| 0 <= j < m0 ==> #[trigger] gfx@[j] == old(gfx)@[j],
            forall|j: int| 0 <= j < f0 ==> #[trigger] effects@[j] == old(effects)@[j],
            forall|j: int|
                0 <= j < i ==> {
                    let bp = old(blueprints)@[j];
                    let g = Entity { id: (id0 + 2 * j) as u64 };
                    let fx = Entity { id: (id0 + 2 * j + 1) as u64 };
                    &&& (#[trigger] enemies@[n0 + j]@ == set_up(bp, g, fx, Role::Melee)
                        || enemies@[n0 + j]@ == set_up(bp, g, fx, Role::Ranged))
                    &&& gfx@[m0 + j] == (EnemyGfx { entity: g, e_gent: bp.entity, decay: false })
                    &&& effects@[f0 + j] == (EnemyEffectGfx { entity: fx, e_gent: bp.entity })
                },
        decreases n - i,
    {
        let bp = blueprints[i];
        let g = Entity { id: *next_id };
        let fx = Entity { id: *next_id + 1 };
        *next_id = *next_id + 2;
        let e = setup_enemy(bp, g, fx);
        enemies.push(e);
        gfx.push(EnemyGfx { entity: g, e_gent: bp.entity, decay: false });
        effects.push(EnemyEffectGfx { entity: fx, e_gent: bp.entity });
        i = i + 1;
    }
    blueprints.clear();
}

/// Entities of the dead enemies, in order.
pub open spec fn dead_entities(s: Seq<Enemy>) -> Seq<Entity>
    decreases s.len(),
{
    if s.len() == 0 {
        Seq::empty()
    } else {
        let rest = dead_entities(s.drop_last());
        match s.last().life {
            Life::Dead { .. } => rest.push(s.last().entity),
            _ => rest,
        }
    }
}

pub fn collect_dead(enemies: &Vec<Enemy>) -> (r: Vec<Entity>)
    ensures
        r@ == dead_entities(enemies@),
{
    let mut out: Vec<Entity> = Vec::new();
    let mut i: usize = 0;
    while i < enemies.len()
        invariant
            0 <= i <= enemies@.len(),
            out@ == dead_entities(enemies@.take(i as int)),
        decreases enemies@.len() - i,
    {
        assert(enemies@.take(i as int + 1).drop_last() =~= enemies@.take(i as int));
        match enemies[i].life {
            Life::Dead { .. } => out.push(enemies[i].entity),
            _ => {},
        }
        i = i + 1;
    }
    assert(enemies@.take(enemies@.len() as int) =~= enemies@);
    out
}

/// Ids a tick of these spawners may take at most.
pub open spec fn id_demand(sp: Seq<EnemySpawnerBundle>) -> int
    decreases sp.len(),
{
    if sp.len() == 0 {
        0
    } else {
        id_demand(sp.drop_last()) + sp.last().marker.slots@.len() + 2
    }
}

proof fn lemma_demand_prefix(sp: Seq<EnemySpawnerBundle>, i: int)
    requires
        0 <= i <= sp.len(),
    ensures
        id_demand(sp.take(i)) <= id_demand(sp),
        id_demand(sp) >= 0,
    decreases sp.len(),
{
    if sp.len() > 0 {
        if i == sp.len() {
            assert(sp.take(i) =~= sp);
            lemma_demand_prefix(sp.drop_last(), 0);
        } else {
            assert(sp.take(i) =~= sp.drop_last().take(i));
            lemma_demand_prefix(sp.drop_last(), i);
        }
    }
}

/// The spawners, first to last, threading the next free id; the result
/// holds each spawner's run, the next id after them all, and the
/// blueprints spawned, in order.
pub open spec fn spawn_run(
    sp: Seq<EnemySpawnerBundle>,
    next_id: u64,
    player: Option<Point>,
    dead: Seq<Entity>,
) -> (Seq<SlotRun>, u64, Seq<EnemyBlueprintBundle>)
    decreases sp.len(),
{
    if sp.len() == 0 {
        (Seq::empty(), next_id, Seq::empty())
    } else {
        let (rs, n, bs) = spawn_run(sp.drop_last(), next_id, player, dead);
        let s = sp.last();
        let r = spawner_tick(s.marker.slots@, s.killed.count, n, s.position, player, dead);
        (rs.push(r), r.next_id, bs + r.spawned)
    }
}

proof fn lemma_spawn_run_ids(sp: Seq<EnemySpawnerBundle>, next_id: u64, player: Option<Point>, dead: Seq<Entity>)
    requires
        next_id + id_demand(sp) <= u64::MAX,
    ensures
        next_id <= spawn_run(sp, next_id, player, dead).1 <= next_id + id_demand(sp),
        spawn_run(sp, next_id, player, dead).0.len() == sp.len(),
    decreases sp.len(),
{
    if sp.len() > 0 {
        lemma_demand_prefix(sp.drop_last(), 0);
        lemma_spawn_run_ids(sp.drop_last(), next_id, player, dead);
        let (rs, n, bs) = spawn_run(sp.drop_last(), next_id, player, dead);
        let s = sp.last();
        let opened = crate::spawner::opened_slots(s.marker.slots@, s.killed.count);
        lemma_run_bounds(
            SlotRun { slots: Seq::empty(), killed: s.killed.count, next_id: n, spawned: Seq::empty() },
            opened,
            dead,
            s.position,
            crate::spawner::spawn_allowed(s.position, player),
        );
    }
}

/// One tick of every spawner against the enemies now dead; the blueprints
/// spawned are appended to `blueprints`.
pub fn spawn_all(
    spawners: &mut Vec<EnemySpawnerBundle>,
    enemies: &Vec<Enemy>,
    player: Option<Point>,
    next_id: &mut u64,
    blueprints: &mut Vec<EnemyBlueprintBundle>,
)
    requires
        *old(next_id) + id_demand(old(spawners)@) <= u64::MAX,
    ensures
        ({
            let (rs, n, bs) = spawn_run(old(spawners)@, *old(next_id), player, dead_entities(enemies@));
            &&& final(spawners)@.len() == old(spawners)@.len()
            &&& forall|j: int|
                0 <= j < old(spawners)@.len() ==> {
                    &&& (#[trigger] final(spawners)@[j]).marker.slots@ == rs[j].slots
                    &&& final(spawners)@[j].killed.count == rs[j].killed
                    &&& final(spawners)@[j].position == old(spawners)@[j].position
                }
            &&& *final(next_id) == n
            &&& final(blueprints)@ == old(blueprints)@ + bs
        }),
{
    let dead = collect_dead(enemies);
    let ghost start = spawners@;
    let ghost id0 = *next_id;
    let ghost b0 = blueprints@;
    let n = spawners.len();
    let mut i: usize = 0;
    while i < n
        invariant
            n == start.len(),
            spawners@.len() == n,
            dead@ == dead_entities(enemies@),
            id0 + id_demand(start) <= u64::MAX,
            0 <= i <= n,
            ({
                let (rs, nid, bs) = spawn_run(start.take(i as int), id0, player, dead@);
                &&& *next_id == nid
                &&& blueprints@ == b0 + bs
                &&& forall|j: int|
                    0 <= j < i ==> {
                        &&& (#[trigger] spawners@[j]).marker.slots@ == rs[j].slots
                        &&& spawners@[j].killed.count == rs[j].killed
                        &&& spawners@[j].position == start[j].position
                    }
            }),
            forall|j: int| i <= j < n ==> #[trigger] spawners@[j] == start[j],
        decreases n - i,
    {
        proof {
            assert(start.take(i as int + 1).drop_last() =~= start.take(i as int));
            lemma_demand_prefix(start, i as int + 1);
            lemma_spawn_run_ids(start.take(i as int), id0, player, dead@);
            assert(start.take(i as int + 1).last() == start[i as int]);
        }
        let ghost before = spawn_run(start.take(i as int), id0, player, dead@);
        let spawned = spawn_enemy(&mut spawners[i], player, &dead, next_id);
        let mut k: usize = 0;
        let ghost bl = blueprints@;
        while k < spawned.len()
            invariant
                0 <= k <= spawned@.len(),
                blueprints@ == bl + spawned@.take(k as int),
            decreases spawned@.len() - k,
        {
            blueprints.push(spawned[k]);
            assert(spawned@.take(k as int + 1) =~= spawned@.take(k as int).push(spawned@[k as int]));
            assert(bl + spawned@.take(k as int + 1) =~= (bl + spawned@.take(k as int)).push(spawned@[k as int]));
            k = k + 1;
        }
        proof {
            assert(spawned@.take(spawned@.len() as int) =~= spawned@);
            let r = spawn_run(start.take(i as int + 1), id0, player, dead@);
            assert(r.0.len() == i + 1) by {
                lemma_spawn_run_ids(start.take(i as int + 1), id0, player, dead@);
                lemma_demand_prefix(start, i as int + 1);
            }
            assert(r.0.drop_last() == before.0);
            assert(b0 + r.2 =~= b0 + before.2 + spawned@);
        }
        i = i + 1;
    }
    assert(start.take(n as int) =~= start);
}

proof fn lemma_deaths_len(s: Seq<EnemyView>, kills: u64)
    ensures
        deaths(s, kills).0.len() == s.len(),
    decreases s.len(),
{
    if s.len() > 0 {
        lemma_deaths_len(s.drop_last(), kills);
    }
}

/// Everything the enemy engine keeps between ticks.
#[derive(Clone, Debug)]
pub struct World {
    pub enemies: Vec<Enemy>,
    /// Spawned enemies not set up yet.
    pub blueprints: Vec<EnemyBlueprintBundle>,
    pub spawners: Vec<EnemySpawnerBundle>,
    pub gfx: Vec<EnemyGfx>,
    pub effects: Vec<EnemyEffectGfx>,
    pub player: Option<PlayerView>,
    /// Kills over all spawners.
    pub kill_count: u64,
    /// The next entity id to hand out.
    pub next_id: u64,
}

pub open spec fn player_point(p: Option<PlayerView>) -> Option<Point> {
    match p {
        Some(v) => Some(v.position),
        None => None,
    }
}

/// The housekeeping, classification and behaviour phases, in order, on
/// the enemies `before`, with the walk lengths `walks`.
pub open spec fn tick_behaved(
    before: Seq<EnemyView>,
    kills: u64,
    player: Option<PlayerView>,
    after: Seq<EnemyView>,
    kills_after: u64,
    events: Seq<AttackEvents>,
    walks: Seq<u32>,
) -> bool {
    let (d, k) = deaths(before.filter(kept()), kills);
    &&& kills_after == k
    &&& after.len() == d.len()
    &&& events.len() == d.len()
    &&& forall|j: int|
        0 <= j < d.len() ==> (#[trigger] after[j], events[j]) == behave(range_step(d[j], player), player, walks[j])
}

impl World {
    /// Sets up the blueprints spawned last tick, then runs every spawner.
    pub fn spawn_phase(&mut self)
        requires
            old(self).next_id + 2 * old(self).blueprints@.len() + id_demand(old(self).spawners@) <= u64::MAX,
            forall|j: int|
                0 <= j < old(self).blueprints@.len() ==> #[trigger] old(self).blueprints@[j].marker.bonus_hp
                    <= u64::MAX - BASE_HP,
        ensures
            final(self).enemies@.len() == old(self).enemies@.len() + old(self).blueprints@.len(),
            forall|j: int| 0 <= j < old(self).enemies@.len() ==> #[trigger] final(self).enemies@[j] == old(self).enemies@[j],
            forall|j: int|
                0 <= j < old(self).blueprints@.len() ==> {
                    let bp = old(self).blueprints@[j];
                    let g = Entity { id: (old(self).next_id + 2 * j) as u64 };
                    let fx = Entity { id: (old(self).next_id + 2 * j + 1) as u64 };
                    let v = #[trigger] final(self).enemies@[old(self).enemies@.len() + j]@;
                    &&& (v == set_up(bp, g, fx, Role::Melee) || v == set_up(bp, g, fx, Role::Ranged))
                    &&& final(self).gfx@[old(self).gfx@.len() + j] == (EnemyGfx { entity: g, e_gent: bp.entity, decay: false })
                    &&& final(self).effects@[old(self).effects@.len() + j] == (EnemyEffectGfx { entity: fx, e_gent: bp.entity })
                },
            final(self).gfx@.len() == old(self).gfx@.len() + old(self).blueprints@.len(),
            forall|j: int| 0 <= j < old(self).gfx@.len() ==> #[trigger] final(self).gfx@[j] == old(self).gfx@[j],
            final(self).effects@.len() == old(self).effects@.len() + old(self).blueprints@.len(),
            forall|j: int| 0 <= j < old(self).effects@.len() ==> #[trigger] final(self).effects@[j] == old(self).effects@[j],
            ({
                let (rs, n, bs) = spawn_run(
                    old(self).spawners@,
                    (old(self).next_id + 2 * old(self).blueprints@.len()) as u64,
                    player_point(old(self).player),
                    dead_entities(final(self).enemies@),
                );
                &&& final(self).spawners@.len() == old(self).spawners@.len()
                &&& forall|j: int|
                    0 <= j < old(self).spawners@.len() ==> {
                        &&& (#[trigger] final(self).spawners@[j]).marker.slots@ == rs[j].slots
                        &&& final(self).spawners@[j].killed.count == rs[j].killed
                        &&& final(self).spawners@[j].position == old(self).spawners@[j].position
                    }
                &&& final(self).next_id == n
                &&& final(self).blueprints@ == bs
            }),
            final(self).player == old(self).player,
            final(self).kill_count == old(self).kill_count,
    {
        proof {
            lemma_demand_prefix(self.spawners@, 0);
        }
        setup_all(&mut self.blueprints, &mut self.enemies, &mut self.gfx, &mut self.effects, &mut self.next_id);
        spawn_all(
            &mut self.spawners,
            &self.enemies,
            match self.player {
                Some(p) => Some(p.position),
                None => None,
            },
            &mut self.next_id,
            &mut self.blueprints,
        );
    }

    /// Despawns the decayed, advances the dead, classifies the player for
    /// every enemy and runs the behaviour handlers; returns the attack
    /// events of each remaining enemy, in order.
    pub fn behavior_phase(&mut self) -> (r: Vec<AttackEvents>)
        ensures
            exists|walks: Seq<u32>|
                fair_walks(walks, r@.len()) && #[trigger] tick_behaved(
                    views(old(self).enemies@),
                    old(self).kill_count,
                    old(self).player,
                    views(final(self).enemies@),
                    final(self).kill_count,
                    r@,
                    walks,
                ),
            final(self).player == old(self).player,
            final(self).spawners@ == old(self).spawners@,
            final(self).gfx@.len() == old(self).gfx@.len(),
            forall|k: int|
                0 <= k < old(self).gfx@.len() ==> #[trigger] final(self).gfx@[k] == (EnemyGfx {
                    decay: old(self).gfx@[k].decay || decay_shown_by(old(self).enemies@, old(self).gfx@[k].entity),
                    ..old(self).gfx@[k]
                }),
            final(self).blueprints@ == old(self).blueprints@,
            final(self).effects@ == old(self).effects@,
            final(self).next_id == old(self).next_id,
    {
        decay_despawn(&mut self.enemies, &mut self.gfx);
        let ghost e1 = self.enemies@;
        dead_all(&mut self.enemies, &mut self.kill_count);
        let ghost e2 = self.enemies@;
        let player = self.player;
        classify_all(&mut self.enemies, player);
        let ghost e3 = self.enemies@;
        let r = behave_all(&mut self.enemies, player);
        proof {
            let walks = choose|walks: Seq<u32>|
                fair_walks(walks, e3.len()) && #[trigger] behaved(e3, self.enemies@, r@, player, walks);
            let (d, k) = deaths(views(e1), old(self).kill_count);
            lemma_deaths_len(views(e1), old(self).kill_count);
            assert forall|j: int| 0 <= j < d.len() implies (#[trigger] views(self.enemies@)[j], r@[j]) == behave(
                range_step(d[j], player),
                player,
                walks[j],
            ) by {
                assert(e2[j]@ == d[j]);
                assert(e3[j]@ == range_step(e2[j]@, player));
            }
            assert(tick_behaved(
                views(old(self).enemies@),
                old(self).kill_count,
                old(self).player,
                views(self.enemies@),
                self.kill_count,
                r@,
                walks,
            ));
        }
        r
    }

    /// Applies every enemy's queued transitions and additions, once each,
    /// and empties the queues.
    pub fn transition_phase(&mut self)
        ensures
            final(self).enemies@.len() == old(self).enemies@.len(),
            forall|j: int|
                0 <= j < old(self).enemies@.len() ==> #[trigger] final(self).enemies@[j]@ == applied(
                    old(self).enemies@[j]@,
                ),
            final(self).player == old(self).player,
            final(self).spawners@ == old(self).spawners@,
            final(self).gfx@ == old(self).gfx@,
            final(self).effects@ == old(self).effects@,
            final(self).blueprints@ == old(self).blueprints@,
            final(self).kill_count == old(self).kill_count,
            final(self).next_id == old(self).next_id,
    {
        apply_all_queues(&mut self.enemies);
    }
}

} // verus!
