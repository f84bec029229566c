//! Slot-based spawning: each slot of a spawner holds at most one enemy and
//! its own cooldown; kills open new slots.
use vstd::prelude::*;
use crate::agent::{tick_up, incr, Entity, Point};
use crate::range::{dist_sq, distance_squared, radius_sq, radius_squared};

verus! {

/// A spawn slot: its occupant, if any, and the ticks since it was freed.
#[derive(Clone, Copy, Debug, PartialEq, Eq, Structural)]
pub struct SpawnSlot {
    pub enemy: Option<Entity>,
    pub cooldown_ticks: u32,
}

/// Enemy spawner; each slot has its own spawn cooldown.
#[derive(Clone, Debug)]
pub struct EnemySpawner {
    pub slots: Vec<SpawnSlot>,
}

impl EnemySpawner {
    /// Ticks an empty slot waits before it spawns.
    pub const COOLDOWN: u32 = 620;
    /// No spawn while the player is this close or closer, in world units.
    pub const RANGE: i64 = 500;

    pub fn new() -> (r: EnemySpawner)
        ensures
            r.slots@ == Seq::<SpawnSlot>::empty(),
    {
        EnemySpawner { slots: Vec::new() }
    }
}

/// Kills of the enemies of one spawner; apart from the global kill count.
#[derive(Clone, Copy, Debug, PartialEq, Eq, Structural)]
pub struct Killed {
    pub count: u32,
}

/// A spawner as it stands in the level.
#[derive(Clone, Debug)]
pub struct EnemySpawnerBundle {
    pub position: Point,
    pub marker: EnemySpawner,
    pub killed: Killed,
}

impl EnemySpawnerBundle {
    pub fn new(position: Point) -> (r: EnemySpawnerBundle)
        ensures
            r.position == position,
            r.marker.slots@.len() == 0,
            r.killed.count == 0,
    {
        EnemySpawnerBundle { position, marker: EnemySpawner::new(), killed: Killed { count: 0 } }
    }
}

/// A spawned enemy before it is set up.
#[derive(Clone, Copy, Debug, PartialEq, Eq, Structural)]
pub struct EnemyBlueprint {
    /// Health added for the kills of the spawner so far.
    pub bonus_hp: u64,
}

/// Health an enemy gets for each earlier kill of its spawner.
pub const BONUS_HP_PER_KILL: u64 = 20;

/// The blueprint entity a spawner creates.
#[derive(Clone, Copy, Debug, PartialEq, Eq, Structural)]
pub struct EnemyBlueprintBundle {
    pub entity: Entity,
    pub position: Point,
    pub marker: EnemyBlueprint,
}

/// Whether the player's whereabouts let a spawner at `at` spawn: no
/// player, or one farther than 500 units.
pub open spec fn spawn_allowed(at: Point, player: Option<Point>) -> bool {
    match player {
        None => true,
        Some(p) => dist_sq(at, p) > radius_sq(EnemySpawner::RANGE as int),
    }
}

/// The slots after the two openings: a first slot, cooled down, on an
/// empty spawner; then one fresh slot while fewer slots than kills.
pub open spec fn opened_slots(slots: Seq<SpawnSlot>, killed: u32) -> Seq<SpawnSlot> {
    let s1 = if slots.len() == 0 {
        slots.push(SpawnSlot { enemy: None, cooldown_ticks: EnemySpawner::COOLDOWN })
    } else {
        slots
    };
    if s1.len() < killed {
        s1.push(SpawnSlot { enemy: None, cooldown_ticks: 0 })
    } else {
        s1
    }
}

/// State threaded through the slots: the kill count and the next entity id.
pub struct SlotRun {
    pub slots: Seq<SpawnSlot>,
    pub killed: u32,
    pub next_id: u64,
    pub spawned: Seq<EnemyBlueprintBundle>,
}

/// One slot: an occupant found dead frees it and counts a kill; an empty
/// slot cools down one tick, and spawns (taking the next id, with 20 bonus
/// health per kill so far) once cooled down where the player allows it.
pub open spec fn slot_step(
    r: SlotRun,
    s: SpawnSlot,
    dead: Seq<Entity>,
    at: Point,
    allowed: bool,
) -> SlotRun {
    match s.enemy {
        Some(x) => if dead.contains(x) {
            SlotRun {
                slots: r.slots.push(SpawnSlot { enemy: None, ..s }),
                killed: tick_up(r.killed),
                ..r
            }
        } else {
            SlotRun { slots: r.slots.push(s), ..r }
        },
        None => {
            let c = tick_up(s.cooldown_ticks);
            if c >= EnemySpawner::COOLDOWN && allowed {
                let id = Entity { id: r.next_id };
                SlotRun {
                    slots: r.slots.push(SpawnSlot { enemy: Some(id), cooldown_ticks: 0 }),
                    next_id: (r.next_id + 1) as u64,
                    spawned: r.spawned.push(
                        EnemyBlueprintBundle {
                            entity: id,
                            position: at,
                            marker: EnemyBlueprint { bonus_hp: (BONUS_HP_PER_KILL * r.killed) as u64 },
                        },
                    ),
                    ..r
                }
            } else {
                SlotRun { slots: r.slots.push(SpawnSlot { enemy: None, cooldown_ticks: c }), ..r }
            }
        },
    }
}

/// All slots, first to last.
pub open spec fn run_slots(
    start: SlotRun,
    slots: Seq<SpawnSlot>,
    dead: Seq<Entity>,
    at: Point,
    allowed: bool,
) -> SlotRun
    decreases slots.len(),
{
    if slots.len() == 0 {
        start
    } else {
        slot_step(run_slots(start, slots.drop_last(), dead, at, allowed), slots.last(), dead, at, allowed)
    }
}

/// One tick of a spawner, from its slots, kills and the next free id.
pub open spec fn spawner_tick(
    slots: Seq<SpawnSlot>,
    killed: u32,
    next_id: u64,
    at: Point,
    player: Option<Point>,
    dead: Seq<Entity>,
) -> SlotRun {
    run_slots(
        SlotRun { slots: Seq::empty(), killed, next_id, spawned: Seq::empty() },
        opened_slots(slots, killed),
        dead,
        at,
        spawn_allowed(at, player),
    )
}

pub(crate) proof fn lemma_run_bounds(start: SlotRun, slots: Seq<SpawnSlot>, dead: Seq<Entity>, at: Point, allowed: bool)
    requires
        start.next_id + slots.len() <= u64::MAX,
    ensures
        run_slots(start, slots, dead, at, allowed).slots.len() == start.slots.len() + slots.len(),
        run_slots(start, slots, dead, at, allowed).next_id <= start.next_id + slots.len(),
        run_slots(start, slots, dead, at, allowed).next_id >= start.next_id,
    decreases slots.len(),
{
    if slots.len() > 0 {
        lemma_run_bounds(start, slots.drop_last(), dead, at, allowed);
    }
}

fn contains_entity(v: &Vec<Entity>, x: Entity) -> (r: bool)
    ensures
        r == v@.contains(x),
{
    let mut i: usize = 0;
    while i < v.len()
        invariant
            0 <= i <= v@.len(),
            forall|j: int| 0 <= j < i ==> v@[j] != x,
        decreases v@.len() - i,
    {
        if v[i] == x {
            return true;
        }
        i = i + 1;
    }
    false
}

/// Whether a spawner at `at` may spawn, given the player's position.
pub fn may_spawn(at: Point, player: Option<Point>) -> (r: bool)
    ensures
        r == spawn_allowed(at, player),
{
    match player {
        None => true,
        Some(p) => {
            let range: i128 = radius_squared(EnemySpawner::RANGE);
            distance_squared(at, p) > range
        },
    }
}

/// One tick of a spawner: opens the slots it is owed, frees the slots whose
/// enemy is among `dead` (counting the kills), cools the empty ones down,
/// and spawns from those cooled down while the player is not within 500
/// units. Spawned entities take ids from `*next_id` on, which advances past
/// them; the blueprints are returned in slot order.
pub fn spawn_enemy(
    spawner: &mut EnemySpawnerBundle,
    player: Option<Point>,
    dead: &Vec<Entity>,
    next_id: &mut u64,
) -> (spawned: Vec<EnemyBlueprintBundle>)
    requires
        *old(next_id) + old(spawner).marker.slots@.len() + 2 <= u64::MAX,
    ensures
        ({
            let r = spawner_tick(
                old(spawner).marker.slots@,
                old(spawner).killed.count,
                *old(next_id),
                old(spawner).position,
                player,
                dead@,
            );
            &&& final(spawner).marker.slots@ == r.slots
            &&& final(spawner).killed.count == r.killed
            &&& *final(next_id) == r.next_id
            &&& spawned@ == r.spawned
        }),
        final(spawner).position == old(spawner).position,
{
    let at = spawner.position;
    let killed0 = spawner.killed.count;
    if spawner.marker.slots.len() == 0 {
        spawner.marker.slots.push(SpawnSlot { enemy: None, cooldown_ticks: EnemySpawner::COOLDOWN });
    }
    if (spawner.marker.slots.len() as u64) < (killed0 as u64) {
        spawner.marker.slots.push(SpawnSlot { enemy: None, cooldown_ticks: 0 });
    }
    let allowed = may_spawn(at, player);
    let ghost opened = spawner.marker.slots@;
    assert(opened == opened_slots(old(spawner).marker.slots@, killed0));
    let ghost start = SlotRun { slots: Seq::empty(), killed: killed0, next_id: *next_id, spawned: Seq::empty() };
    let mut out: Vec<SpawnSlot> = Vec::new();
    let mut spawned: Vec<EnemyBlueprintBundle> = Vec::new();
    let n = spawner.marker.slots.len();
    let mut i: usize = 0;
    while i < n
        invariant
            n == opened.len(),
            opened.len() <= old(spawner).marker.slots@.len() + 2,
            spawner.marker.slots@ == opened,
            spawner.position == at,
            *old(next_id) + old(spawner).marker.slots@.len() + 2 <= u64::MAX,
            start.next_id == *old(next_id),
            0 <= i <= n,
            ({
                let r = run_slots(start, opened.take(i as int), dead@, at, allowed);
                &&& out@ == r.slots
                &&& spawner.killed.count == r.killed
                &&& *next_id == r.next_id
                &&& spawned@ == r.spawned
            }),
        decreases n - i,
    {
        proof {
            assert(opened.take(i as int + 1).drop_last() =~= opened.take(i as int));
            lemma_run_bounds(start, opened.take(i as int), dead@, at, allowed);
        }
        let s = spawner.marker.slots[i];
        match s.enemy {
            Some(x) => {
                if contains_entity(dead, x) {
                    out.push(SpawnSlot { enemy: None, cooldown_ticks: s.cooldown_ticks });
                    spawner.killed.count = incr(spawner.killed.count);
                } else {
                    out.push(s);
                }
            },
            None => {
                let c = incr(s.cooldown_ticks);
                if c >= EnemySpawner::COOLDOWN && allowed {
                    let id = Entity { id: *next_id };
                    out.push(SpawnSlot { enemy: Some(id), cooldown_ticks: 0 });
                    spawned.push(
                        EnemyBlueprintBundle {
                            entity: id,
                            position: at,
                            marker: EnemyBlueprint {
                                bonus_hp: BONUS_HP_PER_KILL * (spawner.killed.count as u64),
                            },
                        },
                    );
                    *next_id = *next_id + 1;
                } else {
                    out.push(SpawnSlot { enemy: None, cooldown_ticks: c });
                }
            },
        }
        i = i + 1;
    }
    assert(opened.take(n as int) =~= opened);
    spawner.marker.slots = out;
    spawned
}

/// Slots with no occupant.
pub open spec fn empty_slots() -> spec_fn(SpawnSlot) -> bool {
    |s: SpawnSlot| s.enemy.is_none()
}

/// What a spawner tick does to one slot `s`, ending as `o`: an occupied
/// slot keeps its cooldown and either keeps its occupant or is freed; an
/// empty slot either cools down one tick, or spawns once that tick
/// reaches 620 with the player away, restarting at zero.
pub open spec fn slot_moves(s: SpawnSlot, o: SpawnSlot, allowed: bool) -> bool {
    &&& s.enemy.is_some() ==> (o.enemy.is_none() || o.enemy == s.enemy) && o.cooldown_ticks == s.cooldown_ticks
    &&& (s.enemy.is_none() && o.enemy.is_none()) ==> o.cooldown_ticks == tick_up(s.cooldown_ticks)
    &&& (s.enemy.is_none() && o.enemy.is_some()) ==> (tick_up(s.cooldown_ticks) >= EnemySpawner::COOLDOWN
        && allowed && o.cooldown_ticks == 0)
}

proof fn lemma_run_slots_each(start: SlotRun, slots: Seq<SpawnSlot>, dead: Seq<Entity>, at: Point, allowed: bool)
    ensures
        ({
            let r = run_slots(start, slots, dead, at, allowed);
            &&& r.slots.len() == start.slots.len() + slots.len()
            &&& r.spawned.len() <= start.spawned.len() + slots.filter(empty_slots()).len()
            &&& r.killed >= start.killed
            &&& forall|k: int| 0 <= k < start.slots.len() ==> #[trigger] r.slots[k] == start.slots[k]
            &&& forall|i: int|
                0 <= i < slots.len() ==> slot_moves(slots[i], #[trigger] r.slots[start.slots.len() + i], allowed)
        }),
    decreases slots.len(),
{
    reveal(Seq::filter);
    if slots.len() > 0 {
        lemma_run_slots_each(start, slots.drop_last(), dead, at, allowed);
        let r0 = run_slots(start, slots.drop_last(), dead, at, allowed);
        let r = run_slots(start, slots, dead, at, allowed);
        assert forall|i: int| 0 <= i < slots.len() - 1 implies #[trigger] r.slots[start.slots.len() + i]
            == r0.slots[start.slots.len() + i] by {}
    }
}

/// One spawner tick. Slots are never removed or reordered: each slot there
/// before the tick moves in place by `slot_moves`, so the slot count never
/// shrinks. An empty spawner first gets one slot, cooled down; then one
/// fresh slot opens while there are fewer slots than kills. At most one
/// enemy spawns per slot that was empty, and only from a slot whose
/// cooldown reached 620 with the player away, restarting at zero. The
/// kill count never goes down.
pub proof fn lemma_spawner_tick(
    slots: Seq<SpawnSlot>,
    killed: u32,
    next_id: u64,
    at: Point,
    player: Option<Point>,
    dead: Seq<Entity>,
)
    ensures
        ({
            let r = spawner_tick(slots, killed, next_id, at, player, dead);
            let o = opened_slots(slots, killed);
            let n0 = if slots.len() == 0 { 1 } else { slots.len() };
            &&& o.len() == n0 + if n0 < killed { 1int } else { 0 }
            &&& forall|i: int| 0 <= i < slots.len() ==> #[trigger] o[i] == slots[i]
            &&& slots.len() == 0 ==> o[0] == (SpawnSlot { enemy: None, cooldown_ticks: EnemySpawner::COOLDOWN })
            &&& n0 < killed ==> o[n0 as int] == (SpawnSlot { enemy: None, cooldown_ticks: 0 })
            &&& r.slots.len() == o.len()
            &&& slots.len() <= r.slots.len() <= slots.len() + 2
            &&& r.spawned.len() <= o.filter(empty_slots()).len()
            &&& r.killed >= killed
            &&& forall|i: int| 0 <= i < o.len() ==> slot_moves(o[i], #[trigger] r.slots[i], spawn_allowed(at, player))
        }),
{
    let o = opened_slots(slots, killed);
    let start = SlotRun { slots: Seq::empty(), killed, next_id, spawned: Seq::empty() };
    lemma_run_slots_each(start, o, dead, at, spawn_allowed(at, player));
    let r = spawner_tick(slots, killed, next_id, at, player, dead);
    assert forall|i: int| 0 <= i < o.len() implies slot_moves(o[i], #[trigger] r.slots[i], spawn_allowed(at, player)) by {
        assert(r.slots[start.slots.len() + i] == r.slots[i]);
    }
}

/// The slot count a spawner is owed grows with its kills: more kills never
/// leave it with fewer slots.
pub proof fn lemma_slots_grow_with_kills(slots: Seq<SpawnSlot>, fewer: u32, more: u32)
    requires
        fewer <= more,
    ensures
        opened_slots(slots, fewer).len() <= opened_slots(slots, more).len(),
        slots.len() <= opened_slots(slots, fewer).len(),
{
}

/// What a spawner sees on one tick.
pub struct TickInput {
    pub player: Option<Point>,
    pub dead: Seq<Entity>,
}

/// A spawner over successive ticks, one input each.
pub open spec fn spawner_ticks(
    slots: Seq<SpawnSlot>,
    killed: u32,
    next_id: u64,
    at: Point,
    inputs: Seq<TickInput>,
) -> SlotRun
    decreases inputs.len(),
{
    if inputs.len() == 0 {
        SlotRun { slots, killed, next_id, spawned: Seq::empty() }
    } else {
        let r = spawner_ticks(slots, killed, next_id, at, inputs.drop_last());
        spawner_tick(r.slots, r.killed, r.next_id, at, inputs.last().player, inputs.last().dead)
    }
}

/// A slot that has just spawned `e` spawns nothing on the next 620 ticks,
/// whatever the player and the deaths: after `k` of them it still holds
/// `e` with its cooldown at zero, or it is empty with fewer than `k` ticks
/// of cooldown (the tick that frees it counts none), so the next spawn
/// from it comes at least 621 ticks later.
pub proof fn lemma_one_spawn_per_window(
    slots: Seq<SpawnSlot>,
    killed: u32,
    next_id: u64,
    at: Point,
    inputs: Seq<TickInput>,
    i: int,
    e: Entity,
)
    requires
        0 <= i < slots.len(),
        slots[i] == (SpawnSlot { enemy: Some(e), cooldown_ticks: 0 }),
        inputs.len() <= EnemySpawner::COOLDOWN,
    ensures
        ({
            let r = spawner_ticks(slots, killed, next_id, at, inputs);
            &&& i < r.slots.len()
            &&& (r.slots[i] == (SpawnSlot { enemy: Some(e), cooldown_ticks: 0 })) || (r.slots[i].enemy.is_none()
                && r.slots[i].cooldown_ticks < inputs.len())
        }),
    decreases inputs.len(),
{
    if inputs.len() > 0 {
        lemma_one_spawn_per_window(slots, killed, next_id, at, inputs.drop_last(), i, e);
        let r0 = spawner_ticks(slots, killed, next_id, at, inputs.drop_last());
        let x = inputs.last();
        lemma_spawner_tick(r0.slots, r0.killed, r0.next_id, at, x.player, x.dead);
        let o = opened_slots(r0.slots, r0.killed);
        assert(o[i] == r0.slots[i]);
    }
}

} // verus!
