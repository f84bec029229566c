use theseeker_game::agent::{Entity, Facing, Life, Mode, Point, Range, Role, StateTag, SubState, Waiting};
use theseeker_game::animation::{clip_key, decay_rate_flag, direction_flags, Clip};
use theseeker_game::lifecycle::{dead, kill, setup_enemy, setup_enemy_as};
use theseeker_game::plugin::{EnemyPlugin, EnemyStateSet};
use theseeker_game::queue::{apply_queues, AddQueue, Addition, NextState, Transition, TransitionQueue};
use theseeker_game::range::{classify, PlayerView};
use theseeker_game::script::{LevelLoadTime, ScriptPlugin, ScriptSet, ScriptUpdateResult};
use theseeker_game::spawner::{spawn_enemy, EnemyBlueprint, EnemyBlueprintBundle, EnemySpawnerBundle, SpawnSlot};
use theseeker_game::world::{decay_despawn, EnemyGfx, World};

/// World units to sub-units.
fn u(x: i32) -> i32 {
    x * 16
}

fn seen(x: i32, y: i32, stealthed: bool) -> Option<PlayerView> {
    Some(PlayerView { entity: Entity { id: 7 }, position: Point { x: u(x), y: u(y) }, stealthed })
}

fn class(d: i32, role: Role) -> Range {
    classify(Point { x: 0, y: 0 }, role, seen(d, 0, false)).0
}

fn blueprint(id: u64, bonus: u64) -> EnemyBlueprintBundle {
    EnemyBlueprintBundle { entity: Entity { id }, position: Point { x: u(5), y: u(10) }, marker: EnemyBlueprint { bonus_hp: bonus } }
}

#[test]
fn classifier_boundaries_melee_role() {
    assert_eq!(class(14, Role::Melee), Range::Melee);
    assert_eq!(class(15, Role::Melee), Range::Aggro);
    assert_eq!(class(50, Role::Melee), Range::Aggro);
    assert_eq!(class(51, Role::Melee), Range::Deaggro);
    assert_eq!(class(60, Role::Melee), Range::Deaggro);
    assert_eq!(class(70, Role::Melee), Range::Deaggro);
    assert_eq!(class(71, Role::Melee), Range::Far);
}

#[test]
fn classifier_boundaries_ranged_role() {
    assert_eq!(class(14, Role::Ranged), Range::Melee);
    assert_eq!(class(50, Role::Ranged), Range::Aggro);
    assert_eq!(class(51, Role::Ranged), Range::Ranged);
    assert_eq!(class(60, Role::Ranged), Range::Ranged);
    assert_eq!(class(61, Role::Ranged), Range::Far);
    assert_eq!(class(70, Role::Ranged), Range::Far);
}

#[test]
fn classifier_uses_euclidean_distance() {
    // 3-4-5 triangle scaled: distance exactly 50
    let r = classify(Point { x: 0, y: 0 }, Role::Melee, seen(30, 40, false));
    assert_eq!(r, (Range::Aggro, Some(Entity { id: 7 })));
    let r = classify(Point { x: 0, y: 0 }, Role::Melee, seen(30, 41, false));
    assert_eq!(r.0, Range::Deaggro);
}

#[test]
fn classifier_sees_fractions_of_a_unit() {
    let at = |x: i32| Some(PlayerView { entity: Entity { id: 7 }, position: Point { x, y: 0 }, stealthed: false });
    assert_eq!(classify(Point { x: 0, y: 0 }, Role::Melee, at(14 * 16)).0, Range::Melee);
    assert_eq!(classify(Point { x: 0, y: 0 }, Role::Melee, at(14 * 16 + 8)).0, Range::Aggro);
    assert_eq!(classify(Point { x: 0, y: 0 }, Role::Ranged, at(60 * 16 + 1)).0, Range::Far);
}

#[test]
fn classifier_stealth_and_absent() {
    assert_eq!(classify(Point { x: 0, y: 0 }, Role::Melee, seen(1, 0, true)), (Range::Deaggro, None));
    assert_eq!(classify(Point { x: 0, y: 0 }, Role::Ranged, None), (Range::Absent, None));
    assert_eq!(classify(Point { x: 0, y: 0 }, Role::Ranged, seen(500, 0, false)), (Range::Far, None));
}

#[test]
fn classifier_handles_extreme_coordinates() {
    let far = Some(PlayerView { entity: Entity { id: 7 }, position: Point { x: i32::MAX, y: i32::MAX }, stealthed: false });
    let r = classify(Point { x: i32::MIN, y: i32::MIN }, Role::Melee, far);
    assert_eq!(r, (Range::Far, None));
}

#[test]
fn aggroed_enemy_turns_to_player() {
    let mut e = setup_enemy_as(blueprint(1, 0), Entity { id: 2 }, Entity { id: 3 }, Role::Melee);
    e.position = Point { x: 0, y: 0 };
    theseeker_game::range::check_player_range(&mut e, seen(30, 0, false));
    assert_eq!(e.facing, Facing::Right);
    e.tags.mode = Some(Mode::Aggroed);
    theseeker_game::range::check_player_range(&mut e, seen(30, 0, false));
    assert_eq!(e.facing, Facing::Left);
    theseeker_game::range::check_player_range(&mut e, seen(-30, 0, false));
    assert_eq!(e.facing, Facing::Right);
}

#[test]
fn spawner_first_slot_spawns_at_once_when_player_far() {
    let mut sp = EnemySpawnerBundle::new(Point { x: 0, y: 0 });
    let mut next: u64 = 100;
    let out = spawn_enemy(&mut sp, Some(Point { x: u(600), y: 0 }), &vec![], &mut next);
    assert_eq!(out.len(), 1);
    assert_eq!(out[0].entity, Entity { id: 100 });
    assert_eq!(out[0].marker.bonus_hp, 0);
    assert_eq!(next, 101);
    assert_eq!(sp.marker.slots, vec![SpawnSlot { enemy: Some(Entity { id: 100 }), cooldown_ticks: 0 }]);
}

#[test]
fn spawner_freed_slot_respawns_after_620_ticks() {
    let mut sp = EnemySpawnerBundle::new(Point { x: 0, y: 0 });
    sp.marker.slots.push(SpawnSlot { enemy: None, cooldown_ticks: 0 });
    let mut next: u64 = 1;
    let player = Some(Point { x: 0, y: u(600) });
    for _ in 0..619 {
        let out = spawn_enemy(&mut sp, player, &vec![], &mut next);
        assert!(out.is_empty());
    }
    assert_eq!(sp.marker.slots[0].cooldown_ticks, 619);
    let out = spawn_enemy(&mut sp, player, &vec![], &mut next);
    assert_eq!(out.len(), 1);
    assert_eq!(sp.marker.slots[0].cooldown_ticks, 0);
}

#[test]
fn spawner_waits_while_player_near() {
    let mut sp = EnemySpawnerBundle::new(Point { x: 0, y: 0 });
    let mut next: u64 = 1;
    let out = spawn_enemy(&mut sp, Some(Point { x: u(300), y: u(400) }), &vec![], &mut next);
    assert!(out.is_empty());
    assert_eq!(sp.marker.slots[0].cooldown_ticks, 621);
    let out = spawn_enemy(&mut sp, None, &vec![], &mut next);
    assert_eq!(out.len(), 1);
}

#[test]
fn spawner_counts_kills_and_opens_slots() {
    let mut sp = EnemySpawnerBundle::new(Point { x: 0, y: 0 });
    let mut next: u64 = 10;
    spawn_enemy(&mut sp, None, &vec![], &mut next);
    let first = sp.marker.slots[0].enemy.unwrap();
    spawn_enemy(&mut sp, None, &vec![first], &mut next);
    assert_eq!(sp.killed.count, 1);
    assert_eq!(sp.marker.slots[0].enemy, None);
    sp.killed.count = 3;
    let before = sp.marker.slots.len();
    spawn_enemy(&mut sp, None, &vec![], &mut next);
    assert_eq!(sp.marker.slots.len(), before + 1);
}

#[test]
fn spawned_blueprint_gets_bonus_health() {
    let mut sp = EnemySpawnerBundle::new(Point { x: 4, y: 8 });
    sp.killed.count = 2;
    sp.marker.slots.push(SpawnSlot { enemy: None, cooldown_ticks: 700 });
    sp.marker.slots.push(SpawnSlot { enemy: None, cooldown_ticks: 700 });
    let mut next: u64 = 1;
    let out = spawn_enemy(&mut sp, None, &vec![], &mut next);
    assert_eq!(out.len(), 2);
    assert_eq!(out[0].marker.bonus_hp, 40);
    assert_eq!(out[1].position, Point { x: 4, y: 8 });
    let e = setup_enemy_as(out[0], Entity { id: 50 }, Entity { id: 51 }, Role::Ranged);
    assert_eq!(e.health.current, 140);
    assert_eq!(e.health.max, 140);
}

#[test]
fn setup_enemy_starts_patrolling() {
    let e = setup_enemy(blueprint(4, 20), Entity { id: 5 }, Entity { id: 6 });
    assert_eq!(e.entity, Entity { id: 4 });
    assert_eq!(e.position, Point { x: u(5), y: u(12) });
    assert_eq!(e.health.current, 120);
    assert_eq!(e.tags.mode, Some(Mode::Patrolling));
    assert_eq!(e.tags.sub, Some(SubState::Waiting(Waiting { ticks: 0, max_ticks: 12 })));
    assert!(e.tags.idle);
    assert_eq!(e.range, Range::Absent);
    assert_eq!(e.facing, Facing::Right);
    assert!(e.role == Role::Melee || e.role == Role::Ranged);
}

#[test]
fn dead_counts_once_then_decays_at_56() {
    let mut e = setup_enemy_as(blueprint(4, 0), Entity { id: 5 }, Entity { id: 6 }, Role::Melee);
    e.transitions.push(Transition { from: StateTag::Waiting, to: NextState::Sub(SubState::Chasing) });
    kill(&mut e);
    let mut kills: u64 = 0;
    dead(&mut e, &mut kills);
    assert_eq!(kills, 1);
    assert_eq!(e.tags.mode, None);
    assert_eq!(e.tags.sub, None);
    assert!(e.transitions.items.is_empty());
    for _ in 1..56 {
        dead(&mut e, &mut kills);
    }
    assert_eq!(e.life, Life::Dead { ticks: 56 });
    dead(&mut e, &mut kills);
    assert_eq!(e.life, Life::Decay);
    assert_eq!(kills, 1);
}

#[test]
fn decay_moves_marker_and_despawns() {
    let mut a = setup_enemy_as(blueprint(4, 0), Entity { id: 5 }, Entity { id: 6 }, Role::Melee);
    a.life = Life::Decay;
    let b = setup_enemy_as(blueprint(8, 0), Entity { id: 9 }, Entity { id: 10 }, Role::Ranged);
    let mut enemies = vec![a, b];
    let mut gfx = vec![
        EnemyGfx { entity: Entity { id: 5 }, e_gent: Entity { id: 4 }, decay: false },
        EnemyGfx { entity: Entity { id: 9 }, e_gent: Entity { id: 8 }, decay: false },
    ];
    decay_despawn(&mut enemies, &mut gfx);
    assert_eq!(enemies.len(), 1);
    assert_eq!(enemies[0].entity, Entity { id: 8 });
    assert!(gfx[0].decay);
    assert!(!gfx[1].decay);
}

#[test]
fn world_tick_dead_to_decay_to_despawn() {
    let mut e = setup_enemy_as(blueprint(4, 0), Entity { id: 5 }, Entity { id: 6 }, Role::Melee);
    e.life = Life::Dead { ticks: 56 };
    let mut w = World {
        enemies: vec![e],
        blueprints: vec![],
        spawners: vec![],
        gfx: vec![EnemyGfx { entity: Entity { id: 5 }, e_gent: Entity { id: 4 }, decay: false }],
        effects: vec![],
        player: None,
        kill_count: 0,
        next_id: 20,
    };
    w.behavior_phase();
    w.transition_phase();
    assert_eq!(w.enemies[0].life, Life::Decay);
    assert!(!w.gfx[0].decay);
    w.behavior_phase();
    assert!(w.enemies.is_empty());
    assert!(w.gfx[0].decay);
}

#[test]
fn world_spawns_then_sets_up() {
    let mut w = World {
        enemies: vec![],
        blueprints: vec![],
        spawners: vec![EnemySpawnerBundle::new(Point { x: 0, y: 0 })],
        gfx: vec![],
        effects: vec![],
        player: Some(PlayerView { entity: Entity { id: 1 }, position: Point { x: u(900), y: 0 }, stealthed: false }),
        kill_count: 0,
        next_id: 2,
    };
    w.spawn_phase();
    assert_eq!(w.blueprints.len(), 1);
    assert!(w.enemies.is_empty());
    w.spawn_phase();
    assert_eq!(w.enemies.len(), 1);
    assert_eq!(w.enemies[0].entity, Entity { id: 2 });
    assert_eq!(w.gfx[0].e_gent, Entity { id: 2 });
    let events = w.behavior_phase();
    assert_eq!(events.len(), 1);
    assert_eq!(w.enemies[0].range, Range::Far);
}

#[test]
fn queue_applies_in_order_and_empties() {
    let mut tags = theseeker_game::agent::StateTags {
        mode: Some(Mode::Patrolling),
        sub: Some(SubState::Waiting(Waiting { ticks: 4, max_ticks: 12 })),
        idle: true,
    };
    let mut q = TransitionQueue::new();
    q.push(Transition { from: StateTag::Patrolling, to: NextState::Mode(Mode::Aggroed) });
    q.push(Transition { from: StateTag::Walking, to: NextState::Sub(SubState::Waiting(Waiting { ticks: 0, max_ticks: 0 })) });
    q.push(Transition { from: StateTag::Waiting, to: NextState::Sub(SubState::Chasing) });
    let mut a = AddQueue::new();
    apply_queues(&mut tags, &mut q, &mut a);
    assert_eq!(tags.mode, Some(Mode::Aggroed));
    assert_eq!(tags.sub, Some(SubState::Chasing));
    assert!(!tags.idle);
    assert!(q.items.is_empty());
    let snapshot = tags;
    apply_queues(&mut tags, &mut q, &mut a);
    assert_eq!(tags, snapshot);
    a.add(Addition::Idle);
    apply_queues(&mut tags, &mut q, &mut a);
    assert!(tags.idle);
    assert!(a.items.is_empty());
}

#[test]
fn schedule_orders_phases() {
    let s = EnemyPlugin.schedule();
    assert_eq!(s, vec![EnemyStateSet::Behavior, EnemyStateSet::Collisions, EnemyStateSet::Transition, EnemyStateSet::Animation]);
    assert!(EnemyStateSet::Collisions.runs_before(&EnemyStateSet::Transition));
    assert!(!EnemyStateSet::Animation.runs_before(&EnemyStateSet::Behavior));
}

#[test]
fn script_sets_and_results() {
    assert_eq!(ScriptPlugin.set_order(), vec![ScriptSet::Init, ScriptSet::InitFlush, ScriptSet::Run, ScriptSet::RunFlush]);
    assert!(!ScriptUpdateResult::NormalRun.ends_script());
    assert!(ScriptUpdateResult::Finished.ends_script());
    assert!(ScriptUpdateResult::Terminated.ends_script());
    let t = LevelLoadTime { time: std::time::Duration::from_millis(1500), tick: 90 };
    assert_eq!(t.tick, 90);
}

#[test]
fn clips_and_flags() {
    assert_eq!(clip_key(Clip::Idle, Role::Melee), "anim.smallspider.Idle");
    assert_eq!(clip_key(Clip::Decay, Role::Ranged), "anim.spider.Decay");
    assert_eq!(clip_key(Clip::Chase, Role::Ranged), "anim.smallspider.Chase");
    assert_eq!(direction_flags(Facing::Right), (true, false));
    assert_eq!(direction_flags(Facing::Left), (false, true));
    assert!(decay_rate_flag(false));
}

#[test]
fn role_from_index_and_random() {
    assert_eq!(Role::from_index(0), Role::Melee);
    assert_eq!(Role::from_index(1), Role::Ranged);
    let mut seen_melee = false;
    let mut seen_ranged = false;
    for _ in 0..200 {
        match Role::random() {
            Role::Melee => seen_melee = true,
            Role::Ranged => seen_ranged = true,
        }
    }
    assert!(seen_melee && seen_ranged);
}

#[test]
fn blocked_and_inside() {
    let mut e = setup_enemy_as(blueprint(4, 0), Entity { id: 5 }, Entity { id: 6 }, Role::Melee);
    e.knocked = true;
    e.mark_blocked();
    assert_eq!(e.navigation, theseeker_game::agent::Navigation::Grounded);
    e.knocked = false;
    e.mark_blocked();
    assert_eq!(e.navigation, theseeker_game::agent::Navigation::Blocked);
    e.inside = true;
    assert!(!e.leave_inside(true));
    assert!(e.inside);
    assert!(e.leave_inside(false));
    assert!(!e.inside);
}
