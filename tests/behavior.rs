use theseeker_game::agent::{
    Enemy, Entity, Facing, Life, MeleeAttack, Mode, Navigation, Point, Range, RangedAttack, Role,
    StateTag, SubState, Waiting, Walking,
};
use theseeker_game::behavior::{
    aggro, chasing, defense, melee_attack, patrol_with, patrolling, ranged_attack, waiting, walking,
};
use theseeker_game::lifecycle::setup_enemy_as;
use theseeker_game::queue::{Addition, NextState, Transition};
use theseeker_game::range::{check_player_range, classify, PlayerView};
use theseeker_game::spawner::{EnemyBlueprint, EnemyBlueprintBundle};
use theseeker_game::world::behave_enemy;

/// World units to sub-units.
fn u(x: i32) -> i32 {
    x * 16
}

fn enemy(role: Role, x: i32, y: i32) -> Enemy {
    let (x, y) = (u(x), u(y));
    let bp = EnemyBlueprintBundle {
        entity: Entity { id: 1 },
        position: Point { x, y },
        marker: EnemyBlueprint { bonus_hp: 0 },
    };
    let mut e = setup_enemy_as(bp, Entity { id: 2 }, Entity { id: 3 }, role);
    e.position = Point { x, y };
    e
}

fn player_at(x: i32, y: i32) -> Option<PlayerView> {
    Some(PlayerView { entity: Entity { id: 99 }, position: Point { x: u(x), y: u(y) }, stealthed: false })
}

fn sub_of(e: &Enemy) -> Option<SubState> {
    e.tags.sub
}

#[test]
fn melee_agent_at_ten_aggroes_then_attacks() {
    let mut e = enemy(Role::Melee, 0, 0);
    let player = player_at(10, 0);
    check_player_range(&mut e, player);
    assert_eq!(e.range, Range::Melee);
    assert_eq!(e.target, Some(Entity { id: 99 }));
    let ev = behave_enemy(&mut e, player, 50);
    assert!(!ev.fire && !ev.hitbox);
    e.apply_queues();
    assert_eq!(e.tags.mode, Some(Mode::Aggroed));
    assert_eq!(sub_of(&e), Some(SubState::Waiting(Waiting { ticks: 0, max_ticks: 0 })));
    check_player_range(&mut e, player);
    behave_enemy(&mut e, player, 50);
    e.apply_queues();
    assert_eq!(e.tags.mode, Some(Mode::Aggroed));
    assert_eq!(sub_of(&e), Some(SubState::MeleeAttack(MeleeAttack { ticks: 0 })));
}

#[test]
fn ranged_agent_at_melee_range_defends() {
    let mut e = enemy(Role::Ranged, 0, 0);
    e.tags.mode = Some(Mode::Aggroed);
    e.velocity_x = 20;
    let player = player_at(5, 0);
    check_player_range(&mut e, player);
    aggro(&mut e);
    assert_eq!(e.velocity_x, 0);
    assert_eq!(
        e.transitions.items,
        vec![Transition {
            from: StateTag::Waiting,
            to: NextState::Sub(SubState::Defense(theseeker_game::agent::Defense))
        }]
    );
}

#[test]
fn aggro_routes_by_role_and_range() {
    let cases = [
        (Role::Melee, 30, NextState::Sub(SubState::Chasing)),
        (
            Role::Ranged,
            30,
            NextState::Sub(SubState::RangedAttack(RangedAttack { target: Entity { id: 99 }, ticks: 0 })),
        ),
        (Role::Melee, 100, NextState::Mode(Mode::Patrolling)),
    ];
    for (role, x, to) in cases {
        let mut e = enemy(role, 0, 0);
        e.tags.mode = Some(Mode::Aggroed);
        let player = player_at(x, 0);
        check_player_range(&mut e, player);
        if x == 100 {
            e.target = Some(Entity { id: 99 });
        }
        aggro(&mut e);
        assert_eq!(e.transitions.items.len(), 1);
        assert_eq!(e.transitions.items[0].to, to);
    }
}

#[test]
fn aggro_without_target_returns_to_patrol() {
    let mut e = enemy(Role::Melee, 0, 0);
    e.tags.mode = Some(Mode::Aggroed);
    check_player_range(&mut e, None);
    aggro(&mut e);
    assert_eq!(
        e.transitions.items,
        vec![Transition { from: StateTag::Aggroed, to: NextState::Mode(Mode::Patrolling) }]
    );
    e.apply_queues();
    assert_eq!(e.tags.mode, Some(Mode::Patrolling));
}

#[test]
fn patrol_walks_once_wait_is_over() {
    let mut e = enemy(Role::Melee, 0, 0);
    check_player_range(&mut e, player_at(200, 0));
    assert_eq!(e.range, Range::Far);
    patrol_with(&mut e, 100);
    assert!(e.transitions.items.is_empty());
    e.tags.sub = Some(SubState::Waiting(Waiting { ticks: 12, max_ticks: 12 }));
    patrol_with(&mut e, 100);
    assert_eq!(
        e.transitions.items,
        vec![Transition {
            from: StateTag::Waiting,
            to: NextState::Sub(SubState::Walking(Walking { ticks: 0, max_ticks: 100 }))
        }]
    );
}

#[test]
fn patrol_draws_walk_length_in_range() {
    for _ in 0..50 {
        let mut e = enemy(Role::Ranged, 0, 0);
        e.tags.sub = Some(SubState::Waiting(Waiting { ticks: 20, max_ticks: 12 }));
        check_player_range(&mut e, player_at(300, 0));
        patrolling(&mut e);
        match e.transitions.items[0].to {
            NextState::Sub(SubState::Walking(w)) => {
                assert!(w.max_ticks >= 24 && w.max_ticks < 300);
                assert_eq!(w.ticks, 0);
            }
            _ => panic!("expected a walk"),
        }
    }
}

#[test]
fn patrol_without_player_goes_idle_after_120() {
    let mut e = enemy(Role::Melee, 0, 0);
    check_player_range(&mut e, None);
    assert_eq!(e.range, Range::Absent);
    e.tags.sub = Some(SubState::Waiting(Waiting { ticks: 119, max_ticks: 12 }));
    patrol_with(&mut e, 30);
    assert!(e.additions.items.is_empty());
    e.tags.sub = Some(SubState::Waiting(Waiting { ticks: 120, max_ticks: 12 }));
    patrol_with(&mut e, 30);
    assert_eq!(e.additions.items, vec![Addition::Idle]);
    assert!(e.transitions.items.is_empty());
}

#[test]
fn waiting_counts_ticks() {
    let mut e = enemy(Role::Melee, 0, 0);
    waiting(&mut e);
    waiting(&mut e);
    assert_eq!(sub_of(&e), Some(SubState::Waiting(Waiting { ticks: 2, max_ticks: 12 })));
}

#[test]
fn walking_turns_at_block_and_rests_when_done() {
    let mut e = enemy(Role::Melee, 0, 0);
    e.tags.sub = Some(SubState::Walking(Walking { ticks: 0, max_ticks: 2 }));
    walking(&mut e);
    assert_eq!(e.velocity_x, -20);
    assert_eq!(e.facing, Facing::Right);
    e.navigation = Navigation::Blocked;
    walking(&mut e);
    assert_eq!(e.facing, Facing::Left);
    assert_eq!(e.velocity_x, 20);
    assert_eq!(e.navigation, Navigation::Grounded);
    walking(&mut e);
    assert_eq!(e.velocity_x, 0);
    assert_eq!(
        e.transitions.items,
        vec![Transition {
            from: StateTag::Walking,
            to: NextState::Sub(SubState::Waiting(Waiting { ticks: 0, max_ticks: 240 }))
        }]
    );
    assert_eq!(e.additions.items, vec![Addition::Idle]);
}

#[test]
fn knocked_walker_is_left_alone() {
    let mut e = enemy(Role::Melee, 0, 0);
    e.tags.sub = Some(SubState::Walking(Walking { ticks: 0, max_ticks: 2 }));
    e.knocked = true;
    walking(&mut e);
    assert_eq!(e.velocity_x, 0);
    assert_eq!(sub_of(&e), Some(SubState::Walking(Walking { ticks: 0, max_ticks: 2 })));
}

#[test]
fn chasing_moves_then_strikes() {
    let mut e = enemy(Role::Melee, 0, 0);
    e.tags.sub = Some(SubState::Chasing);
    check_player_range(&mut e, player_at(40, 0));
    assert_eq!(e.range, Range::Aggro);
    chasing(&mut e);
    assert_eq!(e.velocity_x, -35);
    assert!(e.transitions.items.is_empty());
    e.navigation = Navigation::Blocked;
    chasing(&mut e);
    assert_eq!(e.velocity_x, 0);
    assert_eq!(e.navigation, Navigation::Grounded);
    assert_eq!(e.transitions.items[0].to, NextState::Sub(SubState::Waiting(Waiting { ticks: 0, max_ticks: 0 })));
    let mut f = enemy(Role::Melee, 0, 0);
    f.tags.sub = Some(SubState::Chasing);
    check_player_range(&mut f, player_at(0, 14));
    chasing(&mut f);
    assert_eq!(f.transitions.items[0].to, NextState::Sub(SubState::MeleeAttack(MeleeAttack { ticks: 0 })));
}

#[test]
fn ranged_role_does_not_chase() {
    let mut e = enemy(Role::Ranged, 0, 0);
    e.tags.sub = Some(SubState::Chasing);
    check_player_range(&mut e, player_at(40, 0));
    chasing(&mut e);
    assert!(e.transitions.items.is_empty());
}

#[test]
fn chasing_without_target_gives_up() {
    let mut e = enemy(Role::Melee, 0, 0);
    e.tags.sub = Some(SubState::Chasing);
    e.velocity_x = 35;
    check_player_range(&mut e, player_at(500, 0));
    chasing(&mut e);
    assert_eq!(e.velocity_x, 0);
    assert_eq!(e.transitions.items.len(), 1);
}

#[test]
fn defense_held_only_at_melee_range() {
    let mut e = enemy(Role::Ranged, 0, 0);
    e.tags.sub = Some(SubState::Defense(theseeker_game::agent::Defense));
    check_player_range(&mut e, player_at(3, 0));
    defense(&mut e);
    assert!(e.transitions.items.is_empty());
    check_player_range(&mut e, player_at(30, 0));
    defense(&mut e);
    assert_eq!(
        e.transitions.items,
        vec![Transition {
            from: StateTag::Defense,
            to: NextState::Sub(SubState::Waiting(Waiting { ticks: 0, max_ticks: 0 }))
        }]
    );
}

#[test]
fn melee_attack_hitbox_and_end() {
    let mut e = enemy(Role::Melee, 0, 0);
    e.tags.sub = Some(SubState::MeleeAttack(MeleeAttack { ticks: 0 }));
    let mut hit_ticks = Vec::new();
    for t in 1..=40u32 {
        if melee_attack(&mut e) {
            hit_ticks.push(t);
        }
        if t < 40 {
            assert!(e.transitions.items.is_empty());
        }
    }
    assert_eq!(hit_ticks, vec![24]);
    assert_eq!(e.transitions.items.len(), 1);
    assert_eq!(e.transitions.items[0].from, StateTag::MeleeAttack);
}

#[test]
fn ranged_attack_fires_on_tick_48_and_ends_at_120() {
    let mut e = enemy(Role::Ranged, 0, 0);
    e.velocity_x = 20;
    e.tags.sub = Some(SubState::RangedAttack(RangedAttack { target: Entity { id: 99 }, ticks: 0 }));
    check_player_range(&mut e, player_at(55, 0));
    let mut fired = Vec::new();
    for t in 1..=120u32 {
        if ranged_attack(&mut e, true) {
            fired.push(t);
        }
        if t == 1 {
            assert_eq!(e.velocity_x, 0);
        }
    }
    assert_eq!(fired, vec![48]);
    assert_eq!(e.transitions.items.len(), 1);
    assert_eq!(e.additions.items, vec![Addition::Idle]);
}

#[test]
fn ranged_attack_with_lost_target_keeps_ticking() {
    let mut e = enemy(Role::Ranged, 0, 0);
    e.tags.sub = Some(SubState::RangedAttack(RangedAttack { target: Entity { id: 5 }, ticks: 47 }));
    check_player_range(&mut e, player_at(30, 0));
    assert!(!ranged_attack(&mut e, false));
    assert_eq!(sub_of(&e), Some(SubState::RangedAttack(RangedAttack { target: Entity { id: 5 }, ticks: 48 })));
    assert!(e.transitions.items.is_empty());
    check_player_range(&mut e, player_at(5, 0));
    assert!(!ranged_attack(&mut e, false));
    assert_eq!(
        e.transitions.items,
        vec![Transition {
            from: StateTag::RangedAttack,
            to: NextState::Sub(SubState::Defense(theseeker_game::agent::Defense))
        }]
    );
}

#[test]
fn ranged_attack_at_melee_range_turns_to_defense() {
    let mut e = enemy(Role::Ranged, 0, 0);
    e.tags.sub = Some(SubState::RangedAttack(RangedAttack { target: Entity { id: 99 }, ticks: 3 }));
    check_player_range(&mut e, player_at(5, 0));
    assert!(!ranged_attack(&mut e, true));
    assert_eq!(
        e.transitions.items,
        vec![Transition {
            from: StateTag::RangedAttack,
            to: NextState::Sub(SubState::Defense(theseeker_game::agent::Defense))
        }]
    );
    e.apply_queues();
    assert_eq!(sub_of(&e), Some(SubState::Defense(theseeker_game::agent::Defense)));
}

#[test]
fn behave_enemy_fires_through_resolved_target() {
    let mut e = enemy(Role::Ranged, 0, 0);
    e.tags.mode = Some(Mode::Aggroed);
    e.tags.sub = Some(SubState::RangedAttack(RangedAttack { target: Entity { id: 99 }, ticks: 47 }));
    let player = player_at(55, 0);
    check_player_range(&mut e, player);
    let ev = behave_enemy(&mut e, player, 30);
    assert!(ev.fire);
    let mut f = enemy(Role::Ranged, 0, 0);
    f.tags.sub = Some(SubState::RangedAttack(RangedAttack { target: Entity { id: 7 }, ticks: 47 }));
    let ev = behave_enemy(&mut f, player, 30);
    assert!(!ev.fire);
}

#[test]
fn dead_enemy_is_ignored_by_handlers() {
    let mut e = enemy(Role::Melee, 0, 0);
    e.life = Life::Dead { ticks: 3 };
    let before = e.clone();
    check_player_range(&mut e, player_at(5, 0));
    waiting(&mut e);
    assert_eq!(e.range, before.range);
    assert_eq!(e.tags, before.tags);
}

#[test]
fn classify_direct() {
    let (r, t) = classify(Point { x: 0, y: 0 }, Role::Melee, player_at(3, 4));
    assert_eq!(r, Range::Melee);
    assert_eq!(t, Some(Entity { id: 99 }));
}
