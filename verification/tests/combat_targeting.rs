use tower_defense::combat::{
    gold_reward, new_shot, shot_out_of_bounds, strike_target, DESPAWN_SHOT_RANGE,
};
use tower_defense::enemies::EnemyUnit;
use tower_defense::geom::Point;
use tower_defense::targeting::{select_target, spawn_shots_to_attack};
use tower_defense::towers::{Gold, TowerType, TowerUnit};

fn enemy(x: i64, y: i64, level: u8) -> EnemyUnit {
    EnemyUnit { pos: Point { x, y }, level, life: 100 }
}

#[test]
fn no_target_without_enemies_in_range() {
    let tower = Point { x: 0, y: 0 };
    assert_eq!(select_target(tower, &Vec::new()), None);
    // Too far, and exactly on the tower, are both out of range.
    let enemies = vec![enemy(3000, 0, 1), enemy(0, 0, 1)];
    assert_eq!(select_target(tower, &enemies), None);
}

#[test]
fn the_single_enemy_in_range_is_the_target() {
    let tower = Point { x: 0, y: 0 };
    let enemies = vec![enemy(1000, 0, 0)];
    assert_eq!(select_target(tower, &enemies), Some(0));
}

#[test]
fn a_higher_breakpoint_level_beats_a_shorter_distance() {
    let tower = Point { x: 0, y: 0 };
    // The level-1 enemy is farther from the tower but closer to winning.
    let enemies = vec![enemy(1000, 0, 0), enemy(2000, 0, 1)];
    assert_eq!(select_target(tower, &enemies), Some(1));
}

#[test]
fn within_a_level_the_enemy_nearest_its_breakpoint_wins() {
    let tower = Point { x: 0, y: 0 };
    // Both march toward breakpoint 1 at (2500, -2050); the second stands
    // closer to it.
    let enemies = vec![enemy(1000, 0, 1), enemy(2000, 0, 1)];
    assert_eq!(select_target(tower, &enemies), Some(1));
}

#[test]
fn ties_go_to_the_earliest_enemy() {
    let tower = Point { x: 0, y: 0 };
    let enemies = vec![enemy(1000, 0, 1), enemy(1000, 0, 1)];
    assert_eq!(select_target(tower, &enemies), Some(0));
}

#[test]
fn towers_fire_on_their_timers_beat() {
    let mut towers = vec![TowerUnit {
        pos: Point { x: 0, y: 0 },
        info: TowerType::Lich.to_tower_data(1),
    }];
    let enemies = vec![enemy(1000, 0, 0)];
    // Not yet: the Lich period is 425 ms.
    let orders = spawn_shots_to_attack(&mut towers, &enemies, 100_000_000);
    assert_eq!(orders, vec![None]);
    // The beat falls.
    let orders = spawn_shots_to_attack(&mut towers, &enemies, 325_000_000);
    assert_eq!(orders.len(), 1);
    let order = orders[0].expect("the tower fired");
    assert_eq!(order.target, 0);
    assert_eq!(order.damage, 27);
}

#[test]
fn a_beat_without_a_target_fires_nothing() {
    let mut towers = vec![TowerUnit {
        pos: Point { x: 0, y: 0 },
        info: TowerType::Lich.to_tower_data(1),
    }];
    let orders = spawn_shots_to_attack(&mut towers, &Vec::new(), 425_000_000);
    assert_eq!(orders, vec![None]);
}

#[test]
fn kill_rewards_grow_with_the_wave() {
    assert_eq!(gold_reward(0), 2);
    assert_eq!(gold_reward(4), 10);
    assert_eq!(gold_reward(6), 14);
}

#[test]
fn shots_drift_out_past_the_edge() {
    assert!(shot_out_of_bounds(Point { x: DESPAWN_SHOT_RANGE + 1, y: 0 }));
    assert!(!shot_out_of_bounds(Point { x: DESPAWN_SHOT_RANGE, y: 0 }));
}

#[test]
fn a_strike_plays_its_animation_then_lands() {
    let mut shot = new_shot(27, 0);
    let mut life: u16 = 100;
    let mut gold = Gold(10);
    // Seven 50 ms beats walk the animation to its final frame; the strike
    // lands on the seventh.
    for beat in 1..=7 {
        let (killed, spent) = strike_target(&mut shot, true, &mut life, &mut gold, 0, 50_000_000);
        assert!(!killed);
        if beat < 7 {
            assert!(!spent);
            assert_eq!(shot.frame, beat);
            assert_eq!(life, 100);
        } else {
            assert!(spent);
            assert_eq!(life, 100 - 27);
        }
    }
    assert_eq!(gold.0, 10);
}

#[test]
fn a_kill_pays_the_waves_reward() {
    let mut shot = new_shot(27, 0);
    shot.frame = 6;
    let mut life: u16 = 20;
    let mut gold = Gold(10);
    let (killed, spent) = strike_target(&mut shot, true, &mut life, &mut gold, 3, 50_000_000);
    assert!(killed);
    assert!(spent);
    assert_eq!(life, 0);
    assert_eq!(gold.0, 10 + 2 * 4);
}

#[test]
fn out_of_reach_the_animation_rewinds() {
    let mut shot = new_shot(27, 0);
    shot.frame = 5;
    shot.animation_timer.just_finished = true;
    let mut life: u16 = 100;
    let mut gold = Gold(0);
    let (killed, spent) = strike_target(&mut shot, false, &mut life, &mut gold, 0, 50_000_000);
    assert!(!killed && !spent);
    assert_eq!(shot.frame, 0);
    assert_eq!(life, 100);
    // Without a pending beat the frame stays.
    shot.frame = 5;
    shot.animation_timer.just_finished = false;
    let _ = strike_target(&mut shot, false, &mut life, &mut gold, 0, 50_000_000);
    assert_eq!(shot.frame, 5);
}
