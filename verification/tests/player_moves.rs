use tower_defense::geom::{dist_sq, Point};
use tower_defense::player::{
    collision, player_movement, MovementDirection, Player, COLLISION_THRESHOLD_SQ, PLAYER_SPEED,
};
use tower_defense::timer::{GameTimer, TimerMode};

#[test]
fn squared_distance_is_exact() {
    assert_eq!(dist_sq(Point { x: 0, y: 0 }, Point { x: 3, y: 4 }), 25);
    assert_eq!(dist_sq(Point { x: -3, y: 4 }, Point { x: 3, y: -4 }), 100);
}

#[test]
fn the_default_player() {
    let p = Player::default();
    assert_eq!(p.speed, PLAYER_SPEED);
    assert_eq!(p.life, 100);
}

#[test]
fn a_near_collider_blocks_a_step() {
    let colliders = vec![Point { x: 0, y: 0 }];
    let pos = Point { x: 400, y: 0 };
    // Stepping toward the collider would land within the threshold.
    assert!(collision(pos, MovementDirection::Left, &colliders, 100));
    // Stepping away lands clear of it.
    assert!(!collision(pos, MovementDirection::Right, &colliders, 100));
    assert_eq!(COLLISION_THRESHOLD_SQ, 175_000);
}

#[test]
fn movement_respects_colliders_and_sets_facing() {
    let colliders = vec![Point { x: 0, y: 0 }];
    let mut pos = Point { x: 400, y: 0 };
    let mut facing_left = false;
    player_movement(&mut pos, &mut facing_left, false, false, true, false, &colliders, 100);
    // Blocked, but the sprite still turns left.
    assert_eq!((pos.x, pos.y), (400, 0));
    assert!(facing_left);
    player_movement(&mut pos, &mut facing_left, false, false, false, true, &colliders, 100);
    assert_eq!((pos.x, pos.y), (500, 0));
    assert!(!facing_left);
}

#[test]
fn opposite_keys_cancel_out() {
    let colliders: Vec<Point> = Vec::new();
    let mut pos = Point { x: 100, y: 100 };
    let mut facing_left = false;
    player_movement(&mut pos, &mut facing_left, true, true, false, false, &colliders, 70);
    assert_eq!((pos.x, pos.y), (100, 100));
    assert!(!facing_left);
}

#[test]
fn once_timers_saturate_and_report_their_crossing() {
    let mut t = GameTimer::from_ns(1_000, TimerMode::Once);
    t.tick(600);
    assert!(!t.just_finished);
    assert_eq!(t.remaining_ns(), 400);
    t.tick(600);
    assert!(t.just_finished);
    assert_eq!(t.elapsed_ns, 1_000);
    t.tick(600);
    assert!(!t.just_finished);
    assert_eq!(t.elapsed_ns, 1_000);
}

#[test]
fn repeating_timers_wrap() {
    let mut t = GameTimer::from_ns(1_000, TimerMode::Repeating);
    t.tick(1_600);
    assert!(t.just_finished);
    assert_eq!(t.elapsed_ns, 600);
    t.tick(300);
    assert!(!t.just_finished);
    assert_eq!(t.elapsed_ns, 900);
}

#[test]
fn paused_timers_stand_still() {
    let mut t = GameTimer::from_ns(1_000, TimerMode::Once);
    t.pause();
    t.tick(5_000);
    assert!(!t.just_finished);
    assert_eq!(t.elapsed_ns, 0);
    t.unpause();
    t.tick(400);
    assert_eq!(t.elapsed_ns, 400);
    t.reset();
    assert_eq!(t.elapsed_ns, 0);
    assert!(!t.just_finished);
}
