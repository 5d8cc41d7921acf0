use tower_defense::enemies::{
    break_point, despawn_enemies, move_enemies, move_enemy, EnemyUnit, SPAWN_X_LOCATION,
    SPAWN_Y_LOCATION,
};
use tower_defense::geom::Point;
use tower_defense::towers::{GameState, Lifes};
use tower_defense::waves::{
    enemy_life, spawn_wave, wave_control, WaveControl, ENEMY_KIND_COUNT, MAX_ENEMIES_PER_WAVE,
};

fn unit(x: i64, y: i64, level: u8) -> EnemyUnit {
    EnemyUnit { pos: Point { x, y }, level, life: 100 }
}

#[test]
fn path_first_segment_heads_left() {
    let (p, lvl) = move_enemy(Point { x: SPAWN_X_LOCATION, y: SPAWN_Y_LOCATION }, 0, 100);
    assert_eq!((p.x, p.y), (6000, 800));
    assert_eq!(lvl, 0);
}

#[test]
fn path_turns_down_at_the_first_breakpoint() {
    let (p, lvl) = move_enemy(Point { x: 2500, y: 800 }, 0, 100);
    assert_eq!((p.x, p.y), (2500, 700));
    assert_eq!(lvl, 1);
}

#[test]
fn path_heads_left_along_the_bottom() {
    let (p, lvl) = move_enemy(Point { x: 2500, y: -2050 }, 1, 100);
    assert_eq!((p.x, p.y), (2400, -2050));
    assert_eq!(lvl, 2);
    let (p, lvl) = move_enemy(Point { x: -2300, y: -2050 }, 2, 100);
    assert_eq!((p.x, p.y), (-2400, -2050));
    assert_eq!(lvl, 2);
}

#[test]
fn path_climbs_back_up() {
    let (p, lvl) = move_enemy(Point { x: -2350, y: -2050 }, 2, 100);
    assert_eq!((p.x, p.y), (-2350, -1950));
    assert_eq!(lvl, 3);
}

#[test]
fn path_crosses_the_top_to_the_last_turn() {
    let (p, lvl) = move_enemy(Point { x: -2350, y: 800 }, 3, 100);
    assert_eq!((p.x, p.y), (-2450, 800));
    assert_eq!(lvl, 4);
}

#[test]
fn path_descends_to_the_goal() {
    let (p, lvl) = move_enemy(Point { x: -4600, y: 800 }, 4, 100);
    assert_eq!((p.x, p.y), (-4600, 700));
    assert_eq!(lvl, 5);
}

#[test]
fn path_ends_below_the_last_breakpoint() {
    let (p, lvl) = move_enemy(Point { x: -4600, y: -3750 }, 5, 100);
    assert_eq!((p.x, p.y), (-4600, -3750));
    assert_eq!(lvl, 5);
}

#[test]
fn breakpoints_table() {
    assert_eq!((break_point(0).x, break_point(0).y), (2500, 800));
    assert_eq!((break_point(5).x, break_point(5).y), (-4550, -3750));
}

#[test]
fn moving_many_enemies_uses_each_ones_step() {
    let mut units = vec![unit(6100, 800, 0), unit(2500, 800, 0)];
    let steps = vec![50i64, 80i64];
    move_enemies(&mut units, &steps);
    assert_eq!((units[0].pos.x, units[0].pos.y), (6050, 800));
    assert_eq!((units[1].pos.x, units[1].pos.y), (2500, 720));
    assert_eq!(units[1].level, 1);
    assert_eq!(units[0].life, 100);
}

#[test]
fn escaped_enemies_cost_a_life() {
    let mut units = vec![unit(-4600, -3750, 5), unit(0, 0, 1)];
    let mut lifes = Lifes(30);
    let game_over = despawn_enemies(&mut units, &mut lifes);
    assert!(!game_over);
    assert_eq!(lifes.0, 29);
    assert_eq!(units.len(), 1);
    assert_eq!(units[0].pos.x, 0);
}

#[test]
fn lives_never_go_below_zero() {
    let mut units = vec![unit(-4600, -3800, 5), unit(-4600, -3900, 5)];
    let mut lifes = Lifes(1);
    let game_over = despawn_enemies(&mut units, &mut lifes);
    assert_eq!(lifes.0, 0);
    assert!(units.is_empty());
    // The second enemy was seen after the lives hit zero.
    assert!(game_over);
}

#[test]
fn game_over_needs_an_enemy_on_the_field() {
    let mut units: Vec<EnemyUnit> = Vec::new();
    let mut lifes = Lifes(0);
    assert!(!despawn_enemies(&mut units, &mut lifes));
    let mut units = vec![unit(0, 0, 1)];
    assert!(despawn_enemies(&mut units, &mut lifes));
    assert_eq!(units.len(), 1);
}

#[test]
fn life_table_matches_growth_formula() {
    for w in 0..ENEMY_KIND_COUNT {
        let expected = (60f32 * (1.2f32 + 0.75f32).powf(w as f32)).round() as u16;
        assert_eq!(enemy_life(w), expected);
    }
}

#[test]
fn life_table_exact_values() {
    assert_eq!(enemy_life(0), 60);
    assert_eq!(enemy_life(1), 117);
    assert_eq!(enemy_life(2), 228);
    assert_eq!(enemy_life(3), 445);
    assert_eq!(enemy_life(4), 868);
    assert_eq!(enemy_life(5), 1692);
    assert_eq!(enemy_life(6), 3299);
}

#[test]
fn first_wave_starts_when_the_countdown_ends() {
    let mut wc = WaveControl::new();
    assert_eq!(wave_control(&mut wc, 14_000_000_000, false), None);
    assert!(!wc.first_wave_spawned);
    let next = wave_control(&mut wc, 1_000_000_000, false);
    assert_eq!(next, Some(GameState::Attacking));
    assert!(wc.first_wave_spawned);
    assert!(wc.time_between_waves.paused);
}

#[test]
fn spawning_follows_the_spawn_timer() {
    let mut wc = WaveControl::new();
    assert_eq!(spawn_wave(&mut wc, 1_000_000_000), None);
    let spawned = spawn_wave(&mut wc, 500_000_000).expect("the spawn beat fell");
    assert_eq!((spawned.pos.x, spawned.pos.y), (SPAWN_X_LOCATION, SPAWN_Y_LOCATION));
    assert_eq!(spawned.level, 0);
    assert_eq!(spawned.life, 60);
    assert_eq!(wc.spawned_count_in_wave, 1);
    assert!(wc.time_between_waves.paused);
}

#[test]
fn a_wave_spawns_at_most_its_size() {
    let mut wc = WaveControl::new();
    let mut spawned = 0;
    for _ in 0..40 {
        if spawn_wave(&mut wc, 1_500_000_000).is_some() {
            spawned += 1;
        }
    }
    assert_eq!(spawned, MAX_ENEMIES_PER_WAVE as usize);
    assert_eq!(wc.spawned_count_in_wave, MAX_ENEMIES_PER_WAVE);
}

#[test]
fn clearing_a_wave_opens_the_build_phase_and_then_the_next_wave() {
    let mut wc = WaveControl::new();
    wc.first_wave_spawned = true;
    wc.spawned_count_in_wave = MAX_ENEMIES_PER_WAVE;
    wc.time_between_waves.pause();
    // The cleared wave releases the held countdown and opens building.
    let next = wave_control(&mut wc, 16_000_000, true);
    assert_eq!(next, Some(GameState::Building));
    assert!(!wc.time_between_waves.paused);
    assert_eq!(wc.time_between_waves.elapsed_ns, 0);
    // The countdown's end starts the next wave.
    let next = wave_control(&mut wc, 15_000_000_000, true);
    assert_eq!(next, Some(GameState::Attacking));
    assert_eq!(wc.wave_count, 1);
    assert_eq!(wc.spawned_count_in_wave, 0);
}

#[test]
fn no_wave_past_the_last_kind() {
    let mut wc = WaveControl::new();
    wc.wave_count = ENEMY_KIND_COUNT;
    assert_eq!(spawn_wave(&mut wc, 1_500_000_000), None);
    assert_eq!(wc.spawned_count_in_wave, 0);
}
