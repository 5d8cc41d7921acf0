use tower_defense::animation::{
    advance_frame, animate, animate_enemy, animate_orcs, animate_player, ideal_time_per_frame,
    AnimateSprite, EnemyAnimation, EnemyAnimationState, EnemySprite, OrcSprite, OrcsAnimation,
    OrcsAnimationState, PlayerAnimations, PlayerSprite,
};
use tower_defense::catalog::get_enemy_list;
use tower_defense::cave::{spawn_cave_tile_map, CaveTileType};

#[test]
fn frames_advance_and_wrap() {
    assert_eq!(advance_frame(0, 0, 3), 1);
    assert_eq!(advance_frame(2, 0, 3), 3);
    assert_eq!(advance_frame(3, 0, 3), 0); // at last: back to first
    assert_eq!(advance_frame(9, 8, 11), 10);
    assert_eq!(advance_frame(11, 8, 11), 8);
    assert_eq!(advance_frame(2, 8, 11), 8); // below the range: snap to first
}

#[test]
fn enemy_sprites_step_on_the_beat() {
    let mut sprite = EnemySprite {
        atlas_index: 8,
        animation: EnemyAnimation::make_all(8, 11, ideal_time_per_frame()),
    };
    animate_enemy(&mut sprite, 50_000_000);
    assert_eq!(sprite.atlas_index, 8);
    animate_enemy(&mut sprite, 50_000_000);
    assert_eq!(sprite.atlas_index, 9);
}

#[test]
fn only_the_active_direction_runs() {
    let mut anim = EnemyAnimation::make_all(0, 7, ideal_time_per_frame());
    anim.state = EnemyAnimationState::WalkUp;
    let mut sprite = EnemySprite { atlas_index: 0, animation: anim };
    animate_enemy(&mut sprite, 100_000_000);
    assert_eq!(sprite.atlas_index, 1);
    assert_eq!(sprite.animation.walk_up.timer.elapsed_ns, 0);
    assert_eq!(sprite.animation.walk_left.timer.elapsed_ns, 0);
    assert!(sprite.animation.walk_up.timer.just_finished);
    assert!(!sprite.animation.walk_left.timer.just_finished);
}

#[test]
fn a_whole_row_of_sprites_animates() {
    let mut sprites = vec![
        EnemySprite {
            atlas_index: 0,
            animation: EnemyAnimation::make_all(0, 7, ideal_time_per_frame()),
        };
        3
    ];
    sprites[2].atlas_index = 7;
    animate(&mut sprites, 100_000_000);
    assert_eq!(sprites[0].atlas_index, 1);
    assert_eq!(sprites[1].atlas_index, 1);
    assert_eq!(sprites[2].atlas_index, 0);
}

#[test]
fn the_player_runs_or_idles() {
    let mut sprite = PlayerSprite { atlas_index: 6, animations: PlayerAnimations::default() };
    animate_player(&mut sprite, true, 100_000_000);
    assert_eq!(sprite.atlas_index, 7);
    let mut sprite = PlayerSprite { atlas_index: 0, animations: PlayerAnimations::default() };
    animate_player(&mut sprite, false, 100_000_000);
    assert_eq!(sprite.atlas_index, 0); // the idle pace is 250 ms
    animate_player(&mut sprite, false, 150_000_000);
    assert_eq!(sprite.atlas_index, 1);
}

#[test]
fn orcs_idle_at_their_own_pace() {
    let mut sprite = OrcSprite { atlas_index: 0, animation: OrcsAnimation::set() };
    assert_eq!(sprite.animation.state, OrcsAnimationState::Idle);
    animate_orcs(&mut sprite, 250_000_000);
    assert_eq!(sprite.atlas_index, 1);
    sprite.animation.state = OrcsAnimationState::Walk;
    animate_orcs(&mut sprite, 100_000_000);
    assert_eq!(sprite.atlas_index, 2);
}

#[test]
fn the_roster_lists_the_seven_kinds() {
    let list = get_enemy_list();
    assert_eq!(list.len(), 7);
    assert_eq!(list[0].path, "enemies/ohai.png");
    assert_eq!((list[0].columns, list[0].rows), (4, 4));
    assert_eq!(list[2].path, "enemies/soldier.png");
    assert_eq!((list[2].animation.walk_up.first, list[2].animation.walk_up.last), (0, 7));
    assert_eq!(list[4].path, "enemies/leaf-bug.png");
    assert!(list[4].animation.need_flip);
    assert!(!list[5].animation.need_flip);
    assert_eq!(list[6].path, "enemies/fire-bug.png");
    assert_eq!((list[6].tile_width, list[6].tile_height), (96, 64));
    assert_eq!((list[6].animation.walk_left.first, list[6].animation.walk_left.last), (16, 23));
}

#[test]
fn the_cave_has_its_full_layout() {
    let tiles = spawn_cave_tile_map();
    assert_eq!(tiles.len(), 350);
    // First column, top tile: plain ceiling at the origin.
    assert_eq!((tiles[0].pos.x, tiles[0].pos.y), (0, 500));
    assert_eq!(tiles[0].atlas_index, 0);
    assert!(tiles[0].solid);
    assert_eq!(tiles[0].tile_type, CaveTileType::Wall);
    // Second row is the other plain ceiling sprite.
    assert_eq!(tiles[1].atlas_index, 2);
    // Rows of textured wall pick one of their two variants.
    assert!(tiles[2].atlas_index == 4 || tiles[2].atlas_index == 5);
    assert!(tiles[3].atlas_index == 6 || tiles[3].atlas_index == 7);
    // Floor rows are walkable and pick a floor sprite.
    for y in 4..10 {
        assert!(!tiles[y].solid);
        assert_eq!(tiles[y].tile_type, CaveTileType::Floor);
        assert!(tiles[y].atlas_index == 8 || tiles[y].atlas_index == 9);
    }
    // The grid is column-major: column 7, row 3 sits at index 73.
    assert_eq!((tiles[73].pos.x, tiles[73].pos.y), (480 * 7, 500 - 480 * 3));
}

#[test]
fn the_cave_is_walled_in() {
    let tiles = spawn_cave_tile_map();
    // Left wall, right wall, then the floor's underside.
    assert_eq!((tiles[300].pos.x, tiles[300].pos.y), (-480, 500));
    assert_eq!((tiles[310].pos.x, tiles[310].pos.y), (14400, 500));
    assert_eq!((tiles[320].pos.x, tiles[320].pos.y), (0, -4300));
    assert_eq!((tiles[349].pos.x, tiles[349].pos.y), (480 * 29, -4300));
    for i in 300..350 {
        assert!(tiles[i].solid);
        assert_eq!(tiles[i].tile_type, CaveTileType::Wall);
        assert!(tiles[i].atlas_index == 4 || tiles[i].atlas_index == 5);
    }
}
