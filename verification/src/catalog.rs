//! The roster of enemy kinds, one per wave: each kind's sprite sheet path,
//! tile size, atlas grid, and walking animations.

use vstd::prelude::*;

use crate::animation::{
    ideal_time_per_frame, ideal_animation_values, spec_ideal_timer, AnimateSprite,
    EnemyAnimation, EnemyAnimationState,
};

verus! {

/// One enemy kind: its sprite sheet, the sheet's tile size and grid, and
/// its walking animations.
#[derive(Clone, Copy, Debug)]
pub struct EnemyKind {
    pub path: &'static str,
    pub tile_width: u32,
    pub tile_height: u32,
    pub columns: u32,
    pub rows: u32,
    pub animation: EnemyAnimation,
}

/// The standard sheet layout: up on frames 0 to 3, left on 8 to 11, down on
/// 12 to 15.
pub open spec fn spec_standard_animation() -> EnemyAnimation {
    EnemyAnimation {
        walk_up: AnimateSprite { first: 0, last: 3, timer: spec_ideal_timer() },
        walk_left: AnimateSprite { first: 8, last: 11, timer: spec_ideal_timer() },
        walk_down: AnimateSprite { first: 12, last: 15, timer: spec_ideal_timer() },
        state: EnemyAnimationState::WalkLeft,
        need_flip: false,
    }
}

/// A single-row sheet: frames 0 to 7 for every direction.
pub open spec fn spec_uniform_animation() -> EnemyAnimation {
    EnemyAnimation {
        walk_up: AnimateSprite { first: 0, last: 7, timer: spec_ideal_timer() },
        walk_down: AnimateSprite { first: 0, last: 7, timer: spec_ideal_timer() },
        walk_left: AnimateSprite { first: 0, last: 7, timer: spec_ideal_timer() },
        state: EnemyAnimationState::WalkLeft,
        need_flip: false,
    }
}

/// The bug-style sheet layout: up on frames 8 to 15, down on 0 to 7, left on
/// 16 to 23; some sheets need horizontal flipping.
pub open spec fn spec_bug_animation(flip: bool) -> EnemyAnimation {
    EnemyAnimation {
        walk_up: AnimateSprite { first: 8, last: 15, timer: spec_ideal_timer() },
        walk_down: AnimateSprite { first: 0, last: 7, timer: spec_ideal_timer() },
        walk_left: AnimateSprite { first: 16, last: 23, timer: spec_ideal_timer() },
        state: EnemyAnimationState::WalkLeft,
        need_flip: flip,
    }
}

/// The seven enemy kinds, in wave order.
pub fn get_enemy_list() -> (r: Vec<EnemyKind>)
    ensures
        r@.len() == 7,
        r@[0].path@ == "enemies/ohai.png"@,
        r@[0].tile_width == 32 && r@[0].tile_height == 32,
        r@[0].columns == 4 && r@[0].rows == 4,
        r@[0].animation == spec_standard_animation(),
        r@[1].path@ == "enemies/micuwa.png"@,
        r@[1].tile_width == 32 && r@[1].tile_height == 32,
        r@[1].columns == 4 && r@[1].rows == 4,
        r@[1].animation == spec_standard_animation(),
        r@[2].path@ == "enemies/soldier.png"@,
        r@[2].tile_width == 32 && r@[2].tile_height == 32,
        r@[2].columns == 8 && r@[2].rows == 1,
        r@[2].animation == spec_uniform_animation(),
        r@[3].path@ == "enemies/orcs.png"@,
        r@[3].tile_width == 32 && r@[3].tile_height == 32,
        r@[3].columns == 8 && r@[3].rows == 1,
        r@[3].animation == spec_uniform_animation(),
        r@[4].path@ == "enemies/leaf-bug.png"@,
        r@[4].tile_width == 64 && r@[4].tile_height == 64,
        r@[4].columns == 24 && r@[4].rows == 1,
        r@[4].animation == spec_bug_animation(true),
        r@[5].path@ == "enemies/magma-crab.png"@,
        r@[5].tile_width == 64 && r@[5].tile_height == 64,
        r@[5].columns == 24 && r@[5].rows == 1,
        r@[5].animation == spec_bug_animation(false),
        r@[6].path@ == "enemies/fire-bug.png"@,
        r@[6].tile_width == 96 && r@[6].tile_height == 64,
        r@[6].columns == 24 && r@[6].rows == 1,
        r@[6].animation == spec_bug_animation(true),
{
    let mut list: Vec<EnemyKind> = Vec::new();
    list.push(EnemyKind {
        path: "enemies/ohai.png",
        tile_width: 32,
        tile_height: 32,
        columns: 4,
        rows: 4,
        animation: ideal_animation_values(),
    });
    list.push(EnemyKind {
        path: "enemies/micuwa.png",
        tile_width: 32,
        tile_height: 32,
        columns: 4,
        rows: 4,
        animation: ideal_animation_values(),
    });
    list.push(EnemyKind {
        path: "enemies/soldier.png",
        tile_width: 32,
        tile_height: 32,
        columns: 8,
        rows: 1,
        animation: EnemyAnimation::make_all(0, 7, ideal_time_per_frame()),
    });
    list.push(EnemyKind {
        path: "enemies/orcs.png",
        tile_width: 32,
        tile_height: 32,
        columns: 8,
        rows: 1,
        animation: EnemyAnimation::make_all(0, 7, ideal_time_per_frame()),
    });
    list.push(EnemyKind {
        path: "enemies/leaf-bug.png",
        tile_width: 64,
        tile_height: 64,
        columns: 24,
        rows: 1,
        animation: bug_animation(true),
    });
    list.push(EnemyKind {
        path: "enemies/magma-crab.png",
        tile_width: 64,
        tile_height: 64,
        columns: 24,
        rows: 1,
        animation: bug_animation(false),
    });
    list.push(EnemyKind {
        path: "enemies/fire-bug.png",
        tile_width: 96,
        tile_height: 64,
        columns: 24,
        rows: 1,
        animation: bug_animation(true),
    });
    list
}

/// The bug-style animation set, exactly `spec_bug_animation`.
fn bug_animation(flip: bool) -> (a: EnemyAnimation)
    ensures
        a == spec_bug_animation(flip),
{
    EnemyAnimation {
        walk_up: AnimateSprite { first: 8, last: 15, timer: ideal_time_per_frame() },
        walk_down: AnimateSprite { first: 0, last: 7, timer: ideal_time_per_frame() },
        walk_left: AnimateSprite { first: 16, last: 23, timer: ideal_time_per_frame() },
        state: EnemyAnimationState::WalkLeft,
        need_flip: flip,
    }
}

} // verus!
