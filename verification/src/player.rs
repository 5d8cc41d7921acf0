//! The player character's movement and its collision with the cave walls.
//!
//! Each frame the four held direction keys are applied in the fixed order
//! up, down, left, right; a step in a direction is taken only if the shifted
//! position would not stand within the collision threshold of any collider.
//! The left and right keys also turn the sprite to face that way.

use vstd::prelude::*;

use crate::geom::{dist_sq, in_world, in_world_with_slack, spec_dist_sq, Point, MAX_STEP};

verus! {

/// Squared distance (in squared tenths of a pixel) under which a position
/// collides with a collider.
pub const COLLISION_THRESHOLD_SQ: i64 = 175_000;

/// The player's walking speed, in tenths of a pixel per second.
pub const PLAYER_SPEED: i64 = 2500;

/// A direction the player can step in.
#[derive(Clone, Copy, Debug, PartialEq, Eq, Structural)]
pub enum MovementDirection {
    Top,
    Bottom,
    Left,
    Right,
}

/// The player character.
#[derive(Clone, Copy, Debug, PartialEq, Eq, Structural)]
pub struct Player {
    /// Walking speed, in tenths of a pixel per second.
    pub speed: i64,
    pub life: u8,
}

impl Default for Player {
    /// A fresh player: full life, standard speed.
    fn default() -> (p: Player)
        ensures
            p == (Player { speed: PLAYER_SPEED, life: 100u8 }),
    {
        Player { speed: PLAYER_SPEED, life: 100 }
    }
}

/// The position one step of `m` in direction `dir` away from `p`.
pub open spec fn spec_shifted(p: Point, dir: MovementDirection, m: i64) -> Point {
    match dir {
        MovementDirection::Top => Point { x: p.x, y: (p.y + m) as i64 },
        MovementDirection::Bottom => Point { x: p.x, y: (p.y - m) as i64 },
        MovementDirection::Left => Point { x: (p.x - m) as i64, y: p.y },
        MovementDirection::Right => Point { x: (p.x + m) as i64, y: p.y },
    }
}

/// Whether a position stands within the collision threshold of some collider.
pub open spec fn spec_collides(p: Point, colliders: Seq<Point>) -> bool {
    exists|k: int| 0 <= k < colliders.len() && spec_dist_sq(p, #[trigger] colliders[k])
        < COLLISION_THRESHOLD_SQ
}

/// Whether stepping from `player_pos` in `dir` by `movement_size` would run
/// into a collider.
pub fn collision(
    player_pos: Point,
    collider_direction: MovementDirection,
    colliders: &Vec<Point>,
    movement_size: i64,
) -> (r: bool)
    requires
        in_world_with_slack(player_pos, 3 * MAX_STEP),
        0 <= movement_size <= MAX_STEP,
        forall|k: int| 0 <= k < colliders@.len() ==> in_world(#[trigger] colliders@[k]),
    ensures
        r == spec_collides(spec_shifted(player_pos, collider_direction, movement_size),
            colliders@),
{
    let new_position = match collider_direction {
        MovementDirection::Top => Point { x: player_pos.x, y: player_pos.y + movement_size },
        MovementDirection::Bottom => Point {
            x: player_pos.x,
            y: player_pos.y - movement_size,
        },
        MovementDirection::Left => Point { x: player_pos.x - movement_size, y: player_pos.y },
        MovementDirection::Right => Point {
            x: player_pos.x + movement_size,
            y: player_pos.y,
        },
    };
    let n: usize = colliders.len();
    let mut k: usize = 0;
    while k < n
        invariant
            n == colliders@.len(),
            0 <= k <= n,
            forall|j: int| 0 <= j < n as int ==> in_world(#[trigger] colliders@[j]),
            new_position == spec_shifted(player_pos, collider_direction, movement_size),
            in_world_with_slack(new_position, 4 * MAX_STEP),
            forall|j: int| 0 <= j < k as int ==> spec_dist_sq(
                new_position, #[trigger] colliders@[j]) >= COLLISION_THRESHOLD_SQ,
        decreases n - k,
    {
        let d = dist_sq(new_position, colliders[k]);
        if d < COLLISION_THRESHOLD_SQ {
            return true;
        }
        k = k + 1;
    }
    false
}

/// One attempted step: the shifted position if it is free, the old position
/// if it collides.
pub open spec fn spec_move_once(
    p: Point,
    dir: MovementDirection,
    colliders: Seq<Point>,
    m: i64,
) -> Point {
    if spec_collides(spec_shifted(p, dir, m), colliders) {
        p
    } else {
        spec_shifted(p, dir, m)
    }
}

/// Where the player ends up after applying the held keys in the order up,
/// down, left, right, each step checked against the colliders.
pub open spec fn spec_player_move(
    p: Point,
    pressed_w: bool,
    pressed_s: bool,
    pressed_a: bool,
    pressed_d: bool,
    colliders: Seq<Point>,
    m: i64,
) -> Point {
    let p1 = if pressed_w { spec_move_once(p, MovementDirection::Top, colliders, m) } else { p };
    let p2 = if pressed_s { spec_move_once(p1, MovementDirection::Bottom, colliders, m) } else {
        p1
    };
    let p3 = if pressed_a { spec_move_once(p2, MovementDirection::Left, colliders, m) } else {
        p2
    };
    if pressed_d { spec_move_once(p3, MovementDirection::Right, colliders, m) } else { p3 }
}

/// Walk the player one frame: apply the held keys in order, stepping only
/// where no collider blocks, and face the way of a held left or right key.
pub fn player_movement(
    pos: &mut Point,
    facing_left: &mut bool,
    pressed_w: bool,
    pressed_s: bool,
    pressed_a: bool,
    pressed_d: bool,
    colliders: &Vec<Point>,
    movement_size: i64,
)
    requires
        in_world(*old(pos)),
        0 <= movement_size <= MAX_STEP,
        forall|k: int| 0 <= k < colliders@.len() ==> in_world(#[trigger] colliders@[k]),
    ensures
        *final(pos) == spec_player_move(*old(pos), pressed_w, pressed_s, pressed_a, pressed_d,
            colliders@, movement_size),
        *final(facing_left) == if pressed_d { false } else if pressed_a { true } else {
            *old(facing_left)
        },
{
    if pressed_w {
        if !collision(*pos, MovementDirection::Top, colliders, movement_size) {
            pos.y = pos.y + movement_size;
        }
    }
    if pressed_s {
        if !collision(*pos, MovementDirection::Bottom, colliders, movement_size) {
            pos.y = pos.y - movement_size;
        }
    }
    if pressed_a {
        if !collision(*pos, MovementDirection::Left, colliders, movement_size) {
            pos.x = pos.x - movement_size;
        }
        *facing_left = true;
    }
    if pressed_d {
        if !collision(*pos, MovementDirection::Right, colliders, movement_size) {
            pos.x = pos.x + movement_size;
        }
        *facing_left = false;
    }
}

} // verus!
