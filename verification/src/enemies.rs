//! Enemy units and their march along the map's fixed path.
//!
//! Enemies spawn at the right edge and walk a zig-zag of six breakpoints
//! toward the goal at the bottom left. Each frame an enemy moves along the
//! axis of its current segment; crossing into a new segment raises its
//! breakpoint level, which the towers use to pick the most dangerous target.
//! An enemy that reaches the last breakpoint's height escapes and costs the
//! player a life.

use vstd::prelude::*;

use crate::geom::{in_world, Point, MAX_STEP};
use crate::towers::Lifes;

verus! {

/// Where enemies appear, in tenths of a pixel.
pub const SPAWN_X_LOCATION: i64 = 6100;

pub const SPAWN_Y_LOCATION: i64 = 800;

/// Number of breakpoints on the path.
pub const BREAK_POINT_COUNT: usize = 6;

/// An enemy on the map: its position, the index of the breakpoint it is
/// marching toward, and its remaining life.
#[derive(Clone, Copy, Debug, PartialEq, Eq, Structural)]
pub struct EnemyUnit {
    pub pos: Point,
    pub level: u8,
    pub life: u16,
}

/// The six points where the path turns, in tenths of a pixel.
pub open spec fn spec_break_point(i: int) -> Point {
    if i == 0 { Point { x: 2500i64, y: SPAWN_Y_LOCATION } }
    else if i == 1 { Point { x: 2500i64, y: -2050i64 } }
    else if i == 2 { Point { x: -2300i64, y: -2050i64 } }
    else if i == 3 { Point { x: -2300i64, y: SPAWN_Y_LOCATION } }
    else if i == 4 { Point { x: -4550i64, y: SPAWN_Y_LOCATION } }
    else { Point { x: -4550i64, y: -3750i64 } }
}

/// Breakpoint positions, exactly the table of `spec_break_point`.
pub fn break_point(i: usize) -> (p: Point)
    requires
        i < BREAK_POINT_COUNT,
    ensures
        p == spec_break_point(i as int),
        in_world(p),
{
    if i == 0 { Point { x: 2500i64, y: SPAWN_Y_LOCATION } }
    else if i == 1 { Point { x: 2500i64, y: -2050i64 } }
    else if i == 2 { Point { x: -2300i64, y: -2050i64 } }
    else if i == 3 { Point { x: -2300i64, y: SPAWN_Y_LOCATION } }
    else if i == 4 { Point { x: -4550i64, y: SPAWN_Y_LOCATION } }
    else { Point { x: -4550i64, y: -3750i64 } }
}

/// Which segment of the path a position lies on, the tests taken in a fixed
/// order; 0 means none (the enemy stands still).
pub open spec fn spec_path_branch(p: Point) -> int {
    if p.x > spec_break_point(0).x {
        1
    } else if p.x > spec_break_point(2).x && p.y > spec_break_point(1).y {
        2
    } else if p.y <= spec_break_point(1).y && p.x >= spec_break_point(2).x {
        3
    } else if p.y < SPAWN_Y_LOCATION && p.x <= spec_break_point(2).x
        && p.x > spec_break_point(4).x {
        4
    } else if p.y >= SPAWN_Y_LOCATION && p.x >= spec_break_point(4).x {
        5
    } else if p.y > spec_break_point(5).y && p.x <= spec_break_point(4).x {
        6
    } else {
        0
    }
}

/// Where `move_enemy` puts an enemy: the branch's axis move and level stamp.
pub open spec fn spec_moved(p: Point, level: u8, step: i64) -> (Point, u8) {
    let b = spec_path_branch(p);
    if b == 1 { (Point { x: (p.x - step) as i64, y: p.y }, level) }
    else if b == 2 { (Point { x: p.x, y: (p.y - step) as i64 }, 1u8) }
    else if b == 3 { (Point { x: (p.x - step) as i64, y: p.y }, 2u8) }
    else if b == 4 { (Point { x: p.x, y: (p.y + step) as i64 }, 3u8) }
    else if b == 5 { (Point { x: (p.x - step) as i64, y: p.y }, 4u8) }
    else if b == 6 { (Point { x: p.x, y: (p.y - step) as i64 }, 5u8) }
    else { (p, level) }
}

/// Move one enemy `step` tenths of a pixel along its current segment and
/// return its new position and breakpoint level. Segments 1, 3 and 5 head
/// left, segment 2 and the final segment 6 head down, segment 4 heads up;
/// the first segment leaves the level alone, each later one stamps its own.
pub fn move_enemy(p: Point, level: u8, step: i64) -> (r: (Point, u8))
    requires
        in_world(p),
        0 <= step <= MAX_STEP,
    ensures
        in_world(r.0),
        r == spec_moved(p, level, step),
        spec_path_branch(p) == 1 ==> r == (Point { x: (p.x - step) as i64, y: p.y }, level),
        spec_path_branch(p) == 2 ==> r == (Point { x: p.x, y: (p.y - step) as i64 }, 1u8),
        spec_path_branch(p) == 3 ==> r == (Point { x: (p.x - step) as i64, y: p.y }, 2u8),
        spec_path_branch(p) == 4 ==> r == (Point { x: p.x, y: (p.y + step) as i64 }, 3u8),
        spec_path_branch(p) == 5 ==> r == (Point { x: (p.x - step) as i64, y: p.y }, 4u8),
        spec_path_branch(p) == 6 ==> r == (Point { x: p.x, y: (p.y - step) as i64 }, 5u8),
        spec_path_branch(p) == 0 ==> r == (p, level),
        r.1 == if spec_path_branch(p) <= 1 { level as int } else { spec_path_branch(p) - 1 },
{
    let bp0 = break_point(0);
    let bp1 = break_point(1);
    let bp2 = break_point(2);
    let bp4 = break_point(4);
    let bp5 = break_point(5);
    if p.x > bp0.x {
        (Point { x: p.x - step, y: p.y }, level)
    } else if p.x > bp2.x && p.y > bp1.y {
        (Point { x: p.x, y: p.y - step }, 1)
    } else if p.y <= bp1.y && p.x >= bp2.x {
        (Point { x: p.x - step, y: p.y }, 2)
    } else if p.y < SPAWN_Y_LOCATION && p.x <= bp2.x && p.x > bp4.x {
        (Point { x: p.x, y: p.y + step }, 3)
    } else if p.y >= SPAWN_Y_LOCATION && p.x >= bp4.x {
        (Point { x: p.x - step, y: p.y }, 4)
    } else if p.y > bp5.y && p.x <= bp4.x {
        (Point { x: p.x, y: p.y - step }, 5)
    } else {
        (p, level)
    }
}

/// March every enemy along the path; `steps[i]` is how far enemy `i` moves
/// this frame (its speed times the frame time). Lives are untouched.
pub fn move_enemies(units: &mut Vec<EnemyUnit>, steps: &Vec<i64>)
    requires
        old(units)@.len() == steps@.len(),
        forall|i: int| 0 <= i < old(units)@.len() ==> in_world(
            (#[trigger] old(units)@[i]).pos),
        forall|i: int| 0 <= i < steps@.len() ==> 0 <= #[trigger] steps@[i] <= MAX_STEP,
    ensures
        final(units)@.len() == old(units)@.len(),
        forall|i: int| 0 <= i < final(units)@.len() ==> {
            &&& in_world((#[trigger] final(units)@[i]).pos)
            &&& final(units)@[i].life == old(units)@[i].life
            &&& final(units)@[i].pos == spec_moved(old(units)@[i].pos, old(units)@[i].level,
                steps@[i]).0
            &&& final(units)@[i].level == spec_moved(old(units)@[i].pos, old(units)@[i].level,
                steps@[i]).1
        },
{
    let ghost units0 = units@;
    let n: usize = units.len();
    let mut i: usize = 0;
    while i < n
        invariant
            units0 == old(units)@,
            n == units0.len(),
            units@.len() == n,
            steps@.len() == n,
            0 <= i <= n,
            forall|j: int| 0 <= j < n as int ==> in_world((#[trigger] units0[j]).pos),
            forall|j: int| 0 <= j < n as int ==> 0 <= #[trigger] steps@[j] <= MAX_STEP,
            forall|j: int| (i as int) <= j < (n as int) ==> #[trigger] units@[j]
                == units0[j],
            forall|j: int| 0 <= j < i as int ==> {
                &&& in_world((#[trigger] units@[j]).pos)
                &&& units@[j].life == units0[j].life
                &&& units@[j].pos == spec_moved(units0[j].pos, units0[j].level, steps@[j]).0
                &&& units@[j].level == spec_moved(units0[j].pos, units0[j].level, steps@[j]).1
            },
        decreases n - i,
    {
        let u = units[i];
        let moved = move_enemy(u.pos, u.level, steps[i]);
        units.set(i, EnemyUnit { pos: moved.0, level: moved.1, life: u.life });
        i = i + 1;
    }
}

/// An enemy has escaped once it sinks to the final breakpoint's height.
pub open spec fn spec_escaped(u: EnemyUnit) -> bool {
    u.pos.y <= spec_break_point(5).y
}

/// The despawn sweep over the first `n` enemies, in order: seeing any enemy
/// while no lives remain raises the game-over flag; an escaped enemy is
/// removed and costs one life (lives never go below zero); the rest are kept
/// in order.
pub open spec fn spec_despawn_upto(
    units: Seq<EnemyUnit>,
    lifes: int,
    n: int,
) -> (Seq<EnemyUnit>, int, bool)
    decreases n,
{
    if n <= 0 {
        (Seq::<EnemyUnit>::empty(), lifes, false)
    } else {
        let prev = spec_despawn_upto(units, lifes, n - 1);
        let u = units[n - 1];
        let over = prev.2 || prev.1 == 0;
        if spec_escaped(u) {
            (prev.0, if prev.1 == 0 { 0int } else { prev.1 - 1 }, over)
        } else {
            (prev.0.push(u), prev.1, over)
        }
    }
}

/// Sweep the enemies once: drop the escaped ones, charge a life for each,
/// and report whether the game is over (some enemy was seen with the
/// player's lives already at zero).
pub fn despawn_enemies(units: &mut Vec<EnemyUnit>, lifes: &mut Lifes) -> (game_over: bool)
    ensures
        (final(units)@, final(lifes).0 as int, game_over) == spec_despawn_upto(
            old(units)@, old(lifes).0 as int, old(units)@.len() as int),
{
    let ghost units0 = units@;
    let ghost lifes0 = lifes.0 as int;
    let n: usize = units.len();
    let mut kept: Vec<EnemyUnit> = Vec::new();
    let mut over: bool = false;
    let mut i: usize = 0;
    while i < n
        invariant
            units0 == old(units)@,
            lifes0 == old(lifes).0 as int,
            n == units0.len(),
            units@ == units0,
            0 <= i <= n,
            (kept@, lifes.0 as int, over) == spec_despawn_upto(units0, lifes0, i as int),
        decreases n - i,
    {
        if lifes.0 == 0 {
            over = true;
        }
        let u = units[i];
        let bp5 = break_point(5);
        if u.pos.y <= bp5.y {
            if lifes.0 > 0 {
                lifes.0 = lifes.0 - 1;
            }
        } else {
            kept.push(u);
        }
        i = i + 1;
    }
    *units = kept;
    over
}

} // verus!
