//! Tower targeting: each tower shoots the most dangerous enemy in range.
//!
//! Among the enemies within attack range, a tower first keeps only those of
//! the highest breakpoint level — the ones closest to winning — and then
//! picks the one nearest its own next breakpoint; ties go to the earliest in
//! the scan. A shot is released when the tower's attack timer beats while a
//! target stands in range.

use vstd::prelude::*;

use crate::enemies::{break_point, spec_break_point, EnemyUnit};
use crate::geom::{dist_sq, in_world, spec_dist_sq, Point};
use crate::timer::{spec_tick, MAX_TIMER_NS};
use crate::towers::{tower_info_wf, TowerUnit, TOWER_ATTACK_RANGE_SQ};

verus! {

/// Whether an enemy stands in a tower's attack range: nearer than the range
/// but not exactly on the tower.
pub open spec fn spec_in_range(tower: Point, e: EnemyUnit) -> bool {
    0 < spec_dist_sq(tower, e.pos) < TOWER_ATTACK_RANGE_SQ
}

/// Squared distance from an enemy to the breakpoint it is marching toward:
/// the measure of how close it is to winning within its level.
pub open spec fn spec_goal_dist(e: EnemyUnit) -> int {
    spec_dist_sq(e.pos, spec_break_point(e.level as int))
}

/// Pick the target for a tower standing at `tower`: the first enemy that,
/// among those in range, has the highest breakpoint level and, within that
/// level, the smallest distance to its breakpoint. Returns the enemy's index,
/// or `None` exactly when no enemy is in range.
pub fn select_target(tower: Point, enemies: &Vec<EnemyUnit>) -> (r: Option<usize>)
    requires
        in_world(tower),
        forall|i: int| 0 <= i < enemies@.len() ==> in_world((#[trigger] enemies@[i]).pos)
            && enemies@[i].level < 6,
    ensures
        match r {
            None => forall|i: int| 0 <= i < enemies@.len() ==> !spec_in_range(
                tower, #[trigger] enemies@[i]),
            Some(i) => {
                &&& i < enemies@.len()
                &&& spec_in_range(tower, enemies@[i as int])
                &&& forall|j: int| 0 <= j < enemies@.len() && spec_in_range(
                    tower, #[trigger] enemies@[j]) ==> enemies@[j].level
                    <= enemies@[i as int].level
                &&& forall|j: int| 0 <= j < enemies@.len() && spec_in_range(
                    tower, #[trigger] enemies@[j]) && enemies@[j].level
                    == enemies@[i as int].level ==> spec_goal_dist(enemies@[i as int])
                    <= spec_goal_dist(enemies@[j])
                &&& forall|j: int| 0 <= j < i as int && spec_in_range(
                    tower, #[trigger] enemies@[j]) && enemies@[j].level
                    == enemies@[i as int].level ==> spec_goal_dist(enemies@[i as int])
                    < spec_goal_dist(enemies@[j])
            },
        },
{
    let n: usize = enemies.len();

    // Highest breakpoint level among the enemies in range.
    let mut any: bool = false;
    let mut best_lvl: u8 = 0;
    let mut wit: usize = 0;
    let mut i: usize = 0;
    while i < n
        invariant
            n == enemies@.len(),
            0 <= i <= n,
            forall|j: int| 0 <= j < n as int ==> in_world((#[trigger] enemies@[j]).pos)
                && enemies@[j].level < 6,
            in_world(tower),
            !any ==> forall|j: int| 0 <= j < i as int ==> !spec_in_range(
                tower, #[trigger] enemies@[j]),
            any ==> wit < i && spec_in_range(tower, enemies@[wit as int])
                && enemies@[wit as int].level == best_lvl,
            any ==> forall|j: int| 0 <= j < i as int && spec_in_range(
                tower, #[trigger] enemies@[j]) ==> enemies@[j].level <= best_lvl,
        decreases n - i,
    {
        let e = enemies[i];
        let d = dist_sq(tower, e.pos);
        if d > 0 && d < TOWER_ATTACK_RANGE_SQ {
            if !any || e.level > best_lvl {
                any = true;
                best_lvl = e.level;
                wit = i;
            }
        }
        i = i + 1;
    }
    if !any {
        return None;
    }

    // Earliest enemy of that level in range with the smallest distance to
    // its breakpoint.
    let mut best: Option<usize> = None;
    let mut best_d: i64 = 0;
    let mut j: usize = 0;
    while j < n
        invariant
            n == enemies@.len(),
            0 <= j <= n,
            forall|k: int| 0 <= k < n as int ==> in_world((#[trigger] enemies@[k]).pos)
                && enemies@[k].level < 6,
            in_world(tower),
            wit < n && spec_in_range(tower, enemies@[wit as int])
                && enemies@[wit as int].level == best_lvl,
            forall|k: int| 0 <= k < n as int && spec_in_range(tower, #[trigger] enemies@[k])
                ==> enemies@[k].level <= best_lvl,
            best is None ==> forall|k: int| 0 <= k < j as int ==> !(spec_in_range(
                tower, #[trigger] enemies@[k]) && enemies@[k].level == best_lvl),
            best matches Some(b) ==> {
                &&& (b as int) < j as int
                &&& spec_in_range(tower, enemies@[b as int])
                &&& enemies@[b as int].level == best_lvl
                &&& best_d == spec_goal_dist(enemies@[b as int])
                &&& forall|k: int| 0 <= k < j as int && spec_in_range(
                    tower, #[trigger] enemies@[k]) && enemies@[k].level == best_lvl
                    ==> best_d <= spec_goal_dist(enemies@[k])
                &&& forall|k: int| 0 <= k < b as int && spec_in_range(
                    tower, #[trigger] enemies@[k]) && enemies@[k].level == best_lvl
                    ==> best_d < spec_goal_dist(enemies@[k])
            },
        decreases n - j,
    {
        let e = enemies[j];
        let d = dist_sq(tower, e.pos);
        if d > 0 && d < TOWER_ATTACK_RANGE_SQ && e.level == best_lvl {
            let goal_d = dist_sq(e.pos, break_point(e.level as usize));
            let better = match best {
                None => true,
                Some(_) => goal_d < best_d,
            };
            if better {
                best = Some(j);
                best_d = goal_d;
            }
        }
        j = j + 1;
    }
    best
}

/// A shot released by a tower this frame: which enemy it chases and how much
/// damage it carries.
#[derive(Clone, Copy, Debug, PartialEq, Eq, Structural)]
pub struct ShotOrder {
    pub target: usize,
    pub damage: u16,
}

/// Advance every tower's attack timer and release at most one shot per
/// tower: a tower fires exactly when its timer beats this frame while some
/// enemy stands in range, and its shot chases the chosen target with the
/// tower's damage. `orders[i]` belongs to tower `i`.
pub fn spawn_shots_to_attack(
    towers: &mut Vec<TowerUnit>,
    enemies: &Vec<EnemyUnit>,
    delta_ns: u64,
) -> (orders: Vec<Option<ShotOrder>>)
    requires
        forall|i: int| 0 <= i < old(towers)@.len() ==> tower_info_wf(
            (#[trigger] old(towers)@[i]).info) && in_world(old(towers)@[i].pos),
        forall|i: int| 0 <= i < enemies@.len() ==> in_world((#[trigger] enemies@[i]).pos)
            && enemies@[i].level < 6,
        delta_ns <= MAX_TIMER_NS,
    ensures
        final(towers)@.len() == old(towers)@.len(),
        orders@.len() == old(towers)@.len(),
        forall|i: int| 0 <= i < final(towers)@.len() ==> {
            &&& (#[trigger] final(towers)@[i]).pos == old(towers)@[i].pos
            &&& final(towers)@[i].info.level == old(towers)@[i].info.level
            &&& final(towers)@[i].info.tower_type == old(towers)@[i].info.tower_type
            &&& final(towers)@[i].info.attack_damage == old(towers)@[i].info.attack_damage
            &&& final(towers)@[i].info.attack_speed == spec_tick(
                old(towers)@[i].info.attack_speed, delta_ns)
            &&& tower_info_wf(final(towers)@[i].info)
        },
        forall|i: int| 0 <= i < orders@.len() ==> ((#[trigger] orders@[i]) is Some <==> (
            spec_tick(old(towers)@[i].info.attack_speed, delta_ns).just_finished
            && exists|j: int| 0 <= j < enemies@.len() && spec_in_range(
                old(towers)@[i].pos, #[trigger] enemies@[j]))),
        forall|i: int| 0 <= i < orders@.len() ==> match #[trigger] orders@[i] {
            None => true,
            Some(o) => {
                &&& o.damage == old(towers)@[i].info.attack_damage
                &&& (o.target as int) < enemies@.len()
                &&& spec_in_range(old(towers)@[i].pos, enemies@[o.target as int])
                &&& forall|j: int| 0 <= j < enemies@.len() && spec_in_range(
                    old(towers)@[i].pos, #[trigger] enemies@[j]) ==> enemies@[j].level
                    <= enemies@[o.target as int].level
                &&& forall|j: int| 0 <= j < enemies@.len() && spec_in_range(
                    old(towers)@[i].pos, #[trigger] enemies@[j]) && enemies@[j].level
                    == enemies@[o.target as int].level ==> spec_goal_dist(
                    enemies@[o.target as int]) <= spec_goal_dist(enemies@[j])
                &&& forall|j: int| 0 <= j < o.target as int && spec_in_range(
                    old(towers)@[i].pos, #[trigger] enemies@[j]) && enemies@[j].level
                    == enemies@[o.target as int].level ==> spec_goal_dist(
                    enemies@[o.target as int]) < spec_goal_dist(enemies@[j])
            },
        },
{
    let ghost towers0 = towers@;
    let n: usize = towers.len();
    let mut orders: Vec<Option<ShotOrder>> = Vec::new();
    let mut i: usize = 0;
    while i < n
        invariant
            towers0 == old(towers)@,
            n == towers0.len(),
            towers@.len() == n,
            orders@.len() == i as int,
            0 <= i <= n,
            forall|j: int| 0 <= j < n as int ==> tower_info_wf((#[trigger] towers0[j]).info)
                && in_world(towers0[j].pos),
            forall|j: int| 0 <= j < enemies@.len() ==> in_world((#[trigger] enemies@[j]).pos)
                && enemies@[j].level < 6,
            delta_ns <= MAX_TIMER_NS,
            forall|j: int| (i as int) <= j < (n as int) ==> #[trigger] towers@[j]
                == towers0[j],
            forall|j: int| 0 <= j < i as int ==> {
                &&& (#[trigger] towers@[j]).pos == towers0[j].pos
                &&& towers@[j].info.level == towers0[j].info.level
                &&& towers@[j].info.tower_type == towers0[j].info.tower_type
                &&& towers@[j].info.attack_damage == towers0[j].info.attack_damage
                &&& towers@[j].info.attack_speed == spec_tick(
                    towers0[j].info.attack_speed, delta_ns)
                &&& tower_info_wf(towers@[j].info)
            },
            forall|j: int| 0 <= j < i as int ==> ((#[trigger] orders@[j]) is Some <==> (
                spec_tick(towers0[j].info.attack_speed, delta_ns).just_finished
                && exists|k: int| 0 <= k < enemies@.len() && spec_in_range(
                    towers0[j].pos, #[trigger] enemies@[k]))),
            forall|j: int| 0 <= j < i as int ==> match #[trigger] orders@[j] {
                None => true,
                Some(o) => {
                    &&& o.damage == towers0[j].info.attack_damage
                    &&& (o.target as int) < enemies@.len()
                    &&& spec_in_range(towers0[j].pos, enemies@[o.target as int])
                    &&& forall|k: int| 0 <= k < enemies@.len() && spec_in_range(
                        towers0[j].pos, #[trigger] enemies@[k]) ==> enemies@[k].level
                        <= enemies@[o.target as int].level
                    &&& forall|k: int| 0 <= k < enemies@.len() && spec_in_range(
                        towers0[j].pos, #[trigger] enemies@[k]) && enemies@[k].level
                        == enemies@[o.target as int].level ==> spec_goal_dist(
                        enemies@[o.target as int]) <= spec_goal_dist(enemies@[k])
                    &&& forall|k: int| 0 <= k < o.target as int && spec_in_range(
                        towers0[j].pos, #[trigger] enemies@[k]) && enemies@[k].level
                        == enemies@[o.target as int].level ==> spec_goal_dist(
                        enemies@[o.target as int]) < spec_goal_dist(enemies@[k])
                },
            },
        decreases n - i,
    {
        let pos = towers[i].pos;
        let mut unit = towers[i];
        unit.info.attack_speed.tick(delta_ns);
        let fired = unit.info.attack_speed.just_finished;
        towers.set(i, unit);
        let target = select_target(pos, enemies);
        match target {
            Some(t) => {
                if fired {
                    let damage = towers[i].info.attack_damage;
                    orders.push(Some(ShotOrder { target: t, damage }));
                } else {
                    orders.push(None);
                }
            },
            None => {
                orders.push(None);
            },
        }
        i = i + 1;
    }
    orders
}

} // verus!
