//! Shots in flight: when they connect, how much damage lands, and the gold
//! a kill pays out.
//!
//! A shot chases its target; once within striking distance it plays its
//! eight-frame impact animation and, on the final frame, deals its damage.
//! A kill pays the player two gold per wave number (counting from one).
//! A shot that drifts past the right edge of the battlefield is discarded.

use vstd::prelude::*;

use crate::geom::Point;
use crate::timer::{spec_tick, timer_wf, GameTimer, TimerMode, MAX_TIMER_NS};
use crate::towers::Gold;

verus! {

/// A shot past this x coordinate (in tenths of a pixel) is discarded.
pub const DESPAWN_SHOT_RANGE: i64 = 15_000;

/// Squared distance (in squared tenths of a pixel) under which a shot is
/// close enough to strike its target.
pub const SHOT_HURT_DISTANCE_SQ: i64 = 70_000;

/// Period of the impact animation, in nanoseconds.
pub const SHOT_ANIMATION_PERIOD_NS: u64 = 50_000_000;

/// Index of the impact animation's final frame.
pub const SHOT_LAST_FRAME: usize = 7;

/// A shot in flight: the damage it carries, the index of the enemy it
/// chases, its impact-animation timer and current frame.
#[derive(Clone, Copy, Debug, PartialEq, Eq, Structural)]
pub struct Shot {
    pub damage: u16,
    pub target: Option<usize>,
    pub animation_timer: GameTimer,
    pub frame: usize,
}

/// A live shot's invariant: a well-formed repeating animation timer of the
/// fixed period, and a frame that has not passed the final one.
pub open spec fn shot_wf(s: Shot) -> bool {
    &&& timer_wf(s.animation_timer)
    &&& s.animation_timer.mode == TimerMode::Repeating
    &&& s.animation_timer.duration_ns == SHOT_ANIMATION_PERIOD_NS
    &&& s.frame <= SHOT_LAST_FRAME
}

/// A fresh shot aimed at enemy `target`, its animation at the first frame.
pub fn new_shot(damage: u16, target: usize) -> (s: Shot)
    ensures
        s.damage == damage,
        s.target == Some(target),
        s.frame == 0,
        s.animation_timer == (GameTimer {
            duration_ns: SHOT_ANIMATION_PERIOD_NS,
            elapsed_ns: 0,
            mode: TimerMode::Repeating,
            paused: false,
            just_finished: false,
        }),
        shot_wf(s),
{
    Shot {
        damage,
        target: Some(target),
        animation_timer: GameTimer::from_ns(SHOT_ANIMATION_PERIOD_NS, TimerMode::Repeating),
        frame: 0,
    }
}

/// Gold a kill pays on wave `w` (waves counted from zero): two per wave
/// number counting from one.
pub open spec fn spec_gold_reward(w: int) -> int {
    2 * (w + 1)
}

/// The kill payout, exactly `spec_gold_reward`.
pub fn gold_reward(wave_count: u8) -> (r: u16)
    ensures
        r == spec_gold_reward(wave_count as int),
{
    2 * (wave_count as u16 + 1)
}

/// Whether a shot has drifted past the right edge and should be discarded.
pub fn shot_out_of_bounds(pos: Point) -> (r: bool)
    ensures
        r == (pos.x > DESPAWN_SHOT_RANGE),
{
    pos.x > DESPAWN_SHOT_RANGE
}

/// Life left after taking `damage`, floored at zero.
pub open spec fn spec_life_after_hit(life: int, damage: int) -> int {
    if life <= damage { 0 } else { life - damage }
}

/// One frame of a shot that has a live target. Within striking distance the
/// impact animation advances on its timer's beat, and the final frame lands
/// the damage: the target's life drops (floored at zero), a kill pays the
/// wave's gold reward, and the shot is spent. Out of striking distance a
/// pending animation beat rewinds the animation to its first frame.
/// Returns `(killed, spent)`.
pub fn strike_target(
    shot: &mut Shot,
    in_hurt_range: bool,
    enemy_life: &mut u16,
    gold: &mut Gold,
    wave_count: u8,
    delta_ns: u64,
) -> (r: (bool, bool))
    requires
        shot_wf(*old(shot)),
        delta_ns <= MAX_TIMER_NS,
        old(gold).0 + spec_gold_reward(wave_count as int) <= u16::MAX,
    ensures
        final(shot).damage == old(shot).damage,
        final(shot).target == old(shot).target,
        in_hurt_range ==> {
            &&& final(shot).animation_timer == spec_tick(old(shot).animation_timer, delta_ns)
            &&& final(shot).frame == if spec_tick(old(shot).animation_timer,
                delta_ns).just_finished { old(shot).frame + 1 } else { old(shot).frame as int }
            &&& (r.1 <==> final(shot).frame >= SHOT_LAST_FRAME)
            &&& r.1 ==> {
                &&& *final(enemy_life) == spec_life_after_hit(*old(enemy_life) as int,
                    old(shot).damage as int)
                &&& (r.0 <==> *final(enemy_life) == 0)
                &&& final(gold).0 == if *final(enemy_life) == 0 { old(gold).0
                    + spec_gold_reward(wave_count as int) } else { old(gold).0 as int }
            }
            &&& !r.1 ==> *final(enemy_life) == *old(enemy_life) && *final(gold) == *old(gold)
                && !r.0 && shot_wf(*final(shot))
        },
        !in_hurt_range ==> {
            &&& final(shot).animation_timer == old(shot).animation_timer
            &&& final(shot).frame == if old(shot).animation_timer.just_finished { 0int } else {
                old(shot).frame as int }
            &&& *final(enemy_life) == *old(enemy_life)
            &&& *final(gold) == *old(gold)
            &&& r == (false, false)
            &&& shot_wf(*final(shot))
        },
{
    if in_hurt_range {
        shot.animation_timer.tick(delta_ns);
        if shot.animation_timer.just_finished {
            shot.frame = shot.frame + 1;
        }
        if shot.frame >= SHOT_LAST_FRAME {
            if *enemy_life <= shot.damage {
                *enemy_life = 0;
            } else {
                *enemy_life = *enemy_life - shot.damage;
            }
            let killed = *enemy_life == 0;
            if killed {
                gold.0 = gold.0 + gold_reward(wave_count);
            }
            (killed, true)
        } else {
            (false, false)
        }
    } else {
        if shot.animation_timer.just_finished {
            shot.frame = 0;
        }
        (false, false)
    }
}

} // verus!
