//! Sprite animation: frame ranges and the stepping rule.
//!
//! Every animation is a range of atlas frames with a repeating timer. On the
//! timer's beat the frame advances by one; a frame outside the range — under
//! its first or at or past its last — snaps back to the first. Each animated
//! thing plays one of its animations at a time, chosen by its state.

use vstd::prelude::*;

use crate::timer::{spec_tick, timer_wf, GameTimer, TimerMode, MAX_TIMER_NS};

verus! {

/// Period of the standard walking animation, in nanoseconds.
pub const IDEAL_FRAME_PERIOD_NS: u64 = 100_000_000;

/// Period of the slower idle/death animations, in nanoseconds.
pub const SLOW_FRAME_PERIOD_NS: u64 = 250_000_000;

/// The standard frame timer: a tenth of a second, repeating.
pub fn ideal_time_per_frame() -> (t: GameTimer)
    ensures
        t == (GameTimer {
            duration_ns: IDEAL_FRAME_PERIOD_NS,
            elapsed_ns: 0,
            mode: TimerMode::Repeating,
            paused: false,
            just_finished: false,
        }),
{
    GameTimer::from_ns(IDEAL_FRAME_PERIOD_NS, TimerMode::Repeating)
}

/// The standard frame timer as a value.
pub open spec fn spec_ideal_timer() -> GameTimer {
    GameTimer {
        duration_ns: IDEAL_FRAME_PERIOD_NS,
        elapsed_ns: 0,
        mode: TimerMode::Repeating,
        paused: false,
        just_finished: false,
    }
}

/// One animation: a frame range `first..=last` in the sprite atlas and the
/// timer that paces it.
#[derive(Clone, Copy, Debug, PartialEq, Eq, Structural)]
pub struct AnimateSprite {
    pub first: usize,
    pub last: usize,
    pub timer: GameTimer,
}

impl Default for AnimateSprite {
    /// A single-frame animation on the standard timer.
    fn default() -> (a: AnimateSprite)
        ensures
            a == spec_default_sprite(),
    {
        AnimateSprite { first: 0, last: 0, timer: ideal_time_per_frame() }
    }
}

/// A single-frame animation on the standard timer, as a value.
pub open spec fn spec_default_sprite() -> AnimateSprite {
    AnimateSprite { first: 0, last: 0, timer: spec_ideal_timer() }
}

/// The next frame after `index` in the range `first..=last`: one further,
/// or back to `first` from outside the range or from its end.
pub open spec fn spec_advance_frame(index: usize, first: usize, last: usize) -> int {
    if index < first || index >= last {
        first as int
    } else {
        index + 1
    }
}

/// Step an atlas frame within a range, exactly `spec_advance_frame`.
pub fn advance_frame(index: usize, first: usize, last: usize) -> (r: usize)
    ensures
        r == spec_advance_frame(index, first, last),
{
    if index < first || index >= last {
        first
    } else {
        index + 1
    }
}

/// What one tick does to an animation and the frame it drives: the timer
/// advances, and its beat advances the frame.
pub open spec fn spec_sprite_step(a: AnimateSprite, index: usize, delta_ns: u64) -> (
    AnimateSprite,
    int,
) {
    let t1 = spec_tick(a.timer, delta_ns);
    (
        AnimateSprite { timer: t1, ..a },
        if t1.just_finished { spec_advance_frame(index, a.first, a.last) } else { index as int },
    )
}

/// Advance one animation's timer and, on its beat, the frame.
pub fn sprite_step(a: &mut AnimateSprite, index: usize, delta_ns: u64) -> (r: usize)
    requires
        timer_wf(old(a).timer),
        delta_ns <= MAX_TIMER_NS,
    ensures
        *final(a) == spec_sprite_step(*old(a), index, delta_ns).0,
        r == spec_sprite_step(*old(a), index, delta_ns).1,
        timer_wf(final(a).timer),
{
    a.timer.tick(delta_ns);
    if a.timer.just_finished {
        advance_frame(index, a.first, a.last)
    } else {
        index
    }
}

/// Which way an enemy sprite is walking.
#[derive(Clone, Copy, Debug, PartialEq, Eq, Structural)]
pub enum EnemyAnimationState {
    WalkUp,
    WalkDown,
    WalkLeft,
}

/// An enemy's three walking animations, the state picking the active one,
/// and whether the sheet needs horizontal flipping.
#[derive(Clone, Copy, Debug, PartialEq, Eq, Structural)]
pub struct EnemyAnimation {
    pub walk_up: AnimateSprite,
    pub walk_down: AnimateSprite,
    pub walk_left: AnimateSprite,
    pub state: EnemyAnimationState,
    pub need_flip: bool,
}

/// All three of an enemy's animation timers are well formed.
pub open spec fn enemy_anim_wf(a: EnemyAnimation) -> bool {
    &&& timer_wf(a.walk_up.timer)
    &&& timer_wf(a.walk_down.timer)
    &&& timer_wf(a.walk_left.timer)
}

impl Default for EnemyAnimation {
    /// Single-frame animations, walking left, no flip.
    fn default() -> (a: EnemyAnimation)
        ensures
            a.walk_up == spec_default_sprite(),
            a.walk_down == spec_default_sprite(),
            a.walk_left == spec_default_sprite(),
            a.state == EnemyAnimationState::WalkLeft,
            !a.need_flip,
            enemy_anim_wf(a),
    {
        EnemyAnimation {
            walk_up: AnimateSprite::default(),
            walk_down: AnimateSprite::default(),
            walk_left: AnimateSprite::default(),
            state: EnemyAnimationState::WalkLeft,
            need_flip: false,
        }
    }
}

impl EnemyAnimation {
    /// One frame range and timer for all three directions.
    pub fn make_all(first: usize, last: usize, timer: GameTimer) -> (a: EnemyAnimation)
        ensures
            a.walk_up == (AnimateSprite { first, last, timer }),
            a.walk_down == (AnimateSprite { first, last, timer }),
            a.walk_left == (AnimateSprite { first, last, timer }),
            a.state == EnemyAnimationState::WalkLeft,
            !a.need_flip,
    {
        EnemyAnimation {
            walk_up: AnimateSprite { first, last, timer },
            walk_down: AnimateSprite { first, last, timer },
            walk_left: AnimateSprite { first, last, timer },
            state: EnemyAnimationState::WalkLeft,
            need_flip: false,
        }
    }
}

/// The frame layout that a standard enemy sprite sheet has: walking up on
/// frames 0 to 3, left on 8 to 11, down on 12 to 15.
pub fn ideal_animation_values() -> (a: EnemyAnimation)
    ensures
        a.walk_up == (AnimateSprite { first: 0, last: 3, timer: spec_ideal_timer() }),
        a.walk_left == (AnimateSprite { first: 8, last: 11, timer: spec_ideal_timer() }),
        a.walk_down == (AnimateSprite { first: 12, last: 15, timer: spec_ideal_timer() }),
        a.state == EnemyAnimationState::WalkLeft,
        !a.need_flip,
        enemy_anim_wf(a),
{
    EnemyAnimation {
        walk_up: AnimateSprite { first: 0, last: 3, timer: ideal_time_per_frame() },
        walk_left: AnimateSprite { first: 8, last: 11, timer: ideal_time_per_frame() },
        walk_down: AnimateSprite { first: 12, last: 15, timer: ideal_time_per_frame() },
        state: EnemyAnimationState::WalkLeft,
        need_flip: false,
    }
}

/// An enemy sprite on screen: its current atlas frame and its animations.
#[derive(Clone, Copy, Debug, PartialEq, Eq, Structural)]
pub struct EnemySprite {
    pub atlas_index: usize,
    pub animation: EnemyAnimation,
}

/// What one tick does to an enemy sprite: only the active direction's
/// animation runs, and its beat advances the frame.
pub open spec fn spec_enemy_animated(s: EnemySprite, delta_ns: u64) -> EnemySprite {
    match s.animation.state {
        EnemyAnimationState::WalkUp => EnemySprite {
            atlas_index: spec_sprite_step(s.animation.walk_up, s.atlas_index, delta_ns).1
                as usize,
            animation: EnemyAnimation {
                walk_up: spec_sprite_step(s.animation.walk_up, s.atlas_index, delta_ns).0,
                ..s.animation
            },
        },
        EnemyAnimationState::WalkDown => EnemySprite {
            atlas_index: spec_sprite_step(s.animation.walk_down, s.atlas_index, delta_ns).1
                as usize,
            animation: EnemyAnimation {
                walk_down: spec_sprite_step(s.animation.walk_down, s.atlas_index, delta_ns).0,
                ..s.animation
            },
        },
        EnemyAnimationState::WalkLeft => EnemySprite {
            atlas_index: spec_sprite_step(s.animation.walk_left, s.atlas_index, delta_ns).1
                as usize,
            animation: EnemyAnimation {
                walk_left: spec_sprite_step(s.animation.walk_left, s.atlas_index, delta_ns).0,
                ..s.animation
            },
        },
    }
}

/// Animate one enemy sprite for a frame.
pub fn animate_enemy(s: &mut EnemySprite, delta_ns: u64)
    requires
        enemy_anim_wf(old(s).animation),
        delta_ns <= MAX_TIMER_NS,
    ensures
        *final(s) == spec_enemy_animated(*old(s), delta_ns),
        enemy_anim_wf(final(s).animation),
{
    match s.animation.state {
        EnemyAnimationState::WalkUp => {
            let idx = sprite_step(&mut s.animation.walk_up, s.atlas_index, delta_ns);
            s.atlas_index = idx;
        },
        EnemyAnimationState::WalkDown => {
            let idx = sprite_step(&mut s.animation.walk_down, s.atlas_index, delta_ns);
            s.atlas_index = idx;
        },
        EnemyAnimationState::WalkLeft => {
            let idx = sprite_step(&mut s.animation.walk_left, s.atlas_index, delta_ns);
            s.atlas_index = idx;
        },
    }
}

/// Animate every enemy sprite for a frame.
pub fn animate(sprites: &mut Vec<EnemySprite>, delta_ns: u64)
    requires
        forall|i: int| 0 <= i < old(sprites)@.len() ==> enemy_anim_wf(
            (#[trigger] old(sprites)@[i]).animation),
        delta_ns <= MAX_TIMER_NS,
    ensures
        final(sprites)@.len() == old(sprites)@.len(),
        forall|i: int| 0 <= i < final(sprites)@.len() ==> #[trigger] final(sprites)@[i]
            == spec_enemy_animated(old(sprites)@[i], delta_ns),
{
    let ghost sprites0 = sprites@;
    let n: usize = sprites.len();
    let mut i: usize = 0;
    while i < n
        invariant
            sprites0 == old(sprites)@,
            n == sprites0.len(),
            sprites@.len() == n,
            0 <= i <= n,
            delta_ns <= MAX_TIMER_NS,
            forall|j: int| 0 <= j < n as int ==> enemy_anim_wf(
                (#[trigger] sprites0[j]).animation),
            forall|j: int| (i as int) <= j < (n as int) ==> #[trigger] sprites@[j]
                == sprites0[j],
            forall|j: int| 0 <= j < i as int ==> #[trigger] sprites@[j]
                == spec_enemy_animated(sprites0[j], delta_ns),
        decreases n - i,
    {
        let mut s = sprites[i];
        animate_enemy(&mut s, delta_ns);
        sprites.set(i, s);
        i = i + 1;
    }
}

/// The player's two animations: running and standing.
#[derive(Clone, Copy, Debug, PartialEq, Eq, Structural)]
pub struct PlayerAnimations {
    pub running: AnimateSprite,
    pub idle: AnimateSprite,
}

impl Default for PlayerAnimations {
    /// The player sheet's layout: running on frames 6 to 11 at the standard
    /// pace, idling on 0 to 3 at the slow pace.
    fn default() -> (a: PlayerAnimations)
        ensures
            a.running == (AnimateSprite { first: 6, last: 11, timer: spec_ideal_timer() }),
            a.idle == (AnimateSprite {
                first: 0,
                last: 3,
                timer: GameTimer {
                    duration_ns: SLOW_FRAME_PERIOD_NS,
                    elapsed_ns: 0,
                    mode: TimerMode::Repeating,
                    paused: false,
                    just_finished: false,
                },
            }),
    {
        PlayerAnimations {
            running: AnimateSprite { first: 6, last: 11, timer: ideal_time_per_frame() },
            idle: AnimateSprite {
                first: 0,
                last: 3,
                timer: GameTimer::from_ns(SLOW_FRAME_PERIOD_NS, TimerMode::Repeating),
            },
        }
    }
}

/// The player sprite: its current atlas frame and its animations.
#[derive(Clone, Copy, Debug, PartialEq, Eq, Structural)]
pub struct PlayerSprite {
    pub atlas_index: usize,
    pub animations: PlayerAnimations,
}

/// What one tick does to the player sprite: the running animation plays
/// while some direction key is held, the idle one otherwise.
pub open spec fn spec_player_animated(s: PlayerSprite, moving: bool, delta_ns: u64)
    -> PlayerSprite {
    if moving {
        PlayerSprite {
            atlas_index: spec_sprite_step(s.animations.running, s.atlas_index, delta_ns).1
                as usize,
            animations: PlayerAnimations {
                running: spec_sprite_step(s.animations.running, s.atlas_index, delta_ns).0,
                ..s.animations
            },
        }
    } else {
        PlayerSprite {
            atlas_index: spec_sprite_step(s.animations.idle, s.atlas_index, delta_ns).1
                as usize,
            animations: PlayerAnimations {
                idle: spec_sprite_step(s.animations.idle, s.atlas_index, delta_ns).0,
                ..s.animations
            },
        }
    }
}

/// Animate the player sprite for a frame; `moving` is whether any direction
/// key is held.
pub fn animate_player(s: &mut PlayerSprite, moving: bool, delta_ns: u64)
    requires
        timer_wf(old(s).animations.running.timer),
        timer_wf(old(s).animations.idle.timer),
        delta_ns <= MAX_TIMER_NS,
    ensures
        *final(s) == spec_player_animated(*old(s), moving, delta_ns),
{
    if moving {
        let idx = sprite_step(&mut s.animations.running, s.atlas_index, delta_ns);
        s.atlas_index = idx;
    } else {
        let idx = sprite_step(&mut s.animations.idle, s.atlas_index, delta_ns);
        s.atlas_index = idx;
    }
}

/// What an orc is doing.
#[derive(Clone, Copy, Debug, PartialEq, Eq, Structural)]
pub enum OrcsAnimationState {
    Walk,
    Idle,
    Attack,
    Death,
}

/// An orc's four animations and the state picking the active one.
#[derive(Clone, Copy, Debug, PartialEq, Eq, Structural)]
pub struct OrcsAnimation {
    pub walk: AnimateSprite,
    pub idle: AnimateSprite,
    pub attack: AnimateSprite,
    pub death: AnimateSprite,
    pub state: OrcsAnimationState,
}

/// The slow frame timer as a value.
pub open spec fn spec_slow_timer() -> GameTimer {
    GameTimer {
        duration_ns: SLOW_FRAME_PERIOD_NS,
        elapsed_ns: 0,
        mode: TimerMode::Repeating,
        paused: false,
        just_finished: false,
    }
}

impl OrcsAnimation {
    /// The orc sheet's layout: walking on frames 0 to 7 and attacking on
    /// 0 to 6 at the standard pace; idling and dying on 0 to 4 at the slow
    /// pace. An orc starts out idle.
    pub fn set() -> (a: OrcsAnimation)
        ensures
            a.walk == (AnimateSprite { first: 0, last: 7, timer: spec_ideal_timer() }),
            a.idle == (AnimateSprite { first: 0, last: 4, timer: spec_slow_timer() }),
            a.attack == (AnimateSprite { first: 0, last: 6, timer: spec_ideal_timer() }),
            a.death == (AnimateSprite { first: 0, last: 4, timer: spec_slow_timer() }),
            a.state == OrcsAnimationState::Idle,
    {
        OrcsAnimation {
            walk: AnimateSprite { first: 0, last: 7, timer: ideal_time_per_frame() },
            idle: AnimateSprite {
                first: 0,
                last: 4,
                timer: GameTimer::from_ns(SLOW_FRAME_PERIOD_NS, TimerMode::Repeating),
            },
            attack: AnimateSprite { first: 0, last: 6, timer: ideal_time_per_frame() },
            death: AnimateSprite {
                first: 0,
                last: 4,
                timer: GameTimer::from_ns(SLOW_FRAME_PERIOD_NS, TimerMode::Repeating),
            },
            state: OrcsAnimationState::Idle,
        }
    }
}

/// An orc sprite: its current atlas frame and its animations.
#[derive(Clone, Copy, Debug, PartialEq, Eq, Structural)]
pub struct OrcSprite {
    pub atlas_index: usize,
    pub animation: OrcsAnimation,
}

/// What one tick does to an orc sprite: only the active state's animation
/// runs, and its beat advances the frame.
pub open spec fn spec_orc_animated(s: OrcSprite, delta_ns: u64) -> OrcSprite {
    match s.animation.state {
        OrcsAnimationState::Walk => OrcSprite {
            atlas_index: spec_sprite_step(s.animation.walk, s.atlas_index, delta_ns).1 as usize,
            animation: OrcsAnimation {
                walk: spec_sprite_step(s.animation.walk, s.atlas_index, delta_ns).0,
                ..s.animation
            },
        },
        OrcsAnimationState::Idle => OrcSprite {
            atlas_index: spec_sprite_step(s.animation.idle, s.atlas_index, delta_ns).1 as usize,
            animation: OrcsAnimation {
                idle: spec_sprite_step(s.animation.idle, s.atlas_index, delta_ns).0,
                ..s.animation
            },
        },
        OrcsAnimationState::Attack => OrcSprite {
            atlas_index: spec_sprite_step(s.animation.attack, s.atlas_index, delta_ns).1
                as usize,
            animation: OrcsAnimation {
                attack: spec_sprite_step(s.animation.attack, s.atlas_index, delta_ns).0,
                ..s.animation
            },
        },
        OrcsAnimationState::Death => OrcSprite {
            atlas_index: spec_sprite_step(s.animation.death, s.atlas_index, delta_ns).1
                as usize,
            animation: OrcsAnimation {
                death: spec_sprite_step(s.animation.death, s.atlas_index, delta_ns).0,
                ..s.animation
            },
        },
    }
}

/// Animate one orc sprite for a frame.
pub fn animate_orcs(s: &mut OrcSprite, delta_ns: u64)
    requires
        timer_wf(old(s).animation.walk.timer),
        timer_wf(old(s).animation.idle.timer),
        timer_wf(old(s).animation.attack.timer),
        timer_wf(old(s).animation.death.timer),
        delta_ns <= MAX_TIMER_NS,
    ensures
        *final(s) == spec_orc_animated(*old(s), delta_ns),
{
    match s.animation.state {
        OrcsAnimationState::Walk => {
            let idx = sprite_step(&mut s.animation.walk, s.atlas_index, delta_ns);
            s.atlas_index = idx;
        },
        OrcsAnimationState::Idle => {
            let idx = sprite_step(&mut s.animation.idle, s.atlas_index, delta_ns);
            s.atlas_index = idx;
        },
        OrcsAnimationState::Attack => {
            let idx = sprite_step(&mut s.animation.attack, s.atlas_index, delta_ns);
            s.atlas_index = idx;
        },
        OrcsAnimationState::Death => {
            let idx = sprite_step(&mut s.animation.death, s.atlas_index, delta_ns);
            s.atlas_index = idx;
        },
    }
}

} // verus!
