//! Wave scheduling: when enemies spawn, how tough each wave is, and when the
//! game switches between building and attacking.
//!
//! A wave sends up to twenty-five enemies of one kind, one every one and a
//! half seconds. Between waves the player gets fifteen seconds to build;
//! clearing a fully spawned wave starts that countdown, and its end starts
//! the next wave. Enemy life grows by 1.95 per wave from a base of 60,
//! rounded; the table below lists those rounded values for the seven kinds.

use vstd::prelude::*;

use crate::enemies::{EnemyUnit, SPAWN_X_LOCATION, SPAWN_Y_LOCATION};
use crate::geom::Point;
use crate::timer::{spec_tick, timer_wf, GameTimer, TimerMode, MAX_TIMER_NS};
use crate::towers::GameState;

verus! {

pub const MAX_ENEMIES_PER_WAVE: u8 = 25;

/// How many enemy kinds there are: one wave per kind.
pub const ENEMY_KIND_COUNT: u8 = 7;

pub const TIME_BETWEEN_WAVES_NS: u64 = 15_000_000_000;

pub const TIME_BETWEEN_SPAWNS_NS: u64 = 1_500_000_000;

pub const INITIAL_ENEMY_LIFE: u16 = 60;

/// The wave scheduler's state: which wave is running, how many enemies of it
/// have spawned, the spawn-interval timer, the between-waves countdown, and
/// whether the first wave has been started.
#[derive(Clone, Copy, Debug, PartialEq, Eq, Structural)]
pub struct WaveControl {
    pub wave_count: u8,
    pub time_between_spawns: GameTimer,
    pub spawned_count_in_wave: u8,
    pub time_between_waves: GameTimer,
    pub first_wave_spawned: bool,
}

/// The scheduler's invariant: the wave number never passes the number of
/// kinds (and sits at zero spawned once it has), the spawn counter stays
/// within a wave's size, and the two timers keep their fixed durations,
/// the spawn timer repeating and the countdown one-shot.
pub open spec fn wave_wf(wc: WaveControl) -> bool {
    &&& wc.wave_count <= ENEMY_KIND_COUNT
    &&& (wc.wave_count == ENEMY_KIND_COUNT ==> wc.spawned_count_in_wave == 0)
    &&& wc.spawned_count_in_wave <= MAX_ENEMIES_PER_WAVE
    &&& timer_wf(wc.time_between_spawns)
    &&& wc.time_between_spawns.mode == TimerMode::Repeating
    &&& wc.time_between_spawns.duration_ns == TIME_BETWEEN_SPAWNS_NS
    &&& timer_wf(wc.time_between_waves)
    &&& wc.time_between_waves.mode == TimerMode::Once
    &&& wc.time_between_waves.duration_ns == TIME_BETWEEN_WAVES_NS
}

impl WaveControl {
    /// The scheduler before the game starts: wave zero, nothing spawned,
    /// both timers running from zero.
    pub fn new() -> (wc: WaveControl)
        ensures
            wc == (WaveControl {
                wave_count: 0u8,
                time_between_spawns: GameTimer {
                    duration_ns: TIME_BETWEEN_SPAWNS_NS,
                    elapsed_ns: 0,
                    mode: TimerMode::Repeating,
                    paused: false,
                    just_finished: false,
                },
                spawned_count_in_wave: 0u8,
                time_between_waves: GameTimer {
                    duration_ns: TIME_BETWEEN_WAVES_NS,
                    elapsed_ns: 0,
                    mode: TimerMode::Once,
                    paused: false,
                    just_finished: false,
                },
                first_wave_spawned: false,
            }),
            wave_wf(wc),
    {
        WaveControl {
            wave_count: 0,
            time_between_spawns: GameTimer::from_ns(TIME_BETWEEN_SPAWNS_NS,
                TimerMode::Repeating),
            spawned_count_in_wave: 0,
            time_between_waves: GameTimer::from_ns(TIME_BETWEEN_WAVES_NS, TimerMode::Once),
            first_wave_spawned: false,
        }
    }
}

/// Life of an enemy of wave `w`: 60 grown by 1.95 per wave, rounded.
pub open spec fn spec_enemy_life(w: int) -> int {
    if w <= 0 { 60 }
    else if w == 1 { 117 }
    else if w == 2 { 228 }
    else if w == 3 { 445 }
    else if w == 4 { 868 }
    else if w == 5 { 1692 }
    else { 3299 }
}

/// The enemy life table, exactly `spec_enemy_life`.
pub fn enemy_life(wave: u8) -> (life: u16)
    requires
        wave < ENEMY_KIND_COUNT,
    ensures
        life == spec_enemy_life(wave as int),
{
    if wave == 0 { 60 }
    else if wave == 1 { 117 }
    else if wave == 2 { 228 }
    else if wave == 3 { 445 }
    else if wave == 4 { 868 }
    else if wave == 5 { 1692 }
    else { 3299 }
}

/// What one spawn tick does: once every kind's wave has run, nothing; else
/// the spawn timer advances, and on its beat — while the wave is not fully
/// spawned — one enemy of the current wave appears at the spawn point and
/// the between-waves countdown is reset and held paused.
pub open spec fn spec_spawn_wave(wc: WaveControl, delta_ns: u64) -> (WaveControl, Option<
    EnemyUnit,
>) {
    if wc.wave_count == ENEMY_KIND_COUNT {
        (wc, None)
    } else {
        let t1 = spec_tick(wc.time_between_spawns, delta_ns);
        if t1.just_finished && wc.spawned_count_in_wave < MAX_ENEMIES_PER_WAVE {
            (
                WaveControl {
                    time_between_spawns: t1,
                    time_between_waves: GameTimer {
                        elapsed_ns: 0,
                        just_finished: false,
                        paused: true,
                        ..wc.time_between_waves
                    },
                    spawned_count_in_wave: (wc.spawned_count_in_wave + 1) as u8,
                    ..wc
                },
                Some(EnemyUnit {
                    pos: Point { x: SPAWN_X_LOCATION, y: SPAWN_Y_LOCATION },
                    level: 0u8,
                    life: spec_enemy_life(wc.wave_count as int) as u16,
                }),
            )
        } else {
            (WaveControl { time_between_spawns: t1, ..wc }, None)
        }
    }
}

/// Advance the spawn timer and spawn at most one enemy of the running wave.
pub fn spawn_wave(wc: &mut WaveControl, delta_ns: u64) -> (spawned: Option<EnemyUnit>)
    requires
        wave_wf(*old(wc)),
        delta_ns <= MAX_TIMER_NS,
    ensures
        wave_wf(*final(wc)),
        *final(wc) == spec_spawn_wave(*old(wc), delta_ns).0,
        spawned == spec_spawn_wave(*old(wc), delta_ns).1,
{
    if wc.wave_count == ENEMY_KIND_COUNT {
        return None;
    }
    wc.time_between_spawns.tick(delta_ns);
    if wc.time_between_spawns.just_finished
        && wc.spawned_count_in_wave < MAX_ENEMIES_PER_WAVE {
        wc.time_between_waves.reset();
        wc.time_between_waves.pause();
        let life = enemy_life(wc.wave_count);
        wc.spawned_count_in_wave = wc.spawned_count_in_wave + 1;
        Some(EnemyUnit {
            pos: Point { x: SPAWN_X_LOCATION, y: SPAWN_Y_LOCATION },
            level: 0,
            life,
        })
    } else {
        None
    }
}

/// What one control tick does: the between-waves countdown advances. Its
/// first run ends on the first wave's start (the countdown is then reset and
/// held). Once a fully spawned wave is cleared, a held countdown is released
/// to run the build phase, and the countdown's end starts the next wave.
pub open spec fn spec_wave_control(wc: WaveControl, delta_ns: u64, all_killed: bool) -> (
    WaveControl,
    Option<GameState>,
) {
    let fully = wc.spawned_count_in_wave == MAX_ENEMIES_PER_WAVE;
    let t1 = spec_tick(wc.time_between_waves, delta_ns);
    let started = !wc.first_wave_spawned && t1.just_finished;
    let wc1 = if started {
        WaveControl {
            time_between_waves: GameTimer { elapsed_ns: 0, just_finished: false, paused: true, ..t1 },
            first_wave_spawned: true,
            ..wc
        }
    } else {
        WaveControl { time_between_waves: t1, ..wc }
    };
    let n1 = if started { Some(GameState::Attacking) } else { None::<GameState> };
    if fully && all_killed {
        let held = wc1.time_between_waves.paused;
        let wc2 = if held {
            WaveControl {
                time_between_waves: GameTimer {
                    elapsed_ns: 0,
                    just_finished: false,
                    paused: false,
                    ..wc1.time_between_waves
                },
                ..wc1
            }
        } else {
            wc1
        };
        let n2 = if held { Some(GameState::Building) } else { n1 };
        if wc2.time_between_waves.just_finished {
            (
                WaveControl {
                    spawned_count_in_wave: 0u8,
                    wave_count: (wc2.wave_count + 1) as u8,
                    ..wc2
                },
                Some(GameState::Attacking),
            )
        } else {
            (wc2, n2)
        }
    } else {
        (wc1, n1)
    }
}

/// Advance the between-waves countdown and decide the phase change, if any:
/// the first wave's start, the switch to building after a cleared wave, or
/// the start of the next wave.
pub fn wave_control(wc: &mut WaveControl, delta_ns: u64, all_enemies_killed: bool) -> (next:
    Option<GameState>)
    requires
        wave_wf(*old(wc)),
        delta_ns <= MAX_TIMER_NS,
    ensures
        wave_wf(*final(wc)),
        *final(wc) == spec_wave_control(*old(wc), delta_ns, all_enemies_killed).0,
        next == spec_wave_control(*old(wc), delta_ns, all_enemies_killed).1,
{
    let wave_fully_spawned = wc.spawned_count_in_wave == MAX_ENEMIES_PER_WAVE;
    wc.time_between_waves.tick(delta_ns);
    let mut next: Option<GameState> = None;
    if !wc.first_wave_spawned {
        if wc.time_between_waves.just_finished {
            next = Some(GameState::Attacking);
            wc.time_between_waves.pause();
            wc.time_between_waves.reset();
            wc.first_wave_spawned = true;
        }
    }
    if wave_fully_spawned && all_enemies_killed {
        if wc.time_between_waves.paused {
            wc.time_between_waves.unpause();
            wc.time_between_waves.reset();
            next = Some(GameState::Building);
        }
        if wc.time_between_waves.just_finished {
            wc.spawned_count_in_wave = 0;
            wc.wave_count = wc.wave_count + 1;
            next = Some(GameState::Attacking);
        }
    }
    next
}

} // verus!
