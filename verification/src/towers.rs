//! Tower building: the game's phases, the player's gold and lives, the three
//! tower kinds with their cost / damage / attack-period tables, the fifteen
//! build spots, and the rules for buying and upgrading towers.
//!
//! Costs and damage follow fixed growth rules — cost grows by 1.3 per level
//! from a per-kind base, damage by 1.8, the attack period shrinks by 0.85 —
//! rounded to the nearest whole number; the tables below list those rounded
//! values outright so that every contract is exact integer data.

use vstd::prelude::*;

use crate::geom::{in_world, Point};
use crate::timer::{timer_wf, GameTimer, TimerMode};

verus! {

/// The phase the game is in.
#[derive(Clone, Copy, Debug, PartialEq, Eq, Structural)]
pub enum GameState {
    Building,
    Attacking,
    GameOver,
    Start,
    HowToPlay,
}

impl Default for GameState {
    /// The game opens on the start screen.
    fn default() -> (s: GameState)
        ensures
            s == GameState::Start,
    {
        GameState::Start
    }
}

/// The player's gold.
#[derive(Clone, Copy, Debug, PartialEq, Eq, Structural)]
pub struct Gold(pub u16);

/// The player's remaining lives.
#[derive(Clone, Copy, Debug, PartialEq, Eq, Structural)]
pub struct Lifes(pub u8);

pub const INITIAL_PLAYER_GOLD: u16 = 95;

pub const MAX_LIFES: u8 = 30;

/// Attack range of every tower, in tenths of a pixel (250 pixels).
pub const TOWER_ATTACK_RANGE: i64 = 2500;

/// Squared attack range, for squared-distance comparisons.
pub const TOWER_ATTACK_RANGE_SQ: i64 = 6_250_000;

/// Half-width of a build spot's click zone, in tenths of a pixel (32 pixels).
pub const PLACEMENT_RANGE: i64 = 320;

/// Number of build spots on the map.
pub const PLACEMENT_COUNT: usize = 15;

/// The three tower kinds. Each can be upgraded to level 3.
#[derive(Clone, Copy, Debug, PartialEq, Eq, Structural, Hash)]
pub enum TowerType {
    Lich,
    Zigurat,
    Necro,
}

/// The tower kind the player currently has selected for buying.
#[derive(Clone, Copy, Debug, PartialEq, Eq, Structural)]
pub struct SelectedTowerType(pub TowerType);

/// The stats of a placed tower.
#[derive(Clone, Copy, Debug, PartialEq, Eq, Structural)]
pub struct TowerInfo {
    pub attack_damage: u16,
    pub attack_speed: GameTimer,
    pub level: u8,
    pub tower_type: TowerType,
}

/// Cost of a tower of kind `t` at `level` (1 to 3): the per-kind base,
/// grown by 1.3 per level past the first and rounded.
pub open spec fn spec_cost(t: TowerType, level: int) -> int {
    match t {
        TowerType::Lich => if level == 1 { 40 } else if level == 2 { 68 } else { 88 },
        TowerType::Zigurat => if level == 1 { 100 } else if level == 2 { 169 } else { 220 },
        TowerType::Necro => if level == 1 { 180 } else if level == 2 { 304 } else { 395 },
    }
}

/// Damage of a tower of kind `t` at `level` (1 to 3): the per-kind base
/// grown by 1.8 per level, rounded, and capped at 500.
pub open spec fn spec_damage(t: TowerType, level: int) -> int {
    match t {
        TowerType::Lich => if level == 1 { 27 } else if level == 2 { 49 } else { 87 },
        TowerType::Zigurat => if level == 1 { 72 } else if level == 2 { 130 } else { 233 },
        TowerType::Necro => if level == 1 { 270 } else if level == 2 { 486 } else { 500 },
    }
}

/// Attack period of a tower of kind `t` at `level` (1 to 3), in nanoseconds:
/// the per-kind base shrunk by 0.85 per level.
pub open spec fn spec_period_ns(t: TowerType, level: int) -> int {
    match t {
        TowerType::Lich => if level == 1 { 425_000_000 } else if level == 2 {
            361_250_000
        } else {
            307_062_500
        },
        TowerType::Zigurat => if level == 1 { 340_000_000 } else if level == 2 {
            289_000_000
        } else {
            245_650_000
        },
        TowerType::Necro => if level == 1 { 1_020_000_000 } else if level == 2 {
            867_000_000
        } else {
            736_950_000
        },
    }
}

/// A placed tower's stats are exactly the table row for its kind and level,
/// with a well-formed repeating attack timer of the table's period.
pub open spec fn tower_info_wf(info: TowerInfo) -> bool {
    &&& 1 <= info.level <= 3
    &&& info.attack_damage == spec_damage(info.tower_type, info.level as int)
    &&& timer_wf(info.attack_speed)
    &&& info.attack_speed.duration_ns == spec_period_ns(info.tower_type, info.level as int)
    &&& info.attack_speed.mode == TimerMode::Repeating
}

impl TowerType {
    /// Price of this tower kind at the given level.
    pub fn to_cost(&self, level: u8) -> (c: u16)
        requires
            1 <= level <= 3,
        ensures
            c == spec_cost(*self, level as int),
    {
        match self {
            TowerType::Lich => if level == 1 { 40 } else if level == 2 { 68 } else { 88 },
            TowerType::Zigurat => if level == 1 { 100 } else if level == 2 { 169 } else { 220 },
            TowerType::Necro => if level == 1 { 180 } else if level == 2 { 304 } else { 395 },
        }
    }

    /// Stats for a fresh tower of this kind at the given level.
    pub fn to_tower_data(&self, level: u8) -> (info: TowerInfo)
        requires
            1 <= level <= 3,
        ensures
            tower_info_wf(info),
            info.tower_type == *self,
            info.level == level,
            info.attack_speed.elapsed_ns == 0,
            !info.attack_speed.paused,
            !info.attack_speed.just_finished,
    {
        let damage: u16 = match self {
            TowerType::Lich => if level == 1 { 27 } else if level == 2 { 49 } else { 87 },
            TowerType::Zigurat => if level == 1 { 72 } else if level == 2 { 130 } else { 233 },
            TowerType::Necro => if level == 1 { 270 } else if level == 2 { 486 } else { 500 },
        };
        let period_ns: u64 = match self {
            TowerType::Lich => if level == 1 { 425_000_000 } else if level == 2 {
                361_250_000
            } else {
                307_062_500
            },
            TowerType::Zigurat => if level == 1 { 340_000_000 } else if level == 2 {
                289_000_000
            } else {
                245_650_000
            },
            TowerType::Necro => if level == 1 { 1_020_000_000 } else if level == 2 {
                867_000_000
            } else {
                736_950_000
            },
        };
        TowerInfo {
            attack_damage: damage,
            attack_speed: GameTimer::from_ns(period_ns, TimerMode::Repeating),
            level,
            tower_type: *self,
        }
    }
}

/// Change the selected tower kind from the keys pressed this frame.
/// Later keys in the Z, E, L order win when several are down at once.
pub fn select_tower_type(
    selected: &mut SelectedTowerType,
    pressed_z: bool,
    pressed_e: bool,
    pressed_l: bool,
)
    ensures
        final(selected).0 == if pressed_l { TowerType::Lich } else if pressed_e {
            TowerType::Necro
        } else if pressed_z {
            TowerType::Zigurat
        } else {
            old(selected).0
        },
{
    if pressed_z {
        selected.0 = TowerType::Zigurat;
    }
    if pressed_e {
        selected.0 = TowerType::Necro;
    }
    if pressed_l {
        selected.0 = TowerType::Lich;
    }
}

/// Where build spot `i` sits in the world, in tenths of a pixel.
pub open spec fn spec_placement_pos(i: int) -> Point {
    if i == 0 { Point { x: 170i64, y: -640i64 } }
    else if i == 1 { Point { x: -1120i64, y: -640i64 } }
    else if i == 2 { Point { x: 1440i64, y: -640i64 } }
    else if i == 3 { Point { x: -2060i64, y: 1900i64 } }
    else if i == 4 { Point { x: -3350i64, y: 1900i64 } }
    else if i == 5 { Point { x: -4640i64, y: 1900i64 } }
    else if i == 6 { Point { x: -2400i64, y: -3200i64 } }
    else if i == 7 { Point { x: -1120i64, y: -3200i64 } }
    else if i == 8 { Point { x: 170i64, y: -3200i64 } }
    else if i == 9 { Point { x: 1445i64, y: -3200i64 } }
    else if i == 10 { Point { x: 2725i64, y: -3200i64 } }
    else if i == 11 { Point { x: 4000i64, y: -270i64 } }
    else if i == 12 { Point { x: 5600i64, y: -270i64 } }
    else if i == 13 { Point { x: 4000i64, y: 1900i64 } }
    else { Point { x: 5600i64, y: 1900i64 } }
}

/// Build spot positions, exactly the table of `spec_placement_pos`.
pub fn placement_position(i: usize) -> (p: Point)
    requires
        i < PLACEMENT_COUNT,
    ensures
        p == spec_placement_pos(i as int),
        in_world(p),
{
    if i == 0 { Point { x: 170i64, y: -640i64 } }
    else if i == 1 { Point { x: -1120i64, y: -640i64 } }
    else if i == 2 { Point { x: 1440i64, y: -640i64 } }
    else if i == 3 { Point { x: -2060i64, y: 1900i64 } }
    else if i == 4 { Point { x: -3350i64, y: 1900i64 } }
    else if i == 5 { Point { x: -4640i64, y: 1900i64 } }
    else if i == 6 { Point { x: -2400i64, y: -3200i64 } }
    else if i == 7 { Point { x: -1120i64, y: -3200i64 } }
    else if i == 8 { Point { x: 170i64, y: -3200i64 } }
    else if i == 9 { Point { x: 1445i64, y: -3200i64 } }
    else if i == 10 { Point { x: 2725i64, y: -3200i64 } }
    else if i == 11 { Point { x: 4000i64, y: -270i64 } }
    else if i == 12 { Point { x: 5600i64, y: -270i64 } }
    else if i == 13 { Point { x: 4000i64, y: 1900i64 } }
    else { Point { x: 5600i64, y: 1900i64 } }
}

/// Whether the cursor lies in the square click zone of build spot `i`.
pub open spec fn spec_in_zone(cursor: Point, i: int) -> bool {
    let p = spec_placement_pos(i);
    &&& p.x - PLACEMENT_RANGE <= cursor.x <= p.x + PLACEMENT_RANGE
    &&& p.y - PLACEMENT_RANGE <= cursor.y <= p.y + PLACEMENT_RANGE
}

/// How a build spot is highlighted while the player hovers the map.
#[derive(Clone, Copy, Debug, PartialEq, Eq, Structural)]
pub enum ZoneColor {
    /// Green: hovered and affordable.
    CanBuild,
    /// Red: hovered but the player lacks the gold.
    TooExpensive,
    /// Transparent: not hovered.
    Hidden,
}

/// The highlight a spot gets, from hover and affordability.
pub open spec fn spec_zone_color(hovered: bool, affordable: bool) -> ZoneColor {
    if hovered && affordable {
        ZoneColor::CanBuild
    } else if hovered {
        ZoneColor::TooExpensive
    } else {
        ZoneColor::Hidden
    }
}

/// Whether a click right now buys a tower at spot `i`: the cursor is over the
/// spot, the spot is free, the button was pressed, and the gold suffices for
/// a level-1 tower of the selected kind.
pub open spec fn spec_buy_eligible(
    placements: Seq<u8>,
    gold: int,
    cursor: Point,
    clicked: bool,
    t: TowerType,
    i: int,
) -> bool {
    &&& spec_in_zone(cursor, i)
    &&& placements[i] == 0
    &&& clicked
    &&& gold >= spec_cost(t, 1)
}

/// Scan the build spots in order, recolouring each visited spot's highlight,
/// and buy a level-1 tower of the selected kind at the first eligible spot.
/// The scan stops at the spot that was bought, so later spots keep the
/// highlight they already had.
pub fn buy_tower(
    placements: &mut Vec<u8>,
    zone_colors: &mut Vec<ZoneColor>,
    gold: &mut Gold,
    cursor: Point,
    clicked: bool,
    selected: &SelectedTowerType,
) -> (bought: Option<usize>)
    requires
        old(placements)@.len() == PLACEMENT_COUNT,
        old(zone_colors)@.len() == PLACEMENT_COUNT,
    ensures
        final(placements)@.len() == PLACEMENT_COUNT,
        final(zone_colors)@.len() == PLACEMENT_COUNT,
        match bought {
            None => {
                &&& forall|i: int| 0 <= i < PLACEMENT_COUNT as int ==> !spec_buy_eligible(
                    old(placements)@, old(gold).0 as int, cursor, clicked, selected.0, i)
                &&& final(placements)@ == old(placements)@
                &&& final(gold).0 == old(gold).0
                &&& forall|i: int| 0 <= i < PLACEMENT_COUNT as int ==> final(zone_colors)@[i]
                    == spec_zone_color(spec_in_zone(cursor, i),
                        old(gold).0 >= spec_cost(selected.0, 1))
            },
            Some(i) => {
                &&& i < PLACEMENT_COUNT
                &&& spec_buy_eligible(old(placements)@, old(gold).0 as int, cursor, clicked,
                    selected.0, i as int)
                &&& forall|j: int| 0 <= j < i as int ==> !spec_buy_eligible(
                    old(placements)@, old(gold).0 as int, cursor, clicked, selected.0, j)
                &&& final(placements)@ == old(placements)@.update(i as int, 1u8)
                &&& final(gold).0 == old(gold).0 - spec_cost(selected.0, 1)
                &&& forall|j: int| 0 <= j <= i as int ==> final(zone_colors)@[j]
                    == spec_zone_color(spec_in_zone(cursor, j),
                        old(gold).0 >= spec_cost(selected.0, 1))
                &&& forall|j: int| (i as int) < j < (PLACEMENT_COUNT as int)
                    ==> final(zone_colors)@[j] == old(zone_colors)@[j]
            },
        },
{
    let tower_cost: u16 = selected.0.to_cost(1);
    let mut i: usize = 0;
    while i < PLACEMENT_COUNT
        invariant
            placements@.len() == PLACEMENT_COUNT,
            zone_colors@.len() == PLACEMENT_COUNT,
            0 <= i <= PLACEMENT_COUNT,
            tower_cost == spec_cost(selected.0, 1),
            placements@ == old(placements)@,
            gold.0 == old(gold).0,
            forall|j: int| 0 <= j < i as int ==> !spec_buy_eligible(
                old(placements)@, old(gold).0 as int, cursor, clicked, selected.0, j),
            forall|j: int| 0 <= j < i as int ==> zone_colors@[j]
                == spec_zone_color(spec_in_zone(cursor, j), old(gold).0 >= spec_cost(selected.0, 1)),
            forall|j: int| (i as int) <= j < (PLACEMENT_COUNT as int)
                ==> zone_colors@[j] == old(zone_colors)@[j],
        decreases PLACEMENT_COUNT - i,
    {
        let placement = placement_position(i);
        let in_range = cursor.x >= placement.x - PLACEMENT_RANGE
            && cursor.x <= placement.x + PLACEMENT_RANGE
            && cursor.y >= placement.y - PLACEMENT_RANGE
            && cursor.y <= placement.y + PLACEMENT_RANGE;
        let affordable = gold.0 >= tower_cost;
        zone_colors.set(i, if in_range && affordable {
            ZoneColor::CanBuild
        } else if in_range {
            ZoneColor::TooExpensive
        } else {
            ZoneColor::Hidden
        });
        if in_range && placements[i] == 0 && clicked && affordable {
            placements.set(i, 1);
            gold.0 = gold.0 - tower_cost;
            return Some(i);
        }
        i = i + 1;
    }
    None
}

/// Clear every build spot's highlight, as the attack phase does on entry.
pub fn reset_hover_color_in_attacking(zone_colors: &mut Vec<ZoneColor>)
    ensures
        final(zone_colors)@.len() == old(zone_colors)@.len(),
        forall|i: int| 0 <= i < final(zone_colors)@.len() ==> final(zone_colors)@[i]
            == ZoneColor::Hidden,
{
    let n: usize = zone_colors.len();
    let mut i: usize = 0;
    while i < n
        invariant
            zone_colors@.len() == n,
            0 <= i <= n,
            forall|j: int| 0 <= j < i as int ==> zone_colors@[j] == ZoneColor::Hidden,
        decreases n - i,
    {
        zone_colors.set(i, ZoneColor::Hidden);
        i = i + 1;
    }
}

/// A placed tower: where it stands and its stats.
#[derive(Clone, Copy, Debug, PartialEq, Eq, Structural)]
pub struct TowerUnit {
    pub pos: Point,
    pub info: TowerInfo,
}

/// Whether the cursor lies inside an axis-aligned box of the given width and
/// height centred on `entity_pos`.
pub open spec fn spec_cursor_over(
    entity_pos: Point,
    size_x: i64,
    size_y: i64,
    cursor_pos: Point,
) -> bool {
    &&& entity_pos.x - size_x / 2 <= cursor_pos.x <= entity_pos.x + size_x / 2
    &&& entity_pos.y - size_y / 2 <= cursor_pos.y <= entity_pos.y + size_y / 2
}

/// Cursor hit test against a centred box, sizes in tenths of a pixel.
pub fn is_cursor_over_entity(
    entity_pos: Point,
    size_x: i64,
    size_y: i64,
    cursor_pos: Point,
) -> (r: bool)
    requires
        in_world(entity_pos),
        0 <= size_x <= 100_000,
        0 <= size_y <= 100_000,
    ensures
        r == spec_cursor_over(entity_pos, size_x, size_y, cursor_pos),
{
    let half_x: i64 = size_x / 2;
    let half_y: i64 = size_y / 2;
    cursor_pos.x >= entity_pos.x - half_x && cursor_pos.x <= entity_pos.x + half_x
        && cursor_pos.y >= entity_pos.y - half_y && cursor_pos.y <= entity_pos.y + half_y
}

/// Width and height of a tower's hover box, in tenths of a pixel
/// (the sprite's default 64-pixel square).
pub const TOWER_HOVER_SIZE: i64 = 640;

/// The stats table row as a value: what a fresh tower of kind `t` at `level`
/// holds, including its just-started repeating attack timer.
pub open spec fn spec_tower_data(t: TowerType, level: int) -> TowerInfo {
    TowerInfo {
        attack_damage: spec_damage(t, level) as u16,
        attack_speed: GameTimer {
            duration_ns: spec_period_ns(t, level) as u64,
            elapsed_ns: 0,
            mode: TimerMode::Repeating,
            paused: false,
            just_finished: false,
        },
        level: level as u8,
        tower_type: t,
    }
}

/// One step of the upgrade scan over the tower at position `n - 1`:
/// a hovered tower at the level cap stops the scan; a hovered tower below
/// the cap is upgraded one level if the button is down and the gold covers
/// the next level's price.
pub open spec fn spec_upgrade_upto(
    ts: Seq<TowerUnit>,
    gold: int,
    cursor: Point,
    clicked: bool,
    n: int,
) -> (Seq<TowerUnit>, int, bool)
    decreases n,
{
    if n <= 0 {
        (ts, gold, false)
    } else {
        let prev = spec_upgrade_upto(ts, gold, cursor, clicked, n - 1);
        if prev.2 {
            prev
        } else {
            let t = prev.0[n - 1];
            if spec_cursor_over(t.pos, TOWER_HOVER_SIZE, TOWER_HOVER_SIZE, cursor) {
                if t.info.level == 3 {
                    (prev.0, prev.1, true)
                } else {
                    let cost = spec_cost(t.info.tower_type, t.info.level + 1);
                    if clicked && prev.1 >= cost {
                        (
                            prev.0.update(n - 1, TowerUnit {
                                pos: t.pos,
                                info: spec_tower_data(t.info.tower_type, t.info.level + 1),
                            }),
                            prev.1 - cost,
                            false,
                        )
                    } else {
                        prev
                    }
                }
            } else {
                prev
            }
        }
    }
}

/// Once the upgrade scan has stopped, later steps change nothing.
proof fn lemma_upgrade_stop(
    ts: Seq<TowerUnit>,
    gold: int,
    cursor: Point,
    clicked: bool,
    k: int,
    n: int,
)
    requires
        0 <= k <= n,
        spec_upgrade_upto(ts, gold, cursor, clicked, k).2,
    ensures
        spec_upgrade_upto(ts, gold, cursor, clicked, n) == spec_upgrade_upto(
            ts, gold, cursor, clicked, k),
    decreases n - k,
{
    if n > k {
        lemma_upgrade_stop(ts, gold, cursor, clicked, k, n - 1);
    }
}

/// Scan the placed towers in order and upgrade the hovered ones: each hovered
/// tower below the level cap is raised one level when the button is down and
/// the gold covers the price; a hovered tower already at level 3 ends the
/// scan. Returns whether the scan was ended that way.
pub fn upgrade_tower(
    towers: &mut Vec<TowerUnit>,
    gold: &mut Gold,
    cursor: Point,
    clicked: bool,
) -> (stopped: bool)
    requires
        forall|i: int| 0 <= i < old(towers)@.len() ==> tower_info_wf(
            (#[trigger] old(towers)@[i]).info) && in_world(old(towers)@[i].pos),
    ensures
        (final(towers)@, final(gold).0 as int, stopped) == spec_upgrade_upto(
            old(towers)@, old(gold).0 as int, cursor, clicked, old(towers)@.len() as int),
        forall|i: int| 0 <= i < final(towers)@.len() ==> tower_info_wf(
            (#[trigger] final(towers)@[i]).info) && in_world(final(towers)@[i].pos),
{
    let ghost ts0 = towers@;
    let ghost gold0 = gold.0 as int;
    let n: usize = towers.len();
    let mut i: usize = 0;
    while i < n
        invariant
            ts0 == old(towers)@,
            gold0 == old(gold).0 as int,
            n == ts0.len(),
            towers@.len() == n,
            0 <= i <= n,
            spec_upgrade_upto(ts0, gold0, cursor, clicked, i as int) == (
                towers@, gold.0 as int, false),
            forall|j: int| 0 <= j < n as int ==> tower_info_wf((#[trigger] towers@[j]).info)
                && in_world(towers@[j].pos),
        decreases n - i,
    {
        let hovered = is_cursor_over_entity(
            towers[i].pos, TOWER_HOVER_SIZE, TOWER_HOVER_SIZE, cursor);
        if hovered {
            if towers[i].info.level == 3 {
                proof {
                    assert(spec_upgrade_upto(ts0, gold0, cursor, clicked, i as int + 1)
                        == (towers@, gold.0 as int, true));
                    lemma_upgrade_stop(ts0, gold0, cursor, clicked, i as int + 1, n as int);
                }
                return true;
            }
            let next_level: u8 = towers[i].info.level + 1;
            let tower_type = towers[i].info.tower_type;
            let tower_cost: u16 = tower_type.to_cost(next_level);
            if clicked && gold.0 >= tower_cost {
                let pos = towers[i].pos;
                let new_info = tower_type.to_tower_data(next_level);
                proof {
                    assert(new_info == spec_tower_data(tower_type, next_level as int));
                }
                towers.set(i, TowerUnit { pos, info: new_info });
                gold.0 = gold.0 - tower_cost;
            }
        }
        i = i + 1;
    }
    false
}

} // verus!
