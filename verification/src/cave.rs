//! The cave map's tile layout.
//!
//! The cave is a thirty-column strip: two rows of plain ceiling, two rows of
//! textured wall, six rows of floor, walled in on both sides and below.
//! Rows of textured wall and floor pick one of two sprite variants at
//! random; everything but the floor is solid and carries a collider.

use vstd::prelude::*;

use rand::Rng;

use crate::geom::{in_world, Point};

verus! {

/// Marker for solid tiles the player cannot walk through.
pub struct Collider;

#[derive(Clone, Copy, Debug, PartialEq, Eq, Structural)]
pub enum CaveTileType {
    Floor,
    Wall,
}

/// Width and height of one scaled cave tile, in tenths of a pixel
/// (a 16-pixel tile at three times scale).
pub const CAVE_TILE_SIZE: i64 = 480;

/// Number of tile columns in the cave.
pub const CAVE_WIDTH: usize = 30;

/// Number of tile rows in the cave.
pub const CAVE_ROWS: usize = 10;

/// Height of the cave's top row, in tenths of a pixel.
pub const CAVE_START_Y: i64 = 500;

/// One laid-out cave tile: where it sits, what it is, whether it is solid,
/// and which atlas sprite it shows.
#[derive(Clone, Copy, Debug, PartialEq, Eq, Structural)]
pub struct CaveTile {
    pub pos: Point,
    pub tile_type: CaveTileType,
    pub solid: bool,
    pub atlas_index: u32,
}

/// The base atlas sprite of row `y`: plain ceiling on the top two rows,
/// textured wall on the next two, floor below.
pub open spec fn spec_tile_index(y: int) -> int {
    if y == 0 { 0 }
    else if y == 1 { 2 }
    else if y == 2 { 4 }
    else if y == 3 { 6 }
    else { 8 }
}

/// Which atlas sprites a tile with base `ti` may show: the base itself for
/// the plain rows, the base or its neighbour for the textured wall rows,
/// one of the two floor sprites for floor rows.
pub open spec fn spec_variant_ok(ti: int, v: int) -> bool {
    if ti < 4 {
        v == ti
    } else if ti < 8 {
        ti <= v <= ti + 1
    } else {
        8 <= v <= 9
    }
}

/// Relies on `rand::Rng::random_range` over `0..n` on the thread rng: it
/// panics only on an empty range and returns a value below `n`; nothing
/// more is assumed of the draw.
#[verifier::external_body]
fn rand_below(n: u32) -> (r: u32)
    requires
        1 <= n,
    ensures
        r < n,
{
    rand::rng().random_range(0..n)
}

/// The base atlas sprite of row `y`, exactly `spec_tile_index`.
fn tile_index(y: usize) -> (ti: u32)
    ensures
        ti as int == spec_tile_index(y as int),
{
    if y == 0 { 0 }
    else if y == 1 { 2 }
    else if y == 2 { 4 }
    else if y == 3 { 6 }
    else { 8 }
}

/// Lay out the whole cave: the thirty-by-ten tile grid in column-major
/// order (index `x * 10 + y`), then ten left-wall and ten right-wall tiles,
/// then the thirty tiles walling the cave off below. Solid tiles are
/// exactly those whose row is not floor, plus every boundary wall; random
/// variants stay within each row's allowed sprites.
pub fn spawn_cave_tile_map() -> (r: Vec<CaveTile>)
    ensures
        r@.len() == 350,
        forall|i: int| 0 <= i < 350 ==> in_world((#[trigger] r@[i]).pos),
        forall|i: int| 0 <= i < 300 ==> {
            &&& (#[trigger] r@[i]).pos.x == 480 * (i / 10)
            &&& r@[i].pos.y == 500 - 480 * (i % 10)
            &&& (r@[i].solid <==> spec_tile_index(i % 10) < 8)
            &&& (r@[i].tile_type == CaveTileType::Wall <==> spec_tile_index(i % 10) < 8)
            &&& spec_variant_ok(spec_tile_index(i % 10), r@[i].atlas_index as int)
        },
        forall|i: int| 300 <= i < 320 ==> {
            &&& (#[trigger] r@[i]).pos.x == if i < 310 { -480int } else { 14400int }
            &&& r@[i].pos.y == 500 - 480 * ((i - 300) % 10)
            &&& r@[i].solid
            &&& r@[i].tile_type == CaveTileType::Wall
            &&& 4 <= r@[i].atlas_index <= 5
        },
        forall|i: int| 320 <= i < 350 ==> {
            &&& (#[trigger] r@[i]).pos.x == 480 * (i - 320)
            &&& r@[i].pos.y == -4300
            &&& r@[i].solid
            &&& r@[i].tile_type == CaveTileType::Wall
            &&& 4 <= r@[i].atlas_index <= 5
        },
{
    let mut tiles: Vec<CaveTile> = Vec::new();

    // The tile grid, column by column.
    let mut i: usize = 0;
    while i < 300
        invariant
            tiles@.len() == i as int,
            0 <= i <= 300,
            forall|j: int| 0 <= j < i as int ==> {
                &&& (#[trigger] tiles@[j]).pos.x == 480 * (j / 10)
                &&& tiles@[j].pos.y == 500 - 480 * (j % 10)
                &&& (tiles@[j].solid <==> spec_tile_index(j % 10) < 8)
                &&& (tiles@[j].tile_type == CaveTileType::Wall <==> spec_tile_index(j % 10) < 8)
                &&& spec_variant_ok(spec_tile_index(j % 10), tiles@[j].atlas_index as int)
                &&& in_world(tiles@[j].pos)
            },
        decreases 300 - i,
    {
        let x: usize = i / 10;
        let y: usize = i % 10;
        let ti = tile_index(y);
        let variant: u32 = if ti < 4 {
            ti
        } else if ti < 8 {
            ti + rand_below(2)
        } else {
            8 + rand_below(2)
        };
        let is_solid = ti < 8;
        tiles.push(CaveTile {
            pos: Point { x: 480 * (x as i64), y: 500 - 480 * (y as i64) },
            tile_type: if is_solid { CaveTileType::Wall } else { CaveTileType::Floor },
            solid: is_solid,
            atlas_index: variant,
        });
        i = i + 1;
    }

    // The side walls: ten tiles left of the first column, ten right of the
    // last.
    let mut s: usize = 0;
    while s < 20
        invariant
            tiles@.len() == 300 + s as int,
            0 <= s <= 20,
            forall|j: int| 0 <= j < 300 ==> {
                &&& (#[trigger] tiles@[j]).pos.x == 480 * (j / 10)
                &&& tiles@[j].pos.y == 500 - 480 * (j % 10)
                &&& (tiles@[j].solid <==> spec_tile_index(j % 10) < 8)
                &&& (tiles@[j].tile_type == CaveTileType::Wall <==> spec_tile_index(j % 10) < 8)
                &&& spec_variant_ok(spec_tile_index(j % 10), tiles@[j].atlas_index as int)
                &&& in_world(tiles@[j].pos)
            },
            forall|j: int| 300 <= j < 300 + s as int ==> {
                &&& (#[trigger] tiles@[j]).pos.x == if j < 310 { -480int } else { 14400int }
                &&& tiles@[j].pos.y == 500 - 480 * ((j - 300) % 10)
                &&& tiles@[j].solid
                &&& tiles@[j].tile_type == CaveTileType::Wall
                &&& 4 <= tiles@[j].atlas_index <= 5
                &&& in_world(tiles@[j].pos)
            },
        decreases 20 - s,
    {
        let row: usize = s % 10;
        let wall_x: i64 = if s < 10 { -480 } else { 14400 };
        let variant: u32 = 4 + rand_below(2);
        tiles.push(CaveTile {
            pos: Point { x: wall_x, y: 500 - 480 * (row as i64) },
            tile_type: CaveTileType::Wall,
            solid: true,
            atlas_index: variant,
        });
        s = s + 1;
    }

    // The bottom wall under every column.
    let mut b: usize = 0;
    while b < 30
        invariant
            tiles@.len() == 320 + b as int,
            0 <= b <= 30,
            forall|j: int| 0 <= j < 300 ==> {
                &&& (#[trigger] tiles@[j]).pos.x == 480 * (j / 10)
                &&& tiles@[j].pos.y == 500 - 480 * (j % 10)
                &&& (tiles@[j].solid <==> spec_tile_index(j % 10) < 8)
                &&& (tiles@[j].tile_type == CaveTileType::Wall <==> spec_tile_index(j % 10) < 8)
                &&& spec_variant_ok(spec_tile_index(j % 10), tiles@[j].atlas_index as int)
                &&& in_world(tiles@[j].pos)
            },
            forall|j: int| 300 <= j < 320 ==> {
                &&& (#[trigger] tiles@[j]).pos.x == if j < 310 { -480int } else { 14400int }
                &&& tiles@[j].pos.y == 500 - 480 * ((j - 300) % 10)
                &&& tiles@[j].solid
                &&& tiles@[j].tile_type == CaveTileType::Wall
                &&& 4 <= tiles@[j].atlas_index <= 5
                &&& in_world(tiles@[j].pos)
            },
            forall|j: int| 320 <= j < 320 + b as int ==> {
                &&& (#[trigger] tiles@[j]).pos.x == 480 * (j - 320)
                &&& tiles@[j].pos.y == -4300
                &&& tiles@[j].solid
                &&& tiles@[j].tile_type == CaveTileType::Wall
                &&& 4 <= tiles@[j].atlas_index <= 5
                &&& in_world(tiles@[j].pos)
            },
        decreases 30 - b,
    {
        let variant: u32 = 4 + rand_below(2);
        tiles.push(CaveTile {
            pos: Point { x: 480 * (b as i64), y: -4300 },
            tile_type: CaveTileType::Wall,
            solid: true,
            atlas_index: variant,
        });
        b = b + 1;
    }
    tiles
}

} // verus!
