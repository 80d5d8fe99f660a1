use vstd::prelude::*;
use vstd::arithmetic::div_mod::lemma_fundamental_div_mod_converse;
use vstd::arithmetic::div_mod::lemma_fundamental_div_mod;
use crate::faction::Faction;

verus! {

/// Axial coordinates of a hexagonal cell.
#[derive(PartialEq, Eq, Structural, Clone, Copy, Debug, Hash)]
pub struct HexAxialPos {
    pub q: i32,
    pub r: i32,
}

/// Ownership and garrison of one cell of the board.
#[derive(PartialEq, Eq, Structural, Clone, Copy, Debug)]
pub struct Tile {
    pub owner_faction: Faction,
    pub army_count: u32,
}

/// Marker for everything that belongs to the map of one game phase and is
/// removed when that phase ends.
#[derive(PartialEq, Eq, Structural, Clone, Copy, Debug)]
pub struct MapEntity;

/// One tile of a board together with the cell it occupies.
#[derive(PartialEq, Eq, Structural, Clone, Copy, Debug)]
pub struct MapTile {
    pub pos: HexAxialPos,
    pub tile: Tile,
}

/// World position of a cell centre on the ground plane (y = 0), exactly, in
/// lattice units: the world x is `x_units * radius * sqrt(3) / 2` and the world
/// z is `z_units * radius / 2`.
#[derive(PartialEq, Eq, Structural, Clone, Copy, Debug)]
pub struct HexWorldPos {
    pub x_units: i64,
    pub z_units: i64,
}

/// `x = radius * sqrt(3) * (q + r / 2)` and `z = radius * 1.5 * r`, in lattice units.
pub open spec fn world_of(p: HexAxialPos) -> HexWorldPos {
    HexWorldPos { x_units: (2 * p.q + p.r) as i64, z_units: (3 * p.r) as i64 }
}

/// Centre of the cell `hex_pos` in world lattice units.
pub fn axial_to_world_coords(hex_pos: HexAxialPos) -> (r: HexWorldPos)
    ensures
        r == world_of(hex_pos),
        r.x_units == 2 * hex_pos.q + hex_pos.r,
        r.z_units == 3 * hex_pos.r,
{
    let q = hex_pos.q as i64;
    let r = hex_pos.r as i64;
    HexWorldPos { x_units: 2 * q + r, z_units: 3 * r }
}

/// Axial-to-world conversion is injective: distinct cells have distinct centres.
pub proof fn lemma_axial_to_world_injective(a: HexAxialPos, b: HexAxialPos)
    ensures
        world_of(a) == world_of(b) ==> a == b,
{
}

/// The tile at index `i` of a freshly generated board of width `w`: rows of
/// `w` cells, row `r` after row `r - 1`, neutral, holding `armies`.
pub open spec fn generated_tile(w: int, armies: u32, i: int) -> MapTile {
    MapTile {
        pos: HexAxialPos { q: (i % w) as i32, r: (i / w) as i32 },
        tile: Tile { owner_faction: Faction::Neutral, army_count: armies },
    }
}

/// `s` is the board that generation produces for `w` by `h` cells and `armies`.
pub open spec fn is_generated_board(s: Seq<MapTile>, w: int, h: int, armies: u32) -> bool {
    &&& s.len() == w * h
    &&& forall|i: int| 0 <= i < s.len() ==> #[trigger] s[i] == generated_tile(w, armies, i)
}

/// The board that generation produces for `w` by `h` cells and `armies`.
pub open spec fn generated_board(w: int, h: int, armies: u32) -> Seq<MapTile> {
    Seq::new((w * h) as nat, |i: int| generated_tile(w, armies, i))
}

/// No two tiles of `s` occupy the same cell.
pub open spec fn positions_unique(s: Seq<MapTile>) -> bool {
    forall|i: int, j: int|
        0 <= i < s.len() && 0 <= j < s.len() && i != j ==> #[trigger] s[i].pos != #[trigger] s[j].pos
}

/// Every tile of `s` is neutral and holds `armies`.
pub open spec fn all_neutral_with(s: Seq<MapTile>, armies: u32) -> bool {
    forall|i: int|
        0 <= i < s.len() ==> (#[trigger] s[i]).tile == (Tile {
            owner_faction: Faction::Neutral,
            army_count: armies,
        })
}

/// A generated board of `w` by `h` cells has exactly `w * h` tiles, each
/// neutral with `armies` armies, on pairwise distinct cells.
pub proof fn lemma_generated_board(s: Seq<MapTile>, w: int, h: int, armies: u32)
    requires
        0 < w <= i32::MAX,
        0 <= h <= i32::MAX,
        is_generated_board(s, w, h, armies),
    ensures
        s.len() == w * h,
        all_neutral_with(s, armies),
        positions_unique(s),
{
    assert forall|i: int, j: int|
        0 <= i < s.len() && 0 <= j < s.len() && i != j implies #[trigger] s[i].pos
        != #[trigger] s[j].pos by {
        lemma_fundamental_div_mod(i, w);
        lemma_fundamental_div_mod(j, w);
        lemma_small_cell(i, w, h);
        lemma_small_cell(j, w, h);
        if s[i].pos == s[j].pos {
            assert(i % w == j % w && i / w == j / w);
        }
    }
}

proof fn lemma_small_cell(i: int, w: int, h: int)
    requires
        w > 0,
        0 <= i < w * h,
    ensures
        0 <= i % w < w,
        0 <= i / w < h,
{
    lemma_fundamental_div_mod(i, w);
    assert(0 <= i / w < h) by (nonlinear_arith)
        requires
            w > 0,
            0 <= i < w * h,
            i == w * (i / w) + i % w,
            0 <= i % w < w,
    ;
}

/// Generates the board of `board_width` by `board_height` neutral tiles, each
/// holding `initial_armies`, row by row.
pub fn setup_map(board_width: u32, board_height: u32, initial_armies: u32) -> (r: Vec<MapTile>)
    requires
        board_width <= i32::MAX,
        board_height <= i32::MAX,
        board_width * board_height <= usize::MAX,
    ensures
        is_generated_board(r@, board_width as int, board_height as int, initial_armies),
{
    let mut tiles: Vec<MapTile> = Vec::new();
    let w = board_width as i32;
    let h = board_height as i32;
    let mut r_idx: i32 = 0;
    while r_idx < h
        invariant
            w == board_width,
            h == board_height,
            0 <= r_idx <= h,
            board_width * board_height <= usize::MAX,
            tiles@.len() == r_idx * w,
            forall|k: int|
                0 <= k < tiles@.len() ==> #[trigger] tiles@[k] == generated_tile(
                    w as int,
                    initial_armies,
                    k,
                ),
        decreases h - r_idx,
    {
        let mut q_idx: i32 = 0;
        while q_idx < w
            invariant
                w == board_width,
                h == board_height,
                0 <= r_idx < h,
                0 <= q_idx <= w,
                board_width * board_height <= usize::MAX,
                tiles@.len() == r_idx * w + q_idx,
                forall|k: int|
                    0 <= k < tiles@.len() ==> #[trigger] tiles@[k] == generated_tile(
                        w as int,
                        initial_armies,
                        k,
                    ),
            decreases w - q_idx,
        {
            let axial_pos = HexAxialPos { q: q_idx, r: r_idx };
            proof {
                let k = tiles@.len() as int;
                lemma_fundamental_div_mod_converse(k, w as int, r_idx as int, q_idx as int);
            }
            tiles.push(
                MapTile {
                    pos: axial_pos,
                    tile: Tile { owner_faction: Faction::Neutral, army_count: initial_armies },
                },
            );
            q_idx = q_idx + 1;
        }
        proof {
            assert(r_idx * w + w == (r_idx + 1) * w) by (nonlinear_arith);
        }
        r_idx = r_idx + 1;
    }
    proof {
        assert(r_idx * w == w * r_idx) by (nonlinear_arith);
    }
    tiles
}

} // verus!
