use vstd::prelude::*;
use rand::seq::SliceRandom;
use crate::faction::{Faction, player_at, player_index, PLAYER_COUNT, lemma_player_at_injective};
use vstd::set_lib::{set_int_range, lemma_int_range, lemma_len_subset, lemma_map_size};
use crate::map::{HexAxialPos, MapTile, Tile, positions_unique};

verus! {

/// Marker for a three-dimensional army label (not drawn at present).
#[derive(PartialEq, Eq, Structural, Clone, Copy, Debug)]
pub struct ArmyText;

/// On-screen label that shows the army count of the tile at `tile_index`.
#[derive(PartialEq, Eq, Structural, Clone, Copy, Debug)]
pub struct ArmyCountDisplay {
    pub tile_index: usize,
}

/// The cell taken by the `k`-th claim: claims pop cells off the end of `order`.
pub open spec fn claimed(order: Seq<HexAxialPos>, k: int) -> HexAxialPos {
    order[order.len() - 1 - k]
}

/// How many players receive a starting cell: no more than are asked for,
/// than there are player factions, or than `order` holds.
pub open spec fn claim_count(num_players: int, order_len: int) -> int {
    let p = if num_players < PLAYER_COUNT { num_players } else { PLAYER_COUNT as int };
    if p < order_len {
        p
    } else {
        order_len
    }
}

/// Claim `k` (of the first `m`) takes `pos`, and no later one of them does.
pub open spec fn last_claim(order: Seq<HexAxialPos>, m: int, k: int, pos: HexAxialPos) -> bool {
    &&& 0 <= k < m
    &&& claimed(order, k) == pos
    &&& forall|k2: int| k < k2 < m ==> claimed(order, k2) != pos
}

/// `after` is `before` after the first `m` claims of `order`: a tile whose cell is
/// claimed belongs to the player of its last claim and holds `armies`; any
/// other tile is unchanged.
pub open spec fn claim_applied(
    before: MapTile,
    after: MapTile,
    order: Seq<HexAxialPos>,
    m: int,
    armies: u32,
) -> bool {
    if exists|k: int| 0 <= k < m && #[trigger] claimed(order, k) == before.pos {
        &&& after.pos == before.pos
        &&& exists|k: int|
            #[trigger] last_claim(order, m, k, before.pos) && after.tile == (Tile {
                owner_faction: player_at(k),
                army_count: armies,
            })
    } else {
        after == before
    }
}

/// Every tile of `end` is the same tile of `start` after the first `m` claims of `order`.
pub open spec fn assigned_by(
    start: Seq<MapTile>,
    end: Seq<MapTile>,
    order: Seq<HexAxialPos>,
    m: int,
    armies: u32,
) -> bool {
    &&& end.len() == start.len()
    &&& forall|j: int| 0 <= j < start.len() ==> #[trigger] claim_applied(start[j], end[j], order, m, armies)
}

/// Indices of the tiles of `s` that have an owner.
pub open spec fn owned_indices(s: Seq<MapTile>) -> Set<int> {
    Set::new(|j: int| 0 <= j < s.len() && s[j].tile.owner_faction != Faction::Neutral)
}

/// The cells of a board, in board order.
pub open spec fn positions_of(s: Seq<MapTile>) -> Seq<HexAxialPos> {
    s.map_values(|t: MapTile| t.pos)
}

/// Gives the first `num_players` player factions one starting cell each,
/// taking cells off the end of `order`: the player at turn position `k` gets
/// `order[len - 1 - k]`, with `initial_armies` armies. Stops early when `order`
/// runs out; a cell that is not on the board is passed over.
pub fn assign_territories_in_order(
    tiles: &mut Vec<MapTile>,
    order: &Vec<HexAxialPos>,
    num_players: u32,
    initial_armies: u32,
)
    requires
        positions_unique(old(tiles)@),
    ensures
        assigned_by(
            old(tiles)@,
            final(tiles)@,
            order@,
            claim_count(num_players as int, order@.len() as int),
            initial_armies,
        ),
        positions_unique(final(tiles)@),
{
    let players = Faction::all_players();
    let wanted: usize = if (num_players as u64) < (players.len() as u64) {
        num_players as usize
    } else {
        players.len()
    };
    let m: usize = if wanted < order.len() {
        wanted
    } else {
        order.len()
    };
    let ghost old_tiles = tiles@;
    let mut idx: usize = 0;
    while idx < m
        invariant
            m == claim_count(num_players as int, order@.len() as int),
            m <= order@.len(),
            m <= PLAYER_COUNT,
            players@.len() == PLAYER_COUNT,
            forall|i: int| 0 <= i < PLAYER_COUNT ==> #[trigger] players@[i] == player_at(i),
            0 <= idx <= m,
            positions_unique(old_tiles),
            tiles@.len() == old_tiles.len(),
            forall|j: int| 0 <= j < tiles@.len() ==> #[trigger] tiles@[j].pos == old_tiles[j].pos,
            assigned_by(old_tiles, tiles@, order@, idx as int, initial_armies),
        decreases m - idx,
    {
        let start_pos = order[order.len() - 1 - idx];
        let player_faction = players[idx];
        assert(start_pos == claimed(order@, idx as int));
        let mut j: usize = 0;
        let mut found = false;
        while j < tiles.len()
            invariant_except_break
                !found,
            invariant
                0 <= j <= tiles@.len(),
                tiles@.len() == old_tiles.len(),
                forall|jj: int| 0 <= jj < j ==> #[trigger] tiles@[jj].pos != start_pos,
            ensures
                found ==> j < tiles@.len() && tiles@[j as int].pos == start_pos,
                !found ==> j == tiles@.len(),
            decreases tiles@.len() - j,
        {
            if tiles[j].pos == start_pos {
                found = true;
                break;
            }
            j = j + 1;
        }
        let ghost before = tiles@;
        if found {
            let new_tile = MapTile {
                pos: start_pos,
                tile: Tile { owner_faction: player_faction, army_count: initial_armies },
            };
            tiles.set(j, new_tile);
        }
        proof {
            let next = idx + 1;
            assert forall|jj: int| 0 <= jj < old_tiles.len() implies #[trigger] claim_applied(
                old_tiles[jj],
                tiles@[jj],
                order@,
                next as int,
                initial_armies,
            ) by {
                assert(claim_applied(old_tiles[jj], before[jj], order@, idx as int, initial_armies));
                if found && jj == j as int {
                    assert(last_claim(order@, next as int, idx as int, old_tiles[jj].pos));
                } else {
                    if found {
                        assert(old_tiles[jj].pos != old_tiles[j as int].pos);
                    } else {
                        assert(before[jj].pos != start_pos);
                    }
                    assert(claimed(order@, idx as int) != old_tiles[jj].pos);
                    if exists|k: int| 0 <= k < idx && #[trigger] claimed(order@, k) == old_tiles[jj].pos {
                        let k = choose|k: int| #[trigger] last_claim(order@, idx as int, k, old_tiles[jj].pos)
                            && before[jj].tile == (Tile {
                                owner_faction: player_at(k),
                                army_count: initial_armies,
                            });
                        assert(last_claim(order@, next as int, k, old_tiles[jj].pos));
                    } else {
                        assert(!exists|k: int| 0 <= k < next && #[trigger] claimed(order@, k) == old_tiles[jj].pos) by {
                            assert(forall|k: int| 0 <= k < idx ==> #[trigger] claimed(order@, k) != old_tiles[jj].pos);
                        }
                    }
                }
            }
        }
        idx = idx + 1;
    }
    proof {
        assert forall|a: int, b: int|
            0 <= a < tiles@.len() && 0 <= b < tiles@.len() && a != b implies #[trigger] tiles@[a].pos
            != #[trigger] tiles@[b].pos by {
            assert(old_tiles[a].pos != old_tiles[b].pos);
        }
    }
}

/// Relies on rand's `SliceRandom::shuffle` driven by `thread_rng`: it only
/// swaps elements, so the result holds the same cells, in an order chosen at random.
#[verifier::external_body]
fn shuffle_positions(positions: Vec<HexAxialPos>) -> (r: Vec<HexAxialPos>)
    ensures
        r@.to_multiset() == positions@.to_multiset(),
{
    let mut positions = positions;
    positions.shuffle(&mut rand::thread_rng());
    positions
}

/// Gives the first `num_players` player factions one starting cell each, the
/// cells drawn at random from the board without repetition, and sets their
/// army count to `initial_armies`. With fewer cells than players the last
/// players get none.
pub fn assign_initial_territories(tiles: &mut Vec<MapTile>, num_players: u32, initial_armies: u32)
    requires
        positions_unique(old(tiles)@),
    ensures
        exists|order: Seq<HexAxialPos>|
            #[trigger] order.to_multiset() == positions_of(old(tiles)@).to_multiset()
                && assigned_by(
                old(tiles)@,
                final(tiles)@,
                order,
                claim_count(num_players as int, old(tiles)@.len() as int),
                initial_armies,
            ),
        positions_unique(final(tiles)@),
{
    let mut all_positions: Vec<HexAxialPos> = Vec::new();
    let mut i: usize = 0;
    while i < tiles.len()
        invariant
            0 <= i <= tiles@.len(),
            all_positions@ == positions_of(tiles@).take(i as int),
        decreases tiles@.len() - i,
    {
        all_positions.push(tiles[i].pos);
        i = i + 1;
        assert(all_positions@ =~= positions_of(tiles@).take(i as int));
    }
    assert(all_positions@ =~= positions_of(tiles@));
    let order = shuffle_positions(all_positions);
    proof {
        vstd::seq_lib::to_multiset_len(order@);
        vstd::seq_lib::to_multiset_len(positions_of(tiles@));
    }
    assign_territories_in_order(tiles, &order, num_players, initial_armies);
}

/// Some tile of `s` occupies cell `c`.
pub open spec fn on_board(s: Seq<MapTile>, c: HexAxialPos) -> bool {
    exists|j: int| 0 <= j < s.len() && s[j].pos == c
}

/// Claims drawn from a shuffle of the cells of a board with distinct cells
/// are pairwise distinct, and each lies on the board.
proof fn lemma_shuffled_claims(start: Seq<MapTile>, order: Seq<HexAxialPos>)
    requires
        positions_unique(start),
        order.to_multiset() == positions_of(start).to_multiset(),
    ensures
        order.len() == start.len(),
        order.no_duplicates(),
        forall|k: int| 0 <= k < order.len() ==> on_board(start, #[trigger] claimed(order, k)),
{
    let pos = positions_of(start);
    vstd::seq_lib::to_multiset_len(order);
    vstd::seq_lib::to_multiset_len(pos);
    assert(pos.no_duplicates()) by {
        assert forall|a: int, b: int| 0 <= a < pos.len() && 0 <= b < pos.len() && a != b implies
            pos[a] != pos[b] by {
            assert(start[a].pos != start[b].pos);
        }
    }
    pos.lemma_multiset_has_no_duplicates();
    order.lemma_multiset_has_no_duplicates_conv();
    assert forall|k: int| 0 <= k < order.len() implies on_board(start, #[trigger] claimed(order, k)) by {
        let c = claimed(order, k);
        assert(order.contains(c)) by {
            assert(order[order.len() - 1 - k] == c);
        }
        vstd::seq_lib::to_multiset_contains(order, c);
        vstd::seq_lib::to_multiset_contains(pos, c);
        let j = choose|j: int| 0 <= j < pos.len() && pos[j] == c;
        assert(start[j].pos == c);
    }
}

/// With pairwise distinct claims, a claimed tile belongs to the player of its one claim.
proof fn lemma_claimed_tile(
    start: Seq<MapTile>,
    end: Seq<MapTile>,
    order: Seq<HexAxialPos>,
    m: int,
    armies: u32,
    j: int,
    k: int,
)
    requires
        order.no_duplicates(),
        m <= order.len(),
        assigned_by(start, end, order, m, armies),
        0 <= j < start.len(),
        0 <= k < m,
        claimed(order, k) == start[j].pos,
    ensures
        end[j].tile == (Tile { owner_faction: player_at(k), army_count: armies }),
{
    assert(claim_applied(start[j], end[j], order, m, armies));
    let k2 = choose|k2: int| #[trigger] last_claim(order, m, k2, start[j].pos)
        && end[j].tile == (Tile { owner_faction: player_at(k2), army_count: armies });
    if k2 != k {
        assert(order[order.len() - 1 - k] == order[order.len() - 1 - k2]);
    }
}

/// A tile that was neutral and has an owner now got it from one of the claims.
proof fn lemma_owned_tile(
    start: Seq<MapTile>,
    end: Seq<MapTile>,
    order: Seq<HexAxialPos>,
    m: int,
    armies: u32,
    j: int,
) -> (k: int)
    requires
        assigned_by(start, end, order, m, armies),
        0 <= j < start.len(),
        start[j].tile.owner_faction == Faction::Neutral,
        end[j].tile.owner_faction != Faction::Neutral,
    ensures
        0 <= k < m,
        claimed(order, k) == start[j].pos,
        end[j].tile == (Tile { owner_faction: player_at(k), army_count: armies }),
{
    assert(claim_applied(start[j], end[j], order, m, armies));
    choose|k: int| #[trigger] last_claim(order, m, k, start[j].pos)
        && end[j].tile == (Tile { owner_faction: player_at(k), army_count: armies })
}

/// A fresh board of neutral tiles on distinct cells, after `num_players`
/// (at most the number of player factions) claims drawn from a shuffle of its
/// cells: each of the first `min(num_players, len)` players owns a tile holding
/// `armies`, no other tile has an owner, and no two tiles share an owner.
pub proof fn lemma_assignment_outcome(
    start: Seq<MapTile>,
    end: Seq<MapTile>,
    order: Seq<HexAxialPos>,
    num_players: int,
    armies: u32,
)
    requires
        positions_unique(start),
        forall|j: int| 0 <= j < start.len() ==> (#[trigger] start[j]).tile.owner_faction == Faction::Neutral,
        0 <= num_players <= PLAYER_COUNT,
        order.to_multiset() == positions_of(start).to_multiset(),
        assigned_by(start, end, order, claim_count(num_players, start.len() as int), armies),
    ensures
        end.len() == start.len(),
        owned_once_each(end, claim_count(num_players, start.len() as int), armies),
{
    let m = claim_count(num_players, start.len() as int);
    lemma_shuffled_claims(start, order);
    assert forall|k: int| #![trigger player_at(k)] 0 <= k < m implies exists|j: int|
        0 <= j < end.len() && #[trigger] end[j].tile == (Tile {
            owner_faction: player_at(k),
            army_count: armies,
        }) by {
        assert(on_board(start, claimed(order, k)));
        let j = choose|j: int| 0 <= j < start.len() && start[j].pos == claimed(order, k);
        lemma_claimed_tile(start, end, order, m, armies, j, k);
    }
    assert forall|j: int|
        0 <= j < end.len() && (#[trigger] end[j]).tile.owner_faction != Faction::Neutral implies
        exists|k: int|
            0 <= k < m && end[j].tile == (Tile {
                owner_faction: player_at(k),
                army_count: armies,
            }) by {
        let k = lemma_owned_tile(start, end, order, m, armies, j);
    }
    assert forall|a: int, b: int|
        0 <= a < end.len() && 0 <= b < end.len() && a != b
            && (#[trigger] end[a]).tile.owner_faction != Faction::Neutral implies
        end[a].tile.owner_faction != (#[trigger] end[b]).tile.owner_faction by {
        let ka = lemma_owned_tile(start, end, order, m, armies, a);
        if end[b].tile.owner_faction == end[a].tile.owner_faction {
            let kb = lemma_owned_tile(start, end, order, m, armies, b);
            lemma_player_at_injective(ka, kb);
            assert(start[a].pos != start[b].pos);
        }
    }
}

/// One army label per tile, in board order, each pointing at its tile.
pub fn spawn_army_text_ui(tiles: &Vec<MapTile>) -> (r: Vec<ArmyCountDisplay>)
    ensures
        r@.len() == tiles@.len(),
        forall|i: int| 0 <= i < r@.len() ==> (#[trigger] r@[i]).tile_index == i,
{
    let mut labels: Vec<ArmyCountDisplay> = Vec::new();
    let mut i: usize = 0;
    while i < tiles.len()
        invariant
            0 <= i <= tiles@.len(),
            labels@.len() == i,
            forall|k: int| 0 <= k < labels@.len() ==> (#[trigger] labels@[k]).tile_index == k,
        decreases tiles@.len() - i,
    {
        labels.push(ArmyCountDisplay { tile_index: i });
        i = i + 1;
    }
    labels
}

/// An army label is shown only for an owned tile that holds armies.
pub fn army_label_visible(tile: &Tile) -> (r: bool)
    ensures
        r == (tile.army_count != 0 && tile.owner_faction != Faction::Neutral),
{
    tile.army_count != 0 && tile.owner_faction != Faction::Neutral
}

/// Each of the first `m` players owns a tile holding `armies`, no other tile
/// has an owner, and no two tiles share an owner.
pub open spec fn owned_once_each(end: Seq<MapTile>, m: int, armies: u32) -> bool {
    &&& forall|k: int|
        #![trigger player_at(k)]
        0 <= k < m ==> exists|j: int|
            0 <= j < end.len() && #[trigger] end[j].tile == (Tile {
                owner_faction: player_at(k),
                army_count: armies,
            })
    &&& forall|j: int|
        0 <= j < end.len() && (#[trigger] end[j]).tile.owner_faction != Faction::Neutral
            ==> exists|k: int|
            0 <= k < m && end[j].tile == (Tile { owner_faction: player_at(k), army_count: armies })
    &&& forall|a: int, b: int|
        0 <= a < end.len() && 0 <= b < end.len() && a != b
            && (#[trigger] end[a]).tile.owner_faction != Faction::Neutral
            ==> end[a].tile.owner_faction != (#[trigger] end[b]).tile.owner_faction
}

#[verifier::spinoff_prover]
#[verifier::rlimit(60)]
proof fn lemma_owned_once_each_count(end: Seq<MapTile>, m: int, armies: u32)
    requires
        0 <= m <= PLAYER_COUNT,
        owned_once_each(end, m, armies),
    ensures
        owned_indices(end).finite(),
        owned_indices(end).len() == m,
{
    let owned = owned_indices(end);
    let range = set_int_range(0, m);
    let f = |j: int| player_index(end[j].tile.owner_faction);
    lemma_int_range(0, end.len() as int);
    lemma_len_subset(owned, set_int_range(0, end.len() as int));
    lemma_int_range(0, m);
    assert forall|a: int, b: int|
        owned.contains(a) && owned.contains(b) && #[trigger] f(a) == #[trigger] f(b) implies a == b by {
        let ka = choose|k: int|
            0 <= k < m && end[a].tile == (Tile { owner_faction: player_at(k), army_count: armies });
        let kb = choose|k: int|
            0 <= k < m && end[b].tile == (Tile { owner_faction: player_at(k), army_count: armies });
        lemma_player_at_injective(ka, kb);
        lemma_player_at_injective(kb, ka);
        if a != b {
            assert(end[a].tile.owner_faction != end[b].tile.owner_faction);
        }
    }
    assert forall|k: int| #[trigger] range.contains(k) implies owned.map(f).contains(k) by {
        assert(0 <= k < m);
        assert(player_at(k) == player_at(k));
        let j = choose|j: int|
            0 <= j < end.len() && #[trigger] end[j].tile == (Tile {
                owner_faction: player_at(k),
                army_count: armies,
            });
        lemma_player_at_injective(k, k);
        assert(owned.contains(j));
        assert(f(j) == k);
    }
    assert forall|k: int| #[trigger] owned.map(f).contains(k) implies range.contains(k) by {
        let j = choose|j: int| owned.contains(j) && f(j) == k;
        assert(end[j].tile.owner_faction != Faction::Neutral);
        let kj = choose|kk: int|
            0 <= kk < m && end[j].tile == (Tile { owner_faction: player_at(kk), army_count: armies });
        lemma_player_at_injective(kj, kj);
    }
    assert(owned.map(f) =~= range);
    lemma_map_size(owned, range, f);
}

/// A fresh board of neutral tiles on distinct cells, after `num_players`
/// (at most the number of player factions) claims drawn from a shuffle of its
/// cells, has exactly `min(num_players, len)` tiles with an owner.
pub proof fn lemma_assignment_owned_count(
    start: Seq<MapTile>,
    end: Seq<MapTile>,
    order: Seq<HexAxialPos>,
    num_players: int,
    armies: u32,
)
    requires
        positions_unique(start),
        forall|j: int| 0 <= j < start.len() ==> (#[trigger] start[j]).tile.owner_faction == Faction::Neutral,
        0 <= num_players <= PLAYER_COUNT,
        order.to_multiset() == positions_of(start).to_multiset(),
        assigned_by(start, end, order, claim_count(num_players, start.len() as int), armies),
    ensures
        owned_indices(end).finite(),
        owned_indices(end).len() == if num_players < start.len() {
            num_players
        } else {
            start.len() as int
        },
{
    let m = claim_count(num_players, start.len() as int);
    lemma_assignment_outcome(start, end, order, num_players, armies);
    lemma_owned_once_each_count(end, m, armies);
}

} // verus!
