use hexgame::faction::{Faction, Rgb};
use hexgame::game::{
    army_label_visible, assign_initial_territories, assign_territories_in_order,
    spawn_army_text_ui,
};
use hexgame::game_state_ui::spawn_turn_indicator;
use hexgame::map::{setup_map, HexAxialPos, Tile};
use std::collections::HashSet;

fn pos(q: i32, r: i32) -> HexAxialPos {
    HexAxialPos { q, r }
}

#[test]
fn all_players_in_order() {
    assert_eq!(
        Faction::all_players(),
        vec![
            Faction::Player1,
            Faction::Player2,
            Faction::Player3,
            Faction::Player4,
            Faction::Player5,
            Faction::Player6
        ]
    );
}

#[test]
fn faction_colors() {
    assert_eq!(Faction::Neutral.color(), Rgb { red: 50, green: 50, blue: 50 });
    assert_eq!(Faction::Player1.color(), Rgb { red: 100, green: 0, blue: 0 });
    assert_eq!(Faction::Player2.color(), Rgb { red: 0, green: 0, blue: 100 });
    assert_eq!(Faction::Player3.color(), Rgb { red: 0, green: 100, blue: 0 });
    assert_eq!(Faction::Player4.color(), Rgb { red: 100, green: 100, blue: 0 });
    assert_eq!(Faction::Player5.color(), Rgb { red: 100, green: 0, blue: 100 });
    assert_eq!(Faction::Player6.color(), Rgb { red: 0, green: 100, blue: 100 });
}

#[test]
fn assign_in_order_pops_from_end() {
    let mut tiles = setup_map(3, 3, 1);
    let order = vec![pos(0, 0), pos(2, 2), pos(1, 0)];
    assign_territories_in_order(&mut tiles, &order, 2, 3);
    // Player1 takes the last cell of the order, Player2 the one before.
    assert_eq!(tiles[1].tile, Tile { owner_faction: Faction::Player1, army_count: 3 });
    assert_eq!(tiles[8].tile, Tile { owner_faction: Faction::Player2, army_count: 3 });
    assert_eq!(tiles[0].tile, Tile { owner_faction: Faction::Neutral, army_count: 1 });
    let owned = tiles.iter().filter(|t| t.tile.owner_faction != Faction::Neutral).count();
    assert_eq!(owned, 2);
}

#[test]
fn assign_in_order_fewer_cells_than_players() {
    let mut tiles = setup_map(1, 2, 1);
    let order = vec![pos(0, 0), pos(0, 1)];
    assign_territories_in_order(&mut tiles, &order, 6, 2);
    assert_eq!(tiles[1].tile.owner_faction, Faction::Player1);
    assert_eq!(tiles[0].tile.owner_faction, Faction::Player2);
}

#[test]
fn assign_in_order_caps_at_six_players() {
    let mut tiles = setup_map(5, 5, 1);
    let order: Vec<HexAxialPos> = tiles.iter().map(|t| t.pos).collect();
    assign_territories_in_order(&mut tiles, &order, 9, 1);
    let owned = tiles.iter().filter(|t| t.tile.owner_faction != Faction::Neutral).count();
    assert_eq!(owned, 6);
    assert_eq!(tiles[24].tile.owner_faction, Faction::Player1);
    assert_eq!(tiles[19].tile.owner_faction, Faction::Player6);
}

#[test]
fn assign_in_order_skips_cell_off_board() {
    let mut tiles = setup_map(2, 2, 1);
    let order = vec![pos(1, 1), pos(9, 9)];
    assign_territories_in_order(&mut tiles, &order, 2, 4);
    // Player1's cell is not on the board; Player2 still gets the next one.
    assert_eq!(tiles[3].tile, Tile { owner_faction: Faction::Player2, army_count: 4 });
    let owned = tiles.iter().filter(|t| t.tile.owner_faction != Faction::Neutral).count();
    assert_eq!(owned, 1);
}

#[test]
fn random_assignment_counts() {
    for players in 0..=6u32 {
        let mut tiles = setup_map(5, 5, 1);
        assign_initial_territories(&mut tiles, players, 3);
        let owners: Vec<Faction> = tiles
            .iter()
            .filter(|t| t.tile.owner_faction != Faction::Neutral)
            .map(|t| t.tile.owner_faction)
            .collect();
        assert_eq!(owners.len(), players as usize);
        let distinct: HashSet<Faction> = owners.iter().copied().collect();
        assert_eq!(distinct.len(), players as usize);
        for t in &tiles {
            if t.tile.owner_faction != Faction::Neutral {
                assert_eq!(t.tile.army_count, 3);
            } else {
                assert_eq!(t.tile.army_count, 1);
            }
        }
    }
}

#[test]
fn random_assignment_small_board() {
    let mut tiles = setup_map(1, 3, 1);
    assign_initial_territories(&mut tiles, 5, 2);
    let owned = tiles.iter().filter(|t| t.tile.owner_faction != Faction::Neutral).count();
    assert_eq!(owned, 3);
}

#[test]
fn random_assignment_varies() {
    let mut first_cells = HashSet::new();
    for _ in 0..60 {
        let mut tiles = setup_map(5, 5, 1);
        assign_initial_territories(&mut tiles, 1, 1);
        let cell = tiles.iter().find(|t| t.tile.owner_faction == Faction::Player1).unwrap().pos;
        first_cells.insert(cell);
    }
    assert!(first_cells.len() > 1);
}

#[test]
fn army_labels_one_per_tile() {
    let tiles = setup_map(4, 5, 1);
    let labels = spawn_army_text_ui(&tiles);
    assert_eq!(labels.len(), 20);
    for (i, l) in labels.iter().enumerate() {
        assert_eq!(l.tile_index, i);
    }
}

#[test]
fn army_label_visibility() {
    assert!(!army_label_visible(&Tile { owner_faction: Faction::Neutral, army_count: 3 }));
    assert!(!army_label_visible(&Tile { owner_faction: Faction::Player2, army_count: 0 }));
    assert!(army_label_visible(&Tile { owner_faction: Faction::Player2, army_count: 1 }));
}

#[test]
fn turn_indicator_starts_with_player_one() {
    let t = spawn_turn_indicator();
    assert_eq!(t.current_player, Faction::Player1);
    assert_eq!(t.player_number(), 1);
}
