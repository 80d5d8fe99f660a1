use hexgame::faction::Faction;
use hexgame::map::{axial_to_world_coords, setup_map, HexAxialPos, HexWorldPos};
use std::collections::HashSet;

#[test]
fn world_coords_origin() {
    let w = axial_to_world_coords(HexAxialPos { q: 0, r: 0 });
    assert_eq!(w, HexWorldPos { x_units: 0, z_units: 0 });
}

#[test]
fn world_coords_formula() {
    // x = sqrt(3) * (q + r / 2) = (2q + r) * sqrt(3) / 2; z = 1.5 r = 3r / 2.
    let w = axial_to_world_coords(HexAxialPos { q: 3, r: 2 });
    assert_eq!(w, HexWorldPos { x_units: 8, z_units: 6 });
    let w = axial_to_world_coords(HexAxialPos { q: -1, r: 5 });
    assert_eq!(w, HexWorldPos { x_units: 3, z_units: 15 });
}

#[test]
fn world_coords_float_scale() {
    let w = axial_to_world_coords(HexAxialPos { q: 1, r: 1 });
    let x = w.x_units as f64 * 3f64.sqrt() / 2.0;
    let z = w.z_units as f64 / 2.0;
    assert!((x - 3f64.sqrt() * 1.5).abs() < 1e-9);
    assert!((z - 1.5).abs() < 1e-9);
}

#[test]
fn world_coords_injective_on_board() {
    let mut seen = HashSet::new();
    for r in 0..20 {
        for q in 0..20 {
            let w = axial_to_world_coords(HexAxialPos { q, r });
            assert!(seen.insert((w.x_units, w.z_units)));
        }
    }
    assert_eq!(seen.len(), 400);
}

#[test]
fn generate_board_five_by_five() {
    let tiles = setup_map(5, 5, 2);
    assert_eq!(tiles.len(), 25);
    let mut cells = HashSet::new();
    for t in &tiles {
        assert_eq!(t.tile.owner_faction, Faction::Neutral);
        assert_eq!(t.tile.army_count, 2);
        assert!(cells.insert(t.pos));
    }
    assert_eq!(tiles[0].pos, HexAxialPos { q: 0, r: 0 });
    assert_eq!(tiles[7].pos, HexAxialPos { q: 2, r: 1 });
    assert_eq!(tiles[24].pos, HexAxialPos { q: 4, r: 4 });
}

#[test]
fn generate_board_rectangular() {
    let tiles = setup_map(3, 7, 4);
    assert_eq!(tiles.len(), 21);
    assert_eq!(tiles[20].pos, HexAxialPos { q: 2, r: 6 });
    assert!(tiles.iter().all(|t| t.tile.army_count == 4));
}

#[test]
fn generate_board_empty() {
    assert!(setup_map(0, 5, 1).is_empty());
    assert!(setup_map(5, 0, 1).is_empty());
}
