use yulaven::terrain::{
    f32_value_of, pcg_hash, pcg_word, place_structure, structure_seed, tile_seed, tile_terrain,
    GridCoord, StructureKind, TerrainKind, TerrainTile, GRASS_LIMIT, STONE_LIMIT, UNSET_COORD,
};

#[test]
fn pcg_word_known_values() {
    assert_eq!(pcg_word(0), 0);
    assert_eq!(pcg_word(1), 277_803_675);
    assert_eq!(pcg_word(12_345), 985_940_161);
    assert_eq!(pcg_word(0xDEAD_BEEF), 4_130_710_537);
}

#[test]
fn pcg_hash_matches_float_division() {
    for state in [0u32, 1, 2, 12_345, u32::MAX, 0xDEAD_BEEF, 77, 1 << 31] {
        let word = pcg_word(state);
        let float = (word as f32) / (u32::MAX as f32);
        let scaled = pcg_hash(state);
        assert_eq!(scaled as f64, (float as f64) * 4_294_967_296.0);
    }
    assert_eq!(pcg_hash(1), 277_803_680);
    assert_eq!(pcg_hash(0xDEAD_BEEF), 4_130_710_528);
}

#[test]
fn f32_rounding_matches_cast() {
    let samples = [
        0u32, 1, 16_777_215, 16_777_216, 16_777_217, 16_777_218, 16_777_219, 33_554_435,
        4_294_967_295, 4_294_967_168, 4_294_967_167, 2_147_483_711, 2_147_483_712, 123_456_789,
    ];
    for x in samples {
        assert_eq!(f32_value_of(x) as f64, (x as f32) as f64, "x = {x}");
    }
    let mut x: u32 = 7;
    for _ in 0..5000 {
        x = x.wrapping_mul(1_103_515_245).wrapping_add(12_345);
        assert_eq!(f32_value_of(x) as f64, (x as f32) as f64, "x = {x}");
    }
}

#[test]
fn thresholds_are_the_float_literals() {
    assert_eq!(GRASS_LIMIT as f64, (0.3f32 as f64) * 4_294_967_296.0);
    assert_eq!(STONE_LIMIT as f64, (0.85f32 as f64) * 4_294_967_296.0);
}

#[test]
fn tile_seeds_and_terrain() {
    assert_eq!(tile_seed(GridCoord { x: 1, y: 0 }), 73_856_093);
    assert_eq!(tile_seed(GridCoord { x: 5, y: -3 }), -360_121_358);
    assert_eq!(tile_terrain(GridCoord { x: 0, y: 0 }), TerrainKind::Grass);
    assert_eq!(tile_terrain(GridCoord { x: 1, y: 0 }), TerrainKind::Stone);
    assert_eq!(tile_terrain(GridCoord { x: 0, y: 1 }), TerrainKind::Sand);
    assert_eq!(tile_terrain(GridCoord { x: 5, y: -3 }), TerrainKind::DarkGrass);
    assert_eq!(tile_terrain(GridCoord { x: 100, y: 200 }), TerrainKind::Dirt);
}

#[test]
fn structure_placements() {
    assert_eq!(structure_seed(0, 1), 83_492_791);
    assert_eq!(structure_seed(73_856_093, 7), 649_267_804);
    let p = place_structure(0);
    assert_eq!((p.kind, p.atlas_index, p.x_hash, p.y_hash), (StructureKind::Tree, 12, 0, 277_803_680));
    let p = place_structure(83_492_791);
    assert_eq!((p.kind, p.atlas_index), (StructureKind::Pillar, 54));
    assert_eq!((p.x_hash, p.y_hash), (2_412_214_784, 4_206_947_584));
    let p = place_structure(649_267_804);
    assert_eq!((p.kind, p.atlas_index), (StructureKind::Tree, 19));
}

#[test]
fn terrain_tile_follows_once() {
    let mut tile = TerrainTile {
        offset: GridCoord { x: -1, y: 1 },
        logical_coord: GridCoord { x: UNSET_COORD, y: UNSET_COORD },
    };
    assert!(tile.follow(GridCoord { x: 3, y: 4 }));
    assert_eq!(tile.logical_coord, GridCoord { x: 2, y: 5 });
    assert!(!tile.follow(GridCoord { x: 3, y: 4 }));
    assert_eq!(tile.logical_coord, GridCoord { x: 2, y: 5 });
    assert!(tile.follow(GridCoord { x: 4, y: 4 }));
    assert_eq!(tile.offset, GridCoord { x: -1, y: 1 });
}

#[test]
fn map_colors() {
    let c = TerrainKind::Sand.map_color();
    assert_eq!((c.r, c.g, c.b, c.a), (80, 70, 30, 100));
    let c = TerrainKind::DarkGrass.map_color();
    assert_eq!((c.r, c.g, c.b), (10, 40, 10));
}
