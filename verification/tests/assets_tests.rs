use tileworld::assets::asset_png_path;
use tileworld::assets::has_http_scheme;
use tileworld::assets::transparent_path;
use tileworld::coords::tile_placements;
use tileworld::coords::CoordinateMapper;
use tileworld::terrain::TerrainKind;
use tileworld::terrain::build_tile_grid;

#[test]
fn transparent_path_appends_the_suffix() {
    assert_eq!(transparent_path("grass"), "grass_transparent.png".to_string());
    assert_eq!(transparent_path("assets/water"), "assets/water_transparent.png".to_string());
}

#[test]
fn asset_paths_live_under_the_assets_directory() {
    assert_eq!(asset_png_path("character"), "assets/character.png".to_string());
}

#[test]
fn urls_with_http_scheme_are_usable() {
    assert!(has_http_scheme(&b"https://example.test/img.png".to_vec()));
    assert!(has_http_scheme(&b"http".to_vec()));
    assert!(has_http_scheme(&b"see http here".to_vec()));
}

#[test]
fn urls_without_http_scheme_are_skipped() {
    assert!(!has_http_scheme(&b"ftp://example.test/img.png".to_vec()));
    assert!(!has_http_scheme(&b"".to_vec()));
    assert!(!has_http_scheme(&b"htt".to_vec()));
    assert!(!has_http_scheme(&b"httq httx".to_vec()));
}

#[test]
fn placements_pair_every_cell_with_its_world_position() {
    let samples: Vec<i64> = vec![-500, 300, 0, 250];
    let grid = build_tile_grid(2, 2, &samples, 200).unwrap();
    let mapper = CoordinateMapper { tile_w: 256, tile_h: 256, scale: 1 };
    let tiles = tile_placements(&grid, &mapper);
    assert_eq!(tiles.len(), 4);
    assert_eq!(tiles[0], (0, 0, TerrainKind::Grass));
    assert_eq!(tiles[1], (0, 256, TerrainKind::Water));
    assert_eq!(tiles[2], (256, 0, TerrainKind::Grass));
    assert_eq!(tiles[3], (256, 256, TerrainKind::Water));
}
