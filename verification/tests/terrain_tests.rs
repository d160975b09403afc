use tileworld::config::WorldConfig;
use tileworld::terrain::GridError;
use tileworld::terrain::TerrainKind;
use tileworld::terrain::build_tile_grid;
use tileworld::terrain::classify;

#[test]
fn classify_above_threshold_is_water() {
    assert_eq!(classify(201, 200), TerrainKind::Water);
    assert_eq!(classify(1000, 200), TerrainKind::Water);
}

#[test]
fn classify_at_or_below_threshold_is_grass() {
    assert_eq!(classify(200, 200), TerrainKind::Grass);
    assert_eq!(classify(0, 200), TerrainKind::Grass);
    assert_eq!(classify(-1000, 200), TerrainKind::Grass);
}

#[test]
fn build_is_deterministic() {
    let samples: Vec<i64> = vec![-500, 300, 0, 250, 199, 201];
    let g1 = build_tile_grid(3, 2, &samples, 200).unwrap();
    let g2 = build_tile_grid(3, 2, &samples, 200).unwrap();
    assert_eq!(g1.cols, g2.cols);
    assert_eq!(g1.rows, g2.rows);
    assert_eq!(g1.kinds, g2.kinds);
}

#[test]
fn build_classifies_each_cell() {
    // Column-major: cell (col, row) reads samples[col * rows + row].
    let samples: Vec<i64> = vec![-500, 300, 0, 250, 199, 201];
    let grid = build_tile_grid(3, 2, &samples, 200).unwrap();
    assert_eq!(grid.kind_of_cell(0, 0), TerrainKind::Grass);
    assert_eq!(grid.kind_of_cell(0, 1), TerrainKind::Water);
    assert_eq!(grid.kind_of_cell(1, 0), TerrainKind::Grass);
    assert_eq!(grid.kind_of_cell(1, 1), TerrainKind::Water);
    assert_eq!(grid.kind_of_cell(2, 0), TerrainKind::Grass);
    assert_eq!(grid.kind_of_cell(2, 1), TerrainKind::Water);
}

#[test]
fn partition_covers_every_cell_once() {
    let samples: Vec<i64> = vec![-500, 300, 0, 250, 199, 201];
    let grid = build_tile_grid(3, 2, &samples, 200).unwrap();
    let (grass, water) = grid.partition_cells();
    assert_eq!(grass.len() + water.len(), 6);
    assert_eq!(grass, vec![(0, 0), (1, 0), (2, 0)]);
    assert_eq!(water, vec![(0, 1), (1, 1), (2, 1)]);
    for c in 0..3usize {
        for r in 0..2usize {
            let in_grass = grass.contains(&(c, r));
            let in_water = water.contains(&(c, r));
            assert!(in_grass != in_water);
        }
    }
}

#[test]
fn partition_of_uniform_grid() {
    let samples: Vec<i64> = vec![0; 12];
    let grid = build_tile_grid(4, 3, &samples, 200).unwrap();
    let (grass, water) = grid.partition_cells();
    assert_eq!(grass.len(), 12);
    assert_eq!(water.len(), 0);
}

#[test]
fn zero_cols_is_rejected() {
    let samples: Vec<i64> = vec![];
    assert!(matches!(build_tile_grid(0, 5, &samples, 200), Err(GridError::EmptyGrid)));
}

#[test]
fn zero_rows_is_rejected() {
    let samples: Vec<i64> = vec![];
    assert!(matches!(build_tile_grid(5, 0, &samples, 200), Err(GridError::EmptyGrid)));
}

#[test]
fn sample_count_mismatch_is_rejected() {
    let samples: Vec<i64> = vec![0, 0, 0];
    assert!(matches!(build_tile_grid(2, 2, &samples, 200), Err(GridError::SampleCountMismatch)));
}

#[test]
fn config_validate_rejects_degenerate_grid() {
    let mut config = WorldConfig {
        cols: 500,
        rows: 250,
        noise_scale_milli: 10,
        threshold_milli: 200,
        tile_w: 256,
        tile_h: 256,
        sprite_scale: 1,
        seed: Some(42),
    };
    assert_eq!(config.validate(), Ok(()));
    config.cols = 0;
    assert_eq!(config.validate(), Err(GridError::EmptyGrid));
    config.cols = 500;
    config.rows = 0;
    assert_eq!(config.validate(), Err(GridError::EmptyGrid));
}

#[test]
fn configured_seed_is_used_verbatim() {
    let config = WorldConfig {
        cols: 10,
        rows: 10,
        noise_scale_milli: 10,
        threshold_milli: 200,
        tile_w: 256,
        tile_h: 256,
        sprite_scale: 1,
        seed: Some(7),
    };
    assert_eq!(config.resolve_seed(), 7);
}

#[test]
fn sample_points_stretch_by_scale() {
    let config = WorldConfig {
        cols: 500,
        rows: 250,
        noise_scale_milli: 10,
        threshold_milli: 200,
        tile_w: 256,
        tile_h: 256,
        sprite_scale: 1,
        seed: None,
    };
    assert_eq!(config.sample_point_milli(0, 0), (0, 0));
    assert_eq!(config.sample_point_milli(7, 3), (70, 30));
    assert_eq!(config.sample_point_milli(499, 249), (4990, 2490));
}
