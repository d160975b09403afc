use tileworld::camera::CameraState;
use tileworld::camera::lerp_milli;
use tileworld::camera::update_camera;
use tileworld::coords::CoordinateMapper;
use tileworld::movement::DirectionKeys;
use tileworld::movement::Player;
use tileworld::movement::normalized_intent;
use tileworld::movement::player_movement_tick;

fn keys(up: bool, down: bool, left: bool, right: bool) -> DirectionKeys {
    DirectionKeys { up, down, left, right }
}

#[test]
fn right_only_gives_unit_intent() {
    assert_eq!(normalized_intent(keys(false, false, false, true)), (1000, 0));
}

#[test]
fn diagonal_intent_has_unit_magnitude() {
    let (nx, ny) = normalized_intent(keys(true, false, false, true));
    assert_eq!((nx, ny), (707, 707));
    let mag2 = nx * nx + ny * ny;
    assert!(999698 <= mag2 && mag2 <= 1000000);
    // In floating point: each component is 0.707, within rounding of
    // 1/sqrt(2).
    let fx = nx as f64 / 1000.0;
    assert!((fx - 0.70710678).abs() < 0.001);
}

#[test]
fn opposing_presses_cancel() {
    assert_eq!(normalized_intent(keys(false, false, true, true)), (0, 0));
    assert_eq!(normalized_intent(keys(true, true, false, false)), (0, 0));
}

#[test]
fn bindings_fold_into_logical_directions() {
    let folded = DirectionKeys::fold_bindings(false, true, false, false, true, false, false, false);
    assert_eq!(folded, keys(true, false, true, false));
}

#[test]
fn movement_tick_integrates_position() {
    // Speed 840 px/s for 16 ms to the right: 13.44 px, exactly 13440
    // millipixels.
    let mut player = Player { x: 0, y: 0, flip_x: false };
    player_movement_tick(&mut player, keys(false, false, false, true), 840, 16);
    assert_eq!(player.x, 13440);
    assert_eq!(player.y, 0);
    assert!(!player.flip_x);
}

#[test]
fn moving_left_mirrors_the_sprite() {
    let mut player = Player { x: 100_000, y: 0, flip_x: false };
    player_movement_tick(&mut player, keys(false, false, true, false), 840, 16);
    assert_eq!(player.x, 100_000 - 13440);
    assert!(player.flip_x);
}

#[test]
fn vertical_movement_keeps_mirror_state() {
    let mut player = Player { x: 0, y: 0, flip_x: true };
    player_movement_tick(&mut player, keys(true, false, false, false), 840, 16);
    assert_eq!(player.y, 13440);
    assert!(player.flip_x, "mirroring is sticky on vertical-only movement");
    player.flip_x = false;
    player_movement_tick(&mut player, keys(false, true, false, false), 840, 16);
    assert!(!player.flip_x);
}

#[test]
fn camera_converges_halving_the_gap() {
    // Camera at 0, target at 100 px, rate * dt = 0.5 per tick: the x
    // sequence is 50, 75, 87.5 px, strictly increasing, never above 100.
    let mut cam = CameraState { x: 0, y: 0 };
    let target = Some((100_000, 0));
    update_camera(&mut cam, target, 500);
    assert_eq!(cam.x, 50_000);
    update_camera(&mut cam, target, 500);
    assert_eq!(cam.x, 75_000);
    update_camera(&mut cam, target, 500);
    assert_eq!(cam.x, 87_500);
    let mut last = cam.x;
    for _ in 0..100 {
        update_camera(&mut cam, target, 500);
        assert!(cam.x >= last);
        assert!(cam.x <= 100_000, "the camera never overshoots the target");
        last = cam.x;
    }
}

#[test]
fn camera_without_target_stays_put() {
    let mut cam = CameraState { x: 123, y: -456 };
    update_camera(&mut cam, None, 500);
    assert_eq!(cam.x, 123);
    assert_eq!(cam.y, -456);
}

#[test]
fn lerp_fraction_is_clamped() {
    // A fraction above one whole step lands exactly on the target, and a
    // negative fraction does not move at all.
    assert_eq!(lerp_milli(10, 20, 5000), 20);
    assert_eq!(lerp_milli(10, 20, -3), 10);
    assert_eq!(lerp_milli(20, 10, 5000), 10);
}

#[test]
fn grid_cells_map_to_scaled_tile_corners() {
    let mapper = CoordinateMapper { tile_w: 256, tile_h: 256, scale: 1 };
    assert_eq!(mapper.to_world(0, 0), (0, 0));
    assert_eq!(mapper.to_world(1, 0), (256, 0));
    assert_eq!(mapper.to_world(0, 1), (0, 256));
    assert_eq!(mapper.to_world(499, 249), (499 * 256, 249 * 256));
    let scaled = CoordinateMapper { tile_w: 16, tile_h: 32, scale: 3 };
    assert_eq!(scaled.to_world(2, 5), (2 * 16 * 3, 5 * 32 * 3));
}

#[test]
fn adjacent_cells_sit_one_tile_apart() {
    let mapper = CoordinateMapper { tile_w: 256, tile_h: 128, scale: 2 };
    for c in 0..10u32 {
        for r in 0..10u32 {
            let (x0, y0) = mapper.to_world(c, r);
            let (x1, y1) = mapper.to_world(c + 1, r);
            let (x2, y2) = mapper.to_world(c, r + 1);
            assert_eq!((x1 - x0, y1 - y0), (256 * 2, 0));
            assert_eq!((x2 - x0, y2 - y0), (0, 128 * 2));
        }
    }
}
