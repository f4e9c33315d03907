use kingdom::world::background::{spawn_background, update_background, BackgroundStrip};

#[test]
fn small_viewport_gets_three_tiles() {
    let (strip, offsets) = spawn_background(0);
    assert_eq!(strip.tile_count, 3);
    assert_eq!(offsets, vec![-2, 0, 2]);
    let (strip, _) = spawn_background(1);
    assert_eq!(strip.tile_count, 3);
}

#[test]
fn wide_viewport_gets_spare_tiles() {
    let (strip, offsets) = spawn_background(2);
    assert_eq!(strip.tile_count, 4);
    assert_eq!(offsets, vec![-3, -1, 1, 3]);
    let (strip, offsets) = spawn_background(3);
    assert_eq!(strip.tile_count, 5);
    assert_eq!(offsets, vec![-4, -2, 0, 2, 4]);
}

#[test]
fn snap_centers_strip_on_camera_tile() {
    let strip = BackgroundStrip { tile_count: 5 };
    assert_eq!(update_background(&strip, 7, 5), vec![5, 6, 7, 8, 9]);
    assert_eq!(update_background(&strip, -3, 5), vec![-5, -4, -3, -2, -1]);
    assert_eq!(update_background(&strip, 0, 0), Vec::<i32>::new());
}

#[test]
fn snap_even_strip_leans_right() {
    let strip = BackgroundStrip { tile_count: 4 };
    assert_eq!(update_background(&strip, 0, 4), vec![-1, 0, 1, 2]);
    let empty = BackgroundStrip { tile_count: 0 };
    assert_eq!(update_background(&empty, 2, 2), vec![2, 3]);
}

#[test]
fn snap_at_origin_matches_spawn_for_odd_strips() {
    let (strip, offsets) = spawn_background(1);
    let slots = update_background(&strip, 0, strip.tile_count);
    let doubled: Vec<i64> = slots.iter().map(|s| 2 * *s as i64).collect();
    assert_eq!(doubled, offsets);
}

#[test]
fn snap_at_origin_shifts_even_strips_by_half_a_tile() {
    let (strip, offsets) = spawn_background(2);
    assert_eq!(strip.tile_count, 4);
    let slots = update_background(&strip, 0, strip.tile_count);
    let doubled: Vec<i64> = slots.iter().map(|s| 2 * *s as i64).collect();
    assert_eq!(doubled, vec![-2, 0, 2, 4]);
    assert_eq!(offsets, vec![-3, -1, 1, 3]);
}

#[test]
fn camera_tile_is_always_in_the_strip() {
    for tile_count in 1..9usize {
        let strip = BackgroundStrip { tile_count };
        for camera_tile in -4..5i32 {
            let slots = update_background(&strip, camera_tile, tile_count);
            assert_eq!(slots[(tile_count - 1) / 2], camera_tile);
            for pair in slots.windows(2) {
                assert_eq!(pair[1], pair[0] + 1);
            }
        }
    }
}

#[test]
fn snapped_strip_covers_viewport() {
    // Half-tile units: a tile in slot s is drawn over 2s-1 ..= 2s+1, the camera
    // stands in 2c ..< 2c+2, and the viewport reaches `cover` half tiles each way.
    for cover in 0..7usize {
        let (strip, _) = spawn_background(cover);
        for camera_tile in -3..4i32 {
            let slots = update_background(&strip, camera_tile, strip.tile_count);
            let left = 2 * slots[0] as i64 - 1;
            let right = 2 * *slots.last().unwrap() as i64 + 1;
            for quarter in 0..8i64 {
                // camera positions 2c, 2c + 1/4, ..., 2c + 7/4, in quarter half tiles
                let x4 = 4 * (2 * camera_tile as i64) + quarter;
                assert!(4 * left <= x4 - 4 * cover as i64);
                assert!(x4 + 4 * cover as i64 <= 4 * right);
            }
        }
    }
}
