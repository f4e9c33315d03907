//! World background: the infinitely-repeating meadow.
//!
//! The meadow is a strip of identical, horizontally seamless tiles. At spawn
//! the strip is laid out centered on the world origin; every frame it is
//! snapped to a contiguous block of tile slots centered on the tile the camera
//! is over, so the meadow appears endless.
//!
//! Positions here are in whole tiles (slots) or half tiles (spawn offsets);
//! the caller scales them by the tile width in world units.

use vstd::prelude::*;

verus! {

/// The number of background tiles that cover the viewport.
pub struct BackgroundStrip {
    pub tile_count: usize,
}

/// The number of tiles in a strip for a viewport that `tiles_to_cover` tiles
/// span: one spare tile on each side, and never fewer than three.
pub open spec fn strip_tile_count(tiles_to_cover: usize) -> int {
    if tiles_to_cover + 2 >= 3 {
        tiles_to_cover + 2
    } else {
        3
    }
}

/// Where tile `i` of a strip of `tile_count` tiles is spawned, in half tiles
/// from the origin: the strip is centered on the origin.
pub open spec fn spawn_offset(i: int, tile_count: int) -> int {
    2 * i - (tile_count - 1)
}

/// How many tiles of a strip lie left of its center tile.
pub open spec fn half_span(tile_count: usize) -> int {
    if tile_count == 0 {
        0
    } else {
        (tile_count - 1) / 2
    }
}

/// The slot of the strip's first tile when the camera is over `camera_tile`.
pub open spec fn start_slot(camera_tile: i32, tile_count: usize) -> int {
    camera_tile - half_span(tile_count)
}

/// Lays out the background strip at spawn.
///
/// Returns the strip (its tile count) and, for each tile in order, its
/// horizontal position in half tiles from the origin.
pub fn spawn_background(tiles_to_cover: usize) -> (spawn: (BackgroundStrip, Vec<i64>))
    requires
        tiles_to_cover <= usize::MAX - 2,
        tiles_to_cover < 0x2000_0000_0000_0000,
    ensures
        spawn.0.tile_count == strip_tile_count(tiles_to_cover),
        spawn.1@.len() == spawn.0.tile_count,
        forall|i: int|
            0 <= i < spawn.1@.len() ==> #[trigger] spawn.1@[i] == spawn_offset(
                i,
                spawn.0.tile_count as int,
            ),
{
    let padded = tiles_to_cover + 2;
    let tile_count: usize = if padded >= 3 {
        padded
    } else {
        3
    };
    let mut offsets: Vec<i64> = Vec::new();
    let last: i64 = (tile_count - 1) as i64;
    let mut i: usize = 0;
    while i < tile_count
        invariant
            tile_count == strip_tile_count(tiles_to_cover),
            tile_count < 0x2000_0000_0000_0003,
            last == tile_count - 1,
            i <= tile_count,
            offsets@.len() == i,
            forall|j: int| 0 <= j < i ==> #[trigger] offsets@[j] == spawn_offset(j, tile_count as int),
        decreases tile_count - i,
    {
        let offset: i64 = 2 * (i as i64) - last;
        offsets.push(offset);
        i = i + 1;
    }
    (BackgroundStrip { tile_count }, offsets)
}

/// Snaps the background tiles to slots around the camera.
///
/// Given the tile the camera is over and the number of tile entities, returns
/// the slot of each tile in order: a contiguous run of slots that starts
/// `(tile_count - 1) / 2` slots left of the camera's tile.
pub fn update_background(strip: &BackgroundStrip, camera_tile: i32, tiles: usize) -> (slots: Vec<i32>)
    requires
        strip.tile_count <= i32::MAX,
        tiles <= i32::MAX + 1,
        i32::MIN <= start_slot(camera_tile, strip.tile_count),
        tiles > 0 ==> start_slot(camera_tile, strip.tile_count) + tiles - 1 <= i32::MAX,
    ensures
        slots@.len() == tiles,
        forall|i: int|
            0 <= i < tiles ==> #[trigger] slots@[i] == start_slot(camera_tile, strip.tile_count) + i,
{
    let half: i32 = if strip.tile_count == 0 {
        0
    } else {
        ((strip.tile_count - 1) / 2) as i32
    };
    let start_tile: i32 = camera_tile - half;
    let mut slots: Vec<i32> = Vec::new();
    let mut i: usize = 0;
    while i < tiles
        invariant
            start_tile == start_slot(camera_tile, strip.tile_count),
            tiles <= i32::MAX + 1,
            tiles > 0 ==> start_tile + tiles - 1 <= i32::MAX,
            i <= tiles,
            slots@.len() == i,
            forall|j: int| 0 <= j < i ==> #[trigger] slots@[j] == start_tile + j,
        decreases tiles - i,
    {
        let slot: i32 = start_tile + (i as i32);
        slots.push(slot);
        i = i + 1;
    }
    slots
}

/// The spawned strip covers the viewport with a spare tile on each side, has
/// at least three tiles, and is symmetric about the origin.
pub proof fn lemma_spawned_strip_covers(tiles_to_cover: usize, i: int)
    requires
        0 <= i < strip_tile_count(tiles_to_cover),
    ensures
        strip_tile_count(tiles_to_cover) >= tiles_to_cover + 2,
        strip_tile_count(tiles_to_cover) >= 3,
        spawn_offset(i, strip_tile_count(tiles_to_cover)) == -spawn_offset(
            strip_tile_count(tiles_to_cover) - 1 - i,
            strip_tile_count(tiles_to_cover),
        ),
        i + 1 < strip_tile_count(tiles_to_cover) ==> spawn_offset(i + 1, strip_tile_count(tiles_to_cover))
            == spawn_offset(i, strip_tile_count(tiles_to_cover)) + 2,
{
}

/// Wherever the camera is, the snapped strip contains the camera's tile: it
/// sits at the strip's center index, and the strip runs one slot per tile
/// without gaps.
pub proof fn lemma_camera_tile_covered(camera_tile: i32, tile_count: usize)
    requires
        tile_count >= 1,
    ensures
        0 <= half_span(tile_count) < tile_count,
        start_slot(camera_tile, tile_count) + half_span(tile_count) == camera_tile,
        start_slot(camera_tile, tile_count) <= camera_tile < start_slot(camera_tile, tile_count)
            + tile_count,
{
}

/// For a strip with an odd number of tiles, snapping with the camera over tile
/// 0 puts every tile exactly where it was spawned.
pub proof fn lemma_snap_matches_spawn(tile_count: usize, i: int)
    requires
        tile_count % 2 == 1,
        0 <= i < tile_count,
    ensures
        spawn_offset(i, tile_count as int) == 2 * (start_slot(0, tile_count) + i),
{
}

/// The snapped strip covers the whole viewport, so the meadow looks endless.
///
/// Positions are in half tiles. A tile in slot `s` is drawn centered on
/// `2 * s`, so it spans `2 * s - 1 ..= 2 * s + 1`, and the strip snapped around
/// `camera_tile` spans `2 * start_slot - 1 ..= 2 * (start_slot + count) - 1`.
/// The camera stands anywhere in its tile, `2 * camera_tile <= x < 2 * camera_tile + 2`,
/// and the viewport, `tiles_to_cover` tiles wide, reaches `tiles_to_cover`
/// half tiles to either side of `x`. The two clauses bound the strip's edges
/// by the viewport's edges at the ends of that interval, so for every such `x`
/// the viewport `x - tiles_to_cover ..= x + tiles_to_cover` lies inside the
/// drawn strip.
pub proof fn lemma_strip_covers_viewport(tiles_to_cover: usize, camera_tile: i32)
    requires
        strip_tile_count(tiles_to_cover) <= usize::MAX,
    ensures
        ({
            let count = strip_tile_count(tiles_to_cover) as usize;
            let left_edge = 2 * start_slot(camera_tile, count) - 1;
            let right_edge = 2 * (start_slot(camera_tile, count) + count) - 1;
            &&& left_edge <= 2 * camera_tile - tiles_to_cover
            &&& 2 * camera_tile + 2 + tiles_to_cover <= right_edge
        }),
{
}

} // verus!
