use astrid::color::{encode_channel, Color, CHANNEL_HALF, CHANNEL_ONE};
use astrid::grid::PixelGrid;
use astrid::sync::{encode, sync, DisplaySurface, SyncError};

#[test]
fn channel_bytes_exact_values() {
    assert_eq!(encode_channel(0), 0);
    assert_eq!(encode_channel(CHANNEL_HALF), 128);
    assert_eq!(encode_channel(CHANNEL_ONE), 255);
    // One half-step below a midpoint rounds down, the midpoint rounds up.
    assert_eq!(encode_channel(1960), 0);
    assert_eq!(encode_channel(1961), 1);
    // Out-of-range channels clamp to 255.
    assert_eq!(encode_channel(u32::MAX), 255);
}

#[test]
fn encode_default_grid_is_all_255() {
    let grid = PixelGrid::new(4, 3);
    let bytes = encode(&grid);
    assert_eq!(bytes.len(), 4 * 3 * 4);
    for group in bytes.chunks(4) {
        assert_eq!(group, &[255, 255, 255, 255]);
    }
}

#[test]
fn encode_unchanged_grid_twice_is_identical() {
    let mut grid = PixelGrid::new(5, 5);
    grid.fill_gradient();
    let first = encode(&grid);
    let second = encode(&grid);
    assert_eq!(first, second);
}

#[test]
fn encode_is_row_major_x_fastest() {
    let mut grid = PixelGrid::new(3, 2);
    let c = Color { red: 0, green: CHANNEL_HALF, blue: CHANNEL_ONE, alpha: 0 };
    assert!(grid.set(1, 1, c));
    let bytes = encode(&grid);
    // Cell (1, 1) sits at row-major index 1 * 3 + 1 = 4.
    assert_eq!(&bytes[16..20], &[0, 128, 255, 0]);
    // Its neighbor (0, 1) is still the default.
    assert_eq!(&bytes[12..16], &[255, 255, 255, 255]);
}

#[test]
fn surface_mirrors_grid_at_creation() {
    let grid = PixelGrid::new(7, 2);
    let surface = DisplaySurface::create(&grid);
    assert_eq!(surface.width(), 7);
    assert_eq!(surface.height(), 2);
    assert!(surface.is_nearest());
    assert_eq!(surface.bytes().len(), 7 * 2 * 4);
    assert_eq!(surface.bytes(), &encode(&grid));
}

#[test]
fn sync_works_once_then_skips() {
    let mut grid = PixelGrid::new(4, 4);
    let mut surface = DisplaySurface::create(&grid);
    // A fresh grid is dirty: the first sync encodes it.
    assert_eq!(sync(&mut grid, &mut surface), Ok(true));
    // Nothing changed since: the next syncs skip all work.
    assert_eq!(sync(&mut grid, &mut surface), Ok(false));
    assert_eq!(sync(&mut grid, &mut surface), Ok(false));
}

#[test]
fn sync_works_exactly_once_after_one_mutation() {
    let mut grid = PixelGrid::new(4, 4);
    let mut surface = DisplaySurface::create(&grid);
    sync(&mut grid, &mut surface).unwrap();
    let c = Color { red: 0, green: 0, blue: 0, alpha: CHANNEL_ONE };
    assert!(grid.set(2, 1, c));
    assert!(grid.is_dirty());
    assert_eq!(sync(&mut grid, &mut surface), Ok(true));
    assert!(!grid.is_dirty());
    assert_eq!(sync(&mut grid, &mut surface), Ok(false));
    // The one mutated cell reached the surface: index 1 * 4 + 2 = 6.
    assert_eq!(&surface.bytes()[24..28], &[0, 0, 0, 255]);
}

#[test]
fn sync_rejects_dimension_mismatch_untouched() {
    let mut big = PixelGrid::new(4, 4);
    let small = PixelGrid::new(2, 2);
    let mut surface = DisplaySurface::create(&small);
    let before = surface.bytes().clone();
    assert_eq!(sync(&mut big, &mut surface), Err(SyncError::DimensionMismatch));
    // Loud rejection: neither side was touched.
    assert_eq!(surface.bytes(), &before);
    assert!(big.is_dirty());
}
