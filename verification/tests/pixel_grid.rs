use astrid::color::{Color, CHANNEL_HALF, CHANNEL_ONE};
use astrid::grid::PixelGrid;
use astrid::sync::{sync, DisplaySurface};

fn default_color() -> Color {
    Color { red: CHANNEL_ONE, green: CHANNEL_ONE, blue: CHANNEL_ONE, alpha: CHANNEL_ONE }
}

#[test]
fn set_then_get_returns_color() {
    let mut grid = PixelGrid::new(8, 8);
    let c = Color { red: 1, green: 22, blue: 333, alpha: 4444 };
    assert!(grid.set(3, 5, c));
    assert_eq!(grid.get(3, 5), Some(c));
}

#[test]
fn set_then_get_every_cell() {
    let mut grid = PixelGrid::new(4, 3);
    for x in 0..4 {
        for y in 0..3 {
            let c = Color { red: x as u32, green: y as u32, blue: 0, alpha: 0 };
            assert!(grid.set(x, y, c));
            assert_eq!(grid.get(x, y), Some(c));
        }
    }
}

#[test]
fn get_out_of_range_is_absent() {
    let grid = PixelGrid::new(5, 7);
    assert_eq!(grid.get(5, 0), None);
    assert_eq!(grid.get(0, 7), None);
    assert_eq!(grid.get(5, 7), None);
    assert_eq!(grid.get(1000, 1000), None);
    assert_eq!(grid.get(usize::MAX, 0), None);
}

#[test]
fn set_out_of_range_fails_and_writes_nothing() {
    let mut grid = PixelGrid::new(5, 7);
    let mut surface = DisplaySurface::create(&grid);
    sync(&mut grid, &mut surface).unwrap();
    assert!(!grid.is_dirty());
    let c = Color { red: 0, green: 0, blue: 0, alpha: 0 };
    assert!(!grid.set(5, 0, c));
    assert!(!grid.set(0, 7, c));
    assert!(!grid.set(usize::MAX, usize::MAX, c));
    // Nothing was written and nothing was marked dirty.
    assert!(!grid.is_dirty());
    for x in 0..5 {
        for y in 0..7 {
            assert_eq!(grid.get(x, y), Some(default_color()));
        }
    }
}

#[test]
fn new_grid_has_default_cells_and_dimensions() {
    let grid = PixelGrid::new(6, 2);
    assert_eq!(grid.width(), 6);
    assert_eq!(grid.height(), 2);
    assert!(grid.is_dirty());
    for x in 0..6 {
        for y in 0..2 {
            assert_eq!(grid.get(x, y), Some(default_color()));
        }
    }
}

#[test]
fn zero_sized_grid_rejects_everything() {
    let mut grid = PixelGrid::new(0, 4);
    assert_eq!(grid.get(0, 0), None);
    assert!(!grid.set(0, 0, default_color()));
}

#[test]
fn fill_gradient_writes_expected_pattern() {
    let mut grid = PixelGrid::new(16, 16);
    grid.fill_gradient();
    let c = grid.get(3, 7).unwrap();
    assert_eq!(c.red, 3 * CHANNEL_ONE / 255);
    assert_eq!(c.green, 7 * CHANNEL_ONE / 255);
    assert_eq!(c.blue, CHANNEL_HALF);
    assert_eq!(c.alpha, CHANNEL_ONE);
    let corner = grid.get(0, 0).unwrap();
    assert_eq!(corner, Color { red: 0, green: 0, blue: CHANNEL_HALF, alpha: CHANNEL_ONE });
}
