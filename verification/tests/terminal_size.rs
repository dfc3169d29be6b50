//! Sizes, and the cell under a pixel.
use terminal_backend::backend::Backend;
use terminal_backend::size::{
    does_point_exist, CellSize, GridFit, LayoutSize, TerminalSize, WindowSize,
    DEFAULT_LAYOUT_HEIGHT, DEFAULT_LAYOUT_WIDTH,
};

fn bits(width: f32, height: f32) -> LayoutSize {
    LayoutSize { width: width.to_bits(), height: height.to_bits() }
}

fn sized(cols: u16, lines: u16, cell_width: u16, cell_height: u16) -> TerminalSize {
    let mut size = TerminalSize::default();
    size.measure(None, Some(CellSize { width: cell_width, height: cell_height }));
    size.fit_grid(GridFit { lines, cols, width: 0, height: 0 });
    size
}

#[test]
fn default_size() {
    let size = TerminalSize::default();
    assert_eq!(size.cell_width, 1);
    assert_eq!(size.cell_height, 1);
    assert_eq!(size.columns(), 80);
    assert_eq!(size.screen_lines(), 50);
    assert_eq!(size.total_lines(), 50);
    assert_eq!(size.last_column(), 79);
    assert_eq!(size.bottommost_line(), 49);
    assert_eq!(size.layout, bits(80.0, 50.0));
}

#[test]
fn default_layout_is_80_by_50() {
    assert_eq!(f32::from_bits(DEFAULT_LAYOUT_WIDTH), 80.0);
    assert_eq!(f32::from_bits(DEFAULT_LAYOUT_HEIGHT), 50.0);
}

#[test]
fn measuring_takes_over_what_is_given() {
    let mut size = TerminalSize::default();
    size.measure(Some(bits(800.5, 600.25)), None);
    assert_eq!(size.layout, bits(800.5, 600.25));
    assert_eq!(size.cell_width, 1);
    size.measure(None, Some(CellSize { width: 8, height: 16 }));
    assert_eq!(size.layout, bits(800.5, 600.25));
    assert_eq!((size.cell_width, size.cell_height), (8, 16));
    assert_eq!((size.columns(), size.screen_lines()), (80, 50));
}

#[test]
fn fitting_takes_over_the_grid() {
    let mut size = TerminalSize::default();
    let told = size.fit_grid(GridFit { lines: 37, cols: 100, width: 800, height: 600 });
    assert_eq!(told, Some(WindowSize { rows: 37, cols: 100, width: 800, height: 600 }));
    assert_eq!((size.columns(), size.screen_lines()), (100, 37));
}

#[test]
fn grid_never_loses_its_cells() {
    let mut size = TerminalSize::default();
    assert_eq!(size.fit_grid(GridFit { lines: 0, cols: 100, width: 800, height: 6 }), None);
    assert_eq!(size.fit_grid(GridFit { lines: 10, cols: 0, width: 6, height: 600 }), None);
    assert_eq!((size.columns(), size.screen_lines()), (80, 50));
}

#[test]
fn point_is_the_cell_that_covers_the_pixel() {
    let size = sized(100, 37, 8, 16);
    let origin = Backend::selection_point(0, 0, &size, 0);
    assert_eq!((origin.row, origin.col), (0, 0));
    let edge = Backend::selection_point(7, 15, &size, 0);
    assert_eq!((edge.row, edge.col), (0, 0));
    let next = Backend::selection_point(8, 16, &size, 0);
    assert_eq!((next.row, next.col), (1, 1));
    let far = Backend::selection_point(8 * 99 + 3, 16 * 36 + 3, &size, 0);
    assert_eq!((far.row, far.col), (36, 99));
}

#[test]
fn point_beyond_the_grid_is_the_nearest_cell() {
    let size = sized(100, 37, 8, 16);
    let point = Backend::selection_point(100_000, 100_000, &size, 0);
    assert_eq!((point.row, point.col), (36, 99));
}

#[test]
fn scrolled_display_shifts_rows_only() {
    let size = sized(100, 37, 8, 16);
    for offset in [0usize, 1, 5, 400] {
        let point = Backend::selection_point(17, 33, &size, offset);
        assert_eq!((point.row, point.col), (2 - offset as i32, 2));
    }
}

#[test]
fn cells_without_extent_have_no_points() {
    assert!(!does_point_exist(0, &sized(10, 10, 0, 16), 0));
    assert!(!does_point_exist(0, &sized(10, 10, 8, 0), 0));
    assert!(does_point_exist(0, &sized(10, 10, 8, 16), 0));
}

#[test]
fn rows_without_a_number_do_not_exist() {
    let size = sized(10, 10, 8, 16);
    assert!(does_point_exist(0, &size, i32::MAX as usize));
    assert!(!does_point_exist(16, &size, 1 << 31));
    assert!(!does_point_exist(0, &size, 1 << 31));
}
