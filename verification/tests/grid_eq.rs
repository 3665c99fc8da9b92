// Tolerant grid equality: any two infinities match, any two NaNs match, any
// other mismatch makes the grids unequal.
use fdtd::grid::{grid_eq, Grid};

const SIZE: usize = 100;

#[test]
fn grid_eq_eq() {
    let grid1 = Grid::default();
    let grid2 = Grid::default();

    assert_eq!(grid_eq(&grid1, &grid2), true);

    let mut grid1 = Grid::new_1d(SIZE);
    let mut grid2 = Grid::new_1d(SIZE);

    grid1.ez[0] = f64::INFINITY.to_bits();
    grid2.ez[0] = f64::NEG_INFINITY.to_bits();
    assert_eq!(grid_eq(&grid1, &grid2), true);

    grid1.ez[0] = f64::NAN.to_bits();
    grid2.ez[0] = f64::NAN.to_bits();
    assert_eq!(grid_eq(&grid1, &grid2), true);
}

#[test]
fn grid_eq_neq() {
    let mut grid1 = Grid::new_1d(100);
    let grid2 = Grid::new_1d(100);

    grid1.ez[0] = 1.0f64.to_bits();
    assert_eq!(grid_eq(&grid1, &grid2), false);
    grid1.ez[0] = grid2.ez[0];

    grid1.hy[3] = (-3.0f64).to_bits();
    assert_eq!(grid_eq(&grid1, &grid2), false);
    grid1.hy[3] = grid2.hy[3];

    grid1.ez[0] = f64::INFINITY.to_bits();
    assert_eq!(grid_eq(&grid1, &grid2), false);

    grid1.ez[0] = f64::NAN.to_bits();
    assert_eq!(grid_eq(&grid1, &grid2), false);
}
