// Equivalence of the engine's dispatch paths on a 2D grid: the three
// accelerated paths against the direct evaluator, on default and random
// grids.
use fdtd::error::FDTDError;
use fdtd::fdtd::{Backend, FDTDSim, GridDimension, NoOpHook, Polarization};
use fdtd::grid::{grid_eq, Grid};
use rand::{thread_rng, Rng};

const SIZE_X: usize = 10;
const SIZE_Y: usize = 10;

fn default_grid(x_sz: usize, y_sz: Option<usize>) -> Grid {
    Grid::new_2d(x_sz, y_sz.expect("Need 'y_sz' for 2 dimensions."), None)
}

fn precomputed_grid(x_sz: usize, y_sz: Option<usize>) -> Grid {
    Grid::new_2d(x_sz, y_sz.expect("Need 'y_sz' for 2 dimensions."), None)
}

fn random_grid(x_sz: usize, y_sz: Option<usize>) -> Grid {
    let mut rng = thread_rng();
    let mut g = Grid::new_2d(x_sz, y_sz.expect("Need 'y_sz' for 2 dimensions."), None);
    let len = x_sz * y_sz.unwrap();
    for i in 0..len {
        g.hx[i] = rng.gen_range(-10.0..10.0f64).to_bits();
        g.chxh[i] = rng.gen_range(-10.0..10.0f64).to_bits();
        g.chxe[i] = rng.gen_range(-10.0..10.0f64).to_bits();
        g.hy[i] = rng.gen_range(-10.0..10.0f64).to_bits();
        g.chyh[i] = rng.gen_range(-10.0..10.0f64).to_bits();
        g.chye[i] = rng.gen_range(-10.0..10.0f64).to_bits();
        g.ez[i] = rng.gen_range(-10.0..10.0f64).to_bits();
        g.cezh[i] = rng.gen_range(-10.0..10.0f64).to_bits();
        g.ceze[i] = rng.gen_range(-10.0..10.0f64).to_bits();
    }
    g
}

/// A simulation that takes the combined-step accelerated path (only a
/// post-electric hook).
fn setup_step_single_accel() -> Result<FDTDSim<NoOpHook, NoOpHook>, FDTDError> {
    let mut fdtd_sim = FDTDSim::new(
        Some(GridDimension::Two(Polarization::Magnetic)),
        Some(Backend::Accelerated),
        Some(NoOpHook),
        Some(NoOpHook),
        None,
    )?;

    fdtd_sim.set_post_magnetic(None);

    Ok(fdtd_sim)
}

/// A simulation that takes the split-step accelerated path (both hooks).
fn setup_step_split_accel() -> Result<FDTDSim<NoOpHook, NoOpHook>, FDTDError> {
    let fdtd_sim = FDTDSim::new(
        Some(GridDimension::Two(Polarization::Magnetic)),
        Some(Backend::Accelerated),
        Some(NoOpHook),
        Some(NoOpHook),
        None,
    )?;

    Ok(fdtd_sim)
}

/// A simulation that takes the batched accelerated path (no hooks).
fn setup_step_batched_accel() -> Result<FDTDSim<NoOpHook, NoOpHook>, FDTDError> {
    let mut res = FDTDSim::new(
        Some(GridDimension::Two(Polarization::Magnetic)),
        Some(Backend::Accelerated),
        Some(NoOpHook),
        Some(NoOpHook),
        None,
    )?;

    res.set_post_magnetic(None);
    res.set_post_electric(None);

    Ok(res)
}

/// A simulation that takes the direct path.
fn setup_step_native() -> Result<FDTDSim<NoOpHook, NoOpHook>, FDTDError> {
    let mut res = FDTDSim::new(
        Some(GridDimension::Two(Polarization::Magnetic)),
        Some(Backend::Direct),
        Some(NoOpHook),
        Some(NoOpHook),
        None,
    )?;

    res.set_post_magnetic(None);
    res.set_post_electric(None);

    Ok(res)
}

#[test]
fn test_default_grid() {
    let mut grid1 = default_grid(SIZE_X, Some(SIZE_Y));
    let mut grid2 = grid1.clone();
    let mut grid3 = grid1.clone();
    let mut grid4 = grid1.clone();

    let mut sim_single = setup_step_single_accel().unwrap();
    let mut sim_split = setup_step_split_accel().unwrap();
    let mut sim_mul = setup_step_batched_accel().unwrap();
    let mut sim_native = setup_step_native().unwrap();

    for _ in 0..500 {
        assert_eq!(sim_single.step(&mut grid1).is_ok(), true);
        assert_eq!(sim_split.step(&mut grid2).is_ok(), true);
        assert_eq!(sim_mul.step(&mut grid3).is_ok(), true);
        assert_eq!(sim_native.step(&mut grid4).is_ok(), true);

        assert_eq!(grid1.eq(&grid2), true);
        assert_eq!(grid1.eq(&grid3), true);
        assert_eq!(grid1.eq(&grid4), true);
    }
}

#[test]
fn test_precomputed_grid() {
    let mut grid1 = precomputed_grid(SIZE_X, Some(SIZE_Y));
    let mut grid2 = grid1.clone();
    let mut grid3 = grid1.clone();
    let mut grid4 = grid1.clone();

    let mut sim_mul = setup_step_batched_accel().unwrap();
    let mut sim_single = setup_step_single_accel().unwrap();
    let mut sim_split = setup_step_split_accel().unwrap();
    let mut sim_native = setup_step_native().unwrap();

    for _ in 0..500 {
        assert_eq!(sim_single.step(&mut grid1).is_ok(), true);
        assert_eq!(sim_split.step(&mut grid2).is_ok(), true);
        assert_eq!(sim_mul.step(&mut grid3).is_ok(), true);
        assert_eq!(sim_native.step(&mut grid4).is_ok(), true);

        assert_eq!(grid1.eq(&grid2), true);
        assert_eq!(grid1.eq(&grid3), true);
        assert_eq!(grid1.eq(&grid4), true);
    }
}

#[test]
fn test_random_grid() {
    let mut grid1 = random_grid(SIZE_X, Some(SIZE_Y));
    let mut grid2 = grid1.clone();
    let mut grid3 = grid1.clone();
    let mut grid4 = grid1.clone();

    assert_eq!(grid1.eq(&grid2), true);
    assert_eq!(grid1.eq(&grid3), true);
    assert_eq!(grid1.eq(&grid4), true);

    let mut sim_single = setup_step_single_accel().unwrap();
    let mut sim_split = setup_step_split_accel().unwrap();
    let mut sim_mul = setup_step_batched_accel().unwrap();
    let mut sim_native = setup_step_native().unwrap();

    for _ in 0..500 {
        assert_eq!(sim_single.step(&mut grid1).is_ok(), true);
        assert_eq!(sim_split.step(&mut grid2).is_ok(), true);
        assert_eq!(sim_mul.step(&mut grid3).is_ok(), true);
        assert_eq!(sim_native.step(&mut grid4).is_ok(), true);

        assert_eq!(grid_eq(&grid1, &grid2), true);
        assert_eq!(grid_eq(&grid1, &grid3), true);
        assert_eq!(grid_eq(&grid1, &grid4), true);
    }
}
