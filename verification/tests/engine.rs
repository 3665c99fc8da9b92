// Engine-level behaviour: stability of a source-free domain, deterministic
// replay, batched stepping, and the error kinds.
use fdtd::error::FDTDError;
use fdtd::fdtd::{coeffs_check, Backend, FDTDSim, GridDimension, NoOpHook, Polarization};
use fdtd::grid::{Grid, IMP0};
use fdtd::source::{TfsfElectric1d, TfsfMagnetic1d};

fn all_zero(v: &Vec<u64>) -> bool {
    v.iter().all(|&b| b == 0)
}

#[test]
fn source_free_1d_stays_zero() {
    let mut g = Grid::new_1d(50);
    let mut sim: FDTDSim<NoOpHook, NoOpHook> =
        FDTDSim::new(Some(GridDimension::One), None, None, None, None).unwrap();
    for _ in 0..100 {
        assert!(sim.step(&mut g).is_ok());
    }
    assert!(all_zero(&g.hy));
    assert!(all_zero(&g.ez));
}

#[test]
fn source_free_2d_stays_zero() {
    let mut g = Grid::new_2d(8, 9, None);
    let mut sim: FDTDSim<NoOpHook, NoOpHook> = FDTDSim::new(
        Some(GridDimension::Two(Polarization::Magnetic)),
        None,
        None,
        None,
        None,
    )
    .unwrap();
    for _ in 0..50 {
        assert!(sim.step(&mut g).is_ok());
    }
    assert!(all_zero(&g.hx));
    assert!(all_zero(&g.hy));
    assert!(all_zero(&g.ez));
}

#[test]
fn source_free_3d_stays_zero() {
    let mut g = Grid::new_3d(4, 5, 3, None);
    let mut sim: FDTDSim<NoOpHook, NoOpHook> =
        FDTDSim::new(Some(GridDimension::Three), None, None, None, None).unwrap();
    assert!(sim.step_mul(&mut g, 20).is_ok());
    assert!(all_zero(&g.hx));
    assert!(all_zero(&g.hy));
    assert!(all_zero(&g.hz));
    assert!(all_zero(&g.ex));
    assert!(all_zero(&g.ey));
    assert!(all_zero(&g.ez));
}

fn tfsf_sim_1d() -> FDTDSim<TfsfMagnetic1d, TfsfElectric1d> {
    let post_magnetic = TfsfMagnetic1d {
        idx: 49,
        delay: 30.0f64.to_bits(),
        width_sq: 100.0f64.to_bits(),
        imp: IMP0,
        t_bits: 0,
    };
    let post_electric = TfsfElectric1d {
        idx: 50,
        delay: 30.0f64.to_bits(),
        width_sq: 100.0f64.to_bits(),
        t_bits: 0,
    };
    FDTDSim::new(
        Some(GridDimension::One),
        None,
        Some(post_magnetic),
        Some(post_electric),
        None,
    )
    .unwrap()
}

#[test]
fn deterministic_replay_1d() {
    let mut g1 = Grid::new_1d(200);
    let mut g2 = Grid::new_1d(200);
    let mut sim1 = tfsf_sim_1d();
    let mut sim2 = tfsf_sim_1d();
    for _ in 0..450 {
        assert!(sim1.step(&mut g1).is_ok());
        assert!(sim2.step(&mut g2).is_ok());
    }
    assert!(g1 == g2);
    // The run moved energy: the grids are not still all-zero.
    assert!(!all_zero(&g1.ez));
}

#[test]
fn step_mul_equals_repeated_step() {
    let mut g1 = Grid::new_2d(10, 10, None);
    g1.ez[55] = 1.0f64.to_bits();
    let mut g2 = g1.clone();

    let mut sim_batched: FDTDSim<NoOpHook, NoOpHook> = FDTDSim::new(
        Some(GridDimension::Two(Polarization::Magnetic)),
        Some(Backend::Accelerated),
        None,
        None,
        None,
    )
    .unwrap();
    let mut sim_direct: FDTDSim<NoOpHook, NoOpHook> = FDTDSim::new(
        Some(GridDimension::Two(Polarization::Magnetic)),
        Some(Backend::Direct),
        None,
        None,
        None,
    )
    .unwrap();

    assert!(sim_batched.step_mul(&mut g1, 40).is_ok());
    for _ in 0..40 {
        assert!(sim_direct.step(&mut g2).is_ok());
    }
    assert!(g1 == g2);
    assert!(!all_zero(&g1.ez));
}

#[test]
fn unsupported_polarization_is_fatal() {
    let mut g = Grid::new_2d(10, 10, None);
    let mut sim: FDTDSim<NoOpHook, NoOpHook> = FDTDSim::new(
        Some(GridDimension::Two(Polarization::Electric)),
        None,
        None,
        None,
        None,
    )
    .unwrap();
    let before = g.clone();
    assert_eq!(sim.step(&mut g), Err(FDTDError::UnimplementedConfiguration));
    assert!(g == before);
}

#[test]
fn missing_context_is_reported() {
    let mut g = Grid::new_1d(20);
    let mut sim: FDTDSim<NoOpHook, NoOpHook> = FDTDSim {
        dimension: GridDimension::One,
        backend: Backend::Accelerated,
        backend_context: None,
        post_magnetic: None,
        post_electric: None,
        time: 0,
    };
    assert_eq!(sim.step(&mut g), Err(FDTDError::BackendInitializationFailure));
}

#[test]
fn shape_mismatch_direct_is_length_mismatch() {
    // A 1D grid handed to a 2D engine has no 2D arrays.
    let mut g = Grid::new_1d(20);
    let mut sim: FDTDSim<NoOpHook, NoOpHook> = FDTDSim::new(
        Some(GridDimension::Two(Polarization::Magnetic)),
        Some(Backend::Direct),
        None,
        None,
        None,
    )
    .unwrap();
    let before = g.clone();
    assert_eq!(sim.step(&mut g), Err(FDTDError::LengthMismatch));
    assert!(g == before);
}

#[test]
fn shape_mismatch_accelerated_is_transfer_failure() {
    let mut g = Grid::new_1d(20);
    let mut sim: FDTDSim<NoOpHook, NoOpHook> = FDTDSim::new(
        Some(GridDimension::Two(Polarization::Magnetic)),
        Some(Backend::Accelerated),
        None,
        None,
        None,
    )
    .unwrap();
    assert_eq!(sim.step(&mut g), Err(FDTDError::BackendTransferFailure));
}

#[test]
fn coefficient_length_mismatch_rejected() {
    let mut g = Grid::new_1d(10);
    let before = g.clone();

    let short = vec![0u64; 9];
    let right = vec![0u64; 10];
    assert_eq!(
        g.set_ez_coefficients(right.clone(), short.clone()),
        Err(FDTDError::LengthMismatch)
    );
    assert_eq!(
        g.set_ez_coefficients(short.clone(), right.clone()),
        Err(FDTDError::LengthMismatch)
    );
    assert_eq!(
        g.set_hy_coefficients(short.clone(), short.clone()),
        Err(FDTDError::LengthMismatch)
    );
    assert_eq!(g.set_hx_coefficients(vec![0u64; 1], vec![0u64; 1]), Err(FDTDError::LengthMismatch));
    assert!(g == before);

    assert_eq!(g.set_ez_coefficients(right.clone(), right.clone()), Ok(()));
    assert_eq!(g.set_hy_coefficients(right.clone(), right.clone()), Ok(()));
    assert!(g.ceze.iter().all(|&b| b == 0));

    // Empty unused arrays accept only empty replacements.
    assert_eq!(g.set_hx_coefficients(Vec::new(), Vec::new()), Ok(()));
    assert_eq!(FDTDError::LengthMismatch.as_str(), "length mismatch");
}

#[test]
fn default_coefficients_are_nonneg_finite() {
    assert!(coeffs_check(GridDimension::One, &Grid::new_1d(12)));
    assert!(coeffs_check(
        GridDimension::Two(Polarization::Magnetic),
        &Grid::new_2d(6, 7, None)
    ));
    assert!(coeffs_check(GridDimension::Three, &Grid::new_3d(3, 4, 5, None)));

    let mut g = Grid::new_1d(12);
    g.cezh[3] = (-1.0f64).to_bits();
    assert!(!coeffs_check(GridDimension::One, &g));
    g.cezh[3] = f64::INFINITY.to_bits();
    assert!(!coeffs_check(GridDimension::One, &g));
}
