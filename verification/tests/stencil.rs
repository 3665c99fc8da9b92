// Stencil arithmetic against hand-computed IEEE values, default coefficient
// construction, boundary-filter coefficients, and absorption against a naive
// edge.
use fdtd::abc::{advection_abc_1st_order, advection_abc_2nd_order, Abc1, Abc2};
use fdtd::fdtd::{FDTDSim, GridDimension, HookPair, NoOpHook};
use fdtd::grid::{Grid, IMP0};
use fdtd::source::{NaiveEdge, TfsfElectric1d, TfsfMagnetic1d};
use fdtd::step::{electric_1d, magnetic_1d, magnetic_2d};

const IMP0_F: f64 = 377.0;

#[test]
fn magnetic_1d_exact_values() {
    let mut g = Grid::new_1d(3);
    g.ez = vec![2.0f64.to_bits(), 5.0f64.to_bits(), 7.0f64.to_bits()];
    g.hy = vec![1.0f64.to_bits(), 4.0f64.to_bits(), 9.0f64.to_bits()];
    g.chyh = vec![0.5f64.to_bits(); 3];
    g.chye = vec![3.0f64.to_bits(); 3];
    magnetic_1d(&mut g);
    assert_eq!(f64::from_bits(g.hy[0]), 0.5 * 1.0 + 3.0 * (5.0 - 2.0));
    assert_eq!(f64::from_bits(g.hy[1]), 0.5 * 4.0 + 3.0 * (7.0 - 5.0));
    // The rightmost magnetic cell is outside the stencil and stays put.
    assert_eq!(f64::from_bits(g.hy[2]), 9.0);
    // The electric field is untouched by the magnetic half-step.
    assert_eq!(f64::from_bits(g.ez[1]), 5.0);
}

#[test]
fn electric_1d_exact_values() {
    let mut g = Grid::new_1d(3);
    g.ez = vec![2.0f64.to_bits(), 5.0f64.to_bits(), 7.0f64.to_bits()];
    g.hy = vec![1.0f64.to_bits(), 4.0f64.to_bits(), 9.0f64.to_bits()];
    g.ceze = vec![0.25f64.to_bits(); 3];
    g.cezh = vec![2.0f64.to_bits(); 3];
    electric_1d(&mut g);
    // The leftmost electric cell is outside the stencil and stays put.
    assert_eq!(f64::from_bits(g.ez[0]), 2.0);
    assert_eq!(f64::from_bits(g.ez[1]), 0.25 * 5.0 + 2.0 * (4.0 - 1.0));
    assert_eq!(f64::from_bits(g.ez[2]), 0.25 * 7.0 + 2.0 * (9.0 - 4.0));
}

#[test]
fn magnetic_2d_exact_values() {
    // A 2-by-2 grid: hx updates at columns below the last, hy at rows below
    // the last, with the row-major layout index = m*y_sz + n.
    let mut g = Grid::new_2d(2, 2, Some(1.0f64.to_bits()));
    g.ez = vec![
        1.0f64.to_bits(),
        2.0f64.to_bits(),
        4.0f64.to_bits(),
        8.0f64.to_bits(),
    ];
    g.hx = vec![3.0f64.to_bits(); 4];
    g.hy = vec![5.0f64.to_bits(); 4];
    g.chxh = vec![1.0f64.to_bits(); 4];
    g.chxe = vec![2.0f64.to_bits(); 4];
    g.chyh = vec![1.0f64.to_bits(); 4];
    g.chye = vec![2.0f64.to_bits(); 4];
    magnetic_2d(&mut g);
    // hx(0,0) = hx - chxe*(ez(0,1) - ez(0,0)); hx(1,0) likewise.
    assert_eq!(f64::from_bits(g.hx[0]), 3.0 - 2.0 * (2.0 - 1.0));
    assert_eq!(f64::from_bits(g.hx[2]), 3.0 - 2.0 * (8.0 - 4.0));
    assert_eq!(f64::from_bits(g.hx[1]), 3.0);
    assert_eq!(f64::from_bits(g.hx[3]), 3.0);
    // hy(0,n) = hy + chye*(ez(1,n) - ez(0,n)).
    assert_eq!(f64::from_bits(g.hy[0]), 5.0 + 2.0 * (4.0 - 1.0));
    assert_eq!(f64::from_bits(g.hy[1]), 5.0 + 2.0 * (8.0 - 2.0));
    assert_eq!(f64::from_bits(g.hy[2]), 5.0);
    assert_eq!(f64::from_bits(g.hy[3]), 5.0);
}

#[test]
fn default_coefficients_1d() {
    let g = Grid::new_1d(4);
    assert_eq!(g.x_sz, 4);
    for i in 0..4 {
        assert_eq!(f64::from_bits(g.chyh[i]), 1.0);
        assert_eq!(f64::from_bits(g.chye[i]), 1.0 / IMP0_F);
        assert_eq!(f64::from_bits(g.ceze[i]), 1.0);
        assert_eq!(f64::from_bits(g.cezh[i]), IMP0_F);
        assert_eq!(g.hy[i], 0);
        assert_eq!(g.ez[i], 0);
    }
    assert_eq!(g.hx.len(), 0);
    assert_eq!(g.chxh.len(), 0);
    assert_eq!(g.chxe.len(), 0);
    assert_eq!(g.hz.len(), 0);
    assert_eq!(g.chzh.len(), 0);
    assert_eq!(g.chze.len(), 0);
    assert_eq!(g.ex.len(), 0);
    assert_eq!(g.cexe.len(), 0);
    assert_eq!(g.cexh.len(), 0);
    assert_eq!(g.ey.len(), 0);
    assert_eq!(g.ceye.len(), 0);
    assert_eq!(g.ceyh.len(), 0);
    assert_eq!(f64::from_bits(g.cdtds), 1.0);
    assert_eq!(f64::from_bits(IMP0), IMP0_F);
}

#[test]
fn default_coefficients_2d() {
    let g = Grid::new_2d(3, 5, None);
    let cdtds = f64::from_bits(g.cdtds);
    assert_eq!(cdtds, 1.0 / 2.0f64.sqrt());
    for i in 0..15 {
        assert_eq!(f64::from_bits(g.chxh[i]), 1.0);
        assert_eq!(f64::from_bits(g.chxe[i]), cdtds / IMP0_F);
        assert_eq!(f64::from_bits(g.chyh[i]), 1.0);
        assert_eq!(f64::from_bits(g.chye[i]), 1.0 / IMP0_F);
        assert_eq!(f64::from_bits(g.ceze[i]), 1.0);
        assert_eq!(f64::from_bits(g.cezh[i]), cdtds * IMP0_F);
    }
    assert_eq!(g.hz.len(), 0);
    assert_eq!(g.chzh.len(), 0);
    assert_eq!(g.chze.len(), 0);
    assert_eq!(g.ex.len(), 0);
    assert_eq!(g.cexe.len(), 0);
    assert_eq!(g.cexh.len(), 0);
    assert_eq!(g.ey.len(), 0);
    assert_eq!(g.ceye.len(), 0);
    assert_eq!(g.ceyh.len(), 0);
}

#[test]
fn default_coefficients_3d() {
    let g = Grid::new_3d(2, 3, 4, None);
    let cdtds = f64::from_bits(g.cdtds);
    assert_eq!(cdtds, 1.0 / 3.0f64.sqrt());
    assert_eq!(g.hx.len(), 24);
    assert_eq!(g.ez.len(), 24);
    for i in 0..24 {
        assert_eq!(f64::from_bits(g.chxe[i]), cdtds / IMP0_F);
        assert_eq!(f64::from_bits(g.cexh[i]), cdtds * IMP0_F);
        assert_eq!(f64::from_bits(g.cexe[i]), 1.0);
    }
}

#[test]
fn abc1_coefficients_match_formula() {
    let cezh = vec![4.0f64.to_bits(); 6];
    let chye = vec![1.0f64.to_bits(); 6];
    let f = advection_abc_1st_order(&cezh, &chye);
    let tmp = (4.0f64 * 1.0).sqrt();
    let expected = ((tmp - 1.0) / (tmp + 1.0)).to_bits();
    assert_eq!(f.coef_left, expected);
    assert_eq!(f.coef_right, expected);
    assert_eq!(f.old_left, 0);
    assert_eq!(f.old_right, 0);
}

#[test]
fn abc2_coefficients_match_formula() {
    let cezh = vec![(IMP0_F / 9.0).to_bits(); 6];
    let chye = vec![(1.0 / IMP0_F).to_bits(); 6];
    let f = advection_abc_2nd_order(&cezh, &chye);
    let tmp1 = (f64::from_bits(cezh[0]) * f64::from_bits(chye[0])).sqrt();
    let tmp2 = 1.0 / tmp1 + 2.0 + tmp1;
    assert_eq!(f.cl0, ((-(1.0 / tmp1 - 2.0 + tmp1)) / tmp2).to_bits());
    assert_eq!(f.cl1, ((-2.0 * (tmp1 - 1.0 / tmp1)) / tmp2).to_bits());
    assert_eq!(f.cl2, ((4.0 * (tmp1 + 1.0 / tmp1)) / tmp2).to_bits());
    assert_eq!(f.or2_2, 0);
}

fn max_abs(v: &Vec<u64>) -> f64 {
    v.iter().fold(0.0f64, |m, &b| {
        let x = f64::from_bits(b).abs();
        if x > m {
            x
        } else {
            m
        }
    })
}

#[test]
fn abc_absorbs_where_naive_edge_reflects() {
    // A Gaussian pulse launched at the total-field interface travels to the
    // boundaries; the 1st-order boundary filter, applied after the electric
    // half-step, absorbs it, while the naive fixed-edge termination leaves
    // the reflection in the domain.
    let delay = 30.0f64.to_bits();
    let width_sq = 100.0f64.to_bits();

    let mut g_abc = Grid::new_1d(200);
    let abc = advection_abc_1st_order(&g_abc.cezh, &g_abc.chye);
    let mut sim_abc: FDTDSim<TfsfMagnetic1d, HookPair<TfsfElectric1d, Abc1>> = FDTDSim::new(
        Some(GridDimension::One),
        None,
        Some(TfsfMagnetic1d { idx: 49, delay, width_sq, imp: IMP0, t_bits: 0 }),
        Some(HookPair {
            first: TfsfElectric1d { idx: 50, delay, width_sq, t_bits: 0 },
            second: abc,
        }),
        None,
    )
    .unwrap();

    let mut g_naive = Grid::new_1d(200);
    let mut sim_naive: FDTDSim<TfsfMagnetic1d, HookPair<TfsfElectric1d, NaiveEdge>> = FDTDSim::new(
        Some(GridDimension::One),
        None,
        Some(TfsfMagnetic1d { idx: 49, delay, width_sq, imp: IMP0, t_bits: 0 }),
        Some(HookPair {
            first: TfsfElectric1d { idx: 50, delay, width_sq, t_bits: 0 },
            second: NaiveEdge {},
        }),
        None,
    )
    .unwrap();

    for _ in 0..450 {
        assert!(sim_abc.step(&mut g_abc).is_ok());
        assert!(sim_naive.step(&mut g_naive).is_ok());
    }

    let residual_abc = max_abs(&g_abc.ez);
    let residual_naive = max_abs(&g_naive.ez);
    // The incident pulse peaks at 1; the absorbed residual is far below ten
    // percent of it and far below the naive residual.
    assert!(residual_abc < 0.1, "abc residual {}", residual_abc);
    assert!(residual_naive > 0.5, "naive residual {}", residual_naive);
    assert!(residual_abc < 0.1 * residual_naive);
}

#[test]
fn hard_and_additive_sources() {
    let mut g = Grid::new_1d(8);
    g.ez[3] = 2.5f64.to_bits();
    fdtd::source::hard_source_ez(&mut g, 3, 7.0f64.to_bits());
    assert_eq!(f64::from_bits(g.ez[3]), 7.0);
    fdtd::source::additive_source_ez(&mut g, 3, 0.5f64.to_bits());
    assert_eq!(f64::from_bits(g.ez[3]), 7.5);
    g.hy[2] = 1.0f64.to_bits();
    fdtd::source::tfsf_correct_hy(&mut g, 2, 0.25f64.to_bits());
    assert_eq!(f64::from_bits(g.hy[2]), 0.75);
    assert_eq!(fdtd::grid::Grid::sample(&g.ez, 3), 7.5f64.to_bits());
}

#[test]
fn noop_hooks_change_nothing() {
    let mut g1 = Grid::new_1d(30);
    g1.ez[10] = 1.0f64.to_bits();
    let mut g2 = g1.clone();

    let mut with_hooks: FDTDSim<NoOpHook, NoOpHook> = FDTDSim::new(
        Some(GridDimension::One),
        None,
        Some(NoOpHook),
        Some(NoOpHook),
        None,
    )
    .unwrap();
    let mut without: FDTDSim<NoOpHook, NoOpHook> =
        FDTDSim::new(Some(GridDimension::One), None, None, None, None).unwrap();

    for _ in 0..60 {
        assert!(with_hooks.step(&mut g1).is_ok());
        assert!(without.step(&mut g2).is_ok());
    }
    assert!(g1 == g2);
}

#[test]
fn abc2_absorbs_in_dielectric() {
    // A dielectric half-space gives the boundary an impedance ratio above
    // one; the 2nd-order filter still absorbs the pulse at both edges.
    let delay = 30.0f64.to_bits();
    let width_sq = 100.0f64.to_bits();

    let mut g = Grid::new_1d(200);
    let mut cezh = vec![0u64; 200];
    let ceze = vec![1.0f64.to_bits(); 200];
    for mm in 0..200 {
        cezh[mm] = if mm < 100 { IMP0_F.to_bits() } else { (IMP0_F / 9.0).to_bits() };
    }
    g.set_ez_coefficients(ceze, cezh).unwrap();

    let abc = advection_abc_2nd_order(&g.cezh, &g.chye);
    let mut sim: FDTDSim<TfsfMagnetic1d, HookPair<TfsfElectric1d, Abc2>> = FDTDSim::new(
        Some(GridDimension::One),
        None,
        Some(TfsfMagnetic1d { idx: 49, delay, width_sq, imp: IMP0, t_bits: 0 }),
        Some(HookPair {
            first: TfsfElectric1d { idx: 50, delay, width_sq, t_bits: 0 },
            second: abc,
        }),
        None,
    )
    .unwrap();

    for _ in 0..450 {
        assert!(sim.step(&mut g).is_ok());
    }
    let residual = max_abs(&g.ez);
    assert!(residual < 0.05, "abc2 residual {}", residual);
}
