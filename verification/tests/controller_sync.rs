use cprt_operator::controller::{CprtLleController2, Engine};
use cprt_operator::cprt2::{Cprt2, Splitting};
use cprt_operator::operator::CachedOperator;
use cprt_operator::scalar::{Complex, ONE};

const SCALE: f64 = 4294967296.0;

fn to_fixed(x: f64) -> i64 {
    (x * SCALE).round() as i64
}

fn from_fixed(x: i64) -> f64 {
    x as f64 / SCALE
}

/// The transcendental half-splitting value at family-internal index `fold`,
/// computed the way a hosting front end would, in floating point.
fn half_splitting(disper: &Cprt2, fold: i64) -> f64 {
    let center_pos = from_fixed(disper.center_pos.value);
    let period = from_fixed(disper.period.value);
    let couple_strength = from_fixed(disper.couple_strength.value);
    let frac_d1_2pi = from_fixed(disper.frac_d1_2pi.value);
    let cos1 = ((fold as f64 - center_pos) / period * std::f64::consts::PI * 2.0).cos();
    let cos2 = couple_strength.cos();
    (cos1 * cos2).clamp(-1.0, 1.0).acos().rem_euclid(std::f64::consts::PI) * frac_d1_2pi
        - frac_d1_2pi * std::f64::consts::FRAC_PI_2
}

/// A half-splitting table covering family-internal indices `base..base+len`.
fn table_for(disper: &Cprt2, base: i64, len: usize) -> Splitting {
    let mut values: Vec<i64> = Vec::new();
    for j in 0..len {
        values.push(to_fixed(half_splitting(disper, base + j as i64)));
    }
    Splitting::new(base, values)
}

/// A controller with the end-to-end scenario parameters: crossing centered
/// at zero with period one hundred, quarter-pi coupling, splitting scale one
/// hundred, no detuning and no base diffraction.
fn scenario_controller() -> CprtLleController2 {
    let mut c = CprtLleController2::default();
    c.basic.alpha.value = 0;
    c.basic.linear.value = 0;
    c.disper.center_pos.value = 0;
    c.disper.period.value = 100 * ONE;
    c.disper.couple_strength.value = to_fixed(std::f64::consts::FRAC_PI_4);
    c.disper.frac_d1_2pi.value = 100 * ONE;
    c
}

#[test]
fn construct_engine_fresh_state() {
    let c = scenario_controller();
    let table = table_for(&c.disper, 0, 4);
    let engine = c.construct_engine(8, table);
    assert_eq!(engine.state_len(), 8);
    for v in &engine.state {
        assert_eq!(*v, Complex::new(0, 0));
    }
    assert_eq!(engine.step_dist, c.basic.step_dist.value);
    assert_eq!(engine.constant, Complex::new(c.basic.pump.value, 0));
    assert_eq!(engine.linear.coefficients.len(), 8);
}

#[test]
fn end_to_end_scenario() {
    let c = scenario_controller();
    let table = table_for(&c.disper, 0, 2);
    let engine = c.construct_engine(4, table.clone());
    // At mode 0 the re-centering subtraction and the zero-squared diffraction
    // factor both vanish, so only the detuning/loss constant -(i*0 + 1)
    // survives in the propagation operator.
    assert_eq!(engine.linear.coefficients[0], Complex::new(-ONE, 0));
    // The dispersion-only diagnostic operator has no such constant: its
    // coefficient at mode 0 is exactly zero.
    let diagnostic = CachedOperator::materialize(&c.dispersion(table), 4);
    assert_eq!(diagnostic.coefficients[0], Complex::new(0, 0));
}

#[test]
fn rebuild_invariant() {
    // After sync_paras the cached operator length equals the engine's state
    // length at the time of the call, even though the mode count changed
    // after construction.
    let c = scenario_controller();
    let mut engine = c.construct_engine(8, table_for(&c.disper, 0, 4));
    assert_eq!(engine.linear.coefficients.len(), 8);
    for _ in 0..4 {
        engine.state.push(Complex::new(0, 0));
    }
    assert_eq!(engine.state_len(), 12);
    c.sync_paras(&mut engine, table_for(&c.disper, 0, 6));
    assert_eq!(engine.linear.coefficients.len(), 12);
    assert_eq!(engine.linear.coefficients.len(), engine.state_len());
}

#[test]
fn sync_idempotence() {
    // Two consecutive syncs with unchanged parameters give bit-identical
    // cached coefficients, and identical driving and step values.
    let c = scenario_controller();
    let mut engine = c.construct_engine(16, table_for(&c.disper, 0, 8));
    c.sync_paras(&mut engine, table_for(&c.disper, 0, 8));
    let first: Vec<Complex> = engine.linear.coefficients.clone();
    let (dist1, const1) = (engine.step_dist, engine.constant);
    c.sync_paras(&mut engine, table_for(&c.disper, 0, 8));
    assert_eq!(engine.linear.coefficients.len(), first.len());
    for (a, b) in engine.linear.coefficients.iter().zip(first.iter()) {
        assert_eq!(a, b);
    }
    assert_eq!(engine.step_dist, dist1);
    assert_eq!(engine.constant, const1);
}

#[test]
fn sync_propagates_edits() {
    let mut c = scenario_controller();
    let mut engine = c.construct_engine(4, table_for(&c.disper, 0, 2));
    c.basic.pump.value = 3 * ONE;
    c.basic.step_dist.value = ONE / 4;
    c.basic.alpha.value = 2 * ONE;
    c.sync_paras(&mut engine, table_for(&c.disper, 0, 2));
    assert_eq!(engine.constant, Complex::new(3 * ONE, 0));
    assert_eq!(engine.step_dist, ONE / 4);
    // The rebuilt constant term carries the new alpha: -(i*alpha + 1).
    assert_eq!(engine.linear.coefficients[0], Complex::new(-ONE, -2 * ONE));
}

#[test]
fn full_operator_matches_model() {
    // The cached propagation operator is the saturating sum of the constant
    // detuning/loss term, the fold-quadratic diffraction term and the
    // coupled-branch dispersion, evaluated per mode.
    let mut c = scenario_controller();
    c.basic.alpha.value = ONE / 2;
    c.basic.linear.value = -ONE;
    let table = table_for(&c.disper, 0, 8);
    let engine = c.construct_engine(16, table.clone());
    let f0 = table.lookup(0);
    for k in 0i64..16 {
        let fold = cprt_operator::intops::floor_div(k, 2);
        let branch = cprt_operator::intops::floor_mod(k, 2);
        let fk = table.lookup(fold);
        let disp_im = if branch == 0 { f0 - fk } else { fk + f0 };
        let expected = Complex::new(-ONE, (-(ONE / 2)) + (-ONE / 2) * fold * fold + disp_im);
        assert_eq!(engine.linear.coefficients[k as usize], expected);
    }
}

#[test]
fn even_mode_symmetry_around_zero() {
    // With the crossing centered at zero the half-splitting table is even in
    // the family-internal index, so the dispersion coefficient at an even
    // mode equals the one at its negation.
    let c = scenario_controller();
    let table = table_for(&c.disper, -5, 11);
    let op = c.disper.generate_op(table);
    for m in [-8i32, -6, -4, -2, 0, 2, 4, 6, 8] {
        assert_eq!(op.get_value(0, m), op.get_value(0, -m));
    }
    // An odd mode and its negation share a branch but sit at different
    // family-internal indices, so their coefficients need not agree; their
    // branches do.
    for m in [-9i64, -3, -1, 1, 3, 9] {
        assert_eq!(
            cprt_operator::intops::floor_mod(m, 2),
            cprt_operator::intops::floor_mod(-m, 2),
        );
    }
}

#[test]
fn generate_op_snapshots_current_values() {
    let mut paras = Cprt2::default();
    paras.center_pos.value = 7;
    paras.period.value = 55 * ONE;
    paras.couple_strength.value = 9;
    paras.frac_d1_2pi.value = 60 * ONE;
    let op = paras.generate_op(Splitting::new(-1, vec![1, 2, 3]));
    assert_eq!(op.center_pos, 7);
    assert_eq!(op.period, 55 * ONE);
    assert_eq!(op.couple_strength, 9);
    assert_eq!(op.frac_d1_2pi, 60 * ONE);
    assert_eq!(op.splitting.base, -1);
    assert_eq!(op.splitting.values, vec![1, 2, 3]);
}

#[test]
fn steps_reads_parameter() {
    let mut c = CprtLleController2::default();
    c.basic.steps.value = 250;
    assert_eq!(c.steps(), 250);
}

#[test]
fn dispersion_defaults() {
    let d = Cprt2::default();
    assert_eq!(d.center_pos.value, 0);
    assert_eq!(d.center_pos.name, "Center Position");
    assert_eq!((d.center_pos.min, d.center_pos.max), (-20 * ONE, 20 * ONE));
    assert_eq!(d.period.value, 100 * ONE);
    assert_eq!(d.period.name, "Period");
    assert_eq!((d.period.min, d.period.max), (50 * ONE, 100 * ONE));
    assert_eq!(d.couple_strength.value, 6746518852);
    assert_eq!(d.couple_strength.name, "Couple strength");
    assert_eq!((d.couple_strength.min, d.couple_strength.max), (0, 2 * 6746518852));
    assert_eq!(d.frac_d1_2pi.value, 100 * ONE);
    assert_eq!(d.frac_d1_2pi.name, "d1/2pi");
    assert_eq!((d.frac_d1_2pi.min, d.frac_d1_2pi.max), (50 * ONE, 200 * ONE));
    // The default coupling is the fixed-point rendering of half pi, and is
    // not a skip case.
    assert_eq!(to_fixed(std::f64::consts::FRAC_PI_2), 6746518852);
    assert!(!d.generate_op(Splitting::new(0, vec![0])).skip());
}

#[test]
fn basic_defaults() {
    let b = cprt_operator::controller::LleController::default();
    assert_eq!(b.alpha.value, 0);
    assert_eq!((b.alpha.min, b.alpha.max), (-5 * ONE, 5 * ONE));
    assert_eq!(b.alpha.name, "alpha");
    assert_eq!(b.linear.value, -ONE);
    assert_eq!((b.linear.min, b.linear.max), (-5 * ONE, 5 * ONE));
    assert_eq!(b.linear.name, "linear");
    assert_eq!(b.step_dist.value, ONE / 0x2000);
    assert_eq!((b.step_dist.min, b.step_dist.max), (0, ONE));
    assert_eq!(b.step_dist.name, "step dist");
    assert_eq!(b.pump.value, ONE);
    assert_eq!((b.pump.min, b.pump.max), (0, 10 * ONE));
    assert_eq!(b.pump.name, "pump");
    assert_eq!(b.steps.value, 100);
    assert_eq!((b.steps.min, b.steps.max), (1, 1000));
    assert_eq!(b.steps.name, "steps");
}

#[test]
fn engine_clone_preserves_fields() {
    let c = scenario_controller();
    let engine = c.construct_engine(4, table_for(&c.disper, 0, 2));
    let copy: Engine = engine.clone();
    assert_eq!(copy.state.len(), engine.state.len());
    assert_eq!(copy.step_dist, engine.step_dist);
    assert_eq!(copy.constant, engine.constant);
    assert_eq!(copy.linear.coefficients, engine.linear.coefficients);
}
