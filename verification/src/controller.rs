//! The aggregate controller: basic solver parameters, the nested dispersion
//! parameters, and the two operations that push them into an engine.
//!
//! The controller owns every tunable parameter. On demand it derives the
//! full propagation operator (constant detuning/loss, base diffraction
//! quadratic in the family-internal index, and the coupled-branch
//! dispersion) or a dispersion-only diagnostic operator, materializes it
//! into a dense cache, and either builds a fresh [`Engine`] or overwrites a
//! live one. Resynchronization always rewrites the driving amplitude, the
//! step distance and the cached operator together, so no dependent pair can
//! be left inconsistent by a partial update.

use vstd::prelude::*;
use crate::cprt2::{Cprt2, Property, Splitting};
use crate::operator::{
    composite_covers, composite_eval, CachedOperator, CompositeOperator, OperatorTerm,
};
use crate::scalar::{sat_i64, sat_neg, Complex, ONE};

verus! {

/// The basic solver parameters, tuned externally and read by derivation.
#[derive(Clone, Debug)]
pub struct LleController {
    /// Detuning/loss factor; contributes `-(i * alpha + 1)` to the operator.
    pub alpha: Property<i64>,
    /// Base linear (diffraction) coefficient.
    pub linear: Property<i64>,
    /// Step distance handed to the engine.
    pub step_dist: Property<i64>,
    /// Pump amplitude, the engine's constant driving term.
    pub pump: Property<i64>,
    /// Number of propagation steps per drawn frame.
    pub steps: Property<u32>,
}

impl Default for LleController {
    /// Session defaults: cold cavity at resonance, anomalous unit
    /// diffraction, a short step, unit pump, one hundred steps per frame.
    fn default() -> (r: LleController)
        ensures
            r.alpha.value == 0,
            r.alpha.min == -5 * ONE,
            r.alpha.max == 5 * ONE,
            r.alpha.name@ == "alpha"@,
            r.linear.value == -ONE,
            r.linear.min == -5 * ONE,
            r.linear.max == 5 * ONE,
            r.linear.name@ == "linear"@,
            r.step_dist.value == ONE / 0x2000,
            r.step_dist.min == 0,
            r.step_dist.max == ONE,
            r.step_dist.name@ == "step dist"@,
            r.pump.value == ONE,
            r.pump.min == 0,
            r.pump.max == 10 * ONE,
            r.pump.name@ == "pump"@,
            r.steps.value == 100,
            r.steps.min == 1,
            r.steps.max == 1000,
            r.steps.name@ == "steps"@,
    {
        LleController {
            alpha: Property::new(0, "alpha").range((-5 * ONE, 5 * ONE)),
            linear: Property::new(-ONE, "linear").range((-5 * ONE, 5 * ONE)),
            step_dist: Property::new(ONE / 0x2000, "step dist").range((0, ONE)),
            pump: Property::new(ONE, "pump").range((0, 10 * ONE)),
            steps: Property::new(100, "steps").range((1, 1000)),
        }
    }
}

/// The controller for the coupled-resonator model: basic solver parameters
/// plus the dispersion parameters.
#[derive(Clone, Debug, Default)]
pub struct CprtLleController2 {
    /// Detuning, diffraction, step, pump and step-count parameters.
    pub basic: LleController,
    /// The coupled-branch dispersion parameters.
    pub disper: Cprt2,
}

/// The mode-independent detuning/loss term `-(i * alpha + 1)`.
pub open spec fn constant_term(alpha: i64) -> OperatorTerm {
    OperatorTerm::Constant(
        Complex { re: sat_i64(-(ONE as int)), im: sat_i64(-(alpha as int)) },
    )
}

/// The base diffraction factor `i * linear / 2`, to be scaled by the square
/// of a mode's family-internal index in the propagation operator.
pub open spec fn fold_quadratic_term(linear: i64) -> OperatorTerm {
    OperatorTerm::FoldQuadratic(Complex { re: 0, im: (linear as int / 2) as i64 })
}

/// The same factor applied to the square of the raw mode index: the
/// differently-scaled diffraction of the diagnostic operator.
pub open spec fn mode_quadratic_term(linear: i64) -> OperatorTerm {
    OperatorTerm::ModeQuadratic(Complex { re: 0, im: (linear as int / 2) as i64 })
}

/// The terms of the full propagation operator, in derivation order.
pub open spec fn full_terms(c: CprtLleController2, s: Splitting) -> Seq<OperatorTerm> {
    seq![
        constant_term(c.basic.alpha.value),
        fold_quadratic_term(c.basic.linear.value),
        OperatorTerm::Dispersion(
            crate::cprt2::CprtDispersion2 {
                center_pos: c.disper.center_pos.value,
                period: c.disper.period.value,
                couple_strength: c.disper.couple_strength.value,
                frac_d1_2pi: c.disper.frac_d1_2pi.value,
                splitting: s,
            },
        ),
    ]
}

/// The terms of the dispersion-only diagnostic operator.
pub open spec fn dispersion_terms(c: CprtLleController2, s: Splitting) -> Seq<OperatorTerm> {
    seq![
        mode_quadratic_term(c.basic.linear.value),
        OperatorTerm::Dispersion(
            crate::cprt2::CprtDispersion2 {
                center_pos: c.disper.center_pos.value,
                period: c.disper.period.value,
                couple_strength: c.disper.couple_strength.value,
                frac_d1_2pi: c.disper.frac_d1_2pi.value,
                splitting: s,
            },
        ),
    ]
}

/// The coefficients of the full operator cached over modes `0 .. n`.
pub open spec fn cached_coeffs(c: CprtLleController2, s: Splitting, n: int) -> Seq<Complex> {
    Seq::new(n as nat, |k: int| composite_eval(full_terms(c, s), k))
}

/// The engine fields this subsystem supplies and maintains: the field state
/// vector, the step distance, the constant driving amplitude, and the
/// cached linear operator. The stepping loop and the nonlinear term are the
/// host's business and read these values; resynchronization overwrites them.
#[derive(Clone, Debug)]
pub struct Engine {
    /// The complex field, one value per mode of the discretized spectrum.
    pub state: Vec<Complex>,
    /// Distance advanced per split step.
    pub step_dist: i64,
    /// Constant driving amplitude added each step.
    pub constant: Complex,
    /// The cached frequency-domain linear operator.
    pub linear: CachedOperator,
}

impl Engine {
    /// The current length of the field state vector.
    pub fn state_len(&self) -> (r: usize)
        ensures
            r == self.state@.len(),
    {
        self.state.len()
    }
}

/// What one resynchronization call does to an engine: the state vector is
/// untouched, and driving amplitude, step distance and cached operator are
/// all rewritten from the controller's current values, the operator rebuilt
/// against the engine's own state length.
pub open spec fn sync_rel(
    c: CprtLleController2,
    s: Splitting,
    before: Engine,
    after: Engine,
) -> bool {
    &&& after.state == before.state
    &&& after.step_dist == c.basic.step_dist.value
    &&& after.constant == (Complex { re: c.basic.pump.value, im: 0 })
    &&& after.linear.coefficients@ == cached_coeffs(c, s, before.state@.len() as int)
}

impl CprtLleController2 {
    /// Derives the full propagation operator from the current parameter
    /// values and the host's half-splitting table for them.
    pub fn linear_op(&self, splitting: Splitting) -> (r: CompositeOperator)
        ensures
            r.terms@ == full_terms(*self, splitting),
    {
        let alpha = self.basic.alpha.get_value();
        let basic_linear = self.basic.linear.get_value();
        let r = CompositeOperator::new()
            .append(OperatorTerm::Constant(Complex::new(sat_neg(ONE), sat_neg(alpha))))
            .append(
                OperatorTerm::FoldQuadratic(
                    Complex::new(0, crate::intops::floor_div(basic_linear, 2)),
                ),
            )
            .append(OperatorTerm::Dispersion(self.disper.generate_op(splitting)));
        proof {
            assert(r.terms@ =~= full_terms(*self, splitting));
        }
        r
    }

    /// Derives the dispersion-only diagnostic operator; independent of any
    /// engine state.
    pub fn dispersion(&self, splitting: Splitting) -> (r: CompositeOperator)
        ensures
            r.terms@ == dispersion_terms(*self, splitting),
    {
        let basic_linear = self.basic.linear.get_value();
        let r = CompositeOperator::new()
            .append(
                OperatorTerm::ModeQuadratic(
                    Complex::new(0, crate::intops::floor_div(basic_linear, 2)),
                ),
            )
            .append(OperatorTerm::Dispersion(self.disper.generate_op(splitting)));
        proof {
            assert(r.terms@ =~= dispersion_terms(*self, splitting));
        }
        r
    }

    /// Builds a fresh engine: a zero field of length `dim`, the current step
    /// distance and pump amplitude, and the full operator cached for `dim`
    /// modes from the current parameter values.
    pub fn construct_engine(&self, dim: usize, splitting: Splitting) -> (e: Engine)
        requires
            dim > 0,
            dim <= 0x7fff_ffff,
            forall|k: int| 0 <= k < dim ==> composite_covers(full_terms(*self, splitting), k),
        ensures
            e.state@.len() == dim,
            forall|k: int| 0 <= k < dim ==> e.state@[k] == (Complex { re: 0, im: 0 }),
            e.step_dist == self.basic.step_dist.value,
            e.constant == (Complex { re: self.basic.pump.value, im: 0 }),
            e.linear.coefficients@ == cached_coeffs(*self, splitting, dim as int),
    {
        let step_dist = self.basic.step_dist.get_value();
        let pump = self.basic.pump.get_value();
        let mut state: Vec<Complex> = Vec::new();
        let mut k: usize = 0;
        while k < dim
            invariant
                0 <= k <= dim,
                state@.len() == k,
                forall|j: int| 0 <= j < k ==> state@[j] == (Complex { re: 0, im: 0 }),
            decreases dim - k,
        {
            state.push(Complex::zero());
            k = k + 1;
        }
        let composite = self.linear_op(splitting);
        let linear = CachedOperator::materialize(&composite, dim);
        proof {
            assert(linear.coefficients@ =~= cached_coeffs(*self, splitting, dim as int));
        }
        Engine { state, step_dist, constant: Complex::new(pump, 0), linear }
    }

    /// The number of propagation steps to run per drawn frame.
    pub fn steps(&self) -> (r: u32)
        ensures
            r == self.basic.steps.value,
    {
        self.basic.steps.get_value()
    }

    /// Re-reads the current parameter values and unconditionally overwrites
    /// the engine's driving amplitude, step distance and cached operator,
    /// the operator rebuilt against the engine's current state length. This
    /// is the only path by which parameter edits reach a running engine; the
    /// mutable borrow makes the required exclusion against an in-progress
    /// step a type-level fact rather than a calling convention.
    pub fn sync_paras(&self, engine: &mut Engine, splitting: Splitting)
        requires
            old(engine).state@.len() > 0,
            old(engine).state@.len() <= 0x7fff_ffff,
            forall|k: int|
                0 <= k < old(engine).state@.len() ==> composite_covers(
                    full_terms(*self, splitting),
                    k,
                ),
        ensures
            sync_rel(*self, splitting, *old(engine), *final(engine)),
            final(engine).linear.coefficients@.len() == final(engine).state@.len(),
    {
        engine.constant = Complex::new(self.basic.pump.get_value(), 0);
        engine.step_dist = self.basic.step_dist.get_value();
        let n = engine.state.len();
        let composite = self.linear_op(splitting);
        let linear = CachedOperator::materialize(&composite, n);
        proof {
            assert(linear.coefficients@ =~= cached_coeffs(*self, splitting, n as int));
        }
        engine.linear = linear;
    }
}

/// Resynchronization is idempotent: two consecutive calls with no parameter
/// change in between produce identical cached coefficients.
pub proof fn lemma_sync_idempotent(
    c: CprtLleController2,
    s: Splitting,
    e0: Engine,
    e1: Engine,
    e2: Engine,
)
    requires
        sync_rel(c, s, e0, e1),
        sync_rel(c, s, e1, e2),
    ensures
        e1.linear.coefficients@ == e2.linear.coefficients@,
{
}

} // verus!
