//! The linear-operator algebra: terms, composition by summation, and the
//! dense per-mode cache the stepping loop consumes.
//!
//! Distinct physical contributions to the frequency-domain linear operator
//! are orthogonal and additive, so each is an [`OperatorTerm`] that can be
//! validated in isolation, and a [`CompositeOperator`] only sums the
//! non-skipped terms. A composite is materialized once per rebuild into a
//! [`CachedOperator`], a dense coefficient table indexed by mode, so lookup
//! during stepping costs nothing beyond the indexing.

use vstd::prelude::*;
use crate::cprt2::{disp_covers, disp_eval, CprtDispersion2};
use crate::intops::floor_div;
use crate::scalar::{c_add, c_scale, Complex};

verus! {

/// One contribution to the frequency-domain linear operator.
#[derive(Clone, Debug)]
pub enum OperatorTerm {
    /// A mode-independent coefficient (detuning and loss).
    Constant(Complex),
    /// A coefficient scaled by the square of the mode's family-internal
    /// index (base diffraction of the propagation operator).
    FoldQuadratic(Complex),
    /// A coefficient scaled by the square of the raw mode index (the
    /// differently-scaled diffraction of the diagnostic operator).
    ModeQuadratic(Complex),
    /// The coupled-branch dispersion snapshot.
    Dispersion(CprtDispersion2),
}

/// A term asks to be omitted from composite sums; only a dispersion
/// snapshot with zero coupling does.
pub open spec fn term_skip(t: OperatorTerm) -> bool {
    match t {
        OperatorTerm::Dispersion(d) => d.couple_strength == 0,
        _ => false,
    }
}

/// The term can be evaluated at mode `m`; only a dispersion snapshot
/// constrains this, to the window of its half-splitting table.
pub open spec fn term_covers(t: OperatorTerm, m: int) -> bool {
    match t {
        OperatorTerm::Dispersion(d) => disp_covers(d, m),
        _ => true,
    }
}

/// The coefficient a term contributes at mode `m`.
pub open spec fn term_eval(t: OperatorTerm, m: int) -> Complex {
    match t {
        OperatorTerm::Constant(c) => c,
        OperatorTerm::FoldQuadratic(c) => c_scale(c, (m / 2) * (m / 2)),
        OperatorTerm::ModeQuadratic(c) => c_scale(c, m * m),
        OperatorTerm::Dispersion(d) => disp_eval(d, m),
    }
}

impl OperatorTerm {
    /// True iff composite sums must omit this term.
    pub fn should_skip(&self) -> (r: bool)
        ensures
            r == term_skip(*self),
    {
        match self {
            OperatorTerm::Dispersion(d) => d.skip(),
            _ => false,
        }
    }

    /// Evaluates this term at a mode; the step index is accepted for
    /// interface uniformity and ignored (every modeled term is static).
    pub fn evaluate(&self, step: u32, mode: i32) -> (r: Complex)
        requires
            term_covers(*self, mode as int),
        ensures
            r == term_eval(*self, mode as int),
    {
        match self {
            OperatorTerm::Constant(c) => *c,
            OperatorTerm::FoldQuadratic(c) => {
                let fold: i64 = floor_div(mode as i64, 2);
                proof {
                    vstd::arithmetic::div_mod::lemma_fundamental_div_mod(mode as int, 2);
                    vstd::arithmetic::div_mod::lemma_mod_bound(mode as int, 2);
                    assert(-0x4000_0000 <= fold as int <= 0x4000_0000);
                    assert(0 <= (fold as int) * (fold as int) <= 0x1000_0000_0000_0000)
                        by (nonlinear_arith)
                        requires
                            -0x4000_0000 <= fold as int <= 0x4000_0000,
                    ;
                }
                let sq: i64 = fold * fold;
                c.scale(sq)
            },
            OperatorTerm::ModeQuadratic(c) => {
                let wide: i64 = mode as i64;
                proof {
                    assert(0 <= (wide as int) * (wide as int) <= 0x4000_0000_0000_0000)
                        by (nonlinear_arith)
                        requires
                            -0x8000_0000 <= wide as int <= 0x8000_0000,
                    ;
                }
                let sq: i64 = wide * wide;
                c.scale(sq)
            },
            OperatorTerm::Dispersion(d) => d.get_value(step, mode),
        }
    }
}

/// The coefficient a sequence of terms contributes at mode `m`: the
/// saturating componentwise sum over the non-skipped terms, left to right.
pub open spec fn composite_eval(ts: Seq<OperatorTerm>, m: int) -> Complex
    decreases ts.len(),
{
    if ts.len() == 0 {
        Complex { re: 0, im: 0 }
    } else {
        let prev = composite_eval(ts.drop_last(), m);
        if term_skip(ts.last()) {
            prev
        } else {
            c_add(prev, term_eval(ts.last(), m))
        }
    }
}

/// Every term of the sequence is either skipped or evaluable at mode `m`.
pub open spec fn composite_covers(ts: Seq<OperatorTerm>, m: int) -> bool {
    forall|i: int| 0 <= i < ts.len() ==> term_skip(ts[i]) || term_covers(ts[i], m)
}

/// An ordered collection of operator terms combined by summation. Built
/// fresh on each derivation, never mutated afterwards — only replaced.
#[derive(Clone, Debug)]
pub struct CompositeOperator {
    /// The terms, in insertion order.
    pub terms: Vec<OperatorTerm>,
}

impl CompositeOperator {
    /// The empty composite, which evaluates to zero everywhere.
    pub fn new() -> (r: CompositeOperator)
        ensures
            r.terms@ == Seq::<OperatorTerm>::empty(),
    {
        CompositeOperator { terms: Vec::new() }
    }

    /// Returns the composite extended by one more term; builder-style.
    pub fn append(self, term: OperatorTerm) -> (r: CompositeOperator)
        ensures
            r.terms@ == self.terms@.push(term),
    {
        let mut terms = self.terms;
        terms.push(term);
        CompositeOperator { terms }
    }

    /// Sums every non-skipped term's coefficient at a mode; the step index
    /// is accepted for interface uniformity and ignored.
    pub fn evaluate(&self, step: u32, mode: i32) -> (r: Complex)
        requires
            composite_covers(self.terms@, mode as int),
        ensures
            r == composite_eval(self.terms@, mode as int),
    {
        let ghost m = mode as int;
        let mut acc = Complex::zero();
        let mut i: usize = 0;
        while i < self.terms.len()
            invariant
                0 <= i <= self.terms@.len(),
                composite_covers(self.terms@, m),
                m == mode as int,
                acc == composite_eval(self.terms@.take(i as int), m),
            decreases self.terms@.len() - i,
        {
            let term = &self.terms[i];
            proof {
                assert(self.terms@.take(i + 1).drop_last() =~= self.terms@.take(i as int));
                assert(self.terms@.take(i + 1).last() == self.terms@[i as int]);
            }
            if !term.should_skip() {
                acc = acc.add(term.evaluate(step, mode));
            }
            i = i + 1;
        }
        proof {
            assert(self.terms@.take(self.terms@.len() as int) =~= self.terms@);
        }
        acc
    }
}

/// A dense table of linear-operator coefficients indexed by mode: the unit
/// the stepping loop actually consumes. Rebuilt whole whenever the mode
/// count or any contributing parameter changes; never updated in place.
#[derive(Clone, Debug)]
pub struct CachedOperator {
    /// `coefficients[k]` is the composite's value at mode `k`.
    pub coefficients: Vec<Complex>,
}

impl CachedOperator {
    /// Evaluates a composite once per mode over the discretized spectrum of
    /// size `mode_count` and stores the results densely.
    pub fn materialize(composite: &CompositeOperator, mode_count: usize) -> (r: CachedOperator)
        requires
            mode_count > 0,
            mode_count <= 0x7fff_ffff,
            forall|k: int| 0 <= k < mode_count ==> composite_covers(composite.terms@, k),
        ensures
            r.coefficients@.len() == mode_count,
            forall|k: int|
                0 <= k < mode_count ==> r.coefficients@[k] == composite_eval(
                    composite.terms@,
                    k,
                ),
    {
        let mut coefficients: Vec<Complex> = Vec::new();
        let mut k: usize = 0;
        while k < mode_count
            invariant
                0 <= k <= mode_count,
                mode_count <= 0x7fff_ffff,
                forall|j: int| 0 <= j < mode_count ==> composite_covers(composite.terms@, j),
                coefficients@.len() == k,
                forall|j: int|
                    0 <= j < k ==> coefficients@[j] == composite_eval(composite.terms@, j),
            decreases mode_count - k,
        {
            coefficients.push(composite.evaluate(0, k as i32));
            k = k + 1;
        }
        CachedOperator { coefficients }
    }

    /// The number of modes the cache was built for.
    pub fn mode_count(&self) -> (r: usize)
        ensures
            r == self.coefficients@.len(),
    {
        self.coefficients.len()
    }
}

/// A skipped term contributes exactly zero: appending it to any composite
/// leaves the composite's value unchanged at every mode.
pub proof fn lemma_skip_contributes_nothing(ts: Seq<OperatorTerm>, t: OperatorTerm, m: int)
    requires
        term_skip(t),
    ensures
        composite_eval(ts.push(t), m) == composite_eval(ts, m),
{
    assert(ts.push(t).drop_last() =~= ts);
}

/// Composition is additive: a composite of two constant terms evaluates to
/// the sum of their coefficients at every step and mode.
pub proof fn lemma_composite_additive(a: Complex, b: Complex, m: int)
    ensures
        composite_eval(
            seq![OperatorTerm::Constant(a), OperatorTerm::Constant(b)],
            m,
        ) == c_add(a, b),
{
    let ts = seq![OperatorTerm::Constant(a), OperatorTerm::Constant(b)];
    assert(ts.len() == 2);
    assert(ts.last() == OperatorTerm::Constant(b));
    assert(ts.drop_last() =~= seq![OperatorTerm::Constant(a)]);
    assert(ts.drop_last().last() == OperatorTerm::Constant(a));
    assert(ts.drop_last().drop_last() =~= Seq::<OperatorTerm>::empty());
    assert(composite_eval(ts.drop_last().drop_last(), m) == (Complex { re: 0, im: 0 }));
    assert(c_add(Complex { re: 0, im: 0 }, a) == a);
    assert(composite_eval(ts.drop_last(), m) == a);
}

} // verus!
