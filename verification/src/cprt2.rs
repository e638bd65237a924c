//! The coupled two-branch dispersion model and its tunable parameters.
//!
//! Modes are interleaved across two coupled families. For an integer mode
//! index `m`, `floor_mod(m, 2)` selects the family ("branch") and
//! `floor_div(m, 2)` is the family-internal mode index, so negative indices
//! fold symmetrically around the zero mode. The dispersion contribution of a
//! mode is built from the half-splitting value `f` at its family-internal
//! index, re-centered by the value at index zero:
//! branch 0 gives `-i * (f(m) - f(0))`, branch 1 gives `-i * (-f(m) - f(0))`.
//!
//! The half-splitting values themselves come from a transcendental relation
//! of the four model parameters; computing them is floating-point work done
//! by the host, which hands the results in as a [`Splitting`] table of
//! fixed-point values indexed by family-internal mode index.

use vstd::prelude::*;
use crate::intops::{floor_div, floor_mod};
use crate::scalar::{sat_add, sat_i64, sat_sub, Complex};

verus! {

/// A named bounded scalar, owned by the controller and edited externally;
/// the operator algebra only ever reads its current value.
#[derive(Clone, Debug)]
pub struct Property<T> {
    /// Current value; kept inside `[min, max]` by the editing front end.
    pub value: T,
    /// Display name for the editing front end.
    pub name: String,
    /// Lower end of the valid range.
    pub min: T,
    /// Upper end of the valid range.
    pub max: T,
}

impl<T: Copy> Property<T> {
    /// A property whose valid range is initially just its starting value.
    pub fn new(value: T, name: &str) -> (r: Property<T>)
        ensures
            r.value == value,
            r.name@ == name@,
            r.min == value,
            r.max == value,
    {
        Property { value, name: name.to_owned(), min: value, max: value }
    }

    /// Widens the valid range; builder-style.
    pub fn range(self, bounds: (T, T)) -> (r: Property<T>)
        ensures
            r.value == self.value,
            r.name@ == self.name@,
            r.min == bounds.0,
            r.max == bounds.1,
    {
        Property { min: bounds.0, max: bounds.1, ..self }
    }

    /// Reads the current value.
    pub fn get_value(&self) -> (r: T)
        ensures
            r == self.value,
    {
        self.value
    }
}

/// Precomputed half-splitting values of the coupled-branch dispersion
/// relation, one fixed-point value per family-internal mode index in a
/// contiguous window `[base, base + values.len())`.
#[derive(Clone, Debug)]
pub struct Splitting {
    /// Family-internal mode index of `values[0]`.
    pub base: i64,
    /// Half-splitting values, in family-internal index order.
    pub values: Vec<i64>,
}

impl Splitting {
    /// The window contains the family-internal index `fold`.
    pub open spec fn covers(self, fold: int) -> bool {
        self.base <= fold < self.base + self.values@.len()
    }

    /// The window contains index zero (the re-centering reference) and is
    /// small enough for its offsets to stay within index arithmetic bounds.
    pub open spec fn wf(self) -> bool {
        &&& self.covers(0)
        &&& self.values@.len() <= 0x7fff_ffff
    }

    /// The half-splitting value at family-internal index `fold`.
    pub open spec fn at(self, fold: int) -> i64 {
        self.values@[fold - self.base]
    }

    /// Wraps a table computed by the host.
    pub fn new(base: i64, values: Vec<i64>) -> (r: Splitting)
        ensures
            r.base == base,
            r.values == values,
    {
        Splitting { base, values }
    }

    /// Fetches the half-splitting value at a covered family-internal index.
    pub fn lookup(&self, fold: i64) -> (r: i64)
        requires
            self.wf(),
            self.covers(fold as int),
        ensures
            r == self.at(fold as int),
    {
        let idx: usize = (fold - self.base) as usize;
        self.values[idx]
    }
}

/// The tunable parameters of the coupled-branch dispersion model. Values are
/// `Q31.32` fixed-point renderings of the physical quantities.
#[derive(Clone, Debug)]
pub struct Cprt2 {
    /// Center of the avoided mode crossing, in family-internal mode units.
    pub center_pos: Property<i64>,
    /// Period of the crossing pattern, in family-internal mode units.
    pub period: Property<i64>,
    /// Coupling strength between the two mode families, in radians.
    pub couple_strength: Property<i64>,
    /// Free spectral range over two pi; scales the splitting into the
    /// propagation coefficient.
    pub frac_d1_2pi: Property<i64>,
}

/// `Q31.32` rendering of half pi, the default coupling strength.
pub const FRAC_PI_2_FP: i64 = 6746518852;

impl Default for Cprt2 {
    /// Session defaults: crossing centered at zero, period of one hundred
    /// family-internal modes, quarter-turn splitting scale, coupling of half
    /// pi.
    fn default() -> (r: Cprt2)
        ensures
            r.center_pos.value == 0,
            r.center_pos.min == -20 * crate::scalar::ONE,
            r.center_pos.max == 20 * crate::scalar::ONE,
            r.center_pos.name@ == "Center Position"@,
            r.period.value == 100 * crate::scalar::ONE,
            r.period.min == 50 * crate::scalar::ONE,
            r.period.max == 100 * crate::scalar::ONE,
            r.period.name@ == "Period"@,
            r.couple_strength.value == FRAC_PI_2_FP,
            r.couple_strength.min == 0,
            r.couple_strength.max == 2 * FRAC_PI_2_FP,
            r.couple_strength.name@ == "Couple strength"@,
            r.frac_d1_2pi.value == 100 * crate::scalar::ONE,
            r.frac_d1_2pi.min == 50 * crate::scalar::ONE,
            r.frac_d1_2pi.max == 200 * crate::scalar::ONE,
            r.frac_d1_2pi.name@ == "d1/2pi"@,
    {
        let one = crate::scalar::ONE;
        Cprt2 {
            center_pos: Property::new(0, "Center Position").range((-20 * one, 20 * one)),
            period: Property::new(100 * one, "Period").range((50 * one, 100 * one)),
            couple_strength: Property::new(FRAC_PI_2_FP, "Couple strength").range(
                (0, 2 * FRAC_PI_2_FP),
            ),
            frac_d1_2pi: Property::new(100 * one, "d1/2pi").range((50 * one, 200 * one)),
        }
    }
}

impl Cprt2 {
    /// Snapshots the current parameter values, together with the host's
    /// half-splitting table for them, into an immutable dispersion operator.
    pub fn generate_op(&self, splitting: Splitting) -> (r: CprtDispersion2)
        ensures
            r.center_pos == self.center_pos.value,
            r.period == self.period.value,
            r.couple_strength == self.couple_strength.value,
            r.frac_d1_2pi == self.frac_d1_2pi.value,
            r.splitting == splitting,
    {
        CprtDispersion2 {
            center_pos: self.center_pos.get_value(),
            period: self.period.get_value(),
            couple_strength: self.couple_strength.get_value(),
            frac_d1_2pi: self.frac_d1_2pi.get_value(),
            splitting,
        }
    }
}

/// One immutable evaluation snapshot of the coupled-branch dispersion
/// relation: the four parameter values it was derived from, plus the
/// half-splitting table the host computed for exactly those values.
#[derive(Clone, Debug)]
pub struct CprtDispersion2 {
    /// Center of the avoided mode crossing when the snapshot was taken.
    pub center_pos: i64,
    /// Crossing period when the snapshot was taken.
    pub period: i64,
    /// Coupling strength when the snapshot was taken.
    pub couple_strength: i64,
    /// Splitting scale when the snapshot was taken.
    pub frac_d1_2pi: i64,
    /// Half-splitting values for these parameters.
    pub splitting: Splitting,
}

/// The dispersion coefficient at mode `m`: a pure phase contribution whose
/// imaginary part combines the half-splitting at the mode's family-internal
/// index with the reference value at index zero, with the sign chosen by the
/// mode's branch.
pub open spec fn disp_eval(d: CprtDispersion2, m: int) -> Complex {
    let fm = d.splitting.at(m / 2);
    let f0 = d.splitting.at(0);
    if m % 2 == 0 {
        Complex { re: 0, im: sat_i64(f0 - fm) }
    } else {
        Complex { re: 0, im: sat_i64(fm + f0) }
    }
}

/// The splitting table reaches the family-internal index of mode `m`.
pub open spec fn disp_covers(d: CprtDispersion2, m: int) -> bool {
    d.splitting.wf() && d.splitting.covers(m / 2)
}

impl CprtDispersion2 {
    /// Evaluates the dispersion coefficient at a mode; the step index is
    /// accepted for interface uniformity and ignored (the model is static).
    pub fn get_value(&self, step: u32, freq: i32) -> (r: Complex)
        requires
            disp_covers(*self, freq as int),
        ensures
            r == disp_eval(*self, freq as int),
    {
        let branch = floor_mod(freq as i64, 2);
        let fold = floor_div(freq as i64, 2);
        let fm = self.splitting.lookup(fold);
        let f0 = self.splitting.lookup(0);
        if branch == 0 {
            Complex::new(0, sat_sub(f0, fm))
        } else {
            Complex::new(0, sat_add(fm, f0))
        }
    }

    /// With zero coupling the term contributes nothing (and the
    /// transcendental relation sits on a domain boundary), so the composite
    /// evaluator must omit it entirely.
    pub fn skip(&self) -> (r: bool)
        ensures
            r == (self.couple_strength == 0),
    {
        self.couple_strength == 0
    }
}

/// Branch selection is symmetric around the zero mode: a mode index and its
/// negation always fall on the same branch.
pub proof fn lemma_branch_symmetric(m: int)
    ensures
        m % 2 == (-m) % 2,
        m % 2 == 0 || m % 2 == 1,
{
    vstd::arithmetic::div_mod::lemma_fundamental_div_mod(m, 2);
    vstd::arithmetic::div_mod::lemma_mod_bound(m, 2);
    let q = m / 2;
    let r = m % 2;
    vstd::arithmetic::div_mod::lemma_fundamental_div_mod_converse(-m, 2, -q - r, r);
}

/// For an even mode index, a snapshot whose half-splitting table is
/// symmetric between the mode's family-internal index and its negation
/// evaluates identically at the mode and at its negation (the designed
/// symmetry around mode zero of a crossing centered at zero).
pub proof fn lemma_even_mode_symmetry(d: CprtDispersion2, m: int)
    requires
        m % 2 == 0,
        d.splitting.at(m / 2) == d.splitting.at((-m) / 2),
    ensures
        disp_eval(d, m) == disp_eval(d, -m),
{
    lemma_branch_symmetric(m);
}

} // verus!
