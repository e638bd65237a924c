//! Exact fixed-point complex coefficients.
//!
//! Every per-mode coefficient of the linear operator is a complex number in
//! the `Q31.32` fixed-point format: an `i64` whose value is the represented
//! real number times [`ONE`]. Arithmetic saturates at the representable
//! range, mirroring how the represented quantities would pin at infinity,
//! and each operation's contract states its result exactly.

use vstd::prelude::*;

verus! {

/// The fixed-point representation of the real number one (`2^32`).
pub const ONE: i64 = 0x1_0000_0000;

/// Clamps a mathematical integer into the `i64` range.
pub open spec fn sat_i64(x: int) -> i64 {
    if x > i64::MAX {
        i64::MAX
    } else if x < i64::MIN {
        i64::MIN
    } else {
        x as i64
    }
}

/// Saturating addition on raw fixed-point scalars.
pub fn sat_add(a: i64, b: i64) -> (r: i64)
    ensures
        r == sat_i64(a + b),
{
    match a.checked_add(b) {
        Some(s) => s,
        None => {
            if a > 0 {
                i64::MAX
            } else {
                i64::MIN
            }
        },
    }
}

/// Saturating subtraction on raw fixed-point scalars.
pub fn sat_sub(a: i64, b: i64) -> (r: i64)
    ensures
        r == sat_i64(a - b),
{
    match a.checked_sub(b) {
        Some(s) => s,
        None => {
            if b < 0 {
                i64::MAX
            } else {
                i64::MIN
            }
        },
    }
}

/// Saturating negation on raw fixed-point scalars.
pub fn sat_neg(a: i64) -> (r: i64)
    ensures
        r == sat_i64(-a as int),
{
    if a == i64::MIN {
        i64::MAX
    } else {
        -a
    }
}

/// Saturating multiplication of a fixed-point scalar by an integer factor.
pub fn sat_mul(a: i64, k: i64) -> (r: i64)
    ensures
        r == sat_i64(a * k),
{
    proof {
        assert(i128::MIN <= a as int * k as int <= i128::MAX) by (nonlinear_arith)
            requires
                -0x8000_0000_0000_0000 <= a as int <= 0x7fff_ffff_ffff_ffff,
                -0x8000_0000_0000_0000 <= k as int <= 0x7fff_ffff_ffff_ffff,
        ;
    }
    let wide: i128 = (a as i128) * (k as i128);
    if wide > i64::MAX as i128 {
        i64::MAX
    } else if wide < i64::MIN as i128 {
        i64::MIN
    } else {
        wide as i64
    }
}

/// A complex coefficient; both components are `Q31.32` fixed-point scalars.
#[derive(Clone, Copy, Debug, PartialEq, Eq, Structural)]
pub struct Complex {
    pub re: i64,
    pub im: i64,
}

/// Componentwise saturating complex addition.
pub open spec fn c_add(a: Complex, b: Complex) -> Complex {
    Complex { re: sat_i64(a.re + b.re), im: sat_i64(a.im + b.im) }
}

/// Componentwise saturating scaling of a complex coefficient by an integer.
pub open spec fn c_scale(a: Complex, k: int) -> Complex {
    Complex { re: sat_i64(a.re * k), im: sat_i64(a.im * k) }
}

impl Complex {
    /// The additive identity.
    pub fn zero() -> (r: Complex)
        ensures
            r == (Complex { re: 0, im: 0 }),
    {
        Complex { re: 0, im: 0 }
    }

    /// Builds a coefficient from its two fixed-point components.
    pub fn new(re: i64, im: i64) -> (r: Complex)
        ensures
            r == (Complex { re, im }),
    {
        Complex { re, im }
    }

    /// Saturating complex addition.
    pub fn add(self, other: Complex) -> (r: Complex)
        ensures
            r == c_add(self, other),
    {
        Complex { re: sat_add(self.re, other.re), im: sat_add(self.im, other.im) }
    }

    /// Saturating scaling by an integer factor.
    pub fn scale(self, k: i64) -> (r: Complex)
        ensures
            r == c_scale(self, k as int),
    {
        Complex { re: sat_mul(self.re, k), im: sat_mul(self.im, k) }
    }
}

} // verus!
