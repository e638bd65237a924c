//! Frequency-domain linear-operator algebra for a driven-dissipative
//! Lugiato–Lefever-type resonator model with two coupled mode families.
//!
//! Coefficients are exact fixed-point complex numbers (`Q31.32`), so every
//! step of the operator algebra — branch folding, term summation, cache
//! materialization and live resynchronization — carries a proved contract.
//! The transcendental half-splitting values of the coupled-branch dispersion
//! relation are floating-point work that a host program computes and hands in
//! as a precomputed table.

pub mod controller;
pub mod cprt2;
pub mod drawer;
pub mod intops;
pub mod operator;
pub mod scalar;
