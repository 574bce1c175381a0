//! Synthetic one-dimensional spectra, built from analytic peak functions.
//!
//! A spectrum is modelled as the superposition of an ordered pipeline of
//! peak functions — symmetric bells, heavy-tailed curves, and sigmoid-skewed
//! variants of either — folded over a channel axis on top of a noise offset.
//!
//! The crate verifies the parts of that model that are exact integer logic:
//! the pseudo-random draw stream and its determinism, the ensemble generator
//! that turns draws into peak descriptions, the pipeline fold itself, and the
//! summed-uniform noise sequence in its exact fixed-point form.  The
//! single-precision arithmetic that turns parameters and positions into
//! intensities is handed in by the caller as an evaluation kernel: peak
//! parameters travel through the pipeline as opaque 32-bit words that only
//! the kernel interprets.

pub mod ensemble;
pub mod noise;
pub mod peaks;
pub mod rng;
