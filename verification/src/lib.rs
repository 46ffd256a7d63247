//! Core of a small 256-color graphics demo: a deterministic 16-bit xorshift
//! sequence generator, an in-memory pixel surface with linear addressing, and
//! a rectangle-outline renderer with saturating edge arithmetic.

pub mod demo;
pub mod rng;
pub mod video;
