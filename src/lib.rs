//! Reads the state of a battery from the plain-text attribute files that a
//! power-supply interface exposes, one directory per device, and turns it into
//! a snapshot: charge, capacity, status, cycle count and wear.
//!
//! The library decides; the caller reads. File contents, and the failures of
//! reads, come in as plain values, and every rule applied to them is verified.

pub mod text;
pub mod attribute;
pub mod status;
pub mod battery;
pub mod discovery;
