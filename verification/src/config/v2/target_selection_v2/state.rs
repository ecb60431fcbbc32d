//! Marker types for what a target selection has selected.
use vstd::prelude::*;

verus! {

/// No target selected yet.
pub struct NoTarget;

/// Library target selected (--lib).
pub struct Library;

/// Binary target selected (--bin).
pub struct Binary;

/// Example target selected (--example).
pub struct Example;

/// Test target selected (--test).
pub struct TestTarget;

/// Benchmark target selected (--bench).
pub struct Benchmark;

/// Documentation selected (--doc).
pub struct Doc;

} // verus!
