//! Marker types for cargo subcommands.
use vstd::prelude::*;

verus! {

pub struct Run;

pub struct Test;

pub struct Bench;

pub struct Build;

} // verus!
