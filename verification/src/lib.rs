//! Command resolution for Rust projects: the scope-layered configuration,
//! the framework strategies that turn a runnable into a command line, and the
//! command values themselves.
use vstd::prelude::*;

pub mod strings;
pub mod types;
pub mod env;
pub mod paths;
pub mod error;
pub mod build_system;
pub mod command;
pub mod config;
pub mod bazel;
pub mod entities;

verus! {

} // verus!
