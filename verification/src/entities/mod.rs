//! The runner's named command configurations, grouped by the context they
//! run in (run, test, build, bench), each context with a default.
pub mod context;
pub mod config;
pub mod cargo_runner;

pub use crate::command::CommandType;
pub use cargo_runner::CargoRunner;
pub use config::Config;
pub use context::Context;
