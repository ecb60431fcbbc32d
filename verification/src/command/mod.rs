//! Command values and their construction.
pub mod cargo_command;
pub mod command;
pub mod target;
pub mod builder;
pub mod builder_v2;
pub mod target_builder;
pub mod fallback;
pub mod file_builder;

pub use cargo_command::{CargoCommand, CommandType};
