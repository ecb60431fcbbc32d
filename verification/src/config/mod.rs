//! Configuration: the scope-layered model, and the runner's settings files
//! with their per-function overrides and how they are merged.
pub mod v2;
pub mod settings;
pub mod override_config;
pub mod cargo_config;
pub mod test_framework;
pub mod merge;
pub mod override_manager;
