//! Bazel support for command building: finding the rule that runs a file.
pub mod target_detection;
