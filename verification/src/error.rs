//! The library's errors.
use vstd::prelude::*;

verus! {

/// What can go wrong while resolving configuration or building a command.
#[derive(Debug)]
pub enum Error {
    /// A file or value could not be parsed or understood.
    ParseError(String),
    /// Configuration is missing or inconsistent.
    ConfigError(String),
    /// Reading or writing a file failed.
    IoError(String),
    /// Two configurations with different names were merged.
    MergeConflict(String, String),
    /// Setting a default named a configuration the context does not have.
    SetDefault(String),
    Other(String),
}

} // verus!
