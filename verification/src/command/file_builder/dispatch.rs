//! The choice of builder: by the kind of file first, then by the kind of
//! runnable.
use vstd::prelude::*;

use crate::command::cargo_command::CargoCommand;
use crate::command::file_builder::cargo::{
    bench_command, doc_test_command, run_command, test_command, BenchmarkCommandBuilder, BinaryCommandBuilder,
    DocTestCommandBuilder, TestCommandBuilder,
};
use crate::command::file_builder::rustc::{rustc_command, RustcCommandBuilder};
use crate::command::file_builder::script::{script_command, SingleFileScriptBuilder};
use crate::command::file_builder::FileConfig;
use crate::error::Error;
use crate::strings::owned;
use crate::types::{FileType, Runnable, RunnableKind};

verus! {

/// What the script builder gives.
pub open spec fn script_result(r: Result<CargoCommand, Error>, run: Runnable, c: FileConfig, ft: FileType, shebang: Seq<char>) -> bool {
    match script_command(run, c, ft, shebang) {
        Some(x) => r matches Ok(cmd) && cmd@ == x,
        None => r matches Err(Error::ParseError(m)) && m@ == "Unsupported runnable type for single file script"@,
    }
}

/// What the rustc builder gives.
pub open spec fn rustc_result(r: Result<CargoCommand, Error>, run: Runnable, c: FileConfig, ft: FileType) -> bool {
    match rustc_command(run, c, ft) {
        Ok(x) => r matches Ok(cmd) && cmd@ == x,
        Err(m) => r matches Err(Error::ParseError(e)) && e@ == m,
    }
}

/// The command for a runnable by kind of file: a standalone file's doc test
/// is refused and its other runnables go to rustc (scripts to the script
/// builder); every runnable of a single-file script goes to the script
/// builder; in a cargo project, tests, doc tests, benchmarks and binaries
/// get their cargo commands, standalone runnables rustc's, scripts the
/// script builder's, and module tests are refused (no builder for them).
pub open spec fn family_result(
    r: Result<CargoCommand, Error>,
    run: Runnable,
    package: Option<Seq<char>>,
    c: FileConfig,
    ft: FileType,
    shebang: Seq<char>,
    root: Option<Seq<char>>,
) -> bool {
    match ft {
        FileType::SingleFileScript => script_result(r, run, c, ft, shebang),
        FileType::Standalone => match run.kind {
            RunnableKind::DocTest { .. } => r matches Err(Error::ParseError(m)) && m@
                == "Doc tests are not supported in standalone files"@,
            RunnableKind::SingleFileScript { .. } => script_result(r, run, c, ft, shebang),
            _ => rustc_result(r, run, c, ft),
        },
        FileType::CargoProject => match run.kind {
            RunnableKind::DocTest { .. } => r matches Ok(cmd) && Some(cmd@) == doc_test_command(run, package, c, ft, root),
            RunnableKind::Test { .. } => r matches Ok(cmd) && cmd@ == test_command(run, package, c, ft, root),
            RunnableKind::Binary { .. } => r matches Ok(cmd) && cmd@ == run_command(run, package, root),
            RunnableKind::Benchmark { .. } => r matches Ok(cmd) && cmd@ == bench_command(run, package, c, ft, root),
            RunnableKind::ModuleTests { .. } => r matches Err(Error::ParseError(m)) && m@
                == "Module tests of cargo projects have no builder"@,
            RunnableKind::Standalone { .. } => rustc_result(r, run, c, ft),
            RunnableKind::SingleFileScript { .. } => script_result(r, run, c, ft, shebang),
        },
    }
}

/// Chooses the builder for a runnable.
pub struct CommandBuilder;

impl CommandBuilder {
    /// The command for a runnable of a file of the given kind, under the
    /// per-tool settings; `shebang` is the script's shebang line (see
    /// `shebang_of`) and `cargo_root` the project's root directory, when
    /// one was found.
    pub fn build_for_file_type(
        runnable: &Runnable,
        package: Option<&str>,
        config: &FileConfig,
        file_type: FileType,
        shebang: &str,
        cargo_root: Option<&str>,
    ) -> (r: Result<CargoCommand, Error>)
        ensures
            family_result(r, *runnable, match package {
                Some(p) => Some(p@),
                None => None,
            }, *config, file_type, shebang@, match cargo_root {
                Some(d) => Some(d@),
                None => None,
            }),
    {
        match file_type {
            FileType::SingleFileScript => SingleFileScriptBuilder::build(runnable, config, file_type, shebang),
            FileType::Standalone => match &runnable.kind {
                RunnableKind::DocTest { .. } => Err(
                    Error::ParseError(owned("Doc tests are not supported in standalone files")),
                ),
                RunnableKind::SingleFileScript { .. } => SingleFileScriptBuilder::build(runnable, config, file_type, shebang),
                _ => RustcCommandBuilder::build(runnable, config, file_type),
            },
            FileType::CargoProject => match &runnable.kind {
                RunnableKind::DocTest { .. } => DocTestCommandBuilder::build(runnable, package, config, file_type, cargo_root),
                RunnableKind::Test { .. } => TestCommandBuilder::build(runnable, package, config, file_type, cargo_root),
                RunnableKind::Binary { .. } => BinaryCommandBuilder::build(runnable, package, cargo_root),
                RunnableKind::Benchmark { .. } => BenchmarkCommandBuilder::build(runnable, package, config, file_type, cargo_root),
                RunnableKind::ModuleTests { .. } => Err(
                    Error::ParseError(owned("Module tests of cargo projects have no builder")),
                ),
                RunnableKind::Standalone { .. } => RustcCommandBuilder::build(runnable, config, file_type),
                RunnableKind::SingleFileScript { .. } => SingleFileScriptBuilder::build(runnable, config, file_type, shebang),
            },
        }
    }
}

} // verus!
