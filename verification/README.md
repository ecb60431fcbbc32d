# cargo_runner_core

The command resolution core of a Rust project runner: given a runnable (a
test, a binary, a benchmark, a doc test, a module's tests, a standalone file
or a cargo script) and the configuration that applies to its file, it builds
the command line that runs it with cargo, rustc, bazel or a framework tool.

The library under `src/` is verified with Verus: every public function states
in its contract what it returns, over spec functions on sequences of
characters, and the laws that relate several operations stand as public proof
functions.

- `config::v2`: scope-layered configuration (workspace, crate, file, module,
  function), the cascade that merges the layers matching a context, the
  strategy registry and the framework strategies, the configuration file's
  shape and the walk that finds configuration files upwards.
- `config`: the settings of the per-function overrides, their merge across
  root, workspace and package levels, and the parser of `override` tokens.
- `command`: command values, their shell rendering and the processes they
  start, the builders per kind of target, the builders by kind of file
  (`file_builder`: rustc for standalone files, the shebang's tool for
  single-file scripts such as `rust-script`, cargo for project files), and
  the fallback for files with no runnable.
- `bazel`, `build_system`: BUILD file rules, Bazel labels and targets, build
  system detection from what a directory holds.
- `entities`: the runner's named command configurations per context.
- `strings`, `paths`, `env`: text, path and environment helpers with their
  specifications.

`app/` holds the edges the library does not verify: reading and writing the
JSON and TOML files (with serde copies of the library's types), walking
directories, downloading configurations and starting processes.
