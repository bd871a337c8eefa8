//! Build configuration for linking a static libpython into a `wasm32-wasi`
//! binary.
//!
//! The crate decides *where* the shared cache of toolchain artifacts lives,
//! *what* has to be done to fill it (create the directory, take the
//! cross-process lock, fetch three archives) and *which* linker search paths
//! and library names result. It touches neither the file system nor the
//! network: every effect is handed to the caller as a value describing the
//! next thing to do, and the caller reports back how it went.

pub mod deps_path;
pub mod libs_config;
pub mod manifest;
pub mod paths;
pub mod setup;

pub use deps_path::{find_deps_path, DepsSearch};
pub use libs_config::LibsConfig;
pub use manifest::{libpython_conf, LibPythonConfig, PythonVersion};
pub use setup::{configure_static_libs, Action, Artifact, Outcome, Phase, Setup, Step};
