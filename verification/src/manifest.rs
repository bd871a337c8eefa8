//! The pinned artifacts: which archives a build fetches and which libpython
//! it links, one manifest per supported Python version.

use vstd::prelude::*;

verus! {

/// Archive holding the WASI system root (headers and libc).
pub const WASI_SDK_SYSROOT_URL: &'static str =
    "https://github.com/WebAssembly/wasi-sdk/releases/download/wasi-sdk-20/wasi-sysroot-20.0.tar.gz";

/// Archive holding clang's runtime builtins for `wasm32-wasi`.
pub const WASI_SDK_CLANG_BUILTINS_URL: &'static str =
    "https://github.com/WebAssembly/wasi-sdk/releases/download/wasi-sdk-20/libclang_rt.builtins-wasm32-wasi-20.0.tar.gz";

/// Archive holding the static libpython 3.11.
pub const LIBPYTHON_311_URL: &'static str =
    "https://github.com/vmware-labs/webassembly-language-runtimes/releases/download/python%2F3.11.4%2B20230714-11be424/libpython-3.11.4-wasi-sdk-20.0.tar.gz";

/// Archive holding the static libpython 3.12.
pub const LIBPYTHON_312_URL: &'static str =
    "https://github.com/vmware-labs/webassembly-language-runtimes/releases/download/python%2F3.12.0%2B20231211-040d5a6/libpython-3.12.0-wasi-sdk-20.0.tar.gz";

/// Name under which libpython 3.11 is linked.
pub const LIBPYTHON_311_BINARY: &'static str = "python3.11";

/// Name under which libpython 3.12 is linked.
pub const LIBPYTHON_312_BINARY: &'static str = "python3.12";

/// The Python versions for which a manifest exists.
#[derive(Clone, Copy, Debug, PartialEq, Eq)]
pub enum PythonVersion {
    Py311,
    Py312,
}

/// The three archives of one build and the name of the libpython they bring.
#[derive(Clone, Copy, Debug)]
pub struct LibPythonConfig {
    pub wasi_sdk_sysroot_url: &'static str,
    pub wasi_sdk_clang_builtins_url: &'static str,
    pub libpython_url: &'static str,
    pub libpython_binary: &'static str,
}

/// What a manifest says, as text.
pub struct ManifestView {
    pub wasi_sdk_sysroot_url: Seq<char>,
    pub wasi_sdk_clang_builtins_url: Seq<char>,
    pub libpython_url: Seq<char>,
    pub libpython_binary: Seq<char>,
}

impl View for LibPythonConfig {
    type V = ManifestView;

    open spec fn view(&self) -> ManifestView {
        ManifestView {
            wasi_sdk_sysroot_url: self.wasi_sdk_sysroot_url@,
            wasi_sdk_clang_builtins_url: self.wasi_sdk_clang_builtins_url@,
            libpython_url: self.libpython_url@,
            libpython_binary: self.libpython_binary@,
        }
    }
}

/// The manifest pinned for `version`.
pub open spec fn manifest_of(version: PythonVersion) -> ManifestView {
    match version {
        PythonVersion::Py311 => ManifestView {
            wasi_sdk_sysroot_url: WASI_SDK_SYSROOT_URL@,
            wasi_sdk_clang_builtins_url: WASI_SDK_CLANG_BUILTINS_URL@,
            libpython_url: LIBPYTHON_311_URL@,
            libpython_binary: LIBPYTHON_311_BINARY@,
        },
        PythonVersion::Py312 => ManifestView {
            wasi_sdk_sysroot_url: WASI_SDK_SYSROOT_URL@,
            wasi_sdk_clang_builtins_url: WASI_SDK_CLANG_BUILTINS_URL@,
            libpython_url: LIBPYTHON_312_URL@,
            libpython_binary: LIBPYTHON_312_BINARY@,
        },
    }
}

/// The manifest of the build for `version`.
///
/// Both versions are built against the same WASI SDK; they differ in the
/// libpython archive and in the name of the library it holds.
pub fn libpython_conf(version: PythonVersion) -> (conf: LibPythonConfig)
    ensures
        conf@ == manifest_of(version),
{
    match version {
        PythonVersion::Py311 => LibPythonConfig {
            wasi_sdk_sysroot_url: WASI_SDK_SYSROOT_URL,
            wasi_sdk_clang_builtins_url: WASI_SDK_CLANG_BUILTINS_URL,
            libpython_url: LIBPYTHON_311_URL,
            libpython_binary: LIBPYTHON_311_BINARY,
        },
        PythonVersion::Py312 => LibPythonConfig {
            wasi_sdk_sysroot_url: WASI_SDK_SYSROOT_URL,
            wasi_sdk_clang_builtins_url: WASI_SDK_CLANG_BUILTINS_URL,
            libpython_url: LIBPYTHON_312_URL,
            libpython_binary: LIBPYTHON_312_BINARY,
        },
    }
}

} // verus!
