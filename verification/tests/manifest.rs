use wlr_libpy::manifest::{
    libpython_conf, PythonVersion, LIBPYTHON_311_BINARY, LIBPYTHON_311_URL, LIBPYTHON_312_BINARY,
    LIBPYTHON_312_URL, WASI_SDK_CLANG_BUILTINS_URL, WASI_SDK_SYSROOT_URL,
};

#[test]
fn manifest_for_python_311() {
    let conf = libpython_conf(PythonVersion::Py311);
    assert_eq!(
        conf.wasi_sdk_sysroot_url,
        "https://github.com/WebAssembly/wasi-sdk/releases/download/wasi-sdk-20/wasi-sysroot-20.0.tar.gz"
    );
    assert_eq!(
        conf.wasi_sdk_clang_builtins_url,
        "https://github.com/WebAssembly/wasi-sdk/releases/download/wasi-sdk-20/libclang_rt.builtins-wasm32-wasi-20.0.tar.gz"
    );
    assert_eq!(
        conf.libpython_url,
        "https://github.com/vmware-labs/webassembly-language-runtimes/releases/download/python%2F3.11.4%2B20230714-11be424/libpython-3.11.4-wasi-sdk-20.0.tar.gz"
    );
    assert_eq!(conf.libpython_binary, "python3.11");
}

#[test]
fn manifest_for_python_312() {
    let conf = libpython_conf(PythonVersion::Py312);
    assert_eq!(
        conf.wasi_sdk_sysroot_url,
        "https://github.com/WebAssembly/wasi-sdk/releases/download/wasi-sdk-20/wasi-sysroot-20.0.tar.gz"
    );
    assert_eq!(
        conf.wasi_sdk_clang_builtins_url,
        "https://github.com/WebAssembly/wasi-sdk/releases/download/wasi-sdk-20/libclang_rt.builtins-wasm32-wasi-20.0.tar.gz"
    );
    assert_eq!(
        conf.libpython_url,
        "https://github.com/vmware-labs/webassembly-language-runtimes/releases/download/python%2F3.12.0%2B20231211-040d5a6/libpython-3.12.0-wasi-sdk-20.0.tar.gz"
    );
    assert_eq!(conf.libpython_binary, "python3.12");
}

#[test]
fn manifests_share_the_sdk_and_differ_in_libpython() {
    let py311 = libpython_conf(PythonVersion::Py311);
    let py312 = libpython_conf(PythonVersion::Py312);
    assert_eq!(py311.wasi_sdk_sysroot_url, py312.wasi_sdk_sysroot_url);
    assert_eq!(py311.wasi_sdk_clang_builtins_url, py312.wasi_sdk_clang_builtins_url);
    assert_ne!(py311.libpython_url, py312.libpython_url);
    assert_ne!(py311.libpython_binary, py312.libpython_binary);
}

#[test]
fn manifest_constants() {
    assert_eq!(libpython_conf(PythonVersion::Py311).wasi_sdk_sysroot_url, WASI_SDK_SYSROOT_URL);
    assert_eq!(
        libpython_conf(PythonVersion::Py311).wasi_sdk_clang_builtins_url,
        WASI_SDK_CLANG_BUILTINS_URL
    );
    assert_eq!(libpython_conf(PythonVersion::Py311).libpython_url, LIBPYTHON_311_URL);
    assert_eq!(libpython_conf(PythonVersion::Py312).libpython_url, LIBPYTHON_312_URL);
    assert_eq!(LIBPYTHON_311_BINARY, "python3.11");
    assert_eq!(LIBPYTHON_312_BINARY, "python3.12");
}
