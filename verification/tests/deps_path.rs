use wlr_libpy::deps_path::{find_deps_path, FALLBACK_DEPS_PATH, MARKER_FILE, TARGET_DIR_VAR};

/// Runs a search to its end on a file system that holds exactly `existing`,
/// and returns the cache directory with the files that were probed.
fn resolve(
    target_dir: Option<&str>,
    cwd: Option<&str>,
    existing: &[&str],
) -> (String, Vec<String>) {
    let mut search = find_deps_path(target_dir, cwd);
    let mut probed = Vec::new();
    loop {
        match search.marker_to_probe() {
            Some(marker) => {
                assert!(search.path().is_none());
                let exists = existing.contains(&marker.as_str());
                probed.push(marker);
                search = search.answer(exists);
            }
            None => break,
        }
    }
    (search.path().expect("a search that probes nothing is resolved"), probed)
}

#[test]
fn names_of_variable_marker_and_fallback() {
    assert_eq!(TARGET_DIR_VAR, "CARGO_TARGET_DIR");
    assert_eq!(MARKER_FILE, "Cargo.lock");
    assert_eq!(FALLBACK_DEPS_PATH, "target/wasm32-wasi/wasi-deps");
}

#[test]
fn marker_two_directories_up() {
    let (path, probed) = resolve(
        None,
        Some("/home/dev/project/crates/tool"),
        &["/home/dev/project/Cargo.lock"],
    );
    assert_eq!(path, "/home/dev/project/target/wasm32-wasi/wasi-deps");
    assert_eq!(
        probed,
        vec![
            "/home/dev/project/crates/tool/Cargo.lock",
            "/home/dev/project/crates/Cargo.lock",
            "/home/dev/project/Cargo.lock",
        ]
    );
}

#[test]
fn marker_in_working_directory() {
    let (path, probed) = resolve(None, Some("/work"), &["/work/Cargo.lock", "/Cargo.lock"]);
    assert_eq!(path, "/work/target/wasm32-wasi/wasi-deps");
    assert_eq!(probed, vec!["/work/Cargo.lock"]);
}

#[test]
fn nearest_marker_wins() {
    let (path, probed) = resolve(
        None,
        Some("/a/b/c"),
        &["/a/Cargo.lock", "/a/b/Cargo.lock"],
    );
    assert_eq!(path, "/a/b/target/wasm32-wasi/wasi-deps");
    assert_eq!(probed, vec!["/a/b/c/Cargo.lock", "/a/b/Cargo.lock"]);
}

#[test]
fn marker_at_file_system_root() {
    let (path, probed) = resolve(None, Some("/a/b"), &["/Cargo.lock"]);
    assert_eq!(path, "/target/wasm32-wasi/wasi-deps");
    assert_eq!(probed, vec!["/a/b/Cargo.lock", "/a/Cargo.lock", "/Cargo.lock"]);
}

#[test]
fn no_marker_falls_back_to_relative_path() {
    let (path, probed) = resolve(None, Some("/a/b"), &[]);
    assert_eq!(path, "target/wasm32-wasi/wasi-deps");
    assert_eq!(probed, vec!["/a/b/Cargo.lock", "/a/Cargo.lock", "/Cargo.lock"]);
}

#[test]
fn no_working_directory_falls_back_without_probing() {
    let (path, probed) = resolve(None, None, &["/Cargo.lock"]);
    assert_eq!(path, "target/wasm32-wasi/wasi-deps");
    assert!(probed.is_empty());
}

#[test]
fn target_dir_decides_without_probing() {
    let (path, probed) = resolve(
        Some("/build/out"),
        Some("/home/dev/project"),
        &["/home/dev/project/Cargo.lock"],
    );
    assert_eq!(path, "/build/out/wasm32-wasi/wasi-deps");
    assert!(probed.is_empty());
}

#[test]
fn target_dir_ignores_working_directory_and_markers() {
    let with_tree = resolve(Some("out"), Some("/a/b"), &["/a/Cargo.lock"]);
    let without_cwd = resolve(Some("out"), None, &[]);
    let elsewhere = resolve(Some("out"), Some("/x"), &["/x/Cargo.lock"]);
    assert_eq!(with_tree.0, "out/wasm32-wasi/wasi-deps");
    assert_eq!(with_tree, without_cwd);
    assert_eq!(with_tree, elsewhere);
}

#[test]
fn target_dir_with_trailing_separator() {
    let (path, _) = resolve(Some("/build/out/"), None, &[]);
    assert_eq!(path, "/build/out/wasm32-wasi/wasi-deps");
}

#[test]
fn empty_target_dir_gives_relative_path() {
    let (path, probed) = resolve(Some(""), Some("/a"), &["/a/Cargo.lock"]);
    assert_eq!(path, "wasm32-wasi/wasi-deps");
    assert!(probed.is_empty());
}

#[test]
fn relative_working_directory() {
    let (path, probed) = resolve(None, Some("a/b"), &["a/Cargo.lock"]);
    assert_eq!(path, "a/target/wasm32-wasi/wasi-deps");
    assert_eq!(probed, vec!["a/b/Cargo.lock", "a/Cargo.lock"]);
}

#[test]
fn relative_working_directory_without_marker() {
    let (path, probed) = resolve(None, Some("a/b"), &[]);
    assert_eq!(path, "target/wasm32-wasi/wasi-deps");
    assert_eq!(probed, vec!["a/b/Cargo.lock", "a/Cargo.lock", "Cargo.lock"]);
}

#[test]
fn resolution_is_repeatable() {
    let existing = ["/srv/ws/Cargo.lock"];
    let first = resolve(None, Some("/srv/ws/pkg/src"), &existing);
    let second = resolve(None, Some("/srv/ws/pkg/src"), &existing);
    assert_eq!(first, second);
    assert_eq!(first.0, "/srv/ws/target/wasm32-wasi/wasi-deps");
}

#[test]
fn resolved_search_ignores_further_answers() {
    let search = find_deps_path(Some("/out"), None);
    let search = search.answer(true);
    assert_eq!(search.marker_to_probe(), None);
    assert_eq!(search.path(), Some("/out/wasm32-wasi/wasi-deps".to_string()));
    let search = search.answer(false);
    assert_eq!(search.path(), Some("/out/wasm32-wasi/wasi-deps".to_string()));

    let found = find_deps_path(None, Some("/w")).answer(true).answer(false).answer(true);
    assert_eq!(found.marker_to_probe(), None);
    assert_eq!(found.path(), Some("/w/target/wasm32-wasi/wasi-deps".to_string()));
}

#[test]
fn probing_search_has_no_path_yet() {
    let search = find_deps_path(None, Some("/a/b"));
    assert_eq!(search.path(), None);
    assert_eq!(search.marker_to_probe(), Some("/a/b/Cargo.lock".to_string()));
    let search = search.answer(false);
    assert_eq!(search.path(), None);
    assert_eq!(search.marker_to_probe(), Some("/a/Cargo.lock".to_string()));
}

#[test]
fn working_directory_is_the_file_system_root() {
    let (path, probed) = resolve(None, Some("/"), &[]);
    assert_eq!(path, "target/wasm32-wasi/wasi-deps");
    assert_eq!(probed, vec!["/Cargo.lock"]);
    let (path, _) = resolve(None, Some("/"), &["/Cargo.lock"]);
    assert_eq!(path, "/target/wasm32-wasi/wasi-deps");
}

#[test]
fn empty_working_directory() {
    let (path, probed) = resolve(None, Some(""), &["Cargo.lock"]);
    assert_eq!(probed, vec!["Cargo.lock"]);
    assert_eq!(path, "target/wasm32-wasi/wasi-deps");
}

#[test]
fn marker_elsewhere_is_not_seen() {
    let (path, probed) = resolve(
        None,
        Some("/a/b"),
        &["/a/c/Cargo.lock", "/a/b/d/Cargo.lock", "/a/b/Cargo.toml"],
    );
    assert_eq!(path, "target/wasm32-wasi/wasi-deps");
    assert_eq!(probed.len(), 3);
}
