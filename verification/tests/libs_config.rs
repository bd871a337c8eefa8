use wlr_libpy::libs_config::LibsConfig;

#[test]
fn new_config_is_empty() {
    let config = LibsConfig::new();
    assert!(config.lib_paths().is_empty());
    assert!(config.libs().is_empty());
}

#[test]
fn additions_keep_their_order() {
    let mut config = LibsConfig::new();
    config.add("z");
    config.add_lib_path("/second/in/alphabet".to_string());
    config.add("a");
    config.add_lib_path("/first/in/alphabet".to_string());
    config.add("m");
    assert_eq!(config.libs(), &vec!["z".to_string(), "a".to_string(), "m".to_string()]);
    assert_eq!(
        config.lib_paths(),
        &vec!["/second/in/alphabet".to_string(), "/first/in/alphabet".to_string()]
    );
}

#[test]
fn duplicates_are_kept() {
    let mut config = LibsConfig::new();
    config.add("c");
    config.add("c");
    config.add_lib_path("/lib".to_string());
    config.add_lib_path("/lib".to_string());
    assert_eq!(config.libs(), &vec!["c".to_string(), "c".to_string()]);
    assert_eq!(config.lib_paths(), &vec!["/lib".to_string(), "/lib".to_string()]);
}

#[test]
fn paths_that_do_not_exist_are_accepted() {
    let mut config = LibsConfig::new();
    config.add_lib_path("/no/such/directory/anywhere".to_string());
    config.add_lib_path(String::new());
    config.add("");
    assert_eq!(
        config.lib_paths(),
        &vec!["/no/such/directory/anywhere".to_string(), String::new()]
    );
    assert_eq!(config.libs(), &vec![String::new()]);
}
