use renovatio::registry::{expanded_plugin_dirs, find_by_name, module_paths, plugin_dirs,
    register, resolve_enabled};
use renovatio::PluginMetadata;

fn entry(name: &str, version: &str) -> PluginMetadata {
    PluginMetadata {
        name: name.to_string(),
        version: version.to_string(),
        description: format!("{} plugin", name),
        path: None,
    }
}

#[test]
fn default_search_dirs() {
    let dirs = plugin_dirs();
    assert_eq!(
        dirs,
        vec![
            "/usr/lib/renovatio/plugins".to_string(),
            "/usr/local/lib/renovatio/plugins".to_string(),
            "~/.local/lib/renovatio/plugins".to_string(),
        ]
    );
}

#[test]
fn expanded_search_dirs() {
    // The fixed directories pass through unchanged; the user-home one keeps
    // its tail whatever the home directory is (or whether one is known).
    let dirs = expanded_plugin_dirs();
    assert_eq!(dirs.len(), 3);
    assert_eq!(dirs[0], "/usr/lib/renovatio/plugins");
    assert_eq!(dirs[1], "/usr/local/lib/renovatio/plugins");
    assert!(dirs[2].ends_with("/.local/lib/renovatio/plugins"));
}

#[test]
fn module_paths_filters_by_suffix_and_joins() {
    let files = vec![
        "libbrew.so".to_string(),
        "readme.txt".to_string(),
        "libbootc.so".to_string(),
        "so".to_string(),
        ".so".to_string(),
    ];
    let paths = module_paths("/usr/lib/renovatio/plugins", &files);
    assert_eq!(
        paths,
        vec![
            "/usr/lib/renovatio/plugins/libbrew.so".to_string(),
            "/usr/lib/renovatio/plugins/libbootc.so".to_string(),
            "/usr/lib/renovatio/plugins/.so".to_string(),
        ]
    );
}

#[test]
fn first_discovered_entry_wins_a_name() {
    let mut registry: Vec<PluginMetadata> = Vec::new();
    assert!(register(&mut registry, entry("brew", "0.1.0")));
    assert!(register(&mut registry, entry("flatpak", "0.1.0")));
    assert!(!register(&mut registry, entry("brew", "0.2.0")));
    assert_eq!(registry.len(), 2);
    assert_eq!(registry[0].version, "0.1.0");
}

#[test]
fn find_by_name_returns_the_first_match() {
    let mut registry: Vec<PluginMetadata> = Vec::new();
    register(&mut registry, entry("brew", "0.1.0"));
    register(&mut registry, entry("flatpak", "0.1.0"));
    assert_eq!(find_by_name(&registry, "flatpak"), Some(1));
    assert_eq!(find_by_name(&registry, "nope"), None);
}

#[test]
fn resolve_enabled_in_order() {
    let mut registry: Vec<PluginMetadata> = Vec::new();
    register(&mut registry, entry("brew", "0.1.0"));
    register(&mut registry, entry("flatpak", "0.1.0"));
    register(&mut registry, entry("distrobox", "0.1.0"));
    let enabled = vec!["flatpak".to_string(), "brew".to_string()];
    let entries = resolve_enabled(&registry, &enabled).expect("both names are known");
    assert_eq!(entries.len(), 2);
    assert_eq!(entries[0].name, "flatpak");
    assert_eq!(entries[1].name, "brew");
}

#[test]
fn resolve_enabled_fails_fast_on_the_first_unknown_name() {
    let mut registry: Vec<PluginMetadata> = Vec::new();
    register(&mut registry, entry("brew", "0.1.0"));
    let enabled = vec!["brew".to_string(), "ghost".to_string(), "phantom".to_string()];
    let err = resolve_enabled(&registry, &enabled).expect_err("ghost is unknown");
    assert_eq!(err, "ghost");
}

#[test]
fn metadata_duplicate_is_equal() {
    let mut m = entry("brew", "0.1.0");
    m.path = Some("/usr/lib/renovatio/plugins/libbrew.so".to_string());
    let copy = m.duplicate();
    assert_eq!(copy.name, m.name);
    assert_eq!(copy.version, m.version);
    assert_eq!(copy.description, m.description);
    assert_eq!(copy.path, m.path);
}
