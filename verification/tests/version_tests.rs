use plugin_host::version::{determine_current_version, find_latest_version, parse_staged_name, trim_version, VersionTriple, NO_VERSION_MESSAGE};

fn names(list: &[&str]) -> Vec<String> {
    list.iter().map(|s| s.to_string()).collect()
}

#[test]
fn version_order_is_lexicographic() {
    let a = VersionTriple::new(1, 2, 3);
    let b = VersionTriple::new(1, 3, 0);
    let c = VersionTriple::new(2, 0, 0);
    assert!(a.less_than(&b));
    assert!(b.less_than(&c));
    assert!(a.less_than(&c));
    assert!(!b.less_than(&a));
    assert!(!a.less_than(&a));
}

#[test]
fn current_version_is_the_greatest_staged() {
    let staged = names(&["plugin_1.0.0.wasm", "plugin_1.2.0.wasm"]);
    assert_eq!(determine_current_version(&staged), Some(VersionTriple::new(1, 2, 0)));
    assert_eq!(find_latest_version(&staged), "plugin_1.2.0.wasm");
}

#[test]
fn empty_staging_has_no_version() {
    let staged: Vec<String> = Vec::new();
    assert_eq!(determine_current_version(&staged), None);
    assert_eq!(find_latest_version(&staged), NO_VERSION_MESSAGE);
}

#[test]
fn staged_name_pattern() {
    assert_eq!(parse_staged_name("plugin_1.2.3.wasm"), Some(VersionTriple::new(1, 2, 3)));
    assert_eq!(parse_staged_name("plugin_0.0.0.wasm"), Some(VersionTriple::new(0, 0, 0)));
    assert_eq!(parse_staged_name("plugin_4294967295.0.7.wasm"), Some(VersionTriple::new(4294967295, 0, 7)));
    assert_eq!(parse_staged_name("plugin_4294967296.0.7.wasm"), None);
    assert_eq!(parse_staged_name("plugin_1.2.wasm"), None);
    assert_eq!(parse_staged_name("plugin_1.2.3.4.wasm"), None);
    assert_eq!(parse_staged_name("plugin_1..3.wasm"), None);
    assert_eq!(parse_staged_name("plugin_1.x.3.wasm"), None);
    assert_eq!(parse_staged_name("plugin.wasm"), None);
    assert_eq!(parse_staged_name("Plugin_1.2.3.wasm"), None);
    assert_eq!(parse_staged_name("plugin_1.2.3.wasm.bak"), None);
    assert_eq!(parse_staged_name(""), None);
}

#[test]
fn trim_version_keeps_what_follows_the_last_underscore() {
    assert_eq!(trim_version("plugin_1.2.3.wasm"), "1.2.3.wasm");
    assert_eq!(trim_version("a_b_c"), "c");
    assert_eq!(trim_version("none"), "none");
    assert_eq!(trim_version("trailing_"), "");
    assert_eq!(trim_version(NO_VERSION_MESSAGE), "X.Y.Z'");
}
