use zellij_utils::paths::{anchor, anchor_if_relative, resolve_working_dir};
use zellij_utils::plugin::{ParsedUrl, PluginsConfigError, RunPluginLocation};
use zellij_utils::text::{skip_chars, starts_with, str_eq};

fn location(r: Result<RunPluginLocation, PluginsConfigError>) -> RunPluginLocation {
    match r {
        Ok(location) => location,
        Err(e) => panic!("{}", e.message()),
    }
}

fn failure(r: Result<RunPluginLocation, PluginsConfigError>) -> String {
    match r {
        Ok(location) => panic!("{:?}", location),
        Err(e) => e.message(),
    }
}

#[test]
fn absolute_file_url_is_the_path_of_the_url() {
    assert_eq!(
        location(RunPluginLocation::parse("file:///p.wasm", Some("/home/u".to_string()))),
        RunPluginLocation::File("/p.wasm".to_string())
    );
    assert_eq!(
        location(RunPluginLocation::parse("file:/opt/p.wasm", None)),
        RunPluginLocation::File("/opt/p.wasm".to_string())
    );
}

#[test]
fn percent_encoding_in_the_path_is_undone() {
    assert_eq!(
        location(RunPluginLocation::parse("file:///tmp/my%20plugin.wasm", None)),
        RunPluginLocation::File("/tmp/my plugin.wasm".to_string())
    );
    assert_eq!(
        location(RunPluginLocation::parse("zellij:tab%2Dbar", None)),
        RunPluginLocation::Zellij("tab-bar".to_string())
    );
}

#[test]
fn relative_file_url_is_seen_from_the_directory() {
    assert_eq!(
        location(RunPluginLocation::parse("file:p.wasm", Some("/home/u".to_string()))),
        RunPluginLocation::File("/home/u/p.wasm".to_string())
    );
    assert_eq!(
        location(RunPluginLocation::parse("file:plugins/p.wasm", None)),
        RunPluginLocation::File("plugins/p.wasm".to_string())
    );
}

#[test]
fn builtin_plugin_by_its_tag() {
    assert_eq!(
        location(RunPluginLocation::parse("zellij:status-bar", Some("/home/u".to_string()))),
        RunPluginLocation::Zellij("status-bar".to_string())
    );
}

#[test]
fn text_that_is_no_url() {
    assert_eq!(
        failure(RunPluginLocation::parse("status-bar", None)),
        "Failed to parse url: RelativeUrlWithoutBase"
    );
    assert_eq!(failure(RunPluginLocation::parse("", None)), "Failed to parse url: RelativeUrlWithoutBase");
}

#[test]
fn url_with_another_scheme() {
    assert_eq!(
        failure(RunPluginLocation::parse("https://example.com/p.wasm", None)),
        "Only 'file:' and 'zellij:' url schemes are supported for plugin lookup. 'https://example.com/p.wasm' does not match either."
    );
}

#[test]
fn file_scheme_spelt_otherwise_is_refused() {
    assert_eq!(
        failure(RunPluginLocation::parse("FILE:p.wasm", Some("/home/u".to_string()))),
        "Could not find plugin at the path: 'FILE:p.wasm'"
    );
}

#[test]
fn location_is_decided_from_the_parts_of_the_url() {
    let parts = |scheme: &str, path: &str| {
        Ok(ParsedUrl { scheme: scheme.to_string(), path: path.to_string(), text: "whole".to_string() })
    };
    assert_eq!(
        location(RunPluginLocation::from_url("file:/a", parts("file", "/x%41"), None)),
        RunPluginLocation::File("/xA".to_string())
    );
    assert_eq!(
        location(RunPluginLocation::from_url("file:a", parts("file", "/ignored"), Some("/d".to_string()))),
        RunPluginLocation::File("/d/a".to_string())
    );
    assert_eq!(
        location(RunPluginLocation::from_url("anything", parts("zellij", "tag"), None)),
        RunPluginLocation::Zellij("tag".to_string())
    );
    assert_eq!(
        failure(RunPluginLocation::from_url("ftp:a", parts("ftp", "a"), None)),
        "Only 'file:' and 'zellij:' url schemes are supported for plugin lookup. 'whole' does not match either."
    );
    assert_eq!(
        failure(RunPluginLocation::from_url("x", Err("EmptyHost".to_string()), None)),
        "Failed to parse url: EmptyHost"
    );
}

#[test]
fn relative_path_is_joined_under_the_base() {
    assert_eq!(anchor("/home/u", "proj"), "/home/u/proj");
    assert_eq!(anchor("/home/u/", "proj/src"), "/home/u/proj/src");
    assert_eq!(anchor_if_relative("/home/u", "proj".to_string()), "/home/u/proj");
}

#[test]
fn absolute_path_replaces_the_base() {
    assert_eq!(anchor("/home/u", "/srv"), "/srv");
    assert_eq!(anchor_if_relative("/home/u", "/srv".to_string()), "/srv");
}

#[test]
fn working_directory_with_and_without_override() {
    assert_eq!(resolve_working_dir("/home/u".to_string(), None), "/home/u");
    assert_eq!(resolve_working_dir("/home/u".to_string(), Some("proj".to_string())), "/home/u/proj");
    assert_eq!(resolve_working_dir("/home/u".to_string(), Some("/srv".to_string())), "/srv");
}

#[test]
fn texts_are_compared_and_cut_by_characters() {
    assert!(str_eq("zellij", "zellij"));
    assert!(!str_eq("zellij", "zellig"));
    assert!(!str_eq("zellij", "zelli"));
    assert!(str_eq("", ""));
    assert!(starts_with("file:/a", "file:/"));
    assert!(starts_with("file:", "file:"));
    assert!(!starts_with("file", "file:"));
    assert!(!starts_with("fire:/", "file:/"));
    assert!(starts_with("anything", ""));
    assert_eq!(skip_chars("file:päth", 5), "päth");
    assert_eq!(skip_chars("äbc", 1), "bc");
    assert_eq!(skip_chars("abc", 3), "");
    assert_eq!(skip_chars("abc", 4), "");
    assert_eq!(skip_chars("", 0), "");
}
