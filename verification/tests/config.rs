use zellij_utils::config::{ConfigError, KdlDeserializationError, KdlDiagnostic, NamedSource};
use zellij_utils::plugin::PluginsConfigError;

fn diagnostic(source: &str, offset: usize, len: usize) -> KdlDiagnostic {
    KdlDiagnostic {
        error_message: "here it goes wrong".to_string(),
        src: Some(NamedSource { name: "dev.kdl".to_string(), source: source.to_string() }),
        offset: Some(offset),
        len: Some(len),
        help_message: Some("try again".to_string()),
    }
}

fn spans(d: &KdlDiagnostic) -> Vec<(String, usize, usize)> {
    d.labels().into_iter().map(|l| (l.text, l.offset, l.len)).collect()
}

#[test]
fn label_is_shown_where_the_range_lies_in_the_source() {
    assert_eq!(
        spans(&diagnostic("pane x\n", 5, 1)),
        vec![("here it goes wrong".to_string(), 5, 1)]
    );
    assert_eq!(spans(&diagnostic("pane x\n", 7, 0)), vec![("here it goes wrong".to_string(), 7, 0)]);
    assert_eq!(spans(&diagnostic("", 0, 0)), vec![("here it goes wrong".to_string(), 0, 0)]);
}

#[test]
fn label_is_left_out_where_the_range_cannot_be_shown() {
    assert_eq!(spans(&diagnostic("pane x\n", 5, 3)), vec![]);
    assert_eq!(spans(&diagnostic("pane x\n", 8, 0)), vec![]);
    assert_eq!(spans(&diagnostic("pane x\n", 1, usize::MAX)), vec![]);
    // "é" takes two bytes: a range may not begin or end inside it
    assert_eq!(spans(&diagnostic("é = 1", 1, 1)), vec![]);
    assert_eq!(spans(&diagnostic("é = 1", 0, 1)), vec![]);
    assert_eq!(spans(&diagnostic("é = 1", 0, 2)), vec![("here it goes wrong".to_string(), 0, 2)]);
}

#[test]
fn label_needs_source_offset_and_length() {
    let mut d = diagnostic("pane x\n", 5, 1);
    d.len = None;
    assert_eq!(spans(&d), vec![]);
    let mut d = diagnostic("pane x\n", 5, 1);
    d.offset = None;
    assert_eq!(spans(&d), vec![]);
    let mut d = diagnostic("pane x\n", 5, 1);
    d.src = None;
    assert_eq!(spans(&d), vec![]);
}

#[test]
fn drawing_shows_headline_label_and_advice() {
    let drawn = diagnostic("pane x\npane y\n", 5, 1).render();
    assert!(drawn.contains("Failed to parse Zellij configuration"), "{}", drawn);
    assert!(drawn.contains("here it goes wrong"), "{}", drawn);
    assert!(drawn.contains("try again"), "{}", drawn);
    assert!(drawn.contains("dev.kdl"), "{}", drawn);
    assert!(drawn.contains("pane x"), "{}", drawn);
}

#[test]
fn drawing_without_a_place_still_has_headline_and_guide() {
    let mut d = diagnostic("é = 1", 1, 1);
    d.help_message = None;
    let drawn = d.render();
    assert!(drawn.contains("Failed to parse Zellij configuration"), "{}", drawn);
    assert!(drawn.contains("For more information, please see our configuration guide"), "{}", drawn);
    let mut d = diagnostic("pane", 0, 4);
    d.src = None;
    assert!(d.render().contains("Failed to parse Zellij configuration"));
}

#[test]
fn drawing_a_range_that_spans_lines() {
    let drawn = diagnostic("pane {\n    x\n}\n", 5, 9).render();
    assert!(drawn.contains("here it goes wrong"), "{}", drawn);
}

#[test]
fn add_src_sets_the_source_and_keeps_the_rest() {
    let mut d = diagnostic("old", 1, 1);
    d.src = None;
    let d = d.add_src("new.kdl".to_string(), "new text".to_string());
    assert_eq!(d.src.map(|s| (s.name, s.source)), Some(("new.kdl".to_string(), "new text".to_string())));
    assert_eq!(d.error_message, "here it goes wrong");
    assert_eq!((d.offset, d.len), (Some(1), Some(1)));
    assert_eq!(d.help_message, Some("try again".to_string()));
}

#[test]
fn config_errors_in_a_sentence() {
    let parser = KdlDeserializationError {
        message: "Expected valid value.".to_string(),
        context: Some("valid value".to_string()),
        help: None,
        offset: 0,
        len: 0,
    };
    assert_eq!(
        ConfigError::KdlDeserializationError(parser).message(),
        "Deserialization error: Expected valid value."
    );
    assert_eq!(
        ConfigError::KdlDiagnostic(diagnostic("x", 0, 1)).message(),
        "KdlDeserialization error: Failed to parse Zellij configuration"
    );
    assert_eq!(
        ConfigError::IoPath("denied".to_string(), "/a".to_string()).message(),
        "IoError: denied, File: /a"
    );
    assert_eq!(ConfigError::Other("as it is".to_string()).message(), "as it is");
}

#[test]
fn stringify_says_what_has_no_place_in_the_text() {
    assert_eq!(
        ConfigError::Other("as it is".to_string()).stringify("dev", "pane"),
        "as it is"
    );
    assert_eq!(
        ConfigError::IoPath("denied".to_string(), "/a".to_string()).stringify("dev", "pane"),
        "IoError: denied, File: /a"
    );
}

#[test]
fn stringify_draws_what_has_a_place_in_the_text() {
    let mut d = diagnostic("ignored", 0, 4);
    d.src = None;
    let drawn = ConfigError::KdlDiagnostic(d).stringify("dev", "pane x");
    assert!(drawn.contains("here it goes wrong"), "{}", drawn);
    assert!(drawn.contains("dev"), "{}", drawn);
    let parser = KdlDeserializationError {
        message: "Expected valid node terminator.".to_string(),
        context: Some("valid node terminator".to_string()),
        help: None,
        offset: 5,
        len: 1,
    };
    let drawn = ConfigError::KdlDeserializationError(parser).stringify("dev", "pane x");
    assert!(drawn.contains("Failed to deserialize KDL node."), "{}", drawn);
}

#[test]
fn placing_an_error_in_the_layout() {
    let mut d = diagnostic("ignored", 2, 3);
    d.src = None;
    let placed = ConfigError::KdlDiagnostic(d).placed_in("dev", "pane x").unwrap();
    assert_eq!(placed.error_message, "here it goes wrong");
    assert_eq!(placed.src.map(|s| (s.name, s.source)), Some(("dev".to_string(), "pane x".to_string())));
    assert_eq!((placed.offset, placed.len), (Some(2), Some(3)));
    assert_eq!(placed.help_message, Some("try again".to_string()));

    let parser = KdlDeserializationError {
        message: "Expected valid value.".to_string(),
        context: Some("valid value".to_string()),
        help: Some("Numbers need digits".to_string()),
        offset: 5,
        len: 1,
    };
    let placed = ConfigError::KdlDeserializationError(parser).placed_in("dev", "pane 1.").unwrap();
    assert_eq!(placed.error_message, "Numbers need digits");
    assert_eq!(placed.src.map(|s| (s.name, s.source)), Some(("dev".to_string(), "pane 1.".to_string())));
    assert_eq!((placed.offset, placed.len), (Some(5), Some(1)));
    assert_eq!(placed.help_message, None);

    assert_eq!(
        ConfigError::Other("as it is".to_string()).placed_in("dev", "pane").unwrap_err(),
        "as it is"
    );
    assert_eq!(
        ConfigError::IoPath("denied".to_string(), "/a".to_string()).placed_in("dev", "pane").unwrap_err(),
        "IoError: denied, File: /a"
    );
}

#[test]
fn advice_is_the_own_or_the_guide() {
    let mut d = diagnostic("pane", 0, 1);
    assert_eq!(d.help(), "try again");
    d.help_message = None;
    assert_eq!(
        d.help(),
        "For more information, please see our configuration guide: https://zellij.dev/documentation/configuration.html"
    );
}

#[test]
fn plugin_errors_in_a_sentence() {
    assert_eq!(
        PluginsConfigError::InvalidUrl("EmptyHost".to_string()).message(),
        "Failed to parse url: EmptyHost"
    );
    assert_eq!(
        PluginsConfigError::InvalidUrlScheme("ftp://h/p".to_string()).message(),
        "Only 'file:' and 'zellij:' url schemes are supported for plugin lookup. 'ftp://h/p' does not match either."
    );
    assert_eq!(
        PluginsConfigError::InvalidPluginLocation("FILE:p".to_string()).message(),
        "Could not find plugin at the path: 'FILE:p'"
    );
}

#[test]
fn every_range_that_fits_can_be_drawn() {
    let sources = [
        "",
        "pane",
        "pane\n",
        "\n\npane x\n\n",
        "pane {\r\n    x\r\n}\r\n",
        "a\rb",
        "\tpane\t\"é\"\n\tpane \"日本\" {\n\t}\n",
        "é",
        "layout {\n    pane split_direction=\"vertical\" {\n        pane\n        pane\n    }\n}\n",
    ];
    for source in sources {
        for offset in 0..=source.len() + 1 {
            for len in 0..=source.len() + 1 {
                let d = diagnostic(source, offset, len);
                let fits = source.is_char_boundary(offset)
                    && offset + len <= source.len()
                    && source.is_char_boundary(offset + len);
                assert_eq!(spans(&d).len(), if fits { 1 } else { 0 }, "{:?} {} {}", source, offset, len);
                let drawn = d.render();
                assert!(drawn.contains("Failed to parse Zellij configuration"), "{}", drawn);
                if !fits {
                    assert!(!drawn.contains("here it goes wrong"), "{:?} {} {}", source, offset, len);
                }
            }
        }
    }
}
