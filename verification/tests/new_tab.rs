use std::cell::RefCell;
use std::rc::Rc;
use zellij_utils::actions::Action;
use zellij_utils::cli::CliAction;
use zellij_utils::config::{Config, ConfigError, KdlDeserializationError, KdlDiagnostic, Options};
use zellij_utils::layout::{
    FloatingPaneLayout, Layout, LayoutConstraint, RawLayout, SplitDirection, SplitSize,
    SwapFloatingLayout, SwapTiledLayout, TiledPaneLayout,
};

fn pane(name: &str) -> TiledPaneLayout {
    TiledPaneLayout { name: Some(name.to_string()), ..TiledPaneLayout::default() }
}

fn floating(name: &str) -> FloatingPaneLayout {
    FloatingPaneLayout {
        name: Some(name.to_string()),
        height: Some(SplitSize::Percent(50)),
        width: Some(SplitSize::Fixed(80)),
        x: None,
        y: None,
        run: None,
        focus: Some(true),
    }
}

fn swap_tiled() -> Vec<SwapTiledLayout> {
    vec![SwapTiledLayout {
        name: Some("wide".to_string()),
        layouts: vec![(LayoutConstraint::MaxPanes(3), pane("swap"))],
    }]
}

fn swap_floating() -> Vec<SwapFloatingLayout> {
    vec![SwapFloatingLayout {
        name: None,
        layouts: vec![(LayoutConstraint::NoConstraint, vec![floating("swap")])],
    }]
}

fn layout_with(tabs: Vec<(Option<String>, TiledPaneLayout, Vec<FloatingPaneLayout>)>) -> Layout {
    Layout {
        tabs,
        template: None,
        swap_tiled_layouts: swap_tiled(),
        swap_floating_layouts: swap_floating(),
    }
}

fn raw() -> RawLayout {
    RawLayout {
        path: "/layouts/dev.kdl".to_string(),
        text: "layout {\n    pane\n}\n".to_string(),
        swap_layouts: None,
    }
}

fn new_tab(layout: Option<&str>, name: Option<&str>) -> CliAction {
    CliAction::NewTab {
        layout: layout.map(|l| l.to_string()),
        layout_dir: None,
        name: name.map(|n| n.to_string()),
        cwd: None,
    }
}

fn resolve_with(
    cli: CliAction,
    read: Result<RawLayout, ConfigError>,
    parsed: Result<Layout, ConfigError>,
) -> Result<Vec<Action>, String> {
    Action::actions_from_cli(
        cli,
        || "/home/u".to_string(),
        None,
        None,
        move |_, _| read,
        move |_: &RawLayout, _| parsed,
    )
}

#[test]
fn new_tab_without_layout_carries_only_the_name() {
    let r = Action::actions_from_cli(
        new_tab(None, Some("logs")),
        || "/home/u".to_string(),
        None,
        None,
        |_, _| -> Result<RawLayout, ConfigError> { panic!("nothing to read") },
        |_: &RawLayout, _| -> Result<Layout, ConfigError> { panic!("nothing to parse") },
    );
    assert_eq!(r, Ok(vec![Action::NewTab(None, vec![], None, None, Some("logs".to_string()))]));
}

#[test]
fn layout_with_two_tabs_is_refused() {
    let layout = layout_with(vec![(None, pane("a"), vec![]), (None, pane("b"), vec![])]);
    assert_eq!(
        resolve_with(new_tab(Some("dev"), None), Ok(raw()), Ok(layout)),
        Err("Tab layout cannot itself have tabs".to_string())
    );
}

#[test]
fn layout_with_two_tabs_is_refused_without_collaborators() {
    let layout = layout_with(vec![
        (Some("one".to_string()), pane("a"), vec![]),
        (None, pane("b"), vec![]),
        (None, pane("c"), vec![]),
    ]);
    assert_eq!(
        Action::new_tab_from_layout(layout, Some("mine".to_string())),
        Err("Tab layout cannot itself have tabs".to_string())
    );
}

#[test]
fn layout_with_one_tab_gives_its_panes_and_swap_layouts() {
    let layout = layout_with(vec![(None, pane("a"), vec![floating("f")])]);
    assert_eq!(
        resolve_with(new_tab(Some("dev"), Some("mine")), Ok(raw()), Ok(layout)),
        Ok(vec![Action::NewTab(
            Some(pane("a")),
            vec![floating("f")],
            Some(swap_tiled()),
            Some(swap_floating()),
            Some("mine".to_string())
        )])
    );
}

#[test]
fn name_of_the_tab_in_the_layout_comes_first() {
    let layout = layout_with(vec![(Some("theirs".to_string()), pane("a"), vec![])]);
    assert_eq!(
        Action::new_tab_from_layout(layout, Some("mine".to_string())),
        Ok(vec![Action::NewTab(
            Some(pane("a")),
            vec![],
            Some(swap_tiled()),
            Some(swap_floating()),
            Some("theirs".to_string())
        )])
    );
}

#[test]
fn layout_without_tabs_gives_a_fresh_tab() {
    let layout = layout_with(vec![]);
    assert_eq!(
        Action::new_tab_from_layout(layout, None),
        Ok(vec![Action::NewTab(
            Some(TiledPaneLayout::default()),
            vec![],
            Some(swap_tiled()),
            Some(swap_floating()),
            None
        )])
    );
}

#[test]
fn layout_without_tabs_uses_its_template() {
    let mut layout = layout_with(vec![]);
    layout.template = Some((pane("root"), vec![floating("f")]));
    assert_eq!(layout.new_tab(), (pane("root"), vec![floating("f")]));
    assert_eq!(
        Action::new_tab_from_layout(layout, Some("mine".to_string())),
        Ok(vec![Action::NewTab(
            Some(pane("root")),
            vec![floating("f")],
            Some(swap_tiled()),
            Some(swap_floating()),
            Some("mine".to_string())
        )])
    );
}

#[test]
fn default_tiled_layout_is_one_plain_pane() {
    let pane = TiledPaneLayout::default();
    assert_eq!(pane.children_split_direction, SplitDirection::Horizontal);
    assert_eq!(pane.name, None);
    assert!(pane.children.is_empty());
    assert_eq!(pane.split_size, None);
    assert_eq!(pane.run, None);
    assert!(!pane.borderless);
    assert_eq!(pane.focus, None);
    assert_eq!(layout_with(vec![]).new_tab(), (TiledPaneLayout::default(), vec![]));
}

#[test]
fn unreadable_layout_fails_with_the_reason() {
    let unreadable = ConfigError::IoPath("No such file".to_string(), "/layouts/dev.kdl".to_string());
    assert_eq!(
        resolve_with(new_tab(Some("dev"), None), Err(unreadable), Ok(layout_with(vec![]))),
        Err("Failed to load layout: IoError: No such file, File: /layouts/dev.kdl".to_string())
    );
}

#[test]
fn parse_failure_in_words_is_passed_on() {
    assert_eq!(
        resolve_with(
            new_tab(Some("dev"), None),
            Ok(raw()),
            Err(ConfigError::Other("Unknown pane property".to_string()))
        ),
        Err("Unknown pane property".to_string())
    );
}

#[test]
fn collaborators_are_handed_path_directory_and_working_directory() {
    let seen: Rc<RefCell<Vec<String>>> = Rc::new(RefCell::new(vec![]));
    let (in_read, in_parse) = (seen.clone(), seen.clone());
    let cli = CliAction::NewTab {
        layout: Some("dev".to_string()),
        layout_dir: None,
        name: None,
        cwd: Some("proj".to_string()),
    };
    let config = Some(Config { options: Options { layout_dir: Some("/etc/layouts".to_string()) } });
    let r = Action::actions_from_cli(
        cli,
        || "/home/u".to_string(),
        config,
        Some("/usr/share/layouts".to_string()),
        move |path, dir| {
            in_read.borrow_mut().push(format!("read {} in {:?}", path, dir));
            Ok(raw())
        },
        move |raw: &RawLayout, cwd| {
            in_parse.borrow_mut().push(format!("parse {} in {:?}", raw.path, cwd));
            Ok(layout_with(vec![]))
        },
    );
    assert!(r.is_ok());
    assert_eq!(
        *seen.borrow(),
        vec![
            "read dev in Some(\"/etc/layouts\")".to_string(),
            "parse /layouts/dev.kdl in Some(\"/home/u/proj\")".to_string(),
        ]
    );
}

#[test]
fn structural_error_is_drawn_on_the_layout() {
    let error = KdlDiagnostic {
        error_message: "Unknown pane property".to_string(),
        src: None,
        offset: Some(13),
        len: Some(4),
        help_message: None,
    };
    let r = resolve_with(new_tab(Some("dev"), None), Ok(raw()), Err(ConfigError::KdlDiagnostic(error)));
    let message = r.unwrap_err();
    assert_ne!(message, "KdlDeserialization error: Failed to parse Zellij configuration");
    assert!(message.contains("Failed to parse Zellij configuration"), "{}", message);
    assert!(message.contains("Unknown pane property"), "{}", message);
    assert!(message.contains("dev"), "{}", message);
}

#[test]
fn parser_failure_from_kdl_is_drawn_on_the_layout() {
    let text = "layout {\n    pane pane\n}\n";
    let failure = text.parse::<kdl::KdlDocument>().unwrap_err();
    let error = ConfigError::from_kdl(&failure);
    match &error {
        ConfigError::KdlDeserializationError(e) => {
            assert_eq!(e.message, failure.to_string());
            assert_eq!(e.offset, failure.span.offset());
            assert_eq!(e.len, failure.span.len());
            assert_eq!(e.help, failure.help.map(|h| h.to_string()));
            match &failure.kind {
                kdl::KdlErrorKind::Context(c) => assert_eq!(e.context, Some(c.to_string())),
                _ => assert_eq!(e.context, None),
            }
        },
        other => panic!("not a parser failure: {:?}", other),
    }
    let read = RawLayout { path: "/layouts/dev.kdl".to_string(), text: text.to_string(), swap_layouts: None };
    let r = resolve_with(new_tab(Some("dev"), None), Ok(read), Err(error));
    let message = r.unwrap_err();
    assert!(message.contains("Failed to parse Zellij configuration"), "{}", message);
}

#[test]
fn missing_terminator_is_explained() {
    let error = KdlDeserializationError {
        message: "Expected valid node terminator.".to_string(),
        context: Some("valid node terminator".to_string()),
        help: Some("unused".to_string()),
        offset: 13,
        len: 4,
    };
    let explained = error.explain();
    assert!(explained.starts_with("Failed to deserialize KDL node. \nPossible reasons:\n- Missing `;`"));
    assert_eq!(explained.lines().count(), 6);
    let drawn = KdlDiagnostic::from_deserialization(&error, "dev".to_string(), raw().text);
    assert_eq!(drawn.error_message, explained);
    assert_eq!((drawn.offset, drawn.len), (Some(13), Some(4)));
    assert_eq!(drawn.help_message, None);
    assert_eq!(drawn.src.map(|s| (s.name, s.source)), Some(("dev".to_string(), raw().text)));
}

#[test]
fn other_parser_failures_give_the_help_or_a_general_remark() {
    let mut error = KdlDeserializationError {
        message: "Expected valid value.".to_string(),
        context: Some("valid value".to_string()),
        help: Some("Numbers need digits".to_string()),
        offset: 0,
        len: 1,
    };
    assert_eq!(error.explain(), "Numbers need digits");
    error.help = None;
    assert_eq!(error.explain(), "Kdl Deserialization Error");
    error.context = None;
    assert_eq!(error.explain(), "Kdl Deserialization Error");
}
