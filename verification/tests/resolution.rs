use zellij_utils::actions::Action;
use zellij_utils::cli::CliAction;
use zellij_utils::command::RunCommandAction;
use zellij_utils::config::{Config, ConfigError, Options};
use zellij_utils::data::{Direction, InputMode, Resize};
use zellij_utils::layout::{Layout, RawLayout};
use zellij_utils::plugin::{RunPlugin, RunPluginLocation};
use zellij_utils::resolve::layout_search_dir;

fn no_layout(_: String, _: Option<String>) -> Result<RawLayout, ConfigError> {
    panic!("no layout is read for this command")
}

fn no_parse(_: &RawLayout, _: Option<String>) -> Result<Layout, ConfigError> {
    panic!("no layout is parsed for this command")
}

fn no_dir() -> String {
    panic!("the current directory is not asked for by this command")
}

fn resolve_in(dir: &str, cli: CliAction) -> Result<Vec<Action>, String> {
    let dir = dir.to_string();
    Action::actions_from_cli(cli, move || dir.clone(), None, None, no_layout, no_parse)
}

fn resolve(cli: CliAction) -> Result<Vec<Action>, String> {
    Action::actions_from_cli(cli, no_dir, None, None, no_layout, no_parse)
}

fn new_pane(plugin: Option<&str>, command: &[&str], floating: bool) -> CliAction {
    CliAction::NewPane {
        direction: Some(Direction::Right),
        command: command.iter().map(|word| word.to_string()).collect(),
        plugin: plugin.map(|p| p.to_string()),
        cwd: None,
        floating,
        name: Some("p".to_string()),
        close_on_exit: false,
        start_suspended: true,
    }
}

#[test]
fn go_to_tab_is_one_action() {
    assert_eq!(resolve(CliAction::GoToTab { index: 3 }), Ok(vec![Action::GoToTab(3)]));
}

#[test]
fn rename_pane_resets_then_types_the_name() {
    assert_eq!(
        resolve(CliAction::RenamePane { name: "editor".to_string() }),
        Ok(vec![Action::UndoRenamePane, Action::PaneNameInput(b"editor".to_vec())])
    );
}

#[test]
fn rename_pane_keeps_the_bytes_of_a_name_beyond_ascii() {
    assert_eq!(
        resolve(CliAction::RenamePane { name: "é".to_string() }),
        Ok(vec![Action::UndoRenamePane, Action::PaneNameInput(vec![0xc3, 0xa9])])
    );
}

#[test]
fn rename_tab_resets_then_types_zero_and_the_name() {
    assert_eq!(
        resolve(CliAction::RenameTab { name: "logs".to_string() }),
        Ok(vec![Action::UndoRenameTab, Action::TabNameInput(b"\0logs".to_vec())])
    );
    assert_eq!(
        resolve(CliAction::RenameTab { name: "é".to_string() }),
        Ok(vec![Action::UndoRenameTab, Action::TabNameInput(vec![0, 0xc3, 0xa9])])
    );
}

#[test]
fn rename_with_an_empty_name_is_still_two_actions() {
    assert_eq!(
        resolve(CliAction::RenameTab { name: String::new() }),
        Ok(vec![Action::UndoRenameTab, Action::TabNameInput(vec![0])])
    );
    assert_eq!(
        resolve(CliAction::RenamePane { name: String::new() }),
        Ok(vec![Action::UndoRenamePane, Action::PaneNameInput(vec![])])
    );
}

#[test]
fn floating_plugin_pane_from_a_file_url() {
    assert_eq!(
        resolve_in("/home/u", new_pane(Some("file:///p.wasm"), &[], true)),
        Ok(vec![Action::NewFloatingPluginPane(
            RunPluginLocation::File("/p.wasm".to_string()),
            Some("p".to_string())
        )])
    );
}

#[test]
fn plugin_wins_over_a_command_line() {
    let with_command = resolve_in("/home/u", new_pane(Some("file:///p.wasm"), &["htop", "-d"], true));
    let without = resolve_in("/home/u", new_pane(Some("file:///p.wasm"), &[], true));
    assert_eq!(with_command, without);
    assert_eq!(
        with_command,
        Ok(vec![Action::NewFloatingPluginPane(
            RunPluginLocation::File("/p.wasm".to_string()),
            Some("p".to_string())
        )])
    );
}

#[test]
fn tiled_plugin_pane_has_no_direction() {
    assert_eq!(
        resolve_in("/home/u", new_pane(Some("zellij:status-bar"), &["ls"], false)),
        Ok(vec![Action::NewTiledPluginPane(
            RunPluginLocation::Zellij("status-bar".to_string()),
            Some("p".to_string())
        )])
    );
}

#[test]
fn relative_plugin_file_is_seen_from_the_working_directory() {
    let cli = CliAction::NewPane {
        direction: None,
        command: vec![],
        plugin: Some("file:plugins/p.wasm".to_string()),
        cwd: Some("proj".to_string()),
        floating: false,
        name: None,
        close_on_exit: false,
        start_suspended: false,
    };
    assert_eq!(
        resolve_in("/home/u", cli),
        Ok(vec![Action::NewTiledPluginPane(
            RunPluginLocation::File("/home/u/proj/plugins/p.wasm".to_string()),
            None
        )])
    );
}

#[test]
fn malformed_plugin_location_names_the_input() {
    assert_eq!(
        resolve_in("/home/u", new_pane(Some("not a url"), &[], true)),
        Err("Failed to parse plugin loction not a url: Failed to parse url: RelativeUrlWithoutBase"
            .to_string())
    );
    assert_eq!(
        resolve_in("/home/u", new_pane(Some("not a url"), &[], false)),
        Err("Failed to parse plugin location not a url: Failed to parse url: RelativeUrlWithoutBase"
            .to_string())
    );
}

#[test]
fn plugin_location_with_another_scheme_is_refused() {
    assert_eq!(
        resolve_in("/home/u", CliAction::StartOrReloadPlugin { url: "http://example.com/p.wasm".to_string() }),
        Err("Failed to parse plugin location: Only 'file:' and 'zellij:' url schemes are supported for plugin lookup. 'http://example.com/p.wasm' does not match either."
            .to_string())
    );
}

#[test]
fn plugin_command_names_the_text_that_is_no_url() {
    assert_eq!(
        resolve_in("/home/u", CliAction::StartOrReloadPlugin { url: "not a url".to_string() }),
        Err("Failed to parse plugin location not a url: Failed to parse url: RelativeUrlWithoutBase"
            .to_string())
    );
    assert_eq!(
        resolve_in(
            "/home/u",
            CliAction::LaunchOrFocusPlugin { floating: false, url: String::new() }
        ),
        Err("Failed to parse plugin location : Failed to parse url: RelativeUrlWithoutBase"
            .to_string())
    );
    assert_eq!(
        resolve_in("/home/u", CliAction::StartOrReloadPlugin { url: "FILE:p.wasm".to_string() }),
        Err("Failed to parse plugin location: Could not find plugin at the path: 'FILE:p.wasm'"
            .to_string())
    );
}

#[test]
fn command_line_becomes_a_run_command() {
    assert_eq!(
        resolve_in("/home/u", new_pane(None, &["htop", "-d", "5"], false)),
        Ok(vec![Action::NewTiledPane(
            Some(Direction::Right),
            Some(RunCommandAction {
                command: "htop".to_string(),
                args: vec!["-d".to_string(), "5".to_string()],
                cwd: Some("/home/u".to_string()),
                direction: Some(Direction::Right),
                hold_on_close: true,
                hold_on_start: true,
            }),
            Some("p".to_string())
        )])
    );
}

#[test]
fn floating_command_pane_holds_as_asked() {
    let cli = CliAction::NewPane {
        direction: Some(Direction::Up),
        command: vec!["make".to_string()],
        plugin: None,
        cwd: Some("/srv/build".to_string()),
        floating: true,
        name: None,
        close_on_exit: true,
        start_suspended: false,
    };
    assert_eq!(
        resolve_in("/home/u", cli),
        Ok(vec![Action::NewFloatingPane(
            Some(RunCommandAction {
                command: "make".to_string(),
                args: vec![],
                cwd: Some("/srv/build".to_string()),
                direction: Some(Direction::Up),
                hold_on_close: false,
                hold_on_start: false,
            }),
            None
        )])
    );
}

#[test]
fn empty_command_line_opens_a_plain_pane() {
    assert_eq!(
        resolve_in("/home/u", new_pane(None, &[], false)),
        Ok(vec![Action::NewTiledPane(Some(Direction::Right), None, Some("p".to_string()))])
    );
    assert_eq!(
        resolve_in("/home/u", new_pane(None, &[], true)),
        Ok(vec![Action::NewFloatingPane(None, Some("p".to_string()))])
    );
}

#[test]
fn edit_anchors_file_and_working_directory() {
    let cli = CliAction::Edit {
        file: "src/main.txt".to_string(),
        direction: None,
        line_number: Some(10),
        floating: false,
        cwd: Some("proj".to_string()),
    };
    assert_eq!(
        resolve_in("/home/u", cli),
        Ok(vec![Action::EditFile(
            "/home/u/proj/src/main.txt".to_string(),
            Some(10),
            Some("/home/u/proj".to_string()),
            None,
            false
        )])
    );
}

#[test]
fn edit_with_absolute_override_and_absolute_file() {
    let cli = CliAction::Edit {
        file: "/etc/hosts".to_string(),
        direction: Some(Direction::Down),
        line_number: None,
        floating: true,
        cwd: Some("/srv".to_string()),
    };
    assert_eq!(
        resolve_in("/home/u", cli),
        Ok(vec![Action::EditFile(
            "/etc/hosts".to_string(),
            None,
            Some("/srv".to_string()),
            Some(Direction::Down),
            true
        )])
    );
}

#[test]
fn edit_without_override_uses_the_current_directory() {
    let cli = CliAction::Edit {
        file: "notes.md".to_string(),
        direction: None,
        line_number: None,
        floating: false,
        cwd: None,
    };
    assert_eq!(
        resolve_in("/home/u", cli),
        Ok(vec![Action::EditFile(
            "/home/u/notes.md".to_string(),
            None,
            Some("/home/u".to_string()),
            None,
            false
        )])
    );
}

#[test]
fn plugin_commands_read_the_location_in_the_current_directory() {
    assert_eq!(
        resolve_in("/home/u", CliAction::StartOrReloadPlugin { url: "file:p.wasm".to_string() }),
        Ok(vec![Action::StartOrReloadPlugin(RunPlugin {
            _allow_exec_host_cmd: false,
            location: RunPluginLocation::File("/home/u/p.wasm".to_string()),
        })])
    );
    assert_eq!(
        resolve_in(
            "/home/u",
            CliAction::LaunchOrFocusPlugin { floating: true, url: "zellij:strider".to_string() }
        ),
        Ok(vec![Action::LaunchOrFocusPlugin(
            RunPlugin {
                _allow_exec_host_cmd: false,
                location: RunPluginLocation::Zellij("strider".to_string()),
            },
            true
        )])
    );
}

#[test]
fn commands_that_rename_a_payload() {
    assert_eq!(resolve(CliAction::Write { bytes: vec![1, 2] }), Ok(vec![Action::Write(vec![1, 2])]));
    assert_eq!(
        resolve(CliAction::WriteChars { chars: "hi".to_string() }),
        Ok(vec![Action::WriteChars("hi".to_string())])
    );
    assert_eq!(
        resolve(CliAction::Resize { resize: Resize::Increase, direction: Some(Direction::Left) }),
        Ok(vec![Action::Resize(Resize::Increase, Some(Direction::Left))])
    );
    assert_eq!(
        resolve(CliAction::MoveFocus { direction: Direction::Up }),
        Ok(vec![Action::MoveFocus(Direction::Up)])
    );
    assert_eq!(
        resolve(CliAction::MoveFocusOrTab { direction: Direction::Down }),
        Ok(vec![Action::MoveFocusOrTab(Direction::Down)])
    );
    assert_eq!(resolve(CliAction::MovePane { direction: None }), Ok(vec![Action::MovePane(None)]));
    assert_eq!(
        resolve(CliAction::DumpScreen { path: "/tmp/dump".to_string(), full: true }),
        Ok(vec![Action::DumpScreen("/tmp/dump".to_string(), true)])
    );
    assert_eq!(
        resolve(CliAction::SwitchMode { input_mode: InputMode::Locked }),
        Ok(vec![Action::SwitchModeForAllClients(InputMode::Locked)])
    );
    assert_eq!(
        resolve(CliAction::GoToTabName { name: "logs".to_string(), create: true }),
        Ok(vec![Action::GoToTabName("logs".to_string(), true)])
    );
}

#[test]
fn commands_under_another_name() {
    assert_eq!(resolve(CliAction::Clear), Ok(vec![Action::ClearScreen]));
    assert_eq!(resolve(CliAction::ToggleFullscreen), Ok(vec![Action::ToggleFocusFullscreen]));
    assert_eq!(resolve(CliAction::ClosePane), Ok(vec![Action::CloseFocus]));
}

#[test]
fn commands_without_a_payload() {
    let same: Vec<(CliAction, Action)> = vec![
        (CliAction::FocusNextPane, Action::FocusNextPane),
        (CliAction::FocusPreviousPane, Action::FocusPreviousPane),
        (CliAction::MovePaneBackwards, Action::MovePaneBackwards),
        (CliAction::EditScrollback, Action::EditScrollback),
        (CliAction::ScrollUp, Action::ScrollUp),
        (CliAction::ScrollDown, Action::ScrollDown),
        (CliAction::ScrollToBottom, Action::ScrollToBottom),
        (CliAction::ScrollToTop, Action::ScrollToTop),
        (CliAction::PageScrollUp, Action::PageScrollUp),
        (CliAction::PageScrollDown, Action::PageScrollDown),
        (CliAction::HalfPageScrollUp, Action::HalfPageScrollUp),
        (CliAction::HalfPageScrollDown, Action::HalfPageScrollDown),
        (CliAction::TogglePaneFrames, Action::TogglePaneFrames),
        (CliAction::ToggleActiveSyncTab, Action::ToggleActiveSyncTab),
        (CliAction::TogglePaneEmbedOrFloating, Action::TogglePaneEmbedOrFloating),
        (CliAction::ToggleFloatingPanes, Action::ToggleFloatingPanes),
        (CliAction::UndoRenamePane, Action::UndoRenamePane),
        (CliAction::GoToNextTab, Action::GoToNextTab),
        (CliAction::GoToPreviousTab, Action::GoToPreviousTab),
        (CliAction::CloseTab, Action::CloseTab),
        (CliAction::UndoRenameTab, Action::UndoRenameTab),
        (CliAction::PreviousSwapLayout, Action::PreviousSwapLayout),
        (CliAction::NextSwapLayout, Action::NextSwapLayout),
        (CliAction::QueryTabNames, Action::QueryTabNames),
    ];
    for (cli, action) in same {
        assert_eq!(resolve(cli), Ok(vec![action]));
    }
}

#[test]
fn resolving_twice_gives_the_same() {
    let cli = new_pane(None, &["htop"], true);
    assert_eq!(resolve_in("/home/u", cli.clone()), resolve_in("/home/u", cli));
    let cli = new_pane(Some("bad url"), &[], false);
    assert_eq!(resolve_in("/home/u", cli.clone()), resolve_in("/home/u", cli));
}

#[test]
fn layout_directory_falls_back_in_order() {
    let config = Some(Config { options: Options { layout_dir: Some("/etc/layouts".to_string()) } });
    let empty = Some(Config { options: Options { layout_dir: None } });
    let default = Some("/usr/share/layouts".to_string());
    assert_eq!(
        layout_search_dir(Some("/mine".to_string()), config.clone(), default.clone()),
        Some("/mine".to_string())
    );
    assert_eq!(
        layout_search_dir(None, config.clone(), default.clone()),
        Some("/etc/layouts".to_string())
    );
    assert_eq!(layout_search_dir(None, empty, default.clone()), default);
    assert_eq!(layout_search_dir(None, None, default.clone()), default);
    assert_eq!(layout_search_dir(None, None, None), None);
}
