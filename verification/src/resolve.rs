//! From a command given on the command line to the actions that carry it
//! out.
//!
//! Most commands are one action under another name. A few need more: a path
//! is anchored under the caller's directory, a pane is a plugin, a command or
//! a shell, a renaming is two actions, and a new tab may bring a layout that
//! has to be read, parsed and checked first.

use crate::actions::{Action, ActionView};
use crate::cli::CliAction;
use crate::command::{RunCommandAction, RunCommandActionView};
use crate::config::{Config, ConfigError};
use crate::data::Direction;
use crate::layout::{
    FloatingPaneLayout, FloatingPaneLayoutView, Layout, RawLayout, TiledPaneLayout,
};
use crate::paths::{
    anchor_if_relative, anchored, is_absolute_path, joined_path, resolve_working_dir, working_dir,
};
use crate::plugin::{
    located, parsed_url, PluginsConfigError, PluginsConfigErrorView, RunPlugin, RunPluginLocation,
    RunPluginView,
};
use crate::text::concat;
use vstd::prelude::*;
use vstd::utf8::encode_utf8;

verus! {

/// The outcome of a resolution as a value: the actions in order, or the
/// message of the failure.
pub open spec fn resolved_view(r: Result<Vec<Action>, String>) -> Result<
    Seq<ActionView>,
    Seq<char>,
> {
    match r {
        Ok(actions) => Ok(actions.deep_view()),
        Err(message) => Err(message@),
    }
}

/// The message of the failure to resolve a command whose layout describes
/// several tabs.
pub const TABS_IN_TAB_LAYOUT: &'static str = "Tab layout cannot itself have tabs";

/// What a command to open a pane resolves to when it is given in
/// `current_dir`.
///
/// A plugin location, if there is one, decides: the pane runs the plugin,
/// whatever the command line says, and a tiled plugin pane has no direction.
/// Otherwise a command line that is not empty gives a pane that runs it: its
/// first word is the executable, the others are the arguments. Otherwise the
/// pane is a plain one.
///
/// A location that cannot be read fails with a message that names it; the
/// message for a floating pane spells the word `loction`.
pub open spec fn new_pane_resolution(
    direction: Option<Direction>,
    command: Seq<Seq<char>>,
    plugin: Option<Seq<char>>,
    cwd: Option<Seq<char>>,
    floating: bool,
    name: Option<Seq<char>>,
    close_on_exit: bool,
    start_suspended: bool,
    current_dir: Seq<char>,
) -> Result<Seq<ActionView>, Seq<char>> {
    let cwd = working_dir(current_dir, cwd);
    match plugin {
        Some(plugin) => match located(plugin, parsed_url(plugin), Some(cwd)) {
            Ok(location) => if floating {
                Ok(seq![ActionView::NewFloatingPluginPane(location, name)])
            } else {
                Ok(seq![ActionView::NewTiledPluginPane(location, name)])
            },
            Err(e) => if floating {
                Err("Failed to parse plugin loction "@ + plugin + ": "@ + e.message())
            } else {
                Err("Failed to parse plugin location "@ + plugin + ": "@ + e.message())
            },
        },
        None => if command.len() > 0 {
            let run = RunCommandActionView {
                command: command[0],
                args: command.skip(1),
                cwd: Some(cwd),
                direction,
                hold_on_close: !close_on_exit,
                hold_on_start: start_suspended,
            };
            if floating {
                Ok(seq![ActionView::NewFloatingPane(Some(run), name)])
            } else {
                Ok(seq![ActionView::NewTiledPane(direction, Some(run), name)])
            }
        } else {
            if floating {
                Ok(seq![ActionView::NewFloatingPane(None, name)])
            } else {
                Ok(seq![ActionView::NewTiledPane(direction, None, name)])
            }
        },
    }
}

/// What a command to edit a file resolves to when it is given in
/// `current_dir`: the working directory is the override anchored under
/// `current_dir`, and the file is anchored under the working directory.
pub open spec fn edit_resolution(
    file: Seq<char>,
    direction: Option<Direction>,
    line_number: Option<usize>,
    floating: bool,
    cwd: Option<Seq<char>>,
    current_dir: Seq<char>,
) -> Seq<ActionView> {
    let cwd = working_dir(current_dir, cwd);
    seq![ActionView::EditFile(anchored(cwd, file), line_number, Some(cwd), direction, floating)]
}

/// The message of the failure to read the plugin location `url`. Every
/// message names what was given: the sentence of the error holds it where
/// the text is a URL, and where it is none the text is named ahead of the
/// reason.
pub open spec fn unreadable_location(url: Seq<char>, e: PluginsConfigErrorView) -> Seq<char> {
    if e is InvalidUrl {
        "Failed to parse plugin location "@ + url + ": "@ + e.message()
    } else {
        "Failed to parse plugin location: "@ + e.message()
    }
}

/// The plugin that a command names by `url` when it is given in
/// `current_dir`, or the message of the failure to read the location.
pub open spec fn plugin_resolution(url: Seq<char>, current_dir: Seq<char>) -> Result<
    RunPluginView,
    Seq<char>,
> {
    match located(url, parsed_url(url), Some(current_dir)) {
        Ok(location) => Ok(RunPluginView { _allow_exec_host_cmd: false, location }),
        Err(e) => Err(unreadable_location(url, e)),
    }
}

/// The action that opens a tab without a layout.
pub open spec fn plain_tab(name: Option<Seq<char>>) -> Seq<ActionView> {
    seq![ActionView::NewTab(None, Seq::empty(), None, None, name)]
}

/// What a parsed layout gives for a new tab that is asked to be named
/// `name`.
///
/// A layout for one tab may describe no tab or one. With one, its panes are
/// those of the new tab, and its name is the name of the tab, or `name`
/// where it has none. With none, the panes are those of a fresh tab of the
/// layout and the name is `name`. Either way the swap layouts of the
/// description come along. A layout with more tabs is refused.
pub open spec fn new_tab_resolution(layout: Layout, name: Option<Seq<char>>) -> Result<
    Seq<ActionView>,
    Seq<char>,
> {
    let swap_tiled = Some(layout.swap_tiled_layouts.deep_view());
    let swap_floating = Some(layout.swap_floating_layouts.deep_view());
    if layout.tabs@.len() > 1 {
        Err(TABS_IN_TAB_LAYOUT@)
    } else if layout.tabs@.len() == 1 {
        let tab = layout.tabs@[0];
        let tab_name = match tab.0 {
            Some(tab_name) => Some(tab_name@),
            None => name,
        };
        Ok(
            seq![
                ActionView::NewTab(
                    Some(tab.1@),
                    tab.2.deep_view(),
                    swap_tiled,
                    swap_floating,
                    tab_name,
                ),
            ],
        )
    } else {
        let fresh = layout.spec_new_tab();
        Ok(seq![ActionView::NewTab(Some(fresh.0), fresh.1, swap_tiled, swap_floating, name)])
    }
}

impl CliAction {
    /// Whether resolving the command asks for the caller's current
    /// directory.
    pub open spec fn needs_current_dir(self) -> bool {
        self is NewPane || self is Edit || self is NewTab || self is StartOrReloadPlugin
            || self is LaunchOrFocusPlugin
    }

    /// The layout that the command brings for a new tab, if it brings one.
    pub open spec fn layout_path(self) -> Option<String> {
        match self {
            CliAction::NewTab { layout, .. } => layout,
            _ => None,
        }
    }

    /// What the command resolves to when it is given in `current_dir`. For
    /// a new tab with a layout, see [`new_tab_resolution`]: this function
    /// says nothing of it.
    pub open spec fn resolution(self, current_dir: Seq<char>) -> Result<
        Seq<ActionView>,
        Seq<char>,
    > {
        match self {
            CliAction::Write { bytes } => Ok(seq![ActionView::Write(bytes@)]),
            CliAction::WriteChars { chars } => Ok(seq![ActionView::WriteChars(chars@)]),
            CliAction::Resize { resize, direction } => Ok(
                seq![ActionView::Resize(resize, direction)],
            ),
            CliAction::FocusNextPane => Ok(seq![ActionView::FocusNextPane]),
            CliAction::FocusPreviousPane => Ok(seq![ActionView::FocusPreviousPane]),
            CliAction::MoveFocus { direction } => Ok(seq![ActionView::MoveFocus(direction)]),
            CliAction::MoveFocusOrTab { direction } => Ok(
                seq![ActionView::MoveFocusOrTab(direction)],
            ),
            CliAction::MovePane { direction } => Ok(seq![ActionView::MovePane(direction)]),
            CliAction::MovePaneBackwards => Ok(seq![ActionView::MovePaneBackwards]),
            CliAction::Clear => Ok(seq![ActionView::ClearScreen]),
            CliAction::DumpScreen { path, full } => Ok(seq![ActionView::DumpScreen(path@, full)]),
            CliAction::EditScrollback => Ok(seq![ActionView::EditScrollback]),
            CliAction::ScrollUp => Ok(seq![ActionView::ScrollUp]),
            CliAction::ScrollDown => Ok(seq![ActionView::ScrollDown]),
            CliAction::ScrollToBottom => Ok(seq![ActionView::ScrollToBottom]),
            CliAction::ScrollToTop => Ok(seq![ActionView::ScrollToTop]),
            CliAction::PageScrollUp => Ok(seq![ActionView::PageScrollUp]),
            CliAction::PageScrollDown => Ok(seq![ActionView::PageScrollDown]),
            CliAction::HalfPageScrollUp => Ok(seq![ActionView::HalfPageScrollUp]),
            CliAction::HalfPageScrollDown => Ok(seq![ActionView::HalfPageScrollDown]),
            CliAction::ToggleFullscreen => Ok(seq![ActionView::ToggleFocusFullscreen]),
            CliAction::TogglePaneFrames => Ok(seq![ActionView::TogglePaneFrames]),
            CliAction::ToggleActiveSyncTab => Ok(seq![ActionView::ToggleActiveSyncTab]),
            CliAction::NewPane {
                direction,
                command,
                plugin,
                cwd,
                floating,
                name,
                close_on_exit,
                start_suspended,
            } => new_pane_resolution(
                direction,
                command.deep_view(),
                plugin.deep_view(),
                cwd.deep_view(),
                floating,
                name.deep_view(),
                close_on_exit,
                start_suspended,
                current_dir,
            ),
            CliAction::Edit { file, direction, line_number, floating, cwd } => Ok(
                edit_resolution(
                    file@,
                    direction,
                    line_number,
                    floating,
                    cwd.deep_view(),
                    current_dir,
                ),
            ),
            CliAction::SwitchMode { input_mode } => Ok(
                seq![ActionView::SwitchModeForAllClients(input_mode)],
            ),
            CliAction::TogglePaneEmbedOrFloating => Ok(seq![ActionView::TogglePaneEmbedOrFloating]),
            CliAction::ToggleFloatingPanes => Ok(seq![ActionView::ToggleFloatingPanes]),
            CliAction::ClosePane => Ok(seq![ActionView::CloseFocus]),
            CliAction::RenamePane { name } => Ok(
                seq![ActionView::UndoRenamePane, ActionView::PaneNameInput(encode_utf8(name@))],
            ),
            CliAction::UndoRenamePane => Ok(seq![ActionView::UndoRenamePane]),
            CliAction::GoToNextTab => Ok(seq![ActionView::GoToNextTab]),
            CliAction::GoToPreviousTab => Ok(seq![ActionView::GoToPreviousTab]),
            CliAction::CloseTab => Ok(seq![ActionView::CloseTab]),
            CliAction::GoToTab { index } => Ok(seq![ActionView::GoToTab(index)]),
            CliAction::GoToTabName { name, create } => Ok(
                seq![ActionView::GoToTabName(name@, create)],
            ),
            CliAction::RenameTab { name } => Ok(
                seq![
                    ActionView::UndoRenameTab,
                    ActionView::TabNameInput(seq![0u8] + encode_utf8(name@)),
                ],
            ),
            CliAction::UndoRenameTab => Ok(seq![ActionView::UndoRenameTab]),
            CliAction::NewTab { name, .. } => Ok(plain_tab(name.deep_view())),
            CliAction::PreviousSwapLayout => Ok(seq![ActionView::PreviousSwapLayout]),
            CliAction::NextSwapLayout => Ok(seq![ActionView::NextSwapLayout]),
            CliAction::QueryTabNames => Ok(seq![ActionView::QueryTabNames]),
            CliAction::StartOrReloadPlugin { url } => match plugin_resolution(url@, current_dir) {
                Ok(plugin) => Ok(seq![ActionView::StartOrReloadPlugin(plugin)]),
                Err(message) => Err(message),
            },
            CliAction::LaunchOrFocusPlugin { floating, url } => match plugin_resolution(
                url@,
                current_dir,
            ) {
                Ok(plugin) => Ok(seq![ActionView::LaunchOrFocusPlugin(plugin, floating)]),
                Err(message) => Err(message),
            },
        }
    }
}

/// The list that holds one action.
fn single(action: Action) -> (r: Vec<Action>)
    ensures
        r.deep_view() == seq![action@],
{
    let mut r: Vec<Action> = Vec::new();
    r.push(action);
    assert(r.deep_view() =~= seq![action@]);
    r
}

/// The list that holds two actions in order.
fn pair(first: Action, second: Action) -> (r: Vec<Action>)
    ensures
        r.deep_view() == seq![first@, second@],
{
    let mut r: Vec<Action> = Vec::new();
    r.push(first);
    r.push(second);
    assert(r.deep_view() =~= seq![first@, second@]);
    r
}

/// The directory that a layout is looked up in: the one the command names,
/// else the one the configuration names, else the default.
pub open spec fn chosen_layout_dir(
    layout_dir: Option<String>,
    config: Option<Config>,
    default_layout_dir: Option<String>,
) -> Option<String> {
    match layout_dir {
        Some(dir) => Some(dir),
        None => match config {
            Some(Config { options }) => match options.layout_dir {
                Some(dir) => Some(dir),
                None => default_layout_dir,
            },
            None => default_layout_dir,
        },
    }
}

/// The directory that a layout is looked up in.
pub fn layout_search_dir(
    layout_dir: Option<String>,
    config: Option<Config>,
    default_layout_dir: Option<String>,
) -> (r: Option<String>)
    ensures
        r == chosen_layout_dir(layout_dir, config, default_layout_dir),
{
    match layout_dir {
        Some(dir) => Some(dir),
        None => match config {
            Some(config) => match config.options.layout_dir {
                Some(dir) => Some(dir),
                None => default_layout_dir,
            },
            None => default_layout_dir,
        },
    }
}

/// Resolves a command to open a pane that is given in `current_dir`.
fn new_pane(
    direction: Option<Direction>,
    command: Vec<String>,
    plugin: Option<String>,
    cwd: Option<String>,
    floating: bool,
    name: Option<String>,
    close_on_exit: bool,
    start_suspended: bool,
    current_dir: String,
) -> (r: Result<Vec<Action>, String>)
    ensures
        resolved_view(r) == new_pane_resolution(
            direction,
            command.deep_view(),
            plugin.deep_view(),
            cwd.deep_view(),
            floating,
            name.deep_view(),
            close_on_exit,
            start_suspended,
            current_dir@,
        ),
{
    let cwd = resolve_working_dir(current_dir, cwd);
    match plugin {
        Some(plugin) => match RunPluginLocation::parse(plugin.as_str(), Some(cwd)) {
            Ok(location) => {
                // A tiled plugin pane takes no direction: the client that
                // asks for it is not the one whose focus would place it.
                if floating {
                    Ok(single(Action::NewFloatingPluginPane(location, name)))
                } else {
                    Ok(single(Action::NewTiledPluginPane(location, name)))
                }
            },
            Err(e) => {
                let head = if floating {
                    concat("Failed to parse plugin loction ", plugin.as_str())
                } else {
                    concat("Failed to parse plugin location ", plugin.as_str())
                };
                let head = concat(head.as_str(), ": ");
                Err(concat(head.as_str(), e.message().as_str()))
            },
        },
        None => {
            if command.len() > 0 {
                let ghost words = command.deep_view();
                let mut command = command;
                let executable = command.remove(0);
                assert(command.deep_view() =~= words.skip(1));
                let run = RunCommandAction {
                    command: executable,
                    args: command,
                    cwd: Some(cwd),
                    direction,
                    hold_on_close: !close_on_exit,
                    hold_on_start: start_suspended,
                };
                if floating {
                    Ok(single(Action::NewFloatingPane(Some(run), name)))
                } else {
                    Ok(single(Action::NewTiledPane(direction, Some(run), name)))
                }
            } else {
                if floating {
                    Ok(single(Action::NewFloatingPane(None, name)))
                } else {
                    Ok(single(Action::NewTiledPane(direction, None, name)))
                }
            }
        },
    }
}

/// Resolves a command to edit a file that is given in `current_dir`.
fn edit(
    file: String,
    direction: Option<Direction>,
    line_number: Option<usize>,
    floating: bool,
    cwd: Option<String>,
    current_dir: String,
) -> (r: Vec<Action>)
    ensures
        r.deep_view() == edit_resolution(
            file@,
            direction,
            line_number,
            floating,
            cwd.deep_view(),
            current_dir@,
        ),
{
    let cwd = resolve_working_dir(current_dir, cwd);
    let file = anchor_if_relative(cwd.as_str(), file);
    single(Action::EditFile(file, line_number, Some(cwd), direction, floating))
}

/// Reads the plugin that a command names by `url` when it is given in
/// `current_dir`.
fn plugin_at(url: &str, current_dir: String) -> (r: Result<RunPlugin, String>)
    ensures
        match r {
            Ok(plugin) => plugin_resolution(url@, current_dir@) == Ok::<RunPluginView, Seq<char>>(
                plugin@,
            ),
            Err(message) => plugin_resolution(url@, current_dir@) == Err::<
                RunPluginView,
                Seq<char>,
            >(message@),
        },
{
    match RunPluginLocation::parse(url, Some(current_dir)) {
        Ok(location) => Ok(RunPlugin { _allow_exec_host_cmd: false, location }),
        Err(e) => match e {
            PluginsConfigError::InvalidUrl(_) => {
                let head = concat("Failed to parse plugin location ", url);
                let head = concat(head.as_str(), ": ");
                Err(concat(head.as_str(), e.message().as_str()))
            },
            _ => Err(concat("Failed to parse plugin location: ", e.message().as_str())),
        },
    }
}

/// What was asked of the collaborators while a command was resolved, and
/// what they answered.
pub struct Consulted {
    /// The current directory, as the provider gave it.
    pub current_dir: String,
    /// What reading the layout gave.
    pub read: Result<RawLayout, ConfigError>,
    /// The working directory that the parser was handed.
    pub layout_cwd: String,
    /// What parsing the layout gave.
    pub parsed: Result<Layout, ConfigError>,
}

/// Whether `consulted` records what the collaborators were asked and what
/// they answered while `cli` was resolved.
///
/// The provider of the current directory is asked where the command needs
/// the directory. For a new tab with a layout, the reader is handed the path
/// of the layout and the directory to look it up in, and, where it succeeds,
/// the parser is handed what was read and the working directory of the tab.
pub open spec fn answered<D, R, P>(
    cli: CliAction,
    config: Option<Config>,
    default_layout_dir: Option<String>,
    get_current_dir: D,
    read_layout: R,
    parse_layout: P,
    consulted: Consulted,
) -> bool where
    D: FnOnce() -> String,
    R: FnOnce(String, Option<String>) -> Result<RawLayout, ConfigError>,
    P: FnOnce(&RawLayout, Option<String>) -> Result<Layout, ConfigError>,
 {
    &&& cli.needs_current_dir() ==> call_ensures(get_current_dir, (), consulted.current_dir)
    &&& match cli {
        CliAction::NewTab { layout: Some(layout_path), layout_dir, cwd, .. } => {
            &&& call_ensures(
                read_layout,
                (layout_path, chosen_layout_dir(layout_dir, config, default_layout_dir)),
                consulted.read,
            )
            &&& consulted.read matches Ok(raw) ==> {
                &&& consulted.layout_cwd@ == working_dir(consulted.current_dir@, cwd.deep_view())
                &&& call_ensures(parse_layout, (&raw, Some(consulted.layout_cwd)), consulted.parsed)
            }
        },
        _ => true,
    }
}

/// Whether `r` is what `cli` resolves to, given what the collaborators
/// answered.
///
/// For a new tab with a layout: a layout that cannot be read fails with the
/// reason; one that cannot be parsed fails with a diagnostic drawn on its
/// text, or with the reason where the error has no place in the text; one
/// that is parsed gives what [`new_tab_resolution`] says. For every other
/// command, `r` is what [`CliAction::resolution`] says.
pub open spec fn resolves_to(
    cli: CliAction,
    consulted: Consulted,
    r: Result<Seq<ActionView>, Seq<char>>,
) -> bool {
    match cli {
        CliAction::NewTab { layout: Some(_), name, .. } => match consulted.read {
            Err(e) => r == Err::<Seq<ActionView>, Seq<char>>(
                "Failed to load layout: "@ + e.spec_message(),
            ),
            Ok(_) => match consulted.parsed {
                Err(e) => if e.is_diagnostic() {
                    r is Err
                } else {
                    r == Err::<Seq<ActionView>, Seq<char>>(e.spec_message())
                },
                Ok(layout) => r == new_tab_resolution(layout, name.deep_view()),
            },
        },
        _ => r == cli.resolution(consulted.current_dir@),
    }
}

impl Action {
    /// The action that opens a tab with the panes of a parsed layout, asked
    /// to be named `name`; a layout that itself describes several tabs is
    /// refused.
    pub fn new_tab_from_layout(layout: Layout, name: Option<String>) -> (r: Result<
        Vec<Action>,
        String,
    >)
        ensures
            resolved_view(r) == new_tab_resolution(layout, name.deep_view()),
    {
        let Layout { tabs, template, swap_tiled_layouts, swap_floating_layouts } = layout;
        let mut tabs = tabs;
        if tabs.len() > 1 {
            return Err(String::from_str(TABS_IN_TAB_LAYOUT));
        }
        if tabs.len() == 1 {
            let (tab_name, tiled, floating) = tabs.remove(0);
            let name = match tab_name {
                Some(tab_name) => Some(tab_name),
                None => name,
            };
            Ok(
                single(
                    Action::NewTab(
                        Some(tiled),
                        floating,
                        Some(swap_tiled_layouts),
                        Some(swap_floating_layouts),
                        name,
                    ),
                ),
            )
        } else {
            let (tiled, floating) = match template {
                Some(template) => template,
                None => {
                    let floating: Vec<FloatingPaneLayout> = Vec::new();
                    assert(floating.deep_view() =~= Seq::<FloatingPaneLayoutView>::empty());
                    (TiledPaneLayout::default(), floating)
                },
            };
            Ok(
                single(
                    Action::NewTab(
                        Some(tiled),
                        floating,
                        Some(swap_tiled_layouts),
                        Some(swap_floating_layouts),
                        name,
                    ),
                ),
            )
        }
    }

    /// Resolves one command into the actions that carry it out, in the order
    /// in which they are to be carried out, or into the message of the
    /// failure.
    ///
    /// `get_current_dir` gives the directory the command was given in; it is
    /// asked at most once, and only by a command that needs the directory.
    /// `config` and `default_layout_dir` name the directories that a layout
    /// is looked up in where the command names none. `read_layout` finds and
    /// reads a layout, given its path and the directory to look in;
    /// `parse_layout` parses what was read, given the working directory of
    /// the tab. Both are called at most once, and only for a new tab with a
    /// layout.
    ///
    /// The outcome is stated by [`resolves_to`] over what the three were
    /// asked and what they answered, which [`answered`] records.
    pub fn actions_from_cli<D, R, P>(
        cli_action: CliAction,
        get_current_dir: D,
        config: Option<Config>,
        default_layout_dir: Option<String>,
        read_layout: R,
        parse_layout: P,
    ) -> (r: Result<Vec<Action>, String>) where
        D: FnOnce() -> String,
        R: FnOnce(String, Option<String>) -> Result<RawLayout, ConfigError>,
        P: FnOnce(&RawLayout, Option<String>) -> Result<Layout, ConfigError>,

        requires
            call_requires(get_current_dir, ()),
            forall|path: String, dir: Option<String>| call_requires(read_layout, (path, dir)),
            forall|raw: &RawLayout, cwd: Option<String>| call_requires(parse_layout, (raw, cwd)),
        ensures
            exists|consulted: Consulted|
                {
                    &&& answered(
                        cli_action,
                        config,
                        default_layout_dir,
                        get_current_dir,
                        read_layout,
                        parse_layout,
                        consulted,
                    )
                    &&& #[trigger] resolves_to(cli_action, consulted, resolved_view(r))
                },
    {
        let ghost mut consulted: Consulted = arbitrary();
        let r = match cli_action {
            CliAction::Write { bytes } => Ok(single(Action::Write(bytes))),
            CliAction::WriteChars { chars } => Ok(single(Action::WriteChars(chars))),
            CliAction::Resize { resize, direction } => Ok(
                single(Action::Resize(resize, direction)),
            ),
            CliAction::FocusNextPane => Ok(single(Action::FocusNextPane)),
            CliAction::FocusPreviousPane => Ok(single(Action::FocusPreviousPane)),
            CliAction::MoveFocus { direction } => Ok(single(Action::MoveFocus(direction))),
            CliAction::MoveFocusOrTab { direction } => Ok(
                single(Action::MoveFocusOrTab(direction)),
            ),
            CliAction::MovePane { direction } => Ok(single(Action::MovePane(direction))),
            CliAction::MovePaneBackwards => Ok(single(Action::MovePaneBackwards)),
            CliAction::Clear => Ok(single(Action::ClearScreen)),
            CliAction::DumpScreen { path, full } => Ok(single(Action::DumpScreen(path, full))),
            CliAction::EditScrollback => Ok(single(Action::EditScrollback)),
            CliAction::ScrollUp => Ok(single(Action::ScrollUp)),
            CliAction::ScrollDown => Ok(single(Action::ScrollDown)),
            CliAction::ScrollToBottom => Ok(single(Action::ScrollToBottom)),
            CliAction::ScrollToTop => Ok(single(Action::ScrollToTop)),
            CliAction::PageScrollUp => Ok(single(Action::PageScrollUp)),
            CliAction::PageScrollDown => Ok(single(Action::PageScrollDown)),
            CliAction::HalfPageScrollUp => Ok(single(Action::HalfPageScrollUp)),
            CliAction::HalfPageScrollDown => Ok(single(Action::HalfPageScrollDown)),
            CliAction::ToggleFullscreen => Ok(single(Action::ToggleFocusFullscreen)),
            CliAction::TogglePaneFrames => Ok(single(Action::TogglePaneFrames)),
            CliAction::ToggleActiveSyncTab => Ok(single(Action::ToggleActiveSyncTab)),
            CliAction::NewPane {
                direction,
                command,
                plugin,
                cwd,
                floating,
                name,
                close_on_exit,
                start_suspended,
            } => {
                let current_dir = get_current_dir();
                proof {
                    consulted.current_dir = current_dir;
                }
                new_pane(
                    direction,
                    command,
                    plugin,
                    cwd,
                    floating,
                    name,
                    close_on_exit,
                    start_suspended,
                    current_dir,
                )
            },
            CliAction::Edit { file, direction, line_number, floating, cwd } => {
                let current_dir = get_current_dir();
                proof {
                    consulted.current_dir = current_dir;
                }
                Ok(edit(file, direction, line_number, floating, cwd, current_dir))
            },
            CliAction::SwitchMode { input_mode } => Ok(
                single(Action::SwitchModeForAllClients(input_mode)),
            ),
            CliAction::TogglePaneEmbedOrFloating => Ok(single(Action::TogglePaneEmbedOrFloating)),
            CliAction::ToggleFloatingPanes => Ok(single(Action::ToggleFloatingPanes)),
            CliAction::ClosePane => Ok(single(Action::CloseFocus)),
            CliAction::RenamePane { name } => Ok(
                pair(Action::UndoRenamePane, Action::PaneNameInput(name.as_str().as_bytes_vec())),
            ),
            CliAction::UndoRenamePane => Ok(single(Action::UndoRenamePane)),
            CliAction::GoToNextTab => Ok(single(Action::GoToNextTab)),
            CliAction::GoToPreviousTab => Ok(single(Action::GoToPreviousTab)),
            CliAction::CloseTab => Ok(single(Action::CloseTab)),
            CliAction::GoToTab { index } => Ok(single(Action::GoToTab(index))),
            CliAction::GoToTabName { name, create } => Ok(
                single(Action::GoToTabName(name, create)),
            ),
            CliAction::RenameTab { name } => {
                // The zero byte ahead of the name tells whoever keeps the
                // name being typed to start it afresh.
                let mut bytes: Vec<u8> = Vec::new();
                bytes.push(0u8);
                let mut name_bytes = name.as_str().as_bytes_vec();
                bytes.append(&mut name_bytes);
                assert(bytes@ =~= seq![0u8] + encode_utf8(name@));
                Ok(pair(Action::UndoRenameTab, Action::TabNameInput(bytes)))
            },
            CliAction::UndoRenameTab => Ok(single(Action::UndoRenameTab)),
            CliAction::NewTab { name, layout, layout_dir, cwd } => {
                let current_dir = get_current_dir();
                proof {
                    consulted.current_dir = current_dir;
                }
                let cwd = resolve_working_dir(current_dir, cwd);
                match layout {
                    Some(layout_path) => {
                        let layout_dir = layout_search_dir(layout_dir, config, default_layout_dir);
                        let read = read_layout(layout_path.clone(), layout_dir);
                        proof {
                            consulted.read = read;
                            consulted.layout_cwd = cwd;
                        }
                        match read {
                            Err(e) => Err(concat("Failed to load layout: ", e.message().as_str())),
                            Ok(raw_layout) => {
                                let parsed = parse_layout(&raw_layout, Some(cwd));
                                proof {
                                    consulted.parsed = parsed;
                                }
                                match parsed {
                                    Err(e) => Err(
                                        e.stringify(
                                            layout_path.as_str(),
                                            raw_layout.text.as_str(),
                                        ),
                                    ),
                                    Ok(layout) => Action::new_tab_from_layout(layout, name),
                                }
                            },
                        }
                    },
                    None => {
                        let floating: Vec<FloatingPaneLayout> = Vec::new();
                        assert(floating.deep_view() =~= Seq::<FloatingPaneLayoutView>::empty());
                        Ok(single(Action::NewTab(None, floating, None, None, name)))
                    },
                }
            },
            CliAction::PreviousSwapLayout => Ok(single(Action::PreviousSwapLayout)),
            CliAction::NextSwapLayout => Ok(single(Action::NextSwapLayout)),
            CliAction::QueryTabNames => Ok(single(Action::QueryTabNames)),
            CliAction::StartOrReloadPlugin { url } => {
                let current_dir = get_current_dir();
                proof {
                    consulted.current_dir = current_dir;
                }
                match plugin_at(url.as_str(), current_dir) {
                    Ok(plugin) => Ok(single(Action::StartOrReloadPlugin(plugin))),
                    Err(message) => Err(message),
                }
            },
            CliAction::LaunchOrFocusPlugin { floating, url } => {
                let current_dir = get_current_dir();
                proof {
                    consulted.current_dir = current_dir;
                }
                match plugin_at(url.as_str(), current_dir) {
                    Ok(plugin) => Ok(single(Action::LaunchOrFocusPlugin(plugin, floating))),
                    Err(message) => Err(message),
                }
            },
        };
        assert(answered(
            cli_action,
            config,
            default_layout_dir,
            get_current_dir,
            read_layout,
            parse_layout,
            consulted,
        ));
        assert(resolves_to(cli_action, consulted, resolved_view(r)));
        r
    }
}

/// Whether resolving `cli` ends in a diagnostic drawn on the text of a
/// layout: the one outcome whose wording is left to the drawing.
pub open spec fn draws_diagnostic(cli: CliAction, consulted: Consulted) -> bool {
    &&& cli.layout_path() is Some
    &&& consulted.read is Ok
    &&& consulted.parsed matches Err(e) && e.is_diagnostic()
}

/// Resolving is a function of the command and of what the collaborators
/// answered: two outcomes of resolving the same command on the same answers
/// are the same actions or the same message. Left out is the diagnostic
/// drawn on the text of a layout, of which only the failure is certain.
pub proof fn lemma_resolution_is_determined(
    cli: CliAction,
    consulted: Consulted,
    first: Result<Seq<ActionView>, Seq<char>>,
    second: Result<Seq<ActionView>, Seq<char>>,
)
    requires
        resolves_to(cli, consulted, first),
        resolves_to(cli, consulted, second),
        !draws_diagnostic(cli, consulted),
    ensures
        first == second,
{
}

/// A command that does not need the current directory resolves to the same
/// actions wherever it is given, and never fails.
pub proof fn lemma_resolution_without_directory(
    cli: CliAction,
    here: Seq<char>,
    there: Seq<char>,
)
    requires
        !cli.needs_current_dir(),
    ensures
        cli.resolution(here) == cli.resolution(there),
        cli.resolution(here) is Ok,
{
}

/// A renaming is two actions in a fixed order: first the action that takes
/// a renaming back, then the input of the bytes of the new name. For a tab
/// the byte zero goes ahead of the bytes of the name.
pub proof fn lemma_rename_is_reset_then_input(name: String, current_dir: Seq<char>)
    ensures
        (CliAction::RenamePane { name }).resolution(current_dir) matches Ok(actions) && {
            &&& actions.len() == 2
            &&& actions[0] == ActionView::UndoRenamePane
            &&& actions[1] == ActionView::PaneNameInput(encode_utf8(name@))
        },
        (CliAction::RenameTab { name }).resolution(current_dir) matches Ok(actions) && {
            &&& actions.len() == 2
            &&& actions[0] == ActionView::UndoRenameTab
            &&& actions[1] == ActionView::TabNameInput(seq![0u8] + encode_utf8(name@))
        },
{
}

/// Where a command to open a pane names a plugin and the location can be
/// read, the pane runs the plugin: the outcome is the one action that opens a
/// plugin pane of the kind asked for, with the location and the name, and it
/// is the same whatever the command line, the direction and the two flags of
/// the command are. A tiled plugin pane therefore carries no direction.
pub proof fn lemma_plugin_decides_the_pane(
    plugin: Seq<char>,
    cwd: Option<Seq<char>>,
    floating: bool,
    name: Option<Seq<char>>,
    current_dir: Seq<char>,
    direction: Option<Direction>,
    command: Seq<Seq<char>>,
    close_on_exit: bool,
    start_suspended: bool,
    other_direction: Option<Direction>,
    other_command: Seq<Seq<char>>,
    other_close_on_exit: bool,
    other_start_suspended: bool,
)
    requires
        located(plugin, parsed_url(plugin), Some(working_dir(current_dir, cwd))) is Ok,
    ensures
        new_pane_resolution(
            direction,
            command,
            Some(plugin),
            cwd,
            floating,
            name,
            close_on_exit,
            start_suspended,
            current_dir,
        ) == new_pane_resolution(
            other_direction,
            other_command,
            Some(plugin),
            cwd,
            floating,
            name,
            other_close_on_exit,
            other_start_suspended,
            current_dir,
        ),
        new_pane_resolution(
            direction,
            command,
            Some(plugin),
            cwd,
            floating,
            name,
            close_on_exit,
            start_suspended,
            current_dir,
        ) == Ok::<Seq<ActionView>, Seq<char>>(
            seq![
                if floating {
                    ActionView::NewFloatingPluginPane(
                        located(
                            plugin,
                            parsed_url(plugin),
                            Some(working_dir(current_dir, cwd)),
                        )->Ok_0,
                        name,
                    )
                } else {
                    ActionView::NewTiledPluginPane(
                        located(
                            plugin,
                            parsed_url(plugin),
                            Some(working_dir(current_dir, cwd)),
                        )->Ok_0,
                        name,
                    )
                },
            ],
        ),
{
}

/// The working directory of an edited file is the override of the command
/// anchored under the current directory: joined under it where the override
/// is relative, the override itself where it is absolute, the current
/// directory where there is none. The file is anchored under the working
/// directory in turn.
pub proof fn lemma_edit_working_dir(
    file: Seq<char>,
    direction: Option<Direction>,
    line_number: Option<usize>,
    floating: bool,
    cwd: Option<Seq<char>>,
    current_dir: Seq<char>,
)
    ensures
        edit_resolution(file, direction, line_number, floating, cwd, current_dir).len() == 1,
        edit_resolution(file, direction, line_number, floating, cwd, current_dir)[0]
            == ActionView::EditFile(
            anchored(working_dir(current_dir, cwd), file),
            line_number,
            Some(working_dir(current_dir, cwd)),
            direction,
            floating,
        ),
        cwd matches Some(path) ==> (is_absolute_path(path) ==> working_dir(current_dir, cwd)
            == path),
        cwd matches Some(path) ==> (!is_absolute_path(path) ==> working_dir(current_dir, cwd)
            == joined_path(current_dir, path)),
        cwd is None ==> working_dir(current_dir, cwd) == current_dir,
{
}

} // verus!
