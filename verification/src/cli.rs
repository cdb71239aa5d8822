//! The commands that can be given on the command line, one per verb, with
//! their arguments already read into typed values.

use crate::data::{Direction, InputMode, Resize};
use vstd::prelude::*;

verus! {

/// One command, as the command line gives it. Paths are held as text.
#[derive(Debug, Clone)]
#[allow(inconsistent_fields)]
pub enum CliAction {
    /// Write bytes to the terminal.
    Write { bytes: Vec<u8> },
    /// Write characters to the terminal.
    WriteChars { chars: String },
    /// Resize the focused pane in the given direction.
    Resize { resize: Resize, direction: Option<Direction> },
    /// Change focus to the next pane.
    FocusNextPane,
    /// Change focus to the previous pane.
    FocusPreviousPane,
    /// Move the focus in the given direction.
    MoveFocus { direction: Direction },
    /// Move the focus in the given direction, or to the next tab at the edge
    /// of the screen.
    MoveFocusOrTab { direction: Direction },
    /// Change the place of the focused pane in the layout.
    MovePane { direction: Option<Direction> },
    /// Rotate the place of the focused pane backwards.
    MovePaneBackwards,
    /// Clear all buffers of the focused pane.
    Clear,
    /// Dump the focused pane to a file.
    DumpScreen { path: String, full: bool },
    /// Open the scrollback of the focused pane in the editor.
    EditScrollback,
    ScrollUp,
    ScrollDown,
    ScrollToBottom,
    ScrollToTop,
    PageScrollUp,
    PageScrollDown,
    HalfPageScrollUp,
    HalfPageScrollDown,
    /// Toggle between a fullscreen focused pane and the normal layout.
    ToggleFullscreen,
    /// Toggle the frames around panes.
    TogglePaneFrames,
    /// Toggle between sending input to every pane of the tab and to one.
    ToggleActiveSyncTab,
    /// Open a new pane: a plugin, a command, or a shell.
    NewPane {
        direction: Option<Direction>,
        command: Vec<String>,
        plugin: Option<String>,
        cwd: Option<String>,
        floating: bool,
        name: Option<String>,
        close_on_exit: bool,
        start_suspended: bool,
    },
    /// Open a file in a new pane with the editor.
    Edit {
        file: String,
        direction: Option<Direction>,
        line_number: Option<usize>,
        floating: bool,
        cwd: Option<String>,
    },
    /// Switch every client to the given input mode.
    SwitchMode { input_mode: InputMode },
    /// Embed the focused pane if it floats, float it if it is embedded.
    TogglePaneEmbedOrFloating,
    /// Show or hide the floating panes of the tab.
    ToggleFloatingPanes,
    /// Close the focused pane.
    ClosePane,
    /// Rename the focused pane.
    RenamePane { name: String },
    /// Take back the renaming of the focused pane.
    UndoRenamePane,
    GoToNextTab,
    GoToPreviousTab,
    /// Close the current tab.
    CloseTab,
    /// Go to the tab with the given index.
    GoToTab { index: u32 },
    /// Go to the tab with the given name, creating it on demand.
    GoToTabName { name: String, create: bool },
    /// Rename the focused tab.
    RenameTab { name: String },
    /// Take back the renaming of the focused tab.
    UndoRenameTab,
    /// Open a new tab, with a layout and a name if they are given.
    NewTab {
        layout: Option<String>,
        layout_dir: Option<String>,
        name: Option<String>,
        cwd: Option<String>,
    },
    PreviousSwapLayout,
    NextSwapLayout,
    /// Ask for the names of all tabs.
    QueryTabNames,
    /// Start the plugin at the given location, or reload it if it runs.
    StartOrReloadPlugin { url: String },
    /// Launch the plugin at the given location, or focus it if it runs.
    LaunchOrFocusPlugin { floating: bool, url: String },
}

} // verus!
