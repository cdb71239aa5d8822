//! The actions of the workspace: the closed vocabulary that key bindings,
//! commands and plugins all speak.

use crate::command::{clone_opt_command, opt_command_eq, RunCommandAction, RunCommandActionView};
use crate::data::{Direction, InputMode, OnForceClose, Position, Resize};
use crate::layout::{
    clone_floating_panes, clone_opt_swap_floating_layouts, clone_opt_swap_tiled_layouts,
    clone_opt_tiled, floating_panes_eq, opt_swap_floating_layouts_eq, opt_swap_tiled_layouts_eq,
    opt_tiled_eq, FloatingPaneLayout, FloatingPaneLayoutView, SwapFloatingLayout,
    SwapFloatingLayoutView, SwapTiledLayout, SwapTiledLayoutView, TiledPaneLayout,
    TiledPaneLayoutView,
};
use crate::plugin::{RunPlugin, RunPluginLocation, RunPluginLocationView, RunPluginView};
use crate::text::{bytes_eq, concat, err_view, opt_text_eq, str_eq};
use std::str::FromStr;
use vstd::prelude::*;
use vstd::std_specs::cmp::PartialEqSpecImpl;
use vstd::std_specs::convert::FromSpecImpl;

verus! {

/// The border at which a pane is resized, or the way its size changes.
#[derive(Clone, Copy, Debug, PartialEq, Eq, Structural)]
pub enum ResizeDirection {
    Left,
    Right,
    Up,
    Down,
    Increase,
    Decrease,
}

impl ResizeDirection {
    /// The value that the word `s` names, or the complaint that it names none.
    /// The words are `Left`, `left`, `Right`, `right`, `Up`, `up`, `Down`,
    /// `down`, `Increase`, `increase`, `+`, `Decrease`, `decrease`, `-`.
    pub open spec fn spec_from_str(s: Seq<char>) -> Result<ResizeDirection, Seq<char>> {
        if s == "Left"@ || s == "left"@ {
            Ok(ResizeDirection::Left)
        } else if s == "Right"@ || s == "right"@ {
            Ok(ResizeDirection::Right)
        } else if s == "Up"@ || s == "up"@ {
            Ok(ResizeDirection::Up)
        } else if s == "Down"@ || s == "down"@ {
            Ok(ResizeDirection::Down)
        } else if s == "Increase"@ || s == "increase"@ || s == "+"@ {
            Ok(ResizeDirection::Increase)
        } else if s == "Decrease"@ || s == "decrease"@ || s == "-"@ {
            Ok(ResizeDirection::Decrease)
        } else {
            Err("Failed to parse ResizeDirection. Unknown ResizeDirection: "@ + s)
        }
    }

    /// Reads a value from the word that names it.
    pub fn from_str(s: &str) -> (r: Result<ResizeDirection, String>)
        ensures
            err_view(r) == ResizeDirection::spec_from_str(s@),
    {
        if str_eq(s, "Left") || str_eq(s, "left") {
            Ok(ResizeDirection::Left)
        } else if str_eq(s, "Right") || str_eq(s, "right") {
            Ok(ResizeDirection::Right)
        } else if str_eq(s, "Up") || str_eq(s, "up") {
            Ok(ResizeDirection::Up)
        } else if str_eq(s, "Down") || str_eq(s, "down") {
            Ok(ResizeDirection::Down)
        } else if str_eq(s, "Increase") || str_eq(s, "increase") || str_eq(s, "+") {
            Ok(ResizeDirection::Increase)
        } else if str_eq(s, "Decrease") || str_eq(s, "decrease") || str_eq(s, "-") {
            Ok(ResizeDirection::Decrease)
        } else {
            Err(concat("Failed to parse ResizeDirection. Unknown ResizeDirection: ", s))
        }
    }
}

impl FromStr for ResizeDirection {
    type Err = String;

    fn from_str(s: &str) -> (r: Result<ResizeDirection, String>)
        ensures
            err_view(r) == ResizeDirection::spec_from_str(s@),
    {
        ResizeDirection::from_str(s)
    }
}

/// The direction in which a search moves through the scrollback.
#[derive(Clone, Copy, Debug, PartialEq, Eq, Structural)]
pub enum SearchDirection {
    Down,
    Up,
}

impl SearchDirection {
    /// The value that the word `s` names, or the complaint that it names none.
    /// The words are `Down`, `down`, `Up`, `up`.
    pub open spec fn spec_from_str(s: Seq<char>) -> Result<SearchDirection, Seq<char>> {
        if s == "Down"@ || s == "down"@ {
            Ok(SearchDirection::Down)
        } else if s == "Up"@ || s == "up"@ {
            Ok(SearchDirection::Up)
        } else {
            Err("Failed to parse SearchDirection. Unknown SearchDirection: "@ + s)
        }
    }

    /// Reads a value from the word that names it.
    pub fn from_str(s: &str) -> (r: Result<SearchDirection, String>)
        ensures
            err_view(r) == SearchDirection::spec_from_str(s@),
    {
        if str_eq(s, "Down") || str_eq(s, "down") {
            Ok(SearchDirection::Down)
        } else if str_eq(s, "Up") || str_eq(s, "up") {
            Ok(SearchDirection::Up)
        } else {
            Err(concat("Failed to parse SearchDirection. Unknown SearchDirection: ", s))
        }
    }
}

impl FromStr for SearchDirection {
    type Err = String;

    fn from_str(s: &str) -> (r: Result<SearchDirection, String>)
        ensures
            err_view(r) == SearchDirection::spec_from_str(s@),
    {
        SearchDirection::from_str(s)
    }
}

/// An option of the search that can be switched on and off.
#[derive(Clone, Copy, Debug, PartialEq, Eq, Structural)]
pub enum SearchOption {
    CaseSensitivity,
    WholeWord,
    Wrap,
}

impl SearchOption {
    /// The value that the word `s` names, or the complaint that it names none.
    /// The words are `CaseSensitivity`, `casesensitivity`, `Casesensitivity`,
    /// `WholeWord`, `wholeword`, `Wholeword`, `Wrap`, `wrap`.
    pub open spec fn spec_from_str(s: Seq<char>) -> Result<SearchOption, Seq<char>> {
        if s == "CaseSensitivity"@ || s == "casesensitivity"@ || s == "Casesensitivity"@ {
            Ok(SearchOption::CaseSensitivity)
        } else if s == "WholeWord"@ || s == "wholeword"@ || s == "Wholeword"@ {
            Ok(SearchOption::WholeWord)
        } else if s == "Wrap"@ || s == "wrap"@ {
            Ok(SearchOption::Wrap)
        } else {
            Err("Failed to parse SearchOption. Unknown SearchOption: "@ + s)
        }
    }

    /// Reads a value from the word that names it.
    pub fn from_str(s: &str) -> (r: Result<SearchOption, String>)
        ensures
            err_view(r) == SearchOption::spec_from_str(s@),
    {
        if str_eq(s, "CaseSensitivity") || str_eq(s, "casesensitivity") || str_eq(
            s,
            "Casesensitivity",
        ) {
            Ok(SearchOption::CaseSensitivity)
        } else if str_eq(s, "WholeWord") || str_eq(s, "wholeword") || str_eq(s, "Wholeword") {
            Ok(SearchOption::WholeWord)
        } else if str_eq(s, "Wrap") || str_eq(s, "wrap") {
            Ok(SearchOption::Wrap)
        } else {
            Err(concat("Failed to parse SearchOption. Unknown SearchOption: ", s))
        }
    }
}

impl FromStr for SearchOption {
    type Err = String;

    fn from_str(s: &str) -> (r: Result<SearchOption, String>)
        ensures
            err_view(r) == SearchOption::spec_from_str(s@),
    {
        SearchOption::from_str(s)
    }
}

/// Actions that can be bound to keys, asked for on the command line, or
/// requested by plugins.
#[derive(Debug)]
pub enum Action {
    /// Quit the session.
    Quit,
    /// Write to the terminal.
    Write(Vec<u8>),
    /// Write characters to the terminal.
    WriteChars(String),
    /// Switch to the specified input mode.
    SwitchToMode(InputMode),
    /// Switch all connected clients to the specified input mode.
    SwitchModeForAllClients(InputMode),
    /// Shrink or enlarge the focused pane at the specified border.
    Resize(Resize, Option<Direction>),
    /// Switch focus to the next pane.
    FocusNextPane,
    /// Switch focus to the previous pane.
    FocusPreviousPane,
    /// Switch focus between the panes of the tab.
    SwitchFocus,
    /// Move the focus in the specified direction.
    MoveFocus(Direction),
    /// Move the focus in the specified direction; where there is no pane in
    /// that direction, move to the previous or next tab.
    MoveFocusOrTab(Direction),
    /// Move the focused pane in the specified direction.
    MovePane(Option<Direction>),
    /// Move the focused pane backwards in the layout.
    MovePaneBackwards,
    /// Clear all buffers of the current screen.
    ClearScreen,
    /// Dump the screen to the file at the given path; the flag asks for the
    /// scrollback too.
    DumpScreen(String, bool),
    /// Open the scrollback of the focused pane in the editor.
    EditScrollback,
    /// Scroll up in the focused pane.
    ScrollUp,
    /// Scroll up at the given point.
    ScrollUpAt(Position),
    /// Scroll down in the focused pane.
    ScrollDown,
    /// Scroll down at the given point.
    ScrollDownAt(Position),
    /// Scroll down to the bottom of the focused pane.
    ScrollToBottom,
    /// Scroll up to the top of the focused pane.
    ScrollToTop,
    /// Scroll up one page in the focused pane.
    PageScrollUp,
    /// Scroll down one page in the focused pane.
    PageScrollDown,
    /// Scroll up half a page in the focused pane.
    HalfPageScrollUp,
    /// Scroll down half a page in the focused pane.
    HalfPageScrollDown,
    /// Toggle between a fullscreen focused pane and the normal layout.
    ToggleFocusFullscreen,
    /// Toggle the frames around panes.
    TogglePaneFrames,
    /// Toggle between sending text to all panes of the current tab and to one.
    ToggleActiveSyncTab,
    /// Open a new pane in the specified direction, relative to the focus, or
    /// in the largest free space; the text is the name of the pane.
    NewPane(Option<Direction>, Option<String>),
    /// Open the file at the given path in a new pane with the editor: the
    /// path, the line to open at, the working directory, where the pane opens,
    /// and whether it floats.
    EditFile(String, Option<usize>, Option<String>, Option<Direction>, bool),
    /// Open a new floating pane; the text is its name.
    NewFloatingPane(Option<RunCommandAction>, Option<String>),
    /// Open a new tiled pane; the text is its name.
    NewTiledPane(Option<Direction>, Option<RunCommandAction>, Option<String>),
    /// Embed the focused pane if it floats, float it if it is embedded.
    TogglePaneEmbedOrFloating,
    /// Show or hide the floating panes of the current tab.
    ToggleFloatingPanes,
    /// Close the focused pane.
    CloseFocus,
    /// Add bytes to the name that the focused pane is being given.
    PaneNameInput(Vec<u8>),
    /// Take back the renaming of the focused pane.
    UndoRenamePane,
    /// Create a new tab: its tiled panes, its floating panes, its swap
    /// layouts of both kinds, and its name.
    NewTab(
        Option<TiledPaneLayout>,
        Vec<FloatingPaneLayout>,
        Option<Vec<SwapTiledLayout>>,
        Option<Vec<SwapFloatingLayout>>,
        Option<String>,
    ),
    /// Do nothing.
    NoOp,
    /// Go to the next tab.
    GoToNextTab,
    /// Go to the previous tab.
    GoToPreviousTab,
    /// Close the current tab.
    CloseTab,
    /// Go to the tab with the given index.
    GoToTab(u32),
    /// Go to the tab with the given name; the flag asks for it to be created
    /// where there is none.
    GoToTabName(String, bool),
    /// Go back to the tab that had the focus before.
    ToggleTab,
    /// Add bytes to the name that the focused tab is being given.
    TabNameInput(Vec<u8>),
    /// Take back the renaming of the focused tab.
    UndoRenameTab,
    /// Run the specified command in a new pane.
    Run(RunCommandAction),
    /// Detach from the session and exit.
    Detach,
    LeftClick(Position),
    RightClick(Position),
    MiddleClick(Position),
    /// Launch the plugin or focus it if it runs; the flag asks for a floating
    /// pane.
    LaunchOrFocusPlugin(RunPlugin, bool),
    LeftMouseRelease(Position),
    RightMouseRelease(Position),
    MiddleMouseRelease(Position),
    MouseHoldLeft(Position),
    MouseHoldRight(Position),
    MouseHoldMiddle(Position),
    /// Copy the selection.
    Copy,
    /// Confirm a prompt.
    Confirm,
    /// Deny a prompt.
    Deny,
    /// Carry out an action that would prompt, without prompting.
    SkipConfirm(Box<Action>),
    /// Add bytes to the text that is searched for.
    SearchInput(Vec<u8>),
    /// Search in the given direction.
    Search(SearchDirection),
    /// Toggle an option of the search.
    SearchToggleOption(SearchOption),
    /// Toggle the handling of mouse events.
    ToggleMouseMode,
    /// Switch to the previous swap layout.
    PreviousSwapLayout,
    /// Switch to the next swap layout.
    NextSwapLayout,
    /// Ask for the names of all tabs.
    QueryTabNames,
    /// Open a new tiled pane that runs a plugin; the text is its name.
    NewTiledPluginPane(RunPluginLocation, Option<String>),
    /// Open a new floating pane that runs a plugin; the text is its name.
    NewFloatingPluginPane(RunPluginLocation, Option<String>),
    /// Start the plugin, or reload it if it runs.
    StartOrReloadPlugin(RunPlugin),
}

/// The mathematical value of an [`Action`]: the same variants, with text as
/// sequences of characters, bytes as sequences of bytes and lists as
/// sequences of values.
pub enum ActionView {
    Quit,
    Write(Seq<u8>),
    WriteChars(Seq<char>),
    SwitchToMode(InputMode),
    SwitchModeForAllClients(InputMode),
    Resize(Resize, Option<Direction>),
    FocusNextPane,
    FocusPreviousPane,
    SwitchFocus,
    MoveFocus(Direction),
    MoveFocusOrTab(Direction),
    MovePane(Option<Direction>),
    MovePaneBackwards,
    ClearScreen,
    DumpScreen(Seq<char>, bool),
    EditScrollback,
    ScrollUp,
    ScrollUpAt(Position),
    ScrollDown,
    ScrollDownAt(Position),
    ScrollToBottom,
    ScrollToTop,
    PageScrollUp,
    PageScrollDown,
    HalfPageScrollUp,
    HalfPageScrollDown,
    ToggleFocusFullscreen,
    TogglePaneFrames,
    ToggleActiveSyncTab,
    NewPane(Option<Direction>, Option<Seq<char>>),
    EditFile(Seq<char>, Option<usize>, Option<Seq<char>>, Option<Direction>, bool),
    NewFloatingPane(Option<RunCommandActionView>, Option<Seq<char>>),
    NewTiledPane(Option<Direction>, Option<RunCommandActionView>, Option<Seq<char>>),
    TogglePaneEmbedOrFloating,
    ToggleFloatingPanes,
    CloseFocus,
    PaneNameInput(Seq<u8>),
    UndoRenamePane,
    NewTab(
        Option<TiledPaneLayoutView>,
        Seq<FloatingPaneLayoutView>,
        Option<Seq<SwapTiledLayoutView>>,
        Option<Seq<SwapFloatingLayoutView>>,
        Option<Seq<char>>,
    ),
    NoOp,
    GoToNextTab,
    GoToPreviousTab,
    CloseTab,
    GoToTab(u32),
    GoToTabName(Seq<char>, bool),
    ToggleTab,
    TabNameInput(Seq<u8>),
    UndoRenameTab,
    Run(RunCommandActionView),
    Detach,
    LeftClick(Position),
    RightClick(Position),
    MiddleClick(Position),
    LaunchOrFocusPlugin(RunPluginView, bool),
    LeftMouseRelease(Position),
    RightMouseRelease(Position),
    MiddleMouseRelease(Position),
    MouseHoldLeft(Position),
    MouseHoldRight(Position),
    MouseHoldMiddle(Position),
    Copy,
    Confirm,
    Deny,
    SkipConfirm(Box<ActionView>),
    SearchInput(Seq<u8>),
    Search(SearchDirection),
    SearchToggleOption(SearchOption),
    ToggleMouseMode,
    PreviousSwapLayout,
    NextSwapLayout,
    QueryTabNames,
    NewTiledPluginPane(RunPluginLocationView, Option<Seq<char>>),
    NewFloatingPluginPane(RunPluginLocationView, Option<Seq<char>>),
    StartOrReloadPlugin(RunPluginView),
}

impl Action {
    /// The value of the action.
    pub open spec fn model(self) -> ActionView
        decreases self,
    {
        match self {
            Action::Quit => ActionView::Quit,
            Action::Write(x0) => ActionView::Write(x0@),
            Action::WriteChars(x0) => ActionView::WriteChars(x0@),
            Action::SwitchToMode(x0) => ActionView::SwitchToMode(x0),
            Action::SwitchModeForAllClients(x0) => ActionView::SwitchModeForAllClients(x0),
            Action::Resize(x0, x1) => ActionView::Resize(x0, x1),
            Action::FocusNextPane => ActionView::FocusNextPane,
            Action::FocusPreviousPane => ActionView::FocusPreviousPane,
            Action::SwitchFocus => ActionView::SwitchFocus,
            Action::MoveFocus(x0) => ActionView::MoveFocus(x0),
            Action::MoveFocusOrTab(x0) => ActionView::MoveFocusOrTab(x0),
            Action::MovePane(x0) => ActionView::MovePane(x0),
            Action::MovePaneBackwards => ActionView::MovePaneBackwards,
            Action::ClearScreen => ActionView::ClearScreen,
            Action::DumpScreen(x0, x1) => ActionView::DumpScreen(x0@, x1),
            Action::EditScrollback => ActionView::EditScrollback,
            Action::ScrollUp => ActionView::ScrollUp,
            Action::ScrollUpAt(x0) => ActionView::ScrollUpAt(x0),
            Action::ScrollDown => ActionView::ScrollDown,
            Action::ScrollDownAt(x0) => ActionView::ScrollDownAt(x0),
            Action::ScrollToBottom => ActionView::ScrollToBottom,
            Action::ScrollToTop => ActionView::ScrollToTop,
            Action::PageScrollUp => ActionView::PageScrollUp,
            Action::PageScrollDown => ActionView::PageScrollDown,
            Action::HalfPageScrollUp => ActionView::HalfPageScrollUp,
            Action::HalfPageScrollDown => ActionView::HalfPageScrollDown,
            Action::ToggleFocusFullscreen => ActionView::ToggleFocusFullscreen,
            Action::TogglePaneFrames => ActionView::TogglePaneFrames,
            Action::ToggleActiveSyncTab => ActionView::ToggleActiveSyncTab,
            Action::NewPane(x0, x1) => ActionView::NewPane(x0, x1.deep_view()),
            Action::EditFile(x0, x1, x2, x3, x4) => ActionView::EditFile(
                x0@,
                x1,
                x2.deep_view(),
                x3,
                x4,
            ),
            Action::NewFloatingPane(x0, x1) => ActionView::NewFloatingPane(
                x0.deep_view(),
                x1.deep_view(),
            ),
            Action::NewTiledPane(x0, x1, x2) => ActionView::NewTiledPane(
                x0,
                x1.deep_view(),
                x2.deep_view(),
            ),
            Action::TogglePaneEmbedOrFloating => ActionView::TogglePaneEmbedOrFloating,
            Action::ToggleFloatingPanes => ActionView::ToggleFloatingPanes,
            Action::CloseFocus => ActionView::CloseFocus,
            Action::PaneNameInput(x0) => ActionView::PaneNameInput(x0@),
            Action::UndoRenamePane => ActionView::UndoRenamePane,
            Action::NewTab(x0, x1, x2, x3, x4) => ActionView::NewTab(
                x0.deep_view(),
                x1.deep_view(),
                x2.deep_view(),
                x3.deep_view(),
                x4.deep_view(),
            ),
            Action::NoOp => ActionView::NoOp,
            Action::GoToNextTab => ActionView::GoToNextTab,
            Action::GoToPreviousTab => ActionView::GoToPreviousTab,
            Action::CloseTab => ActionView::CloseTab,
            Action::GoToTab(x0) => ActionView::GoToTab(x0),
            Action::GoToTabName(x0, x1) => ActionView::GoToTabName(x0@, x1),
            Action::ToggleTab => ActionView::ToggleTab,
            Action::TabNameInput(x0) => ActionView::TabNameInput(x0@),
            Action::UndoRenameTab => ActionView::UndoRenameTab,
            Action::Run(x0) => ActionView::Run(x0@),
            Action::Detach => ActionView::Detach,
            Action::LeftClick(x0) => ActionView::LeftClick(x0),
            Action::RightClick(x0) => ActionView::RightClick(x0),
            Action::MiddleClick(x0) => ActionView::MiddleClick(x0),
            Action::LaunchOrFocusPlugin(x0, x1) => ActionView::LaunchOrFocusPlugin(x0@, x1),
            Action::LeftMouseRelease(x0) => ActionView::LeftMouseRelease(x0),
            Action::RightMouseRelease(x0) => ActionView::RightMouseRelease(x0),
            Action::MiddleMouseRelease(x0) => ActionView::MiddleMouseRelease(x0),
            Action::MouseHoldLeft(x0) => ActionView::MouseHoldLeft(x0),
            Action::MouseHoldRight(x0) => ActionView::MouseHoldRight(x0),
            Action::MouseHoldMiddle(x0) => ActionView::MouseHoldMiddle(x0),
            Action::Copy => ActionView::Copy,
            Action::Confirm => ActionView::Confirm,
            Action::Deny => ActionView::Deny,
            Action::SkipConfirm(x0) => ActionView::SkipConfirm(Box::new((*x0).model())),
            Action::SearchInput(x0) => ActionView::SearchInput(x0@),
            Action::Search(x0) => ActionView::Search(x0),
            Action::SearchToggleOption(x0) => ActionView::SearchToggleOption(x0),
            Action::ToggleMouseMode => ActionView::ToggleMouseMode,
            Action::PreviousSwapLayout => ActionView::PreviousSwapLayout,
            Action::NextSwapLayout => ActionView::NextSwapLayout,
            Action::QueryTabNames => ActionView::QueryTabNames,
            Action::NewTiledPluginPane(x0, x1) => ActionView::NewTiledPluginPane(
                x0@,
                x1.deep_view(),
            ),
            Action::NewFloatingPluginPane(x0, x1) => ActionView::NewFloatingPluginPane(
                x0@,
                x1.deep_view(),
            ),
            Action::StartOrReloadPlugin(x0) => ActionView::StartOrReloadPlugin(x0@),
        }
    }
}

impl View for Action {
    type V = ActionView;

    open spec fn view(&self) -> ActionView {
        self.model()
    }
}

impl DeepView for Action {
    type V = ActionView;

    open spec fn deep_view(&self) -> ActionView {
        self.model()
    }
}

impl PartialEq for Action {
    /// Two actions are equal when they are the same variant with equal
    /// payloads.
    fn eq(&self, other: &Action) -> (r: bool)
        decreases self,
    {
        match (self, other) {
            (Action::Quit, Action::Quit) => true,
            (Action::Write(a0), Action::Write(b0)) => bytes_eq(a0, b0),
            (Action::WriteChars(a0), Action::WriteChars(b0)) => *a0 == *b0,
            (Action::SwitchToMode(a0), Action::SwitchToMode(b0)) => *a0 == *b0,
            (Action::SwitchModeForAllClients(a0), Action::SwitchModeForAllClients(b0)) => {
                *a0 == *b0
            },
            (Action::Resize(a0, a1), Action::Resize(b0, b1)) => {
                *a0 == *b0
                    && *a1 == *b1
            },
            (Action::FocusNextPane, Action::FocusNextPane) => true,
            (Action::FocusPreviousPane, Action::FocusPreviousPane) => true,
            (Action::SwitchFocus, Action::SwitchFocus) => true,
            (Action::MoveFocus(a0), Action::MoveFocus(b0)) => *a0 == *b0,
            (Action::MoveFocusOrTab(a0), Action::MoveFocusOrTab(b0)) => *a0 == *b0,
            (Action::MovePane(a0), Action::MovePane(b0)) => *a0 == *b0,
            (Action::MovePaneBackwards, Action::MovePaneBackwards) => true,
            (Action::ClearScreen, Action::ClearScreen) => true,
            (Action::DumpScreen(a0, a1), Action::DumpScreen(b0, b1)) => {
                *a0 == *b0
                    && *a1 == *b1
            },
            (Action::EditScrollback, Action::EditScrollback) => true,
            (Action::ScrollUp, Action::ScrollUp) => true,
            (Action::ScrollUpAt(a0), Action::ScrollUpAt(b0)) => *a0 == *b0,
            (Action::ScrollDown, Action::ScrollDown) => true,
            (Action::ScrollDownAt(a0), Action::ScrollDownAt(b0)) => *a0 == *b0,
            (Action::ScrollToBottom, Action::ScrollToBottom) => true,
            (Action::ScrollToTop, Action::ScrollToTop) => true,
            (Action::PageScrollUp, Action::PageScrollUp) => true,
            (Action::PageScrollDown, Action::PageScrollDown) => true,
            (Action::HalfPageScrollUp, Action::HalfPageScrollUp) => true,
            (Action::HalfPageScrollDown, Action::HalfPageScrollDown) => true,
            (Action::ToggleFocusFullscreen, Action::ToggleFocusFullscreen) => true,
            (Action::TogglePaneFrames, Action::TogglePaneFrames) => true,
            (Action::ToggleActiveSyncTab, Action::ToggleActiveSyncTab) => true,
            (Action::NewPane(a0, a1), Action::NewPane(b0, b1)) => {
                *a0 == *b0
                    && opt_text_eq(a1, b1)
            },
            (Action::EditFile(a0, a1, a2, a3, a4), Action::EditFile(b0, b1, b2, b3, b4)) => {
                *a0 == *b0
                    && *a1 == *b1
                    && opt_text_eq(a2, b2)
                    && *a3 == *b3
                    && *a4 == *b4
            },
            (Action::NewFloatingPane(a0, a1), Action::NewFloatingPane(b0, b1)) => {
                opt_command_eq(a0, b0)
                    && opt_text_eq(a1, b1)
            },
            (Action::NewTiledPane(a0, a1, a2), Action::NewTiledPane(b0, b1, b2)) => {
                *a0 == *b0
                    && opt_command_eq(a1, b1)
                    && opt_text_eq(a2, b2)
            },
            (Action::TogglePaneEmbedOrFloating, Action::TogglePaneEmbedOrFloating) => true,
            (Action::ToggleFloatingPanes, Action::ToggleFloatingPanes) => true,
            (Action::CloseFocus, Action::CloseFocus) => true,
            (Action::PaneNameInput(a0), Action::PaneNameInput(b0)) => bytes_eq(a0, b0),
            (Action::UndoRenamePane, Action::UndoRenamePane) => true,
            (Action::NewTab(a0, a1, a2, a3, a4), Action::NewTab(b0, b1, b2, b3, b4)) => {
                opt_tiled_eq(a0, b0)
                    && floating_panes_eq(a1, b1)
                    && opt_swap_tiled_layouts_eq(a2, b2)
                    && opt_swap_floating_layouts_eq(a3, b3)
                    && opt_text_eq(a4, b4)
            },
            (Action::NoOp, Action::NoOp) => true,
            (Action::GoToNextTab, Action::GoToNextTab) => true,
            (Action::GoToPreviousTab, Action::GoToPreviousTab) => true,
            (Action::CloseTab, Action::CloseTab) => true,
            (Action::GoToTab(a0), Action::GoToTab(b0)) => *a0 == *b0,
            (Action::GoToTabName(a0, a1), Action::GoToTabName(b0, b1)) => {
                *a0 == *b0
                    && *a1 == *b1
            },
            (Action::ToggleTab, Action::ToggleTab) => true,
            (Action::TabNameInput(a0), Action::TabNameInput(b0)) => bytes_eq(a0, b0),
            (Action::UndoRenameTab, Action::UndoRenameTab) => true,
            (Action::Run(a0), Action::Run(b0)) => *a0 == *b0,
            (Action::Detach, Action::Detach) => true,
            (Action::LeftClick(a0), Action::LeftClick(b0)) => *a0 == *b0,
            (Action::RightClick(a0), Action::RightClick(b0)) => *a0 == *b0,
            (Action::MiddleClick(a0), Action::MiddleClick(b0)) => *a0 == *b0,
            (Action::LaunchOrFocusPlugin(a0, a1), Action::LaunchOrFocusPlugin(b0, b1)) => {
                *a0 == *b0
                    && *a1 == *b1
            },
            (Action::LeftMouseRelease(a0), Action::LeftMouseRelease(b0)) => *a0 == *b0,
            (Action::RightMouseRelease(a0), Action::RightMouseRelease(b0)) => *a0 == *b0,
            (Action::MiddleMouseRelease(a0), Action::MiddleMouseRelease(b0)) => *a0 == *b0,
            (Action::MouseHoldLeft(a0), Action::MouseHoldLeft(b0)) => *a0 == *b0,
            (Action::MouseHoldRight(a0), Action::MouseHoldRight(b0)) => *a0 == *b0,
            (Action::MouseHoldMiddle(a0), Action::MouseHoldMiddle(b0)) => *a0 == *b0,
            (Action::Copy, Action::Copy) => true,
            (Action::Confirm, Action::Confirm) => true,
            (Action::Deny, Action::Deny) => true,
            (Action::SkipConfirm(a0), Action::SkipConfirm(b0)) => (**a0).eq(&**b0),
            (Action::SearchInput(a0), Action::SearchInput(b0)) => bytes_eq(a0, b0),
            (Action::Search(a0), Action::Search(b0)) => *a0 == *b0,
            (Action::SearchToggleOption(a0), Action::SearchToggleOption(b0)) => *a0 == *b0,
            (Action::ToggleMouseMode, Action::ToggleMouseMode) => true,
            (Action::PreviousSwapLayout, Action::PreviousSwapLayout) => true,
            (Action::NextSwapLayout, Action::NextSwapLayout) => true,
            (Action::QueryTabNames, Action::QueryTabNames) => true,
            (Action::NewTiledPluginPane(a0, a1), Action::NewTiledPluginPane(b0, b1)) => {
                *a0 == *b0
                    && opt_text_eq(a1, b1)
            },
            (Action::NewFloatingPluginPane(a0, a1), Action::NewFloatingPluginPane(b0, b1)) => {
                *a0 == *b0
                    && opt_text_eq(a1, b1)
            },
            (Action::StartOrReloadPlugin(a0), Action::StartOrReloadPlugin(b0)) => *a0 == *b0,
            _ => false,
        }
    }
}

impl PartialEqSpecImpl for Action {
    open spec fn obeys_eq_spec() -> bool {
        true
    }

    open spec fn eq_spec(&self, other: &Action) -> bool {
        self@ == other@
    }
}

impl Eq for Action {}

impl Clone for Action {
    fn clone(&self) -> (r: Action)
        ensures
            r@ == self@,
        decreases self,
    {
        match self {
            Action::Quit => Action::Quit,
            Action::Write(x0) => Action::Write(x0.clone()),
            Action::WriteChars(x0) => Action::WriteChars(x0.clone()),
            Action::SwitchToMode(x0) => Action::SwitchToMode(*x0),
            Action::SwitchModeForAllClients(x0) => Action::SwitchModeForAllClients(*x0),
            Action::Resize(x0, x1) => Action::Resize(*x0, *x1),
            Action::FocusNextPane => Action::FocusNextPane,
            Action::FocusPreviousPane => Action::FocusPreviousPane,
            Action::SwitchFocus => Action::SwitchFocus,
            Action::MoveFocus(x0) => Action::MoveFocus(*x0),
            Action::MoveFocusOrTab(x0) => Action::MoveFocusOrTab(*x0),
            Action::MovePane(x0) => Action::MovePane(*x0),
            Action::MovePaneBackwards => Action::MovePaneBackwards,
            Action::ClearScreen => Action::ClearScreen,
            Action::DumpScreen(x0, x1) => Action::DumpScreen(x0.clone(), *x1),
            Action::EditScrollback => Action::EditScrollback,
            Action::ScrollUp => Action::ScrollUp,
            Action::ScrollUpAt(x0) => Action::ScrollUpAt(*x0),
            Action::ScrollDown => Action::ScrollDown,
            Action::ScrollDownAt(x0) => Action::ScrollDownAt(*x0),
            Action::ScrollToBottom => Action::ScrollToBottom,
            Action::ScrollToTop => Action::ScrollToTop,
            Action::PageScrollUp => Action::PageScrollUp,
            Action::PageScrollDown => Action::PageScrollDown,
            Action::HalfPageScrollUp => Action::HalfPageScrollUp,
            Action::HalfPageScrollDown => Action::HalfPageScrollDown,
            Action::ToggleFocusFullscreen => Action::ToggleFocusFullscreen,
            Action::TogglePaneFrames => Action::TogglePaneFrames,
            Action::ToggleActiveSyncTab => Action::ToggleActiveSyncTab,
            Action::NewPane(x0, x1) => Action::NewPane(*x0, x1.clone()),
            Action::EditFile(x0, x1, x2, x3, x4) => Action::EditFile(
                x0.clone(),
                *x1,
                x2.clone(),
                *x3,
                *x4,
            ),
            Action::NewFloatingPane(x0, x1) => Action::NewFloatingPane(
                clone_opt_command(x0),
                x1.clone(),
            ),
            Action::NewTiledPane(x0, x1, x2) => Action::NewTiledPane(
                *x0,
                clone_opt_command(x1),
                x2.clone(),
            ),
            Action::TogglePaneEmbedOrFloating => Action::TogglePaneEmbedOrFloating,
            Action::ToggleFloatingPanes => Action::ToggleFloatingPanes,
            Action::CloseFocus => Action::CloseFocus,
            Action::PaneNameInput(x0) => Action::PaneNameInput(x0.clone()),
            Action::UndoRenamePane => Action::UndoRenamePane,
            Action::NewTab(x0, x1, x2, x3, x4) => Action::NewTab(
                clone_opt_tiled(x0),
                clone_floating_panes(x1),
                clone_opt_swap_tiled_layouts(x2),
                clone_opt_swap_floating_layouts(x3),
                x4.clone(),
            ),
            Action::NoOp => Action::NoOp,
            Action::GoToNextTab => Action::GoToNextTab,
            Action::GoToPreviousTab => Action::GoToPreviousTab,
            Action::CloseTab => Action::CloseTab,
            Action::GoToTab(x0) => Action::GoToTab(*x0),
            Action::GoToTabName(x0, x1) => Action::GoToTabName(x0.clone(), *x1),
            Action::ToggleTab => Action::ToggleTab,
            Action::TabNameInput(x0) => Action::TabNameInput(x0.clone()),
            Action::UndoRenameTab => Action::UndoRenameTab,
            Action::Run(x0) => Action::Run(x0.clone()),
            Action::Detach => Action::Detach,
            Action::LeftClick(x0) => Action::LeftClick(*x0),
            Action::RightClick(x0) => Action::RightClick(*x0),
            Action::MiddleClick(x0) => Action::MiddleClick(*x0),
            Action::LaunchOrFocusPlugin(x0, x1) => Action::LaunchOrFocusPlugin(x0.clone(), *x1),
            Action::LeftMouseRelease(x0) => Action::LeftMouseRelease(*x0),
            Action::RightMouseRelease(x0) => Action::RightMouseRelease(*x0),
            Action::MiddleMouseRelease(x0) => Action::MiddleMouseRelease(*x0),
            Action::MouseHoldLeft(x0) => Action::MouseHoldLeft(*x0),
            Action::MouseHoldRight(x0) => Action::MouseHoldRight(*x0),
            Action::MouseHoldMiddle(x0) => Action::MouseHoldMiddle(*x0),
            Action::Copy => Action::Copy,
            Action::Confirm => Action::Confirm,
            Action::Deny => Action::Deny,
            Action::SkipConfirm(x0) => Action::SkipConfirm(Box::new((**x0).clone())),
            Action::SearchInput(x0) => Action::SearchInput(x0.clone()),
            Action::Search(x0) => Action::Search(*x0),
            Action::SearchToggleOption(x0) => Action::SearchToggleOption(*x0),
            Action::ToggleMouseMode => Action::ToggleMouseMode,
            Action::PreviousSwapLayout => Action::PreviousSwapLayout,
            Action::NextSwapLayout => Action::NextSwapLayout,
            Action::QueryTabNames => Action::QueryTabNames,
            Action::NewTiledPluginPane(x0, x1) => Action::NewTiledPluginPane(
                x0.clone(),
                x1.clone(),
            ),
            Action::NewFloatingPluginPane(x0, x1) => Action::NewFloatingPluginPane(
                x0.clone(),
                x1.clone(),
            ),
            Action::StartOrReloadPlugin(x0) => Action::StartOrReloadPlugin(x0.clone()),
        }
    }
}


impl Action {
    /// Whether two actions are the same but for what a new tab is to hold:
    /// any two requests for a new tab count as the same, and any other two
    /// actions do when they are equal.
    pub fn shallow_eq(&self, other_action: &Action) -> (r: bool)
        ensures
            r == ((self is NewTab && other_action is NewTab) || self@ == other_action@),
    {
        match (self, other_action) {
            (Action::NewTab(..), Action::NewTab(..)) => true,
            _ => *self == *other_action,
        }
    }
}

impl From<OnForceClose> for Action {
    /// The action taken when the terminal of the session goes away.
    fn from(ofc: OnForceClose) -> (r: Action) {
        match ofc {
            OnForceClose::Quit => Action::Quit,
            OnForceClose::Detach => Action::Detach,
        }
    }
}

impl FromSpecImpl<OnForceClose> for Action {
    open spec fn obeys_from_spec() -> bool {
        true
    }

    open spec fn from_spec(ofc: OnForceClose) -> Action {
        match ofc {
            OnForceClose::Quit => Action::Quit,
            OnForceClose::Detach => Action::Detach,
        }
    }
}

} // verus!
