//! The description of a command to run in a new terminal pane.

use crate::data::Direction;
use crate::text::{clone_texts, opt_text_eq, texts_eq};
use vstd::prelude::*;
use vstd::std_specs::cmp::PartialEqSpecImpl;

verus! {

/// A command line to start in a pane, with where and how to hold it.
#[derive(Debug)]
pub struct RunCommandAction {
    /// The executable.
    pub command: String,
    /// Its arguments, in order.
    pub args: Vec<String>,
    /// The directory it starts in.
    pub cwd: Option<String>,
    /// Where the pane opens, relative to the focused one.
    pub direction: Option<Direction>,
    /// Keep the pane open after the command exits.
    pub hold_on_close: bool,
    /// Wait for a key press before starting the command.
    pub hold_on_start: bool,
}

/// The mathematical value of a [`RunCommandAction`].
pub struct RunCommandActionView {
    pub command: Seq<char>,
    pub args: Seq<Seq<char>>,
    pub cwd: Option<Seq<char>>,
    pub direction: Option<Direction>,
    pub hold_on_close: bool,
    pub hold_on_start: bool,
}

impl View for RunCommandAction {
    type V = RunCommandActionView;

    open spec fn view(&self) -> RunCommandActionView {
        RunCommandActionView {
            command: self.command@,
            args: self.args.deep_view(),
            cwd: self.cwd.deep_view(),
            direction: self.direction,
            hold_on_close: self.hold_on_close,
            hold_on_start: self.hold_on_start,
        }
    }
}

impl DeepView for RunCommandAction {
    type V = RunCommandActionView;

    open spec fn deep_view(&self) -> RunCommandActionView {
        self@
    }
}

impl PartialEq for RunCommandAction {
    fn eq(&self, other: &RunCommandAction) -> (r: bool) {
        self.command == other.command && texts_eq(&self.args, &other.args) && opt_text_eq(
            &self.cwd,
            &other.cwd,
        ) && self.direction == other.direction && self.hold_on_close == other.hold_on_close
            && self.hold_on_start == other.hold_on_start
    }
}

impl PartialEqSpecImpl for RunCommandAction {
    open spec fn obeys_eq_spec() -> bool {
        true
    }

    open spec fn eq_spec(&self, other: &RunCommandAction) -> bool {
        self@ == other@
    }
}

impl Eq for RunCommandAction {}

impl Clone for RunCommandAction {
    fn clone(&self) -> (r: RunCommandAction)
        ensures
            r@ == self@,
    {
        RunCommandAction {
            command: self.command.clone(),
            args: clone_texts(&self.args),
            cwd: self.cwd.clone(),
            direction: self.direction,
            hold_on_close: self.hold_on_close,
            hold_on_start: self.hold_on_start,
        }
    }
}

/// Whether two optional commands are both absent or equal.
pub fn opt_command_eq(a: &Option<RunCommandAction>, b: &Option<RunCommandAction>) -> (r: bool)
    ensures
        r == (a.deep_view() == b.deep_view()),
{
    match (a, b) {
        (Some(x), Some(y)) => *x == *y,
        (None, None) => true,
        _ => false,
    }
}

/// A copy of an optional command.
pub fn clone_opt_command(a: &Option<RunCommandAction>) -> (r: Option<RunCommandAction>)
    ensures
        r.deep_view() == a.deep_view(),
{
    match a {
        Some(command) => Some(command.clone()),
        None => None,
    }
}

} // verus!
