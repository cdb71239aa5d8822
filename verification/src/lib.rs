//! The action vocabulary of a terminal workspace and the resolver that turns
//! one command given on the command line into the actions that carry it out.
//!
//! Every input source of the workspace (key bindings, scripted commands,
//! plugins) speaks in [`actions::Action`] values. Contracts are stated over the
//! mathematical views of these values: text is a `Seq<char>`, bytes are a
//! `Seq<u8>`, lists are sequences of views.

pub mod actions;
pub mod cli;
pub mod command;
pub mod config;
pub mod data;
pub mod layout;
pub mod paths;
pub mod plugin;
pub mod resolve;
pub mod text;
