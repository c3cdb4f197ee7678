//! Command line of the single-command inspection tool.

use vstd::prelude::*;

verus! {

/// Arguments of the inspection tool.
#[derive(Clone, Debug)]
pub struct Cli {
    /// Target server: a URL (http/https) or a command and its arguments.
    pub target: Vec<String>,
    /// Bearer token for remote servers.
    pub auth: Option<String>,
    /// What to list.
    pub command: Command,
}

/// What the inspection tool lists.
#[derive(Clone, Copy, Debug, PartialEq, Eq, Structural)]
pub enum Command {
    /// The server's tools.
    Tool,
    /// The server's prompts.
    Prompt,
    /// The server's resources.
    Resource,
    /// Registry metadata generated from the live server.
    Meta,
}

} // verus!
