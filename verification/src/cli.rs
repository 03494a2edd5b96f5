//! What the command line asks for, once it is parsed.

use vstd::prelude::*;

verus! {

/// A parsed command line.
#[derive(Debug, PartialEq, Eq)]
pub struct Cli {
    /// Whether to say more about what is going on.
    pub verbose: bool,
    /// What to do.
    pub command: Commands,
}

/// The three things the program can do.
#[derive(Debug, PartialEq, Eq)]
pub enum Commands {
    /// Show a file on the terminal.
    View {
        file_name: String,
        /// Number the lines and leave the colours out.
        plain: bool,
    },
    /// Share a file with viewers.
    Share {
        file_name: String,
        local_only: Option<bool>,
    },
    /// Follow a file that someone else shares.
    Connect {
        url: String,
    },
}

} // verus!
