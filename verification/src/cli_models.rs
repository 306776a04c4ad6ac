//! The command surface: which command was asked for and with what
//! arguments. Argument parsing itself belongs to the surrounding
//! application; these are the parsed values the analysis runs on.

use vstd::prelude::*;

verus! {

/// The parsed command line.
#[derive(Debug, Clone, PartialEq, Eq)]
pub struct Cli {
    pub config_file_path: String,
    pub command: Commands,
}

/// The commands the program offers.
#[derive(Debug, Clone, PartialEq, Eq)]
pub enum Commands {
    /// Analyze chats.
    Analyze(Analyze),
    /// Join a chat.
    Join(Join),
    /// Delete a chat.
    Delete(Delete),
}

/// The two independent scope flags of an analysis run. Either, both,
/// or neither may be set; neither set yields an empty result with no
/// error.
#[derive(Debug, Clone, Copy, PartialEq, Eq)]
pub struct Analyze {
    /// Analyze joined chats.
    pub joined: bool,
    /// Analyze left chats.
    pub left: bool,
}

/// Target of a join request.
#[derive(Debug, Clone, Copy, PartialEq, Eq)]
pub struct Join {
    /// Channel or supergroup identifier to join.
    pub id: i64,
    /// Its access hash, required in most cases.
    pub access_hash: Option<i64>,
}

/// Target of a delete request.
#[derive(Debug, Clone, Copy, PartialEq, Eq)]
pub struct Delete {
    /// Channel or supergroup identifier to delete.
    pub id: i64,
    /// Its access hash, required in most cases.
    pub access_hash: Option<i64>,
}

} // verus!
