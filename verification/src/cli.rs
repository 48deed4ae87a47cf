//! The command surface of the program around this library.
//!
//! The binary parses its arguments into these types; the parsing itself and
//! the dispatch are I/O plumbing that lives outside the library.

use vstd::prelude::*;

verus! {

/// Check that the settings are valid.
#[derive(Debug, PartialEq, Eq, Clone, Copy)]
pub struct Check {}

/// Start the web server.
#[derive(Debug, PartialEq, Eq, Clone, Copy)]
pub struct Server {}

/// What the program was asked to do.
#[derive(Debug, PartialEq, Eq, Clone, Copy)]
pub enum Command {
    Check(Check),
    Server(Server),
}

/// The parsed command line.
#[derive(Debug, PartialEq, Eq, Clone, Copy)]
pub struct Cli {
    pub command: Command,
}

} // verus!
