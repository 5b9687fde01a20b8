//! Decision logic of a command line client for the Apache Hive metastore.
//!
//! The crate turns a parsed command line into the metastore calls it needs,
//! decides what to do with every answer, and frames the document that is
//! finally printed.  Talking to the network, the terminal, the clock and the
//! file system is left to the program that drives [`cli::Cli::run`].

use vstd::prelude::*;

pub mod cli;
pub mod error;
pub mod metastore;
pub mod render;
pub mod cmds;
pub mod laws;

verus! {

/// A greeting from the authors.
pub const GREETING: &'static str = "together, forever";

} // verus!
