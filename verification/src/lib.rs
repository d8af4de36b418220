pub mod json;
pub mod schema;
pub mod infer;
pub mod document;
pub mod url;

use vstd::prelude::*;

verus! {

/// The subcommand of the tool: insert into the document named by
/// `target`.
pub struct Insert {
    pub target: String,
}

/// The command-line surface: one subcommand and a verbosity switch.
pub struct Cli {
    pub command: Command,
    pub verbose: bool,
}

/// The commands the tool offers.
pub enum Command {
    Insert(Insert),
}

} // verus!

