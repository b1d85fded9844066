use vstd::prelude::*;

verus! {

/// What the program is asked to do.
#[derive(Clone, Copy, Debug, PartialEq, Eq, Structural)]
pub enum Command {
    /// Run the schema migrations.
    Migrate,
    /// Start the bot.
    Start,
}

/// The parsed command line: the command to run and the path to the
/// configuration file. Argument parsing itself lives with the program's
/// entry point; this is the plain value it hands over.
pub struct Arguments {
    pub command: Command,
    pub config: String,
}

impl Arguments {
    pub fn new(command: Command, config: String) -> (r: Arguments)
        ensures
            r.command == command,
            r.config@ == config@,
    {
        Arguments { command, config }
    }
}

} // verus!
