//! The command line of the program.
use vstd::prelude::*;

use vstd::string::StringExecFns;

verus! {

/// What the program is asked to do.
#[derive(Clone, Copy, Debug, PartialEq, Eq)]
pub enum Command {
    /// Prompt for a configuration and print it.
    INIT,
    /// Run the router with the configuration found on disk.
    RUN,
}

/// The message that explains how to call the program.
pub open spec fn usage() -> Seq<char> {
    "Usage: ./midi-hub [init|run]"@
}

/// The command that the arguments `args` (the program's name first) ask for: exactly one
/// argument, `init` or `run`.
pub fn get_command(args: &Vec<String>) -> (r: Result<Command, String>)
    ensures
        args@.len() == 2 && args@[1]@ == "init"@ ==> r == Ok::<Command, String>(Command::INIT),
        args@.len() == 2 && args@[1]@ == "run"@ ==> r == Ok::<Command, String>(Command::RUN),
        !(args@.len() == 2 && (args@[1]@ == "init"@ || args@[1]@ == "run"@)) ==> (r matches Err(
            message,
        ) && message@ == usage()),
{
    proof {
        reveal_strlit("init");
        reveal_strlit("run");
        assert("init"@[0] != "run"@[0]);
    }
    if args.len() == 2 {
        if args[1] == String::from_str("init") {
            return Ok(Command::INIT);
        }
        if args[1] == String::from_str("run") {
            return Ok(Command::RUN);
        }
    }
    Err(String::from_str("Usage: ./midi-hub [init|run]"))
}

} // verus!
