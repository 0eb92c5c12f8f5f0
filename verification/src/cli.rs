//! The command line: one command, `add <ZONE> <TRACKING>`, which checks a
//! tracking code in to a zone.

use crate::zone::Zone;
use vstd::prelude::*;
use vstd::string::StringExecFns;

verus! {

/// The word of the one command.
pub const ADD: &'static str = "add";

/// The tracking code that `add` checks in when none is given.
pub const DEFAULT_TRACKING: &'static str = "TEST123";

/// What is printed after a check-in.
pub const SUCCESS: &'static str = "OK";

/// What is printed for any other command line.
pub const USAGE: &'static str = "usage: hermes-cli add <ZONE> <TRACKING>";

/// What a command line asks for.
#[derive(Debug)]
pub enum Command {
    /// Check `tracking` in to `zone`.
    Add { zone: Zone, tracking: String },
    /// `add` with a text that names no zone; `message` says which.
    BadZone { message: String },
    /// Anything else: print the usage line.
    Usage,
}

/// `Command` as plain mathematics.
pub enum CommandView {
    Add { zone: Zone, tracking: Seq<char> },
    BadZone { message: Seq<char> },
    Usage,
}

impl View for Command {
    type V = CommandView;

    open spec fn view(&self) -> CommandView {
        match *self {
            Command::Add { zone, tracking } => CommandView::Add { zone, tracking: tracking@ },
            Command::BadZone { message } => CommandView::BadZone { message: message@ },
            Command::Usage => CommandView::Usage,
        }
    }
}

/// What the command line `args` asks for. `args[0]` is the name of the
/// program. With `add` in second place and a zone in third, the fourth
/// argument is the tracking code, and `DEFAULT_TRACKING` stands in where
/// there is no fourth.
pub open spec fn command(args: Seq<Seq<char>>) -> CommandView {
    if args.len() >= 3 && args[1] == ADD@ {
        match Zone::parse(args[2]) {
            Some(zone) => CommandView::Add {
                zone,
                tracking: if args.len() >= 4 {
                    args[3]
                } else {
                    DEFAULT_TRACKING@
                },
            },
            None => CommandView::BadZone { message: Zone::unknown(args[2]) },
        }
    } else {
        CommandView::Usage
    }
}

/// The texts of the arguments.
pub open spec fn texts(args: Seq<String>) -> Seq<Seq<char>> {
    args.map_values(|s: String| s@)
}

/// Reads the command line.
pub fn parse_args(args: &Vec<String>) -> (cmd: Command)
    ensures
        cmd@ == command(texts(args@)),
{
    if args.len() >= 3 && args[1] == String::from_str(ADD) {
        match Zone::try_from(args[2].as_str()) {
            Ok(zone) => {
                let tracking = if args.len() >= 4 {
                    args[3].clone()
                } else {
                    String::from_str(DEFAULT_TRACKING)
                };
                Command::Add { zone, tracking }
            },
            Err(message) => Command::BadZone { message },
        }
    } else {
        Command::Usage
    }
}

} // verus!
