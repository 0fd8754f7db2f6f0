use vstd::prelude::*;
use vstd::string::StringExecFns;

verus! {

/// A subcommand of the Windows input method switcher.
#[derive(Debug)]
pub enum Command {
    /// Activate the input method.
    Enable,
    /// Deactivate the input method.
    Disable,
    /// Get the current input method state ("on" or "off").
    Get,
}

/// Command-line arguments for the Windows input method switcher.
#[derive(Debug)]
pub struct Args {
    /// The subcommand to execute.
    pub command: Command,
}

/// Why a command line was rejected. Each kind makes the tool print usage or
/// help and exit non-zero, without touching the input-method control.
#[derive(Debug)]
pub enum ParseError {
    /// No subcommand was given; the tool prints its full help.
    MissingSubcommand,
    /// The first word is not a subcommand the tool knows; it is carried
    /// here.
    UnknownSubcommand(String),
    /// More arguments were given than the subcommand takes; the first extra
    /// one is carried here.
    UnexpectedArgument(String),
}

/// Whether `word` is one of the three Windows subcommands, and which.
pub open spec fn spec_command_of(word: Seq<char>) -> Option<Command> {
    if word == "enable"@ {
        Some(Command::Enable)
    } else if word == "disable"@ {
        Some(Command::Disable)
    } else if word == "get"@ {
        Some(Command::Get)
    } else {
        None
    }
}

/// Parses the process arguments, without the leading program name, into a
/// Windows command: exactly one of `enable`, `disable` or `get`, alone.
pub fn parse_args(args: &Vec<String>) -> (r: Result<Args, ParseError>)
    ensures
        args@.len() == 0 ==> r matches Err(ParseError::MissingSubcommand),
        args@.len() == 1 && spec_command_of(args.deep_view()[0]) is Some ==> (r matches Ok(a)
            && Some(a.command) == spec_command_of(args.deep_view()[0])),
        args@.len() >= 2 && spec_command_of(args.deep_view()[0]) is Some ==> (r matches Err(
            ParseError::UnexpectedArgument(s),
        ) && s@ == args.deep_view()[1]),
        args@.len() >= 1 && spec_command_of(args.deep_view()[0]) is None ==> (r matches Err(
            ParseError::UnknownSubcommand(s),
        ) && s@ == args.deep_view()[0]),
{
    if args.len() == 0 {
        return Err(ParseError::MissingSubcommand);
    }
    proof {
        assert(args.deep_view()[0] == args@[0]@);
    }
    let command: Option<Command> = if args[0] == String::from_str("enable") {
        Some(Command::Enable)
    } else if args[0] == String::from_str("disable") {
        Some(Command::Disable)
    } else if args[0] == String::from_str("get") {
        Some(Command::Get)
    } else {
        None
    };
    match command {
        None => Err(ParseError::UnknownSubcommand(args[0].clone())),
        Some(c) => {
            if args.len() == 1 {
                Ok(Args { command: c })
            } else {
                proof {
                    assert(args.deep_view()[1] == args@[1]@);
                }
                Err(ParseError::UnexpectedArgument(args[1].clone()))
            }
        },
    }
}

} // verus!
