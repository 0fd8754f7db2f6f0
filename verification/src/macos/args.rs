use vstd::prelude::*;
use vstd::string::StringExecFns;

verus! {

/// A subcommand of the macOS input method switcher.
#[derive(Debug)]
pub enum Command {
    /// Get the current input method.
    Get,
    /// Set the input method to the identifier carried here. The identifier
    /// is arbitrary text; whether it names an available input source is
    /// checked later by the input-method control, not at parse time.
    SetMethod { input_method: String },
}

/// Command-line arguments for the macOS input method switcher.
#[derive(Debug)]
pub struct Args {
    /// The subcommand to execute.
    pub command: Command,
}

/// Why a command line was rejected. Each kind makes the tool print usage or
/// help and exit non-zero, without touching the input-method control.
#[derive(Debug)]
pub enum ParseError {
    /// No subcommand was given; the tool prints its full help.
    MissingSubcommand,
    /// The first word is not a subcommand the tool knows; it is carried
    /// here.
    UnknownSubcommand(String),
    /// The subcommand requires a positional argument that was not given.
    MissingArgument,
    /// More arguments were given than the subcommand takes; the first extra
    /// one is carried here.
    UnexpectedArgument(String),
}

/// Parses the process arguments, without the leading program name, into a
/// macOS command: `get` alone, or `set` with exactly one identifier.
pub fn parse_args(args: &Vec<String>) -> (r: Result<Args, ParseError>)
    ensures
        args@.len() == 0 ==> r matches Err(ParseError::MissingSubcommand),
        args@.len() == 1 && args.deep_view()[0] == "get"@ ==> (r matches Ok(a) && a.command
            is Get),
        args@.len() >= 2 && args.deep_view()[0] == "get"@ ==> (r matches Err(
            ParseError::UnexpectedArgument(s),
        ) && s@ == args.deep_view()[1]),
        args@.len() == 1 && args.deep_view()[0] == "set"@ ==> r matches Err(
            ParseError::MissingArgument,
        ),
        args@.len() == 2 && args.deep_view()[0] == "set"@ ==> (r matches Ok(a) && (a.command
            matches Command::SetMethod { input_method } && input_method@ == args.deep_view()[1])),
        args@.len() >= 3 && args.deep_view()[0] == "set"@ ==> (r matches Err(
            ParseError::UnexpectedArgument(s),
        ) && s@ == args.deep_view()[2]),
        args@.len() >= 1 && args.deep_view()[0] != "get"@ && args.deep_view()[0] != "set"@ ==> (
        r matches Err(ParseError::UnknownSubcommand(s)) && s@ == args.deep_view()[0]),
{
    if args.len() == 0 {
        return Err(ParseError::MissingSubcommand);
    }
    proof {
        assert(args.deep_view()[0] == args@[0]@);
        reveal_strlit("get");
        reveal_strlit("set");
        assert("get"@ != "set"@) by {
            assert("get"@[0] == 'g');
            assert("set"@[0] == 's');
        }
    }
    if args[0] == String::from_str("get") {
        if args.len() == 1 {
            Ok(Args { command: Command::Get })
        } else {
            proof {
                assert(args.deep_view()[1] == args@[1]@);
            }
            Err(ParseError::UnexpectedArgument(args[1].clone()))
        }
    } else if args[0] == String::from_str("set") {
        if args.len() == 1 {
            Err(ParseError::MissingArgument)
        } else if args.len() == 2 {
            proof {
                assert(args.deep_view()[1] == args@[1]@);
            }
            Ok(Args { command: Command::SetMethod { input_method: args[1].clone() } })
        } else {
            proof {
                assert(args.deep_view()[2] == args@[2]@);
            }
            Err(ParseError::UnexpectedArgument(args[2].clone()))
        }
    } else {
        Err(ParseError::UnknownSubcommand(args[0].clone()))
    }
}

} // verus!
