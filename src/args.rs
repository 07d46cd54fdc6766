use vstd::prelude::*;

use crate::error::StellaError;
use crate::text::str_eq;

verus! {

/// The four verbs of the command line.
#[derive(Clone, Copy, Debug, PartialEq, Eq, Structural)]
pub enum Command {
    New,
    Tp,
    Build,
    Run,
}

/// The verb that a word names, if any.
pub open spec fn spec_command(word: Seq<char>) -> Option<Command> {
    if word == "new"@ {
        Some(Command::New)
    } else if word == "tp"@ {
        Some(Command::Tp)
    } else if word == "build"@ {
        Some(Command::Build)
    } else if word == "run"@ {
        Some(Command::Run)
    } else {
        None
    }
}

/// Reads a verb.
pub fn parse_command(word: &str) -> (r: Option<Command>)
    ensures
        r == spec_command(word@),
{
    if str_eq(word, "new") {
        Some(Command::New)
    } else if str_eq(word, "tp") {
        Some(Command::Tp)
    } else if str_eq(word, "build") {
        Some(Command::Build)
    } else if str_eq(word, "run") {
        Some(Command::Run)
    } else {
        None
    }
}

/// A validated command line: `stella <command> <path> [<target>]`.
#[derive(Clone, Debug, PartialEq, Eq)]
pub struct Args {
    pub command: Command,
    pub path: String,
    pub target: Option<String>,
}

/// The target's text, if there is one.
pub open spec fn target_view(t: Option<String>) -> Option<Seq<char>> {
    match t {
        Some(s) => Some(s@),
        None => None,
    }
}

/// Whether the raw argument list (program name first) is well formed: 3 or 4
/// words, the second a known verb.
pub open spec fn well_formed_command_line(raw: Seq<Seq<char>>) -> bool {
    &&& (raw.len() == 3 || raw.len() == 4)
    &&& spec_command(raw[1]) is Some
}

/// What a well-formed command line says.
pub open spec fn spec_invocation(raw: Seq<Seq<char>>) -> (Command, Seq<char>, Option<Seq<char>>) {
    (
        spec_command(raw[1])->Some_0,
        raw[2],
        if raw.len() == 4 { Some(raw[3]) } else { None },
    )
}

/// The views of a list of strings.
pub open spec fn words(v: Seq<String>) -> Seq<Seq<char>> {
    v.map_values(|s: String| s@)
}

impl Args {
    /// The parts of this invocation, as plain values.
    pub open spec fn spec_parts(&self) -> (Command, Seq<char>, Option<Seq<char>>) {
        (self.command, self.path@, target_view(self.target))
    }

    /// Parses the raw argument list, program name first.
    pub fn new(args: Vec<String>) -> (r: Result<Args, StellaError>)
        ensures
            args@.len() != 3 && args@.len() != 4 ==> r == Err::<Args, StellaError>(
                StellaError::InvalidArgumentCount,
            ),
            (args@.len() == 3 || args@.len() == 4) && spec_command(args@[1]@) is None ==> r
                == Err::<Args, StellaError>(StellaError::UnknownCommand),
            well_formed_command_line(words(args@)) <==> r is Ok,
            r is Ok ==> r->Ok_0.spec_parts() == spec_invocation(words(args@)),
    {
        let ghost w = words(args@);
        if args.len() != 3 && args.len() != 4 {
            return Err(StellaError::InvalidArgumentCount);
        }
        assert(w[1] == args@[1]@ && w[2] == args@[2]@);
        let command = match parse_command(args[1].as_str()) {
            Some(c) => c,
            None => {
                return Err(StellaError::UnknownCommand);
            },
        };
        let path = args[2].clone();
        let target = if args.len() == 4 {
            assert(w[3] == args@[3]@);
            Some(args[3].clone())
        } else {
            None
        };
        Ok(Args { command, path, target })
    }
}

} // verus!
