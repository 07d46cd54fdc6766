use vstd::prelude::*;

use crate::args::{spec_invocation, well_formed_command_line, Args, Command};

verus! {

/// The stage that carries out an invocation.
#[derive(Clone, Copy, Debug, PartialEq, Eq, Structural)]
pub enum Stage {
    Scaffold,
    Transpile,
    Build,
    Run,
}

/// The stage for each verb.
pub open spec fn stage_of(c: Command) -> Stage {
    match c {
        Command::New => Stage::Scaffold,
        Command::Tp => Stage::Transpile,
        Command::Build => Stage::Build,
        Command::Run => Stage::Run,
    }
}

/// Routes a validated invocation to its stage.
pub fn dispatch(args: &Args) -> (r: Stage)
    ensures
        r == stage_of(args.command),
{
    match args.command {
        Command::New => Stage::Scaffold,
        Command::Tp => Stage::Transpile,
        Command::Build => Stage::Build,
        Command::Run => Stage::Run,
    }
}

/// Every well-formed command line is routed, and to exactly one stage: the
/// one its verb names.
pub proof fn lemma_routing_total(raw: Seq<Seq<char>>)
    requires
        well_formed_command_line(raw),
    ensures
        (stage_of(spec_invocation(raw).0) == Stage::Scaffold) == (raw[1] == "new"@),
        (stage_of(spec_invocation(raw).0) == Stage::Transpile) == (raw[1] == "tp"@),
        (stage_of(spec_invocation(raw).0) == Stage::Build) == (raw[1] == "build"@),
        (stage_of(spec_invocation(raw).0) == Stage::Run) == (raw[1] == "run"@),
{
    reveal_strlit("new");
    reveal_strlit("tp");
    reveal_strlit("build");
    reveal_strlit("run");
    assert("new"@.len() == 3 && "tp"@.len() == 2 && "build"@.len() == 5 && "run"@.len() == 3);
    assert("new"@[0] != "run"@[0]);
}

} // verus!
