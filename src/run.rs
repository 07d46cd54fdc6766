use vstd::prelude::*;

use crate::args::{Args, Command};
use crate::compile::project_tp_dir;
use crate::error::StellaError;
use crate::scaffold::tp_dir;
use crate::text::{join, join_path};
use crate::transpile::ToolOutput;

verus! {

/// The name of a module's executable: `.exe` is added on Windows.
pub open spec fn exe_name(module_name: Seq<char>, windows: bool) -> Seq<char> {
    if windows {
        module_name + ".exe"@
    } else {
        module_name
    }
}

/// Where the executable of the project `<cwd>/<path>` stands.
pub open spec fn exe_path(cwd: Seq<char>, path: Seq<char>, windows: bool) -> Seq<char> {
    join(tp_dir(join(cwd, path)), exe_name(path, windows))
}

/// The path of the executable that `build` leaves for the project `path`.
pub fn executable_path(cwd: &str, path: &str, windows: bool) -> (r: String)
    ensures
        r@ == exe_path(cwd@, path@, windows),
{
    let tp = project_tp_dir(cwd, path);
    if windows {
        let mut name = String::from_str(path);
        name.append(".exe");
        join_path(tp.as_str(), name.as_str())
    } else {
        join_path(tp.as_str(), path)
    }
}

/// The message of a run that found no executable for `module_name`.
pub open spec fn not_found_text(module_name: Seq<char>) -> Seq<char> {
    "found no executable file in module "@ + module_name
        + ". Try generating an executable with the stella build "@ + module_name + " command"@
}

/// Tells the user that `module_name` has no executable and that `build` makes one.
pub fn not_found_message(module_name: &str) -> (r: String)
    ensures
        r@ == not_found_text(module_name@),
{
    let mut r = String::from_str("found no executable file in module ");
    r.append(module_name);
    r.append(". Try generating an executable with the stella build ");
    r.append(module_name);
    r.append(" command");
    assert(r@ =~= not_found_text(module_name@));
    r
}

/// Whether `run` executes anything: only with the verb `run`, no target, and
/// an executable in place.
pub open spec fn run_outcome(args: Args, exe_exists: bool) -> Result<(), StellaError> {
    if args.command != Command::Run || args.target is Some {
        Err(StellaError::InvalidArgumentShape)
    } else if !exe_exists {
        Err(StellaError::ExecutableNotFound)
    } else {
        Ok(())
    }
}

/// What a run yields from the executable's streams.
pub open spec fn run_output(stdout: Seq<char>, stderr: Seq<char>) -> Result<Seq<char>, StellaError> {
    if stderr.len() == 0 {
        Ok(stdout)
    } else {
        Err(StellaError::ExecutableNotFound)
    }
}

/// Decides whether the executable is run; `exe_exists` says whether a file
/// stands at its path. A missing one asks for `build` first.
pub fn run(args: &Args, exe_exists: bool) -> (r: Result<(), StellaError>)
    ensures
        r == run_outcome(*args, exe_exists),
{
    if args.command != Command::Run || args.target.is_some() {
        return Err(StellaError::InvalidArgumentShape);
    }
    if !exe_exists {
        return Err(StellaError::ExecutableNotFound);
    }
    Ok(())
}

/// Reads the executable's streams: its standard output, unchanged, when its
/// error stream is empty; otherwise the run counts as finding no executable.
pub fn go_run(output: ToolOutput) -> (r: Result<String, StellaError>)
    ensures
        match r {
            Ok(s) => run_output(output.stdout@, output.stderr@) == Ok::<Seq<char>, StellaError>(s@),
            Err(e) => run_output(output.stdout@, output.stderr@) == Err::<Seq<char>, StellaError>(e),
        },
{
    if output.stderr.as_str().is_empty() {
        Ok(output.stdout)
    } else {
        Err(StellaError::ExecutableNotFound)
    }
}

} // verus!
