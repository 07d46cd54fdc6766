use vstd::prelude::*;

use crate::args::{Args, Command};
use crate::error::StellaError;
use crate::error_parser::parse_error;
use crate::scaffold::tp_dir;
use crate::text::{is_first_line, join, join_path};

verus! {

/// The `tp` directory of the project `<cwd>/<path>`, where the compiler runs.
pub fn project_tp_dir(cwd: &str, path: &str) -> (r: String)
    ensures
        r@ == tp_dir(join(cwd@, path@)),
{
    let root = join_path(cwd, path);
    join_path(root.as_str(), "tp")
}

/// Whether `build` may run the compiler: the verb must be `build` and the
/// project's `tp` directory must exist. On success, whether to warn of a
/// target, which `build` does not use.
pub open spec fn build_outcome(args: Args, tp_dir_exists: bool) -> Result<bool, StellaError> {
    if args.command != Command::Build {
        Err(StellaError::InvalidArgumentShape)
    } else if !tp_dir_exists {
        Err(StellaError::DirectoryNotFound)
    } else {
        Ok(args.target is Some)
    }
}

/// Decides whether the compiler is run; `tp_dir_exists` says whether the
/// project's `tp` directory is there. A target is only worth a warning.
pub fn build(args: &Args, tp_dir_exists: bool) -> (r: Result<bool, StellaError>)
    ensures
        r == build_outcome(*args, tp_dir_exists),
{
    if args.command != Command::Build {
        return Err(StellaError::InvalidArgumentShape);
    }
    if !tp_dir_exists {
        return Err(StellaError::DirectoryNotFound);
    }
    Ok(args.target.is_some())
}

/// Reads the compiler's error stream: silence there is success, whatever the
/// exit status; anything else fails with its first line.
pub fn go_build(stderr: String) -> (r: Result<String, StellaError>)
    ensures
        stderr@.len() == 0 <==> r is Ok,
        r is Ok ==> r->Ok_0@ == "build successful"@,
        r is Err ==> r->Err_0 is CompileError && is_first_line(stderr@, r->Err_0->CompileError_0@)
            && r->Err_0->CompileError_1@ == stderr@,
{
    if stderr.as_str().is_empty() {
        return Ok(String::from_str("build successful"));
    }
    let stream = stderr.clone();
    match parse_error(stderr) {
        Ok(diagnostic) => Err(StellaError::CompileError(diagnostic, stream)),
        Err(e) => Err(e),
    }
}

} // verus!
