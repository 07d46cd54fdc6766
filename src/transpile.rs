use vstd::prelude::*;

use crate::args::{target_view, Args, Command};
use crate::disk::{plan_view, run_plan, Disk, Effect, FsOp};
use crate::error::StellaError;
use crate::error_parser::parse_error;
use crate::materialize::lemma_materialize_idempotent;
use crate::text::{is_first_line, join, join_path};

verus! {

/// What an external tool wrote on its two streams, decoded as text.
#[derive(Clone, Debug, PartialEq, Eq)]
pub struct ToolOutput {
    pub stdout: String,
    pub stderr: String,
}

/// Whether the arguments have the shape of `tp`: the verb and a target.
pub open spec fn tp_shape(args: Args) -> bool {
    args.command == Command::Tp && args.target is Some
}

/// The plan of a successful `tp`: the transpiled text materialized at the target.
pub open spec fn tp_plan(target: Seq<char>, text: Seq<char>) -> Seq<Effect> {
    seq![Effect::Materialize(target, text)]
}

/// Reads the transpiler's streams: text on standard output is the program;
/// else the first line of the error stream is the diagnostic; a tool that
/// wrote nothing at all broke its contract.
pub fn transpile(output: ToolOutput) -> (r: Result<String, StellaError>)
    ensures
        output.stdout@.len() > 0 ==> r is Ok && r->Ok_0@ == output.stdout@,
        output.stdout@.len() == 0 && output.stderr@.len() > 0 ==> r is Err && r->Err_0 is TranspileError
            && is_first_line(output.stderr@, r->Err_0->TranspileError_0@)
            && r->Err_0->TranspileError_1@ == output.stderr@,
        output.stdout@.len() == 0 && output.stderr@.len() == 0 ==> r == Err::<String, StellaError>(
            StellaError::ToolProtocolViolation,
        ),
{
    if !output.stdout.as_str().is_empty() {
        return Ok(output.stdout);
    }
    if output.stderr.as_str().is_empty() {
        return Err(StellaError::ToolProtocolViolation);
    }
    let stream = output.stderr.clone();
    match parse_error(output.stderr) {
        Ok(diagnostic) => Err(StellaError::TranspileError(diagnostic, stream)),
        Err(e) => Err(e),
    }
}

/// The absolute path of the source file that the transpiler is handed:
/// `<cwd>/<path>`.
pub fn transpiler_input(cwd: &str, args: &Args) -> (r: Result<String, StellaError>)
    ensures
        tp_shape(*args) <==> r is Ok,
        !tp_shape(*args) ==> r == Err::<String, StellaError>(StellaError::InvalidArgumentShape),
        r is Ok ==> r->Ok_0@ == join(cwd@, args.path@),
{
    if args.command != Command::Tp || args.target.is_none() {
        return Err(StellaError::InvalidArgumentShape);
    }
    Ok(join_path(cwd, args.path.as_str()))
}

/// The plan of `tp` once the transpiler has run: nothing is written unless it
/// produced a program, which then replaces the file at `<cwd>/<target>`.
pub fn tp(cwd: &str, args: &Args, output: ToolOutput) -> (r: Result<Vec<FsOp>, StellaError>)
    ensures
        !tp_shape(*args) ==> r == Err::<Vec<FsOp>, StellaError>(StellaError::InvalidArgumentShape),
        tp_shape(*args) && output.stdout@.len() > 0 ==> r is Ok && plan_view(r->Ok_0@) == tp_plan(
            join(cwd@, target_view(args.target)->Some_0),
            output.stdout@,
        ),
        tp_shape(*args) && output.stdout@.len() == 0 && output.stderr@.len() > 0 ==> r is Err
            && r->Err_0 is TranspileError && is_first_line(
            output.stderr@,
            r->Err_0->TranspileError_0@,
        ) && r->Err_0->TranspileError_1@ == output.stderr@,
        tp_shape(*args) && output.stdout@.len() == 0 && output.stderr@.len() == 0 ==> r == Err::<
            Vec<FsOp>,
            StellaError,
        >(StellaError::ToolProtocolViolation),
{
    let target = match &args.target {
        Some(t) => t,
        None => {
            return Err(StellaError::InvalidArgumentShape);
        },
    };
    if args.command != Command::Tp {
        return Err(StellaError::InvalidArgumentShape);
    }
    let text = match transpile(output) {
        Ok(text) => text,
        Err(e) => {
            return Err(e);
        },
    };
    let r = vec![FsOp::Materialize(join_path(cwd, target.as_str()), text)];
    assert(plan_view(r@) =~= tp_plan(join(cwd@, target@), output.stdout@));
    Ok(r)
}

/// Running the plan of `tp` a second time on the same transpiled text leaves
/// the disk, and so the target's content, exactly as the first run left it.
pub proof fn lemma_transpile_idempotent(d: Disk, target: Seq<char>, text: Seq<char>)
    ensures
        run_plan(run_plan(d, tp_plan(target, text)).0, tp_plan(target, text)) == run_plan(
            d,
            tp_plan(target, text),
        ),
{
    reveal_with_fuel(run_plan, 2);
    let plan = tp_plan(target, text);
    assert(plan.drop_first() =~= Seq::<Effect>::empty());
    lemma_materialize_idempotent(d, target, text);
}

} // verus!
