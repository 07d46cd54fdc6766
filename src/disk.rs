use vstd::prelude::*;

use crate::error::StellaError;

verus! {

/// What stands at a path of the disk.
pub enum Node {
    Dir,
    File(Seq<char>),
}

/// The disk as the pipeline sees it: absolute paths to what stands there.
/// Paths are compared as text; a path's parent directories are not tracked.
pub type Disk = Map<Seq<char>, Node>;

/// A primitive step on a single file.
#[derive(Clone, Debug, PartialEq, Eq)]
pub enum FileStep {
    /// Delete the file at the path.
    Remove(String),
    /// Create (or truncate) the file at the path, then write the content.
    Write(String, String),
}

/// One operation of a stage's plan, with the failure it reports.
#[derive(Clone, Debug, PartialEq, Eq)]
pub enum FsOp {
    /// Create the project's own directory; fails with `ProjectAlreadyExists`.
    CreateProjectDir(String),
    /// Create a directory inside a fresh project; fails with `DirectoryConflict`.
    CreateDir(String),
    /// Give the file at the path exactly this content (path, content).
    Materialize(String, String),
}

/// An operation of a plan, as plain values.
pub enum Effect {
    CreateProjectDir(Seq<char>),
    CreateDir(Seq<char>),
    Materialize(Seq<char>, Seq<char>),
}

impl View for FsOp {
    type V = Effect;

    open spec fn view(&self) -> Effect {
        match self {
            FsOp::CreateProjectDir(p) => Effect::CreateProjectDir(p@),
            FsOp::CreateDir(p) => Effect::CreateDir(p@),
            FsOp::Materialize(p, c) => Effect::Materialize(p@, c@),
        }
    }
}

/// The effects of a list of operations.
pub open spec fn plan_view(ops: Seq<FsOp>) -> Seq<Effect> {
    ops.map_values(|o: FsOp| o@)
}

/// Whether a directory stands at `p`.
pub open spec fn is_dir(d: Disk, p: Seq<char>) -> bool {
    d.contains_key(p) && d[p] is Dir
}

/// What a primitive step does to the disk. A directory cannot be deleted or
/// written as a file.
pub open spec fn apply_step(d: Disk, s: FileStep) -> Result<Disk, StellaError> {
    match s {
        FileStep::Remove(p) => if is_dir(d, p@) {
            Err(StellaError::OverwriteFailed)
        } else {
            Ok(d.remove(p@))
        },
        FileStep::Write(p, c) => if is_dir(d, p@) {
            Err(StellaError::OverwriteFailed)
        } else {
            Ok(d.insert(p@, Node::File(c@)))
        },
    }
}

/// Runs primitive steps in order, stopping at the first failure; gives the
/// disk as left behind and the outcome.
pub open spec fn run_steps(d: Disk, steps: Seq<FileStep>) -> (Disk, Result<(), StellaError>)
    decreases steps.len(),
{
    if steps.len() == 0 {
        (d, Ok(()))
    } else {
        match apply_step(d, steps[0]) {
            Ok(d2) => run_steps(d2, steps.drop_first()),
            Err(e) => (d, Err(e)),
        }
    }
}

/// What materializing `content` at `p` does: the file holds exactly the
/// content afterwards and nothing else changes; a directory there is an error.
pub open spec fn materialize_effect(d: Disk, p: Seq<char>, content: Seq<char>) -> (
    Disk,
    Result<(), StellaError>,
) {
    if is_dir(d, p) {
        (d, Err(StellaError::OverwriteFailed))
    } else {
        (d.insert(p, Node::File(content)), Ok(()))
    }
}

/// What one operation does to the disk.
pub open spec fn apply_effect(d: Disk, e: Effect) -> (Disk, Result<(), StellaError>) {
    match e {
        Effect::CreateProjectDir(p) => if d.contains_key(p) {
            (d, Err(StellaError::ProjectAlreadyExists))
        } else {
            (d.insert(p, Node::Dir), Ok(()))
        },
        Effect::CreateDir(p) => if d.contains_key(p) {
            (d, Err(StellaError::DirectoryConflict))
        } else {
            (d.insert(p, Node::Dir), Ok(()))
        },
        Effect::Materialize(p, c) => materialize_effect(d, p, c),
    }
}

/// Runs a plan in order, stopping at the first failure with no rollback; gives
/// the disk as left behind and the outcome.
pub open spec fn run_plan(d: Disk, plan: Seq<Effect>) -> (Disk, Result<(), StellaError>)
    decreases plan.len(),
{
    if plan.len() == 0 {
        (d, Ok(()))
    } else {
        let (d2, r) = apply_effect(d, plan[0]);
        if r is Ok {
            run_plan(d2, plan.drop_first())
        } else {
            (d2, r)
        }
    }
}

} // verus!
