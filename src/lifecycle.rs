use vstd::prelude::*;

use crate::args::{Args, Command};
use crate::compile::build_outcome;
use crate::disk::{is_dir, run_plan, Disk, Effect, Node};
use crate::error::StellaError;
use crate::run::{exe_name, exe_path, run_outcome, run_output};
use crate::scaffold::{
    lemma_fresh_from_absent,
    parent_closed,
    lemma_join_within,
    lemma_scaffold_complete,
    lemma_within_trans,
    scaffold_plan,
    scaffolded,
    src_dir,
    tp_dir,
};
use crate::text::join;
use crate::transpile::tp_plan;

verus! {

proof fn lemma_join_cancel(a: Seq<char>, x: Seq<char>, y: Seq<char>)
    requires
        join(a, x) == join(a, y),
    ensures
        x == y,
{
    let n = a.len() + 1;
    assert(x =~= join(a, x).subrange(n as int, join(a, x).len() as int));
    assert(y =~= join(a, y).subrange(n as int, join(a, y).len() as int));
}

/// Below the project `root`, a path in `tp/` is none of the paths in `src/`.
proof fn lemma_tp_not_src(root: Seq<char>, a: Seq<char>, b: Seq<char>)
    ensures
        join(tp_dir(root), a) != src_dir(root),
        join(tp_dir(root), a) != join(src_dir(root), b),
{
    reveal_strlit("tp");
    reveal_strlit("src");
    let i = root.len() + 1;
    assert(join(tp_dir(root), a)[i as int] == 't');
    assert(src_dir(root)[i as int] == 's');
    assert(join(src_dir(root), b)[i as int] == 's');
}

/// Right after `new` on a path where nothing stood, the executable is nowhere on disk, so `run` fails with
/// `ExecutableNotFound` and executes nothing. (An executable named like a seed
/// file of `tp/` would be that file.)
pub proof fn lemma_run_without_build(d: Disk, cwd: Seq<char>, args: Args, windows: bool)
    requires
        parent_closed(d),
        !d.contains_key(join(cwd, args.path@)),
        args.command == Command::Run,
        args.target is None,
        exe_name(args.path@, windows) != "main.go"@,
        exe_name(args.path@, windows) != "go.mod"@,
    ensures
        !scaffolded(d, join(cwd, args.path@), args.path@).contains_key(
            exe_path(cwd, args.path@, windows),
        ),
        run_outcome(
            args,
            scaffolded(d, join(cwd, args.path@), args.path@).contains_key(
                exe_path(cwd, args.path@, windows),
            ),
        ) == Err::<(), StellaError>(StellaError::ExecutableNotFound),
{
    reveal_strlit("tp");
    let root = join(cwd, args.path@);
    let tp = tp_dir(root);
    let name = exe_name(args.path@, windows);
    let exe = join(tp, name);
    lemma_fresh_from_absent(d, root);
    lemma_join_within(root, "tp"@);
    lemma_join_within(tp, name);
    lemma_within_trans(root, tp, name);
    assert(!d.contains_key(exe));
    lemma_tp_not_src(root, name, "main.ste"@);
    if exe == join(tp, "main.go"@) {
        lemma_join_cancel(tp, name, "main.go"@);
    }
    if exe == join(tp, "go.mod"@) {
        lemma_join_cancel(tp, name, "go.mod"@);
    }
}

/// With a transpiler that succeeds, a compiler that succeeds and leaves its
/// executable, and a program that writes nothing on its error stream,
/// on a path where nothing stood, `new`, `tp <path>/tp/main.go`, `build` and `run` each succeed in turn, and
/// the run yields the program's standard output unchanged.
pub proof fn lemma_round_trip(
    d: Disk,
    cwd: Seq<char>,
    path: Seq<char>,
    text: Seq<char>,
    build_args: Args,
    artifact: Seq<char>,
    run_args: Args,
    windows: bool,
    program_stdout: Seq<char>,
)
    requires
        parent_closed(d),
        !d.contains_key(join(cwd, path)),
        build_args.command == Command::Build,
        build_args.path@ == path,
        build_args.target is None,
        run_args.command == Command::Run,
        run_args.path@ == path,
        run_args.target is None,
    ensures
        ({
            let root = join(cwd, path);
            let d1 = scaffolded(d, root, path);
            let target = join(cwd, join(join(path, "tp"@), "main.go"@));
            let d2 = d1.insert(target, Node::File(text));
            let exe = exe_path(cwd, path, windows);
            let d3 = d2.insert(exe, Node::File(artifact));
            &&& run_plan(d, scaffold_plan(root, path)) == (d1, Ok::<(), StellaError>(()))
            &&& run_plan(d1, tp_plan(target, text)) == (d2, Ok::<(), StellaError>(()))
            &&& build_outcome(build_args, is_dir(d2, tp_dir(root))) == Ok::<bool, StellaError>(false)
            &&& run_outcome(run_args, d3.contains_key(exe)) == Ok::<(), StellaError>(())
            &&& run_output(program_stdout, Seq::empty()) == Ok::<Seq<char>, StellaError>(
                program_stdout,
            )
        }),
{
    reveal_strlit("tp");
    reveal_strlit("main.go");
    let root = join(cwd, path);
    lemma_scaffold_complete(d, root, path);
    let d1 = scaffolded(d, root, path);
    let tp = tp_dir(root);
    let target = join(cwd, join(join(path, "tp"@), "main.go"@));
    assert(target =~= join(tp, "main.go"@));
    reveal_strlit("src");
    reveal_strlit("main.ste");
    reveal_strlit("go.mod");
    lemma_join_within(root, "tp"@);
    lemma_join_within(root, "src"@);
    lemma_join_within(src_dir(root), "main.ste"@);
    lemma_join_within(tp, "main.go"@);
    lemma_join_within(tp, "go.mod"@);
    assert(d1.contains_key(target) && d1[target] == Node::File(Seq::empty()));
    reveal_with_fuel(run_plan, 2);
    let plan = tp_plan(target, text);
    assert(plan.drop_first() =~= Seq::<Effect>::empty());
    let d2 = d1.insert(target, Node::File(text));
    assert(d1.contains_key(tp) && d1[tp] == Node::Dir);
    assert(target != tp);
    assert(is_dir(d2, tp));
}

} // verus!
