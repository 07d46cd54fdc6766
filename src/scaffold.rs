use vstd::prelude::*;

use crate::args::{Args, Command};
use crate::disk::{plan_view, run_plan, Disk, Effect, FsOp, Node};
use crate::error::StellaError;
use crate::text::{join, join_path};

verus! {

/// The content of a fresh project's `go.mod`.
pub open spec fn gomod_text(module_name: Seq<char>) -> Seq<char> {
    "module "@ + module_name + "\n\ngo 1.21.1"@
}

/// The directory of a project's sources.
pub open spec fn src_dir(root: Seq<char>) -> Seq<char> {
    join(root, "src"@)
}

/// The directory of a project's generated Go code and executable.
pub open spec fn tp_dir(root: Seq<char>) -> Seq<char> {
    join(root, "tp"@)
}

/// The seed files of `src/`.
pub open spec fn stella_files_plan(src: Seq<char>) -> Seq<Effect> {
    seq![Effect::Materialize(join(src, "main.ste"@), Seq::empty())]
}

/// The seed files of `tp/`.
pub open spec fn go_files_plan(tp: Seq<char>, module_name: Seq<char>) -> Seq<Effect> {
    seq![
        Effect::Materialize(join(tp, "main.go"@), Seq::empty()),
        Effect::Materialize(join(tp, "go.mod"@), gomod_text(module_name)),
    ]
}

/// Everything inside a freshly created project directory.
pub open spec fn subdirectories_plan(root: Seq<char>, module_name: Seq<char>) -> Seq<Effect> {
    seq![Effect::CreateDir(src_dir(root)), Effect::CreateDir(tp_dir(root))] + stella_files_plan(
        src_dir(root),
    ) + go_files_plan(tp_dir(root), module_name)
}

/// The whole scaffold of a project at `root` for the module `module_name`.
pub open spec fn scaffold_plan(root: Seq<char>, module_name: Seq<char>) -> Seq<Effect> {
    seq![Effect::CreateProjectDir(root)] + subdirectories_plan(root, module_name)
}

/// The manifest of the Go side: a module line, a blank line, the toolchain line.
pub fn write_gomod(module_name: &str) -> (r: String)
    ensures
        r@ == gomod_text(module_name@),
{
    let mut r = String::from_str("module ");
    r.append(module_name);
    r.append("\n\ngo 1.21.1");
    assert(r@ =~= gomod_text(module_name@));
    r
}

/// Creating the project directory `root`, which must not exist yet.
pub fn create_module(root: &str) -> (r: FsOp)
    ensures
        r@ == Effect::CreateProjectDir(root@),
{
    FsOp::CreateProjectDir(String::from_str(root))
}

/// Creating the directory `dir` inside a fresh project.
pub fn create_directory(dir: &str) -> (r: FsOp)
    ensures
        r@ == Effect::CreateDir(dir@),
{
    FsOp::CreateDir(String::from_str(dir))
}

/// The seed files of the source directory `path`.
pub fn create_stella_files(path: &str) -> (r: Vec<FsOp>)
    ensures
        plan_view(r@) == stella_files_plan(path@),
{
    let r = vec![FsOp::Materialize(join_path(path, "main.ste"), String::new())];
    assert(plan_view(r@) =~= stella_files_plan(path@));
    r
}

/// The seed files of the Go directory `path` for the module `module_name`.
pub fn create_go_files(path: &str, module_name: &str) -> (r: Vec<FsOp>)
    ensures
        plan_view(r@) == go_files_plan(path@, module_name@),
{
    let r = vec![
        FsOp::Materialize(join_path(path, "main.go"), String::new()),
        FsOp::Materialize(join_path(path, "go.mod"), write_gomod(module_name)),
    ];
    assert(plan_view(r@) =~= go_files_plan(path@, module_name@));
    r
}

/// The directories `src/` and `tp/` inside the project at `root`, then their
/// seed files.
pub fn create_subdirectories(root: &str, module_name: &str) -> (r: Vec<FsOp>)
    ensures
        plan_view(r@) == subdirectories_plan(root@, module_name@),
{
    let src = join_path(root, "src");
    let tp = join_path(root, "tp");
    let mut r = vec![create_directory(src.as_str()), create_directory(tp.as_str())];
    let mut s = create_stella_files(src.as_str());
    let mut g = create_go_files(tp.as_str(), module_name);
    r.append(&mut s);
    r.append(&mut g);
    assert(plan_view(r@) =~= subdirectories_plan(root@, module_name@));
    r
}

/// The plan of `new`: the project directory `<cwd>/<path>` for the module
/// `path`, its subdirectories and seed files.
pub fn new(cwd: &str, args: &Args) -> (r: Result<Vec<FsOp>, StellaError>)
    ensures
        args.command != Command::New || args.target is Some ==> r == Err::<Vec<FsOp>, StellaError>(
            StellaError::InvalidArgumentShape,
        ),
        args.command == Command::New && args.target is None ==> r is Ok && plan_view(r->Ok_0@)
            == scaffold_plan(join(cwd@, args.path@), args.path@),
{
    if args.command != Command::New || args.target.is_some() {
        return Err(StellaError::InvalidArgumentShape);
    }
    let root = join_path(cwd, args.path.as_str());
    let mut r = vec![create_module(root.as_str())];
    let mut rest = create_subdirectories(root.as_str(), args.path.as_str());
    r.append(&mut rest);
    assert(plan_view(r@) =~= scaffold_plan(join(cwd@, args.path@), args.path@));
    Ok(r)
}

} // verus!

verus! {

/// Whether `p` is `root` itself or lies below it.
pub open spec fn within(root: Seq<char>, p: Seq<char>) -> bool {
    p == root || (p.len() > root.len() && p.subrange(0, root.len() + 1 as int) == root + seq!['/'])
}

/// Whether nothing stands at `root` or below it.
pub open spec fn fresh(d: Disk, root: Seq<char>) -> bool {
    forall|p: Seq<char>| #[trigger] d.contains_key(p) ==> !within(root, p)
}

/// Whether every entry's enclosing directories are entries too, as on a real
/// file system: a path with a slash at `k > 0` lies inside its first `k`
/// characters.
pub open spec fn parent_closed(d: Disk) -> bool {
    forall|p: Seq<char>, k: int|
        #![trigger d.contains_key(p), p[k]]
        d.contains_key(p) && 0 < k < p.len() && p[k] == '/' ==> d.contains_key(p.subrange(0, k))
}

/// On a parent-closed disk, nothing stands below a path that is absent.
pub proof fn lemma_fresh_from_absent(d: Disk, root: Seq<char>)
    requires
        parent_closed(d),
        root.len() > 0,
        !d.contains_key(root),
    ensures
        fresh(d, root),
{
    assert forall|p: Seq<char>| #[trigger] d.contains_key(p) implies !within(root, p) by {
        if within(root, p) && p != root {
            let k = root.len() as int;
            assert(p.subrange(0, k + 1)[k] == '/');
            assert(p[k] == '/');
            assert(p.subrange(0, k) =~= root);
        }
    }
}

/// The paths that a scaffold creates.
pub open spec fn scaffold_paths(root: Seq<char>) -> Set<Seq<char>> {
    set![
        root,
        src_dir(root),
        tp_dir(root),
        join(src_dir(root), "main.ste"@),
        join(tp_dir(root), "main.go"@),
        join(tp_dir(root), "go.mod"@),
    ]
}

/// The disk after a successful scaffold.
pub open spec fn scaffolded(d: Disk, root: Seq<char>, module_name: Seq<char>) -> Disk {
    d.insert(root, Node::Dir).insert(src_dir(root), Node::Dir).insert(tp_dir(root), Node::Dir).insert(
        join(src_dir(root), "main.ste"@),
        Node::File(Seq::empty()),
    ).insert(join(tp_dir(root), "main.go"@), Node::File(Seq::empty())).insert(
        join(tp_dir(root), "go.mod"@),
        Node::File(gomod_text(module_name)),
    )
}

pub(crate) proof fn lemma_join_within(root: Seq<char>, name: Seq<char>)
    ensures
        within(root, join(root, name)),
        join(root, name).len() == root.len() + 1 + name.len(),
{
    assert(join(root, name).subrange(0, root.len() + 1 as int) =~= root + seq!['/']);
}

pub(crate) proof fn lemma_within_trans(root: Seq<char>, a: Seq<char>, name: Seq<char>)
    requires
        within(root, a),
    ensures
        within(root, join(a, name)),
{
    lemma_join_within(a, name);
    if a != root {
        assert(join(a, name).subrange(0, root.len() + 1 as int) =~= a.subrange(0, root.len() + 1 as int));
    } else {
        lemma_join_within(root, name);
    }
}

/// A scaffold on a path where nothing stands succeeds and creates exactly
/// `src/` and `tp/` with their seed files below the project directory, leaving
/// every other path as it was; scaffolding the same path again fails with
/// `ProjectAlreadyExists` and changes nothing.
pub proof fn lemma_scaffold_complete(d: Disk, root: Seq<char>, module_name: Seq<char>)
    requires
        parent_closed(d),
        root.len() > 0,
        !d.contains_key(root),
    ensures
        run_plan(d, scaffold_plan(root, module_name)) == (
            scaffolded(d, root, module_name),
            Ok::<(), StellaError>(()),
        ),
        forall|p: Seq<char>|
            within(root, p) ==> (#[trigger] scaffolded(d, root, module_name).contains_key(p)
                <==> scaffold_paths(root).contains(p)),
        forall|p: Seq<char>|
            !within(root, p) ==> (#[trigger] scaffolded(d, root, module_name).contains_key(p)
                <==> d.contains_key(p)) && (d.contains_key(p) ==> scaffolded(
                d,
                root,
                module_name,
            )[p] == d[p]),
        run_plan(scaffolded(d, root, module_name), scaffold_plan(root, module_name)) == (
            scaffolded(d, root, module_name),
            Err::<(), StellaError>(StellaError::ProjectAlreadyExists),
        ),
{
    lemma_fresh_from_absent(d, root);
    reveal_with_fuel(run_plan, 7);
    reveal_strlit("src");
    reveal_strlit("tp");
    reveal_strlit("main.ste");
    reveal_strlit("main.go");
    reveal_strlit("go.mod");
    let src = src_dir(root);
    let tp = tp_dir(root);
    let ste = join(src, "main.ste"@);
    let go = join(tp, "main.go"@);
    let md = join(tp, "go.mod"@);
    lemma_join_within(root, "src"@);
    lemma_join_within(root, "tp"@);
    lemma_within_trans(root, src, "main.ste"@);
    lemma_within_trans(root, tp, "main.go"@);
    lemma_within_trans(root, tp, "go.mod"@);
    lemma_join_within(src, "main.ste"@);
    lemma_join_within(tp, "main.go"@);
    lemma_join_within(tp, "go.mod"@);
    assert(within(root, root));
    let plan = scaffold_plan(root, module_name);
    assert(plan.drop_first() =~= subdirectories_plan(root, module_name));
    let s1 = plan.drop_first();
    let s2 = s1.drop_first();
    let s3 = s2.drop_first();
    let s4 = s3.drop_first();
    let s5 = s4.drop_first();
    assert(s1[0] == Effect::CreateDir(src));
    assert(s2[0] == Effect::CreateDir(tp));
    assert(s3[0] == Effect::Materialize(ste, Seq::empty()));
    assert(s4[0] == Effect::Materialize(go, Seq::empty()));
    assert(s5[0] == Effect::Materialize(md, gomod_text(module_name)));
    assert(s5.drop_first() =~= Seq::<Effect>::empty());
    let d6 = scaffolded(d, root, module_name);
    assert forall|p: Seq<char>|
        within(root, p) implies (#[trigger] d6.contains_key(p) <==> scaffold_paths(
        root,
    ).contains(p)) by {
        assert(!d.contains_key(p));
    }
    assert(d6.contains_key(root));
}

} // verus!
