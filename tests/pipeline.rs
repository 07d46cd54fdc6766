use std::collections::BTreeMap;

use stella::args::{Args, Command};
use stella::compile::{build, go_build, project_tp_dir};
use stella::disk::{FileStep, FsOp};
use stella::dispatch::{dispatch, Stage};
use stella::error::StellaError;
use stella::error_parser::parse_error;
use stella::materialize::{create_file, write_text};
use stella::run::{executable_path, go_run, not_found_message, run};
use stella::scaffold::{
    create_directory, create_go_files, create_module, create_stella_files, create_subdirectories, new,
    write_gomod,
};
use stella::text::get_diretory;
use stella::transpile::{tp, transpile, transpiler_input, ToolOutput};

/// A disk in memory: `None` is a directory, `Some` a file's content.
type Mem = BTreeMap<String, Option<String>>;

fn apply_steps(disk: &mut Mem, steps: &[FileStep]) -> Result<(), StellaError> {
    for step in steps {
        match step {
            FileStep::Remove(p) => {
                if let Some(None) = disk.get(p) {
                    return Err(StellaError::OverwriteFailed);
                }
                disk.remove(p);
            }
            FileStep::Write(p, c) => {
                if let Some(None) = disk.get(p) {
                    return Err(StellaError::OverwriteFailed);
                }
                disk.insert(p.clone(), Some(c.clone()));
            }
        }
    }
    Ok(())
}

fn apply_plan(disk: &mut Mem, ops: &[FsOp]) -> Result<(), StellaError> {
    for op in ops {
        match op {
            FsOp::CreateProjectDir(p) => {
                if disk.contains_key(p) {
                    return Err(StellaError::ProjectAlreadyExists);
                }
                disk.insert(p.clone(), None);
            }
            FsOp::CreateDir(p) => {
                if disk.contains_key(p) {
                    return Err(StellaError::DirectoryConflict);
                }
                disk.insert(p.clone(), None);
            }
            FsOp::Materialize(p, c) => {
                let steps = write_text(c.clone(), p.clone(), disk.contains_key(p));
                apply_steps(disk, &steps)?;
            }
        }
    }
    Ok(())
}

fn argv(words: &[&str]) -> Vec<String> {
    words.iter().map(|w| w.to_string()).collect()
}

fn parsed(words: &[&str]) -> Args {
    Args::new(argv(words)).unwrap()
}

fn out(stdout: &str, stderr: &str) -> ToolOutput {
    ToolOutput { stdout: stdout.to_string(), stderr: stderr.to_string() }
}

#[test]
fn diagnostic_is_first_line() {
    assert_eq!(parse_error("line1\nline2\nline3".to_string()), Ok("line1".to_string()));
}

#[test]
fn diagnostic_of_empty_stream_fails() {
    assert_eq!(parse_error(String::new()), Err(StellaError::EmptyDiagnostic));
}

#[test]
fn diagnostic_single_line_and_leading_newline() {
    assert_eq!(parse_error("only".to_string()), Ok("only".to_string()));
    assert_eq!(parse_error("\nsecond".to_string()), Ok(String::new()));
    assert_eq!(parse_error("é1\nx".to_string()), Ok("é1".to_string()));
}

#[test]
fn args_three_and_four_words() {
    let a = parsed(&["stella", "new", "foo"]);
    assert_eq!(a.command, Command::New);
    assert_eq!(a.path, "foo");
    assert_eq!(a.target, None);
    let b = parsed(&["stella", "tp", "foo/src/main.x", "foo/tp/main.go"]);
    assert_eq!(b.command, Command::Tp);
    assert_eq!(b.path, "foo/src/main.x");
    assert_eq!(b.target, Some("foo/tp/main.go".to_string()));
}

#[test]
fn args_bad_count() {
    assert_eq!(Args::new(argv(&["stella", "new"])), Err(StellaError::InvalidArgumentCount));
    assert_eq!(
        Args::new(argv(&["stella", "tp", "a", "b", "c"])),
        Err(StellaError::InvalidArgumentCount)
    );
    assert_eq!(Args::new(Vec::new()), Err(StellaError::InvalidArgumentCount));
}

#[test]
fn args_unknown_verb() {
    assert_eq!(Args::new(argv(&["stella", "make", "foo"])), Err(StellaError::UnknownCommand));
    assert_eq!(Args::new(argv(&["stella", "News", "foo"])), Err(StellaError::UnknownCommand));
}

#[test]
fn dispatch_routes_each_verb() {
    assert_eq!(dispatch(&parsed(&["s", "new", "foo"])), Stage::Scaffold);
    assert_eq!(dispatch(&parsed(&["s", "tp", "a", "b"])), Stage::Transpile);
    assert_eq!(dispatch(&parsed(&["s", "build", "foo"])), Stage::Build);
    assert_eq!(dispatch(&parsed(&["s", "run", "foo"])), Stage::Run);
}

#[test]
fn gomod_content() {
    assert_eq!(write_gomod("foo"), "module foo\n\ngo 1.21.1");
}

#[test]
fn scaffold_plan_for_foo() {
    let ops = new("/w", &parsed(&["stella", "new", "foo"])).unwrap();
    let expected = vec![
        FsOp::CreateProjectDir("/w/foo".to_string()),
        FsOp::CreateDir("/w/foo/src".to_string()),
        FsOp::CreateDir("/w/foo/tp".to_string()),
        FsOp::Materialize("/w/foo/src/main.ste".to_string(), String::new()),
        FsOp::Materialize("/w/foo/tp/main.go".to_string(), String::new()),
        FsOp::Materialize("/w/foo/tp/go.mod".to_string(), "module foo\n\ngo 1.21.1".to_string()),
    ];
    assert_eq!(ops, expected);
}

#[test]
fn scaffold_parts() {
    assert_eq!(
        create_stella_files("/p/src"),
        vec![FsOp::Materialize("/p/src/main.ste".to_string(), String::new())]
    );
    assert_eq!(create_module("/p"), FsOp::CreateProjectDir("/p".to_string()));
    assert_eq!(create_directory("/p/tp"), FsOp::CreateDir("/p/tp".to_string()));
    assert_eq!(
        create_go_files("/p/tp", "p"),
        vec![
            FsOp::Materialize("/p/tp/main.go".to_string(), String::new()),
            FsOp::Materialize("/p/tp/go.mod".to_string(), "module p\n\ngo 1.21.1".to_string()),
        ]
    );
    assert_eq!(create_subdirectories("/p", "p").len(), 5);
}

#[test]
fn scaffold_rejects_target_and_wrong_verb() {
    assert_eq!(
        new("/w", &parsed(&["stella", "new", "foo", "bar"])),
        Err(StellaError::InvalidArgumentShape)
    );
    assert_eq!(new("/w", &parsed(&["stella", "run", "foo"])), Err(StellaError::InvalidArgumentShape));
}

#[test]
fn scaffold_complete_then_already_exists() {
    let mut disk: Mem = BTreeMap::new();
    disk.insert("/w/other".to_string(), Some("x".to_string()));
    let ops = new("/w", &parsed(&["stella", "new", "foo"])).unwrap();
    assert_eq!(apply_plan(&mut disk, &ops), Ok(()));
    let under: Vec<&String> = disk.keys().filter(|k| k.starts_with("/w/foo")).collect();
    assert_eq!(
        under,
        vec![
            "/w/foo",
            "/w/foo/src",
            "/w/foo/src/main.ste",
            "/w/foo/tp",
            "/w/foo/tp/go.mod",
            "/w/foo/tp/main.go"
        ]
    );
    assert_eq!(disk["/w/foo/tp/go.mod"], Some("module foo\n\ngo 1.21.1".to_string()));
    assert_eq!(disk["/w/other"], Some("x".to_string()));
    let before = disk.clone();
    assert_eq!(apply_plan(&mut disk, &ops), Err(StellaError::ProjectAlreadyExists));
    assert_eq!(disk, before);
}

#[test]
fn scaffold_subdirectory_conflict() {
    let mut disk: Mem = BTreeMap::new();
    disk.insert("/w/foo/src".to_string(), None);
    let ops = new("/w", &parsed(&["stella", "new", "foo"])).unwrap();
    assert_eq!(apply_plan(&mut disk, &ops), Err(StellaError::DirectoryConflict));
}

#[test]
fn materialize_steps() {
    assert_eq!(
        write_text("B".to_string(), "/f".to_string(), true),
        vec![FileStep::Remove("/f".to_string()), FileStep::Write("/f".to_string(), "B".to_string())]
    );
    assert_eq!(
        write_text("B".to_string(), "/f".to_string(), false),
        vec![FileStep::Write("/f".to_string(), "B".to_string())]
    );
    assert_eq!(
        create_file("/e".to_string(), true),
        vec![FileStep::Remove("/e".to_string()), FileStep::Write("/e".to_string(), String::new())]
    );
    assert_eq!(
        create_file("/e".to_string(), false),
        vec![FileStep::Write("/e".to_string(), String::new())]
    );
}

#[test]
fn materialize_overwrites_a_to_b() {
    let mut disk: Mem = BTreeMap::new();
    disk.insert("/f".to_string(), Some("A".to_string()));
    let steps = write_text("B".to_string(), "/f".to_string(), true);
    assert_eq!(apply_steps(&mut disk, &steps), Ok(()));
    assert_eq!(disk.len(), 1);
    assert_eq!(disk["/f"], Some("B".to_string()));
}

#[test]
fn materialize_over_directory_fails() {
    let mut disk: Mem = BTreeMap::new();
    disk.insert("/d".to_string(), None);
    let steps = write_text("B".to_string(), "/d".to_string(), true);
    assert_eq!(apply_steps(&mut disk, &steps), Err(StellaError::OverwriteFailed));
}

#[test]
fn transpile_reads_streams() {
    assert_eq!(transpile(out("package main\n", "")), Ok("package main\n".to_string()));
    assert_eq!(transpile(out("prog", "warn")), Ok("prog".to_string()));
    assert_eq!(
        transpile(out("", "syntax error\nat line 3")),
        Err(StellaError::TranspileError(
            "syntax error".to_string(),
            "syntax error\nat line 3".to_string()
        ))
    );
    assert_eq!(transpile(out("", "")), Err(StellaError::ToolProtocolViolation));
}

#[test]
fn transpiler_input_is_absolute() {
    let a = parsed(&["stella", "tp", "foo/src/main.x", "foo/tp/main.go"]);
    assert_eq!(transpiler_input("/w", &a), Ok("/w/foo/src/main.x".to_string()));
    let b = parsed(&["stella", "tp", "foo/src/main.x"]);
    assert_eq!(transpiler_input("/w", &b), Err(StellaError::InvalidArgumentShape));
}

#[test]
fn tp_plan_and_failures() {
    let a = parsed(&["stella", "tp", "foo/src/main.x", "foo/tp/main.go"]);
    assert_eq!(
        tp("/w", &a, out("package main", "")),
        Ok(vec![FsOp::Materialize("/w/foo/tp/main.go".to_string(), "package main".to_string())])
    );
    assert_eq!(
        tp("/w", &a, out("", "bad\nworse")),
        Err(StellaError::TranspileError("bad".to_string(), "bad\nworse".to_string()))
    );
    assert_eq!(tp("/w", &a, out("", "")), Err(StellaError::ToolProtocolViolation));
    let b = parsed(&["stella", "tp", "foo/src/main.x"]);
    assert_eq!(tp("/w", &b, out("x", "")), Err(StellaError::InvalidArgumentShape));
    let c = parsed(&["stella", "run", "foo", "bar"]);
    assert_eq!(tp("/w", &c, out("x", "")), Err(StellaError::InvalidArgumentShape));
}

#[test]
fn transpile_twice_is_idempotent() {
    let a = parsed(&["stella", "tp", "foo/src/main.x", "foo/tp/main.go"]);
    let mut disk: Mem = BTreeMap::new();
    let ops = tp("/w", &a, out("package main", "")).unwrap();
    apply_plan(&mut disk, &ops).unwrap();
    let first = disk.clone();
    let again = tp("/w", &a, out("package main", "")).unwrap();
    apply_plan(&mut disk, &again).unwrap();
    assert_eq!(disk, first);
    assert_eq!(disk["/w/foo/tp/main.go"], Some("package main".to_string()));
}

#[test]
fn build_decisions() {
    assert_eq!(project_tp_dir("/w", "foo"), "/w/foo/tp");
    assert_eq!(build(&parsed(&["s", "build", "foo"]), true), Ok(false));
    assert_eq!(build(&parsed(&["s", "build", "foo", "x"]), true), Ok(true));
    assert_eq!(build(&parsed(&["s", "build", "foo"]), false), Err(StellaError::DirectoryNotFound));
    assert_eq!(build(&parsed(&["s", "new", "foo"]), true), Err(StellaError::InvalidArgumentShape));
}

#[test]
fn go_build_reads_error_stream() {
    assert_eq!(go_build(String::new()), Ok("build successful".to_string()));
    assert_eq!(
        go_build("./main.go:3: undefined: x\nnote".to_string()),
        Err(StellaError::CompileError(
            "./main.go:3: undefined: x".to_string(),
            "./main.go:3: undefined: x\nnote".to_string()
        ))
    );
}

#[test]
fn run_decisions() {
    assert_eq!(executable_path("/w", "foo", true), "/w/foo/tp/foo.exe");
    assert_eq!(executable_path("/w", "foo", false), "/w/foo/tp/foo");
    assert_eq!(run(&parsed(&["s", "run", "foo"]), true), Ok(()));
    assert_eq!(run(&parsed(&["s", "run", "foo", "x"]), true), Err(StellaError::InvalidArgumentShape));
    assert_eq!(run(&parsed(&["s", "build", "foo"]), true), Err(StellaError::InvalidArgumentShape));
}

#[test]
fn go_run_passes_stdout_through() {
    assert_eq!(go_run(out("hello\n", "")), Ok("hello\n".to_string()));
    assert_eq!(go_run(out("hello", "panic")), Err(StellaError::ExecutableNotFound));
}

#[test]
fn run_without_build_finds_no_executable() {
    let mut disk: Mem = BTreeMap::new();
    apply_plan(&mut disk, &new("/w", &parsed(&["stella", "new", "foo"])).unwrap()).unwrap();
    for windows in [false, true] {
        let exe = executable_path("/w", "foo", windows);
        let exists = disk.contains_key(&exe);
        assert!(!exists);
        assert_eq!(run(&parsed(&["stella", "run", "foo"]), exists), Err(StellaError::ExecutableNotFound));
    }
}

#[test]
fn round_trip_new_tp_build_run() {
    let mut disk: Mem = BTreeMap::new();
    let cwd = "/w";
    let n = parsed(&["stella", "new", "foo"]);
    apply_plan(&mut disk, &new(cwd, &n).unwrap()).unwrap();
    let t = parsed(&["stella", "tp", "foo/src/main.x", "foo/tp/main.go"]);
    let input = transpiler_input(cwd, &t).unwrap();
    assert_eq!(input, "/w/foo/src/main.x");
    apply_plan(&mut disk, &tp(cwd, &t, out(&input, "")).unwrap()).unwrap();
    assert_eq!(disk["/w/foo/tp/main.go"], Some("/w/foo/src/main.x".to_string()));
    let b = parsed(&["stella", "build", "foo"]);
    let tp_dir = project_tp_dir(cwd, "foo");
    assert_eq!(build(&b, disk.get(&tp_dir) == Some(&None)), Ok(false));
    assert_eq!(go_build(String::new()), Ok("build successful".to_string()));
    let exe = executable_path(cwd, "foo", false);
    disk.insert(exe.clone(), Some("binary".to_string()));
    let r = parsed(&["stella", "run", "foo"]);
    assert_eq!(run(&r, disk.contains_key(&exe)), Ok(()));
    assert_eq!(go_run(out("Hello, Stella!\n", "")), Ok("Hello, Stella!\n".to_string()));
}

#[test]
fn directory_of_paths() {
    assert_eq!(get_diretory("/w", "foo/src/main.x"), Some("foo/src".to_string()));
    assert_eq!(get_diretory("/w", "foo\\src\\main.x"), Some("foo\\src".to_string()));
    assert_eq!(get_diretory("/w", "main.x"), Some("/w".to_string()));
    assert_eq!(get_diretory("/w", "/main.x"), Some("/w".to_string()));
    assert_eq!(get_diretory("/w", "a/"), Some("a".to_string()));
    assert_eq!(get_diretory("/w", ""), None);
}

#[test]
fn not_found_message_names_module() {
    let m = not_found_message("foo");
    assert_eq!(
        m,
        "found no executable file in module foo. Try generating an executable with the stella build foo command"
    );
    assert_eq!(parse_error(m.clone()), Ok(m));
}
