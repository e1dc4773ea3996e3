// Whole runs of the walker against a file system and a git server that are
// kept in memory.

use std::collections::BTreeMap;

use dpnd::dep_tools::{CmdOutput, FetchError, Git, GitCmdError, Version};
use dpnd::host::{FsPath, IoFailure, Reply, Request, WriteStateFileError};
use dpnd::install::{InstallError, Installer, WalkStep};
use dpnd::ledger::encode_lines;
use dpnd::render_errors::{render_install_error, render_path};
use regex::Regex;

#[derive(Clone, Debug, PartialEq)]
enum Entry {
    File(Vec<u8>),
    Dir,
}

struct Commit {
    hash: String,
    files: Vec<(String, String)>,
}

struct World {
    entries: BTreeMap<String, Entry>,
    repos: Vec<(String, Vec<Commit>)>,
    server_up: bool,
    fetches: Vec<(String, String, String)>,
}

fn failure(not_found: bool, message: &str) -> IoFailure {
    IoFailure { not_found, message: message.to_string() }
}

fn parent_of(path: &str) -> Option<String> {
    if path == "/" {
        return None;
    }
    let cut = path.rfind('/').unwrap();
    if cut == 0 {
        Some("/".to_string())
    } else {
        Some(path[..cut].to_string())
    }
}

impl World {
    fn new() -> World {
        let mut entries = BTreeMap::new();
        entries.insert("/".to_string(), Entry::Dir);
        World { entries, repos: vec![], server_up: true, fetches: vec![] }
    }

    fn mkdirs(&mut self, path: &str) {
        if let Some(up) = parent_of(path) {
            self.mkdirs(&up);
        }
        self.entries.entry(path.to_string()).or_insert(Entry::Dir);
    }

    fn write(&mut self, path: &str, conts: &[u8]) {
        self.mkdirs(&parent_of(path).unwrap());
        self.entries.insert(path.to_string(), Entry::File(conts.to_vec()));
    }

    // Why nothing can be below `path`, if an entry on the way to it is a
    // file or is missing.
    fn blocked(&self, path: &str) -> Option<IoFailure> {
        let up = parent_of(path)?;
        if let Some(f) = self.blocked(&up) {
            return Some(f);
        }
        match self.entries.get(&up) {
            Some(Entry::Dir) => None,
            Some(Entry::File(_)) => Some(failure(false, "Not a directory (os error 20)")),
            None => Some(failure(true, "No such file or directory (os error 2)")),
        }
    }

    fn read(&self, path: &str) -> Result<Vec<u8>, IoFailure> {
        if let Some(f) = self.blocked(path) {
            return Err(f);
        }
        match self.entries.get(path) {
            Some(Entry::File(conts)) => Ok(conts.clone()),
            Some(Entry::Dir) => Err(failure(false, "Is a directory (os error 21)")),
            None => Err(failure(true, "No such file or directory (os error 2)")),
        }
    }

    fn create_dir_all(&mut self, path: &str) -> Result<(), IoFailure> {
        if let Some(up) = parent_of(path) {
            self.create_dir_all(&up)?;
        }
        match self.entries.get(path) {
            Some(Entry::Dir) => Ok(()),
            Some(Entry::File(_)) => Err(failure(false, "File exists (os error 17)")),
            None => {
                self.entries.insert(path.to_string(), Entry::Dir);
                Ok(())
            },
        }
    }

    fn create_dir(&mut self, path: &str) -> Result<(), IoFailure> {
        if let Some(f) = self.blocked(path) {
            return Err(f);
        }
        if self.entries.contains_key(path) {
            return Err(failure(false, "File exists (os error 17)"));
        }
        self.entries.insert(path.to_string(), Entry::Dir);
        Ok(())
    }

    fn remove_dir_all(&mut self, path: &str) -> Result<(), IoFailure> {
        if let Some(f) = self.blocked(path) {
            return Err(f);
        }
        match self.entries.get(path) {
            None => Err(failure(true, "No such file or directory (os error 2)")),
            Some(Entry::File(_)) => Err(failure(false, "Not a directory (os error 20)")),
            Some(Entry::Dir) => {
                let below = format!("{}/", path);
                self.entries.retain(|k, _| k != path && !k.starts_with(&below));
                Ok(())
            },
        }
    }

    fn write_state_file(&mut self, path: &str, lines: Vec<String>) -> Result<(), WriteStateFileError> {
        if let Some(source) = self.blocked(path) {
            return Err(WriteStateFileError::OpenFailed { source });
        }
        if let Some(Entry::Dir) = self.entries.get(path) {
            return Err(
                WriteStateFileError::OpenFailed {
                    source: failure(false, "Is a directory (os error 21)"),
                },
            );
        }
        let mut conts = vec![];
        for line in lines {
            conts.extend_from_slice(line.as_bytes());
        }
        self.entries.insert(path.to_string(), Entry::File(conts));
        Ok(())
    }

    // What `git` would do and say, run in `dir` with `args`.
    fn git(&mut self, dir: &str, args: &[String]) -> Result<CmdOutput, IoFailure> {
        let fail = |stderr: String| {
            Ok(CmdOutput { success: false, stdout: vec![], stderr: stderr.into_bytes() })
        };
        let done = Ok(CmdOutput { success: true, stdout: vec![], stderr: vec![] });
        if args[0] == "clone" {
            if !self.server_up {
                return fail(
                    "Cloning into '.'...\nfatal: unable to connect to localhost:\n\
                     localhost[0: 127.0.0.1]: errno=Connection refused\n\
                     localhost[1: ::1]: errno=Cannot assign requested address\n\n"
                        .to_string(),
                );
            }
            let found = self.repos.iter().position(
                |(name, _)| format!("git://localhost/{}.git", name) == args[1],
            );
            let k = match found {
                Some(k) => k,
                None => {
                    return fail(
                        format!(
                            "Cloning into '.'...\nfatal: remote error: access denied or \
                             repository not exported: {}\n",
                            args[1].trim_start_matches("git://localhost"),
                        ),
                    );
                },
            };
            let files: Vec<(String, String)> = self.repos[k].1.last().unwrap().files.clone();
            self.write(&format!("{}/.git/origin", dir), self.repos[k].0.clone().as_bytes());
            for (name, conts) in files {
                self.write(&format!("{}/{}", dir, name), conts.as_bytes());
            }
            done
        } else {
            let origin = match self.entries.get(&format!("{}/.git/origin", dir)) {
                Some(Entry::File(name)) => String::from_utf8(name.clone()).unwrap(),
                _ => return fail("fatal: not a git repository\n".to_string()),
            };
            let commits = &self.repos.iter().find(|(name, _)| *name == origin).unwrap().1;
            let wanted = if args[1] == "master" {
                commits.last()
            } else {
                commits.iter().find(|c| c.hash == args[1])
            };
            let files = match wanted {
                Some(c) => c.files.clone(),
                None => {
                    return fail(
                        format!(
                            "error: pathspec '{}' did not match any file(s) known to git\n",
                            args[1],
                        ),
                    );
                },
            };
            let below = format!("{}/", dir);
            let git_dir = format!("{}/.git", dir);
            self.entries.retain(
                |k, _| !k.starts_with(&below) || *k == git_dir || k.starts_with(&format!("{}/", git_dir)),
            );
            for (name, conts) in files {
                self.write(&format!("{}/{}", dir, name), conts.as_bytes());
            }
            done
        }
    }

    fn fetch(&mut self, source: &str, version: &Version, dir: &str) -> Result<
        (),
        FetchError<GitCmdError>,
    > {
        self.fetches.push((source.to_string(), version.0.clone(), dir.to_string()));
        let git = Git {  };
        let steps = git.steps(source, version);
        for (i, args) in steps.into_iter().enumerate() {
            let outcome = self.git(dir, &args);
            git.check(i, args, outcome)?;
        }
        Ok(())
    }

    fn perform(&mut self, request: Request) -> Reply<GitCmdError> {
        match request {
            Request::ReadFile { path } => Reply::File(self.read(&render_path(&path))),
            Request::CreateDirAll { path } => Reply::Done(self.create_dir_all(&render_path(&path))),
            Request::RemoveDirAll { path } => Reply::Done(self.remove_dir_all(&render_path(&path))),
            Request::WriteStateFile { path, deps } => Reply::Written(
                self.write_state_file(&render_path(&path), encode_lines(&deps)),
            ),
            Request::CreateDir { path } => Reply::Done(self.create_dir(&render_path(&path))),
            Request::Fetch { tool_name, source, version, out_dir } => {
                assert_eq!(tool_name, "git");
                Reply::Fetched(self.fetch(&source, &version, &render_path(&out_dir)))
            },
        }
    }
}

fn fs_path(path: &str) -> FsPath {
    FsPath {
        absolute: path.starts_with('/'),
        parts: path.split('/').filter(|p| !p.is_empty()).map(|p| p.to_string()).collect(),
    }
}

fn installer() -> Installer {
    Installer {
        deps_file_name: "dpnd.txt".to_string(),
        state_file_name: "current_dpnd.txt".to_string(),
        bad_dep_name_chars: Regex::new(r"[^a-zA-Z0-9._-]").unwrap(),
        tools: vec!["git".to_string()],
    }
}

fn install(world: &mut World, cwd: &str, recurse: bool) -> Result<(), InstallError<GitCmdError>> {
    let installer = installer();
    let mut walk = installer.install(fs_path(cwd), recurse);
    let mut steps = 0;
    loop {
        steps += 1;
        assert!(steps < 10000, "the walk does not end");
        let request = installer.request(&walk);
        let reply = world.perform(request);
        match installer.resume(walk, reply) {
            WalkStep::Ask(next) => walk = next,
            WalkStep::Finished(result) => return result,
        }
    }
}

struct CmdResult {
    code: i32,
    stderr: String,
}

// The command `dpnd install`, with `--recursive` where `recurse` is set, run
// in `cwd`.
fn run_cmd(world: &mut World, cwd: &str, recurse: bool) -> CmdResult {
    match install(world, cwd, recurse) {
        Ok(()) => CmdResult { code: 0, stderr: String::new() },
        Err(err) => CmdResult {
            code: 1,
            stderr: format!("{}\n", render_install_error(err, &fs_path(cwd), "dpnd.txt")),
        },
    }
}

fn assert_cmd(result: &CmdResult, code: i32, stderr: &str) {
    assert_eq!(result.stderr, stderr);
    assert_eq!(result.code, code);
}

enum Node {
    AnyDir,
    AnyFile,
    Dir(Vec<(String, Node)>),
    File(String),
}

fn file(conts: &str) -> Node {
    Node::File(conts.to_string())
}

fn dir(entries: Vec<(&str, Node)>) -> Node {
    Node::Dir(entries.into_iter().map(|(n, e)| (n.to_string(), e)).collect())
}

fn assert_contents(world: &World, path: &str, exp: &Node) {
    match exp {
        Node::File(exp_conts) => match world.entries.get(path) {
            Some(Entry::File(conts)) => assert!(
                exp_conts.as_bytes() == &conts[..],
                "'{}' contained unexpected data, expected:\n{}",
                path,
                exp_conts,
            ),
            _ => panic!("couldn't open '{}' as a file", path),
        },
        Node::AnyDir => assert!(matches!(world.entries.get(path), Some(Entry::Dir))),
        Node::AnyFile => assert!(matches!(world.entries.get(path), Some(Entry::File(_)))),
        Node::Dir(exp_entries) => {
            assert!(
                matches!(world.entries.get(path), Some(Entry::Dir)),
                "couldn't open '{}' as a directory",
                path,
            );
            let below = format!("{}/", path);
            for name in world.entries.keys() {
                if let Some(rest) = name.strip_prefix(&below) {
                    if !rest.contains('/') {
                        assert!(
                            exp_entries.iter().any(|(n, _)| n == rest),
                            "found unexpected entry '{}/{}' in filesystem",
                            path,
                            rest,
                        );
                    }
                }
            }
            for (name, node) in exp_entries {
                assert!(
                    world.entries.contains_key(&format!("{}/{}", path, name)),
                    "couldn't find expected entry '{}/{}' in filesystem",
                    path,
                    name,
                );
                assert_contents(world, &format!("{}/{}", path, name), node);
            }
        },
    }
}

// The dependencies that are served as git repositories: each with its
// commits, from the first to the latest.
fn test_deps() -> Vec<(&'static str, Vec<Vec<(&'static str, &'static str)>>)> {
    vec![
        (
            "my_scripts",
            vec![
                vec![("script.sh", "echo 'hello world'")],
                vec![("script.sh", "echo 'hello, world!'")],
            ],
        ),
        ("your_scripts", vec![vec![("script.sh", "echo 'hello, sun!'")]]),
        ("their_scripts", vec![vec![("script.sh", "echo 'hello, moon!'")]]),
        (
            "all_scripts",
            vec![
                vec![
                    (
                        "dpnd.txt",
                        "deps\n\nmy_scripts git git://localhost/my_scripts.git master\n\
                         your_scripts git git://localhost/your_scripts.git master\n",
                    ),
                    ("script.sh", "echo 'hello, all!'"),
                ],
            ],
        ),
    ]
}

struct Layout {
    world: World,
    proj_dir: String,
    deps_file_conts: String,
    output_dir: String,
}

fn hash_of(world: &World, dep: &str, commit: usize) -> String {
    world.repos.iter().find(|(name, _)| name == dep).unwrap().1[commit].hash.clone()
}

fn serve(world: &mut World, deps: &[(&str, Vec<Vec<(&str, &str)>>)]) {
    for (k, (name, commits)) in deps.iter().enumerate() {
        let commits = commits
            .iter()
            .enumerate()
            .map(
                |(i, files)| Commit {
                    hash: format!("{:020x}{:020x}", k + 1, i + 1),
                    files: files.iter().map(|(n, c)| (n.to_string(), c.to_string())).collect(),
                },
            )
            .collect();
        world.repos.push((name.to_string(), commits));
    }
}

fn create_root_dir(world: &mut World, name: &str) -> String {
    let path = format!("/test_dirs/{}", name);
    world.mkdirs(&path);
    path
}

fn create_dir(world: &mut World, dir: &str, name: &str) -> String {
    let path = format!("{}/{}", dir, name);
    world.create_dir(&path).expect("couldn't create directory");
    path
}

fn write_test_deps_file(
    world: &mut World,
    proj_dir: &str,
    output_dir: &str,
    deps_commit_nums: &[(&str, usize)],
) -> String {
    let mut conts = format!(
        "# This is the output directory.\n{}\n\n# These are the dependencies.\n",
        output_dir,
    );
    for (dep_name, num) in deps_commit_nums {
        conts = format!(
            "{}\n{} git git://localhost/{}.git {}\n",
            conts,
            dep_name,
            dep_name,
            hash_of(world, dep_name, *num),
        );
    }
    world.write(&format!("{}/dpnd.txt", proj_dir), conts.as_bytes());
    conts
}

fn create(
    root_test_dir_name: &str,
    deps: &[(&str, Vec<Vec<(&str, &str)>>)],
    output_dir: &str,
    deps_commit_nums: &[(&str, usize)],
) -> Layout {
    let mut world = World::new();
    let root_dir = create_root_dir(&mut world, root_test_dir_name);
    let proj_dir = create_dir(&mut world, &root_dir, "proj");
    serve(&mut world, deps);
    let deps_file_conts = write_test_deps_file(&mut world, &proj_dir, output_dir, deps_commit_nums);
    Layout { world, proj_dir, deps_file_conts, output_dir: output_dir.to_string() }
}

// The tree of a project whose output directory holds `output_entries`.
fn proj_tree<'a>(
    layout: &'a Layout,
    mut extra: Vec<(&'a str, Node)>,
    output_entries: Vec<(&str, Node)>,
) -> Node {
    let mut node = dir(output_entries);
    let parts: Vec<&str> = layout.output_dir.split('/').collect();
    for part in parts.iter().skip(1).rev() {
        node = dir(vec![(*part, node)]);
    }
    let mut entries = vec![("dpnd.txt", file(&layout.deps_file_conts)), (parts[0], node)];
    entries.append(&mut extra);
    dir(entries)
}

fn dep_dir(deps: &[(&str, Vec<Vec<(&str, &str)>>)], name: &str, commit: usize) -> Node {
    let mut entries = vec![(".git", Node::AnyDir)];
    let commits = &deps.iter().find(|(n, _)| *n == name).unwrap().1;
    for (fname, fconts) in &commits[commit] {
        entries.push((fname, file(fconts)));
    }
    dir(entries)
}

fn deps_tree(layout: &Layout, deps_commit_nums: &[(&str, usize)]) -> Node {
    let deps = test_deps();
    let mut entries = vec![("current_dpnd.txt", Node::AnyFile)];
    for (name, num) in deps_commit_nums {
        entries.push((name, dep_dir(&deps, name, *num)));
    }
    proj_tree(layout, vec![], entries)
}

// Writes each of `states` as the manifest in turn, runs the command after
// each, and checks that it succeeds and leaves exactly the dependencies of
// that state.
fn check_runs(root_test_dir_name: &str, output_dir: &str, states: &[&[(&str, usize)]]) {
    let mut layout = create(root_test_dir_name, &test_deps(), output_dir, states[0]);
    for state in states {
        layout.deps_file_conts =
            write_test_deps_file(&mut layout.world, &layout.proj_dir, output_dir, state);
        let proj_dir = layout.proj_dir.clone();
        let result = run_cmd(&mut layout.world, &proj_dir, false);
        assert_cmd(&result, 0, "");
        assert_contents(&layout.world, &layout.proj_dir, &deps_tree(&layout, state));
    }
}

fn check_new_dep_vsn_pulled_correctly(name: &str, output_dir: &str) {
    check_runs(name, output_dir, &[&[("my_scripts", 1)]]);
}

fn check_old_dep_vsn_pulled_correctly(name: &str, output_dir: &str) {
    check_runs(name, output_dir, &[&[("my_scripts", 0)]]);
}

fn check_run_in_proj_subdir(name: &str, output_dir: &str) {
    let mut layout = create(name, &test_deps(), output_dir, &[("my_scripts", 1)]);
    let proj_dir = layout.proj_dir.clone();
    let test_subdir = create_dir(&mut layout.world, &proj_dir, "sub");
    let result = run_cmd(&mut layout.world, &test_subdir, false);
    assert_cmd(&result, 0, "");
    let deps = test_deps();
    let tree = proj_tree(
        &layout,
        vec![("sub", dir(vec![]))],
        vec![("current_dpnd.txt", Node::AnyFile), ("my_scripts", dep_dir(&deps, "my_scripts", 1))],
    );
    assert_contents(&layout.world, &layout.proj_dir, &tree);
}

#[test]
fn success_new_dep_vsn_pulled_correctly() {
    check_new_dep_vsn_pulled_correctly("new_dep_vsn_pulled_correctly", "deps");
}

#[test]
fn cli_new_dep_vsn_pulled_correctly() {
    check_new_dep_vsn_pulled_correctly("new_dep_vsn_pulled_correctly", "target/deps");
}

#[test]
fn success_old_dep_vsn_pulled_correctly() {
    check_old_dep_vsn_pulled_correctly("old_dep_vsn_pulled_correctly", "deps");
}

#[test]
fn cli_old_dep_vsn_pulled_correctly() {
    check_old_dep_vsn_pulled_correctly("old_dep_vsn_pulled_correctly", "target/deps");
}

#[test]
fn success_run_in_proj_subdir() {
    check_run_in_proj_subdir("run_in_proj_subdir", "deps");
}

#[test]
fn cli_run_in_proj_subdir() {
    check_run_in_proj_subdir("run_in_proj_subdir", "target/deps");
}

#[test]
fn output_dir_is_subdir() {
    let mut layout = create("output_dir_is_subdir", &test_deps(), "target/deps", &[]);
    layout.deps_file_conts = format!(
        "# This is the output directory.\ntarget/deps\n\n# These are the dependencies.\n\
         my_scripts git git://localhost/my_scripts.git {}\n",
        hash_of(&layout.world, "my_scripts", 0),
    );
    let deps_file = format!("{}/dpnd.txt", layout.proj_dir);
    layout.world.write(&deps_file, layout.deps_file_conts.clone().as_bytes());
    let proj_dir = layout.proj_dir.clone();
    let result = run_cmd(&mut layout.world, &proj_dir, false);
    assert_cmd(&result, 0, "");
    assert_contents(&layout.world, &layout.proj_dir, &deps_tree(&layout, &[("my_scripts", 0)]));
}

#[test]
fn success_tool_is_idempotent() {
    check_runs("tool_is_idempotent", "deps", &[&[("my_scripts", 1)], &[("my_scripts", 1)]]);
}

#[test]
fn cli_tool_is_idempotent() {
    check_runs("tool_is_idempotent", "target/deps", &[&[("my_scripts", 1)], &[("my_scripts", 1)]]);
}

#[test]
fn success_add_first_dep() {
    check_runs("add_first_dep", "deps", &[&[], &[("my_scripts", 1)]]);
}

#[test]
fn cli_add_first_dep() {
    check_runs("add_first_dep", "target/deps", &[&[], &[("my_scripts", 1)]]);
}

const ONE: &[(&str, usize)] = &[("my_scripts", 1)];

const TWO: &[(&str, usize)] = &[("my_scripts", 1), ("your_scripts", 0)];

const THREE: &[(&str, usize)] = &[("my_scripts", 1), ("your_scripts", 0), ("their_scripts", 0)];

#[test]
fn success_add_second_dep() {
    check_runs("add_second_dep", "deps", &[ONE, TWO]);
}

#[test]
fn cli_add_second_dep() {
    check_runs("add_second_dep", "target/deps", &[ONE, TWO]);
}

#[test]
fn success_add_third_dep() {
    check_runs("add_third_dep", "deps", &[TWO, THREE]);
}

#[test]
fn cli_add_third_dep() {
    check_runs("add_third_dep", "target/deps", &[TWO, THREE]);
}

#[test]
fn success_rm_third_dep() {
    check_runs("rm_third_dep", "deps", &[THREE, TWO]);
}

#[test]
fn cli_rm_third_dep() {
    check_runs("rm_third_dep", "target/deps", &[THREE, TWO]);
}

#[test]
fn success_rm_second_dep() {
    check_runs("rm_second_dep", "deps", &[TWO, ONE]);
}

#[test]
fn cli_rm_second_dep() {
    check_runs("rm_second_dep", "target/deps", &[TWO, ONE]);
}

#[test]
fn success_rm_first_dep() {
    check_runs("rm_first_dep", "deps", &[ONE, &[]]);
}

#[test]
fn cli_rm_first_dep() {
    check_runs("rm_first_dep", "target/deps", &[ONE, &[]]);
}

#[test]
fn success_add_after_rm() {
    check_runs("add_after_rm", "deps", &[ONE, &[], ONE]);
}

#[test]
fn cli_add_after_rm() {
    check_runs("add_after_rm", "target/deps", &[ONE, &[], ONE]);
}

#[test]
fn success_upgrade_dep() {
    check_runs("downgrade_dep", "deps", &[&[("my_scripts", 0)], ONE]);
}

#[test]
fn cli_upgrade_dep() {
    check_runs("downgrade_dep", "target/deps", &[&[("my_scripts", 0)], ONE]);
}

#[test]
fn success_downgrade_dep() {
    check_runs("upgrade_dep", "deps", &[ONE, &[("my_scripts", 0)]]);
}

#[test]
fn cli_downgrade_dep() {
    check_runs("upgrade_dep", "target/deps", &[ONE, &[("my_scripts", 0)]]);
}

#[test]
fn success_same_dep_diff_vsns() {
    let mut layout = create("same_dep_diff_vsns", &test_deps(), "deps", &[]);
    layout.deps_file_conts = format!(
        "# This is the output directory.\ndeps\n\n# These are the dependencies.\n\
         my_scripts_v1 git git://localhost/my_scripts.git {}\n\
         my_scripts_v2 git git://localhost/my_scripts.git {}\n",
        hash_of(&layout.world, "my_scripts", 0),
        hash_of(&layout.world, "my_scripts", 1),
    );
    let deps_file = format!("{}/dpnd.txt", layout.proj_dir);
    layout.world.write(&deps_file, layout.deps_file_conts.clone().as_bytes());
    let proj_dir = layout.proj_dir.clone();
    let result = run_cmd(&mut layout.world, &proj_dir, false);
    assert_cmd(&result, 0, "");
    let deps = test_deps();
    let tree = proj_tree(
        &layout,
        vec![],
        vec![
            ("current_dpnd.txt", Node::AnyFile),
            ("my_scripts_v1", dep_dir(&deps, "my_scripts", 0)),
            ("my_scripts_v2", dep_dir(&deps, "my_scripts", 1)),
        ],
    );
    assert_contents(&layout.world, &layout.proj_dir, &tree);
}

fn all_scripts_deps() -> Node {
    let deps = test_deps();
    dir(
        vec![
            ("current_dpnd.txt", Node::AnyFile),
            ("my_scripts", dep_dir(&deps, "my_scripts", 1)),
            ("your_scripts", dep_dir(&deps, "your_scripts", 0)),
        ],
    )
}

fn all_scripts_tree(nested: bool) -> Node {
    let mut entries = vec![
        (".git", Node::AnyDir),
        ("dpnd.txt", Node::AnyFile),
        ("script.sh", file("echo 'hello, all!'")),
    ];
    if nested {
        entries.push(("deps", all_scripts_deps()));
    }
    dir(entries)
}

const NESTED_DEPS_FILE: &str = "deps\n\nall_scripts git git://localhost/all_scripts.git master\n";

fn create_with_deps_file(name: &str, deps: &[(&str, Vec<Vec<(&str, &str)>>)], conts: &str) -> Layout {
    let mut layout = create(name, deps, "deps", &[]);
    layout.deps_file_conts = conts.to_string();
    let deps_file = format!("{}/dpnd.txt", layout.proj_dir);
    layout.world.write(&deps_file, conts.as_bytes());
    layout
}

fn check_nested_deps_pulled_correctly(root_test_dir_name: &str) {
    let mut layout = create_with_deps_file(root_test_dir_name, &test_deps(), NESTED_DEPS_FILE);
    let proj_dir = layout.proj_dir.clone();
    let result = run_cmd(&mut layout.world, &proj_dir, true);
    assert_cmd(&result, 0, "");
    let tree = proj_tree(
        &layout,
        vec![],
        vec![("current_dpnd.txt", Node::AnyFile), ("all_scripts", all_scripts_tree(true))],
    );
    assert_contents(&layout.world, &layout.proj_dir, &tree);
}

#[test]
fn nested_success_nested_deps_pulled_correctly_with_long_flag() {
    check_nested_deps_pulled_correctly("nested_deps_pulled_correctly_with_long_flag");
}

#[test]
fn nested_success_nested_deps_pulled_correctly_with_short_flag() {
    check_nested_deps_pulled_correctly("nested_deps_pulled_correctly_with_short_flag");
}

fn check_nested_deps_not_pulled_without_recursion(test_name: &str) -> Layout {
    let mut layout = create_with_deps_file(test_name, &test_deps(), NESTED_DEPS_FILE);
    let proj_dir = layout.proj_dir.clone();
    let result = run_cmd(&mut layout.world, &proj_dir, false);
    assert_cmd(&result, 0, "");
    let tree = proj_tree(
        &layout,
        vec![],
        vec![("current_dpnd.txt", Node::AnyFile), ("all_scripts", all_scripts_tree(false))],
    );
    assert_contents(&layout.world, &layout.proj_dir, &tree);
    layout
}

#[test]
fn nested_success_nested_deps_not_pulled_without_recursion() {
    check_nested_deps_not_pulled_without_recursion("nested_deps_not_pulled_without_recursion");
}

fn check_run_with_recursion_after_run_without_recursion() {
    let mut layout = check_nested_deps_not_pulled_without_recursion(
        "run_with_recursion_after_run_without_recursion",
    );
    let proj_dir = layout.proj_dir.clone();
    let result = run_cmd(&mut layout.world, &proj_dir, true);
    assert_cmd(&result, 0, "");
    let tree = proj_tree(
        &layout,
        vec![],
        vec![("current_dpnd.txt", Node::AnyFile), ("all_scripts", all_scripts_tree(true))],
    );
    assert_contents(&layout.world, &layout.proj_dir, &tree);
}

#[test]
fn nested_success_run_with_recursion_after_run_without_recursion() {
    check_run_with_recursion_after_run_without_recursion();
}

#[test]
fn cli_run_with_recursion_after_run_without_recursion() {
    check_run_with_recursion_after_run_without_recursion();
}

#[test]
fn nested_success_double_nested_deps_pulled_correctly() {
    let mut test_deps = test_deps();
    test_deps.push(
        ("nested_scripts", vec![vec![("dpnd.txt", NESTED_DEPS_FILE), ("script.sh", "echo 'hello!'")]]),
    );
    let mut layout = create_with_deps_file(
        "double_nested_deps_pulled_correctly",
        &test_deps,
        "deps\n\nnested_scripts git git://localhost/nested_scripts.git master\n",
    );
    let proj_dir = layout.proj_dir.clone();
    let result = run_cmd(&mut layout.world, &proj_dir, true);
    assert_cmd(&result, 0, "");
    let tree = proj_tree(
        &layout,
        vec![],
        vec![
            ("current_dpnd.txt", Node::AnyFile),
            (
                "nested_scripts",
                dir(
                    vec![
                        (".git", Node::AnyDir),
                        ("dpnd.txt", file(NESTED_DEPS_FILE)),
                        ("script.sh", file("echo 'hello!'")),
                        (
                            "deps",
                            dir(
                                vec![
                                    ("current_dpnd.txt", Node::AnyFile),
                                    ("all_scripts", all_scripts_tree(true)),
                                ],
                            ),
                        ),
                    ],
                ),
            ),
        ],
    );
    assert_contents(&layout.world, &layout.proj_dir, &tree);
}

fn check_missing_deps_file() {
    let mut world = World::new();
    let root_test_dir = create_root_dir(&mut world, "missing_deps_file");
    let test_proj_dir = create_dir(&mut world, &root_test_dir, "proj");
    let result = run_cmd(&mut world, &test_proj_dir, false);
    assert_cmd(
        &result,
        1,
        "Couldn't find the dependency file 'dpnd.txt' in the current \
         directory or parent directories\n",
    );
}

#[test]
fn errors_missing_deps_file() {
    check_missing_deps_file();
}

#[test]
fn cli_missing_deps_file() {
    check_missing_deps_file();
}

#[test]
fn directory_as_deps_file() {
    let mut world = World::new();
    let root_test_dir = create_root_dir(&mut world, "directory_as_deps_file");
    let test_proj_dir = create_dir(&mut world, &root_test_dir, "proj");
    create_dir(&mut world, &test_proj_dir, "dpnd.txt");
    let result = run_cmd(&mut world, &test_proj_dir, false);
    assert_cmd(
        &result,
        1,
        "Couldn't read the dependency file at 'dpnd.txt': Is a directory \
         (os error 21)\n",
    );
}

// A project that holds only the manifest `conts`.
fn setup_test_with_deps_file(root_test_dir_name: &str, conts: &[u8]) -> (World, String) {
    let mut world = World::new();
    let root_test_dir = create_root_dir(&mut world, root_test_dir_name);
    let test_proj_dir = create_dir(&mut world, &root_test_dir, "proj");
    world.write(&format!("{}/dpnd.txt", test_proj_dir), conts);
    world.server_up = false;
    (world, test_proj_dir)
}

// Runs the command on a project that holds only the manifest `conts`, and
// checks that it fails with `stderr` and touches nothing.
fn check_fails(name: &str, conts: &[u8], stderr: &str) {
    let (mut world, test_proj_dir) = setup_test_with_deps_file(name, conts);
    let before = world.entries.clone();
    let result = run_cmd(&mut world, &test_proj_dir, false);
    assert_cmd(&result, 1, stderr);
    assert_eq!(world.entries, before);
    assert!(world.fetches.is_empty());
}

#[test]
fn errors_empty_deps_file() {
    check_fails(
        "empty_deps_file",
        b"",
        "dpnd.txt: This dependency file doesn't contain an output \
         directory\n",
    );
}

#[test]
fn errors_deps_file_invalid_utf8() {
    check_fails(
        "deps_file_invalid_utf8",
        &[0x00, 0x00, 0x00, 0x00, 0xa0, 0x00, 0x00, 0x00],
        "dpnd.txt: This dependency file contains an invalid UTF-8 \
         sequence after byte 4\n",
    );
}

#[test]
fn errors_deps_file_invalid_dep() {
    check_fails(
        "deps_file_invalid_dep",
        b"deps\n\nproj tool source version extra\n",
        "dpnd.txt:3: Invalid dependency specification: 'proj tool source \
         version extra'\n",
    );
}

#[test]
fn errors_deps_file_invalid_tool() {
    check_fails(
        "deps_file_invalid_tool",
        b"deps\n\nproj tool source version\n",
        "dpnd.txt:3: The dependency 'proj' specifies an invalid tool name \
         ('tool'); the supported tool is 'git'\n",
    );
}

const UNAVAILABLE_SRC: &str = "Couldn't retrieve the source for the dependency 'proj': `git \
     clone git://localhost/my_scripts.git .` failed with the \
     following output:\n\n\
     [!] Cloning into '.'...\n\
     [!] fatal: unable to connect to localhost:\n\
     [!] localhost[0: 127.0.0.1]: errno=Connection refused\n\
     [!] localhost[1: ::1]: errno=Cannot assign requested address\n\
     [!] \n\n";

fn check_unavailable_git_proj_src(conts: &[u8]) {
    let (mut world, test_proj_dir) = setup_test_with_deps_file("unavailable_git_proj_src", conts);
    let result = run_cmd(&mut world, &test_proj_dir, false);
    assert_cmd(&result, 1, UNAVAILABLE_SRC);
}

#[test]
fn errors_unavailable_git_proj_src() {
    check_unavailable_git_proj_src(b"deps\n\nproj git git://localhost/my_scripts.git master\n");
}

#[test]
fn cli_unavailable_git_proj_src() {
    check_unavailable_git_proj_src(
        b"target/deps\n\nproj git git://localhost/my_scripts.git master\n",
    );
}

#[test]
fn errors_unavailable_git_proj_vsn() {
    let mut world = World::new();
    let root_test_dir = create_root_dir(&mut world, "unavailable_git_proj_vsn");
    serve(&mut world, &[("my_scripts", vec![vec![("script.sh", "echo 'hello, world!'")]])]);
    let test_proj_dir = create_dir(&mut world, &root_test_dir, "proj");
    world.write(
        &format!("{}/dpnd.txt", test_proj_dir),
        b"deps\n\nmy_scripts git git://localhost/my_scripts.git bad_commit\n",
    );
    let result = run_cmd(&mut world, &test_proj_dir, false);
    assert_cmd(
        &result,
        1,
        "Couldn't change the version for the 'my_scripts' dependency: `git \
         checkout bad_commit` failed with the following output:\n\n\
         [!] error: pathspec 'bad_commit' did not match any file(s) known \
         to git\n\n",
    );
}

#[test]
fn errors_main_output_dir_is_file() {
    let mut world = World::new();
    let root_test_dir = create_root_dir(&mut world, "main_output_dir_is_file");
    let test_proj_dir = create_dir(&mut world, &root_test_dir, "proj");
    world.write(&format!("{}/deps", test_proj_dir), b"");
    world.write(&format!("{}/dpnd.txt", test_proj_dir), b"deps\n");
    let result = run_cmd(&mut world, &test_proj_dir, false);
    assert_cmd(
        &result,
        1,
        "Couldn't read the state file ('deps/current_dpnd.txt'): Not a \
         directory (os error 20)\n",
    );
}

#[test]
fn errors_dep_output_dir_is_file() {
    let mut world = World::new();
    let root_test_dir = create_root_dir(&mut world, "dep_output_dir_is_file");
    let test_proj_dir = create_dir(&mut world, &root_test_dir, "proj");
    let test_proj_deps_dir = create_dir(&mut world, &test_proj_dir, "deps");
    world.write(&format!("{}/my_scripts", test_proj_deps_dir), b"");
    world.write(
        &format!("{}/dpnd.txt", test_proj_dir),
        b"deps\n\nmy_scripts git git://localhost/my_scripts.git master\n",
    );
    let result = run_cmd(&mut world, &test_proj_dir, false);
    assert_cmd(
        &result,
        1,
        "Couldn't remove 'deps/my_scripts', the output directory for the \
         'my_scripts' dependency: Not a directory (os error 20)\n",
    );
}

#[test]
fn errors_dup_dep_names() {
    check_fails(
        "dup_dep_names",
        b"deps\n\nmy_scripts git git://localhost/my_scripts.git master\n\
          my_scripts git git://localhost/my_scripts.git master\n",
        "dpnd.txt:4: A dependency named 'my_scripts' is already defined \
         on line 3\n",
    );
}

#[test]
fn errors_invalid_dep_name() {
    check_fails(
        "invalid_dep_name",
        b"deps\n\nmy_scripts? git git://localhost/my_scripts.git master\n",
        "dpnd.txt:3: 'my_scripts?' contains an invalid character ('?') at \
         position 11; dependency names can only contain numbers, letters, \
         hyphens, underscores and periods\n",
    );
}

#[test]
fn output_dir_starts_with_relative_ref() {
    check_fails(
        "output_dir_starts_with_relative_ref",
        b"./deps\n",
        "dpnd.txt:1: This dependency file contains an invalid component \
         ('.') in its output directory\n",
    );
}

#[test]
fn output_dir_starts_with_back_ref() {
    check_fails(
        "output_dir_starts_with_back_ref",
        b"../deps\n",
        "dpnd.txt:1: This dependency file contains an invalid component \
         ('..') in its output directory\n",
    );
}

#[test]
fn output_dir_contains_relative_ref() {
    check_fails(
        "output_dir_contains_relative_ref",
        b"target/./deps\n",
        "dpnd.txt:1: This dependency file contains an invalid component \
         ('.') in its output directory\n",
    );
}

#[test]
fn output_dir_contains_back_ref() {
    check_fails(
        "output_dir_contains_back_ref",
        b"target/../deps\n",
        "dpnd.txt:1: This dependency file contains an invalid component \
         ('..') in its output directory\n",
    );
}

// A project whose one dependency, `bad_dep`, holds the manifest
// `nested_deps_file_conts`.
fn create_nested_test_setup(root_test_dir_name: &str, nested_deps_file_conts: &'static str) -> Layout {
    let mut test_deps = test_deps();
    test_deps.push(
        ("bad_dep", vec![vec![("dpnd.txt", nested_deps_file_conts), ("script.sh", "echo 'bad!'")]]),
    );
    create_with_deps_file(
        root_test_dir_name,
        &test_deps,
        "deps\n\nbad_dep git git://localhost/bad_dep.git master\n",
    )
}

fn check_nested_fails(name: &str, nested_deps_file_conts: &'static str, stderr: &str) {
    let mut layout = create_nested_test_setup(name, nested_deps_file_conts);
    let proj_dir = layout.proj_dir.clone();
    let result = run_cmd(&mut layout.world, &proj_dir, true);
    assert_cmd(&result, 1, stderr);
    let tree = proj_tree(
        &layout,
        vec![],
        vec![
            ("current_dpnd.txt", Node::AnyFile),
            (
                "bad_dep",
                dir(
                    vec![
                        (".git", Node::AnyDir),
                        ("dpnd.txt", file(nested_deps_file_conts)),
                        ("script.sh", file("echo 'bad!'")),
                    ],
                ),
            ),
        ],
    );
    assert_contents(&layout.world, &layout.proj_dir, &tree);
}

#[test]
fn nested_manifest_without_output_dir_is_refused() {
    check_nested_fails(
        "nested_manifest_without_output_dir",
        "",
        "deps/bad_dep/dpnd.txt: This nested dependency file (for 'bad_dep') doesn't contain an \
         output directory\n",
    );
}

#[test]
fn nested_manifest_with_malformed_line_is_refused() {
    check_nested_fails(
        "nested_manifest_with_malformed_line",
        "target/deps\n\nproj tool source version extra\n",
        "deps/bad_dep/dpnd.txt:3: Invalid dependency specification in nested dependency \
         'bad_dep': 'proj tool source version extra'\n",
    );
}

#[test]
fn nested_manifest_with_unknown_tool_is_refused() {
    check_nested_fails(
        "nested_manifest_with_unknown_tool",
        "target/deps\n\nproj tool source version\n",
        "deps/bad_dep/dpnd.txt:3: The dependency 'proj' of the nested dependency 'bad_dep' \
         specifies an invalid tool name ('tool'); the supported tool is 'git'\n",
    );
}

#[test]
fn nested_manifest_with_repeated_name_is_refused() {
    check_nested_fails(
        "nested_manifest_with_repeated_name",
        "deps\n\nmy_scripts git git://localhost/my_scripts.git master\n\
         my_scripts git git://localhost/my_scripts.git master\n",
        "deps/bad_dep/dpnd.txt:4: A dependency named 'my_scripts' is already defined on line 3 \
         in the nested dependency 'bad_dep'\n",
    );
}

#[test]
fn nested_manifest_with_reserved_name_is_refused() {
    check_nested_fails(
        "nested_manifest_with_reserved_name",
        "deps\n\ncurrent_dpnd.txt git git://localhost/my_scripts.git master\n",
        "deps/bad_dep/dpnd.txt:3: 'current_dpnd.txt' is a reserved name and can't be used as a \
         dependency name\n",
    );
}

fn check_unavailable_git_proj_src_in_nested_dep() {
    let mut layout = create_nested_test_setup(
        "unavailable_git_proj_src_in_nested_dep",
        "deps\n\nproj git git://localhost/no_scripts.git master\n",
    );
    let proj_dir = layout.proj_dir.clone();
    let result = run_cmd(&mut layout.world, &proj_dir, true);
    assert_cmd(
        &result,
        1,
        "Couldn't retrieve the source for the dependency 'proj' in the \
         nested dependency 'bad_dep': `git clone \
         git://localhost/no_scripts.git .` failed with the following \
         output:\n\n\
         [!] Cloning into '.'...\n\
         [!] fatal: remote error: access denied or repository not \
         exported: /no_scripts.git\n\n",
    );
}

#[test]
fn nested_errors_unavailable_git_proj_src_in_nested_dep() {
    check_unavailable_git_proj_src_in_nested_dep();
}

#[test]
fn cli_unavailable_git_proj_src_in_nested_dep() {
    check_unavailable_git_proj_src_in_nested_dep();
}

fn read_text(world: &World, path: &str) -> String {
    String::from_utf8(world.read(path).unwrap()).unwrap()
}

#[test]
fn first_install_fetches_and_records_the_dependency() {
    let mut world = World::new();
    serve(&mut world, &[("my_scripts", vec![vec![("script.sh", "echo 'hello world'")]])]);
    world.repos[0].1[0].hash = "abcd1234".to_string();
    world.write(
        "/proj/dpnd.txt",
        b"target/deps\n\nmy_scripts git git://localhost/my_scripts.git abcd1234\n",
    );
    let result = run_cmd(&mut world, "/proj", false);
    assert_cmd(&result, 0, "");
    assert_eq!(
        world.fetches,
        vec![
            (
                "git://localhost/my_scripts.git".to_string(),
                "abcd1234".to_string(),
                "/proj/target/deps/my_scripts".to_string(),
            ),
        ],
    );
    assert_eq!(world.entries.get("/proj/target/deps/my_scripts"), Some(&Entry::Dir));
    assert_eq!(
        read_text(&world, "/proj/target/deps/current_dpnd.txt"),
        "my_scripts git git://localhost/my_scripts.git abcd1234\n",
    );
}

#[test]
fn dropped_dependency_is_removed_and_the_ledger_emptied() {
    let mut world = World::new();
    serve(&mut world, &[("my_scripts", vec![vec![("script.sh", "echo 'hello world'")]])]);
    world.write(
        "/proj/dpnd.txt",
        b"target/deps\n\nmy_scripts git git://localhost/my_scripts.git master\n",
    );
    assert_cmd(&run_cmd(&mut world, "/proj", false), 0, "");
    world.write("/proj/dpnd.txt", b"target/deps\n");
    world.fetches.clear();
    assert_cmd(&run_cmd(&mut world, "/proj", false), 0, "");
    assert!(world.fetches.is_empty());
    assert_eq!(world.entries.get("/proj/target/deps/my_scripts"), None);
    assert_eq!(world.entries.get("/proj/target/deps/current_dpnd.txt"), Some(&Entry::File(vec![])));
}

#[test]
fn second_run_changes_nothing() {
    let mut world = World::new();
    serve(&mut world, &test_deps());
    world.write(
        "/proj/dpnd.txt",
        b"deps\nmy_scripts git git://localhost/my_scripts.git master\n\
          your_scripts git git://localhost/your_scripts.git master\n",
    );
    assert_cmd(&run_cmd(&mut world, "/proj", false), 0, "");
    let before = world.entries.clone();
    world.fetches.clear();
    world.server_up = false;
    assert_cmd(&run_cmd(&mut world, "/proj", false), 0, "");
    assert_eq!(world.entries, before);
    assert!(world.fetches.is_empty());
}

#[test]
fn project_without_dependencies_gets_a_ledger() {
    let mut world = World::new();
    world.write("/proj/dpnd.txt", b"deps\n");
    assert_cmd(&run_cmd(&mut world, "/proj", false), 0, "");
    assert_eq!(world.entries.get("/proj/deps/current_dpnd.txt"), Some(&Entry::File(vec![])));
}

#[test]
fn failed_fetch_leaves_the_ledger_true() {
    let mut world = World::new();
    serve(&mut world, &test_deps());
    world.write(
        "/proj/dpnd.txt",
        b"deps\nmy_scripts git git://localhost/my_scripts.git master\n\
          their_scripts git git://localhost/their_scripts.git master\n",
    );
    assert_cmd(&run_cmd(&mut world, "/proj", false), 0, "");
    // `their_scripts` is to go, `your_scripts` to come, and `missing`
    // cannot be fetched.
    world.write(
        "/proj/dpnd.txt",
        b"deps\nmy_scripts git git://localhost/my_scripts.git master\n\
          missing git git://localhost/missing.git master\n\
          your_scripts git git://localhost/your_scripts.git master\n",
    );
    let result = run_cmd(&mut world, "/proj", false);
    assert_eq!(result.code, 1);
    assert!(result.stderr.starts_with("Couldn't retrieve the source for the dependency 'missing'"));
    let ledger = read_text(&world, "/proj/deps/current_dpnd.txt");
    assert!(!ledger.contains("missing"));
    for line in ledger.lines() {
        let name = line.split(' ').next().unwrap();
        assert!(
            world.entries.contains_key(&format!("/proj/deps/{}/.git/origin", name)),
            "the ledger records '{}', which is not installed",
            name,
        );
    }
    for name in ["my_scripts", "your_scripts", "their_scripts"] {
        let installed = world.entries.contains_key(&format!("/proj/deps/{}/.git/origin", name));
        let recorded = ledger.lines().any(|l| l.split(' ').next() == Some(name));
        assert_eq!(installed, recorded, "'{}'", name);
    }
}

#[test]
fn changed_source_is_fetched_anew() {
    let mut world = World::new();
    serve(&mut world, &test_deps());
    world.write("/proj/dpnd.txt", b"deps\nscripts git git://localhost/my_scripts.git master\n");
    assert_cmd(&run_cmd(&mut world, "/proj", false), 0, "");
    assert_eq!(read_text(&world, "/proj/deps/scripts/script.sh"), "echo 'hello, world!'");
    world.write("/proj/dpnd.txt", b"deps\nscripts git git://localhost/your_scripts.git master\n");
    assert_cmd(&run_cmd(&mut world, "/proj", false), 0, "");
    assert_eq!(read_text(&world, "/proj/deps/scripts/script.sh"), "echo 'hello, sun!'");
    assert_eq!(
        read_text(&world, "/proj/deps/current_dpnd.txt"),
        "scripts git git://localhost/your_scripts.git master\n",
    );
}

#[test]
fn ledger_that_is_not_utf8_is_refused() {
    let mut world = World::new();
    world.write("/proj/dpnd.txt", b"deps\n");
    world.write("/proj/deps/current_dpnd.txt", &[b'a', 0xff, b'\n']);
    assert_cmd(
        &run_cmd(&mut world, "/proj", false),
        1,
        "The state file ('deps/current_dpnd.txt') contains an invalid UTF-8 sequence after byte \
         1\n",
    );
}

#[test]
fn malformed_ledger_is_refused() {
    let mut world = World::new();
    world.write("/proj/dpnd.txt", b"deps\n");
    world.write("/proj/deps/current_dpnd.txt", b"only three words\n");
    assert_cmd(
        &run_cmd(&mut world, "/proj", false),
        1,
        "The state file ('deps/current_dpnd.txt') is invalid (deps/current_dpnd.txt:1: Invalid \
         dependency specification: 'only three words'), please remove this file and try again\n",
    );
}

#[test]
fn ledger_that_is_a_directory_is_refused() {
    let mut world = World::new();
    world.write("/proj/dpnd.txt", b"deps\n");
    world.mkdirs("/proj/deps/current_dpnd.txt");
    assert_cmd(
        &run_cmd(&mut world, "/proj", false),
        1,
        "Couldn't read the state file ('deps/current_dpnd.txt'): Is a directory (os error 21)\n",
    );
}
