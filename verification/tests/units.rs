// The parts of the library one by one, on chosen values.

use dpnd::dep_tools::{owned_strs_to_strings, CmdOutput, FetchError, Git, GitCmdError, Version};
use dpnd::deps::{Dependency, Deps};
use dpnd::host::{FsPath, IoFailure, Reply, Request, WriteStateFileError};
use dpnd::install::{read_deps_file, try_read, Installer, ReadDepsFileError, Search};
use dpnd::ledger::{decode, encode, encode_lines};
use dpnd::manifest::{
    check_dep_name, conf_line_is_skippable, parse_output_dir, ParseDepsConfError, ParseDepsError,
    ParseOutputDirError,
};
use dpnd::plan::{actions, Action};
use dpnd::reconcile::{install_deps, plan_todo, InstallDeps, InstallDepsError, Stage, Step, Todo};
use dpnd::render_errors::{
    prefix_lines, render_git_cmd_err, render_install_deps_error, render_number,
    render_parse_deps_error, render_path, render_rel_path_else_abs, render_write_cur_deps_err,
};
use dpnd::text::{
    from_utf8, is_ascii_space_char, is_space_char, split_lines, split_on, split_words,
    trim_line_start, Utf8Failure,
};
use regex::Regex;

fn strings(v: &[&str]) -> Vec<String> {
    v.iter().map(|s| s.to_string()).collect()
}

fn path(s: &str) -> FsPath {
    FsPath {
        absolute: s.starts_with('/'),
        parts: s.split('/').filter(|p| !p.is_empty()).map(|p| p.to_string()).collect(),
    }
}

fn dep(source: &str, version: &str) -> Dependency {
    Dependency {
        tool_name: "git".to_string(),
        source: source.to_string(),
        version: Version(version.to_string()),
    }
}

fn deps(entries: &[(&str, &str, &str)]) -> Deps {
    let mut d = Deps::new();
    for (name, source, version) in entries {
        assert!(d.insert_new(name.to_string(), dep(source, version)));
    }
    d
}

fn installer() -> Installer {
    Installer {
        deps_file_name: "dpnd.txt".to_string(),
        state_file_name: "current_dpnd.txt".to_string(),
        bad_dep_name_chars: Regex::new(r"[^a-zA-Z0-9._-]").unwrap(),
        tools: strings(&["git"]),
    }
}

fn io_failure(message: &str) -> IoFailure {
    IoFailure { not_found: false, message: message.to_string() }
}

#[test]
fn lines_end_at_line_feeds() {
    assert_eq!(split_lines(""), Vec::<String>::new());
    assert_eq!(split_lines("\n"), strings(&[""]));
    assert_eq!(split_lines("a\nb"), strings(&["a", "b"]));
    assert_eq!(split_lines("a\n\nb\n"), strings(&["a", "", "b"]));
    assert_eq!(split_lines("a\r\nb\r\n"), strings(&["a", "b"]));
    assert_eq!(split_lines("a\rb\r"), strings(&["a\rb\r"]));
    assert_eq!(split_lines("a\r\r\n"), strings(&["a\r"]));
}

#[test]
fn lines_are_those_of_std() {
    for text in ["", "x", "\n\n", "a\r\n\r\nb", "\ra\n\r", "one\ntwo\r\nthree\r"] {
        let expected: Vec<String> = text.lines().map(|l| l.to_string()).collect();
        assert_eq!(split_lines(text), expected, "{:?}", text);
    }
}

#[test]
fn leading_whitespace_is_trimmed() {
    assert_eq!(trim_line_start("  \t a b "), "a b ");
    assert_eq!(trim_line_start("\u{a0}\u{2003}\u{3000}x\u{a0}"), "x\u{a0}");
    assert_eq!(trim_line_start("   "), "");
    assert_eq!(trim_line_start("\u{200b}x"), "\u{200b}x");
}

#[test]
fn whitespace_is_that_of_std() {
    for u in 0..0x3100u32 {
        if let Some(c) = char::from_u32(u) {
            assert_eq!(is_space_char(c), c.is_whitespace(), "{:x}", u);
            assert_eq!(is_ascii_space_char(c), c.is_ascii_whitespace(), "{:x}", u);
        }
    }
}

#[test]
fn words_are_runs_without_ascii_whitespace() {
    assert_eq!(split_words("a  b\tc\r\n"), strings(&["a", "b", "c"]));
    assert_eq!(split_words("  "), Vec::<String>::new());
    assert_eq!(split_words("a\u{a0}b c\u{b}d"), strings(&["a\u{a0}b", "c\u{b}d"]));
}

#[test]
fn pieces_lie_between_separators() {
    assert_eq!(split_on("a/b", '/'), strings(&["a", "b"]));
    assert_eq!(split_on("", '/'), strings(&[""]));
    assert_eq!(split_on("/a//b/", '/'), strings(&["", "a", "", "b", ""]));
}

#[test]
fn text_is_decoded_from_utf8() {
    assert_eq!(from_utf8("h\u{e9}llo".as_bytes().to_vec()), Ok("h\u{e9}llo".to_string()));
    assert_eq!(from_utf8(vec![]), Ok(String::new()));
    assert_eq!(from_utf8(vec![b'a', 0xff, b'b']), Err(Utf8Failure { valid_up_to: 1 }));
    assert_eq!(from_utf8(vec![b'a', b'b', 0xe2, 0x82]), Err(Utf8Failure { valid_up_to: 2 }));
}

#[test]
fn comments_and_empty_lines_are_skippable() {
    assert!(conf_line_is_skippable(""));
    assert!(conf_line_is_skippable("# deps"));
    assert!(!conf_line_is_skippable("deps"));
    assert!(!conf_line_is_skippable(" #"));
}

#[test]
fn output_dir_is_the_first_line_that_counts() {
    let lines = strings(&["", "  # comment", " target/deps", "x git y z"]);
    assert_eq!(parse_output_dir(&lines), Ok((strings(&["target", "deps"]), 3)));
    assert_eq!(parse_output_dir(&strings(&["/a//b/"])), Ok((strings(&["a", "b"]), 1)));
    assert_eq!(parse_output_dir(&strings(&["...", "x"])), Ok((strings(&["..."]), 1)));
    assert_eq!(parse_output_dir(&strings(&["deps # here"])), Ok((strings(&["deps # here"]), 1)));
}

#[test]
fn output_dir_may_not_be_missing_or_hold_dots() {
    assert_eq!(parse_output_dir(&strings(&[])), Err(ParseOutputDirError::MissingOutputDir));
    assert_eq!(
        parse_output_dir(&strings(&["# one", "", "  "])),
        Err(ParseOutputDirError::MissingOutputDir),
    );
    assert_eq!(
        parse_output_dir(&strings(&["", "a/../b/."])),
        Err(ParseOutputDirError::InvalidPart { ln_num: 2, part: "..".to_string() }),
    );
    assert_eq!(
        parse_output_dir(&strings(&["a/."])),
        Err(ParseOutputDirError::InvalidPart { ln_num: 1, part: ".".to_string() }),
    );
}

#[test]
fn names_are_judged_by_what_was_found_in_them() {
    let name = "a?b".to_string();
    assert_eq!(
        check_dep_name("ledger", 7, &name, Some(1)),
        Some(
            ParseDepsError::DepNameContainsInvalidChar {
                ln_num: 7,
                dep_name: name.clone(),
                bad_char_idx: 1,
            },
        ),
    );
    assert_eq!(check_dep_name("ledger", 7, &name, None), None);
    let reserved = "ledger".to_string();
    assert_eq!(
        check_dep_name("ledger", 2, &reserved, None),
        Some(ParseDepsError::ReservedDepName { ln_num: 2, dep_name: reserved.clone() }),
    );
    assert_eq!(
        check_dep_name("ledger", 2, &reserved, Some(0)),
        Some(
            ParseDepsError::DepNameContainsInvalidChar {
                ln_num: 2,
                dep_name: reserved,
                bad_char_idx: 0,
            },
        ),
    );
}

#[test]
fn manifest_declares_its_dependencies_in_order() {
    let conf = installer()
        .parse_deps_conf("# out\ntarget/deps\n\n  b git src_b 1.0 \n# c\na git src_a v2\r\n")
        .unwrap();
    assert_eq!(conf.output_dir, strings(&["target", "deps"]));
    assert_eq!(conf.deps, deps(&[("b", "src_b", "1.0"), ("a", "src_a", "v2")]));
}

#[test]
fn manifest_faults_are_told_apart() {
    let parse = |text: &str| match installer().parse_deps_conf(text) {
        Err(ParseDepsConfError::ParseDepsFailed { source }) => source,
        other => panic!("unexpected: {:?}", other),
    };
    assert_eq!(
        parse("deps\nproj tool source version extra"),
        ParseDepsError::InvalidDepSpec {
            ln_num: 2,
            line: "proj tool source version extra".to_string(),
        },
    );
    assert_eq!(
        parse("deps\n\n  a git\t\n"),
        ParseDepsError::InvalidDepSpec { ln_num: 3, line: "a git\t".to_string() },
    );
    assert_eq!(
        parse("deps\na git s v\n\u{e9}t\u{e9}? tool s v"),
        ParseDepsError::DepNameContainsInvalidChar {
            ln_num: 3,
            dep_name: "\u{e9}t\u{e9}?".to_string(),
            bad_char_idx: 0,
        },
    );
    assert_eq!(
        parse("deps\nab\u{e9} git s v"),
        ParseDepsError::DepNameContainsInvalidChar {
            ln_num: 2,
            dep_name: "ab\u{e9}".to_string(),
            bad_char_idx: 2,
        },
    );
    assert_eq!(
        parse("deps\ncurrent_dpnd.txt tool s v"),
        ParseDepsError::ReservedDepName { ln_num: 2, dep_name: "current_dpnd.txt".to_string() },
    );
    assert_eq!(
        parse("deps\n\na git s v\nb git s v\n# x\na hg t w\n"),
        ParseDepsError::DupDepName { ln_num: 6, dep_name: "a".to_string(), orig_ln_num: 3 },
    );
    assert_eq!(
        parse("deps\na hg s v"),
        ParseDepsError::UnknownTool {
            ln_num: 2,
            dep_name: "a".to_string(),
            tool_name: "hg".to_string(),
        },
    );
    assert_eq!(
        installer().parse_deps_conf("./deps\nbad line"),
        Err(
            ParseDepsConfError::ParseOutputDirFailed {
                source: ParseOutputDirError::InvalidPart { ln_num: 1, part: ".".to_string() },
            },
        ),
    );
}

#[test]
fn dependency_lines_are_read_from_a_given_line_on() {
    let lines = strings(&["not a dependency", "a git s v", "b git t w"]);
    assert_eq!(
        installer().parse_deps(&lines, 1, true),
        Ok(deps(&[("a", "s", "v"), ("b", "t", "w")])),
    );
    assert_eq!(installer().parse_deps(&lines, 3, true), Ok(Deps::new()));
    assert_eq!(installer().parse_deps(&lines, 9, true), Ok(Deps::new()));
    assert_eq!(
        installer().parse_deps(&lines, 0, true),
        Err(ParseDepsError::InvalidDepSpec { ln_num: 1, line: "not a dependency".to_string() }),
    );
}

#[test]
fn ledger_is_one_line_for_each_dependency() {
    let d = deps(&[("b", "git://host/b.git", "abcd1234"), ("a", "src", "v1")]);
    assert_eq!(encode(&d), "b git git://host/b.git abcd1234\na git src v1\n");
    assert_eq!(encode_lines(&d), strings(&["b git git://host/b.git abcd1234\n", "a git src v1\n"]));
    assert_eq!(encode(&Deps::new()), "");
}

#[test]
fn ledger_reads_back_as_it_was_written() {
    let d = deps(&[("z", "git://host/z.git", "0123"), ("my-dep.v2", "../local", "master"), ("a", "s", "v")]);
    assert_eq!(decode(&installer(), &encode(&d)), Ok(d));
    assert_eq!(decode(&installer(), ""), Ok(Deps::new()));
}

#[test]
fn ledger_names_are_not_judged() {
    assert_eq!(
        decode(&installer(), "a?b git s v\ncurrent_dpnd.txt git t w\n"),
        Ok(deps(&[("a?b", "s", "v"), ("current_dpnd.txt", "t", "w")])),
    );
}

#[test]
fn ledger_faults_are_found() {
    assert_eq!(
        decode(&installer(), "a git s\n"),
        Err(ParseDepsError::InvalidDepSpec { ln_num: 1, line: "a git s".to_string() }),
    );
    assert_eq!(
        decode(&installer(), "a git s v\na git s v\n"),
        Err(ParseDepsError::DupDepName { ln_num: 2, dep_name: "a".to_string(), orig_ln_num: 1 }),
    );
    assert_eq!(
        decode(&installer(), "a svn s v\n"),
        Err(
            ParseDepsError::UnknownTool {
                ln_num: 1,
                dep_name: "a".to_string(),
                tool_name: "svn".to_string(),
            },
        ),
    );
}

#[test]
fn dependencies_are_kept_by_name() {
    let mut d = deps(&[("a", "s", "v"), ("b", "t", "w")]);
    assert!(!d.insert_new("a".to_string(), dep("other", "x")));
    assert_eq!(d.len(), 2);
    assert_eq!(d.get(&"a".to_string()), Some(&dep("s", "v")));
    assert_eq!(d.get(&"c".to_string()), None);
    assert!(d.contains_key(&"b".to_string()));
    assert_eq!(d.position(&"b".to_string()), Some(1));
    assert_eq!(d.name_at(1), "b");
    assert_eq!(d.dep_at(0), &dep("s", "v"));
    assert_eq!(d.remove(&"a".to_string()), Some(dep("s", "v")));
    assert_eq!(d.remove(&"a".to_string()), None);
    assert_eq!(d, deps(&[("b", "t", "w")]));
    assert!(dep("s", "v").same_as(&dep("s", "v")));
    assert!(!dep("s", "v").same_as(&dep("s", "w")));
    assert!(!Version("1".to_string()).same_as(&Version("2".to_string())));
}

#[test]
fn plan_installs_what_is_new_or_changed_and_removes_what_is_gone() {
    let cur = deps(&[("same", "s", "v"), ("gone", "g", "1"), ("vsn", "s", "1"), ("src", "a", "1")]);
    let new = deps(&[("vsn", "s", "2"), ("same", "s", "v"), ("new", "n", "1"), ("src", "b", "1")]);
    assert_eq!(
        actions(&cur, &new),
        vec![
            (Action::Install, "vsn".to_string()),
            (Action::Install, "new".to_string()),
            (Action::Install, "src".to_string()),
            (Action::Remove, "gone".to_string()),
        ],
    );
}

#[test]
fn plan_of_the_same_is_empty() {
    let d = deps(&[("a", "s", "v"), ("b", "t", "w")]);
    let other_order = deps(&[("b", "t", "w"), ("a", "s", "v")]);
    assert_eq!(actions(&d, &d), vec![]);
    assert_eq!(actions(&d, &other_order), vec![]);
    assert_eq!(actions(&Deps::new(), &Deps::new()), vec![]);
}

#[test]
fn plan_notices_another_tool() {
    let cur = deps(&[("a", "s", "v")]);
    let mut new = Deps::new();
    new.insert_new(
        "a".to_string(),
        Dependency {
            tool_name: "hg".to_string(),
            source: "s".to_string(),
            version: Version("v".to_string()),
        },
    );
    assert_eq!(actions(&cur, &new), vec![(Action::Install, "a".to_string())]);
}

#[test]
fn planned_installs_hold_their_dependency() {
    let cur = deps(&[("gone", "g", "1")]);
    let new = deps(&[("new", "n", "2")]);
    assert_eq!(
        plan_todo(&cur, &new),
        vec![
            Todo::Install { dep_name: "new".to_string(), dep: dep("n", "2") },
            Todo::Remove { dep_name: "gone".to_string() },
        ],
    );
}

fn ask(step: Step<u8>) -> InstallDeps {
    match step {
        Step::Ask(run) => run,
        Step::Finished(result) => panic!("ended with {:?}", result),
    }
}

fn begin(cur: Deps, new: &Deps) -> InstallDeps {
    ask(install_deps(path("/p/deps"), path("/p/deps/ledger"), true, cur, new))
}

const WROTE: Reply<u8> = Reply::Written(Ok(()));

const DID: Reply<u8> = Reply::Done(Ok(()));

#[test]
fn executor_asks_for_one_thing_after_the_other() {
    let cur = deps(&[("keep", "k", "1"), ("gone", "g", "1")]);
    let new = deps(&[("keep", "k", "1"), ("new", "n", "2")]);
    let run = begin(cur, &new);
    assert_eq!(run.request(), Request::RemoveDirAll { path: path("/p/deps/gone") });
    let run = ask(run.resume(DID));
    assert_eq!(
        run.request(),
        Request::WriteStateFile { path: path("/p/deps/ledger"), deps: deps(&[("keep", "k", "1")]) },
    );
    let run = ask(run.resume(WROTE));
    assert_eq!(run.request(), Request::RemoveDirAll { path: path("/p/deps/new") });
    let run = ask(
        run.resume(
            Reply::Done(Err(IoFailure { not_found: true, message: "no such".to_string() })),
        ),
    );
    assert_eq!(
        run.request(),
        Request::WriteStateFile { path: path("/p/deps/ledger"), deps: deps(&[("keep", "k", "1")]) },
    );
    let run = ask(run.resume(WROTE));
    assert_eq!(run.request(), Request::CreateDir { path: path("/p/deps/new") });
    let run = ask(run.resume(DID));
    assert_eq!(
        run.request(),
        Request::Fetch {
            tool_name: "git".to_string(),
            source: "n".to_string(),
            version: Version("2".to_string()),
            out_dir: path("/p/deps/new"),
        },
    );
    let run = ask(run.resume(Reply::Fetched(Ok(()))));
    assert_eq!(
        run.request(),
        Request::WriteStateFile {
            path: path("/p/deps/ledger"),
            deps: deps(&[("keep", "k", "1"), ("new", "n", "2")]),
        },
    );
    assert_eq!(run.resume(WROTE), Step::Finished(Ok(())));
}

#[test]
fn executor_replaces_a_changed_dependency() {
    let run = begin(deps(&[("a", "s", "1")]), &deps(&[("a", "s", "2")]));
    assert_eq!(run.request(), Request::RemoveDirAll { path: path("/p/deps/a") });
    let run = ask(run.resume(DID));
    assert_eq!(
        run.request(),
        Request::WriteStateFile { path: path("/p/deps/ledger"), deps: Deps::new() },
    );
    let run = ask(run.resume(WROTE));
    let run = ask(run.resume(DID));
    let run = ask(run.resume(Reply::Fetched(Ok(()))));
    assert_eq!(
        run.request(),
        Request::WriteStateFile { path: path("/p/deps/ledger"), deps: deps(&[("a", "s", "2")]) },
    );
}

#[test]
fn executor_with_nothing_to_do_writes_a_missing_ledger_only() {
    let d = deps(&[("a", "s", "1")]);
    assert_eq!(
        install_deps::<u8>(path("/p/deps"), path("/p/deps/ledger"), true, deps(&[("a", "s", "1")]), &d),
        Step::Finished(Ok(())),
    );
    let run = ask(install_deps(path("deps"), path("deps/ledger"), false, Deps::new(), &Deps::new()));
    assert_eq!(run.stage, Stage::WritingInitial);
    assert_eq!(run.request(), Request::WriteStateFile { path: path("deps/ledger"), deps: Deps::new() });
    assert_eq!(run.resume(WROTE), Step::Finished(Ok(())));
    let run = ask(install_deps(path("deps"), path("deps/ledger"), false, Deps::new(), &Deps::new()));
    let source = WriteStateFileError::OpenFailed { source: io_failure("denied") };
    assert_eq!(
        run.resume(Reply::<u8>::Written(Err(WriteStateFileError::OpenFailed { source: io_failure("denied") }))),
        Step::Finished(
            Err(
                InstallDepsError::WriteInitialCurDepsFailed {
                    source,
                    state_file_path: path("deps/ledger"),
                },
            ),
        ),
    );
}

#[test]
fn executor_ignores_an_answer_of_another_kind() {
    let run = begin(Deps::new(), &deps(&[("a", "s", "1")]));
    let before = begin(Deps::new(), &deps(&[("a", "s", "1")]));
    assert_eq!(run.resume(WROTE), Step::Ask(before));
    let run = begin(Deps::new(), &deps(&[("a", "s", "1")]));
    let run = ask(run.resume(DID));
    let request = run.request();
    let run = ask(run.resume(Reply::File(Ok(vec![]))));
    assert_eq!(run.request(), request);
}

#[test]
fn executor_ends_at_the_first_failure() {
    let new = deps(&[("a", "s", "1")]);
    let run = begin(Deps::new(), &new);
    assert_eq!(
        run.resume(Reply::<u8>::Done(Err(io_failure("busy")))),
        Step::Finished(
            Err(
                InstallDepsError::RemoveOldDepOutputDirFailed {
                    source: io_failure("busy"),
                    dep_name: "a".to_string(),
                    path: path("/p/deps/a"),
                },
            ),
        ),
    );
    let write_failed = || WriteStateFileError::WriteDepLineFailed { source: io_failure("full") };
    let run = ask(begin(Deps::new(), &new).resume(DID));
    assert_eq!(
        run.resume(Reply::<u8>::Written(Err(write_failed()))),
        Step::Finished(
            Err(
                InstallDepsError::WriteCurDepsAfterRemoveFailed {
                    source: write_failed(),
                    dep_name: "a".to_string(),
                    state_file_path: path("/p/deps/ledger"),
                },
            ),
        ),
    );
    let run = ask(ask(begin(Deps::new(), &new).resume(DID)).resume(WROTE));
    assert_eq!(
        run.resume(Reply::<u8>::Done(Err(io_failure("exists")))),
        Step::Finished(
            Err(
                InstallDepsError::CreateDepOutputDirFailed {
                    source: io_failure("exists"),
                    dep_name: "a".to_string(),
                    path: path("/p/deps/a"),
                },
            ),
        ),
    );
    let run = ask(ask(ask(begin(Deps::new(), &new).resume(DID)).resume(WROTE)).resume(DID));
    assert_eq!(
        run.resume(Reply::Fetched(Err(FetchError::VersionChangeFailed { source: 7u8 }))),
        Step::Finished(
            Err(
                InstallDepsError::FetchFailed {
                    source: FetchError::VersionChangeFailed { source: 7u8 },
                    dep_name: "a".to_string(),
                },
            ),
        ),
    );
    let run = ask(ask(ask(begin(Deps::new(), &new).resume(DID)).resume(WROTE)).resume(DID));
    let run = ask(run.resume(Reply::Fetched(Ok(()))));
    assert_eq!(
        run.resume(Reply::<u8>::Written(Err(write_failed()))),
        Step::Finished(
            Err(
                InstallDepsError::WriteCurDepsAfterInstallFailed {
                    source: write_failed(),
                    dep_name: "a".to_string(),
                    state_file_path: path("/p/deps/ledger"),
                },
            ),
        ),
    );
}

#[test]
fn paths_are_joined_and_climbed() {
    assert_eq!(path("/a").join("b"), path("/a/b"));
    assert_eq!(path("a").join_all(&strings(&["b", "c"])), path("a/b/c"));
    assert_eq!(path("/a/b").parent(), Some(path("/a")));
    assert_eq!(path("/a").parent(), Some(path("/")));
    assert_eq!(path("/").parent(), None);
    assert_eq!(path("").parent(), None);
}

#[test]
fn reads_tell_a_missing_file_from_a_failure() {
    assert_eq!(try_read(Ok(vec![1])), Ok(Some(vec![1])));
    assert_eq!(try_read(Err(IoFailure { not_found: true, message: "gone".to_string() })), Ok(None));
    assert_eq!(try_read(Err(io_failure("denied"))), Err(io_failure("denied")));
}

#[test]
fn manifest_is_looked_for_upwards() {
    let missing = || Err(IoFailure { not_found: true, message: "gone".to_string() });
    assert_eq!(
        read_deps_file(path("/a/b"), "dpnd.txt", Ok(vec![7])),
        Ok(
            Search::Found {
                proj_dir: path("/a/b"),
                deps_file_path: path("/a/b/dpnd.txt"),
                conts: vec![7],
            },
        ),
    );
    assert_eq!(read_deps_file(path("/a/b"), "dpnd.txt", missing()), Ok(Search::Above { dir: path("/a") }));
    assert_eq!(read_deps_file(path("/"), "dpnd.txt", missing()), Ok(Search::Nowhere));
    assert_eq!(
        read_deps_file(path("/a"), "dpnd.txt", Err(io_failure("denied"))),
        Err(
            ReadDepsFileError::ReadFailed {
                source: io_failure("denied"),
                deps_file_path: path("/a/dpnd.txt"),
            },
        ),
    );
}

#[test]
fn git_clones_then_checks_out() {
    let git = Git {  };
    assert_eq!(git.name(), "git");
    assert_eq!(
        git.steps("git://host/x.git", &Version("abc".to_string())),
        vec![strings(&["clone", "git://host/x.git", "."]), strings(&["checkout", "abc"])],
    );
    assert_eq!(owned_strs_to_strings(vec!["clone", "."]), strings(&["clone", "."]));
}

#[test]
fn git_failures_are_told_apart_by_their_step() {
    let git = Git {  };
    let output = |success: bool| CmdOutput { success, stdout: vec![1], stderr: vec![2] };
    assert_eq!(git.check(0, strings(&["clone"]), Ok(output(true))), Ok(()));
    assert_eq!(git.check(1, strings(&["checkout"]), Ok(output(true))), Ok(()));
    assert_eq!(
        git.check(0, strings(&["clone"]), Ok(output(false))),
        Err(
            FetchError::RetrieveFailed {
                source: GitCmdError::NotSuccess { args: strings(&["clone"]), output: output(false) },
            },
        ),
    );
    assert_eq!(
        git.check(1, strings(&["checkout"]), Ok(output(false))),
        Err(
            FetchError::VersionChangeFailed {
                source: GitCmdError::NotSuccess {
                    args: strings(&["checkout"]),
                    output: output(false),
                },
            },
        ),
    );
    assert_eq!(
        git.check(0, strings(&["clone"]), Err(io_failure("no git"))),
        Err(
            FetchError::RetrieveFailed {
                source: GitCmdError::StartFailed {
                    source: io_failure("no git"),
                    args: strings(&["clone"]),
                },
            },
        ),
    );
    assert_eq!(
        git.check(5, strings(&["checkout"]), Err(io_failure("no git"))),
        Err(
            FetchError::VersionChangeFailed {
                source: GitCmdError::StartFailed {
                    source: io_failure("no git"),
                    args: strings(&["checkout"]),
                },
            },
        ),
    );
}

#[test]
fn numbers_are_shown_in_decimal() {
    assert_eq!(render_number(0), "0");
    assert_eq!(render_number(9), "9");
    assert_eq!(render_number(10), "10");
    assert_eq!(render_number(1234567890), "1234567890");
    assert_eq!(render_number(u128::MAX), u128::MAX.to_string());
}

#[test]
fn paths_are_shown_relative_where_they_can_be() {
    assert_eq!(render_path(&path("/a/b")), "/a/b");
    assert_eq!(render_path(&path("a/b")), "a/b");
    assert_eq!(render_path(&path("/")), "/");
    assert_eq!(render_path(&path("")), "");
    assert_eq!(render_rel_path_else_abs(&path("/a"), &path("/a/b/c")), "b/c");
    assert_eq!(render_rel_path_else_abs(&path("/a/b"), &path("/a/b")), "");
    assert_eq!(render_rel_path_else_abs(&path("/a/x"), &path("/a/b/c")), "/a/b/c");
    assert_eq!(render_rel_path_else_abs(&path("/a/b/c/d"), &path("/a/b")), "/a/b");
    assert_eq!(render_rel_path_else_abs(&path("a"), &path("/a/b")), "/a/b");
    assert_eq!(render_rel_path_else_abs(&path("/a"), &path("a/b")), "a/b");
    assert_eq!(render_rel_path_else_abs(&path(""), &path("/a/b")), "/a/b");
    assert_eq!(render_rel_path_else_abs(&path("/"), &path("/a/b")), "a/b");
}

#[test]
fn lines_are_prefixed() {
    assert_eq!(prefix_lines("", "> "), "");
    assert_eq!(prefix_lines("a", "> "), "> a");
    assert_eq!(prefix_lines("a\n", "> "), "> a\n");
    assert_eq!(prefix_lines("a\nb", "> "), "> a\n> b");
    assert_eq!(prefix_lines("a\n\n", "> "), "> a\n> \n");
    assert_eq!(prefix_lines("\n", "> "), "> \n");
}

#[test]
fn git_failures_are_shown_with_what_git_wrote() {
    let started = GitCmdError::StartFailed {
        source: io_failure("No such file or directory (os error 2)"),
        args: strings(&["clone", "src", "."]),
    };
    assert_eq!(
        render_git_cmd_err(&started),
        "couldn't start `git clone src .`: No such file or directory (os error 2)",
    );
    let failed = GitCmdError::NotSuccess {
        args: strings(&["checkout", "v1"]),
        output: CmdOutput {
            success: false,
            stdout: b"one\ntwo\n".to_vec(),
            stderr: vec![0xff, 0, 10, 255],
        },
    };
    assert_eq!(
        render_git_cmd_err(&failed),
        "`git checkout v1` failed with the following output:\n\n[>] one\n[>] two\nSTDERR (not \
         UTF-8): [255, 0, 10, 255]",
    );
}

#[test]
fn ledger_write_failures_say_after_what() {
    let cwd = path("/p");
    let ledger = path("/p/deps/current_dpnd.txt");
    assert_eq!(
        render_write_cur_deps_err(
            &WriteStateFileError::OpenFailed { source: io_failure("denied") },
            &cwd,
            &ledger,
            "updating dependencies",
        ),
        "Couldn't open the state file ('deps/current_dpnd.txt') for writing after updating \
         dependencies: denied",
    );
    let err: InstallDepsError<GitCmdError> = InstallDepsError::WriteCurDepsAfterInstallFailed {
        source: WriteStateFileError::WriteDepLineFailed { source: io_failure("full") },
        dep_name: "a".to_string(),
        state_file_path: path("/q/ledger"),
    };
    assert_eq!(
        render_install_deps_error(&err, &cwd, ""),
        "Couldn't write to the state file ('/q/ledger') after installing 'a': full",
    );
    let err: InstallDepsError<GitCmdError> = InstallDepsError::WriteCurDepsAfterRemoveFailed {
        source: WriteStateFileError::OpenFailed { source: io_failure("denied") },
        dep_name: "a".to_string(),
        state_file_path: ledger,
    };
    assert_eq!(
        render_install_deps_error(&err, &cwd, ""),
        "Couldn't open the state file ('deps/current_dpnd.txt') for writing after removing 'a': \
         denied",
    );
    let err: InstallDepsError<GitCmdError> = InstallDepsError::CreateDepOutputDirFailed {
        source: io_failure("File exists (os error 17)"),
        dep_name: "a".to_string(),
        path: path("/p/deps/a"),
    };
    assert_eq!(
        render_install_deps_error(&err, &cwd, ""),
        "Couldn't create 'deps/a', the output directory for the 'a' dependency: File exists (os \
         error 17)",
    );
}

#[test]
fn invalid_character_is_shown_where_the_name_holds_one_there() {
    let err = ParseDepsError::DepNameContainsInvalidChar {
        ln_num: 12,
        dep_name: "ab".to_string(),
        bad_char_idx: 5,
    };
    assert_eq!(
        render_parse_deps_error(&err, &path("/p"), &path("/p/dpnd.txt"), None),
        "dpnd.txt:12: 'ab' contains an invalid character at position 6; dependency names can \
         only contain numbers, letters, hyphens, underscores and periods",
    );
    let nested = "outer".to_string();
    let err = ParseDepsError::DupDepName { ln_num: 4, dep_name: "a".to_string(), orig_ln_num: 2 };
    assert_eq!(
        render_parse_deps_error(&err, &path("/p"), &path("/p/deps/outer/dpnd.txt"), Some(&nested)),
        "deps/outer/dpnd.txt:4: A dependency named 'a' is already defined on line 2 in the \
         nested dependency 'outer'",
    );
}
