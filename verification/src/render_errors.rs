//! The messages that say why a walk ended early. Paths below the working
//! directory are shown relative to it.

use crate::dep_tools::{FetchError, GitCmdError, GitCmdErrorView};
use crate::host::{FsPath, FsPathView, WriteStateFileError, WriteStateFileErrorView};
use crate::install::{InstallError, InstallErrorView, InstallProjDepsError, InstallProjDepsErrorView, ReadDepsFileError, ReadDepsFileErrorView};
use crate::manifest::{ParseDepsConfError, ParseDepsConfErrorView, ParseDepsError, ParseDepsErrorView, ParseOutputDirError, ParseOutputDirErrorView};
use crate::reconcile::{InstallDepsError, InstallDepsErrorView};
use crate::text::{chars_of, from_utf8, text_of, views};
use vstd::prelude::*;
use vstd::string::StringExecFns;

verus! {

/// The character of the decimal digit `d`.
pub open spec fn digit(d: int) -> char {
    if d == 0 {
        '0'
    } else if d == 1 {
        '1'
    } else if d == 2 {
        '2'
    } else if d == 3 {
        '3'
    } else if d == 4 {
        '4'
    } else if d == 5 {
        '5'
    } else if d == 6 {
        '6'
    } else if d == 7 {
        '7'
    } else if d == 8 {
        '8'
    } else {
        '9'
    }
}

/// The decimal numeral of `n`.
pub open spec fn number_text(n: nat) -> Seq<char>
    decreases n,
{
    if n < 10 {
        seq![digit(n as int)]
    } else {
        number_text(n / 10).push(digit((n % 10) as int))
    }
}

/// `parts` with `sep` between each two of them.
pub open spec fn joined(parts: Seq<Seq<char>>, sep: Seq<char>) -> Seq<char>
    decreases parts.len(),
{
    if parts.len() == 0 {
        Seq::empty()
    } else if parts.len() == 1 {
        parts[0]
    } else {
        joined(parts.drop_last(), sep) + sep + parts.last()
    }
}

/// The path as text: its components with `/` between them, after a `/`
/// where the path is absolute.
pub open spec fn path_text(path: FsPathView) -> Seq<char> {
    if path.absolute {
        seq!['/'] + joined(path.parts, seq!['/'])
    } else {
        joined(path.parts, seq!['/'])
    }
}

/// Whether `path` begins with all the components of `pre`, the root
/// counted as one.
pub open spec fn is_below(pre: FsPathView, path: FsPathView) -> bool {
    &&& pre.absolute ==> path.absolute
    &&& path.absolute && !pre.absolute ==> pre.parts.len() == 0
    &&& pre.parts.len() <= path.parts.len()
    &&& forall|i: int| 0 <= i < pre.parts.len() ==> pre.parts[i] == path.parts[i]
}

/// The path as text, relative to `pre` where it begins with `pre`.
pub open spec fn rel_path_text(pre: FsPathView, path: FsPathView) -> Seq<char> {
    if is_below(pre, path) {
        path_text(
            FsPathView {
                absolute: path.absolute && !pre.absolute,
                parts: path.parts.skip(pre.parts.len() as int),
            },
        )
    } else {
        path_text(path)
    }
}

/// The text `src` with `pre` before it and after each of its line feeds but
/// one that ends it, from the `i`th character on.
pub open spec fn prefixed_from(src: Seq<char>, pre: Seq<char>, i: int) -> Seq<char>
    decreases src.len() - i,
{
    if i < 0 || i >= src.len() {
        Seq::empty()
    } else if src[i] == '\n' && i + 1 < src.len() {
        seq!['\n'] + pre + prefixed_from(src, pre, i + 1)
    } else {
        seq![src[i]] + prefixed_from(src, pre, i + 1)
    }
}

/// The text `src` with `pre` before each of its lines; nothing for no text.
pub open spec fn prefixed(src: Seq<char>, pre: Seq<char>) -> Seq<char> {
    if src.len() == 0 {
        Seq::empty()
    } else {
        pre + prefixed_from(src, pre, 0)
    }
}

/// The bytes as a list of decimal numbers in square brackets.
pub open spec fn bytes_text(bytes: Seq<u8>) -> Seq<char> {
    seq!['['] + joined(Seq::new(bytes.len(), |i: int| number_text(bytes[i] as nat)), ", "@)
        + seq![']']
}

/// What a command wrote to the stream `name`: as lines after `prefix` where
/// it is text, else as numbers.
pub open spec fn stream_text(bytes: Seq<u8>, name: Seq<char>, prefix: Seq<char>) -> Seq<char> {
    match text_of(bytes) {
        Ok(text) => prefixed(text, prefix),
        Err(_) => name + " (not UTF-8): "@ + bytes_text(bytes),
    }
}

/// Why a `git` command failed.
pub open spec fn git_cmd_err_text(err: GitCmdErrorView) -> Seq<char> {
    match err {
        GitCmdErrorView::StartFailed { source, args } => "couldn't start `git "@ + joined(
            args,
            " "@,
        ) + "`: "@ + source.message,
        GitCmdErrorView::NotSuccess { args, output } => "`git "@ + joined(args, " "@)
            + "` failed with the following output:\n\n"@ + stream_text(
            output.stdout,
            "STDOUT"@,
            "[>] "@,
        ) + stream_text(output.stderr, "STDERR"@, "[!] "@),
    }
}

/// Why the ledger could not be written after `action`.
pub open spec fn write_cur_deps_err_text(
    err: WriteStateFileErrorView,
    cwd: FsPathView,
    state_file_path: FsPathView,
    action: Seq<char>,
) -> Seq<char> {
    match err {
        WriteStateFileErrorView::OpenFailed { source } => "Couldn't open the state file ('"@
            + rel_path_text(cwd, state_file_path) + "') for writing after "@ + action + ": "@
            + source.message,
        WriteStateFileErrorView::WriteDepLineFailed {
            source,
        } => "Couldn't write to the state file ('"@ + rel_path_text(cwd, state_file_path)
            + "') after "@ + action + ": "@ + source.message,
    }
}

/// The character that a name holds at a place, in quotes and brackets;
/// nothing where the name is shorter.
pub open spec fn bad_char_text(dep_name: Seq<char>, idx: int) -> Seq<char> {
    if 0 <= idx < dep_name.len() {
        " ('"@ + seq![dep_name[idx]] + "')"@
    } else {
        Seq::empty()
    }
}

/// The place `path:ln_num: `, relative to `cwd`.
pub open spec fn place_text(cwd: FsPathView, path: FsPathView, ln_num: int) -> Seq<char> {
    rel_path_text(cwd, path) + ":"@ + number_text(ln_num as nat) + ": "@
}

/// Why the dependency lines of the file at `file_path` could not be read;
/// `proj_name` is the dependency whose file it is.
pub open spec fn parse_deps_error_text(
    err: ParseDepsErrorView,
    cwd: FsPathView,
    file_path: FsPathView,
    proj_name: Option<Seq<char>>,
) -> Seq<char> {
    match err {
        ParseDepsErrorView::DupDepName { ln_num, dep_name, orig_ln_num } => {
            let main = place_text(cwd, file_path, ln_num) + "A dependency named '"@ + dep_name
                + "' is already defined on line "@ + number_text(orig_ln_num as nat);
            match proj_name {
                Some(name) => main + " in the nested dependency '"@ + name + "'"@,
                None => main,
            }
        },
        ParseDepsErrorView::ReservedDepName { ln_num, dep_name } => place_text(
            cwd,
            file_path,
            ln_num,
        ) + "'"@ + dep_name + "' is a reserved name and can't be used as a dependency name"@,
        ParseDepsErrorView::DepNameContainsInvalidChar {
            ln_num,
            dep_name,
            bad_char_idx,
        } => place_text(cwd, file_path, ln_num) + "'"@ + dep_name
            + "' contains an invalid character"@ + bad_char_text(dep_name, bad_char_idx)
            + " at position "@ + number_text((bad_char_idx + 1) as nat)
            + "; dependency names can only contain numbers, letters, hyphens, underscores and periods"@,
        ParseDepsErrorView::InvalidDepSpec { ln_num, line } => match proj_name {
            Some(name) => place_text(cwd, file_path, ln_num)
                + "Invalid dependency specification in nested dependency '"@ + name + "': '"@
                + line + "'"@,
            None => place_text(cwd, file_path, ln_num) + "Invalid dependency specification: '"@
                + line + "'"@,
        },
        ParseDepsErrorView::UnknownTool { ln_num, dep_name, tool_name } => match proj_name {
            Some(name) => place_text(cwd, file_path, ln_num) + "The dependency '"@ + dep_name
                + "' of the nested dependency '"@ + name + "' specifies an invalid tool name ('"@
                + tool_name + "'); the supported tool is 'git'"@,
            None => place_text(cwd, file_path, ln_num) + "The dependency '"@ + dep_name
                + "' specifies an invalid tool name ('"@ + tool_name
                + "'); the supported tool is 'git'"@,
        },
    }
}

/// Why the manifest at `deps_file_path` could not be read; `dep_name` is the
/// dependency whose manifest it is.
pub open spec fn parse_deps_conf_error_text(
    err: ParseDepsConfErrorView,
    cwd: FsPathView,
    deps_file_path: FsPathView,
    dep_name: Option<Seq<char>>,
) -> Seq<char> {
    match err {
        ParseDepsConfErrorView::ParseOutputDirFailed { source } => match source {
            ParseOutputDirErrorView::MissingOutputDir => match dep_name {
                Some(name) => rel_path_text(cwd, deps_file_path)
                    + ": This nested dependency file (for '"@ + name
                    + "') doesn't contain an output directory"@,
                None => rel_path_text(cwd, deps_file_path)
                    + ": This dependency file doesn't contain an output directory"@,
            },
            ParseOutputDirErrorView::InvalidPart { ln_num, part } => match dep_name {
                Some(name) => place_text(cwd, deps_file_path, ln_num)
                    + "This nested dependency file (for '"@ + name
                    + "') contains an invalid component ('"@ + part
                    + "') in its output directory"@,
                None => place_text(cwd, deps_file_path, ln_num)
                    + "This dependency file contains an invalid component ('"@ + part
                    + "') in its output directory"@,
            },
        },
        ParseDepsConfErrorView::ParseDepsFailed { source } => parse_deps_error_text(
            source,
            cwd,
            deps_file_path,
            dep_name,
        ),
    }
}

/// Why the executor ended early; `dep_descr` says in which nested dependency.
pub open spec fn install_deps_error_text(
    err: InstallDepsErrorView<GitCmdError>,
    cwd: FsPathView,
    dep_descr: Seq<char>,
) -> Seq<char> {
    match err {
        InstallDepsErrorView::RemoveOldDepOutputDirFailed {
            source,
            dep_name,
            path,
        } => "Couldn't remove '"@ + rel_path_text(cwd, path) + "', the output directory for the '"@
            + dep_name + "' dependency: "@ + source.message,
        InstallDepsErrorView::WriteCurDepsAfterRemoveFailed {
            source,
            dep_name,
            state_file_path,
        } => write_cur_deps_err_text(
            source,
            cwd,
            state_file_path,
            "removing '"@ + dep_name + "'"@,
        ),
        InstallDepsErrorView::CreateDepOutputDirFailed {
            source,
            dep_name,
            path,
        } => "Couldn't create '"@ + rel_path_text(cwd, path) + "', the output directory for the '"@
            + dep_name + "' dependency: "@ + source.message,
        InstallDepsErrorView::WriteCurDepsAfterInstallFailed {
            source,
            dep_name,
            state_file_path,
        } => write_cur_deps_err_text(
            source,
            cwd,
            state_file_path,
            "installing '"@ + dep_name + "'"@,
        ),
        InstallDepsErrorView::WriteInitialCurDepsFailed {
            source,
            state_file_path,
        } => write_cur_deps_err_text(source, cwd, state_file_path, "updating dependencies"@),
        InstallDepsErrorView::FetchFailed { source, dep_name } => match source {
            FetchError::RetrieveFailed {
                source,
            } => "Couldn't retrieve the source for the dependency '"@ + dep_name + "'"@ + dep_descr
                + ": "@ + git_cmd_err_text(source@),
            FetchError::VersionChangeFailed {
                source,
            } => "Couldn't change the version for the '"@ + dep_name + "' dependency: "@
                + git_cmd_err_text(source@),
        },
    }
}

/// Why one project could not be reconciled.
pub open spec fn install_proj_deps_error_text(
    err: InstallProjDepsErrorView<GitCmdError>,
    cwd: FsPathView,
    dep_descr: Seq<char>,
) -> Seq<char> {
    match err {
        InstallProjDepsErrorView::ReadStateFileFailed {
            source,
            path,
        } => "Couldn't read the state file ('"@ + rel_path_text(cwd, path) + "'): "@
            + source.message,
        InstallProjDepsErrorView::ConvStateFileUtf8Failed {
            source,
            path,
        } => "The state file ('"@ + rel_path_text(cwd, path)
            + "') contains an invalid UTF-8 sequence after byte "@ + number_text(source as nat),
        InstallProjDepsErrorView::ParseStateFileFailed { source, path } => "The state file ('"@
            + rel_path_text(cwd, path) + "') is invalid ("@ + parse_deps_error_text(
            source,
            cwd,
            path,
            None,
        ) + "), please remove this file and try again"@,
        InstallProjDepsErrorView::CreateMainOutputDirFailed {
            source,
            path,
        } => "Couldn't create "@ + rel_path_text(cwd, path) + ", the main output directory: "@
            + source.message,
        InstallProjDepsErrorView::InstallDepsFailed { source } => install_deps_error_text(
            source,
            cwd,
            dep_descr,
        ),
    }
}

/// Why the walk that began in `cwd` ended early.
pub open spec fn install_error_text(
    err: InstallErrorView<GitCmdError>,
    cwd: FsPathView,
    deps_file_name: Seq<char>,
) -> Seq<char> {
    match err {
        InstallErrorView::NoDepsFileFound => "Couldn't find the dependency file '"@
            + deps_file_name + "' in the current directory or parent directories"@,
        InstallErrorView::ReadDepsFileFailed { source } => match source {
            ReadDepsFileErrorView::ReadFailed {
                source,
                deps_file_path,
            } => "Couldn't read the dependency file at '"@ + rel_path_text(cwd, deps_file_path)
                + "': "@ + source.message,
        },
        InstallErrorView::ConvDepsFileUtf8Failed { source, path, dep_name } => match dep_name {
            Some(name) => rel_path_text(cwd, path) + ": This nested dependency file (for '"@ + name
                + "') contains an invalid UTF-8 sequence after byte "@ + number_text(
                source as nat,
            ),
            None => rel_path_text(cwd, path)
                + ": This dependency file contains an invalid UTF-8 sequence after byte "@
                + number_text(source as nat),
        },
        InstallErrorView::ParseDepsConfFailed {
            source,
            path,
            dep_name,
        } => parse_deps_conf_error_text(source, cwd, path, dep_name),
        InstallErrorView::InstallProjDepsFailed {
            source,
            dep_name,
        } => install_proj_deps_error_text(
            source,
            cwd,
            match dep_name {
                Some(name) => " in the nested dependency '"@ + name + "'"@,
                None => Seq::empty(),
            },
        ),
        InstallErrorView::ReadNestedDepsFileFailed {
            source,
            path,
            dep_name,
            dep_proj_path,
        } => "Couldn't read the dependency file ('"@ + rel_path_text(cwd, path)
            + "') for the nested dependency '"@ + dep_name + "' ('"@ + rel_path_text(
            cwd,
            dep_proj_path,
        ) + "'): "@ + source.message,
    }
}

/// The character of the decimal digit `d`.
fn digit_char(d: u8) -> (c: char)
    requires
        d < 10,
    ensures
        c == digit(d as int),
{
    if d == 0 {
        '0'
    } else if d == 1 {
        '1'
    } else if d == 2 {
        '2'
    } else if d == 3 {
        '3'
    } else if d == 4 {
        '4'
    } else if d == 5 {
        '5'
    } else if d == 6 {
        '6'
    } else if d == 7 {
        '7'
    } else if d == 8 {
        '8'
    } else {
        '9'
    }
}

/// The decimal numeral of `n`.
pub fn render_number(n: u128) -> (r: String)
    ensures
        r@ == number_text(n as nat),
    decreases n,
{
    if n < 10 {
        let mut s = String::new();
        s.push(digit_char(n as u8));
        assert(s@ == seq![digit(n as int)]);
        s
    } else {
        let mut s = render_number(n / 10);
        s.push(digit_char((n % 10) as u8));
        s
    }
}

/// The strings `parts[..n]` with `sep` between each two of them.
fn join_first(parts: &Vec<String>, n: usize, sep: &str) -> (r: String)
    requires
        n <= parts.len(),
    ensures
        r@ == joined(views(parts@).take(n as int), sep@),
{
    let mut out = String::new();
    let mut i: usize = 0;
    let ghost all = views(parts@);
    while i < n
        invariant
            i <= n <= parts.len(),
            all == views(parts@),
            out@ == joined(all.take(i as int), sep@),
        decreases n - i,
    {
        proof {
            assert(all.take(i + 1).drop_last() == all.take(i as int));
            assert(all.take(i + 1).last() == parts@[i as int]@);
            if i == 0 {
                assert(out@ + parts@[i as int]@ == parts@[i as int]@);
            }
        }
        if i > 0 {
            out.append(sep);
        }
        out.append(parts[i].as_str());
        i += 1;
    }
    out
}

/// The path as text.
pub fn render_path(path: &FsPath) -> (r: String)
    ensures
        r@ == path_text(path@),
{
    let rest = join_first(&path.parts, path.parts.len(), "/");
    proof {
        reveal_strlit("/");
        assert("/"@ == seq!['/']);
        assert(views(path.parts@).take(path.parts.len() as int) == views(path.parts@));
    }
    if path.absolute {
        let mut out = String::new();
        out.push('/');
        out.append(rest.as_str());
        assert(out@ == seq!['/'] + rest@);
        out
    } else {
        rest
    }
}

/// Whether `path` begins with all the components of `pre`.
fn path_is_below(pre: &FsPath, path: &FsPath) -> (r: bool)
    ensures
        r == is_below(pre@, path@),
{
    if pre.absolute && !path.absolute {
        return false;
    }
    if path.absolute && !pre.absolute && pre.parts.len() != 0 {
        return false;
    }
    if pre.parts.len() > path.parts.len() {
        return false;
    }
    let mut i: usize = 0;
    while i < pre.parts.len()
        invariant
            i <= pre.parts.len() <= path.parts.len(),
            forall|j: int| 0 <= j < i ==> pre@.parts[j] == path@.parts[j],
        decreases pre.parts.len() - i,
    {
        if pre.parts[i] != path.parts[i] {
            assert(pre@.parts[i as int] != path@.parts[i as int]);
            return false;
        }
        i += 1;
    }
    true
}

/// The path as text, relative to `pre` where it begins with `pre`.
pub fn render_rel_path_else_abs(pre: &FsPath, path: &FsPath) -> (r: String)
    ensures
        r@ == rel_path_text(pre@, path@),
{
    if path_is_below(pre, path) {
        let mut parts: Vec<String> = Vec::new();
        let mut i: usize = pre.parts.len();
        let ghost rest = path@.parts.skip(pre.parts.len() as int);
        while i < path.parts.len()
            invariant
                pre.parts.len() <= i <= path.parts.len(),
                rest == path@.parts.skip(pre.parts.len() as int),
                views(parts@) == rest.take(i - pre.parts.len()),
            decreases path.parts.len() - i,
        {
            let ghost before = parts@;
            parts.push(path.parts[i].clone());
            assert(views(parts@) == views(before).push(path.parts@[i as int]@));
            assert(rest.take(i + 1 - pre.parts.len()) == rest.take(i - pre.parts.len()).push(
                path.parts@[i as int]@,
            ));
            i += 1;
        }
        assert(rest.take(i - pre.parts.len()) == rest);
        render_path(&FsPath { absolute: path.absolute && !pre.absolute, parts })
    } else {
        render_path(path)
    }
}

/// The text `src` with `pre` before each of its lines. A line feed that ends
/// the text begins no line.
pub fn prefix_lines(src: &str, pre: &str) -> (r: String)
    ensures
        r@ == prefixed(src@, pre@),
{
    let v = chars_of(src);
    if v.len() == 0 {
        return String::new();
    }
    let mut out = pre.to_owned();
    let mut i: usize = 0;
    assert(out@ + prefixed_from(v@, pre@, 0) == prefixed(v@, pre@));
    while i < v.len()
        invariant
            i <= v.len(),
            out@ + prefixed_from(v@, pre@, i as int) == prefixed(v@, pre@),
        decreases v.len() - i,
    {
        let ghost before = out@;
        let ghost tail = prefixed_from(v@, pre@, i + 1);
        out.push(v[i]);
        if v[i] == '\n' && i + 1 < v.len() {
            out.append(pre);
            assert(out@ + tail == before + (seq!['\n'] + pre@ + tail));
        } else {
            assert(out@ + tail == before + (seq![v@[i as int]] + tail));
        }
        i += 1;
    }
    assert(out@ + Seq::<char>::empty() == out@);
    out
}

/// The bytes as a list of decimal numbers in square brackets.
fn render_bytes(bytes: &Vec<u8>) -> (r: String)
    ensures
        r@ == bytes_text(bytes@),
{
    let mut numbers: Vec<String> = Vec::new();
    let mut i: usize = 0;
    let ghost all = Seq::new(bytes@.len(), |i: int| number_text(bytes@[i] as nat));
    while i < bytes.len()
        invariant
            i <= bytes.len(),
            all == Seq::new(bytes@.len(), |i: int| number_text(bytes@[i] as nat)),
            views(numbers@) == all.take(i as int),
        decreases bytes.len() - i,
    {
        let ghost before = numbers@;
        let number = render_number(bytes[i] as u128);
        numbers.push(number);
        assert(views(numbers@) == views(before).push(number@));
        assert(all.take(i + 1) == all.take(i as int).push(all[i as int]));
        i += 1;
    }
    assert(all.take(i as int) == all);
    let list = join_first(&numbers, numbers.len(), ", ");
    assert(views(numbers@).take(numbers.len() as int) == views(numbers@));
    let mut out = String::new();
    out.push('[');
    out.append(list.as_str());
    out.push(']');
    assert(out@ == seq!['['] + list@ + seq![']']);
    out
}

/// A copy of `bytes`.
fn copy_bytes(bytes: &Vec<u8>) -> (r: Vec<u8>)
    ensures
        r@ == bytes@,
{
    let mut out: Vec<u8> = Vec::new();
    let mut i: usize = 0;
    while i < bytes.len()
        invariant
            i <= bytes.len(),
            out@ == bytes@.take(i as int),
        decreases bytes.len() - i,
    {
        out.push(bytes[i]);
        assert(bytes@.take(i + 1) == bytes@.take(i as int).push(bytes@[i as int]));
        i += 1;
    }
    assert(bytes@.take(i as int) == bytes@);
    out
}

/// What a command wrote to the stream `name`.
fn render_stream(bytes: &Vec<u8>, name: &str, prefix: &str) -> (r: String)
    ensures
        r@ == stream_text(bytes@, name@, prefix@),
{
    match from_utf8(copy_bytes(bytes)) {
        Ok(text) => prefix_lines(text.as_str(), prefix),
        Err(_) => {
            let mut out = name.to_owned();
            out.append(" (not UTF-8): ");
            out.append(render_bytes(bytes).as_str());
            out
        },
    }
}

/// Why a `git` command failed.
pub fn render_git_cmd_err(err: &GitCmdError) -> (r: String)
    ensures
        r@ == git_cmd_err_text(err@),
{
    match err {
        GitCmdError::StartFailed { source, args } => {
            let mut out = "couldn't start `git ".to_owned();
            out.append(join_first(args, args.len(), " ").as_str());
            assert(views(args@).take(args.len() as int) == views(args@));
            out.append("`: ");
            out.append(source.message.as_str());
            out
        },
        GitCmdError::NotSuccess { args, output } => {
            let mut out = "`git ".to_owned();
            out.append(join_first(args, args.len(), " ").as_str());
            assert(views(args@).take(args.len() as int) == views(args@));
            out.append("` failed with the following output:\n\n");
            out.append(render_stream(&output.stdout, "STDOUT", "[>] ").as_str());
            out.append(render_stream(&output.stderr, "STDERR", "[!] ").as_str());
            out
        },
    }
}

/// Why the ledger could not be written after `action`.
pub fn render_write_cur_deps_err(
    err: &WriteStateFileError,
    cwd: &FsPath,
    state_file_path: &FsPath,
    action: &str,
) -> (r: String)
    ensures
        r@ == write_cur_deps_err_text(err@, cwd@, state_file_path@, action@),
{
    match err {
        WriteStateFileError::OpenFailed { source } => {
            let mut out = "Couldn't open the state file ('".to_owned();
            out.append(render_rel_path_else_abs(cwd, state_file_path).as_str());
            out.append("') for writing after ");
            out.append(action);
            out.append(": ");
            out.append(source.message.as_str());
            out
        },
        WriteStateFileError::WriteDepLineFailed { source } => {
            let mut out = "Couldn't write to the state file ('".to_owned();
            out.append(render_rel_path_else_abs(cwd, state_file_path).as_str());
            out.append("') after ");
            out.append(action);
            out.append(": ");
            out.append(source.message.as_str());
            out
        },
    }
}

/// The place `path:ln_num: `, relative to `cwd`.
fn render_place(cwd: &FsPath, path: &FsPath, ln_num: usize) -> (r: String)
    ensures
        r@ == place_text(cwd@, path@, ln_num as int),
{
    let mut out = render_rel_path_else_abs(cwd, path);
    out.append(":");
    out.append(render_number(ln_num as u128).as_str());
    out.append(": ");
    out
}

/// The character that `dep_name` holds at `idx`, in quotes and brackets.
fn render_bad_char(dep_name: &str, idx: usize) -> (r: String)
    ensures
        r@ == bad_char_text(dep_name@, idx as int),
{
    let chars = chars_of(dep_name);
    if idx < chars.len() {
        let mut out = " ('".to_owned();
        out.push(chars[idx]);
        out.append("')");
        assert(out@ == " ('"@ + seq![dep_name@[idx as int]] + "')"@);
        out
    } else {
        String::new()
    }
}

/// The view of a name that may be missing.
pub open spec fn str_view(name: Option<&String>) -> Option<Seq<char>> {
    match name {
        Some(n) => Some(n@),
        None => None,
    }
}

/// Why the dependency lines of the file at `file_path` could not be read.
pub fn render_parse_deps_error(
    err: &ParseDepsError,
    cwd: &FsPath,
    file_path: &FsPath,
    proj_name: Option<&String>,
) -> (r: String)
    ensures
        r@ == parse_deps_error_text(err@, cwd@, file_path@, str_view(proj_name)),
{
    match err {
        ParseDepsError::DupDepName { ln_num, dep_name, orig_ln_num } => {
            let mut out = render_place(cwd, file_path, *ln_num);
            out.append("A dependency named '");
            out.append(dep_name.as_str());
            out.append("' is already defined on line ");
            out.append(render_number(*orig_ln_num as u128).as_str());
            match proj_name {
                Some(name) => {
                    out.append(" in the nested dependency '");
                    out.append(name.as_str());
                    out.append("'");
                },
                None => {},
            }
            out
        },
        ParseDepsError::ReservedDepName { ln_num, dep_name } => {
            let mut out = render_place(cwd, file_path, *ln_num);
            out.append("'");
            out.append(dep_name.as_str());
            out.append("' is a reserved name and can't be used as a dependency name");
            out
        },
        ParseDepsError::DepNameContainsInvalidChar { ln_num, dep_name, bad_char_idx } => {
            let mut out = render_place(cwd, file_path, *ln_num);
            out.append("'");
            out.append(dep_name.as_str());
            out.append("' contains an invalid character");
            out.append(render_bad_char(dep_name.as_str(), *bad_char_idx).as_str());
            out.append(" at position ");
            out.append(render_number(*bad_char_idx as u128 + 1).as_str());
            out.append(
                "; dependency names can only contain numbers, letters, hyphens, underscores and periods",
            );
            out
        },
        ParseDepsError::InvalidDepSpec { ln_num, line } => {
            let mut out = render_place(cwd, file_path, *ln_num);
            match proj_name {
                Some(name) => {
                    out.append("Invalid dependency specification in nested dependency '");
                    out.append(name.as_str());
                    out.append("': '");
                },
                None => {
                    out.append("Invalid dependency specification: '");
                },
            }
            out.append(line.as_str());
            out.append("'");
            out
        },
        ParseDepsError::UnknownTool { ln_num, dep_name, tool_name } => {
            let mut out = render_place(cwd, file_path, *ln_num);
            out.append("The dependency '");
            out.append(dep_name.as_str());
            match proj_name {
                Some(name) => {
                    out.append("' of the nested dependency '");
                    out.append(name.as_str());
                },
                None => {},
            }
            out.append("' specifies an invalid tool name ('");
            out.append(tool_name.as_str());
            out.append("'); the supported tool is 'git'");
            out
        },
    }
}

/// Why the manifest at `deps_file_path` could not be read.
pub fn render_parse_deps_conf_error(
    err: &ParseDepsConfError,
    cwd: &FsPath,
    deps_file_path: &FsPath,
    dep_name: Option<&String>,
) -> (r: String)
    ensures
        r@ == parse_deps_conf_error_text(err@, cwd@, deps_file_path@, str_view(dep_name)),
{
    match err {
        ParseDepsConfError::ParseOutputDirFailed { source } => match source {
            ParseOutputDirError::MissingOutputDir => {
                let mut out = render_rel_path_else_abs(cwd, deps_file_path);
                match dep_name {
                    Some(name) => {
                        out.append(": This nested dependency file (for '");
                        out.append(name.as_str());
                        out.append("') doesn't contain an output directory");
                    },
                    None => {
                        out.append(": This dependency file doesn't contain an output directory");
                    },
                }
                out
            },
            ParseOutputDirError::InvalidPart { ln_num, part } => {
                let mut out = render_place(cwd, deps_file_path, *ln_num);
                match dep_name {
                    Some(name) => {
                        out.append("This nested dependency file (for '");
                        out.append(name.as_str());
                        out.append("') contains an invalid component ('");
                    },
                    None => {
                        out.append("This dependency file contains an invalid component ('");
                    },
                }
                out.append(part.as_str());
                out.append("') in its output directory");
                out
            },
        },
        ParseDepsConfError::ParseDepsFailed { source } => render_parse_deps_error(
            source,
            cwd,
            deps_file_path,
            dep_name,
        ),
    }
}

/// Why the executor ended early; `dep_descr` says in which nested dependency.
pub fn render_install_deps_error(
    err: &InstallDepsError<GitCmdError>,
    cwd: &FsPath,
    dep_descr: &str,
) -> (r: String)
    ensures
        r@ == install_deps_error_text(err@, cwd@, dep_descr@),
{
    match err {
        InstallDepsError::RemoveOldDepOutputDirFailed { source, dep_name, path } => {
            let mut out = "Couldn't remove '".to_owned();
            out.append(render_rel_path_else_abs(cwd, path).as_str());
            out.append("', the output directory for the '");
            out.append(dep_name.as_str());
            out.append("' dependency: ");
            out.append(source.message.as_str());
            out
        },
        InstallDepsError::WriteCurDepsAfterRemoveFailed { source, dep_name, state_file_path } => {
            let mut action = "removing '".to_owned();
            action.append(dep_name.as_str());
            action.append("'");
            render_write_cur_deps_err(source, cwd, state_file_path, action.as_str())
        },
        InstallDepsError::CreateDepOutputDirFailed { source, dep_name, path } => {
            let mut out = "Couldn't create '".to_owned();
            out.append(render_rel_path_else_abs(cwd, path).as_str());
            out.append("', the output directory for the '");
            out.append(dep_name.as_str());
            out.append("' dependency: ");
            out.append(source.message.as_str());
            out
        },
        InstallDepsError::WriteCurDepsAfterInstallFailed { source, dep_name, state_file_path } => {
            let mut action = "installing '".to_owned();
            action.append(dep_name.as_str());
            action.append("'");
            render_write_cur_deps_err(source, cwd, state_file_path, action.as_str())
        },
        InstallDepsError::WriteInitialCurDepsFailed {
            source,
            state_file_path,
        } => render_write_cur_deps_err(source, cwd, state_file_path, "updating dependencies"),
        InstallDepsError::FetchFailed { source, dep_name } => match source {
            FetchError::RetrieveFailed { source } => {
                let mut out = "Couldn't retrieve the source for the dependency '".to_owned();
                out.append(dep_name.as_str());
                out.append("'");
                out.append(dep_descr);
                out.append(": ");
                out.append(render_git_cmd_err(source).as_str());
                out
            },
            FetchError::VersionChangeFailed { source } => {
                let mut out = "Couldn't change the version for the '".to_owned();
                out.append(dep_name.as_str());
                out.append("' dependency: ");
                out.append(render_git_cmd_err(source).as_str());
                out
            },
        },
    }
}

/// Why one project could not be reconciled.
pub fn render_install_proj_deps_error(
    err: &InstallProjDepsError<GitCmdError>,
    cwd: &FsPath,
    dep_descr: &str,
) -> (r: String)
    ensures
        r@ == install_proj_deps_error_text(err@, cwd@, dep_descr@),
{
    match err {
        InstallProjDepsError::ReadStateFileFailed { source, path } => {
            let mut out = "Couldn't read the state file ('".to_owned();
            out.append(render_rel_path_else_abs(cwd, path).as_str());
            out.append("'): ");
            out.append(source.message.as_str());
            out
        },
        InstallProjDepsError::ConvStateFileUtf8Failed { source, path } => {
            let mut out = "The state file ('".to_owned();
            out.append(render_rel_path_else_abs(cwd, path).as_str());
            out.append("') contains an invalid UTF-8 sequence after byte ");
            out.append(render_number(source.valid_up_to as u128).as_str());
            out
        },
        InstallProjDepsError::ParseStateFileFailed { source, path } => {
            let mut out = "The state file ('".to_owned();
            out.append(render_rel_path_else_abs(cwd, path).as_str());
            out.append("') is invalid (");
            out.append(render_parse_deps_error(source, cwd, path, None).as_str());
            out.append("), please remove this file and try again");
            out
        },
        InstallProjDepsError::CreateMainOutputDirFailed { source, path } => {
            let mut out = "Couldn't create ".to_owned();
            out.append(render_rel_path_else_abs(cwd, path).as_str());
            out.append(", the main output directory: ");
            out.append(source.message.as_str());
            out
        },
        InstallProjDepsError::InstallDepsFailed { source } => render_install_deps_error(
            source,
            cwd,
            dep_descr,
        ),
    }
}

/// Why the walk that began in `cwd`, looking for the manifest named
/// `deps_file_name`, ended early.
pub fn render_install_error(err: InstallError<GitCmdError>, cwd: &FsPath, deps_file_name: &str) -> (r:
    String)
    ensures
        r@ == install_error_text(err@, cwd@, deps_file_name@),
{
    match &err {
        InstallError::NoDepsFileFound => {
            let mut out = "Couldn't find the dependency file '".to_owned();
            out.append(deps_file_name);
            out.append("' in the current directory or parent directories");
            out
        },
        InstallError::ReadDepsFileFailed { source } => match source {
            ReadDepsFileError::ReadFailed { source, deps_file_path } => {
                let mut out = "Couldn't read the dependency file at '".to_owned();
                out.append(render_rel_path_else_abs(cwd, deps_file_path).as_str());
                out.append("': ");
                out.append(source.message.as_str());
                out
            },
        },
        InstallError::ConvDepsFileUtf8Failed { source, path, dep_name } => {
            let mut out = render_rel_path_else_abs(cwd, path);
            match dep_name {
                Some(name) => {
                    out.append(": This nested dependency file (for '");
                    out.append(name.as_str());
                    out.append("') contains an invalid UTF-8 sequence after byte ");
                },
                None => {
                    out.append(
                        ": This dependency file contains an invalid UTF-8 sequence after byte ",
                    );
                },
            }
            out.append(render_number(source.valid_up_to as u128).as_str());
            out
        },
        InstallError::ParseDepsConfFailed {
            source,
            path,
            dep_name,
        } => render_parse_deps_conf_error(source, cwd, path, dep_name.as_ref()),
        InstallError::InstallProjDepsFailed { source, dep_name } => {
            let dep_descr = match dep_name {
                Some(name) => {
                    let mut d = " in the nested dependency '".to_owned();
                    d.append(name.as_str());
                    d.append("'");
                    d
                },
                None => String::new(),
            };
            render_install_proj_deps_error(source, cwd, dep_descr.as_str())
        },
        InstallError::ReadNestedDepsFileFailed { source, path, dep_name, dep_proj_path } => {
            let mut out = "Couldn't read the dependency file ('".to_owned();
            out.append(render_rel_path_else_abs(cwd, path).as_str());
            out.append("') for the nested dependency '");
            out.append(dep_name.as_str());
            out.append("' ('");
            out.append(render_rel_path_else_abs(cwd, dep_proj_path).as_str());
            out.append("'): ");
            out.append(source.message.as_str());
            out
        },
    }
}

} // verus!
