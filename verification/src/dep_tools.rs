//! Fetch tools: the capability that materialises a source at a version in a
//! directory, and the errors that it reports.

use crate::host::{FsPath, IoFailure, IoFailureView};
use crate::text::views;
use vstd::prelude::*;

verus! {

/// An exact revision identifier, handed to the fetch tool as it is.
#[derive(Debug, PartialEq, Eq)]
pub struct Version(pub String);

impl View for Version {
    type V = Seq<char>;

    open spec fn view(&self) -> Seq<char> {
        self.0@
    }
}

impl Clone for Version {
    fn clone(&self) -> (r: Self)
        ensures
            r@ == self@,
    {
        Version(self.0.clone())
    }
}

impl Version {
    /// Whether two versions are the same identifier.
    pub fn same_as(&self, other: &Version) -> (r: bool)
        ensures
            r == (self@ == other@),
    {
        self.0 == other.0
    }
}

/// Why a fetch failed: the source could not be had at all, or it was had and
/// could not be brought to the version.
#[derive(Debug, PartialEq, Eq)]
pub enum FetchError<E> {
    RetrieveFailed { source: E },
    VersionChangeFailed { source: E },
}

impl<E: View> View for FetchError<E> {
    type V = FetchError<E::V>;

    open spec fn view(&self) -> FetchError<E::V> {
        match self {
            FetchError::RetrieveFailed { source } => FetchError::RetrieveFailed { source: source@ },
            FetchError::VersionChangeFailed { source } => FetchError::VersionChangeFailed {
                source: source@,
            },
        }
    }
}

/// A fetch tool: it brings `source` at `version` into the empty directory
/// `out_dir`. On failure it may leave anything in the directory.
pub trait DepTool<E> {
    /// The name that manifests select this tool by.
    fn name(&self) -> String;

    fn fetch(&self, source: String, version: Version, out_dir: &FsPath) -> Result<
        (),
        FetchError<E>,
    >;
}

/// What a command left behind: whether it ended in success, and what it
/// wrote.
#[derive(Debug, PartialEq, Eq)]
pub struct CmdOutput {
    pub success: bool,
    pub stdout: Vec<u8>,
    pub stderr: Vec<u8>,
}

/// What a `CmdOutput` holds, as plain values.
pub struct CmdOutputView {
    pub success: bool,
    pub stdout: Seq<u8>,
    pub stderr: Seq<u8>,
}

impl View for CmdOutput {
    type V = CmdOutputView;

    open spec fn view(&self) -> CmdOutputView {
        CmdOutputView { success: self.success, stdout: self.stdout@, stderr: self.stderr@ }
    }
}

/// Why a `git` command failed: it could not be started, or it ran and did
/// not end in success.
#[derive(Debug, PartialEq, Eq)]
pub enum GitCmdError {
    StartFailed { source: IoFailure, args: Vec<String> },
    NotSuccess { args: Vec<String>, output: CmdOutput },
}

/// What a `GitCmdError` holds, as plain values.
pub enum GitCmdErrorView {
    StartFailed { source: IoFailureView, args: Seq<Seq<char>> },
    NotSuccess { args: Seq<Seq<char>>, output: CmdOutputView },
}

impl View for GitCmdError {
    type V = GitCmdErrorView;

    open spec fn view(&self) -> GitCmdErrorView {
        match self {
            GitCmdError::StartFailed { source, args } => GitCmdErrorView::StartFailed {
                source: source@,
                args: views(args@),
            },
            GitCmdError::NotSuccess { args, output } => GitCmdErrorView::NotSuccess {
                args: views(args@),
                output: output@,
            },
        }
    }
}

/// The strings `strs`, owned.
pub fn owned_strs_to_strings(strs: Vec<&str>) -> (r: Vec<String>)
    ensures
        r@.len() == strs@.len(),
        forall|i: int| 0 <= i < strs@.len() ==> (#[trigger] r@[i])@ == strs@[i]@,
{
    let mut out: Vec<String> = Vec::new();
    let mut i: usize = 0;
    while i < strs.len()
        invariant
            i <= strs.len(),
            out@.len() == i,
            forall|j: int| 0 <= j < i ==> (#[trigger] out@[j])@ == strs@[j]@,
        decreases strs.len() - i,
    {
        out.push(strs[i].to_owned());
        i += 1;
    }
    out
}

/// The fetch tool for git repositories: it clones the source into the
/// directory, then checks the version out.
#[derive(Debug)]
pub struct Git {}

/// The arguments of the `git` commands that fetch `source` at `version`, to
/// be run in the output directory one after the other: a clone into the
/// directory itself, then a checkout.
pub open spec fn git_steps(source: Seq<char>, version: Seq<char>) -> Seq<Seq<Seq<char>>> {
    seq![seq!["clone"@, source, "."@], seq!["checkout"@, version]]
}

/// How the `step`th command, run with `args`, counts: as done when it
/// started and ended in success; else as a failure to retrieve for the first
/// command and as a failure to change the version for the others.
pub open spec fn git_step_result(
    step: int,
    args: Seq<Seq<char>>,
    outcome: Result<CmdOutputView, IoFailureView>,
) -> Result<(), FetchError<GitCmdErrorView>> {
    let fault = match outcome {
        Ok(output) => if output.success {
            None
        } else {
            Some(GitCmdErrorView::NotSuccess { args, output })
        },
        Err(source) => Some(GitCmdErrorView::StartFailed { source, args }),
    };
    match fault {
        None => Ok(()),
        Some(source) => if step == 0 {
            Err(FetchError::RetrieveFailed { source })
        } else {
            Err(FetchError::VersionChangeFailed { source })
        },
    }
}

/// The view of the outcome of a command.
pub open spec fn outcome_view(outcome: Result<CmdOutput, IoFailure>) -> Result<
    CmdOutputView,
    IoFailureView,
> {
    match outcome {
        Ok(output) => Ok(output@),
        Err(e) => Err(e@),
    }
}

/// The view of the result of a fetch with git.
pub open spec fn git_result_view(r: Result<(), FetchError<GitCmdError>>) -> Result<
    (),
    FetchError<GitCmdErrorView>,
> {
    match r {
        Ok(()) => Ok(()),
        Err(e) => Err(e@),
    }
}

impl Git {
    /// The name that manifests select this tool by.
    pub fn name(&self) -> (r: String)
        ensures
            r@ == "git"@,
    {
        "git".to_owned()
    }

    /// The arguments of the `git` commands that fetch `source` at `version`.
    pub fn steps(&self, source: &str, version: &Version) -> (r: Vec<Vec<String>>)
        ensures
            r@.len() == 2,
            views(r@[0]@) == git_steps(source@, version@)[0],
            views(r@[1]@) == git_steps(source@, version@)[1],
    {
        let mut clone: Vec<String> = Vec::new();
        clone.push("clone".to_owned());
        clone.push(source.to_owned());
        clone.push(".".to_owned());
        let mut checkout: Vec<String> = Vec::new();
        checkout.push("checkout".to_owned());
        checkout.push(version.0.clone());
        assert(views(clone@) == git_steps(source@, version@)[0]);
        assert(views(checkout@) == git_steps(source@, version@)[1]);
        let mut out: Vec<Vec<String>> = Vec::new();
        out.push(clone);
        out.push(checkout);
        out
    }

    /// Judges how the `step`th command, run with `args`, went.
    pub fn check(&self, step: usize, args: Vec<String>, outcome: Result<CmdOutput, IoFailure>) -> (r:
        Result<(), FetchError<GitCmdError>>)
        ensures
            git_result_view(r) == git_step_result(step as int, views(args@), outcome_view(outcome)),
    {
        let source = match outcome {
            Ok(output) => {
                if output.success {
                    return Ok(());
                }
                GitCmdError::NotSuccess { args, output }
            },
            Err(source) => GitCmdError::StartFailed { source, args },
        };
        if step == 0 {
            Err(FetchError::RetrieveFailed { source })
        } else {
            Err(FetchError::VersionChangeFailed { source })
        }
    }
}

} // verus!
