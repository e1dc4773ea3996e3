//! The walker: it finds the manifest at or above the working directory,
//! reconciles its project, and, where it is told to, goes on with the
//! manifests that it finds inside the dependencies of each project that it
//! has reconciled.
//!
//! The walker does no work on the file system itself. It asks its host for
//! one thing at a time with `Installer::request`, and goes on with the host's
//! answer in `Installer::resume`.

use crate::deps::{Deps, EntryView};
use crate::host::{FsPath, FsPathView, IoFailure, IoFailureView, Reply, ReplyView, Request, RequestView};
use crate::ledger::decode;
use crate::manifest::{DepsConf, DepsConfView, ParseDepsConfError, ParseDepsConfErrorView, ParseDepsError, ParseDepsErrorView};
use crate::reconcile::{begun, install_deps, InstallDeps, InstallDepsError, InstallDepsErrorView, InstallDepsView, Step, StepView};
use crate::text::{from_utf8, lines, text_of, views, Utf8Failure};
use regex::Regex;
use vstd::prelude::*;

verus! {

/// The names and rules that a run goes by.
pub struct Installer {
    /// The name of the manifest file.
    pub deps_file_name: String,
    /// The name of the ledger file; no dependency may have it.
    pub state_file_name: String,
    /// Matches a character that a dependency name may not hold.
    pub bad_dep_name_chars: Regex,
    /// The names of the fetch tools that there are.
    pub tools: Vec<String>,
}

/// The view of a name that may be missing.
pub open spec fn name_view(name: Option<String>) -> Option<Seq<char>> {
    match name {
        Some(n) => Some(n@),
        None => None,
    }
}

/// Why the manifest could not be read.
#[derive(Debug, PartialEq, Eq)]
pub enum ReadDepsFileError {
    ReadFailed { source: IoFailure, deps_file_path: FsPath },
}

/// What a `ReadDepsFileError` holds, as plain values.
pub enum ReadDepsFileErrorView {
    ReadFailed { source: IoFailureView, deps_file_path: FsPathView },
}

impl View for ReadDepsFileError {
    type V = ReadDepsFileErrorView;

    open spec fn view(&self) -> ReadDepsFileErrorView {
        match self {
            ReadDepsFileError::ReadFailed { source, deps_file_path } => ReadDepsFileErrorView::ReadFailed {
                source: source@,
                deps_file_path: deps_file_path@,
            },
        }
    }
}

/// Why one project could not be reconciled. The ledger is the state file.
#[derive(Debug, PartialEq, Eq)]
#[allow(inconsistent_fields)]
pub enum InstallProjDepsError<E> {
    ReadStateFileFailed { source: IoFailure, path: FsPath },
    ConvStateFileUtf8Failed { source: Utf8Failure, path: FsPath },
    ParseStateFileFailed { source: ParseDepsError, path: FsPath },
    CreateMainOutputDirFailed { source: IoFailure, path: FsPath },
    InstallDepsFailed { source: InstallDepsError<E> },
}

/// What an `InstallProjDepsError` holds, as plain values.
#[allow(inconsistent_fields)]
pub enum InstallProjDepsErrorView<E> {
    ReadStateFileFailed { source: IoFailureView, path: FsPathView },
    ConvStateFileUtf8Failed { source: int, path: FsPathView },
    ParseStateFileFailed { source: ParseDepsErrorView, path: FsPathView },
    CreateMainOutputDirFailed { source: IoFailureView, path: FsPathView },
    InstallDepsFailed { source: InstallDepsErrorView<E> },
}

impl<E> View for InstallProjDepsError<E> {
    type V = InstallProjDepsErrorView<E>;

    open spec fn view(&self) -> InstallProjDepsErrorView<E> {
        match self {
            InstallProjDepsError::ReadStateFileFailed {
                source,
                path,
            } => InstallProjDepsErrorView::ReadStateFileFailed { source: source@, path: path@ },
            InstallProjDepsError::ConvStateFileUtf8Failed {
                source,
                path,
            } => InstallProjDepsErrorView::ConvStateFileUtf8Failed {
                source: source.valid_up_to as int,
                path: path@,
            },
            InstallProjDepsError::ParseStateFileFailed {
                source,
                path,
            } => InstallProjDepsErrorView::ParseStateFileFailed { source: source@, path: path@ },
            InstallProjDepsError::CreateMainOutputDirFailed {
                source,
                path,
            } => InstallProjDepsErrorView::CreateMainOutputDirFailed {
                source: source@,
                path: path@,
            },
            InstallProjDepsError::InstallDepsFailed {
                source,
            } => InstallProjDepsErrorView::InstallDepsFailed { source: source@ },
        }
    }
}

/// Why a walk ended early. `dep_name` is the dependency whose own manifest
/// was being worked on, and is missing for the manifest that the walk began
/// with.
#[derive(Debug, PartialEq, Eq)]
#[allow(inconsistent_fields)]
pub enum InstallError<E> {
    NoDepsFileFound,
    ReadDepsFileFailed { source: ReadDepsFileError },
    ConvDepsFileUtf8Failed { source: Utf8Failure, path: FsPath, dep_name: Option<String> },
    ParseDepsConfFailed { source: ParseDepsConfError, path: FsPath, dep_name: Option<String> },
    InstallProjDepsFailed { source: InstallProjDepsError<E>, dep_name: Option<String> },
    ReadNestedDepsFileFailed {
        source: IoFailure,
        path: FsPath,
        dep_name: String,
        dep_proj_path: FsPath,
    },
}

/// What an `InstallError` holds, as plain values.
#[allow(inconsistent_fields)]
pub enum InstallErrorView<E> {
    NoDepsFileFound,
    ReadDepsFileFailed { source: ReadDepsFileErrorView },
    ConvDepsFileUtf8Failed { source: int, path: FsPathView, dep_name: Option<Seq<char>> },
    ParseDepsConfFailed {
        source: ParseDepsConfErrorView,
        path: FsPathView,
        dep_name: Option<Seq<char>>,
    },
    InstallProjDepsFailed { source: InstallProjDepsErrorView<E>, dep_name: Option<Seq<char>> },
    ReadNestedDepsFileFailed {
        source: IoFailureView,
        path: FsPathView,
        dep_name: Seq<char>,
        dep_proj_path: FsPathView,
    },
}

impl<E> View for InstallError<E> {
    type V = InstallErrorView<E>;

    open spec fn view(&self) -> InstallErrorView<E> {
        match self {
            InstallError::NoDepsFileFound => InstallErrorView::NoDepsFileFound,
            InstallError::ReadDepsFileFailed { source } => InstallErrorView::ReadDepsFileFailed {
                source: source@,
            },
            InstallError::ConvDepsFileUtf8Failed {
                source,
                path,
                dep_name,
            } => InstallErrorView::ConvDepsFileUtf8Failed {
                source: source.valid_up_to as int,
                path: path@,
                dep_name: name_view(*dep_name),
            },
            InstallError::ParseDepsConfFailed {
                source,
                path,
                dep_name,
            } => InstallErrorView::ParseDepsConfFailed {
                source: source@,
                path: path@,
                dep_name: name_view(*dep_name),
            },
            InstallError::InstallProjDepsFailed {
                source,
                dep_name,
            } => InstallErrorView::InstallProjDepsFailed {
                source: source@,
                dep_name: name_view(*dep_name),
            },
            InstallError::ReadNestedDepsFileFailed {
                source,
                path,
                dep_name,
                dep_proj_path,
            } => InstallErrorView::ReadNestedDepsFileFailed {
                source: source@,
                path: path@,
                dep_name: dep_name@,
                dep_proj_path: dep_proj_path@,
            },
        }
    }
}

/// What the host's answer to a read says: what the file holds, that there is
/// no such file, or why it could not be read.
pub open spec fn tried(read: Result<Seq<u8>, IoFailureView>) -> Result<
    Option<Seq<u8>>,
    IoFailureView,
> {
    match read {
        Ok(conts) => Ok(Some(conts)),
        Err(e) => if e.not_found {
            Ok(None)
        } else {
            Err(e)
        },
    }
}

/// The view of the host's answer to a read.
pub open spec fn read_view(read: Result<Vec<u8>, IoFailure>) -> Result<Seq<u8>, IoFailureView> {
    match read {
        Ok(conts) => Ok(conts@),
        Err(e) => Err(e@),
    }
}

/// The view of what a read says.
pub open spec fn tried_view(r: Result<Option<Vec<u8>>, IoFailure>) -> Result<
    Option<Seq<u8>>,
    IoFailureView,
> {
    match r {
        Ok(Some(conts)) => Ok(Some(conts@)),
        Ok(None) => Ok(None),
        Err(e) => Err(e@),
    }
}

/// Judges the host's answer to a read: a file that is not there is no
/// failure.
pub fn try_read(read: Result<Vec<u8>, IoFailure>) -> (r: Result<Option<Vec<u8>>, IoFailure>)
    ensures
        tried_view(r) == tried(read_view(read)),
{
    match read {
        Ok(conts) => Ok(Some(conts)),
        Err(e) => if e.not_found {
            Ok(None)
        } else {
            Err(e)
        },
    }
}

/// How the search for the manifest goes on after one directory was tried.
#[derive(Debug, PartialEq, Eq)]
pub enum Search {
    /// The manifest is in `proj_dir`, at `deps_file_path`, and holds `conts`.
    Found { proj_dir: FsPath, deps_file_path: FsPath, conts: Vec<u8> },
    /// It is not in the directory that was tried; `dir`, the directory above
    /// it, is next.
    Above { dir: FsPath },
    /// It is in no directory at or above the one that the search began in.
    Nowhere,
}

/// What a `Search` holds, as plain values.
pub enum SearchView {
    Found { proj_dir: FsPathView, deps_file_path: FsPathView, conts: Seq<u8> },
    Above { dir: FsPathView },
    Nowhere,
}

impl View for Search {
    type V = SearchView;

    open spec fn view(&self) -> SearchView {
        match self {
            Search::Found { proj_dir, deps_file_path, conts } => SearchView::Found {
                proj_dir: proj_dir@,
                deps_file_path: deps_file_path@,
                conts: conts@,
            },
            Search::Above { dir } => SearchView::Above { dir: dir@ },
            Search::Nowhere => SearchView::Nowhere,
        }
    }
}

/// How the search for the manifest named `deps_file_name` goes on after the
/// host has answered `read` for the directory `dir`: the nearest directory
/// that holds the manifest wins, and a failure other than a missing file
/// ends the search.
pub open spec fn searched(
    dir: FsPathView,
    deps_file_name: Seq<char>,
    read: Result<Seq<u8>, IoFailureView>,
) -> Result<SearchView, ReadDepsFileErrorView> {
    match tried(read) {
        Ok(Some(conts)) => Ok(
            SearchView::Found { proj_dir: dir, deps_file_path: dir.join(deps_file_name), conts },
        ),
        Ok(None) => match dir.parent() {
            Some(above) => Ok(SearchView::Above { dir: above }),
            None => Ok(SearchView::Nowhere),
        },
        Err(source) => Err(
            ReadDepsFileErrorView::ReadFailed { source, deps_file_path: dir.join(deps_file_name) },
        ),
    }
}

/// The view of how the search goes on.
pub open spec fn search_view(r: Result<Search, ReadDepsFileError>) -> Result<
    SearchView,
    ReadDepsFileErrorView,
> {
    match r {
        Ok(s) => Ok(s@),
        Err(e) => Err(e@),
    }
}

/// Goes on with the search for the manifest named `deps_file_name` after the
/// host has answered `read` for the file of that name in `dir`.
pub fn read_deps_file(dir: FsPath, deps_file_name: &str, read: Result<Vec<u8>, IoFailure>) -> (r:
    Result<Search, ReadDepsFileError>)
    ensures
        search_view(r) == searched(dir@, deps_file_name@, read_view(read)),
{
    match try_read(read) {
        Ok(Some(conts)) => {
            let deps_file_path = dir.join(deps_file_name);
            Ok(Search::Found { proj_dir: dir, deps_file_path, conts })
        },
        Ok(None) => match dir.parent() {
            Some(above) => Ok(Search::Above { dir: above }),
            None => Ok(Search::Nowhere),
        },
        Err(source) => Err(
            ReadDepsFileError::ReadFailed { source, deps_file_path: dir.join(deps_file_name) },
        ),
    }
}

/// A manifest that was read and waits to be worked on: the directory of its
/// project, the dependency that the project is (none for the project that
/// the walk began with), its path and what it holds.
#[derive(Debug, PartialEq, Eq)]
pub struct Pending {
    pub proj_dir: FsPath,
    pub dep_name: Option<String>,
    pub deps_file_path: FsPath,
    pub raw_deps_spec: Vec<u8>,
}

/// What a `Pending` holds, as plain values.
pub struct PendingView {
    pub proj_dir: FsPathView,
    pub dep_name: Option<Seq<char>>,
    pub deps_file_path: FsPathView,
    pub raw_deps_spec: Seq<u8>,
}

impl View for Pending {
    type V = PendingView;

    open spec fn view(&self) -> PendingView {
        PendingView {
            proj_dir: self.proj_dir@,
            dep_name: name_view(self.dep_name),
            deps_file_path: self.deps_file_path@,
            raw_deps_spec: self.raw_deps_spec@,
        }
    }
}

/// The views of the manifests that wait.
pub open spec fn pending_views(v: Seq<Pending>) -> Seq<PendingView> {
    Seq::new(v.len(), |i: int| v[i]@)
}

/// Where a walk stands: which answer it waits for.
#[derive(Debug, PartialEq, Eq)]
#[allow(inconsistent_fields)]
pub enum WalkStage {
    /// The manifest is being looked for in `dir`.
    Locating { dir: FsPath },
    /// The ledger of the project in `proj_dir` is being read.
    ReadingState { proj_dir: FsPath, dep_name: Option<String>, conf: DepsConf },
    /// The output directory of the project is being created.
    CreatingOutputDir {
        dep_name: Option<String>,
        output_dir: FsPath,
        state_file_path: FsPath,
        state_file_exists: bool,
        cur_deps: Deps,
        new_deps: Deps,
    },
    /// The project is being reconciled; `names` are its dependencies.
    Installing { dep_name: Option<String>, output_dir: FsPath, names: Vec<String>, run: InstallDeps },
    /// The manifest of the dependency `dep_name` is being looked for; those
    /// of `rest` come after it, the last first.
    Probing { output_dir: FsPath, dep_name: String, rest: Vec<String> },
}

/// What a `WalkStage` holds, as plain values.
#[allow(inconsistent_fields)]
pub enum WalkStageView {
    Locating { dir: FsPathView },
    ReadingState { proj_dir: FsPathView, dep_name: Option<Seq<char>>, conf: DepsConfView },
    CreatingOutputDir {
        dep_name: Option<Seq<char>>,
        output_dir: FsPathView,
        state_file_path: FsPathView,
        state_file_exists: bool,
        cur_deps: Seq<EntryView>,
        new_deps: Seq<EntryView>,
    },
    Installing {
        dep_name: Option<Seq<char>>,
        output_dir: FsPathView,
        names: Seq<Seq<char>>,
        run: InstallDepsView,
    },
    Probing { output_dir: FsPathView, dep_name: Seq<char>, rest: Seq<Seq<char>> },
}

impl View for WalkStage {
    type V = WalkStageView;

    open spec fn view(&self) -> WalkStageView {
        match self {
            WalkStage::Locating { dir } => WalkStageView::Locating { dir: dir@ },
            WalkStage::ReadingState { proj_dir, dep_name, conf } => WalkStageView::ReadingState {
                proj_dir: proj_dir@,
                dep_name: name_view(*dep_name),
                conf: conf@,
            },
            WalkStage::CreatingOutputDir {
                dep_name,
                output_dir,
                state_file_path,
                state_file_exists,
                cur_deps,
                new_deps,
            } => WalkStageView::CreatingOutputDir {
                dep_name: name_view(*dep_name),
                output_dir: output_dir@,
                state_file_path: state_file_path@,
                state_file_exists: *state_file_exists,
                cur_deps: cur_deps@,
                new_deps: new_deps@,
            },
            WalkStage::Installing { dep_name, output_dir, names, run } => WalkStageView::Installing {
                dep_name: name_view(*dep_name),
                output_dir: output_dir@,
                names: views(names@),
                run: run@,
            },
            WalkStage::Probing { output_dir, dep_name, rest } => WalkStageView::Probing {
                output_dir: output_dir@,
                dep_name: dep_name@,
                rest: views(rest@),
            },
        }
    }
}

/// A walk that waits for an answer of the host.
#[derive(Debug, PartialEq, Eq)]
pub struct Walk {
    /// Whether the manifests inside dependencies are worked on too.
    pub recurse: bool,
    /// The manifests that wait; the last is the next.
    pub projs: Vec<Pending>,
    pub stage: WalkStage,
}

/// What a `Walk` holds, as plain values.
pub struct WalkView {
    pub recurse: bool,
    pub projs: Seq<PendingView>,
    pub stage: WalkStageView,
}

impl View for Walk {
    type V = WalkView;

    open spec fn view(&self) -> WalkView {
        WalkView { recurse: self.recurse, projs: pending_views(self.projs@), stage: self.stage@ }
    }
}

/// How a walk goes on: it asks the host for something and waits, or it has
/// ended.
#[derive(Debug, PartialEq, Eq)]
pub enum WalkStep<E> {
    Ask(Walk),
    Finished(Result<(), InstallError<E>>),
}

/// What a `WalkStep` holds, as plain values.
pub enum WalkStepView<E> {
    Ask(WalkView),
    Finished(Result<(), InstallErrorView<E>>),
}

impl<E> View for WalkStep<E> {
    type V = WalkStepView<E>;

    open spec fn view(&self) -> WalkStepView<E> {
        match self {
            WalkStep::Ask(walk) => WalkStepView::Ask(walk@),
            WalkStep::Finished(Ok(())) => WalkStepView::Finished(Ok(())),
            WalkStep::Finished(Err(e)) => WalkStepView::Finished(Err(e@)),
        }
    }
}

/// The names of `entries`, in order.
pub open spec fn names_of(entries: Seq<EntryView>) -> Seq<Seq<char>> {
    Seq::new(entries.len(), |i: int| entries[i].0)
}

/// The names of `deps`, in order.
pub fn dep_names(deps: &Deps) -> (r: Vec<String>)
    ensures
        views(r@) == names_of(deps@),
{
    let mut out: Vec<String> = Vec::new();
    let mut i: usize = 0;
    while i < deps.len()
        invariant
            i <= deps@.len(),
            out@.len() == i,
            forall|k: int| 0 <= k < i ==> (#[trigger] out@[k])@ == deps@[k].0,
        decreases deps@.len() - i,
    {
        out.push(deps.name_at(i).clone());
        i += 1;
    }
    assert(views(out@) =~= names_of(deps@));
    out
}

impl Installer {
    /// Goes on to the manifest that waits last in `projs`: its text is read
    /// as a manifest, and the ledger of its project is asked for. The walk
    /// has ended where no manifest waits.
    pub open spec fn next_project<E>(&self, recurse: bool, projs: Seq<PendingView>) -> WalkStepView<
        E,
    > {
        if projs.len() == 0 {
            WalkStepView::Finished(Ok(()))
        } else {
            let proj = projs.last();
            match text_of(proj.raw_deps_spec) {
                Err(valid_up_to) => WalkStepView::Finished(
                    Err(
                        InstallErrorView::ConvDepsFileUtf8Failed {
                            source: valid_up_to,
                            path: proj.deps_file_path,
                            dep_name: proj.dep_name,
                        },
                    ),
                ),
                Ok(text) => match self.conf_of(text) {
                    Err(source) => WalkStepView::Finished(
                        Err(
                            InstallErrorView::ParseDepsConfFailed {
                                source,
                                path: proj.deps_file_path,
                                dep_name: proj.dep_name,
                            },
                        ),
                    ),
                    Ok(conf) => WalkStepView::Ask(
                        WalkView {
                            recurse,
                            projs: projs.drop_last(),
                            stage: WalkStageView::ReadingState {
                                proj_dir: proj.proj_dir,
                                dep_name: proj.dep_name,
                                conf,
                            },
                        },
                    ),
                },
            }
        }
    }

    /// Goes on to look for the manifest of the dependency that is last in
    /// `names`, or to the next manifest that waits where `names` is empty.
    pub open spec fn probe<E>(
        &self,
        recurse: bool,
        projs: Seq<PendingView>,
        output_dir: FsPathView,
        names: Seq<Seq<char>>,
    ) -> WalkStepView<E> {
        if names.len() == 0 {
            self.next_project(recurse, projs)
        } else {
            WalkStepView::Ask(
                WalkView {
                    recurse,
                    projs,
                    stage: WalkStageView::Probing {
                        output_dir,
                        dep_name: names.last(),
                        rest: names.drop_last(),
                    },
                },
            )
        }
    }

    /// Goes on after the executor has made the step `step` in the project
    /// whose dependencies are `names`. A project that is reconciled ends a
    /// walk that does not recurse; one that does goes on to the manifests of
    /// the project's dependencies.
    pub open spec fn reconciling<E>(
        &self,
        recurse: bool,
        projs: Seq<PendingView>,
        dep_name: Option<Seq<char>>,
        output_dir: FsPathView,
        names: Seq<Seq<char>>,
        step: StepView<E>,
    ) -> WalkStepView<E> {
        match step {
            StepView::Ask(run) => WalkStepView::Ask(
                WalkView {
                    recurse,
                    projs,
                    stage: WalkStageView::Installing { dep_name, output_dir, names, run },
                },
            ),
            StepView::Finished(Ok(())) => if recurse {
                self.probe(recurse, projs, output_dir, names)
            } else {
                WalkStepView::Finished(Ok(()))
            },
            StepView::Finished(Err(source)) => WalkStepView::Finished(
                Err(
                    InstallErrorView::InstallProjDepsFailed {
                        source: InstallProjDepsErrorView::InstallDepsFailed { source },
                        dep_name,
                    },
                ),
            ),
        }
    }

    /// What the walk waits to have done.
    pub open spec fn walk_request(&self, walk: WalkView) -> RequestView {
        match walk.stage {
            WalkStageView::Locating { dir } => RequestView::ReadFile {
                path: dir.join(self.deps_file_name@),
            },
            WalkStageView::ReadingState { proj_dir, dep_name, conf } => RequestView::ReadFile {
                path: proj_dir.join_all(conf.output_dir).join(self.state_file_name@),
            },
            WalkStageView::CreatingOutputDir {
                dep_name,
                output_dir,
                state_file_path,
                state_file_exists,
                cur_deps,
                new_deps,
            } => RequestView::CreateDirAll { path: output_dir },
            WalkStageView::Installing { dep_name, output_dir, names, run } => run.request(),
            WalkStageView::Probing { output_dir, dep_name, rest } => RequestView::ReadFile {
                path: output_dir.join(dep_name).join(self.deps_file_name@),
            },
        }
    }

    /// How the walk goes on after the host has answered `reply`. An answer
    /// of another kind than the walk waits for changes nothing.
    pub open spec fn walk_resumed<E>(&self, walk: WalkView, reply: ReplyView<E>) -> WalkStepView<
        E,
    > {
        match walk.stage {
            WalkStageView::Locating { dir } => match reply {
                ReplyView::File(read) => match searched(dir, self.deps_file_name@, read) {
                    Ok(SearchView::Found { proj_dir, deps_file_path, conts }) => self.next_project(
                        walk.recurse,
                        walk.projs.push(
                            PendingView {
                                proj_dir,
                                dep_name: None,
                                deps_file_path,
                                raw_deps_spec: conts,
                            },
                        ),
                    ),
                    Ok(SearchView::Above { dir }) => WalkStepView::Ask(
                        WalkView {
                            recurse: walk.recurse,
                            projs: walk.projs,
                            stage: WalkStageView::Locating { dir },
                        },
                    ),
                    Ok(SearchView::Nowhere) => WalkStepView::Finished(
                        Err(InstallErrorView::NoDepsFileFound),
                    ),
                    Err(source) => WalkStepView::Finished(
                        Err(InstallErrorView::ReadDepsFileFailed { source }),
                    ),
                },
                _ => WalkStepView::Ask(walk),
            },
            WalkStageView::ReadingState { proj_dir, dep_name, conf } => {
                let output_dir = proj_dir.join_all(conf.output_dir);
                let path = output_dir.join(self.state_file_name@);
                match reply {
                    ReplyView::File(read) => match tried(read) {
                        Err(source) => WalkStepView::Finished(
                            Err(
                                InstallErrorView::InstallProjDepsFailed {
                                    source: InstallProjDepsErrorView::ReadStateFileFailed {
                                        source,
                                        path,
                                    },
                                    dep_name,
                                },
                            ),
                        ),
                        Ok(found) => match text_of(
                            match found {
                                Some(conts) => conts,
                                None => Seq::empty(),
                            },
                        ) {
                            Err(valid_up_to) => WalkStepView::Finished(
                                Err(
                                    InstallErrorView::InstallProjDepsFailed {
                                        source: InstallProjDepsErrorView::ConvStateFileUtf8Failed {
                                            source: valid_up_to,
                                            path,
                                        },
                                        dep_name,
                                    },
                                ),
                            ),
                            Ok(text) => match self.deps_of(lines(text), 0, false) {
                                Err(source) => WalkStepView::Finished(
                                    Err(
                                        InstallErrorView::InstallProjDepsFailed {
                                            source: InstallProjDepsErrorView::ParseStateFileFailed {
                                                source,
                                                path,
                                            },
                                            dep_name,
                                        },
                                    ),
                                ),
                                Ok(cur_deps) => WalkStepView::Ask(
                                    WalkView {
                                        recurse: walk.recurse,
                                        projs: walk.projs,
                                        stage: WalkStageView::CreatingOutputDir {
                                            dep_name,
                                            output_dir,
                                            state_file_path: path,
                                            state_file_exists: found is Some,
                                            cur_deps,
                                            new_deps: conf.deps,
                                        },
                                    },
                                ),
                            },
                        },
                    },
                    _ => WalkStepView::Ask(walk),
                }
            },
            WalkStageView::CreatingOutputDir {
                dep_name,
                output_dir,
                state_file_path,
                state_file_exists,
                cur_deps,
                new_deps,
            } => match reply {
                ReplyView::Done(Ok(())) => self.reconciling(
                    walk.recurse,
                    walk.projs,
                    dep_name,
                    output_dir,
                    names_of(new_deps),
                    begun(output_dir, state_file_path, state_file_exists, cur_deps, new_deps),
                ),
                ReplyView::Done(Err(source)) => WalkStepView::Finished(
                    Err(
                        InstallErrorView::InstallProjDepsFailed {
                            source: InstallProjDepsErrorView::CreateMainOutputDirFailed {
                                source,
                                path: output_dir,
                            },
                            dep_name,
                        },
                    ),
                ),
                _ => WalkStepView::Ask(walk),
            },
            WalkStageView::Installing { dep_name, output_dir, names, run } => self.reconciling(
                walk.recurse,
                walk.projs,
                dep_name,
                output_dir,
                names,
                run.resumed(reply),
            ),
            WalkStageView::Probing { output_dir, dep_name, rest } => {
                let dep_proj_path = output_dir.join(dep_name);
                let path = dep_proj_path.join(self.deps_file_name@);
                match reply {
                    ReplyView::File(read) => match tried(read) {
                        Err(source) => WalkStepView::Finished(
                            Err(
                                InstallErrorView::ReadNestedDepsFileFailed {
                                    source,
                                    path,
                                    dep_name,
                                    dep_proj_path,
                                },
                            ),
                        ),
                        Ok(Some(conts)) => self.probe(
                            walk.recurse,
                            walk.projs.push(
                                PendingView {
                                    proj_dir: dep_proj_path,
                                    dep_name: Some(dep_name),
                                    deps_file_path: path,
                                    raw_deps_spec: conts,
                                },
                            ),
                            output_dir,
                            rest,
                        ),
                        Ok(None) => self.probe(walk.recurse, walk.projs, output_dir, rest),
                    },
                    _ => WalkStepView::Ask(walk),
                }
            },
        }
    }

    /// Goes on to the manifest that waits last in `projs`.
    fn go_to_next_project<E>(&self, recurse: bool, projs: Vec<Pending>) -> (r: WalkStep<E>)
        ensures
            r@ == self.next_project::<E>(recurse, pending_views(projs@)),
    {
        let mut projs = projs;
        let ghost all = pending_views(projs@);
        match projs.pop() {
            None => WalkStep::Finished(Ok(())),
            Some(proj) => {
                assert(pending_views(projs@) == all.drop_last());
                assert(proj@ == all.last());
                let Pending { proj_dir, dep_name, deps_file_path, raw_deps_spec } = proj;
                match from_utf8(raw_deps_spec) {
                    Err(source) => WalkStep::Finished(
                        Err(
                            InstallError::ConvDepsFileUtf8Failed {
                                source,
                                path: deps_file_path,
                                dep_name,
                            },
                        ),
                    ),
                    Ok(deps_spec) => match self.parse_deps_conf(deps_spec.as_str()) {
                        Err(source) => WalkStep::Finished(
                            Err(
                                InstallError::ParseDepsConfFailed {
                                    source,
                                    path: deps_file_path,
                                    dep_name,
                                },
                            ),
                        ),
                        Ok(conf) => WalkStep::Ask(
                            Walk {
                                recurse,
                                projs,
                                stage: WalkStage::ReadingState { proj_dir, dep_name, conf },
                            },
                        ),
                    },
                }
            },
        }
    }

    /// Goes on to look for the manifest of the dependency that is last in
    /// `names`.
    fn go_to_probe<E>(
        &self,
        recurse: bool,
        projs: Vec<Pending>,
        output_dir: FsPath,
        names: Vec<String>,
    ) -> (r: WalkStep<E>)
        ensures
            r@ == self.probe::<E>(recurse, pending_views(projs@), output_dir@, views(names@)),
    {
        let mut rest = names;
        let ghost all = views(rest@);
        match rest.pop() {
            None => self.go_to_next_project(recurse, projs),
            Some(dep_name) => {
                assert(views(rest@) == all.drop_last());
                assert(dep_name@ == all.last());
                WalkStep::Ask(
                    Walk { recurse, projs, stage: WalkStage::Probing { output_dir, dep_name, rest } },
                )
            },
        }
    }

    /// Goes on after the executor has made the step `step`.
    fn go_on_reconciling<E>(
        &self,
        recurse: bool,
        projs: Vec<Pending>,
        dep_name: Option<String>,
        output_dir: FsPath,
        names: Vec<String>,
        step: Step<E>,
    ) -> (r: WalkStep<E>)
        ensures
            r@ == self.reconciling::<E>(
                recurse,
                pending_views(projs@),
                name_view(dep_name),
                output_dir@,
                views(names@),
                step@,
            ),
    {
        match step {
            Step::Ask(run) => WalkStep::Ask(
                Walk {
                    recurse,
                    projs,
                    stage: WalkStage::Installing { dep_name, output_dir, names, run },
                },
            ),
            Step::Finished(Ok(())) => if recurse {
                self.go_to_probe(recurse, projs, output_dir, names)
            } else {
                WalkStep::Finished(Ok(()))
            },
            Step::Finished(Err(source)) => WalkStep::Finished(
                Err(
                    InstallError::InstallProjDepsFailed {
                        source: InstallProjDepsError::InstallDepsFailed { source },
                        dep_name,
                    },
                ),
            ),
        }
    }

    /// Begins a walk from the working directory `cwd`: the manifest is looked
    /// for there first. With `recurse` the manifests inside dependencies are
    /// worked on too.
    pub fn install(&self, cwd: FsPath, recurse: bool) -> (r: Walk)
        ensures
            r@ == (WalkView {
                recurse,
                projs: Seq::empty(),
                stage: WalkStageView::Locating { dir: cwd@ },
            }),
    {
        let r = Walk { recurse, projs: Vec::new(), stage: WalkStage::Locating { dir: cwd } };
        assert(pending_views(r.projs@) == Seq::<PendingView>::empty());
        r
    }

    /// What `walk` waits to have done.
    pub fn request(&self, walk: &Walk) -> (r: Request)
        ensures
            r@ == self.walk_request(walk@),
    {
        match &walk.stage {
            WalkStage::Locating { dir } => Request::ReadFile {
                path: dir.join(self.deps_file_name.as_str()),
            },
            WalkStage::ReadingState { proj_dir, dep_name, conf } => Request::ReadFile {
                path: proj_dir.join_all(&conf.output_dir).join(self.state_file_name.as_str()),
            },
            WalkStage::CreatingOutputDir {
                dep_name,
                output_dir,
                state_file_path,
                state_file_exists,
                cur_deps,
                new_deps,
            } => Request::CreateDirAll { path: output_dir.clone() },
            WalkStage::Installing { dep_name, output_dir, names, run } => run.request(),
            WalkStage::Probing { output_dir, dep_name, rest } => Request::ReadFile {
                path: output_dir.join(dep_name.as_str()).join(self.deps_file_name.as_str()),
            },
        }
    }

    /// Goes on with `walk` after the host has answered `reply` to
    /// `self.request(&walk)`.
    pub fn resume<E>(&self, walk: Walk, reply: Reply<E>) -> (r: WalkStep<E>)
        ensures
            r@ == self.walk_resumed(walk@, reply@),
    {
        let Walk { recurse, projs, stage } = walk;
        let mut projs = projs;
        match stage {
            WalkStage::Locating { dir } => match reply {
                Reply::File(read) => match read_deps_file(dir, self.deps_file_name.as_str(), read) {
                    Ok(Search::Found { proj_dir, deps_file_path, conts }) => {
                        let ghost before = pending_views(projs@);
                        let proj = Pending {
                            proj_dir,
                            dep_name: None,
                            deps_file_path,
                            raw_deps_spec: conts,
                        };
                        projs.push(proj);
                        assert(pending_views(projs@) == before.push(proj@));
                        self.go_to_next_project(recurse, projs)
                    },
                    Ok(Search::Above { dir }) => WalkStep::Ask(
                        Walk { recurse, projs, stage: WalkStage::Locating { dir } },
                    ),
                    Ok(Search::Nowhere) => WalkStep::Finished(Err(InstallError::NoDepsFileFound)),
                    Err(source) => WalkStep::Finished(
                        Err(InstallError::ReadDepsFileFailed { source }),
                    ),
                },
                _ => WalkStep::Ask(Walk { recurse, projs, stage: WalkStage::Locating { dir } }),
            },
            WalkStage::ReadingState { proj_dir, dep_name, conf } => match reply {
                Reply::File(read) => {
                    let output_dir = proj_dir.join_all(&conf.output_dir);
                    let path = output_dir.join(self.state_file_name.as_str());
                    let (state_file_exists, conts) = match try_read(read) {
                        Err(source) => {
                            return WalkStep::Finished(
                                Err(
                                    InstallError::InstallProjDepsFailed {
                                        source: InstallProjDepsError::ReadStateFileFailed {
                                            source,
                                            path,
                                        },
                                        dep_name,
                                    },
                                ),
                            );
                        },
                        Ok(Some(conts)) => (true, conts),
                        Ok(None) => (false, Vec::new()),
                    };
                    let state_spec = match from_utf8(conts) {
                        Err(source) => {
                            return WalkStep::Finished(
                                Err(
                                    InstallError::InstallProjDepsFailed {
                                        source: InstallProjDepsError::ConvStateFileUtf8Failed {
                                            source,
                                            path,
                                        },
                                        dep_name,
                                    },
                                ),
                            );
                        },
                        Ok(text) => text,
                    };
                    let cur_deps = match decode(self, state_spec.as_str()) {
                        Err(source) => {
                            return WalkStep::Finished(
                                Err(
                                    InstallError::InstallProjDepsFailed {
                                        source: InstallProjDepsError::ParseStateFileFailed {
                                            source,
                                            path,
                                        },
                                        dep_name,
                                    },
                                ),
                            );
                        },
                        Ok(deps) => deps,
                    };
                    let DepsConf { output_dir: _, deps: new_deps } = conf;
                    WalkStep::Ask(
                        Walk {
                            recurse,
                            projs,
                            stage: WalkStage::CreatingOutputDir {
                                dep_name,
                                output_dir,
                                state_file_path: path,
                                state_file_exists,
                                cur_deps,
                                new_deps,
                            },
                        },
                    )
                },
                _ => WalkStep::Ask(
                    Walk { recurse, projs, stage: WalkStage::ReadingState { proj_dir, dep_name, conf } },
                ),
            },
            WalkStage::CreatingOutputDir {
                dep_name,
                output_dir,
                state_file_path,
                state_file_exists,
                cur_deps,
                new_deps,
            } => match reply {
                Reply::Done(Ok(())) => {
                    let names = dep_names(&new_deps);
                    let step = install_deps(
                        output_dir.clone(),
                        state_file_path,
                        state_file_exists,
                        cur_deps,
                        &new_deps,
                    );
                    self.go_on_reconciling(recurse, projs, dep_name, output_dir, names, step)
                },
                Reply::Done(Err(source)) => WalkStep::Finished(
                    Err(
                        InstallError::InstallProjDepsFailed {
                            source: InstallProjDepsError::CreateMainOutputDirFailed {
                                source,
                                path: output_dir,
                            },
                            dep_name,
                        },
                    ),
                ),
                _ => WalkStep::Ask(
                    Walk {
                        recurse,
                        projs,
                        stage: WalkStage::CreatingOutputDir {
                            dep_name,
                            output_dir,
                            state_file_path,
                            state_file_exists,
                            cur_deps,
                            new_deps,
                        },
                    },
                ),
            },
            WalkStage::Installing { dep_name, output_dir, names, run } => {
                let step = run.resume(reply);
                self.go_on_reconciling(recurse, projs, dep_name, output_dir, names, step)
            },
            WalkStage::Probing { output_dir, dep_name, rest } => match reply {
                Reply::File(read) => {
                    let dep_proj_path = output_dir.join(dep_name.as_str());
                    let path = dep_proj_path.join(self.deps_file_name.as_str());
                    match try_read(read) {
                        Err(source) => WalkStep::Finished(
                            Err(
                                InstallError::ReadNestedDepsFileFailed {
                                    source,
                                    path,
                                    dep_name,
                                    dep_proj_path,
                                },
                            ),
                        ),
                        Ok(Some(conts)) => {
                            let ghost before = pending_views(projs@);
                            let proj = Pending {
                                proj_dir: dep_proj_path,
                                dep_name: Some(dep_name),
                                deps_file_path: path,
                                raw_deps_spec: conts,
                            };
                            projs.push(proj);
                            assert(pending_views(projs@) == before.push(proj@));
                            self.go_to_probe(recurse, projs, output_dir, rest)
                        },
                        Ok(None) => self.go_to_probe(recurse, projs, output_dir, rest),
                    }
                },
                _ => WalkStep::Ask(
                    Walk { recurse, projs, stage: WalkStage::Probing { output_dir, dep_name, rest } },
                ),
            },
        }
    }
}

} // verus!
