//! The executor: it applies a plan to one output directory, one request to
//! the host at a time, and has the ledger rewritten after every change.
//!
//! For each planned action the directory of the dependency is removed and
//! the ledger is rewritten without its name. For an install the directory is
//! then created, the fetch tool is run in it, the dependency is recorded and
//! the ledger is rewritten again. The first failure ends the run.

use crate::dep_tools::FetchError;
use crate::deps::{as_map, distinct_names, has_name, lemma_as_map_at, lemma_without, without, Dependency, DependencyView, Deps, EntryView};
use crate::host::{FsPath, FsPathView, IoFailure, IoFailureView, Reply, ReplyView, Request, RequestView, WriteStateFileError, WriteStateFileErrorView};
use crate::plan::{action_views, actions, apply_all, apply_one, installs, lemma_plan_is_the_difference, lemma_plan_of_the_same_is_empty, plan, removes, Action, ActionView};
use vstd::prelude::*;

verus! {

/// Why a run of the executor ended early. The ledger is the state file.
#[derive(Debug, PartialEq, Eq)]
#[allow(inconsistent_fields)]
pub enum InstallDepsError<E> {
    WriteInitialCurDepsFailed { source: WriteStateFileError, state_file_path: FsPath },
    RemoveOldDepOutputDirFailed { source: IoFailure, dep_name: String, path: FsPath },
    WriteCurDepsAfterRemoveFailed {
        source: WriteStateFileError,
        dep_name: String,
        state_file_path: FsPath,
    },
    CreateDepOutputDirFailed { source: IoFailure, dep_name: String, path: FsPath },
    WriteCurDepsAfterInstallFailed {
        source: WriteStateFileError,
        dep_name: String,
        state_file_path: FsPath,
    },
    FetchFailed { source: FetchError<E>, dep_name: String },
}

/// What an `InstallDepsError` holds, as plain values.
#[allow(inconsistent_fields)]
pub enum InstallDepsErrorView<E> {
    WriteInitialCurDepsFailed { source: WriteStateFileErrorView, state_file_path: FsPathView },
    RemoveOldDepOutputDirFailed { source: IoFailureView, dep_name: Seq<char>, path: FsPathView },
    WriteCurDepsAfterRemoveFailed {
        source: WriteStateFileErrorView,
        dep_name: Seq<char>,
        state_file_path: FsPathView,
    },
    CreateDepOutputDirFailed { source: IoFailureView, dep_name: Seq<char>, path: FsPathView },
    WriteCurDepsAfterInstallFailed {
        source: WriteStateFileErrorView,
        dep_name: Seq<char>,
        state_file_path: FsPathView,
    },
    FetchFailed { source: FetchError<E>, dep_name: Seq<char> },
}

impl<E> View for InstallDepsError<E> {
    type V = InstallDepsErrorView<E>;

    open spec fn view(&self) -> InstallDepsErrorView<E> {
        match self {
            InstallDepsError::WriteInitialCurDepsFailed {
                source,
                state_file_path,
            } => InstallDepsErrorView::WriteInitialCurDepsFailed {
                source: source@,
                state_file_path: state_file_path@,
            },
            InstallDepsError::RemoveOldDepOutputDirFailed {
                source,
                dep_name,
                path,
            } => InstallDepsErrorView::RemoveOldDepOutputDirFailed {
                source: source@,
                dep_name: dep_name@,
                path: path@,
            },
            InstallDepsError::WriteCurDepsAfterRemoveFailed {
                source,
                dep_name,
                state_file_path,
            } => InstallDepsErrorView::WriteCurDepsAfterRemoveFailed {
                source: source@,
                dep_name: dep_name@,
                state_file_path: state_file_path@,
            },
            InstallDepsError::CreateDepOutputDirFailed {
                source,
                dep_name,
                path,
            } => InstallDepsErrorView::CreateDepOutputDirFailed {
                source: source@,
                dep_name: dep_name@,
                path: path@,
            },
            InstallDepsError::WriteCurDepsAfterInstallFailed {
                source,
                dep_name,
                state_file_path,
            } => InstallDepsErrorView::WriteCurDepsAfterInstallFailed {
                source: source@,
                dep_name: dep_name@,
                state_file_path: state_file_path@,
            },
            InstallDepsError::FetchFailed { source, dep_name } => InstallDepsErrorView::FetchFailed {
                source: *source,
                dep_name: dep_name@,
            },
        }
    }
}

/// A planned action with what it needs: an install holds the dependency that
/// is to be installed.
#[derive(Debug, PartialEq, Eq)]
pub enum Todo {
    Install { dep_name: String, dep: Dependency },
    Remove { dep_name: String },
}

/// What a `Todo` holds, as plain values.
pub enum TodoView {
    Install { dep_name: Seq<char>, dep: DependencyView },
    Remove { dep_name: Seq<char> },
}

impl View for Todo {
    type V = TodoView;

    open spec fn view(&self) -> TodoView {
        match self {
            Todo::Install { dep_name, dep } => TodoView::Install { dep_name: dep_name@, dep: dep@ },
            Todo::Remove { dep_name } => TodoView::Remove { dep_name: dep_name@ },
        }
    }
}

impl TodoView {
    /// The local name that the action applies to.
    pub open spec fn name(self) -> Seq<char> {
        match self {
            TodoView::Install { dep_name, dep } => dep_name,
            TodoView::Remove { dep_name } => dep_name,
        }
    }

    /// What the action makes of the recorded dependencies `cur`.
    pub open spec fn applied(self, cur: Map<Seq<char>, DependencyView>) -> Map<
        Seq<char>,
        DependencyView,
    > {
        match self {
            TodoView::Install { dep_name, dep } => cur.insert(dep_name, dep),
            TodoView::Remove { dep_name } => cur.remove(dep_name),
        }
    }
}

/// The views of a sequence of planned actions.
pub open spec fn todo_views(v: Seq<Todo>) -> Seq<TodoView> {
    Seq::new(v.len(), |i: int| v[i]@)
}

/// The action `a` with what it needs from the declared dependencies `new`.
pub open spec fn todo_of(new: Seq<EntryView>, a: ActionView) -> TodoView {
    match a.0 {
        Action::Install => TodoView::Install { dep_name: a.1, dep: as_map(new)[a.1] },
        Action::Remove => TodoView::Remove { dep_name: a.1 },
    }
}

/// The plan that turns `cur` into `new`, each action with what it needs.
pub open spec fn todos(cur: Seq<EntryView>, new: Seq<EntryView>) -> Seq<TodoView> {
    Seq::new(plan(cur, new).len(), |k: int| todo_of(new, plan(cur, new)[k]))
}

/// What all of `todo` make of the recorded dependencies `cur`, taken from
/// the last to the first.
pub open spec fn apply_todos(cur: Map<Seq<char>, DependencyView>, todo: Seq<TodoView>) -> Map<
    Seq<char>,
    DependencyView,
>
    decreases todo.len(),
{
    if todo.len() == 0 {
        cur
    } else {
        apply_todos(todo.last().applied(cur), todo.drop_last())
    }
}

/// Where a run stands: which answer it waits for.
#[derive(Debug, PartialEq, Eq)]
pub enum Stage {
    /// The first ledger of a project without changes is being written.
    WritingInitial,
    /// The directory of the dependency of `todo` is being removed.
    Removing { todo: Todo },
    /// The ledger is being rewritten without the dependency of `todo`.
    WritingAfterRemove { todo: Todo },
    /// The directory of the dependency is being created.
    CreatingDir { dep_name: String, dep: Dependency },
    /// The dependency is being fetched.
    Fetching { dep_name: String, dep: Dependency },
    /// The ledger is being rewritten with the dependency.
    WritingAfterInstall { dep_name: String },
}

/// What a `Stage` holds, as plain values.
pub enum StageView {
    WritingInitial,
    Removing { todo: TodoView },
    WritingAfterRemove { todo: TodoView },
    CreatingDir { dep_name: Seq<char>, dep: DependencyView },
    Fetching { dep_name: Seq<char>, dep: DependencyView },
    WritingAfterInstall { dep_name: Seq<char> },
}

impl View for Stage {
    type V = StageView;

    open spec fn view(&self) -> StageView {
        match self {
            Stage::WritingInitial => StageView::WritingInitial,
            Stage::Removing { todo } => StageView::Removing { todo: todo@ },
            Stage::WritingAfterRemove { todo } => StageView::WritingAfterRemove { todo: todo@ },
            Stage::CreatingDir { dep_name, dep } => StageView::CreatingDir {
                dep_name: dep_name@,
                dep: dep@,
            },
            Stage::Fetching { dep_name, dep } => StageView::Fetching {
                dep_name: dep_name@,
                dep: dep@,
            },
            Stage::WritingAfterInstall { dep_name } => StageView::WritingAfterInstall {
                dep_name: dep_name@,
            },
        }
    }
}

/// A run of the executor that waits for an answer of the host.
#[derive(Debug, PartialEq, Eq)]
pub struct InstallDeps {
    /// The directory that holds the dependencies' directories.
    pub output_dir: FsPath,
    /// The path of the ledger.
    pub state_file_path: FsPath,
    /// The dependencies that are installed, as far as the run knows.
    pub cur_deps: Deps,
    /// The planned actions that come after the one that is being applied;
    /// the last is the next.
    pub rest: Vec<Todo>,
    pub stage: Stage,
}

/// What an `InstallDeps` holds, as plain values.
pub struct InstallDepsView {
    pub output_dir: FsPathView,
    pub state_file_path: FsPathView,
    pub cur_deps: Seq<EntryView>,
    pub rest: Seq<TodoView>,
    pub stage: StageView,
}

impl View for InstallDeps {
    type V = InstallDepsView;

    open spec fn view(&self) -> InstallDepsView {
        InstallDepsView {
            output_dir: self.output_dir@,
            state_file_path: self.state_file_path@,
            cur_deps: self.cur_deps@,
            rest: todo_views(self.rest@),
            stage: self.stage@,
        }
    }
}

/// How a run goes on: it asks the host for something and waits, or it has
/// ended.
#[derive(Debug, PartialEq, Eq)]
pub enum Step<E> {
    Ask(InstallDeps),
    Finished(Result<(), InstallDepsError<E>>),
}

/// What a `Step` holds, as plain values.
pub enum StepView<E> {
    Ask(InstallDepsView),
    Finished(Result<(), InstallDepsErrorView<E>>),
}

impl<E> View for Step<E> {
    type V = StepView<E>;

    open spec fn view(&self) -> StepView<E> {
        match self {
            Step::Ask(run) => StepView::Ask(run@),
            Step::Finished(Ok(())) => StepView::Finished(Ok(())),
            Step::Finished(Err(e)) => StepView::Finished(Err(e@)),
        }
    }
}

/// Goes on to the next planned action of `todo`, its last; the run has
/// ended where there is none.
pub open spec fn advance<E>(
    output_dir: FsPathView,
    state_file_path: FsPathView,
    cur_deps: Seq<EntryView>,
    todo: Seq<TodoView>,
) -> StepView<E> {
    if todo.len() == 0 {
        StepView::Finished(Ok(()))
    } else {
        StepView::Ask(
            InstallDepsView {
                output_dir,
                state_file_path,
                cur_deps,
                rest: todo.drop_last(),
                stage: StageView::Removing { todo: todo.last() },
            },
        )
    }
}

/// How a run begins that is to turn the recorded dependencies `cur_deps`,
/// read from the ledger at `state_file_path`, into `new_deps`. Where nothing
/// is planned, a ledger that is missing is written, and one that is there is
/// left alone.
pub open spec fn begun<E>(
    output_dir: FsPathView,
    state_file_path: FsPathView,
    state_file_exists: bool,
    cur_deps: Seq<EntryView>,
    new_deps: Seq<EntryView>,
) -> StepView<E> {
    let todo = todos(cur_deps, new_deps);
    if todo.len() == 0 && !state_file_exists {
        StepView::Ask(
            InstallDepsView {
                output_dir,
                state_file_path,
                cur_deps,
                rest: todo,
                stage: StageView::WritingInitial,
            },
        )
    } else {
        advance(output_dir, state_file_path, cur_deps, todo)
    }
}

impl InstallDepsView {
    /// This run at another stage.
    pub open spec fn at(self, stage: StageView) -> InstallDepsView {
        InstallDepsView { stage, ..self }
    }

    /// This run with other recorded dependencies, at another stage.
    pub open spec fn with(self, cur_deps: Seq<EntryView>, stage: StageView) -> InstallDepsView {
        InstallDepsView { cur_deps, stage, ..self }
    }

    /// What the run waits to have done.
    pub open spec fn request(self) -> RequestView {
        match self.stage {
            StageView::WritingInitial => RequestView::WriteStateFile {
                path: self.state_file_path,
                deps: self.cur_deps,
            },
            StageView::Removing { todo } => RequestView::RemoveDirAll {
                path: self.output_dir.join(todo.name()),
            },
            StageView::WritingAfterRemove { todo } => RequestView::WriteStateFile {
                path: self.state_file_path,
                deps: self.cur_deps,
            },
            StageView::CreatingDir { dep_name, dep } => RequestView::CreateDir {
                path: self.output_dir.join(dep_name),
            },
            StageView::Fetching { dep_name, dep } => RequestView::Fetch {
                tool_name: dep.tool_name,
                source: dep.source,
                version: dep.version,
                out_dir: self.output_dir.join(dep_name),
            },
            StageView::WritingAfterInstall { dep_name } => RequestView::WriteStateFile {
                path: self.state_file_path,
                deps: self.cur_deps,
            },
        }
    }

    /// Whether `reply` is of the kind that the run waits for.
    pub open spec fn expects<E>(self, reply: ReplyView<E>) -> bool {
        match self.stage {
            StageView::WritingInitial => reply is Written,
            StageView::Removing { todo } => reply is Done,
            StageView::WritingAfterRemove { todo } => reply is Written,
            StageView::CreatingDir { dep_name, dep } => reply is Done,
            StageView::Fetching { dep_name, dep } => reply is Fetched,
            StageView::WritingAfterInstall { dep_name } => reply is Written,
        }
    }

    /// How the run goes on after the host has answered `reply`. An answer of
    /// another kind than the run waits for changes nothing. A directory that
    /// was to be removed and was not there counts as removed.
    pub open spec fn resumed<E>(self, reply: ReplyView<E>) -> StepView<E> {
        match self.stage {
            StageView::WritingInitial => match reply {
                ReplyView::Written(Ok(())) => StepView::Finished(Ok(())),
                ReplyView::Written(Err(source)) => StepView::Finished(
                    Err(
                        InstallDepsErrorView::WriteInitialCurDepsFailed {
                            source,
                            state_file_path: self.state_file_path,
                        },
                    ),
                ),
                _ => StepView::Ask(self),
            },
            StageView::Removing { todo } => match reply {
                ReplyView::Done(Err(source)) if !source.not_found => StepView::Finished(
                    Err(
                        InstallDepsErrorView::RemoveOldDepOutputDirFailed {
                            source,
                            dep_name: todo.name(),
                            path: self.output_dir.join(todo.name()),
                        },
                    ),
                ),
                ReplyView::Done(_) => StepView::Ask(
                    self.with(
                        without(self.cur_deps, todo.name()),
                        StageView::WritingAfterRemove { todo },
                    ),
                ),
                _ => StepView::Ask(self),
            },
            StageView::WritingAfterRemove { todo } => match reply {
                ReplyView::Written(Ok(())) => match todo {
                    TodoView::Install { dep_name, dep } => StepView::Ask(
                        self.at(StageView::CreatingDir { dep_name, dep }),
                    ),
                    TodoView::Remove { dep_name } => advance(
                        self.output_dir,
                        self.state_file_path,
                        self.cur_deps,
                        self.rest,
                    ),
                },
                ReplyView::Written(Err(source)) => StepView::Finished(
                    Err(
                        InstallDepsErrorView::WriteCurDepsAfterRemoveFailed {
                            source,
                            dep_name: todo.name(),
                            state_file_path: self.state_file_path,
                        },
                    ),
                ),
                _ => StepView::Ask(self),
            },
            StageView::CreatingDir { dep_name, dep } => match reply {
                ReplyView::Done(Ok(())) => StepView::Ask(
                    self.at(StageView::Fetching { dep_name, dep }),
                ),
                ReplyView::Done(Err(source)) => StepView::Finished(
                    Err(
                        InstallDepsErrorView::CreateDepOutputDirFailed {
                            source,
                            dep_name,
                            path: self.output_dir.join(dep_name),
                        },
                    ),
                ),
                _ => StepView::Ask(self),
            },
            StageView::Fetching { dep_name, dep } => match reply {
                ReplyView::Fetched(Ok(())) => StepView::Ask(
                    self.with(
                        if has_name(self.cur_deps, dep_name) {
                            self.cur_deps
                        } else {
                            self.cur_deps.push((dep_name, dep))
                        },
                        StageView::WritingAfterInstall { dep_name },
                    ),
                ),
                ReplyView::Fetched(Err(source)) => StepView::Finished(
                    Err(InstallDepsErrorView::FetchFailed { source, dep_name }),
                ),
                _ => StepView::Ask(self),
            },
            StageView::WritingAfterInstall { dep_name } => match reply {
                ReplyView::Written(Ok(())) => advance(
                    self.output_dir,
                    self.state_file_path,
                    self.cur_deps,
                    self.rest,
                ),
                ReplyView::Written(Err(source)) => StepView::Finished(
                    Err(
                        InstallDepsErrorView::WriteCurDepsAfterInstallFailed {
                            source,
                            dep_name,
                            state_file_path: self.state_file_path,
                        },
                    ),
                ),
                _ => StepView::Ask(self),
            },
        }
    }
}

/// Goes on to the next planned action of `todo`.
fn go_on<E>(output_dir: FsPath, state_file_path: FsPath, cur_deps: Deps, todo: Vec<Todo>) -> (r:
    Step<E>)
    ensures
        r@ == advance::<E>(output_dir@, state_file_path@, cur_deps@, todo_views(todo@)),
{
    let mut rest = todo;
    let ghost all = todo_views(rest@);
    match rest.pop() {
        None => Step::Finished(Ok(())),
        Some(next) => {
            assert(todo_views(rest@) == all.drop_last());
            assert(next@ == all.last());
            Step::Ask(
                InstallDeps {
                    output_dir,
                    state_file_path,
                    cur_deps,
                    rest,
                    stage: Stage::Removing { todo: next },
                },
            )
        },
    }
}

/// Every planned install is for a name that `new` declares.
pub proof fn lemma_installs_declared(cur: Seq<EntryView>, new: Seq<EntryView>)
    ensures
        forall|k: int|
            0 <= k < installs(cur, new).len() ==> (#[trigger] installs(cur, new)[k]).0
                == Action::Install && has_name(new, installs(cur, new)[k].1),
    decreases new.len(),
{
    if new.len() > 0 {
        let init = new.drop_last();
        lemma_installs_declared(cur, init);
        let prev = installs(cur, init);
        let all = installs(cur, new);
        assert forall|k: int| 0 <= k < all.len() implies (#[trigger] all[k]).0 == Action::Install
            && has_name(new, all[k].1) by {
            if k < prev.len() {
                assert(all[k] == prev[k]);
                let i = choose|i: int| 0 <= i < init.len() && (#[trigger] init[i]).0 == prev[k].1;
                assert(new[i] == init[i]);
            } else {
                assert(new[new.len() - 1].0 == all[k].1);
            }
        }
    }
}

/// Every planned removal is a removal.
pub proof fn lemma_removes_remove(cur: Seq<EntryView>, new: Seq<EntryView>, n: int)
    ensures
        forall|k: int|
            0 <= k < removes(cur, new, n).len() ==> (#[trigger] removes(cur, new, n)[k]).0
                == Action::Remove,
    decreases n,
{
    if n > 0 {
        lemma_removes_remove(cur, new, n - 1);
        let prev = removes(cur, new, n - 1);
        let all = removes(cur, new, n);
        assert forall|k: int| 0 <= k < all.len() implies (#[trigger] all[k]).0
            == Action::Remove by {
            if k < prev.len() {
                assert(all[k] == prev[k]);
            }
        }
    }
}

/// The plan that turns `cur_deps` into `new_deps`, each action with what it
/// needs.
pub fn plan_todo(cur_deps: &Deps, new_deps: &Deps) -> (r: Vec<Todo>)
    ensures
        todo_views(r@) == todos(cur_deps@, new_deps@),
{
    let acts = actions(cur_deps, new_deps);
    let ghost planned = plan(cur_deps@, new_deps@);
    let mut out: Vec<Todo> = Vec::new();
    let mut i: usize = 0;
    assert(action_views(acts@).len() == acts@.len());
    while i < acts.len()
        invariant
            i <= acts.len(),
            acts@.len() == planned.len(),
            planned == plan(cur_deps@, new_deps@),
            action_views(acts@) == planned,
            out@.len() == i,
            forall|k: int| 0 <= k < i ==> (#[trigger] out@[k])@ == todo_of(new_deps@, planned[k]),
        decreases acts.len() - i,
    {
        assert(action_views(acts@)[i as int] == (acts@[i as int].0, acts@[i as int].1@));
        let dep_name = acts[i].1.clone();
        match acts[i].0 {
            Action::Install => {
                proof {
                    lemma_installs_declared(cur_deps@, new_deps@);
                    lemma_removes_remove(cur_deps@, new_deps@, cur_deps@.len() as int);
                    let ins = installs(cur_deps@, new_deps@);
                    if i < ins.len() {
                        assert(planned[i as int] == ins[i as int]);
                    } else {
                        assert(planned[i as int] == removes(
                            cur_deps@,
                            new_deps@,
                            cur_deps@.len() as int,
                        )[i - ins.len()]);
                    }
                    assert(has_name(new_deps@, dep_name@));
                }
                match new_deps.get(&dep_name) {
                    Some(dep) => {
                        out.push(Todo::Install { dep_name, dep: dep.clone() });
                    },
                    None => {
                        // An install is planned only for a name that is
                        // declared, so this arm is never taken.
                        assert(false);
                        out.push(Todo::Remove { dep_name });
                    },
                }
            },
            Action::Remove => {
                out.push(Todo::Remove { dep_name });
            },
        }
        i += 1;
    }
    assert(todo_views(out@) =~= todos(cur_deps@, new_deps@));
    out
}

/// Begins the run that is to turn the recorded dependencies `cur_deps`, read
/// from the ledger at `state_file_path`, into `new_deps` under
/// `output_dir`.
pub fn install_deps<E>(
    output_dir: FsPath,
    state_file_path: FsPath,
    state_file_exists: bool,
    cur_deps: Deps,
    new_deps: &Deps,
) -> (r: Step<E>)
    ensures
        r@ == begun::<E>(
            output_dir@,
            state_file_path@,
            state_file_exists,
            cur_deps@,
            new_deps@,
        ),
{
    let todo = plan_todo(&cur_deps, new_deps);
    if todo.len() == 0 && !state_file_exists {
        Step::Ask(
            InstallDeps {
                output_dir,
                state_file_path,
                cur_deps,
                rest: todo,
                stage: Stage::WritingInitial,
            },
        )
    } else {
        go_on(output_dir, state_file_path, cur_deps, todo)
    }
}

impl Todo {
    /// The local name that the action applies to.
    pub fn name(&self) -> (r: &String)
        ensures
            r@ == self@.name(),
    {
        match self {
            Todo::Install { dep_name, dep } => dep_name,
            Todo::Remove { dep_name } => dep_name,
        }
    }
}

impl InstallDeps {
    /// What the run waits to have done.
    pub fn request(&self) -> (r: Request)
        ensures
            r@ == self@.request(),
    {
        match &self.stage {
            Stage::WritingInitial => Request::WriteStateFile {
                path: self.state_file_path.clone(),
                deps: self.cur_deps.clone(),
            },
            Stage::Removing { todo } => Request::RemoveDirAll {
                path: self.output_dir.join(todo.name().as_str()),
            },
            Stage::WritingAfterRemove { todo } => Request::WriteStateFile {
                path: self.state_file_path.clone(),
                deps: self.cur_deps.clone(),
            },
            Stage::CreatingDir { dep_name, dep } => Request::CreateDir {
                path: self.output_dir.join(dep_name.as_str()),
            },
            Stage::Fetching { dep_name, dep } => Request::Fetch {
                tool_name: dep.tool_name.clone(),
                source: dep.source.clone(),
                version: dep.version.clone(),
                out_dir: self.output_dir.join(dep_name.as_str()),
            },
            Stage::WritingAfterInstall { dep_name } => Request::WriteStateFile {
                path: self.state_file_path.clone(),
                deps: self.cur_deps.clone(),
            },
        }
    }

    /// Goes on after the host has answered `reply` to `self.request()`.
    pub fn resume<E>(self, reply: Reply<E>) -> (r: Step<E>)
        ensures
            r@ == self@.resumed(reply@),
    {
        let InstallDeps { output_dir, state_file_path, cur_deps, rest, stage } = self;
        let mut cur_deps = cur_deps;
        match stage {
            Stage::WritingInitial => match reply {
                Reply::Written(Ok(())) => Step::Finished(Ok(())),
                Reply::Written(Err(source)) => Step::Finished(
                    Err(InstallDepsError::WriteInitialCurDepsFailed { source, state_file_path }),
                ),
                _ => Step::Ask(
                    InstallDeps {
                        output_dir,
                        state_file_path,
                        cur_deps,
                        rest,
                        stage: Stage::WritingInitial,
                    },
                ),
            },
            Stage::Removing { todo } => match reply {
                Reply::Done(res) => {
                    match res {
                        Err(source) => {
                            if !source.not_found {
                                let path = output_dir.join(todo.name().as_str());
                                let dep_name = todo.name().clone();
                                return Step::Finished(
                                    Err(
                                        InstallDepsError::RemoveOldDepOutputDirFailed {
                                            source,
                                            dep_name,
                                            path,
                                        },
                                    ),
                                );
                            }
                        },
                        Ok(()) => {},
                    }
                    cur_deps.remove(todo.name());
                    Step::Ask(
                        InstallDeps {
                            output_dir,
                            state_file_path,
                            cur_deps,
                            rest,
                            stage: Stage::WritingAfterRemove { todo },
                        },
                    )
                },
                _ => Step::Ask(
                    InstallDeps {
                        output_dir,
                        state_file_path,
                        cur_deps,
                        rest,
                        stage: Stage::Removing { todo },
                    },
                ),
            },
            Stage::WritingAfterRemove { todo } => match reply {
                Reply::Written(Ok(())) => match todo {
                    Todo::Install { dep_name, dep } => Step::Ask(
                        InstallDeps {
                            output_dir,
                            state_file_path,
                            cur_deps,
                            rest,
                            stage: Stage::CreatingDir { dep_name, dep },
                        },
                    ),
                    Todo::Remove { dep_name } => go_on(output_dir, state_file_path, cur_deps, rest),
                },
                Reply::Written(Err(source)) => {
                    let dep_name = todo.name().clone();
                    Step::Finished(
                        Err(
                            InstallDepsError::WriteCurDepsAfterRemoveFailed {
                                source,
                                dep_name,
                                state_file_path,
                            },
                        ),
                    )
                },
                _ => Step::Ask(
                    InstallDeps {
                        output_dir,
                        state_file_path,
                        cur_deps,
                        rest,
                        stage: Stage::WritingAfterRemove { todo },
                    },
                ),
            },
            Stage::CreatingDir { dep_name, dep } => match reply {
                Reply::Done(Ok(())) => Step::Ask(
                    InstallDeps {
                        output_dir,
                        state_file_path,
                        cur_deps,
                        rest,
                        stage: Stage::Fetching { dep_name, dep },
                    },
                ),
                Reply::Done(Err(source)) => {
                    let path = output_dir.join(dep_name.as_str());
                    Step::Finished(
                        Err(InstallDepsError::CreateDepOutputDirFailed { source, dep_name, path }),
                    )
                },
                _ => Step::Ask(
                    InstallDeps {
                        output_dir,
                        state_file_path,
                        cur_deps,
                        rest,
                        stage: Stage::CreatingDir { dep_name, dep },
                    },
                ),
            },
            Stage::Fetching { dep_name, dep } => match reply {
                Reply::Fetched(Ok(())) => {
                    cur_deps.insert_new(dep_name.clone(), dep);
                    Step::Ask(
                        InstallDeps {
                            output_dir,
                            state_file_path,
                            cur_deps,
                            rest,
                            stage: Stage::WritingAfterInstall { dep_name },
                        },
                    )
                },
                Reply::Fetched(Err(source)) => Step::Finished(
                    Err(InstallDepsError::FetchFailed { source, dep_name }),
                ),
                _ => Step::Ask(
                    InstallDeps {
                        output_dir,
                        state_file_path,
                        cur_deps,
                        rest,
                        stage: Stage::Fetching { dep_name, dep },
                    },
                ),
            },
            Stage::WritingAfterInstall { dep_name } => match reply {
                Reply::Written(Ok(())) => go_on(output_dir, state_file_path, cur_deps, rest),
                Reply::Written(Err(source)) => Step::Finished(
                    Err(
                        InstallDepsError::WriteCurDepsAfterInstallFailed {
                            source,
                            dep_name,
                            state_file_path,
                        },
                    ),
                ),
                _ => Step::Ask(
                    InstallDeps {
                        output_dir,
                        state_file_path,
                        cur_deps,
                        rest,
                        stage: Stage::WritingAfterInstall { dep_name },
                    },
                ),
            },
        }
    }
}

/// What there is under one output directory: the dependencies whose
/// directories hold exactly what was fetched for them, by local name, and
/// what the ledger records. A directory that was created and not filled by a
/// fetch that succeeded holds no dependency.
pub struct Disk {
    pub installed: Map<Seq<char>, DependencyView>,
    pub ledger: Seq<EntryView>,
}

/// Whether the answer `reply` says that `request` was carried out. A
/// directory that was to be removed and was not there counts as removed.
pub open spec fn carried_out<E>(request: RequestView, reply: ReplyView<E>) -> bool {
    match request {
        RequestView::RemoveDirAll { path } => reply matches ReplyView::Done(res) && (res matches Err(
            e,
        ) ==> e.not_found),
        RequestView::WriteStateFile { path, deps } => reply == ReplyView::<E>::Written(Ok(())),
        RequestView::CreateDir { path } => reply == ReplyView::<E>::Done(Ok(())),
        RequestView::Fetch { tool_name, source, version, out_dir } => reply == ReplyView::<
            E,
        >::Fetched(Ok(())),
        _ => false,
    }
}

/// The disk after `request` was carried out: a removal takes the directory's
/// dependency away, a fetch puts its dependency there, the writing of the
/// ledger makes it record what was to be written.
pub open spec fn after(disk: Disk, request: RequestView) -> Disk {
    match request {
        RequestView::RemoveDirAll { path } => Disk {
            installed: disk.installed.remove(path.parts.last()),
            ledger: disk.ledger,
        },
        RequestView::WriteStateFile { path, deps } => Disk {
            installed: disk.installed,
            ledger: deps,
        },
        RequestView::Fetch { tool_name, source, version, out_dir } => Disk {
            installed: disk.installed.insert(
                out_dir.parts.last(),
                DependencyView { tool_name, source, version },
            ),
            ledger: disk.ledger,
        },
        _ => disk,
    }
}

impl InstallDepsView {
    /// The run and the disk agree: the run knows exactly the dependencies
    /// that are installed, and whenever it does not wait for the ledger to be
    /// written, the ledger records exactly those. While a dependency's
    /// directory is being made anew, the dependency is not recorded.
    pub open spec fn faithful(self, disk: Disk) -> bool {
        &&& distinct_names(self.cur_deps)
        &&& disk.installed == as_map(self.cur_deps)
        &&& match self.stage {
            StageView::WritingInitial => self.rest.len() == 0,
            StageView::Removing { todo } => disk.ledger == self.cur_deps,
            StageView::WritingAfterRemove { todo } => !has_name(self.cur_deps, todo.name()),
            StageView::CreatingDir { dep_name, dep } => disk.ledger == self.cur_deps && !has_name(
                self.cur_deps,
                dep_name,
            ),
            StageView::Fetching { dep_name, dep } => disk.ledger == self.cur_deps && !has_name(
                self.cur_deps,
                dep_name,
            ),
            StageView::WritingAfterInstall { dep_name } => true,
        }
    }

    /// The dependencies that will be installed when the run has ended well.
    pub open spec fn goal(self) -> Map<Seq<char>, DependencyView> {
        let cur = as_map(self.cur_deps);
        apply_todos(
            match self.stage {
                StageView::WritingInitial => cur,
                StageView::Removing { todo } => todo.applied(cur),
                StageView::WritingAfterRemove { todo } => todo.applied(cur),
                StageView::CreatingDir { dep_name, dep } => cur.insert(dep_name, dep),
                StageView::Fetching { dep_name, dep } => cur.insert(dep_name, dep),
                StageView::WritingAfterInstall { dep_name } => cur,
            },
            self.rest,
        )
    }

    /// A bound on the number of requests that the run will still make.
    pub open spec fn steps_left(self) -> nat {
        5 * self.rest.len() + match self.stage {
            StageView::WritingInitial => 1nat,
            StageView::Removing { todo } => 5nat,
            StageView::WritingAfterRemove { todo } => 4nat,
            StageView::CreatingDir { dep_name, dep } => 3nat,
            StageView::Fetching { dep_name, dep } => 2nat,
            StageView::WritingAfterInstall { dep_name } => 1nat,
        }
    }
}

/// The map of a sequence with one more entry under a new name.
pub proof fn lemma_as_map_push(entries: Seq<EntryView>, name: Seq<char>, dep: DependencyView)
    requires
        distinct_names(entries),
        !has_name(entries, name),
    ensures
        distinct_names(entries.push((name, dep))),
        as_map(entries.push((name, dep))) == as_map(entries).insert(name, dep),
{
    let more = entries.push((name, dep));
    let n = entries.len() as int;
    assert forall|i: int, j: int|
        0 <= i < more.len() && 0 <= j < more.len() && i != j implies (#[trigger] more[i]).0 != (
    #[trigger] more[j]).0 by {
        if i < n {
            assert(more[i] == entries[i]);
        }
        if j < n {
            assert(more[j] == entries[j]);
        }
    }
    assert forall|other: Seq<char>| #[trigger]
        as_map(more).contains_key(other) == as_map(entries).insert(name, dep).contains_key(
            other,
        ) by {
        if has_name(more, other) && other != name {
            let i = choose|i: int| 0 <= i < more.len() && (#[trigger] more[i]).0 == other;
            assert(entries[i].0 == other);
        }
        if has_name(entries, other) {
            let i = choose|i: int| 0 <= i < entries.len() && (#[trigger] entries[i]).0 == other;
            assert(more[i].0 == other);
        }
        if other == name {
            assert(more[n].0 == name);
        }
    }
    assert forall|other: Seq<char>| as_map(more).contains_key(other) implies #[trigger] as_map(
        more,
    )[other] == as_map(entries).insert(name, dep)[other] by {
        if other == name {
            lemma_as_map_at(more, n);
        } else {
            let i = choose|i: int| 0 <= i < more.len() && (#[trigger] more[i]).0 == other;
            assert(more[i] == entries[i]);
            lemma_as_map_at(more, i);
            lemma_as_map_at(entries, i);
        }
    }
    assert(as_map(more) =~= as_map(entries).insert(name, dep));
}

/// The map of a sequence without one name.
pub proof fn lemma_as_map_without(entries: Seq<EntryView>, name: Seq<char>)
    requires
        distinct_names(entries),
    ensures
        distinct_names(without(entries, name)),
        !has_name(without(entries, name), name),
        as_map(without(entries, name)) == as_map(entries).remove(name),
{
    lemma_without(entries, name);
    assert(as_map(without(entries, name)) =~= as_map(entries).remove(name));
}

/// Applying the planned actions with what they need is applying the plan.
pub proof fn lemma_apply_todos(
    cur: Map<Seq<char>, DependencyView>,
    new: Seq<EntryView>,
    acts: Seq<ActionView>,
)
    ensures
        apply_todos(cur, Seq::new(acts.len(), |k: int| todo_of(new, acts[k]))) == apply_all(
            cur,
            as_map(new),
            acts,
        ),
    decreases acts.len(),
{
    let todo = Seq::new(acts.len(), |k: int| todo_of(new, acts[k]));
    if acts.len() > 0 {
        let init = acts.drop_last();
        assert(todo.drop_last() == Seq::new(init.len(), |k: int| todo_of(new, init[k])));
        assert(todo.last() == todo_of(new, acts.last()));
        assert(todo.last().applied(cur) == apply_one(cur, as_map(new), acts.last()));
        lemma_apply_todos(apply_one(cur, as_map(new), acts.last()), new, init);
    }
}

/// Going on to the next planned action keeps the run and the disk in
/// agreement, and the goal as it was.
pub proof fn lemma_advance_keeps_faith<E>(
    output_dir: FsPathView,
    state_file_path: FsPathView,
    cur_deps: Seq<EntryView>,
    todo: Seq<TodoView>,
    disk: Disk,
)
    requires
        distinct_names(cur_deps),
        disk.installed == as_map(cur_deps),
        disk.ledger == cur_deps,
    ensures
        match advance::<E>(output_dir, state_file_path, cur_deps, todo) {
            StepView::Ask(next) => {
                &&& next.faithful(disk)
                &&& next.goal() == apply_todos(as_map(cur_deps), todo)
                &&& next.steps_left() == 5 * todo.len()
            },
            StepView::Finished(res) => {
                &&& res is Ok
                &&& todo.len() == 0
                &&& disk.installed == apply_todos(as_map(cur_deps), todo)
            },
        },
{
}

/// A run begins in agreement with the disk, and its goal is what is
/// declared.
///
/// Where the ledger records exactly the dependencies that are installed, the
/// run that `begun` gives agrees with the disk and has the declared
/// dependencies as its goal; where it has ended at once, the declared
/// dependencies are installed and recorded already.
pub proof fn lemma_begun_keeps_faith<E>(
    output_dir: FsPathView,
    state_file_path: FsPathView,
    state_file_exists: bool,
    cur_deps: Seq<EntryView>,
    new_deps: Seq<EntryView>,
    disk: Disk,
)
    requires
        distinct_names(cur_deps),
        distinct_names(new_deps),
        disk.installed == as_map(cur_deps),
        disk.ledger == cur_deps,
    ensures
        match begun::<E>(output_dir, state_file_path, state_file_exists, cur_deps, new_deps) {
            StepView::Ask(run) => run.faithful(disk) && run.goal() == as_map(new_deps),
            StepView::Finished(res) => {
                &&& res is Ok
                &&& disk.installed == as_map(new_deps)
                &&& as_map(disk.ledger) == as_map(new_deps)
            },
        },
{
    let todo = todos(cur_deps, new_deps);
    lemma_plan_is_the_difference(cur_deps, new_deps);
    lemma_apply_todos(as_map(cur_deps), new_deps, plan(cur_deps, new_deps));
    assert(apply_todos(as_map(cur_deps), todo) == as_map(new_deps));
    lemma_advance_keeps_faith::<E>(output_dir, state_file_path, cur_deps, todo, disk);
}

/// Every step that the host carries out keeps the run and the disk in
/// agreement, brings the run nearer to its end, and leaves its goal as it
/// was; a run that ends after such a step has reached its goal.
///
/// So after each request that was carried out the run knows exactly the
/// dependencies that are installed; the ledger records exactly those
/// whenever the run does not wait for the ledger to be written; and when the
/// run has ended well, what is installed and recorded is what was declared.
pub proof fn lemma_resumed_keeps_faith<E>(run: InstallDepsView, reply: ReplyView<E>, disk: Disk)
    requires
        run.faithful(disk),
        carried_out(run.request(), reply),
    ensures
        match run.resumed(reply) {
            StepView::Ask(next) => {
                &&& next.faithful(after(disk, run.request()))
                &&& next.goal() == run.goal()
                &&& next.steps_left() < run.steps_left()
            },
            StepView::Finished(res) => {
                &&& res is Ok
                &&& after(disk, run.request()).installed == run.goal()
                &&& as_map(after(disk, run.request()).ledger) == run.goal()
            },
        },
{
    let cur = run.cur_deps;
    let m = as_map(cur);
    let then = after(disk, run.request());
    match run.stage {
        StageView::WritingInitial => {},
        StageView::Removing { todo } => {
            let name = todo.name();
            lemma_as_map_without(cur, name);
            assert(run.output_dir.join(name).parts.last() == name);
            assert(todo.applied(m.remove(name)) =~= todo.applied(m));
        },
        StageView::WritingAfterRemove { todo } => {
            let name = todo.name();
            match todo {
                TodoView::Install { dep_name, dep } => {},
                TodoView::Remove { dep_name } => {
                    assert(m.remove(name) =~= m);
                    lemma_advance_keeps_faith::<E>(
                        run.output_dir,
                        run.state_file_path,
                        cur,
                        run.rest,
                        then,
                    );
                },
            }
        },
        StageView::CreatingDir { dep_name, dep } => {},
        StageView::Fetching { dep_name, dep } => {
            lemma_as_map_push(cur, dep_name, dep);
            assert(run.output_dir.join(dep_name).parts.last() == dep_name);
        },
        StageView::WritingAfterInstall { dep_name } => {
            lemma_advance_keeps_faith::<E>(
                run.output_dir,
                run.state_file_path,
                cur,
                run.rest,
                then,
            );
        },
    }
}

/// A fetch that fails ends the run with the ledger still true.
///
/// When the fetch tool fails, the run ends with `FetchFailed` for the
/// dependency that was being fetched. That dependency is neither recorded
/// nor counted as installed, and the ledger records exactly the
/// dependencies that are installed: every action that was applied before
/// shows in both.
pub proof fn lemma_failed_fetch_leaves_ledger_true<E>(
    run: InstallDepsView,
    source: FetchError<E>,
    disk: Disk,
)
    requires
        run.faithful(disk),
        run.stage is Fetching,
    ensures
        run.resumed(ReplyView::Fetched(Err(source))) == StepView::Finished(
            Err(InstallDepsErrorView::FetchFailed { source, dep_name: run.stage->Fetching_dep_name }),
        ),
        disk.installed == as_map(disk.ledger),
        !has_name(disk.ledger, run.stage->Fetching_dep_name),
        !disk.installed.contains_key(run.stage->Fetching_dep_name),
{
}

/// Nothing is asked of the host where what is recorded is what is declared
/// and the ledger is there.
///
/// So a second run over an unchanged manifest makes no request: it plans no
/// action, and leaves the ledger and the directories as they are.
pub proof fn lemma_nothing_to_do<E>(
    output_dir: FsPathView,
    state_file_path: FsPathView,
    cur_deps: Seq<EntryView>,
    new_deps: Seq<EntryView>,
)
    requires
        distinct_names(cur_deps),
        distinct_names(new_deps),
        as_map(cur_deps) == as_map(new_deps),
    ensures
        plan(cur_deps, new_deps).len() == 0,
        begun::<E>(output_dir, state_file_path, true, cur_deps, new_deps) == StepView::<
            E,
        >::Finished(Ok(())),
{
    lemma_plan_of_the_same_is_empty(cur_deps, new_deps);
}

} // verus!
