//! The host's side, as plain values: paths, and how file system work went.
//! The library never touches the file system: it says what is to be done and
//! is told how it went.

use crate::dep_tools::{FetchError, Version};
use crate::deps::{Deps, EntryView};
use crate::text::views;
use vstd::prelude::*;

verus! {

/// A path, as the names of its components below the root (where `absolute`)
/// or below the directory that it is relative to.
#[derive(Debug, PartialEq, Eq)]
pub struct FsPath {
    pub absolute: bool,
    pub parts: Vec<String>,
}

/// What a `FsPath` holds, as plain values.
pub struct FsPathView {
    pub absolute: bool,
    pub parts: Seq<Seq<char>>,
}

impl FsPathView {
    /// This path with `part` below it.
    pub open spec fn join(self, part: Seq<char>) -> FsPathView {
        FsPathView { absolute: self.absolute, parts: self.parts.push(part) }
    }

    /// This path with the path of `parts` below it.
    pub open spec fn join_all(self, parts: Seq<Seq<char>>) -> FsPathView {
        FsPathView { absolute: self.absolute, parts: self.parts + parts }
    }

    /// The directory that holds this path, if the path has a last component.
    pub open spec fn parent(self) -> Option<FsPathView> {
        if self.parts.len() == 0 {
            None
        } else {
            Some(FsPathView { absolute: self.absolute, parts: self.parts.drop_last() })
        }
    }
}

impl View for FsPath {
    type V = FsPathView;

    open spec fn view(&self) -> FsPathView {
        FsPathView { absolute: self.absolute, parts: views(self.parts@) }
    }
}

/// A copy of `v`.
pub fn clone_strings(v: &Vec<String>) -> (r: Vec<String>)
    ensures
        views(r@) == views(v@),
{
    let mut out: Vec<String> = Vec::new();
    let mut i: usize = 0;
    while i < v.len()
        invariant
            i <= v.len(),
            views(out@) == views(v@).take(i as int),
        decreases v.len() - i,
    {
        let ghost before = out@;
        out.push(v[i].clone());
        assert(views(out@) == views(before).push(v@[i as int]@));
        assert(views(v@).take(i + 1) == views(v@).take(i as int).push(v@[i as int]@));
        i += 1;
    }
    assert(views(v@).take(i as int) == views(v@));
    out
}

impl Clone for FsPath {
    fn clone(&self) -> (r: Self)
        ensures
            r@ == self@,
    {
        FsPath { absolute: self.absolute, parts: clone_strings(&self.parts) }
    }
}

impl FsPath {
    /// This path with `part` below it.
    pub fn join(&self, part: &str) -> (r: FsPath)
        ensures
            r@ == self@.join(part@),
    {
        let mut parts = clone_strings(&self.parts);
        let ghost before = parts@;
        parts.push(part.to_owned());
        assert(views(parts@) == views(before).push(part@));
        FsPath { absolute: self.absolute, parts }
    }

    /// This path with the path of `parts` below it.
    pub fn join_all(&self, parts: &Vec<String>) -> (r: FsPath)
        ensures
            r@ == self@.join_all(views(parts@)),
    {
        let mut all = clone_strings(&self.parts);
        let mut i: usize = 0;
        assert(views(parts@).take(0) == Seq::<Seq<char>>::empty());
        assert(views(all@) + Seq::<Seq<char>>::empty() == views(all@));
        while i < parts.len()
            invariant
                i <= parts.len(),
                views(all@) == views(self.parts@) + views(parts@).take(i as int),
            decreases parts.len() - i,
        {
            let ghost before = all@;
            all.push(parts[i].clone());
            assert(views(all@) == views(before).push(parts@[i as int]@));
            assert(views(parts@).take(i + 1) == views(parts@).take(i as int).push(
                parts@[i as int]@,
            ));
            assert(views(all@) == views(self.parts@) + views(parts@).take(i + 1));
            i += 1;
        }
        assert(views(parts@).take(i as int) == views(parts@));
        FsPath { absolute: self.absolute, parts: all }
    }

    /// The directory that holds this path, if the path has a last component.
    pub fn parent(&self) -> (r: Option<FsPath>)
        ensures
            match r {
                Some(p) => self@.parent() == Some(p@),
                None => self@.parent() is None,
            },
    {
        if self.parts.len() == 0 {
            None
        } else {
            let mut parts = clone_strings(&self.parts);
            let ghost before = parts@;
            parts.pop();
            assert(views(parts@) == views(before).drop_last());
            Some(FsPath { absolute: self.absolute, parts })
        }
    }
}

/// Why a file system operation failed: whether what it was to work on was
/// not there, and the system's message.
#[derive(Debug, PartialEq, Eq)]
pub struct IoFailure {
    pub not_found: bool,
    pub message: String,
}

/// What an `IoFailure` holds, as plain values.
pub struct IoFailureView {
    pub not_found: bool,
    pub message: Seq<char>,
}

impl View for IoFailure {
    type V = IoFailureView;

    open spec fn view(&self) -> IoFailureView {
        IoFailureView { not_found: self.not_found, message: self.message@ }
    }
}

/// Why the ledger could not be written.
#[derive(Debug, PartialEq, Eq)]
pub enum WriteStateFileError {
    OpenFailed { source: IoFailure },
    WriteDepLineFailed { source: IoFailure },
}

/// What a `WriteStateFileError` holds, as plain values.
pub enum WriteStateFileErrorView {
    OpenFailed { source: IoFailureView },
    WriteDepLineFailed { source: IoFailureView },
}

impl View for WriteStateFileError {
    type V = WriteStateFileErrorView;

    open spec fn view(&self) -> WriteStateFileErrorView {
        match self {
            WriteStateFileError::OpenFailed { source } => WriteStateFileErrorView::OpenFailed {
                source: source@,
            },
            WriteStateFileError::WriteDepLineFailed { source } => WriteStateFileErrorView::WriteDepLineFailed {
                source: source@,
            },
        }
    }
}

/// What the library asks its host to do. The host does it and answers with
/// the `Reply` of the same kind.
#[derive(Debug, PartialEq, Eq)]
pub enum Request {
    /// Read the file at `path`. Answered by `Reply::File`.
    ReadFile { path: FsPath },
    /// Create the directory at `path` with the directories above it that are
    /// missing; one that is there already is no failure. Answered by
    /// `Reply::Done`.
    CreateDirAll { path: FsPath },
    /// Remove the directory at `path` with all that it holds. Answered by
    /// `Reply::Done`.
    RemoveDirAll { path: FsPath },
    /// Replace the ledger at `path` by the record of `deps`. Answered by
    /// `Reply::Written`.
    WriteStateFile { path: FsPath, deps: Deps },
    /// Create the directory at `path`, which must not be there yet. Answered
    /// by `Reply::Done`.
    CreateDir { path: FsPath },
    /// Have the tool named `tool_name` fetch `source` at `version` into the
    /// directory `out_dir`. Answered by `Reply::Fetched`.
    Fetch { tool_name: String, source: String, version: Version, out_dir: FsPath },
}

/// What a `Request` holds, as plain values.
pub enum RequestView {
    ReadFile { path: FsPathView },
    CreateDirAll { path: FsPathView },
    RemoveDirAll { path: FsPathView },
    WriteStateFile { path: FsPathView, deps: Seq<EntryView> },
    CreateDir { path: FsPathView },
    Fetch { tool_name: Seq<char>, source: Seq<char>, version: Seq<char>, out_dir: FsPathView },
}

impl View for Request {
    type V = RequestView;

    open spec fn view(&self) -> RequestView {
        match self {
            Request::ReadFile { path } => RequestView::ReadFile { path: path@ },
            Request::CreateDirAll { path } => RequestView::CreateDirAll { path: path@ },
            Request::RemoveDirAll { path } => RequestView::RemoveDirAll { path: path@ },
            Request::WriteStateFile { path, deps } => RequestView::WriteStateFile {
                path: path@,
                deps: deps@,
            },
            Request::CreateDir { path } => RequestView::CreateDir { path: path@ },
            Request::Fetch { tool_name, source, version, out_dir } => RequestView::Fetch {
                tool_name: tool_name@,
                source: source@,
                version: version@,
                out_dir: out_dir@,
            },
        }
    }
}

/// How what was asked for went. `E` is the fetch tools' own error.
#[derive(Debug, PartialEq, Eq)]
pub enum Reply<E> {
    /// What the file holds, or why it could not be read.
    File(Result<Vec<u8>, IoFailure>),
    /// How work on a directory went.
    Done(Result<(), IoFailure>),
    /// How the writing of the ledger went.
    Written(Result<(), WriteStateFileError>),
    /// How the fetch went.
    Fetched(Result<(), FetchError<E>>),
}

/// What a `Reply` holds, as plain values.
pub enum ReplyView<E> {
    File(Result<Seq<u8>, IoFailureView>),
    Done(Result<(), IoFailureView>),
    Written(Result<(), WriteStateFileErrorView>),
    Fetched(Result<(), FetchError<E>>),
}

impl<E> View for Reply<E> {
    type V = ReplyView<E>;

    open spec fn view(&self) -> ReplyView<E> {
        match self {
            Reply::File(Ok(bytes)) => ReplyView::File(Ok(bytes@)),
            Reply::File(Err(e)) => ReplyView::File(Err(e@)),
            Reply::Done(Ok(())) => ReplyView::Done(Ok(())),
            Reply::Done(Err(e)) => ReplyView::Done(Err(e@)),
            Reply::Written(Ok(())) => ReplyView::Written(Ok(())),
            Reply::Written(Err(e)) => ReplyView::Written(Err(e@)),
            Reply::Fetched(r) => ReplyView::Fetched(*r),
        }
    }
}

} // verus!
