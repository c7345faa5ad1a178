//! The acquisition state machine. A `BinaryCache` holds the memoised path of
//! the server binary; each acquisition starts with `begin` and is driven by
//! `advance`, which takes the outcome of the last requested action and says
//! what to do next, until the acquisition finishes with a path or an error.
use vstd::prelude::*;
use crate::layout::{artifact_location, artifact_path, artifact_url, download_url};
use crate::freshness::{fresh, EntryKind, FileStatus};
use crate::platform::{
    artifact_file_name, file_name, platform_of, resolve, supported, Arch, Os, Role,
    UnsupportedPlatform,
};

verus! {

/// A failed acquisition.
#[derive(Debug, Clone, PartialEq, Eq)]
pub enum AcquireError {
    /// The platform is outside the supported set.
    UnsupportedPlatform(UnsupportedPlatform),
    /// The artifact could not be fetched.
    Download(String),
    /// The artifact could not be marked executable.
    Permission(String),
    /// The version-scope directory could not be created.
    Filesystem(String),
}

pub enum ErrorView {
    UnsupportedPlatform(UnsupportedPlatform),
    Download(Seq<char>),
    Permission(Seq<char>),
    Filesystem(Seq<char>),
}

impl View for AcquireError {
    type V = ErrorView;

    open spec fn view(&self) -> ErrorView {
        match self {
            AcquireError::UnsupportedPlatform(u) => ErrorView::UnsupportedPlatform(*u),
            AcquireError::Download(m) => ErrorView::Download(m@),
            AcquireError::Permission(m) => ErrorView::Permission(m@),
            AcquireError::Filesystem(m) => ErrorView::Filesystem(m@),
        }
    }
}

/// Where an acquisition stands: which answer it waits for.
#[derive(Debug, Clone, Copy, PartialEq, Eq, Structural)]
pub enum Stage {
    /// Waits for the freshness of the memoised path.
    CheckMemo,
    /// Waits for the freshness of the artifact in the version scope.
    CheckDisk,
    /// Waits for the download of the artifact.
    Fetch,
    /// Waits for a fresh artifact on disk to be marked executable.
    MarkExisting,
    /// Waits for a downloaded artifact to be marked executable.
    MarkFetched,
    /// Waits for superseded version scopes to be removed.
    Cleanup,
}

/// An acquisition in progress.
#[derive(Debug, PartialEq, Eq)]
pub struct Acquisition {
    stage: Stage,
    path: String,
    target: String,
    url: String,
    version: String,
}

pub struct AcquisitionView {
    pub stage: Stage,
    /// The path under consideration: the memoised one, then the target.
    pub path: Seq<char>,
    /// The artifact's path in the current version scope.
    pub target: Seq<char>,
    pub url: Seq<char>,
    pub version: Seq<char>,
}

impl View for Acquisition {
    type V = AcquisitionView;

    closed spec fn view(&self) -> AcquisitionView {
        AcquisitionView {
            stage: self.stage,
            path: self.path@,
            target: self.target@,
            url: self.url@,
            version: self.version@,
        }
    }
}

/// Outside work that an acquisition asks its driver to do.
#[derive(Debug, Clone, PartialEq, Eq)]
pub enum Action {
    /// Report whether the file at this path is fresh.
    CheckFresh(String),
    /// Create the parent directory of `dest`, then download `url` into it.
    Fetch { url: String, dest: String },
    /// Mark the file at this path executable.
    MakeExecutable(String),
    /// Remove every scope directory other than that of this version.
    CleanupOtherScopes(String),
}

pub enum ActionView {
    CheckFresh(Seq<char>),
    Fetch { url: Seq<char>, dest: Seq<char> },
    MakeExecutable(Seq<char>),
    CleanupOtherScopes(Seq<char>),
}

impl View for Action {
    type V = ActionView;

    open spec fn view(&self) -> ActionView {
        match self {
            Action::CheckFresh(p) => ActionView::CheckFresh(p@),
            Action::Fetch { url, dest } => ActionView::Fetch { url: url@, dest: dest@ },
            Action::MakeExecutable(p) => ActionView::MakeExecutable(p@),
            Action::CleanupOtherScopes(v) => ActionView::CleanupOtherScopes(v@),
        }
    }
}

/// The outcome of an action, as the driver reports it.
#[derive(Debug, PartialEq, Eq)]
pub enum Event {
    /// Answer to `CheckFresh`.
    Fresh(bool),
    /// Answer to `Fetch` once the directory exists.
    Fetched(Result<(), String>),
    /// Answer to `Fetch` when the directory could not be created.
    DirectoryFailed(String),
    /// Answer to `MakeExecutable`.
    MarkedExecutable(Result<(), String>),
    /// Answer to `CleanupOtherScopes`, whatever became of each removal.
    CleanedUp,
}

pub enum EventView {
    Fresh(bool),
    Fetched(Result<(), Seq<char>>),
    DirectoryFailed(Seq<char>),
    MarkedExecutable(Result<(), Seq<char>>),
    CleanedUp,
}

pub open spec fn unit_result_view(r: Result<(), String>) -> Result<(), Seq<char>> {
    match r {
        Ok(_) => Ok(()),
        Err(m) => Err(m@),
    }
}

impl View for Event {
    type V = EventView;

    open spec fn view(&self) -> EventView {
        match self {
            Event::Fresh(b) => EventView::Fresh(*b),
            Event::Fetched(r) => EventView::Fetched(unit_result_view(*r)),
            Event::DirectoryFailed(m) => EventView::DirectoryFailed(m@),
            Event::MarkedExecutable(r) => EventView::MarkedExecutable(unit_result_view(*r)),
            Event::CleanedUp => EventView::CleanedUp,
        }
    }
}

/// What an acquisition does next: more outside work, or its result.
#[derive(Debug, PartialEq, Eq)]
pub enum Progress {
    Continue(Acquisition, Action),
    Finished(Result<String, AcquireError>),
}

pub enum ProgressView {
    Continue(AcquisitionView, ActionView),
    Finished(Result<Seq<char>, ErrorView>),
}

impl View for Progress {
    type V = ProgressView;

    open spec fn view(&self) -> ProgressView {
        match self {
            Progress::Continue(a, act) => ProgressView::Continue(a@, act@),
            Progress::Finished(Ok(p)) => ProgressView::Finished(Ok(p@)),
            Progress::Finished(Err(e)) => ProgressView::Finished(Err(e@)),
        }
    }
}

/// The in-process cache: the path of the server binary last handed out.
#[derive(Debug, Clone, PartialEq, Eq)]
pub struct BinaryCache {
    memo: Option<String>,
}

impl View for BinaryCache {
    type V = Option<Seq<char>>;

    closed spec fn view(&self) -> Option<Seq<char>> {
        match self.memo {
            Some(p) => Some(p@),
            None => None,
        }
    }
}

/// The action an acquisition waits on in its stage.
pub open spec fn pending(a: AcquisitionView) -> ActionView {
    match a.stage {
        Stage::CheckMemo | Stage::CheckDisk => ActionView::CheckFresh(a.path),
        Stage::Fetch => ActionView::Fetch { url: a.url, dest: a.path },
        Stage::MarkExisting | Stage::MarkFetched => ActionView::MakeExecutable(a.path),
        Stage::Cleanup => ActionView::CleanupOtherScopes(a.version),
    }
}

/// The acquisition moved to `stage`, considering `path`.
pub open spec fn moved(a: AcquisitionView, stage: Stage, path: Seq<char>) -> AcquisitionView {
    AcquisitionView { stage, path, ..a }
}

/// Go on in the acquisition's stage, with the action it waits on.
pub open spec fn proceed(a: AcquisitionView) -> ProgressView {
    ProgressView::Continue(a, pending(a))
}

/// How an acquisition starts. An unsupported platform fails at once, with
/// no filesystem or network action. Otherwise the memoised path is checked
/// first where there is one, else the artifact in the scope of `version`.
pub open spec fn started(memo: Option<Seq<char>>, os: Os, arch: Arch, version: Seq<char>) -> ProgressView {
    if !supported(os, arch) {
        ProgressView::Finished(Err(ErrorView::UnsupportedPlatform(UnsupportedPlatform { os, arch })))
    } else {
        let file = artifact_file_name(Role::Server, platform_of(os, arch));
        let target = artifact_path(version, file);
        let url = artifact_url(file);
        match memo {
            Some(p) => proceed(AcquisitionView { stage: Stage::CheckMemo, path: p, target, url, version }),
            None => proceed(AcquisitionView { stage: Stage::CheckDisk, path: target, target, url, version }),
        }
    }
}

/// One step of an acquisition: the new memo and what comes next. A fresh
/// memo is returned at once; a stale one gives way to the file on disk; a
/// fresh file on disk is marked executable and returned; a stale or missing
/// one is downloaded, marked executable, superseded scopes are cleaned up,
/// and it is returned. Every path returned is memoised. A failed download,
/// directory creation or marking ends the acquisition with that error and
/// no fallback. An event that does not answer the pending action changes
/// nothing, and the action is asked again.
pub open spec fn stepped(memo: Option<Seq<char>>, a: AcquisitionView, e: EventView) -> (Option<Seq<char>>, ProgressView) {
    match (a.stage, e) {
        (Stage::CheckMemo, EventView::Fresh(true)) => (Some(a.path), ProgressView::Finished(Ok(a.path))),
        (Stage::CheckMemo, EventView::Fresh(false)) => (memo, proceed(moved(a, Stage::CheckDisk, a.target))),
        (Stage::CheckDisk, EventView::Fresh(true)) => (memo, proceed(moved(a, Stage::MarkExisting, a.path))),
        (Stage::CheckDisk, EventView::Fresh(false)) => (memo, proceed(moved(a, Stage::Fetch, a.path))),
        (Stage::Fetch, EventView::Fetched(Ok(_))) => (memo, proceed(moved(a, Stage::MarkFetched, a.path))),
        (Stage::Fetch, EventView::Fetched(Err(m))) => (memo, ProgressView::Finished(Err(ErrorView::Download(m)))),
        (Stage::Fetch, EventView::DirectoryFailed(m)) => (memo, ProgressView::Finished(Err(ErrorView::Filesystem(m)))),
        (Stage::MarkExisting, EventView::MarkedExecutable(Ok(_))) => (Some(a.path), ProgressView::Finished(Ok(a.path))),
        (Stage::MarkFetched, EventView::MarkedExecutable(Ok(_))) => (memo, proceed(moved(a, Stage::Cleanup, a.path))),
        (Stage::MarkExisting, EventView::MarkedExecutable(Err(m))) => (memo, ProgressView::Finished(Err(ErrorView::Permission(m)))),
        (Stage::MarkFetched, EventView::MarkedExecutable(Err(m))) => (memo, ProgressView::Finished(Err(ErrorView::Permission(m)))),
        (Stage::Cleanup, EventView::CleanedUp) => (Some(a.path), ProgressView::Finished(Ok(a.path))),
        _ => (memo, proceed(a)),
    }
}

impl Acquisition {
    /// The stage this acquisition is in.
    pub fn stage(&self) -> (r: Stage)
        ensures
            r == self@.stage,
    {
        self.stage
    }

    /// The action this acquisition waits on.
    pub fn pending_action(&self) -> (r: Action)
        ensures
            r@ == pending(self@),
    {
        match self.stage {
            Stage::CheckMemo | Stage::CheckDisk => Action::CheckFresh(self.path.clone()),
            Stage::Fetch => Action::Fetch { url: self.url.clone(), dest: self.path.clone() },
            Stage::MarkExisting | Stage::MarkFetched => Action::MakeExecutable(self.path.clone()),
            Stage::Cleanup => Action::CleanupOtherScopes(self.version.clone()),
        }
    }

    fn into_progress(self) -> (r: Progress)
        ensures
            r@ == proceed(self@),
    {
        let act = self.pending_action();
        Progress::Continue(self, act)
    }
}

impl BinaryCache {
    /// An empty cache.
    pub fn new() -> (r: BinaryCache)
        ensures
            r@ is None,
    {
        BinaryCache { memo: None }
    }

    /// The memoised path, if any.
    pub fn memoized(&self) -> (r: Option<String>)
        ensures
            r is Some <==> self@ is Some,
            r is Some ==> r->Some_0@ == self@->Some_0,
    {
        self.memo.clone()
    }

    /// Starts acquiring the server binary of `version` on the platform
    /// `(os, arch)`.
    pub fn begin(&self, os: Os, arch: Arch, version: &str) -> (r: Progress)
        ensures
            r@ == started(self@, os, arch, version@),
    {
        match resolve(os, arch) {
            Err(u) => Progress::Finished(Err(AcquireError::UnsupportedPlatform(u))),
            Ok(platform) => {
                let file = file_name(Role::Server, platform);
                let target = artifact_location(version, file.as_str());
                let url = download_url(file.as_str());
                let version = String::from_str(version);
                let acq = match &self.memo {
                    Some(p) => Acquisition { stage: Stage::CheckMemo, path: p.clone(), target, url, version },
                    None => Acquisition { stage: Stage::CheckDisk, path: target.clone(), target, url, version },
                };
                acq.into_progress()
            },
        }
    }

    /// Feeds the outcome of the pending action to an acquisition.
    pub fn advance(&mut self, acq: Acquisition, event: Event) -> (r: Progress)
        ensures
            (final(self)@, r@) == stepped(old(self)@, acq@, event@),
    {
        let Acquisition { stage, path, target, url, version } = acq;
        match (stage, event) {
            (Stage::CheckMemo, Event::Fresh(true)) | (Stage::MarkExisting, Event::MarkedExecutable(Ok(_)))
            | (Stage::Cleanup, Event::CleanedUp) => {
                self.memo = Some(path.clone());
                Progress::Finished(Ok(path))
            },
            (Stage::CheckMemo, Event::Fresh(false)) => {
                let path = target.clone();
                Acquisition { stage: Stage::CheckDisk, path, target, url, version }.into_progress()
            },
            (Stage::CheckDisk, Event::Fresh(fresh)) => {
                let stage = if fresh { Stage::MarkExisting } else { Stage::Fetch };
                Acquisition { stage, path, target, url, version }.into_progress()
            },
            (Stage::Fetch, Event::Fetched(Ok(_))) => {
                Acquisition { stage: Stage::MarkFetched, path, target, url, version }.into_progress()
            },
            (Stage::Fetch, Event::Fetched(Err(m))) => Progress::Finished(Err(AcquireError::Download(m))),
            (Stage::Fetch, Event::DirectoryFailed(m)) => Progress::Finished(Err(AcquireError::Filesystem(m))),
            (Stage::MarkFetched, Event::MarkedExecutable(Ok(_))) => {
                Acquisition { stage: Stage::Cleanup, path, target, url, version }.into_progress()
            },
            (Stage::MarkExisting, Event::MarkedExecutable(Err(m)))
            | (Stage::MarkFetched, Event::MarkedExecutable(Err(m))) => {
                Progress::Finished(Err(AcquireError::Permission(m)))
            },
            (stage, _) => Acquisition { stage, path, target, url, version }.into_progress(),
        }
    }
}

/// Acquiring twice in a row reuses the first result. Whenever a step ends an
/// acquisition with a path, that path is memoised; the next acquisition on
/// the same platform and version then only asks for the freshness of that
/// path, and once the file, untouched since it was written at `now`, is
/// reported fresh under a non-empty window, the same path comes back with no
/// further download.
pub proof fn lemma_repeat_acquire_reuses_path(
    memo: Option<Seq<char>>,
    a: AcquisitionView,
    e: EventView,
    p: Seq<char>,
    os: Os,
    arch: Arch,
    now: u64,
    max_age: u64,
)
    requires
        stepped(memo, a, e).1 == ProgressView::Finished(Ok::<Seq<char>, ErrorView>(p)),
        supported(os, arch),
        max_age > 0,
    ensures
        ({
            let memo2 = stepped(memo, a, e).0;
            let st = FileStatus { kind: EntryKind::File, modified: Some(now) };
            &&& memo2 == Some(p)
            &&& match started(memo2, os, arch, a.version) {
                ProgressView::Continue(a2, act) => {
                    &&& a2.stage == Stage::CheckMemo
                    &&& act == ActionView::CheckFresh(p)
                    &&& stepped(memo2, a2, EventView::Fresh(fresh(st, now, max_age))) == (
                    Some(p),
                    ProgressView::Finished(Ok::<Seq<char>, ErrorView>(p)),
                    )
                },
                ProgressView::Finished(_) => false,
            }
        }),
{
}

/// An acquisition hands out a path only once that path is confirmed: the
/// memoised path just reported fresh, or the artifact whose marking as
/// executable succeeded, either at once for a fresh file on disk or, after a
/// download, followed by cleanup. Cleanup is entered only from a successful
/// marking of a downloaded artifact, and a failed step never hands out a
/// path.
pub proof fn lemma_returned_path_is_confirmed(
    memo: Option<Seq<char>>,
    a: AcquisitionView,
    e: EventView,
    p: Seq<char>,
)
    ensures
        stepped(memo, a, e).1 == ProgressView::Finished(Ok::<Seq<char>, ErrorView>(p)) ==> {
            &&& p == a.path
            &&& stepped(memo, a, e).0 == Some(p)
            &&& {
                ||| (a.stage == Stage::CheckMemo && e == EventView::Fresh(true))
                ||| (a.stage == Stage::MarkExisting && e is MarkedExecutable
                    && e->MarkedExecutable_0 is Ok)
                ||| (a.stage == Stage::Cleanup && e == EventView::CleanedUp)
            }
        },
        stepped(memo, a, e).1 is Continue && stepped(memo, a, e).1->Continue_0.stage
            == Stage::Cleanup && a.stage != Stage::Cleanup ==> a.stage == Stage::MarkFetched
            && e is MarkedExecutable && e->MarkedExecutable_0 is Ok,
        stepped(memo, a, e).1 is Finished && stepped(memo, a, e).1->Finished_0 is Err
            ==> stepped(memo, a, e).0 == memo,
{
}

} // verus!
