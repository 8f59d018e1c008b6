//! The order in which the extension looks for a `dprint` executable, as a state machine.
//!
//! The caller creates a [`Resolver`], feeds it [`Event::Begin`], and then performs each
//! [`Action`] the resolver returns and feeds back the matching [`Event`], until the resolver
//! returns [`Action::Finish`]. The resolver looks, in this order, at the configured binary path,
//! at a worktree whose `package.json` depends on dprint, at `dprint` on the worktree's `PATH`,
//! at a previously installed binary, and finally installs the latest release from GitHub.

use vstd::prelude::*;
use crate::install::{
    asset_url, download_failed_error, download_failed_message, find_asset_url,
    missing_executable_error, missing_executable_message, no_asset_error, no_asset_message,
    stale_entries, stale_release_entries, Release, ReleaseView,
};
use crate::json::{declares_dprint, package_json_declares_dependency, parse_document, parsed_document};
use crate::paths::{join_path, joined, path_to_command};
use crate::platform::{Architecture, Os};
use crate::release::{
    asset_name_spec, release_asset_name, release_binary_path, release_binary_path_spec,
    release_directory, release_directory_spec, worktree_binary_path_spec,
    worktree_dprint_binary_path, DPRINT_BINARY_NAME, DPRINT_REPOSITORY,
};

verus! {

/// The installation status shown for the language server.
pub enum InstallStatus {
    CheckingForUpdate,
    Downloading,
    /// No installation in progress.
    Idle,
    Failed(String),
}

/// [`InstallStatus`] as values.
pub enum StatusView {
    CheckingForUpdate,
    Downloading,
    Idle,
    Failed(Seq<char>),
}

impl View for InstallStatus {
    type V = StatusView;

    open spec fn view(&self) -> StatusView {
        match self {
            InstallStatus::CheckingForUpdate => StatusView::CheckingForUpdate,
            InstallStatus::Downloading => StatusView::Downloading,
            InstallStatus::Idle => StatusView::Idle,
            InstallStatus::Failed(e) => StatusView::Failed(e@),
        }
    }
}

/// Outside work the resolver asks for.
pub enum Action {
    /// Report the machine's operating system and architecture: [`Event::Platform`].
    QueryPlatform,
    /// Read the worktree's `package.json`: [`Event::PackageJson`].
    ReadPackageJson,
    /// Report the worktree's root path: [`Event::RootPath`].
    QueryRootPath,
    /// Look the executable up on the worktree's `PATH`: [`Event::Which`].
    Which(String),
    /// Whether a previously installed executable is still a file: [`Event::IsFile`].
    CheckCachedBinary(String),
    /// Show the installation status: [`Event::StatusSet`].
    SetStatus(InstallStatus),
    /// Fetch the latest stable release with assets of the repository: [`Event::Release`].
    FetchLatestRelease(String),
    /// Whether the release's executable is already a file: [`Event::IsFile`].
    CheckInstalledBinary(String),
    /// Download and unpack the zip at `url` into `directory`: [`Event::Downloaded`].
    Download { url: String, directory: String },
    /// Whether the release's executable is a file now: [`Event::IsFile`].
    VerifyBinary(String),
    /// Make the file executable: [`Event::MadeExecutable`].
    MakeExecutable(String),
    /// List the names of the entries of the working directory: [`Event::Entries`].
    ListEntries,
    /// Remove these entries of the working directory, ignoring failures: [`Event::Removed`].
    RemoveEntries(Vec<String>),
    /// Resolution is over: the command to launch, or the error.
    Finish(Result<String, String>),
}

/// The answer to the last [`Action`].
pub enum Event {
    /// Starts the resolution.
    Begin,
    Platform(Os, Architecture),
    /// The text of `package.json`, or nothing when it cannot be read.
    PackageJson(Option<String>),
    RootPath(String),
    Which(Option<String>),
    IsFile(bool),
    StatusSet,
    Release(Result<Release, String>),
    Downloaded(Result<(), String>),
    MadeExecutable(Result<(), String>),
    Entries(Vec<String>),
    Removed,
}

/// [`Action`] as values.
pub enum ActionView {
    QueryPlatform,
    ReadPackageJson,
    QueryRootPath,
    Which(Seq<char>),
    CheckCachedBinary(Seq<char>),
    SetStatus(StatusView),
    FetchLatestRelease(Seq<char>),
    CheckInstalledBinary(Seq<char>),
    Download { url: Seq<char>, directory: Seq<char> },
    VerifyBinary(Seq<char>),
    MakeExecutable(Seq<char>),
    ListEntries,
    RemoveEntries(Seq<Seq<char>>),
    Finish(Result<Seq<char>, Seq<char>>),
}

/// [`Event`] as values.
pub enum EventView {
    Begin,
    Platform(Os, Architecture),
    PackageJson(Option<Seq<char>>),
    RootPath(Seq<char>),
    Which(Option<Seq<char>>),
    IsFile(bool),
    StatusSet,
    Release(Result<ReleaseView, Seq<char>>),
    Downloaded(Result<(), Seq<char>>),
    MadeExecutable(Result<(), Seq<char>>),
    Entries(Seq<Seq<char>>),
    Removed,
}

/// A textual result as values.
pub open spec fn text_result(r: Result<String, String>) -> Result<Seq<char>, Seq<char>> {
    match r {
        Ok(s) => Ok(s@),
        Err(e) => Err(e@),
    }
}

/// A result without a value, as values.
pub open spec fn unit_result(r: Result<(), String>) -> Result<(), Seq<char>> {
    match r {
        Ok(()) => Ok(()),
        Err(e) => Err(e@),
    }
}

/// An optional text as values.
pub open spec fn text_option(o: Option<String>) -> Option<Seq<char>> {
    match o {
        Some(s) => Some(s@),
        None => None,
    }
}

/// Texts as values, in order.
pub open spec fn texts(v: Seq<String>) -> Seq<Seq<char>> {
    v.map_values(|s: String| s@)
}

impl View for Action {
    type V = ActionView;

    open spec fn view(&self) -> ActionView {
        match self {
            Action::QueryPlatform => ActionView::QueryPlatform,
            Action::ReadPackageJson => ActionView::ReadPackageJson,
            Action::QueryRootPath => ActionView::QueryRootPath,
            Action::Which(name) => ActionView::Which(name@),
            Action::CheckCachedBinary(p) => ActionView::CheckCachedBinary(p@),
            Action::SetStatus(s) => ActionView::SetStatus(s@),
            Action::FetchLatestRelease(r) => ActionView::FetchLatestRelease(r@),
            Action::CheckInstalledBinary(p) => ActionView::CheckInstalledBinary(p@),
            Action::Download { url, directory } => ActionView::Download {
                url: url@,
                directory: directory@,
            },
            Action::VerifyBinary(p) => ActionView::VerifyBinary(p@),
            Action::MakeExecutable(p) => ActionView::MakeExecutable(p@),
            Action::ListEntries => ActionView::ListEntries,
            Action::RemoveEntries(names) => ActionView::RemoveEntries(texts(names@)),
            Action::Finish(r) => ActionView::Finish(text_result(*r)),
        }
    }
}

impl View for Event {
    type V = EventView;

    open spec fn view(&self) -> EventView {
        match self {
            Event::Begin => EventView::Begin,
            Event::Platform(os, arch) => EventView::Platform(*os, *arch),
            Event::PackageJson(text) => EventView::PackageJson(text_option(*text)),
            Event::RootPath(p) => EventView::RootPath(p@),
            Event::Which(found) => EventView::Which(text_option(*found)),
            Event::IsFile(b) => EventView::IsFile(*b),
            Event::StatusSet => EventView::StatusSet,
            Event::Release(r) => EventView::Release(
                match r {
                    Ok(release) => Ok(release@),
                    Err(e) => Err(e@),
                },
            ),
            Event::Downloaded(r) => EventView::Downloaded(unit_result(*r)),
            Event::MadeExecutable(r) => EventView::MadeExecutable(unit_result(*r)),
            Event::Entries(names) => EventView::Entries(texts(names@)),
            Event::Removed => EventView::Removed,
        }
    }
}

/// A release being installed on a platform.
struct Plan {
    release: Release,
    os: Os,
    architecture: Architecture,
}

/// [`Plan`] as values.
pub struct PlanView {
    pub release: ReleaseView,
    pub os: Os,
    pub architecture: Architecture,
}

impl View for Plan {
    type V = PlanView;

    closed spec fn view(&self) -> PlanView {
        PlanView { release: self.release@, os: self.os, architecture: self.architecture }
    }
}

/// Where the resolution stands: which answer it waits for.
enum Phase {
    Start(Option<String>),
    AwaitPlatform,
    AwaitPackageJson(Os, Architecture),
    AwaitRootPath(Os),
    AwaitWhich(Os, Architecture),
    AwaitCachedCheck(Os, Architecture, String),
    AwaitCheckingStatus(Os, Architecture),
    AwaitRelease(Os, Architecture),
    AwaitInstalledCheck(Plan),
    AwaitDownloadingStatus(Plan),
    AwaitDownload(Plan),
    AwaitVerify(Plan),
    AwaitExecutable(Plan),
    AwaitEntries(Plan),
    AwaitRemoval(Plan),
    AwaitInstalledStatus(String),
    AwaitFailedStatus(String),
    Finished,
}

/// [`Phase`] as values.
pub enum PhaseView {
    Start(Option<Seq<char>>),
    AwaitPlatform,
    AwaitPackageJson(Os, Architecture),
    AwaitRootPath(Os),
    AwaitWhich(Os, Architecture),
    AwaitCachedCheck(Os, Architecture, Seq<char>),
    AwaitCheckingStatus(Os, Architecture),
    AwaitRelease(Os, Architecture),
    AwaitInstalledCheck(PlanView),
    AwaitDownloadingStatus(PlanView),
    AwaitDownload(PlanView),
    AwaitVerify(PlanView),
    AwaitExecutable(PlanView),
    AwaitEntries(PlanView),
    AwaitRemoval(PlanView),
    AwaitInstalledStatus(Seq<char>),
    AwaitFailedStatus(Seq<char>),
    Finished,
}

impl View for Phase {
    type V = PhaseView;

    closed spec fn view(&self) -> PhaseView {
        match self {
            Phase::Start(c) => PhaseView::Start(text_option(*c)),
            Phase::AwaitPlatform => PhaseView::AwaitPlatform,
            Phase::AwaitPackageJson(os, a) => PhaseView::AwaitPackageJson(*os, *a),
            Phase::AwaitRootPath(os) => PhaseView::AwaitRootPath(*os),
            Phase::AwaitWhich(os, a) => PhaseView::AwaitWhich(*os, *a),
            Phase::AwaitCachedCheck(os, a, p) => PhaseView::AwaitCachedCheck(*os, *a, p@),
            Phase::AwaitCheckingStatus(os, a) => PhaseView::AwaitCheckingStatus(*os, *a),
            Phase::AwaitRelease(os, a) => PhaseView::AwaitRelease(*os, *a),
            Phase::AwaitInstalledCheck(p) => PhaseView::AwaitInstalledCheck(p@),
            Phase::AwaitDownloadingStatus(p) => PhaseView::AwaitDownloadingStatus(p@),
            Phase::AwaitDownload(p) => PhaseView::AwaitDownload(p@),
            Phase::AwaitVerify(p) => PhaseView::AwaitVerify(p@),
            Phase::AwaitExecutable(p) => PhaseView::AwaitExecutable(p@),
            Phase::AwaitEntries(p) => PhaseView::AwaitEntries(p@),
            Phase::AwaitRemoval(p) => PhaseView::AwaitRemoval(p@),
            Phase::AwaitInstalledStatus(p) => PhaseView::AwaitInstalledStatus(p@),
            Phase::AwaitFailedStatus(e) => PhaseView::AwaitFailedStatus(e@),
            Phase::Finished => PhaseView::Finished,
        }
    }
}

/// Resolves the `dprint` executable to launch, one outside answer at a time.
pub struct Resolver {
    phase: Phase,
    cached: Option<String>,
}

/// [`Resolver`] as values: where it stands and the remembered auto-installed executable.
pub struct ResolverView {
    pub phase: PhaseView,
    pub cached: Option<Seq<char>>,
}

impl View for Resolver {
    type V = ResolverView;

    closed spec fn view(&self) -> ResolverView {
        ResolverView { phase: self.phase@, cached: text_option(self.cached) }
    }
}

/// Whether `event` answers what a resolver in `phase` waits for.
pub open spec fn awaits(phase: PhaseView, event: EventView) -> bool {
    match phase {
        PhaseView::Start(_) => event is Begin,
        PhaseView::AwaitPlatform => event is Platform,
        PhaseView::AwaitPackageJson(_, _) => event is PackageJson,
        PhaseView::AwaitRootPath(_) => event is RootPath,
        PhaseView::AwaitWhich(_, _) => event is Which,
        PhaseView::AwaitCachedCheck(_, _, _) => event is IsFile,
        PhaseView::AwaitCheckingStatus(_, _) => event is StatusSet,
        PhaseView::AwaitRelease(_, _) => event is Release,
        PhaseView::AwaitInstalledCheck(_) => event is IsFile,
        PhaseView::AwaitDownloadingStatus(_) => event is StatusSet,
        PhaseView::AwaitDownload(_) => event is Downloaded,
        PhaseView::AwaitVerify(_) => event is IsFile,
        PhaseView::AwaitExecutable(_) => event is MadeExecutable,
        PhaseView::AwaitEntries(_) => event is Entries,
        PhaseView::AwaitRemoval(_) => event is Removed,
        PhaseView::AwaitInstalledStatus(_) => event is StatusSet,
        PhaseView::AwaitFailedStatus(_) => event is StatusSet,
        PhaseView::Finished => false,
    }
}

/// The state and action of a resolver that stops with `result`.
pub open spec fn finish(cached: Option<Seq<char>>, result: Result<Seq<char>, Seq<char>>) -> (ResolverView, ActionView) {
    (ResolverView { phase: PhaseView::Finished, cached }, ActionView::Finish(result))
}

/// The state and action of a resolver whose installation fails with `error`.
pub open spec fn fail(cached: Option<Seq<char>>, error: Seq<char>) -> (ResolverView, ActionView) {
    (
        ResolverView { phase: PhaseView::AwaitFailedStatus(error), cached },
        ActionView::SetStatus(StatusView::Failed(error)),
    )
}

/// The state and action of a resolver that starts installing the latest release.
pub open spec fn begin_install(cached: Option<Seq<char>>, os: Os, architecture: Architecture) -> (ResolverView, ActionView) {
    (
        ResolverView { phase: PhaseView::AwaitCheckingStatus(os, architecture), cached },
        ActionView::SetStatus(StatusView::CheckingForUpdate),
    )
}

/// The path of the executable of the release in `plan`.
pub open spec fn plan_binary(plan: PlanView) -> Seq<char> {
    release_binary_path_spec(plan.release.version, plan.os)
}

/// One step of the resolution: the next state and the next action, given the answer `event`.
pub open spec fn next(r: ResolverView, event: EventView) -> (ResolverView, ActionView) {
    let c = r.cached;
    let with = |phase: PhaseView| ResolverView { phase, cached: c };
    match r.phase {
        PhaseView::Start(configured) => match configured {
            Some(path) => finish(c, Ok(path)),
            None => (with(PhaseView::AwaitPlatform), ActionView::QueryPlatform),
        },
        PhaseView::AwaitPlatform => match event {
            EventView::Platform(os, a) => (with(PhaseView::AwaitPackageJson(os, a)), ActionView::ReadPackageJson),
            _ => (r, ActionView::QueryPlatform),
        },
        PhaseView::AwaitPackageJson(os, a) => match event {
            EventView::PackageJson(text) => if parsed_document(text) matches Some(d) && declares_dprint(d) {
                (with(PhaseView::AwaitRootPath(os)), ActionView::QueryRootPath)
            } else {
                (with(PhaseView::AwaitWhich(os, a)), ActionView::Which(DPRINT_BINARY_NAME@))
            },
            _ => (r, ActionView::ReadPackageJson),
        },
        PhaseView::AwaitRootPath(os) => match event {
            EventView::RootPath(root) => finish(c, Ok(joined(root, worktree_binary_path_spec(os)))),
            _ => (r, ActionView::QueryRootPath),
        },
        PhaseView::AwaitWhich(os, a) => match event {
            EventView::Which(found) => match found {
                Some(path) => finish(c, Ok(path)),
                None => match c {
                    Some(cached) => (with(PhaseView::AwaitCachedCheck(os, a, cached)), ActionView::CheckCachedBinary(cached)),
                    None => begin_install(c, os, a),
                },
            },
            _ => (r, ActionView::Which(DPRINT_BINARY_NAME@)),
        },
        PhaseView::AwaitCachedCheck(os, a, cached) => match event {
            EventView::IsFile(present) => if present {
                finish(c, Ok(cached))
            } else {
                begin_install(c, os, a)
            },
            _ => (r, ActionView::CheckCachedBinary(cached)),
        },
        PhaseView::AwaitCheckingStatus(os, a) => (
            with(PhaseView::AwaitRelease(os, a)),
            ActionView::FetchLatestRelease(DPRINT_REPOSITORY@),
        ),
        PhaseView::AwaitRelease(os, a) => match event {
            EventView::Release(fetched) => match fetched {
                Err(e) => fail(c, e),
                Ok(release) => {
                    let plan = PlanView { release, os, architecture: a };
                    (with(PhaseView::AwaitInstalledCheck(plan)), ActionView::CheckInstalledBinary(plan_binary(plan)))
                },
            },
            _ => (r, ActionView::FetchLatestRelease(DPRINT_REPOSITORY@)),
        },
        PhaseView::AwaitInstalledCheck(plan) => match event {
            EventView::IsFile(present) => if present {
                (with(PhaseView::AwaitVerify(plan)), ActionView::VerifyBinary(plan_binary(plan)))
            } else {
                (with(PhaseView::AwaitDownloadingStatus(plan)), ActionView::SetStatus(StatusView::Downloading))
            },
            _ => (r, ActionView::CheckInstalledBinary(plan_binary(plan))),
        },
        PhaseView::AwaitDownloadingStatus(plan) => match asset_name_spec(plan.architecture, plan.os) {
            Err(e) => fail(c, e),
            Ok(name) => match asset_url(plan.release.assets, name) {
                None => fail(c, no_asset_message(plan.release.version, name)),
                Some(url) => (
                    with(PhaseView::AwaitDownload(plan)),
                    ActionView::Download { url, directory: release_directory_spec(plan.release.version) },
                ),
            },
        },
        PhaseView::AwaitDownload(plan) => match event {
            EventView::Downloaded(Err(e)) => fail(c, download_failed_message(plan.release.version, e)),
            _ => (with(PhaseView::AwaitVerify(plan)), ActionView::VerifyBinary(plan_binary(plan))),
        },
        PhaseView::AwaitVerify(plan) => match event {
            EventView::IsFile(false) => fail(c, missing_executable_message(plan.release.version, plan_binary(plan))),
            _ => if plan.os != Os::Windows {
                (with(PhaseView::AwaitExecutable(plan)), ActionView::MakeExecutable(plan_binary(plan)))
            } else {
                (with(PhaseView::AwaitEntries(plan)), ActionView::ListEntries)
            },
        },
        PhaseView::AwaitExecutable(plan) => match event {
            EventView::MadeExecutable(Err(e)) => fail(c, e),
            _ => (with(PhaseView::AwaitEntries(plan)), ActionView::ListEntries),
        },
        PhaseView::AwaitEntries(plan) => match event {
            EventView::Entries(names) => (
                with(PhaseView::AwaitRemoval(plan)),
                ActionView::RemoveEntries(stale_entries(names, release_directory_spec(plan.release.version))),
            ),
            _ => (r, ActionView::ListEntries),
        },
        PhaseView::AwaitRemoval(plan) => (
            with(PhaseView::AwaitInstalledStatus(plan_binary(plan))),
            ActionView::SetStatus(StatusView::Idle),
        ),
        PhaseView::AwaitInstalledStatus(path) => finish(Some(path), Ok(path)),
        PhaseView::AwaitFailedStatus(e) => finish(c, Err(e)),
        PhaseView::Finished => (r, ActionView::Finish(Err(Seq::empty()))),
    }
}


impl Plan {
    /// The path of the executable of the release of this plan.
    fn binary_path(&self) -> (res: String)
        ensures
            res@ == plan_binary(self@),
    {
        release_binary_path(self.release.version.as_str(), self.os)
    }
}

impl Resolver {
    /// A resolver for a language server whose settings configure `configured_path`, remembering
    /// `cached` as the executable a previous resolution installed.
    pub fn new(configured_path: Option<String>, cached: Option<String>) -> (res: Resolver)
        ensures
            res@ == (ResolverView {
                phase: PhaseView::Start(text_option(configured_path)),
                cached: text_option(cached),
            }),
    {
        Resolver { phase: Phase::Start(configured_path), cached }
    }

    /// Whether `event` answers the action this resolver returned last.
    pub fn accepts(&self, event: &Event) -> (res: bool)
        ensures
            res == awaits(self@.phase, event@),
    {
        match (&self.phase, event) {
            (Phase::Start(_), Event::Begin) => true,
            (Phase::AwaitPlatform, Event::Platform(_, _)) => true,
            (Phase::AwaitPackageJson(_, _), Event::PackageJson(_)) => true,
            (Phase::AwaitRootPath(_), Event::RootPath(_)) => true,
            (Phase::AwaitWhich(_, _), Event::Which(_)) => true,
            (Phase::AwaitCachedCheck(_, _, _), Event::IsFile(_)) => true,
            (Phase::AwaitCheckingStatus(_, _), Event::StatusSet) => true,
            (Phase::AwaitRelease(_, _), Event::Release(_)) => true,
            (Phase::AwaitInstalledCheck(_), Event::IsFile(_)) => true,
            (Phase::AwaitDownloadingStatus(_), Event::StatusSet) => true,
            (Phase::AwaitDownload(_), Event::Downloaded(_)) => true,
            (Phase::AwaitVerify(_), Event::IsFile(_)) => true,
            (Phase::AwaitExecutable(_), Event::MadeExecutable(_)) => true,
            (Phase::AwaitEntries(_), Event::Entries(_)) => true,
            (Phase::AwaitRemoval(_), Event::Removed) => true,
            (Phase::AwaitInstalledStatus(_), Event::StatusSet) => true,
            (Phase::AwaitFailedStatus(_), Event::StatusSet) => true,
            _ => false,
        }
    }

    /// Whether the resolution is over.
    pub fn is_finished(&self) -> (res: bool)
        ensures
            res == (self@.phase is Finished),
    {
        matches!(self.phase, Phase::Finished)
    }

    /// The executable that the last successful installation produced, if any.
    pub fn cached_install_path(&self) -> (res: Option<String>)
        ensures
            text_option(res) == self@.cached,
    {
        match &self.cached {
            Some(path) => Some(path.clone()),
            None => None,
        }
    }

    fn fail(&mut self, error: String) -> (action: Action)
        ensures
            (final(self)@, action@) == fail(old(self)@.cached, error@),
    {
        self.phase = Phase::AwaitFailedStatus(error.clone());
        Action::SetStatus(InstallStatus::Failed(error))
    }

    fn begin_install(&mut self, os: Os, architecture: Architecture) -> (action: Action)
        ensures
            (final(self)@, action@) == begin_install(old(self)@.cached, os, architecture),
    {
        self.phase = Phase::AwaitCheckingStatus(os, architecture);
        Action::SetStatus(InstallStatus::CheckingForUpdate)
    }

    /// Takes the answer to the last action and returns the next action.
    pub fn step(&mut self, event: Event) -> (action: Action)
        requires
            awaits(old(self)@.phase, event@),
        ensures
            (final(self)@, action@) == next(old(self)@, event@),
    {
        let mut phase = Phase::Finished;
        std::mem::swap(&mut phase, &mut self.phase);
        match phase {
            Phase::Start(configured) => match configured {
                Some(path) => Action::Finish(Ok(path)),
                None => {
                    self.phase = Phase::AwaitPlatform;
                    Action::QueryPlatform
                },
            },
            Phase::AwaitPlatform => match event {
                Event::Platform(os, architecture) => {
                    self.phase = Phase::AwaitPackageJson(os, architecture);
                    Action::ReadPackageJson
                },
                _ => unreached(),
            },
            Phase::AwaitPackageJson(os, architecture) => match event {
                Event::PackageJson(text) => {
                    let doc = parse_document(&text);
                    let declares = match &doc {
                        Some(package_json) => package_json_declares_dependency(package_json),
                        None => false,
                    };
                    if declares {
                        self.phase = Phase::AwaitRootPath(os);
                        Action::QueryRootPath
                    } else {
                        self.phase = Phase::AwaitWhich(os, architecture);
                        Action::Which(String::from_str(DPRINT_BINARY_NAME))
                    }
                },
                _ => unreached(),
            },
            Phase::AwaitRootPath(os) => match event {
                Event::RootPath(root) => {
                    let path = join_path(root.as_str(), worktree_dprint_binary_path(os));
                    Action::Finish(path_to_command(path.as_str()))
                },
                _ => unreached(),
            },
            Phase::AwaitWhich(os, architecture) => match event {
                Event::Which(found) => match found {
                    Some(path) => Action::Finish(Ok(path)),
                    None => match &self.cached {
                        Some(cached) => {
                            let cached = cached.clone();
                            self.phase = Phase::AwaitCachedCheck(os, architecture, cached.clone());
                            Action::CheckCachedBinary(cached)
                        },
                        None => self.begin_install(os, architecture),
                    },
                },
                _ => unreached(),
            },
            Phase::AwaitCachedCheck(os, architecture, cached) => match event {
                Event::IsFile(present) => if present {
                    Action::Finish(Ok(cached))
                } else {
                    self.begin_install(os, architecture)
                },
                _ => unreached(),
            },
            Phase::AwaitCheckingStatus(os, architecture) => {
                self.phase = Phase::AwaitRelease(os, architecture);
                Action::FetchLatestRelease(String::from_str(DPRINT_REPOSITORY))
            },
            Phase::AwaitRelease(os, architecture) => match event {
                Event::Release(fetched) => match fetched {
                    Err(error) => self.fail(error),
                    Ok(release) => {
                        let plan = Plan { release, os, architecture };
                        let path = plan.binary_path();
                        self.phase = Phase::AwaitInstalledCheck(plan);
                        Action::CheckInstalledBinary(path)
                    },
                },
                _ => unreached(),
            },
            Phase::AwaitInstalledCheck(plan) => match event {
                Event::IsFile(present) => {
                    if present {
                        let path = plan.binary_path();
                        self.phase = Phase::AwaitVerify(plan);
                        Action::VerifyBinary(path)
                    } else {
                        self.phase = Phase::AwaitDownloadingStatus(plan);
                        Action::SetStatus(InstallStatus::Downloading)
                    }
                },
                _ => unreached(),
            },
            Phase::AwaitDownloadingStatus(plan) => match release_asset_name(plan.architecture, plan.os) {
                Err(error) => self.fail(error),
                Ok(name) => match find_asset_url(&plan.release.assets, name.as_str()) {
                    None => {
                        let error = no_asset_error(plan.release.version.as_str(), name.as_str());
                        self.fail(error)
                    },
                    Some(url) => {
                        let directory = release_directory(plan.release.version.as_str());
                        self.phase = Phase::AwaitDownload(plan);
                        Action::Download { url, directory }
                    },
                },
            },
            Phase::AwaitDownload(plan) => match event {
                Event::Downloaded(Err(error)) => {
                    let error = download_failed_error(plan.release.version.as_str(), error.as_str());
                    self.fail(error)
                },
                _ => {
                    let path = plan.binary_path();
                    self.phase = Phase::AwaitVerify(plan);
                    Action::VerifyBinary(path)
                },
            },
            Phase::AwaitVerify(plan) => {
                let path = plan.binary_path();
                match event {
                    Event::IsFile(false) => {
                        let error = missing_executable_error(plan.release.version.as_str(), path.as_str());
                        self.fail(error)
                    },
                    _ => if plan.os != Os::Windows {
                        self.phase = Phase::AwaitExecutable(plan);
                        Action::MakeExecutable(path)
                    } else {
                        self.phase = Phase::AwaitEntries(plan);
                        Action::ListEntries
                    },
                }
            },
            Phase::AwaitExecutable(plan) => match event {
                Event::MadeExecutable(Err(error)) => self.fail(error),
                _ => {
                    self.phase = Phase::AwaitEntries(plan);
                    Action::ListEntries
                },
            },
            Phase::AwaitEntries(plan) => match event {
                Event::Entries(names) => {
                    let directory = release_directory(plan.release.version.as_str());
                    let stale = stale_release_entries(&names, directory.as_str());
                    self.phase = Phase::AwaitRemoval(plan);
                    Action::RemoveEntries(stale)
                },
                _ => unreached(),
            },
            Phase::AwaitRemoval(plan) => {
                let path = plan.binary_path();
                self.phase = Phase::AwaitInstalledStatus(path);
                Action::SetStatus(InstallStatus::Idle)
            },
            Phase::AwaitInstalledStatus(path) => {
                self.cached = Some(path.clone());
                Action::Finish(Ok(path))
            },
            Phase::AwaitFailedStatus(error) => Action::Finish(Err(error)),
            Phase::Finished => unreached(),
        }
    }
}


/// The outside world as a resolution sees it: the answer it gets to each kind of question.
pub struct World {
    pub os: Os,
    pub architecture: Architecture,
    /// The text of `package.json`, if it can be read.
    pub package_json: Option<Seq<char>>,
    pub root: Seq<char>,
    pub which: Option<Seq<char>>,
    pub cached_is_file: bool,
    pub release: Result<ReleaseView, Seq<char>>,
    pub already_installed: bool,
    pub download: Result<(), Seq<char>>,
    pub present_after_download: bool,
    pub make_executable: Result<(), Seq<char>>,
    pub entries: Seq<Seq<char>>,
}

/// The answer `world` gives to `action`.
pub open spec fn answer(world: World, action: ActionView) -> EventView {
    match action {
        ActionView::QueryPlatform => EventView::Platform(world.os, world.architecture),
        ActionView::ReadPackageJson => EventView::PackageJson(world.package_json),
        ActionView::QueryRootPath => EventView::RootPath(world.root),
        ActionView::Which(_) => EventView::Which(world.which),
        ActionView::CheckCachedBinary(_) => EventView::IsFile(world.cached_is_file),
        ActionView::SetStatus(_) => EventView::StatusSet,
        ActionView::FetchLatestRelease(_) => EventView::Release(world.release),
        ActionView::CheckInstalledBinary(_) => EventView::IsFile(world.already_installed),
        ActionView::Download { .. } => EventView::Downloaded(world.download),
        ActionView::VerifyBinary(_) => EventView::IsFile(world.present_after_download),
        ActionView::MakeExecutable(_) => EventView::MadeExecutable(world.make_executable),
        ActionView::ListEntries => EventView::Entries(world.entries),
        ActionView::RemoveEntries(_) => EventView::Removed,
        ActionView::Finish(_) => EventView::Begin,
    }
}

/// The result and the remembered executable once a resolution in state `r`, answered by
/// `world`, finishes within `fuel` steps.
pub open spec fn run(r: ResolverView, event: EventView, world: World, fuel: nat) -> Option<(Result<Seq<char>, Seq<char>>, Option<Seq<char>>)>
    decreases fuel,
{
    if fuel == 0 {
        None
    } else {
        let (after, action) = next(r, event);
        match action {
            ActionView::Finish(result) => Some((result, after.cached)),
            _ => run(after, answer(world, action), world, (fuel - 1) as nat),
        }
    }
}

/// What installing the latest release gives in `world`: the executable, or the error.
pub open spec fn install_outcome(world: World) -> Result<Seq<char>, Seq<char>> {
    match world.release {
        Err(e) => Err(e),
        Ok(release) => {
            let binary = release_binary_path_spec(release.version, world.os);
            let fetched: Result<(), Seq<char>> = if world.already_installed {
                Ok(())
            } else {
                match asset_name_spec(world.architecture, world.os) {
                    Err(e) => Err(e),
                    Ok(name) => match asset_url(release.assets, name) {
                        None => Err(no_asset_message(release.version, name)),
                        Some(_) => match world.download {
                            Err(e) => Err(download_failed_message(release.version, e)),
                            Ok(()) => Ok(()),
                        },
                    },
                }
            };
            match fetched {
                Err(e) => Err(e),
                Ok(()) => if !world.present_after_download {
                    Err(missing_executable_message(release.version, binary))
                } else if world.os != Os::Windows && world.make_executable is Err {
                    Err(world.make_executable->Err_0)
                } else {
                    Ok(binary)
                },
            }
        },
    }
}

/// Whether a resolution in `world` gets as far as installing the latest release.
pub open spec fn reaches_install(configured: Option<Seq<char>>, cached: Option<Seq<char>>, world: World) -> bool {
    &&& configured is None
    &&& !(parsed_document(world.package_json) matches Some(d) && declares_dprint(d))
    &&& world.which is None
    &&& !(cached is Some && world.cached_is_file)
}

/// The command a resolution yields: the configured path; else the worktree's npm shim when its
/// `package.json` depends on dprint; else `dprint` on the worktree's `PATH`; else the executable
/// installed earlier while it is still a file; else the latest release, installed.
pub open spec fn resolution_outcome(configured: Option<Seq<char>>, cached: Option<Seq<char>>, world: World) -> Result<Seq<char>, Seq<char>> {
    match configured {
        Some(path) => Ok(path),
        None => if parsed_document(world.package_json) matches Some(d) && declares_dprint(d) {
            Ok(joined(world.root, worktree_binary_path_spec(world.os)))
        } else if world.which is Some {
            Ok(world.which->0)
        } else if cached is Some && world.cached_is_file {
            Ok(cached->0)
        } else {
            install_outcome(world)
        },
    }
}

/// The executable remembered after a resolution: the one it installed, if it installed one.
pub open spec fn remembered_after(configured: Option<Seq<char>>, cached: Option<Seq<char>>, world: World) -> Option<Seq<char>> {
    if reaches_install(configured, cached, world) && install_outcome(world) is Ok {
        Some(install_outcome(world)->Ok_0)
    } else {
        cached
    }
}

/// The end of a resolution that installed and returns `result`, starting with `cached`.
pub open spec fn installed(result: Result<Seq<char>, Seq<char>>, cached: Option<Seq<char>>) -> Option<(Result<Seq<char>, Seq<char>>, Option<Seq<char>>)> {
    Some((result, if result is Ok { Some(result->Ok_0) } else { cached }))
}

/// What a release installation yields once the downloaded executable has been looked for.
pub open spec fn verified_outcome(plan: PlanView, world: World) -> Result<Seq<char>, Seq<char>> {
    if !world.present_after_download {
        Err(missing_executable_message(plan.release.version, plan_binary(plan)))
    } else if plan.os != Os::Windows && world.make_executable is Err {
        Err(world.make_executable->Err_0)
    } else {
        Ok(plan_binary(plan))
    }
}

proof fn lemma_run_failed(error: Seq<char>, cached: Option<Seq<char>>, world: World, fuel: nat)
    requires
        fuel >= 1,
    ensures
        run(ResolverView { phase: PhaseView::AwaitFailedStatus(error), cached }, EventView::StatusSet, world, fuel)
            == Some((Err::<Seq<char>, Seq<char>>(error), cached)),
{
}

proof fn lemma_run_fail(error: Seq<char>, r: ResolverView, event: EventView, world: World, fuel: nat)
    requires
        fuel >= 2,
        next(r, event) == fail(r.cached, error),
    ensures
        run(r, event, world, fuel) == Some((Err::<Seq<char>, Seq<char>>(error), r.cached)),
{
    lemma_run_failed(error, r.cached, world, (fuel - 1) as nat);
}

proof fn lemma_run_removal(plan: PlanView, cached: Option<Seq<char>>, world: World, fuel: nat)
    requires
        fuel >= 3,
    ensures
        run(ResolverView { phase: PhaseView::AwaitEntries(plan), cached }, EventView::Entries(world.entries), world, fuel)
            == installed(Ok(plan_binary(plan)), cached),
{
    let r1 = ResolverView { phase: PhaseView::AwaitRemoval(plan), cached };
    let r2 = ResolverView { phase: PhaseView::AwaitInstalledStatus(plan_binary(plan)), cached };
    assert(run(r2, EventView::StatusSet, world, (fuel - 2) as nat) == installed(Ok(plan_binary(plan)), cached));
    assert(run(r1, EventView::Removed, world, (fuel - 1) as nat) == installed(Ok(plan_binary(plan)), cached));
}

proof fn lemma_run_verify(plan: PlanView, cached: Option<Seq<char>>, world: World, fuel: nat)
    requires
        fuel >= 5,
    ensures
        run(ResolverView { phase: PhaseView::AwaitVerify(plan), cached }, EventView::IsFile(world.present_after_download), world, fuel)
            == installed(verified_outcome(plan, world), cached),
{
    let r = ResolverView { phase: PhaseView::AwaitVerify(plan), cached };
    let e = EventView::IsFile(world.present_after_download);
    if !world.present_after_download {
        lemma_run_fail(missing_executable_message(plan.release.version, plan_binary(plan)), r, e, world, fuel);
    } else if plan.os != Os::Windows {
        let r1 = ResolverView { phase: PhaseView::AwaitExecutable(plan), cached };
        let e1 = EventView::MadeExecutable(world.make_executable);
        lemma_run_removal(plan, cached, world, (fuel - 2) as nat);
        if world.make_executable is Err {
            lemma_run_fail(world.make_executable->Err_0, r1, e1, world, (fuel - 1) as nat);
        }
        assert(run(r1, e1, world, (fuel - 1) as nat) == installed(verified_outcome(plan, world), cached));
    } else {
        lemma_run_removal(plan, cached, world, (fuel - 1) as nat);
    }
}

/// The result of downloading the release of `plan` in `world`.
pub open spec fn fetched_outcome(plan: PlanView, world: World) -> Result<(), Seq<char>> {
    match asset_name_spec(plan.architecture, plan.os) {
        Err(e) => Err(e),
        Ok(name) => match asset_url(plan.release.assets, name) {
            None => Err(no_asset_message(plan.release.version, name)),
            Some(_) => match world.download {
                Err(e) => Err(download_failed_message(plan.release.version, e)),
                Ok(()) => Ok(()),
            },
        },
    }
}

proof fn lemma_run_download(plan: PlanView, cached: Option<Seq<char>>, world: World, fuel: nat)
    requires
        fuel >= 7,
    ensures
        run(ResolverView { phase: PhaseView::AwaitDownloadingStatus(plan), cached }, EventView::StatusSet, world, fuel)
            == installed(
                match fetched_outcome(plan, world) {
                    Err(e) => Err(e),
                    Ok(()) => verified_outcome(plan, world),
                },
                cached,
            ),
{
    let r = ResolverView { phase: PhaseView::AwaitDownloadingStatus(plan), cached };
    let e = EventView::StatusSet;
    match asset_name_spec(plan.architecture, plan.os) {
        Err(msg) => {
            lemma_run_fail(msg, r, e, world, fuel);
        },
        Ok(name) => match asset_url(plan.release.assets, name) {
            None => {
                lemma_run_fail(no_asset_message(plan.release.version, name), r, e, world, fuel);
            },
            Some(_) => {
                let r1 = ResolverView { phase: PhaseView::AwaitDownload(plan), cached };
                let e1 = EventView::Downloaded(world.download);
                match world.download {
                    Err(msg) => {
                        lemma_run_fail(download_failed_message(plan.release.version, msg), r1, e1, world, (fuel - 1) as nat);
                    },
                    Ok(()) => {
                        lemma_run_verify(plan, cached, world, (fuel - 2) as nat);
                    },
                }
                assert(run(r1, e1, world, (fuel - 1) as nat) == installed(
                    match fetched_outcome(plan, world) {
                        Err(e) => Err(e),
                        Ok(()) => verified_outcome(plan, world),
                    },
                    cached,
                ));
            },
        },
    }
}

/// Law: the installation of a release, once started, yields `install_outcome`, and remembers
/// the executable when it succeeds.
proof fn lemma_run_install(cached: Option<Seq<char>>, world: World, fuel: nat)
    requires
        fuel >= 11,
    ensures
        run(
            ResolverView { phase: PhaseView::AwaitCheckingStatus(world.os, world.architecture), cached },
            EventView::StatusSet,
            world,
            fuel,
        ) == installed(install_outcome(world), cached),
{
    let r1 = ResolverView { phase: PhaseView::AwaitRelease(world.os, world.architecture), cached };
    let e1 = EventView::Release(world.release);
    match world.release {
        Err(msg) => {
            lemma_run_fail(msg, r1, e1, world, (fuel - 1) as nat);
        },
        Ok(release) => {
            let plan = PlanView { release, os: world.os, architecture: world.architecture };
            let r2 = ResolverView { phase: PhaseView::AwaitInstalledCheck(plan), cached };
            let e2 = EventView::IsFile(world.already_installed);
            if world.already_installed {
                lemma_run_verify(plan, cached, world, (fuel - 3) as nat);
            } else {
                lemma_run_download(plan, cached, world, (fuel - 3) as nat);
            }
            assert(run(r2, e2, world, (fuel - 2) as nat) == installed(install_outcome(world), cached));
        },
    }
    assert(run(r1, e1, world, (fuel - 1) as nat) == installed(install_outcome(world), cached));
}

/// Law: a resolution finishes within 20 steps with the command of `resolution_outcome`, which
/// takes the sources in the order the extension documents, and remembers the executable it
/// installed.
pub proof fn law_resolution_order(configured: Option<Seq<char>>, cached: Option<Seq<char>>, world: World)
    ensures
        run(
            ResolverView { phase: PhaseView::Start(configured), cached },
            EventView::Begin,
            world,
            20,
        ) == Some((resolution_outcome(configured, cached, world), remembered_after(configured, cached, world))),
{
    if configured is None {
        let os = world.os;
        let a = world.architecture;
        let r1 = ResolverView { phase: PhaseView::AwaitPlatform, cached };
        let r2 = ResolverView { phase: PhaseView::AwaitPackageJson(os, a), cached };
        let e2 = EventView::PackageJson(world.package_json);
        if parsed_document(world.package_json) matches Some(d) && declares_dprint(d) {
            let r3 = ResolverView { phase: PhaseView::AwaitRootPath(os), cached };
            assert(run(r3, EventView::RootPath(world.root), world, 17) == Some((
                resolution_outcome(configured, cached, world),
                remembered_after(configured, cached, world),
            )));
        } else {
            let r3 = ResolverView { phase: PhaseView::AwaitWhich(os, a), cached };
            let e3 = EventView::Which(world.which);
            lemma_run_install(cached, world, 16);
            lemma_run_install(cached, world, 15);
            if world.which is None && cached is Some {
                let r4 = ResolverView { phase: PhaseView::AwaitCachedCheck(os, a, cached->0), cached };
                assert(run(r4, EventView::IsFile(world.cached_is_file), world, 16) == Some((
                    resolution_outcome(configured, cached, world),
                    remembered_after(configured, cached, world),
                )));
            }
            assert(run(r3, e3, world, 17) == Some((
                resolution_outcome(configured, cached, world),
                remembered_after(configured, cached, world),
            )));
        }
        assert(run(r2, e2, world, 18) == Some((
            resolution_outcome(configured, cached, world),
            remembered_after(configured, cached, world),
        )));
        assert(run(r1, EventView::Platform(os, a), world, 19) == Some((
            resolution_outcome(configured, cached, world),
            remembered_after(configured, cached, world),
        )));
    }
}


/// The installation statuses a resolution in state `r`, answered by `world`, shows, in order.
pub open spec fn statuses(r: ResolverView, event: EventView, world: World, fuel: nat) -> Seq<StatusView>
    decreases fuel,
{
    if fuel == 0 {
        Seq::empty()
    } else {
        let (after, action) = next(r, event);
        match action {
            ActionView::Finish(_) => Seq::empty(),
            ActionView::SetStatus(status) => seq![status] + statuses(after, answer(world, action), world, (fuel - 1) as nat),
            _ => statuses(after, answer(world, action), world, (fuel - 1) as nat),
        }
    }
}

/// The last status an installation with `result` shows.
pub open spec fn final_status(result: Result<Seq<char>, Seq<char>>) -> StatusView {
    match result {
        Ok(_) => StatusView::Idle,
        Err(e) => StatusView::Failed(e),
    }
}

/// The statuses an installation in `world` shows: checking for an update, downloading when the
/// release is not installed yet, and then idle on success or the error on failure.
pub open spec fn install_statuses(world: World) -> Seq<StatusView> {
    seq![StatusView::CheckingForUpdate]
        + (if world.release is Ok && !world.already_installed {
            seq![StatusView::Downloading]
        } else {
            Seq::empty()
        })
        + seq![final_status(install_outcome(world))]
}

proof fn lemma_statuses_fail(error: Seq<char>, r: ResolverView, event: EventView, world: World, fuel: nat)
    requires
        fuel >= 2,
        next(r, event) == fail(r.cached, error),
    ensures
        statuses(r, event, world, fuel) == seq![StatusView::Failed(error)],
{
    let r1 = ResolverView { phase: PhaseView::AwaitFailedStatus(error), cached: r.cached };
    assert(statuses(r1, EventView::StatusSet, world, (fuel - 1) as nat) =~= Seq::<StatusView>::empty());
    assert(seq![StatusView::Failed(error)] + Seq::<StatusView>::empty() =~= seq![StatusView::Failed(error)]);
}

proof fn lemma_statuses_removal(plan: PlanView, cached: Option<Seq<char>>, world: World, fuel: nat)
    requires
        fuel >= 3,
    ensures
        statuses(ResolverView { phase: PhaseView::AwaitEntries(plan), cached }, EventView::Entries(world.entries), world, fuel)
            == seq![StatusView::Idle],
{
    let r1 = ResolverView { phase: PhaseView::AwaitRemoval(plan), cached };
    let r2 = ResolverView { phase: PhaseView::AwaitInstalledStatus(plan_binary(plan)), cached };
    assert(statuses(r2, EventView::StatusSet, world, (fuel - 2) as nat) =~= Seq::<StatusView>::empty());
    assert(seq![StatusView::Idle] + Seq::<StatusView>::empty() =~= seq![StatusView::Idle]);
    assert(statuses(r1, EventView::Removed, world, (fuel - 1) as nat) == seq![StatusView::Idle]);
}

proof fn lemma_statuses_verify(plan: PlanView, cached: Option<Seq<char>>, world: World, fuel: nat)
    requires
        fuel >= 5,
    ensures
        statuses(ResolverView { phase: PhaseView::AwaitVerify(plan), cached }, EventView::IsFile(world.present_after_download), world, fuel)
            == seq![final_status(verified_outcome(plan, world))],
{
    let r = ResolverView { phase: PhaseView::AwaitVerify(plan), cached };
    let e = EventView::IsFile(world.present_after_download);
    if !world.present_after_download {
        lemma_statuses_fail(missing_executable_message(plan.release.version, plan_binary(plan)), r, e, world, fuel);
    } else if plan.os != Os::Windows {
        let r1 = ResolverView { phase: PhaseView::AwaitExecutable(plan), cached };
        let e1 = EventView::MadeExecutable(world.make_executable);
        lemma_statuses_removal(plan, cached, world, (fuel - 2) as nat);
        if world.make_executable is Err {
            lemma_statuses_fail(world.make_executable->Err_0, r1, e1, world, (fuel - 1) as nat);
        }
        assert(statuses(r1, e1, world, (fuel - 1) as nat) == seq![final_status(verified_outcome(plan, world))]);
    } else {
        lemma_statuses_removal(plan, cached, world, (fuel - 1) as nat);
    }
}

proof fn lemma_statuses_download(plan: PlanView, cached: Option<Seq<char>>, world: World, fuel: nat)
    requires
        fuel >= 7,
    ensures
        statuses(ResolverView { phase: PhaseView::AwaitDownloadingStatus(plan), cached }, EventView::StatusSet, world, fuel)
            == seq![final_status(
                match fetched_outcome(plan, world) {
                    Err(e) => Err(e),
                    Ok(()) => verified_outcome(plan, world),
                },
            )],
{
    let r = ResolverView { phase: PhaseView::AwaitDownloadingStatus(plan), cached };
    let e = EventView::StatusSet;
    match asset_name_spec(plan.architecture, plan.os) {
        Err(msg) => {
            lemma_statuses_fail(msg, r, e, world, fuel);
        },
        Ok(name) => match asset_url(plan.release.assets, name) {
            None => {
                lemma_statuses_fail(no_asset_message(plan.release.version, name), r, e, world, fuel);
            },
            Some(_) => {
                let r1 = ResolverView { phase: PhaseView::AwaitDownload(plan), cached };
                let e1 = EventView::Downloaded(world.download);
                match world.download {
                    Err(msg) => {
                        lemma_statuses_fail(download_failed_message(plan.release.version, msg), r1, e1, world, (fuel - 1) as nat);
                    },
                    Ok(()) => {
                        lemma_statuses_verify(plan, cached, world, (fuel - 2) as nat);
                    },
                }
                assert(statuses(r1, e1, world, (fuel - 1) as nat) == seq![final_status(
                    match fetched_outcome(plan, world) {
                        Err(e) => Err(e),
                        Ok(()) => verified_outcome(plan, world),
                    },
                )]);
            },
        },
    }
}

proof fn lemma_statuses_install(cached: Option<Seq<char>>, world: World, fuel: nat)
    requires
        fuel >= 11,
    ensures
        seq![StatusView::CheckingForUpdate] + statuses(
            ResolverView { phase: PhaseView::AwaitCheckingStatus(world.os, world.architecture), cached },
            EventView::StatusSet,
            world,
            fuel,
        ) == install_statuses(world),
{
    let r1 = ResolverView { phase: PhaseView::AwaitRelease(world.os, world.architecture), cached };
    let e1 = EventView::Release(world.release);
    match world.release {
        Err(msg) => {
            lemma_statuses_fail(msg, r1, e1, world, (fuel - 1) as nat);
        },
        Ok(release) => {
            let plan = PlanView { release, os: world.os, architecture: world.architecture };
            let r2 = ResolverView { phase: PhaseView::AwaitInstalledCheck(plan), cached };
            let e2 = EventView::IsFile(world.already_installed);
            if world.already_installed {
                lemma_statuses_verify(plan, cached, world, (fuel - 3) as nat);
                assert(statuses(r2, e2, world, (fuel - 2) as nat) == seq![final_status(install_outcome(world))]);
            } else {
                lemma_statuses_download(plan, cached, world, (fuel - 3) as nat);
                assert(statuses(r2, e2, world, (fuel - 2) as nat)
                    == seq![StatusView::Downloading] + seq![final_status(install_outcome(world))]);
            }
            assert(statuses(r1, e1, world, (fuel - 1) as nat) == statuses(r2, e2, world, (fuel - 2) as nat));
        },
    }
    assert(seq![StatusView::CheckingForUpdate] + statuses(
        ResolverView { phase: PhaseView::AwaitCheckingStatus(world.os, world.architecture), cached },
        EventView::StatusSet,
        world,
        fuel,
    ) =~= install_statuses(world));
}

/// Law: a resolution shows installation statuses only when it installs the latest release;
/// then it shows that it checks for an update, that it downloads when the release is not
/// installed yet, and finally idle on success or the very error it returns on failure.
pub proof fn law_installation_statuses(configured: Option<Seq<char>>, cached: Option<Seq<char>>, world: World)
    ensures
        statuses(
            ResolverView { phase: PhaseView::Start(configured), cached },
            EventView::Begin,
            world,
            20,
        ) == if reaches_install(configured, cached, world) {
            install_statuses(world)
        } else {
            Seq::empty()
        },
{
    let expected = if reaches_install(configured, cached, world) {
        install_statuses(world)
    } else {
        Seq::empty()
    };
    if configured is None {
        let os = world.os;
        let a = world.architecture;
        let r1 = ResolverView { phase: PhaseView::AwaitPlatform, cached };
        let r2 = ResolverView { phase: PhaseView::AwaitPackageJson(os, a), cached };
        let e2 = EventView::PackageJson(world.package_json);
        let r_check = ResolverView { phase: PhaseView::AwaitCheckingStatus(os, a), cached };
        if parsed_document(world.package_json) matches Some(d) && declares_dprint(d) {
            let r3 = ResolverView { phase: PhaseView::AwaitRootPath(os), cached };
            assert(statuses(r3, EventView::RootPath(world.root), world, 17) =~= expected);
        } else {
            let r3 = ResolverView { phase: PhaseView::AwaitWhich(os, a), cached };
            let e3 = EventView::Which(world.which);
            lemma_statuses_install(cached, world, 16);
            lemma_statuses_install(cached, world, 15);
            if world.which is None && cached is Some {
                let r4 = ResolverView { phase: PhaseView::AwaitCachedCheck(os, a, cached->0), cached };
                if world.cached_is_file {
                    assert(statuses(r4, EventView::IsFile(true), world, 16) =~= expected);
                } else {
                    assert(statuses(r4, EventView::IsFile(false), world, 16)
                        == seq![StatusView::CheckingForUpdate] + statuses(r_check, EventView::StatusSet, world, 15));
                }
            }
            if world.which is Some {
                assert(statuses(r3, e3, world, 17) =~= expected);
            }
            assert(statuses(r3, e3, world, 17) == expected);
        }
        assert(statuses(r2, e2, world, 18) == expected);
        assert(statuses(r1, EventView::Platform(os, a), world, 19) == expected);
    } else {
        assert(statuses(
            ResolverView { phase: PhaseView::Start(configured), cached },
            EventView::Begin,
            world,
            20,
        ) =~= expected);
    }
}


/// Law: old downloads are looked for only once the new release's executable has been found
/// (and, off Windows, made executable), and removed only right after that listing.
pub proof fn law_cleanup_follows_installation(r: ResolverView, event: EventView)
    requires
        awaits(r.phase, event),
    ensures
        next(r, event).1 is ListEntries ==> {
            ||| (r.phase matches PhaseView::AwaitVerify(plan) && event == EventView::IsFile(true) && plan.os == Os::Windows)
            ||| (r.phase is AwaitExecutable && event matches EventView::MadeExecutable(Ok(())))
        },
        next(r, event).1 is RemoveEntries ==> r.phase is AwaitEntries,
{
}


/// Law: when neither the configured path, nor the worktree's npm shim, nor `PATH`, nor a
/// remembered installation that is still a file applies, a resolution does what installing the
/// latest release does from the same state: the same result, the same remembered executable,
/// and, after showing that it checks for an update, the same statuses.
pub proof fn law_fallthrough_installs(configured: Option<Seq<char>>, cached: Option<Seq<char>>, world: World)
    requires
        reaches_install(configured, cached, world),
    ensures
        run(ResolverView { phase: PhaseView::Start(configured), cached }, EventView::Begin, world, 20) == run(
            ResolverView { phase: PhaseView::AwaitCheckingStatus(world.os, world.architecture), cached },
            EventView::StatusSet,
            world,
            13,
        ),
        statuses(ResolverView { phase: PhaseView::Start(configured), cached }, EventView::Begin, world, 20)
            == seq![StatusView::CheckingForUpdate] + statuses(
            ResolverView { phase: PhaseView::AwaitCheckingStatus(world.os, world.architecture), cached },
            EventView::StatusSet,
            world,
            13,
        ),
{
    law_resolution_order(configured, cached, world);
    law_installation_statuses(configured, cached, world);
    lemma_run_install(cached, world, 13);
    lemma_statuses_install(cached, world, 13);
}


/// `world`'s `package.json` declares dprint as a dependency.
pub open spec fn worktree_declares(world: World) -> bool {
    parsed_document(world.package_json) matches Some(d) && declares_dprint(d)
}

/// What `action` may be in `world`, for a resolution that started with the configured path
/// `configured`, remembering `cached`: it asks for the worktree root only when the worktree
/// declares dprint, looks up `dprint` on `PATH` only when it does not, checks only the
/// remembered executable and only after that, and does installation work only when no earlier
/// source applies; the executable it checks, verifies and makes executable (off Windows) is the
/// one of the latest release for the machine's operating system; it downloads only a release
/// that is not installed yet, from the URL of the first asset named for the machine's platform,
/// into the directory of that release; it removes exactly the listed downloads of other
/// releases; and it fetches releases of dprint's repository.
pub open spec fn action_fits(action: ActionView, world: World, configured: Option<Seq<char>>, cached: Option<Seq<char>>) -> bool {
    let installing = reaches_install(configured, cached, world) && world.release is Ok;
    let binary = release_binary_path_spec(world.release->Ok_0.version, world.os);
    match action {
        ActionView::QueryPlatform => configured is None,
        ActionView::ReadPackageJson => configured is None,
        ActionView::QueryRootPath => configured is None && worktree_declares(world),
        ActionView::Which(name) => name == DPRINT_BINARY_NAME@ && configured is None && !worktree_declares(world),
        ActionView::CheckCachedBinary(path) => cached == Some(path) && configured is None
            && !worktree_declares(world) && world.which is None,
        ActionView::FetchLatestRelease(repository) => repository == DPRINT_REPOSITORY@
            && reaches_install(configured, cached, world),
        ActionView::CheckInstalledBinary(path) => installing && path == binary,
        ActionView::VerifyBinary(path) => installing && path == binary,
        ActionView::MakeExecutable(path) => installing && world.os != Os::Windows && path == binary,
        ActionView::Download { url, directory } => {
            &&& installing
            &&& !world.already_installed
            &&& asset_name_spec(world.architecture, world.os) is Ok
            &&& asset_url(world.release->Ok_0.assets, asset_name_spec(world.architecture, world.os)->Ok_0) == Some(url)
            &&& directory == release_directory_spec(world.release->Ok_0.version)
        },
        ActionView::ListEntries => installing,
        ActionView::RemoveEntries(names) => installing
            && names == stale_entries(world.entries, release_directory_spec(world.release->Ok_0.version)),
        ActionView::SetStatus(_) => reaches_install(configured, cached, world),
        _ => true,
    }
}

/// Every action a resolution in state `r`, answered by `world`, takes within `fuel` steps fits
/// `world` (`action_fits`).
pub open spec fn actions_fit(
    r: ResolverView,
    event: EventView,
    world: World,
    configured: Option<Seq<char>>,
    cached: Option<Seq<char>>,
    fuel: nat,
) -> bool
    decreases fuel,
{
    if fuel == 0 {
        true
    } else {
        let (after, action) = next(r, event);
        action_fits(action, world, configured, cached) && (action is Finish || actions_fit(
            after,
            answer(world, action),
            world,
            configured,
            cached,
            (fuel - 1) as nat,
        ))
    }
}

/// `plan` is the latest release of `world` on its platform.
pub open spec fn plan_of_world(plan: PlanView, world: World) -> bool {
    world.release == Ok::<ReleaseView, Seq<char>>(plan.release) && plan.os == world.os && plan.architecture == world.architecture
}

/// A resolver state `r` that `world` answers with `event`, for a resolution that started with
/// `configured` and `cached`.
pub open spec fn answered_by(
    r: ResolverView,
    event: EventView,
    world: World,
    configured: Option<Seq<char>>,
    cached: Option<Seq<char>>,
) -> bool {
    let os = world.os;
    let a = world.architecture;
    let installing = reaches_install(configured, cached, world);
    &&& r.cached == cached
    &&& match r.phase {
        PhaseView::Start(c) => c == configured && event is Begin,
        PhaseView::AwaitPlatform => configured is None && event == EventView::Platform(os, a),
        PhaseView::AwaitPackageJson(o, b) => configured is None && o == os && b == a
            && event == EventView::PackageJson(world.package_json),
        PhaseView::AwaitRootPath(o) => configured is None && worktree_declares(world) && o == os
            && event == EventView::RootPath(world.root),
        PhaseView::AwaitWhich(o, b) => configured is None && !worktree_declares(world) && o == os && b == a
            && event == EventView::Which(world.which),
        PhaseView::AwaitCachedCheck(o, b, c) => configured is None && !worktree_declares(world)
            && world.which is None && o == os && b == a && cached == Some(c)
            && event == EventView::IsFile(world.cached_is_file),
        PhaseView::AwaitCheckingStatus(o, b) => installing && o == os && b == a && event is StatusSet,
        PhaseView::AwaitRelease(o, b) => installing && o == os && b == a && event == EventView::Release(world.release),
        PhaseView::AwaitInstalledCheck(plan) => installing && plan_of_world(plan, world)
            && event == EventView::IsFile(world.already_installed),
        PhaseView::AwaitDownloadingStatus(plan) => installing && plan_of_world(plan, world)
            && !world.already_installed && event is StatusSet,
        PhaseView::AwaitDownload(plan) => installing && plan_of_world(plan, world)
            && event == EventView::Downloaded(world.download),
        PhaseView::AwaitVerify(plan) => installing && plan_of_world(plan, world)
            && event == EventView::IsFile(world.present_after_download),
        PhaseView::AwaitExecutable(plan) => installing && plan_of_world(plan, world) && plan.os != Os::Windows
            && event == EventView::MadeExecutable(world.make_executable),
        PhaseView::AwaitEntries(plan) => installing && plan_of_world(plan, world)
            && event == EventView::Entries(world.entries),
        PhaseView::AwaitRemoval(plan) => installing && plan_of_world(plan, world) && event is Removed,
        PhaseView::AwaitInstalledStatus(_) => installing && event is StatusSet,
        PhaseView::AwaitFailedStatus(_) => installing && event is StatusSet,
        PhaseView::Finished => false,
    }
}

proof fn lemma_actions_fit(
    r: ResolverView,
    event: EventView,
    world: World,
    configured: Option<Seq<char>>,
    cached: Option<Seq<char>>,
    fuel: nat,
)
    requires
        answered_by(r, event, world, configured, cached),
    ensures
        actions_fit(r, event, world, configured, cached, fuel),
    decreases fuel,
{
    if fuel > 0 {
        let (after, action) = next(r, event);
        if !(action is Finish) {
            lemma_actions_fit(after, answer(world, action), world, configured, cached, (fuel - 1) as nat);
        }
    }
}

/// Law: whatever the answers, a resolution takes each source only when the earlier ones do not
/// apply and does installation work only when none applies; it checks, verifies and makes
/// executable only the executable of the latest release for the machine's operating system
/// (`dprint.exe` on Windows, never made executable there); it downloads only a release that is
/// not installed yet, from the URL of the first asset named for the machine's platform, into
/// that release's directory; it removes exactly the listed downloads of other releases; and it
/// checks only the executable it remembered.
pub proof fn law_actions_fit_the_release(configured: Option<Seq<char>>, cached: Option<Seq<char>>, world: World, fuel: nat)
    ensures
        actions_fit(ResolverView { phase: PhaseView::Start(configured), cached }, EventView::Begin, world, configured, cached, fuel),
{
    lemma_actions_fit(ResolverView { phase: PhaseView::Start(configured), cached }, EventView::Begin, world, configured, cached, fuel);
}

} // verus!
