//! The resolution of the configured-installer layout ([`crate::dprint`]) as a state machine.
//!
//! The caller performs each [`Action`] and feeds back the matching [`Event`]. The resolver
//! looks, in this order, at the configured binary path, at a worktree whose `package.json`
//! depends on the package or whose `deno.json` imports it, at the command on the worktree's
//! `PATH`, and finally installs the latest release: it shows that it checks for an update, uses
//! the release when its executable is already there, and otherwise removes the downloads of other
//! releases from the working directory, shows that it downloads, and downloads the release.

use vstd::prelude::*;
use crate::dprint::{
    config_asset_name_spec, declares_package, deno_json_declares_import, imports_package,
    installed_binary_spec, package_json_declares_dependency, release_dir_spec,
    InstallerConfig,
};
use crate::install::{
    asset_url, debug_format, debug_format_path, debug_text, find_asset_url, path_debug_text, Release,
    ReleaseView,
};
use crate::json::{parse_document, parsed_document};
use crate::paths::{join_path, joined, path_to_command};
use crate::platform::{Architecture, Os};
use crate::resolve::{text_option, text_result, unit_result, InstallStatus, StatusView};
use crate::text::{concat3, has_prefix, same_text, starts_with};

verus! {

/// Outside work the resolver asks for.
pub enum Action {
    /// Report the machine's operating system and architecture: [`Event::Platform`].
    QueryPlatform,
    /// Read this worktree file: [`Event::JsonFile`].
    ReadJsonFile(String),
    /// Report the worktree's root path: [`Event::RootPath`].
    QueryRootPath,
    /// Look the command up on the worktree's `PATH`: [`Event::Which`].
    Which(String),
    /// Fetch the latest stable release with assets of the repository: [`Event::Release`].
    FetchLatestRelease(String),
    /// Show the installation status: [`Event::StatusSet`].
    SetStatus(InstallStatus),
    /// Whether the release's executable is a file: [`Event::IsFile`].
    CheckInstalledBinary(String),
    /// Start listing the working directory: [`Event::Listing`].
    ListEntries,
    /// Report the next entry of the listing: [`Event::Entry`].
    NextEntry,
    /// Whether the entry at this path is a directory: [`Event::Metadata`].
    ReadMetadata(String),
    /// Remove the directory at this path with its contents: [`Event::Removed`].
    RemoveDirectory(String),
    /// Remove the file at this path: [`Event::Removed`].
    RemoveFile(String),
    /// Download and unpack the zip at `url` into `directory`: [`Event::Downloaded`].
    Download { url: String, directory: String },
    /// Resolution is over: the command to launch, or the error.
    Finish(Result<String, String>),
}

/// The answer to the last [`Action`].
pub enum Event {
    /// Starts the resolution.
    Begin,
    Platform(Os, Architecture),
    /// The text of the file, or nothing when it cannot be read.
    JsonFile(Option<String>),
    RootPath(String),
    Which(Option<String>),
    Release(Result<Release, String>),
    StatusSet,
    IsFile(bool),
    Listing(Result<(), String>),
    /// The next entry: nothing at the end of the listing; an error when the entry could not be
    /// loaded; its name, or nothing when the name is not UTF-8.
    Entry(Option<Result<Option<String>, String>>),
    /// Whether the entry is a directory, or the error.
    Metadata(Result<bool, String>),
    Removed(Result<(), String>),
    Downloaded(Result<(), String>),
}

/// [`Action`] as values.
pub enum ActionView {
    QueryPlatform,
    ReadJsonFile(Seq<char>),
    QueryRootPath,
    Which(Seq<char>),
    FetchLatestRelease(Seq<char>),
    SetStatus(StatusView),
    CheckInstalledBinary(Seq<char>),
    ListEntries,
    NextEntry,
    ReadMetadata(Seq<char>),
    RemoveDirectory(Seq<char>),
    RemoveFile(Seq<char>),
    Download { url: Seq<char>, directory: Seq<char> },
    Finish(Result<Seq<char>, Seq<char>>),
}

/// [`Event`] as values.
pub enum EventView {
    Begin,
    Platform(Os, Architecture),
    JsonFile(Option<Seq<char>>),
    RootPath(Seq<char>),
    Which(Option<Seq<char>>),
    Release(Result<ReleaseView, Seq<char>>),
    StatusSet,
    IsFile(bool),
    Listing(Result<(), Seq<char>>),
    Entry(Option<Result<Option<Seq<char>>, Seq<char>>>),
    Metadata(Result<bool, Seq<char>>),
    Removed(Result<(), Seq<char>>),
    Downloaded(Result<(), Seq<char>>),
}

impl View for Action {
    type V = ActionView;

    open spec fn view(&self) -> ActionView {
        match self {
            Action::QueryPlatform => ActionView::QueryPlatform,
            Action::ReadJsonFile(p) => ActionView::ReadJsonFile(p@),
            Action::QueryRootPath => ActionView::QueryRootPath,
            Action::Which(n) => ActionView::Which(n@),
            Action::FetchLatestRelease(r) => ActionView::FetchLatestRelease(r@),
            Action::SetStatus(s) => ActionView::SetStatus(s@),
            Action::CheckInstalledBinary(p) => ActionView::CheckInstalledBinary(p@),
            Action::ListEntries => ActionView::ListEntries,
            Action::NextEntry => ActionView::NextEntry,
            Action::ReadMetadata(p) => ActionView::ReadMetadata(p@),
            Action::RemoveDirectory(p) => ActionView::RemoveDirectory(p@),
            Action::RemoveFile(p) => ActionView::RemoveFile(p@),
            Action::Download { url, directory } => ActionView::Download {
                url: url@,
                directory: directory@,
            },
            Action::Finish(r) => ActionView::Finish(text_result(*r)),
        }
    }
}

impl View for Event {
    type V = EventView;

    open spec fn view(&self) -> EventView {
        match self {
            Event::Begin => EventView::Begin,
            Event::Platform(os, a) => EventView::Platform(*os, *a),
            Event::JsonFile(text) => EventView::JsonFile(text_option(*text)),
            Event::RootPath(p) => EventView::RootPath(p@),
            Event::Which(found) => EventView::Which(text_option(*found)),
            Event::Release(r) => EventView::Release(
                match r {
                    Ok(release) => Ok(release@),
                    Err(e) => Err(e@),
                },
            ),
            Event::StatusSet => EventView::StatusSet,
            Event::IsFile(b) => EventView::IsFile(*b),
            Event::Listing(r) => EventView::Listing(unit_result(*r)),
            Event::Entry(entry) => EventView::Entry(
                match entry {
                    None => None,
                    Some(Err(e)) => Some(Err(e@)),
                    Some(Ok(name)) => Some(Ok(text_option(*name))),
                },
            ),
            Event::Metadata(r) => EventView::Metadata(
                match r {
                    Ok(is_dir) => Ok(*is_dir),
                    Err(e) => Err(e@),
                },
            ),
            Event::Removed(r) => EventView::Removed(unit_result(*r)),
            Event::Downloaded(r) => EventView::Downloaded(unit_result(*r)),
        }
    }
}

/// The text settings of an [`InstallerConfig`].
pub struct ConfigView {
    pub github_repo: Seq<char>,
    pub release_folder_prefix: Seq<char>,
    pub binary_basename: Seq<char>,
    pub worktree_binary_path: Seq<char>,
    pub windows_worktree_binary_path: Seq<char>,
    pub node_package_name: Seq<char>,
}

impl View for InstallerConfig {
    type V = ConfigView;

    open spec fn view(&self) -> ConfigView {
        ConfigView {
            github_repo: self.auto_installer.github_repo@,
            release_folder_prefix: self.auto_installer.release_folder_prefix@,
            binary_basename: self.worktree.binary_basename@,
            worktree_binary_path: self.worktree.worktree_binary_path@,
            windows_worktree_binary_path: self.worktree.windows_worktree_binary_path@,
            node_package_name: self.worktree.node_package_name@,
        }
    }
}

/// A release being installed on a platform.
struct Plan {
    release: Release,
    os: Os,
    architecture: Architecture,
}

/// [`Plan`] as values.
pub struct PlanView {
    pub release: ReleaseView,
    pub os: Os,
    pub architecture: Architecture,
}

impl View for Plan {
    type V = PlanView;

    closed spec fn view(&self) -> PlanView {
        PlanView { release: self.release@, os: self.os, architecture: self.architecture }
    }
}

/// Where the resolution stands: which answer it waits for.
enum Phase {
    Start(Option<String>),
    AwaitPlatform,
    AwaitPackageJson(Os, Architecture),
    AwaitDenoJson(Os, Architecture),
    AwaitRootPath(Os),
    AwaitWhich(Os, Architecture),
    AwaitRelease(Os, Architecture),
    AwaitCheckingStatus(Plan),
    AwaitInstalledCheck(Plan),
    AwaitListing(Plan),
    AwaitEntry(Plan),
    AwaitMetadata(Plan, String),
    AwaitRemoval(Plan, String, bool),
    AwaitDownloadingStatus(Plan),
    AwaitDownload(Plan),
    Finished,
}

/// Where the resolution stands: which answer it waits for.
pub enum PhaseView {
    Start(Option<Seq<char>>),
    AwaitPlatform,
    AwaitPackageJson(Os, Architecture),
    AwaitDenoJson(Os, Architecture),
    AwaitRootPath(Os),
    AwaitWhich(Os, Architecture),
    AwaitRelease(Os, Architecture),
    AwaitCheckingStatus(PlanView),
    AwaitInstalledCheck(PlanView),
    AwaitListing(PlanView),
    AwaitEntry(PlanView),
    /// Waiting for the metadata of the stale entry with this name.
    AwaitMetadata(PlanView, Seq<char>),
    /// Waiting for the removal of the stale entry with this name; whether it is a directory.
    AwaitRemoval(PlanView, Seq<char>, bool),
    AwaitDownloadingStatus(PlanView),
    AwaitDownload(PlanView),
    Finished,
}

impl View for Phase {
    type V = PhaseView;

    closed spec fn view(&self) -> PhaseView {
        match self {
            Phase::Start(c) => PhaseView::Start(text_option(*c)),
            Phase::AwaitPlatform => PhaseView::AwaitPlatform,
            Phase::AwaitPackageJson(os, a) => PhaseView::AwaitPackageJson(*os, *a),
            Phase::AwaitDenoJson(os, a) => PhaseView::AwaitDenoJson(*os, *a),
            Phase::AwaitRootPath(os) => PhaseView::AwaitRootPath(*os),
            Phase::AwaitWhich(os, a) => PhaseView::AwaitWhich(*os, *a),
            Phase::AwaitRelease(os, a) => PhaseView::AwaitRelease(*os, *a),
            Phase::AwaitCheckingStatus(p) => PhaseView::AwaitCheckingStatus(p@),
            Phase::AwaitInstalledCheck(p) => PhaseView::AwaitInstalledCheck(p@),
            Phase::AwaitListing(p) => PhaseView::AwaitListing(p@),
            Phase::AwaitEntry(p) => PhaseView::AwaitEntry(p@),
            Phase::AwaitMetadata(p, name) => PhaseView::AwaitMetadata(p@, name@),
            Phase::AwaitRemoval(p, name, is_dir) => PhaseView::AwaitRemoval(p@, name@, *is_dir),
            Phase::AwaitDownloadingStatus(p) => PhaseView::AwaitDownloadingStatus(p@),
            Phase::AwaitDownload(p) => PhaseView::AwaitDownload(p@),
            Phase::Finished => PhaseView::Finished,
        }
    }
}

/// Resolves the command to launch for an [`InstallerConfig`], one outside answer at a time.
pub struct Resolver {
    config: InstallerConfig,
    phase: Phase,
}

/// [`Resolver`] as values.
pub struct ResolverView {
    pub config: ConfigView,
    pub phase: PhaseView,
}

impl View for Resolver {
    type V = ResolverView;

    closed spec fn view(&self) -> ResolverView {
        ResolverView { config: self.config@, phase: self.phase@ }
    }
}

/// Whether `event` answers what a resolver in `phase` waits for.
pub open spec fn awaits(phase: PhaseView, event: EventView) -> bool {
    match phase {
        PhaseView::Start(_) => event is Begin,
        PhaseView::AwaitPlatform => event is Platform,
        PhaseView::AwaitPackageJson(_, _) => event is JsonFile,
        PhaseView::AwaitDenoJson(_, _) => event is JsonFile,
        PhaseView::AwaitRootPath(_) => event is RootPath,
        PhaseView::AwaitWhich(_, _) => event is Which,
        PhaseView::AwaitRelease(_, _) => event is Release,
        PhaseView::AwaitCheckingStatus(_) => event is StatusSet,
        PhaseView::AwaitInstalledCheck(_) => event is IsFile,
        PhaseView::AwaitListing(_) => event is Listing,
        PhaseView::AwaitEntry(_) => event is Entry,
        PhaseView::AwaitMetadata(_, _) => event is Metadata,
        PhaseView::AwaitRemoval(_, _, _) => event is Removed,
        PhaseView::AwaitDownloadingStatus(_) => event is StatusSet,
        PhaseView::AwaitDownload(_) => event is Downloaded,
        PhaseView::Finished => false,
    }
}

/// The directory of the release of `plan`.
pub open spec fn plan_directory(config: ConfigView, plan: PlanView) -> Seq<char> {
    release_dir_spec(config.release_folder_prefix, plan.release.version)
}

/// The executable of the release of `plan`.
pub open spec fn plan_binary(config: ConfigView, plan: PlanView) -> Seq<char> {
    installed_binary_spec(config.release_folder_prefix, plan.release.version, plan.os)
}

/// The path of the working-directory entry named `name`.
pub open spec fn entry_path(name: Seq<char>) -> Seq<char> {
    joined("."@, name)
}

/// The entry named `name` holds the download of another release than the one of `plan`.
pub open spec fn is_stale(config: ConfigView, plan: PlanView, name: Seq<char>) -> bool {
    name != plan_directory(config, plan) && starts_with(name, config.release_folder_prefix)
}

/// The error for a working directory that cannot be listed.
pub open spec fn list_failed_message(error: Seq<char>) -> Seq<char> {
    "failed to list working directory: "@ + error
}

/// The error for an entry that cannot be loaded.
pub open spec fn entry_failed_message(error: Seq<char>) -> Seq<char> {
    "failed to load directory entry: "@ + error
}

/// The error for an entry whose metadata cannot be read.
pub open spec fn stat_failed_message(path: Seq<char>, error: Seq<char>) -> Seq<char> {
    "failed to stat "@ + path_debug_text(path) + ": "@ + error
}

/// The error for an entry that cannot be removed.
pub open spec fn remove_failed_message(is_dir: bool, path: Seq<char>, error: Seq<char>) -> Seq<char> {
    (if is_dir { "failed to remove directory "@ } else { "failed to remove file "@ }) + path_debug_text(path) + ": "@
        + error
}

/// The error for a release without an asset for this platform.
pub open spec fn no_compatible_asset_message(asset_name: Seq<char>) -> Seq<char> {
    "no compatible asset found for "@ + debug_text(asset_name)
}

/// One step of the resolution: the next state and the next action, given the answer `event`.
pub open spec fn next(r: ResolverView, event: EventView) -> (ResolverView, ActionView) {
    let config = r.config;
    let with = |phase: PhaseView| ResolverView { config, phase };
    let done = |result: Result<Seq<char>, Seq<char>>| (with(PhaseView::Finished), ActionView::Finish(result));
    match r.phase {
        PhaseView::Start(configured) => match configured {
            Some(path) => done(Ok(path)),
            None => (with(PhaseView::AwaitPlatform), ActionView::QueryPlatform),
        },
        PhaseView::AwaitPlatform => match event {
            EventView::Platform(os, a) => (with(PhaseView::AwaitPackageJson(os, a)), ActionView::ReadJsonFile("package.json"@)),
            _ => (r, ActionView::QueryPlatform),
        },
        PhaseView::AwaitPackageJson(os, a) => match event {
            EventView::JsonFile(text) => if parsed_document(text) matches Some(d) && declares_package(d, config.node_package_name) {
                (with(PhaseView::AwaitRootPath(os)), ActionView::QueryRootPath)
            } else {
                (with(PhaseView::AwaitDenoJson(os, a)), ActionView::ReadJsonFile("deno.json"@))
            },
            _ => (r, ActionView::ReadJsonFile("package.json"@)),
        },
        PhaseView::AwaitDenoJson(os, a) => match event {
            EventView::JsonFile(text) => if parsed_document(text) matches Some(d) && imports_package(d, config.node_package_name) {
                (with(PhaseView::AwaitRootPath(os)), ActionView::QueryRootPath)
            } else {
                (with(PhaseView::AwaitWhich(os, a)), ActionView::Which(config.binary_basename))
            },
            _ => (r, ActionView::ReadJsonFile("deno.json"@)),
        },
        PhaseView::AwaitRootPath(os) => match event {
            EventView::RootPath(root) => done(
                Ok(joined(
                    root,
                    match os {
                        Os::Windows => config.windows_worktree_binary_path,
                        Os::Mac | Os::Linux => config.worktree_binary_path,
                    },
                )),
            ),
            _ => (r, ActionView::QueryRootPath),
        },
        PhaseView::AwaitWhich(os, a) => match event {
            EventView::Which(Some(path)) => done(Ok(path)),
            _ => (with(PhaseView::AwaitRelease(os, a)), ActionView::FetchLatestRelease(config.github_repo)),
        },
        PhaseView::AwaitRelease(os, a) => match event {
            EventView::Release(Ok(release)) => (
                with(PhaseView::AwaitCheckingStatus(PlanView { release, os, architecture: a })),
                ActionView::SetStatus(StatusView::CheckingForUpdate),
            ),
            EventView::Release(Err(e)) => done(Err(e)),
            _ => (r, ActionView::FetchLatestRelease(config.github_repo)),
        },
        PhaseView::AwaitCheckingStatus(plan) => (
            with(PhaseView::AwaitInstalledCheck(plan)),
            ActionView::CheckInstalledBinary(plan_binary(config, plan)),
        ),
        PhaseView::AwaitInstalledCheck(plan) => match event {
            EventView::IsFile(true) => done(Ok(plan_binary(config, plan))),
            _ => (with(PhaseView::AwaitListing(plan)), ActionView::ListEntries),
        },
        PhaseView::AwaitListing(plan) => match event {
            EventView::Listing(Err(e)) => done(Err(list_failed_message(e))),
            _ => (with(PhaseView::AwaitEntry(plan)), ActionView::NextEntry),
        },
        PhaseView::AwaitEntry(plan) => match event {
            EventView::Entry(None) => (with(PhaseView::AwaitDownloadingStatus(plan)), ActionView::SetStatus(StatusView::Downloading)),
            EventView::Entry(Some(Err(e))) => done(Err(entry_failed_message(e))),
            EventView::Entry(Some(Ok(Some(name)))) => if is_stale(config, plan, name) {
                (with(PhaseView::AwaitMetadata(plan, name)), ActionView::ReadMetadata(entry_path(name)))
            } else {
                (with(PhaseView::AwaitEntry(plan)), ActionView::NextEntry)
            },
            _ => (with(PhaseView::AwaitEntry(plan)), ActionView::NextEntry),
        },
        PhaseView::AwaitMetadata(plan, name) => match event {
            EventView::Metadata(Err(e)) => done(Err(stat_failed_message(entry_path(name), e))),
            EventView::Metadata(Ok(true)) => (with(PhaseView::AwaitRemoval(plan, name, true)), ActionView::RemoveDirectory(entry_path(name))),
            _ => (with(PhaseView::AwaitRemoval(plan, name, false)), ActionView::RemoveFile(entry_path(name))),
        },
        PhaseView::AwaitRemoval(plan, name, is_dir) => match event {
            EventView::Removed(Err(e)) => done(Err(remove_failed_message(is_dir, entry_path(name), e))),
            _ => (with(PhaseView::AwaitEntry(plan)), ActionView::NextEntry),
        },
        PhaseView::AwaitDownloadingStatus(plan) => match config_asset_name_spec(plan.architecture, plan.os) {
            Err(e) => done(Err(e)),
            Ok(name) => match asset_url(plan.release.assets, name) {
                None => done(Err(no_compatible_asset_message(name))),
                Some(url) => (
                    with(PhaseView::AwaitDownload(plan)),
                    ActionView::Download { url, directory: plan_directory(config, plan) },
                ),
            },
        },
        PhaseView::AwaitDownload(plan) => match event {
            EventView::Downloaded(Err(e)) => done(Err(e)),
            _ => done(Ok(plan_binary(config, plan))),
        },
        PhaseView::Finished => (r, ActionView::Finish(Err(Seq::empty()))),
    }
}


/// `failed to list working directory: <error>`.
fn list_failed_error(error: &str) -> (res: String)
    ensures
        res@ == list_failed_message(error@),
{
    let mut message = String::from_str("failed to list working directory: ");
    message.append(error);
    message
}

/// `failed to load directory entry: <error>`.
fn entry_failed_error(error: &str) -> (res: String)
    ensures
        res@ == entry_failed_message(error@),
{
    let mut message = String::from_str("failed to load directory entry: ");
    message.append(error);
    message
}

/// `failed to stat <path:?>: <error>`.
fn stat_failed_error(path: &str, error: &str) -> (res: String)
    ensures
        res@ == stat_failed_message(path@, error@),
{
    let quoted = debug_format_path(path);
    let mut message = concat3("failed to stat ", quoted.as_str(), ": ");
    message.append(error);
    message
}

/// `failed to remove directory <path:?>: <error>` or `failed to remove file <path:?>: <error>`.
fn remove_failed_error(is_dir: bool, path: &str, error: &str) -> (res: String)
    ensures
        res@ == remove_failed_message(is_dir, path@, error@),
{
    let quoted = debug_format_path(path);
    let lead = if is_dir { "failed to remove directory " } else { "failed to remove file " };
    let mut message = concat3(lead, quoted.as_str(), ": ");
    message.append(error);
    message
}

/// `no compatible asset found for <asset_name:?>`.
fn no_compatible_asset_error(asset_name: &str) -> (res: String)
    ensures
        res@ == no_compatible_asset_message(asset_name@),
{
    let quoted = debug_format(asset_name);
    let mut message = String::from_str("no compatible asset found for ");
    message.append(quoted.as_str());
    message
}

impl Resolver {
    /// A resolver that installs according to `config`, for a language server whose settings
    /// configure `configured_path`.
    pub fn new(config: InstallerConfig, configured_path: Option<String>) -> (res: Resolver)
        ensures
            res@ == (ResolverView { config: config@, phase: PhaseView::Start(text_option(configured_path)) }),
    {
        Resolver { config, phase: Phase::Start(configured_path) }
    }

    /// Whether `event` answers the action this resolver returned last.
    pub fn accepts(&self, event: &Event) -> (res: bool)
        ensures
            res == awaits(self@.phase, event@),
    {
        match (&self.phase, event) {
            (Phase::Start(_), Event::Begin) => true,
            (Phase::AwaitPlatform, Event::Platform(_, _)) => true,
            (Phase::AwaitPackageJson(_, _), Event::JsonFile(_)) => true,
            (Phase::AwaitDenoJson(_, _), Event::JsonFile(_)) => true,
            (Phase::AwaitRootPath(_), Event::RootPath(_)) => true,
            (Phase::AwaitWhich(_, _), Event::Which(_)) => true,
            (Phase::AwaitRelease(_, _), Event::Release(_)) => true,
            (Phase::AwaitCheckingStatus(_), Event::StatusSet) => true,
            (Phase::AwaitInstalledCheck(_), Event::IsFile(_)) => true,
            (Phase::AwaitListing(_), Event::Listing(_)) => true,
            (Phase::AwaitEntry(_), Event::Entry(_)) => true,
            (Phase::AwaitMetadata(_, _), Event::Metadata(_)) => true,
            (Phase::AwaitRemoval(_, _, _), Event::Removed(_)) => true,
            (Phase::AwaitDownloadingStatus(_), Event::StatusSet) => true,
            (Phase::AwaitDownload(_), Event::Downloaded(_)) => true,
            _ => false,
        }
    }

    /// Whether the resolution is over.
    pub fn is_finished(&self) -> (res: bool)
        ensures
            res == (self@.phase is Finished),
    {
        matches!(self.phase, Phase::Finished)
    }

    fn plan_binary_path(&self, plan: &Plan) -> (res: String)
        ensures
            res@ == plan_binary(self@.config, plan@),
    {
        self.config.auto_installer.binary_path(plan.release.version.as_str(), plan.os)
    }

    fn plan_directory(&self, plan: &Plan) -> (res: String)
        ensures
            res@ == plan_directory(self@.config, plan@),
    {
        self.config.auto_installer.release_dir_name(plan.release.version.as_str())
    }

    /// Takes the answer to the last action and returns the next action.
    pub fn step(&mut self, event: Event) -> (action: Action)
        requires
            awaits(old(self)@.phase, event@),
        ensures
            (final(self)@, action@) == next(old(self)@, event@),
    {
        let mut phase = Phase::Finished;
        std::mem::swap(&mut phase, &mut self.phase);
        match phase {
            Phase::Start(configured) => match configured {
                Some(path) => Action::Finish(Ok(path)),
                None => {
                    self.phase = Phase::AwaitPlatform;
                    Action::QueryPlatform
                },
            },
            Phase::AwaitPlatform => match event {
                Event::Platform(os, architecture) => {
                    self.phase = Phase::AwaitPackageJson(os, architecture);
                    Action::ReadJsonFile(String::from_str("package.json"))
                },
                _ => unreached(),
            },
            Phase::AwaitPackageJson(os, architecture) => match event {
                Event::JsonFile(text) => {
                    let doc = parse_document(&text);
                    let declares = match &doc {
                        Some(json) => package_json_declares_dependency(json, self.config.worktree.node_package_name),
                        None => false,
                    };
                    if declares {
                        self.phase = Phase::AwaitRootPath(os);
                        Action::QueryRootPath
                    } else {
                        self.phase = Phase::AwaitDenoJson(os, architecture);
                        Action::ReadJsonFile(String::from_str("deno.json"))
                    }
                },
                _ => unreached(),
            },
            Phase::AwaitDenoJson(os, architecture) => match event {
                Event::JsonFile(text) => {
                    let doc = parse_document(&text);
                    let imports = match &doc {
                        Some(json) => deno_json_declares_import(json, self.config.worktree.node_package_name),
                        None => false,
                    };
                    if imports {
                        self.phase = Phase::AwaitRootPath(os);
                        Action::QueryRootPath
                    } else {
                        self.phase = Phase::AwaitWhich(os, architecture);
                        Action::Which(String::from_str(self.config.worktree.binary_basename))
                    }
                },
                _ => unreached(),
            },
            Phase::AwaitRootPath(os) => match event {
                Event::RootPath(root) => {
                    let path = join_path(root.as_str(), self.config.worktree.binary_path(os));
                    Action::Finish(path_to_command(path.as_str()))
                },
                _ => unreached(),
            },
            Phase::AwaitWhich(os, architecture) => match event {
                Event::Which(Some(path)) => Action::Finish(Ok(path)),
                _ => {
                    self.phase = Phase::AwaitRelease(os, architecture);
                    Action::FetchLatestRelease(String::from_str(self.config.auto_installer.github_repo))
                },
            },
            Phase::AwaitRelease(os, architecture) => match event {
                Event::Release(Ok(release)) => {
                    self.phase = Phase::AwaitCheckingStatus(Plan { release, os, architecture });
                    Action::SetStatus(InstallStatus::CheckingForUpdate)
                },
                Event::Release(Err(error)) => Action::Finish(Err(error)),
                _ => unreached(),
            },
            Phase::AwaitCheckingStatus(plan) => {
                let path = self.plan_binary_path(&plan);
                self.phase = Phase::AwaitInstalledCheck(plan);
                Action::CheckInstalledBinary(path)
            },
            Phase::AwaitInstalledCheck(plan) => match event {
                Event::IsFile(true) => {
                    let path = self.plan_binary_path(&plan);
                    Action::Finish(path_to_command(path.as_str()))
                },
                _ => {
                    self.phase = Phase::AwaitListing(plan);
                    Action::ListEntries
                },
            },
            Phase::AwaitListing(plan) => match event {
                Event::Listing(Err(error)) => Action::Finish(Err(list_failed_error(error.as_str()))),
                _ => {
                    self.phase = Phase::AwaitEntry(plan);
                    Action::NextEntry
                },
            },
            Phase::AwaitEntry(plan) => match event {
                Event::Entry(None) => {
                    self.phase = Phase::AwaitDownloadingStatus(plan);
                    Action::SetStatus(InstallStatus::Downloading)
                },
                Event::Entry(Some(Err(error))) => Action::Finish(Err(entry_failed_error(error.as_str()))),
                Event::Entry(Some(Ok(Some(name)))) => {
                    let directory = self.plan_directory(&plan);
                    let stale = !same_text(name.as_str(), directory.as_str())
                        && has_prefix(name.as_str(), self.config.auto_installer.release_folder_prefix);
                    if stale {
                        let path = join_path(".", name.as_str());
                        self.phase = Phase::AwaitMetadata(plan, name);
                        Action::ReadMetadata(path)
                    } else {
                        self.phase = Phase::AwaitEntry(plan);
                        Action::NextEntry
                    }
                },
                _ => {
                    self.phase = Phase::AwaitEntry(plan);
                    Action::NextEntry
                },
            },
            Phase::AwaitMetadata(plan, name) => {
                let path = join_path(".", name.as_str());
                match event {
                    Event::Metadata(Err(error)) => Action::Finish(Err(stat_failed_error(path.as_str(), error.as_str()))),
                    Event::Metadata(Ok(true)) => {
                        self.phase = Phase::AwaitRemoval(plan, name, true);
                        Action::RemoveDirectory(path)
                    },
                    _ => {
                        self.phase = Phase::AwaitRemoval(plan, name, false);
                        Action::RemoveFile(path)
                    },
                }
            },
            Phase::AwaitRemoval(plan, name, is_dir) => match event {
                Event::Removed(Err(error)) => {
                    let path = join_path(".", name.as_str());
                    Action::Finish(Err(remove_failed_error(is_dir, path.as_str(), error.as_str())))
                },
                _ => {
                    self.phase = Phase::AwaitEntry(plan);
                    Action::NextEntry
                },
            },
            Phase::AwaitDownloadingStatus(plan) => match self.config.auto_installer.asset_name(plan.architecture, plan.os) {
                Err(error) => Action::Finish(Err(error)),
                Ok(name) => match find_asset_url(&plan.release.assets, name.as_str()) {
                    None => Action::Finish(Err(no_compatible_asset_error(name.as_str()))),
                    Some(url) => {
                        let directory = self.plan_directory(&plan);
                        self.phase = Phase::AwaitDownload(plan);
                        Action::Download { url, directory }
                    },
                },
            },
            Phase::AwaitDownload(plan) => match event {
                Event::Downloaded(Err(error)) => Action::Finish(Err(error)),
                _ => {
                    let path = self.plan_binary_path(&plan);
                    Action::Finish(path_to_command(path.as_str()))
                },
            },
            Phase::Finished => unreached(),
        }
    }
}


/// A resolver state that waits for the metadata or the removal of an entry waits for a stale one.
pub open spec fn holds_stale_entry(r: ResolverView) -> bool {
    match r.phase {
        PhaseView::AwaitMetadata(plan, name) => is_stale(r.config, plan, name),
        PhaseView::AwaitRemoval(plan, name, _) => is_stale(r.config, plan, name),
        _ => true,
    }
}

/// Law: the resolver inspects and removes only working-directory entries that hold downloads of
/// other releases than the one being installed; every step keeps this so.
pub proof fn law_removes_only_stale_entries(r: ResolverView, event: EventView)
    requires
        holds_stale_entry(r),
    ensures
        holds_stale_entry(next(r, event).0),
        match next(r, event).1 {
            ActionView::ReadMetadata(path) => r.phase matches PhaseView::AwaitEntry(plan)
                && event matches EventView::Entry(Some(Ok(Some(name))))
                && path == entry_path(name) && is_stale(r.config, plan, name),
            ActionView::RemoveDirectory(path) | ActionView::RemoveFile(path) =>
                r.phase matches PhaseView::AwaitMetadata(plan, name)
                && path == entry_path(name) && is_stale(r.config, plan, name),
            _ => true,
        },
{
}

/// The answers a working-directory entry gives: the entry itself, whether it is a directory,
/// and what removing it gives.
pub struct EntryWorld {
    pub entry: Result<Option<Seq<char>>, Seq<char>>,
    pub is_dir: Result<bool, Seq<char>>,
    pub removal: Result<(), Seq<char>>,
}

/// The outside world as a resolution sees it.
pub struct World {
    pub os: Os,
    pub architecture: Architecture,
    /// The text of `package.json`, if it can be read.
    pub package_json: Option<Seq<char>>,
    /// The text of `deno.json`, if it can be read.
    pub deno_json: Option<Seq<char>>,
    pub root: Seq<char>,
    pub which: Option<Seq<char>>,
    pub release: Result<ReleaseView, Seq<char>>,
    pub already_installed: bool,
    pub listing: Result<(), Seq<char>>,
    pub entries: Seq<EntryWorld>,
    pub download: Result<(), Seq<char>>,
}

/// The event answering `NextEntry` when `cursor` entries have been reported.
pub open spec fn entry_event(world: World, cursor: nat) -> EventView {
    if cursor < world.entries.len() {
        EventView::Entry(Some(world.entries[cursor as int].entry))
    } else {
        EventView::Entry(None)
    }
}

/// The number of entries reported once `NextEntry` is answered after `cursor` of them.
pub open spec fn entry_cursor(world: World, cursor: nat) -> nat {
    if cursor < world.entries.len() {
        (cursor + 1) as nat
    } else {
        cursor
    }
}

/// The answer `world` gives to `action`, asked from `phase` after `cursor` entries were reported,
/// and the number of entries reported afterwards.
pub open spec fn answer(world: World, phase: PhaseView, action: ActionView, cursor: nat) -> (EventView, nat) {
    match action {
        ActionView::QueryPlatform => (EventView::Platform(world.os, world.architecture), cursor),
        ActionView::ReadJsonFile(_) => (
            EventView::JsonFile(if phase is AwaitPackageJson { world.package_json } else { world.deno_json }),
            cursor,
        ),
        ActionView::QueryRootPath => (EventView::RootPath(world.root), cursor),
        ActionView::Which(_) => (EventView::Which(world.which), cursor),
        ActionView::FetchLatestRelease(_) => (EventView::Release(world.release), cursor),
        ActionView::SetStatus(_) => (EventView::StatusSet, cursor),
        ActionView::CheckInstalledBinary(_) => (EventView::IsFile(world.already_installed), cursor),
        ActionView::ListEntries => (EventView::Listing(world.listing), cursor),
        ActionView::NextEntry => (entry_event(world, cursor), entry_cursor(world, cursor)),
        ActionView::ReadMetadata(_) => (EventView::Metadata(world.entries[cursor - 1].is_dir), cursor),
        ActionView::RemoveDirectory(_) => (EventView::Removed(world.entries[cursor - 1].removal), cursor),
        ActionView::RemoveFile(_) => (EventView::Removed(world.entries[cursor - 1].removal), cursor),
        ActionView::Download { .. } => (EventView::Downloaded(world.download), cursor),
        ActionView::Finish(_) => (EventView::Begin, cursor),
    }
}

/// The result once a resolution in state `r`, answered by `world`, finishes within `fuel` steps.
pub open spec fn run(r: ResolverView, event: EventView, world: World, cursor: nat, fuel: nat) -> Option<Result<Seq<char>, Seq<char>>>
    decreases fuel,
{
    if fuel == 0 {
        None
    } else {
        let (after, action) = next(r, event);
        match action {
            ActionView::Finish(result) => Some(result),
            _ => {
                let (e, c) = answer(world, after.phase, action, cursor);
                run(after, e, world, c, (fuel - 1) as nat)
            },
        }
    }
}

/// What removing the downloads of other releases gives, entry by entry: the first error.
pub open spec fn cleanup_outcome(config: ConfigView, plan: PlanView, entries: Seq<EntryWorld>) -> Result<(), Seq<char>>
    decreases entries.len(),
{
    if entries.len() == 0 {
        Ok(())
    } else {
        let first = entries[0];
        let here: Result<(), Seq<char>> = match first.entry {
            Err(e) => Err(entry_failed_message(e)),
            Ok(None) => Ok(()),
            Ok(Some(name)) => if !is_stale(config, plan, name) {
                Ok(())
            } else {
                match first.is_dir {
                    Err(e) => Err(stat_failed_message(entry_path(name), e)),
                    Ok(is_dir) => match first.removal {
                        Err(e) => Err(remove_failed_message(is_dir, entry_path(name), e)),
                        Ok(()) => Ok(()),
                    },
                }
            },
        };
        match here {
            Err(e) => Err(e),
            Ok(()) => cleanup_outcome(config, plan, entries.drop_first()),
        }
    }
}

/// What downloading the release of `plan` gives: its executable, or the error.
pub open spec fn download_outcome(config: ConfigView, plan: PlanView, world: World) -> Result<Seq<char>, Seq<char>> {
    match config_asset_name_spec(plan.architecture, plan.os) {
        Err(e) => Err(e),
        Ok(name) => match asset_url(plan.release.assets, name) {
            None => Err(no_compatible_asset_message(name)),
            Some(_) => match world.download {
                Err(e) => Err(e),
                Ok(()) => Ok(plan_binary(config, plan)),
            },
        },
    }
}

/// What installing the latest release gives: its executable when it is already there;
/// otherwise the first error of listing the working directory, of removing the downloads of other
/// releases, or of downloading; or the downloaded executable.
pub open spec fn install_outcome(config: ConfigView, world: World) -> Result<Seq<char>, Seq<char>> {
    match world.release {
        Err(e) => Err(e),
        Ok(release) => {
            let plan = PlanView { release, os: world.os, architecture: world.architecture };
            if world.already_installed {
                Ok(plan_binary(config, plan))
            } else {
                match world.listing {
                    Err(e) => Err(list_failed_message(e)),
                    Ok(()) => match cleanup_outcome(config, plan, world.entries) {
                        Err(e) => Err(e),
                        Ok(()) => download_outcome(config, plan, world),
                    },
                }
            }
        },
    }
}

/// The command a resolution yields: the configured path; else the worktree's command shim when
/// its `package.json` depends on the package or its `deno.json` imports it; else the command on
/// the worktree's `PATH`; else the latest release, installed.
pub open spec fn resolution_outcome(config: ConfigView, configured: Option<Seq<char>>, world: World) -> Result<Seq<char>, Seq<char>> {
    match configured {
        Some(path) => Ok(path),
        None => if (parsed_document(world.package_json) matches Some(d) && declares_package(d, config.node_package_name))
            || (parsed_document(world.deno_json) matches Some(d) && imports_package(d, config.node_package_name)) {
            Ok(joined(
                world.root,
                match world.os {
                    Os::Windows => config.windows_worktree_binary_path,
                    Os::Mac | Os::Linux => config.worktree_binary_path,
                },
            ))
        } else if world.which is Some {
            Ok(world.which->0)
        } else {
            install_outcome(config, world)
        },
    }
}

proof fn lemma_run_download(config: ConfigView, plan: PlanView, world: World, cursor: nat, fuel: nat)
    requires
        fuel >= 3,
    ensures
        run(ResolverView { config, phase: PhaseView::AwaitDownloadingStatus(plan) }, EventView::StatusSet, world, cursor, fuel)
            == Some(download_outcome(config, plan, world)),
{
    let r1 = ResolverView { config, phase: PhaseView::AwaitDownload(plan) };
    let e1 = EventView::Downloaded(world.download);
    assert(run(r1, e1, world, cursor, (fuel - 1) as nat) == Some(match world.download {
        Err(e) => Err(e),
        Ok(()) => Ok::<Seq<char>, Seq<char>>(plan_binary(config, plan)),
    }));
}

/// The end of an installation once the downloads of other releases were removed with `cleanup`.
pub open spec fn after_cleanup(config: ConfigView, plan: PlanView, world: World, cleanup: Result<(), Seq<char>>) -> Result<Seq<char>, Seq<char>> {
    match cleanup {
        Err(e) => Err(e),
        Ok(()) => download_outcome(config, plan, world),
    }
}

proof fn lemma_run_entries(config: ConfigView, plan: PlanView, world: World, cursor: nat, fuel: nat)
    requires
        cursor <= world.entries.len(),
        fuel >= 3 * (world.entries.len() - cursor) + 5,
    ensures
        run(
            ResolverView { config, phase: PhaseView::AwaitEntry(plan) },
            entry_event(world, cursor),
            world,
            entry_cursor(world, cursor),
            fuel,
        ) == Some(after_cleanup(config, plan, world, cleanup_outcome(config, plan, world.entries.skip(cursor as int)))),
    decreases world.entries.len() - cursor,
{
    let r = ResolverView { config, phase: PhaseView::AwaitEntry(plan) };
    let rest = world.entries.skip(cursor as int);
    if cursor == world.entries.len() {
        assert(rest.len() == 0);
        let r1 = ResolverView { config, phase: PhaseView::AwaitDownloadingStatus(plan) };
        lemma_run_download(config, plan, world, cursor, (fuel - 1) as nat);
    } else {
        let c1 = (cursor + 1) as nat;
        let first = world.entries[cursor as int];
        assert(rest[0] == first);
        assert(rest.drop_first() =~= world.entries.skip(c1 as int));
        lemma_run_entries(config, plan, world, c1, (fuel - 1) as nat);
        match first.entry {
            Err(e) => {},
            Ok(None) => {},
            Ok(Some(name)) => if is_stale(config, plan, name) {
                lemma_run_entries(config, plan, world, c1, (fuel - 3) as nat);
                let r1 = ResolverView { config, phase: PhaseView::AwaitMetadata(plan, name) };
                let e1 = EventView::Metadata(first.is_dir);
                match first.is_dir {
                    Err(e) => {},
                    Ok(is_dir) => {
                        let r2 = ResolverView { config, phase: PhaseView::AwaitRemoval(plan, name, is_dir) };
                        let e2 = EventView::Removed(first.removal);
                        assert(run(r2, e2, world, c1, (fuel - 2) as nat)
                            == Some(after_cleanup(config, plan, world, cleanup_outcome(config, plan, rest))));
                    },
                }
                assert(run(r1, e1, world, c1, (fuel - 1) as nat)
                    == Some(after_cleanup(config, plan, world, cleanup_outcome(config, plan, rest))));
            },
        }
    }
}

proof fn lemma_run_install(config: ConfigView, world: World, fuel: nat)
    requires
        fuel >= 3 * world.entries.len() + 10,
    ensures
        run(
            ResolverView { config, phase: PhaseView::AwaitRelease(world.os, world.architecture) },
            EventView::Release(world.release),
            world,
            0,
            fuel,
        ) == Some(install_outcome(config, world)),
{
    if world.release is Ok {
        let plan = PlanView { release: world.release->Ok_0, os: world.os, architecture: world.architecture };
        let r1 = ResolverView { config, phase: PhaseView::AwaitCheckingStatus(plan) };
        let r2 = ResolverView { config, phase: PhaseView::AwaitInstalledCheck(plan) };
        let r3 = ResolverView { config, phase: PhaseView::AwaitListing(plan) };
        if !world.already_installed {
            if world.listing is Ok {
                assert(world.entries.skip(0) =~= world.entries);
                lemma_run_entries(config, plan, world, 0, (fuel - 4) as nat);
            }
            assert(run(r3, EventView::Listing(world.listing), world, 0, (fuel - 3) as nat) == Some(install_outcome(config, world)));
        }
        assert(run(r2, EventView::IsFile(world.already_installed), world, 0, (fuel - 2) as nat) == Some(install_outcome(config, world)));
        assert(run(r1, EventView::StatusSet, world, 0, (fuel - 1) as nat) == Some(install_outcome(config, world)));
    }
}

/// Law: a resolution finishes with the command of `resolution_outcome`, which takes the sources
/// in the documented order, given enough steps for the entries of the working directory.
pub proof fn law_resolution_order(config: ConfigView, configured: Option<Seq<char>>, world: World)
    ensures
        run(
            ResolverView { config, phase: PhaseView::Start(configured) },
            EventView::Begin,
            world,
            0,
            3 * world.entries.len() + 20,
        ) == Some(resolution_outcome(config, configured, world)),
{
    let fuel = 3 * world.entries.len() + 20;
    let expected = Some(resolution_outcome(config, configured, world));
    if configured is None {
        let os = world.os;
        let a = world.architecture;
        let r1 = ResolverView { config, phase: PhaseView::AwaitPlatform };
        let r2 = ResolverView { config, phase: PhaseView::AwaitPackageJson(os, a) };
        let r3 = ResolverView { config, phase: PhaseView::AwaitDenoJson(os, a) };
        let r4 = ResolverView { config, phase: PhaseView::AwaitWhich(os, a) };
        let r5 = ResolverView { config, phase: PhaseView::AwaitRelease(os, a) };
        let rr = ResolverView { config, phase: PhaseView::AwaitRootPath(os) };
        lemma_run_install(config, world, (fuel - 5) as nat);
        assert(run(rr, EventView::RootPath(world.root), world, 0, (fuel - 4) as nat) == Some(Ok::<Seq<char>, Seq<char>>(joined(
            world.root,
            match os {
                Os::Windows => config.windows_worktree_binary_path,
                Os::Mac | Os::Linux => config.worktree_binary_path,
            },
        ))));
        assert(run(rr, EventView::RootPath(world.root), world, 0, (fuel - 3) as nat) == Some(Ok::<Seq<char>, Seq<char>>(joined(
            world.root,
            match os {
                Os::Windows => config.windows_worktree_binary_path,
                Os::Mac | Os::Linux => config.worktree_binary_path,
            },
        ))));
        assert(run(r4, EventView::Which(world.which), world, 0, (fuel - 4) as nat) == if world.which is Some {
            Some(Ok::<Seq<char>, Seq<char>>(world.which->0))
        } else {
            Some(install_outcome(config, world))
        });
        assert(run(r3, EventView::JsonFile(world.deno_json), world, 0, (fuel - 3) as nat) == expected
            || (parsed_document(world.package_json) matches Some(d) && declares_package(d, config.node_package_name)));
        assert(run(r2, EventView::JsonFile(world.package_json), world, 0, (fuel - 2) as nat) == expected);
        assert(run(r1, EventView::Platform(os, a), world, 0, (fuel - 1) as nat) == expected);
    }
}


/// Law: when neither the configured path, nor the worktree's command shim, nor `PATH` applies,
/// a resolution does what installing the latest release does once it is fetched: the same
/// result.
pub proof fn law_fallthrough_installs(config: ConfigView, configured: Option<Seq<char>>, world: World)
    requires
        configured is None,
        !(parsed_document(world.package_json) matches Some(d) && declares_package(d, config.node_package_name)),
        !(parsed_document(world.deno_json) matches Some(d) && imports_package(d, config.node_package_name)),
        world.which is None,
    ensures
        run(
            ResolverView { config, phase: PhaseView::Start(configured) },
            EventView::Begin,
            world,
            0,
            3 * world.entries.len() + 20,
        ) == run(
            ResolverView { config, phase: PhaseView::AwaitRelease(world.os, world.architecture) },
            EventView::Release(world.release),
            world,
            0,
            3 * world.entries.len() + 10,
        ),
{
    law_resolution_order(config, configured, world);
    lemma_run_install(config, world, 3 * world.entries.len() + 10);
}


/// The latest release of `world` on its platform.
pub open spec fn world_plan(world: World) -> PlanView {
    PlanView { release: world.release->Ok_0, os: world.os, architecture: world.architecture }
}

/// The `i`-th listed entry of `world` is a download of another release than the latest one,
/// and `path` is its path.
pub open spec fn stale_entry_at(config: ConfigView, world: World, i: int, path: Seq<char>) -> bool {
    &&& world.release is Ok
    &&& world.entries[i].entry is Ok
    &&& world.entries[i].entry->Ok_0 is Some
    &&& path == entry_path(world.entries[i].entry->Ok_0->0)
    &&& is_stale(config, world_plan(world), world.entries[i].entry->Ok_0->0)
}

/// `world`'s `package.json` lists the configured package as a dependency.
pub open spec fn package_declares(config: ConfigView, world: World) -> bool {
    parsed_document(world.package_json) matches Some(d) && declares_package(d, config.node_package_name)
}

/// `world`'s `deno.json` imports the configured package.
pub open spec fn deno_imports(config: ConfigView, world: World) -> bool {
    parsed_document(world.deno_json) matches Some(d) && imports_package(d, config.node_package_name)
}

/// No earlier source than installing the latest release applies.
pub open spec fn falls_through(config: ConfigView, configured: Option<Seq<char>>, world: World) -> bool {
    configured is None && !package_declares(config, world) && !deno_imports(config, world) && world.which is None
}

/// What `action`, taken right after `previous`, may be in `world` under `config`, for a
/// resolution that started with the configured path `configured`: it reads `deno.json` only when
/// `package.json` does not declare the package, asks for the worktree root only when one of them
/// does, looks up the command on `PATH` only when neither does, and does installation work only
/// when no earlier source applies; the executable it checks is the latest release's for the
/// machine's operating system; it lists, inspects, removes and downloads only when that release
/// is not installed yet; it inspects and removes only listed downloads of other releases, as
/// directories exactly when they are ones; it shows that it checks for an update right after
/// fetching the release and that it downloads right after the listing ended, shows no other
/// status, and downloads only right after showing that, the URL of the first asset named for
/// the machine's platform, into that release's directory.
pub open spec fn action_fits(
    config: ConfigView,
    configured: Option<Seq<char>>,
    previous: ActionView,
    action: ActionView,
    world: World,
) -> bool {
    let installing = falls_through(config, configured, world) && world.release is Ok;
    let fresh = installing && !world.already_installed;
    match action {
        ActionView::QueryPlatform => configured is None,
        ActionView::ReadJsonFile(path) => configured is None
            && (path == "package.json"@ || (path == "deno.json"@ && !package_declares(config, world))),
        ActionView::QueryRootPath => configured is None && (package_declares(config, world) || deno_imports(config, world)),
        ActionView::Which(name) => name == config.binary_basename && configured is None
            && !package_declares(config, world) && !deno_imports(config, world),
        ActionView::FetchLatestRelease(repository) => repository == config.github_repo
            && falls_through(config, configured, world),
        ActionView::CheckInstalledBinary(path) => installing
            && path == installed_binary_spec(config.release_folder_prefix, world.release->Ok_0.version, world.os),
        ActionView::ListEntries => fresh,
        ActionView::NextEntry => fresh && world.listing is Ok,
        ActionView::Download { url, directory } => {
            &&& fresh
            &&& previous == ActionView::SetStatus(StatusView::Downloading)
            &&& config_asset_name_spec(world.architecture, world.os) is Ok
            &&& asset_url(world.release->Ok_0.assets, config_asset_name_spec(world.architecture, world.os)->Ok_0) == Some(url)
            &&& directory == release_dir_spec(config.release_folder_prefix, world.release->Ok_0.version)
        },
        ActionView::ReadMetadata(path) => fresh && exists|i: int|
            0 <= i < world.entries.len() && #[trigger] stale_entry_at(config, world, i, path),
        ActionView::RemoveDirectory(path) => fresh && exists|i: int|
            0 <= i < world.entries.len() && #[trigger] stale_entry_at(config, world, i, path)
                && world.entries[i].is_dir == Ok::<bool, Seq<char>>(true),
        ActionView::RemoveFile(path) => fresh && exists|i: int|
            0 <= i < world.entries.len() && #[trigger] stale_entry_at(config, world, i, path)
                && world.entries[i].is_dir == Ok::<bool, Seq<char>>(false),
        ActionView::SetStatus(StatusView::CheckingForUpdate) => installing && previous is FetchLatestRelease,
        ActionView::SetStatus(StatusView::Downloading) => fresh && world.listing is Ok && previous is NextEntry,
        ActionView::SetStatus(_) => false,
        _ => true,
    }
}

/// Every action a resolution in state `r`, answered by `world` after `cursor` entries were
/// reported and after the action `previous`, takes within `fuel` steps fits (`action_fits`).
pub open spec fn actions_fit(
    r: ResolverView,
    event: EventView,
    world: World,
    configured: Option<Seq<char>>,
    cursor: nat,
    previous: ActionView,
    fuel: nat,
) -> bool
    decreases fuel,
{
    if fuel == 0 {
        true
    } else {
        let (after, action) = next(r, event);
        action_fits(r.config, configured, previous, action, world) && (action is Finish || {
            let (e, c) = answer(world, after.phase, action, cursor);
            actions_fit(after, e, world, configured, c, action, (fuel - 1) as nat)
        })
    }
}

/// A resolver state `r` that `world` answers with `event`, after `cursor` entries were
/// reported and after the action `previous`.
pub open spec fn answered_by(
    r: ResolverView,
    event: EventView,
    world: World,
    configured: Option<Seq<char>>,
    cursor: nat,
    previous: ActionView,
) -> bool {
    let os = world.os;
    let a = world.architecture;
    let config = r.config;
    let installing = falls_through(config, configured, world);
    let plan_ok = |plan: PlanView| installing && world.release is Ok && plan == world_plan(world);
    let fresh = |plan: PlanView| plan_ok(plan) && !world.already_installed;
    &&& cursor <= world.entries.len()
    &&& match r.phase {
        PhaseView::Start(c) => c == configured && event is Begin && cursor == 0,
        PhaseView::AwaitPlatform => configured is None && event == EventView::Platform(os, a) && cursor == 0,
        PhaseView::AwaitPackageJson(o, b) => configured is None && o == os && b == a && cursor == 0
            && event == EventView::JsonFile(world.package_json),
        PhaseView::AwaitDenoJson(o, b) => configured is None && !package_declares(config, world) && o == os && b == a
            && cursor == 0 && event == EventView::JsonFile(world.deno_json),
        PhaseView::AwaitRootPath(o) => configured is None && (package_declares(config, world) || deno_imports(config, world))
            && o == os && event == EventView::RootPath(world.root),
        PhaseView::AwaitWhich(o, b) => configured is None && !package_declares(config, world)
            && !deno_imports(config, world) && o == os && b == a && cursor == 0 && event == EventView::Which(world.which),
        PhaseView::AwaitRelease(o, b) => installing && o == os && b == a && cursor == 0
            && event == EventView::Release(world.release) && previous is FetchLatestRelease,
        PhaseView::AwaitCheckingStatus(plan) => plan_ok(plan) && cursor == 0 && event is StatusSet,
        PhaseView::AwaitInstalledCheck(plan) => plan_ok(plan) && cursor == 0
            && event == EventView::IsFile(world.already_installed),
        PhaseView::AwaitListing(plan) => fresh(plan) && cursor == 0 && event == EventView::Listing(world.listing),
        PhaseView::AwaitEntry(plan) => fresh(plan) && world.listing is Ok && previous is NextEntry && {
            ||| (cursor == world.entries.len() && event == EventView::Entry(None))
            ||| (1 <= cursor && event == EventView::Entry(Some(world.entries[cursor - 1].entry)))
        },
        PhaseView::AwaitMetadata(plan, name) => fresh(plan) && world.listing is Ok && 1 <= cursor
            && world.entries[cursor - 1].entry == Ok::<Option<Seq<char>>, Seq<char>>(Some(name))
            && is_stale(r.config, plan, name)
            && previous == ActionView::ReadMetadata(entry_path(name))
            && event == EventView::Metadata(world.entries[cursor - 1].is_dir),
        PhaseView::AwaitRemoval(plan, name, is_dir) => fresh(plan) && world.listing is Ok && 1 <= cursor
            && world.entries[cursor - 1].entry == Ok::<Option<Seq<char>>, Seq<char>>(Some(name))
            && world.entries[cursor - 1].is_dir == Ok::<bool, Seq<char>>(is_dir)
            && event == EventView::Removed(world.entries[cursor - 1].removal),
        PhaseView::AwaitDownloadingStatus(plan) => fresh(plan) && event is StatusSet
            && previous == ActionView::SetStatus(StatusView::Downloading),
        PhaseView::AwaitDownload(plan) => fresh(plan) && event == EventView::Downloaded(world.download),
        PhaseView::Finished => false,
    }
}

proof fn lemma_actions_fit(
    r: ResolverView,
    event: EventView,
    world: World,
    configured: Option<Seq<char>>,
    cursor: nat,
    previous: ActionView,
    fuel: nat,
)
    requires
        answered_by(r, event, world, configured, cursor, previous),
    ensures
        actions_fit(r, event, world, configured, cursor, previous, fuel),
    decreases fuel,
{
    if fuel > 0 {
        let (after, action) = next(r, event);
        match action {
            ActionView::ReadMetadata(path) => {
                assert(stale_entry_at(r.config, world, cursor - 1, path));
            },
            ActionView::RemoveDirectory(path) => {
                assert(stale_entry_at(r.config, world, cursor - 1, path));
            },
            ActionView::RemoveFile(path) => {
                assert(stale_entry_at(r.config, world, cursor - 1, path));
            },
            _ => {},
        }
        if !(action is Finish) {
            let (e, c) = answer(world, after.phase, action, cursor);
            lemma_actions_fit(after, e, world, configured, c, action, (fuel - 1) as nat);
        }
    }
}

/// Law: whatever the answers, a resolution takes each source only when the earlier ones do not
/// apply and does installation work only when none applies; it checks only the latest release's
/// executable for the machine's operating system (`dprint.exe` on Windows); it lists, inspects,
/// removes and downloads only when that release is not installed yet, inspecting and removing
/// only listed downloads of other releases; it shows "checking for update" right after fetching
/// the release and "downloading" right after the listing ended, no other status, and downloads
/// only right after that, from the URL of the first asset named for the machine's platform, into
/// the release's directory.
pub proof fn law_actions_fit_the_release(config: ConfigView, configured: Option<Seq<char>>, world: World, fuel: nat)
    ensures
        actions_fit(
            ResolverView { config, phase: PhaseView::Start(configured) },
            EventView::Begin,
            world,
            configured,
            0,
            ActionView::QueryPlatform,
            fuel,
        ),
{
    lemma_actions_fit(
        ResolverView { config, phase: PhaseView::Start(configured) },
        EventView::Begin,
        world,
        configured,
        0,
        ActionView::QueryPlatform,
        fuel,
    );
}

/// The installation statuses a resolution in state `r`, answered by `world` after `cursor`
/// entries were reported, shows within `fuel` steps, in order.
pub open spec fn statuses(r: ResolverView, event: EventView, world: World, cursor: nat, fuel: nat) -> Seq<StatusView>
    decreases fuel,
{
    if fuel == 0 {
        Seq::empty()
    } else {
        let (after, action) = next(r, event);
        match action {
            ActionView::Finish(_) => Seq::empty(),
            _ => {
                let (e, c) = answer(world, after.phase, action, cursor);
                let rest = statuses(after, e, world, c, (fuel - 1) as nat);
                match action {
                    ActionView::SetStatus(status) => seq![status] + rest,
                    _ => rest,
                }
            },
        }
    }
}

/// The statuses installing the latest release in `world` shows: none when the release cannot
/// be fetched; otherwise "checking for update", and "downloading" when the release is not
/// installed yet and the downloads of other releases were removed.
pub open spec fn install_statuses(config: ConfigView, world: World) -> Seq<StatusView> {
    match world.release {
        Err(_) => Seq::empty(),
        Ok(_) => seq![StatusView::CheckingForUpdate] + if !world.already_installed && world.listing is Ok
            && cleanup_outcome(config, world_plan(world), world.entries) is Ok {
            seq![StatusView::Downloading]
        } else {
            Seq::empty()
        },
    }
}

proof fn lemma_statuses_download(config: ConfigView, plan: PlanView, world: World, cursor: nat, fuel: nat)
    requires
        fuel >= 1,
    ensures
        statuses(ResolverView { config, phase: PhaseView::AwaitDownloadingStatus(plan) }, EventView::StatusSet, world, cursor, fuel)
            =~= Seq::<StatusView>::empty(),
{
    let r = ResolverView { config, phase: PhaseView::AwaitDownloadingStatus(plan) };
    let r1 = ResolverView { config, phase: PhaseView::AwaitDownload(plan) };
    let (after, action) = next(r, EventView::StatusSet);
    if !(action is Finish) {
        assert(after == r1);
        assert(action is Download);
        assert(answer(world, after.phase, action, cursor) == (EventView::Downloaded(world.download), cursor));
        assert(statuses(r1, EventView::Downloaded(world.download), world, cursor, (fuel - 1) as nat) =~= Seq::<StatusView>::empty());
    }
}

proof fn lemma_statuses_entries(config: ConfigView, plan: PlanView, world: World, cursor: nat, fuel: nat)
    requires
        cursor <= world.entries.len(),
        fuel >= 3 * (world.entries.len() - cursor) + 5,
    ensures
        statuses(
            ResolverView { config, phase: PhaseView::AwaitEntry(plan) },
            entry_event(world, cursor),
            world,
            entry_cursor(world, cursor),
            fuel,
        ) == if cleanup_outcome(config, plan, world.entries.skip(cursor as int)) is Ok {
            seq![StatusView::Downloading]
        } else {
            Seq::empty()
        },
    decreases world.entries.len() - cursor,
{
    let rest = world.entries.skip(cursor as int);
    let expected = if cleanup_outcome(config, plan, rest) is Ok {
        seq![StatusView::Downloading]
    } else {
        Seq::<StatusView>::empty()
    };
    if cursor == world.entries.len() {
        assert(rest.len() == 0);
        lemma_statuses_download(config, plan, world, cursor, (fuel - 1) as nat);
        assert(seq![StatusView::Downloading] + Seq::<StatusView>::empty() =~= seq![StatusView::Downloading]);
    } else {
        let c1 = (cursor + 1) as nat;
        let first = world.entries[cursor as int];
        assert(rest[0] == first);
        assert(rest.drop_first() =~= world.entries.skip(c1 as int));
        lemma_statuses_entries(config, plan, world, c1, (fuel - 1) as nat);
        match first.entry {
            Err(e) => {
                assert(statuses(
                    ResolverView { config, phase: PhaseView::AwaitEntry(plan) },
                    entry_event(world, cursor),
                    world,
                    entry_cursor(world, cursor),
                    fuel,
                ) =~= expected);
            },
            Ok(None) => {},
            Ok(Some(name)) => if is_stale(config, plan, name) {
                lemma_statuses_entries(config, plan, world, c1, (fuel - 3) as nat);
                let r1 = ResolverView { config, phase: PhaseView::AwaitMetadata(plan, name) };
                let e1 = EventView::Metadata(first.is_dir);
                match first.is_dir {
                    Err(e) => {
                        assert(statuses(r1, e1, world, c1, (fuel - 1) as nat) =~= expected);
                    },
                    Ok(is_dir) => {
                        let r2 = ResolverView { config, phase: PhaseView::AwaitRemoval(plan, name, is_dir) };
                        let e2 = EventView::Removed(first.removal);
                        if first.removal is Err {
                            assert(statuses(r2, e2, world, c1, (fuel - 2) as nat) =~= expected);
                        }
                        assert(statuses(r2, e2, world, c1, (fuel - 2) as nat) == expected);
                    },
                }
                assert(statuses(r1, e1, world, c1, (fuel - 1) as nat) == expected);
            },
        }
    }
}

proof fn lemma_statuses_install(config: ConfigView, world: World, fuel: nat)
    requires
        fuel >= 3 * world.entries.len() + 10,
    ensures
        statuses(
            ResolverView { config, phase: PhaseView::AwaitRelease(world.os, world.architecture) },
            EventView::Release(world.release),
            world,
            0,
            fuel,
        ) == install_statuses(config, world),
{
    if world.release is Ok {
        let plan = world_plan(world);
        let r1 = ResolverView { config, phase: PhaseView::AwaitCheckingStatus(plan) };
        let r2 = ResolverView { config, phase: PhaseView::AwaitInstalledCheck(plan) };
        let r3 = ResolverView { config, phase: PhaseView::AwaitListing(plan) };
        let tail = if !world.already_installed && world.listing is Ok && cleanup_outcome(config, plan, world.entries) is Ok {
            seq![StatusView::Downloading]
        } else {
            Seq::<StatusView>::empty()
        };
        if !world.already_installed {
            if world.listing is Ok {
                assert(world.entries.skip(0) =~= world.entries);
                lemma_statuses_entries(config, plan, world, 0, (fuel - 4) as nat);
            } else {
                assert(statuses(r3, EventView::Listing(world.listing), world, 0, (fuel - 3) as nat) =~= tail);
            }
            assert(statuses(r3, EventView::Listing(world.listing), world, 0, (fuel - 3) as nat) == tail);
        } else {
            assert(statuses(r2, EventView::IsFile(true), world, 0, (fuel - 2) as nat) =~= tail);
        }
        assert(statuses(r2, EventView::IsFile(world.already_installed), world, 0, (fuel - 2) as nat) == tail);
        assert(statuses(r1, EventView::StatusSet, world, 0, (fuel - 1) as nat) == tail);
        assert(install_statuses(config, world) =~= seq![StatusView::CheckingForUpdate] + tail);
    } else {
        assert(statuses(
            ResolverView { config, phase: PhaseView::AwaitRelease(world.os, world.architecture) },
            EventView::Release(world.release),
            world,
            0,
            fuel,
        ) =~= install_statuses(config, world));
    }
}

/// Law: a resolution shows statuses only when no configured path, worktree command shim or
/// `PATH` entry applies; then, once the release is fetched, it shows "checking for update", and
/// "downloading" exactly when the release is not installed yet and the downloads of other
/// releases were removed; it shows no other status.
pub proof fn law_installation_statuses(config: ConfigView, configured: Option<Seq<char>>, world: World)
    ensures
        statuses(
            ResolverView { config, phase: PhaseView::Start(configured) },
            EventView::Begin,
            world,
            0,
            3 * world.entries.len() + 20,
        ) == if configured is None
            && !(parsed_document(world.package_json) matches Some(d) && declares_package(d, config.node_package_name))
            && !(parsed_document(world.deno_json) matches Some(d) && imports_package(d, config.node_package_name))
            && world.which is None {
            install_statuses(config, world)
        } else {
            Seq::empty()
        },
{
    let fuel = 3 * world.entries.len() + 20;
    let start = ResolverView { config, phase: PhaseView::Start(configured) };
    if configured is None {
        let os = world.os;
        let a = world.architecture;
        let r1 = ResolverView { config, phase: PhaseView::AwaitPlatform };
        let r2 = ResolverView { config, phase: PhaseView::AwaitPackageJson(os, a) };
        let r3 = ResolverView { config, phase: PhaseView::AwaitDenoJson(os, a) };
        let r4 = ResolverView { config, phase: PhaseView::AwaitWhich(os, a) };
        let rr = ResolverView { config, phase: PhaseView::AwaitRootPath(os) };
        lemma_statuses_install(config, world, (fuel - 5) as nat);
        assert(statuses(rr, EventView::RootPath(world.root), world, 0, (fuel - 4) as nat) =~= Seq::<StatusView>::empty());
        assert(statuses(rr, EventView::RootPath(world.root), world, 0, (fuel - 3) as nat) =~= Seq::<StatusView>::empty());
        if world.which is Some {
            assert(statuses(r4, EventView::Which(world.which), world, 0, (fuel - 4) as nat) =~= Seq::<StatusView>::empty());
        }
        assert(statuses(r4, EventView::Which(world.which), world, 0, (fuel - 4) as nat) == if world.which is None {
            install_statuses(config, world)
        } else {
            Seq::empty()
        });
        let pkg = parsed_document(world.package_json) matches Some(d) && declares_package(d, config.node_package_name);
        let deno = parsed_document(world.deno_json) matches Some(d) && imports_package(d, config.node_package_name);
        let expected = if !pkg && !deno && world.which is None {
            install_statuses(config, world)
        } else {
            Seq::<StatusView>::empty()
        };
        assert(statuses(r3, EventView::JsonFile(world.deno_json), world, 0, (fuel - 3) as nat) == expected || pkg);
        assert(statuses(r2, EventView::JsonFile(world.package_json), world, 0, (fuel - 2) as nat) == expected);
        assert(statuses(r1, EventView::Platform(os, a), world, 0, (fuel - 1) as nat) == expected);
    } else {
        assert(statuses(start, EventView::Begin, world, 0, fuel) =~= Seq::<StatusView>::empty());
    }
}

} // verus!
