//! The resolution cascade as a state machine.
//!
//! A resolution looks for a usable binary in a fixed order and stops at the
//! first source that has one:
//!
//! 1. the `path` the user configured, taken as it is;
//! 2. on a system without prebuilt archives, the primary tool on `PATH`, and
//!    nothing else;
//! 3. the wrapper script on `PATH`;
//! 4. the secondary toolchain on `PATH`;
//! 5. the primary tool on `PATH`;
//! 6. the binary installed earlier, if it is still on disk;
//! 7. the archive of the latest release, downloaded and unpacked.
//!
//! The machine never touches the outside world. [`Resolver::step`] takes the
//! answer to the last [`Action`] and returns the next one; the host carries
//! each action out and hands back the matching [`Event`], until the action is
//! [`Action::Finish`].

use vstd::prelude::*;
use crate::command::{BinaryKind, ResolvedBinary, ResolvedBinaryView};
use crate::error::{ResolveError, ResolveErrorView};
use crate::platform::{asset_name_of, has_prebuilt_releases, Platform};
use crate::release::{
    binary_path, binary_path_in, find_asset, select_asset, stale_among, stale_directories,
    version_directory, version_directory_of, Release, ReleaseView,
};
use crate::text::{maybe_text, outcome_text, views};

verus! {

/// The name of the tool itself.
pub open spec fn primary_tool() -> Seq<char> {
    "nargo"@
}

/// The name of the heavier toolchain that can also serve as the language
/// server.
pub open spec fn secondary_toolchain() -> Seq<char> {
    "aztec"@
}

/// The name of the launcher script that picks a toolchain by itself.
pub open spec fn wrapper_script() -> Seq<char> {
    "aztec-lsp"@
}

/// The repository whose releases are installed.
pub open spec fn repository() -> Seq<char> {
    "noir-lang/noir"@
}

/// A progress notification for the host to show.
#[derive(Clone, Copy, Debug, PartialEq, Eq, Structural)]
pub enum InstallStatus {
    CheckingForUpdate,
    Downloading,
}

/// How a downloaded archive is packed.
#[derive(Clone, Copy, Debug, PartialEq, Eq, Structural)]
pub enum ArchiveFormat {
    /// A tar archive compressed with gzip.
    GzipTar,
}

/// An installation under way: where the archive comes from, the directory it
/// is unpacked into, and the binary expected inside.
#[derive(Clone, Debug, PartialEq, Eq)]
pub struct Install {
    pub url: String,
    pub directory: String,
    pub binary: String,
}

/// The mathematical value of an [`Install`].
pub struct InstallView {
    pub url: Seq<char>,
    pub directory: Seq<char>,
    pub binary: Seq<char>,
}

impl View for Install {
    type V = InstallView;

    open spec fn view(&self) -> InstallView {
        InstallView { url: self.url@, directory: self.directory@, binary: self.binary@ }
    }
}

/// What the machine is waiting for.
#[derive(Clone, Debug, PartialEq, Eq)]
pub enum Phase {
    /// No resolution is running.
    Idle,
    /// Waiting for the user's settings.
    ReadingSettings,
    /// Waiting for the platform.
    DetectingPlatform,
    /// On a system without prebuilt archives: waiting for the lookup of the
    /// primary tool, the only source left.
    GatedLookup,
    /// Waiting for the lookup of the wrapper script.
    SeekingWrapper(Platform),
    /// Waiting for the lookup of the secondary toolchain.
    SeekingSecondary(Platform),
    /// Waiting for the lookup of the primary tool.
    SeekingPrimary(Platform),
    /// Waiting to hear whether the cached binary is still on disk.
    CheckingCache(Platform),
    /// Waiting for the host to show that an update check has begun.
    AnnouncingCheck(Platform),
    /// Waiting for the latest release; the archive to pick from it.
    FetchingRelease(String),
    /// Waiting to hear whether this version is already unpacked.
    CheckingInstalled(Install),
    /// Waiting for the host to show that a download has begun.
    AnnouncingDownload(Install),
    /// Waiting for the download to end.
    Downloading(Install),
    /// Waiting for the binary to be made executable.
    MakingExecutable(Install),
    /// Waiting for the entries of the install root.
    ListingRoot(Install),
    /// Waiting for the stale directories to be removed.
    Cleaning(Install),
}

/// The mathematical value of a [`Phase`].
pub enum PhaseView {
    Idle,
    ReadingSettings,
    DetectingPlatform,
    GatedLookup,
    SeekingWrapper(Platform),
    SeekingSecondary(Platform),
    SeekingPrimary(Platform),
    CheckingCache(Platform),
    AnnouncingCheck(Platform),
    FetchingRelease(Seq<char>),
    CheckingInstalled(InstallView),
    AnnouncingDownload(InstallView),
    Downloading(InstallView),
    MakingExecutable(InstallView),
    ListingRoot(InstallView),
    Cleaning(InstallView),
}

impl View for Phase {
    type V = PhaseView;

    open spec fn view(&self) -> PhaseView {
        match *self {
            Phase::Idle => PhaseView::Idle,
            Phase::ReadingSettings => PhaseView::ReadingSettings,
            Phase::DetectingPlatform => PhaseView::DetectingPlatform,
            Phase::GatedLookup => PhaseView::GatedLookup,
            Phase::SeekingWrapper(platform) => PhaseView::SeekingWrapper(platform),
            Phase::SeekingSecondary(platform) => PhaseView::SeekingSecondary(platform),
            Phase::SeekingPrimary(platform) => PhaseView::SeekingPrimary(platform),
            Phase::CheckingCache(platform) => PhaseView::CheckingCache(platform),
            Phase::AnnouncingCheck(platform) => PhaseView::AnnouncingCheck(platform),
            Phase::FetchingRelease(asset) => PhaseView::FetchingRelease(asset@),
            Phase::CheckingInstalled(install) => PhaseView::CheckingInstalled(install@),
            Phase::AnnouncingDownload(install) => PhaseView::AnnouncingDownload(install@),
            Phase::Downloading(install) => PhaseView::Downloading(install@),
            Phase::MakingExecutable(install) => PhaseView::MakingExecutable(install@),
            Phase::ListingRoot(install) => PhaseView::ListingRoot(install@),
            Phase::Cleaning(install) => PhaseView::Cleaning(install@),
        }
    }
}

/// What the host reports back to the machine.
#[derive(Debug, PartialEq, Eq)]
pub enum Event {
    /// A launch was requested: a new resolution begins.
    LaunchRequested,
    /// The settings were read; the `path` they declare, if any.
    SettingsRead(Option<String>),
    /// The platform was detected.
    PlatformDetected(Platform),
    /// A `PATH` lookup ended; where the program was found, if it was.
    Located(Option<String>),
    /// An existence check ended.
    Existence(bool),
    /// A notification was shown, or a best-effort removal was attempted.
    Acknowledged,
    /// The latest release was fetched, or the fetch failed with a message.
    ReleaseFetched(Result<Release, String>),
    /// A download or a change of permissions ended, well or with a message.
    Completed(Result<(), String>),
    /// The install root was listed; the names of its entries.
    Listed(Vec<String>),
}

/// The mathematical value of an [`Event`].
pub enum EventView {
    LaunchRequested,
    SettingsRead(Option<Seq<char>>),
    PlatformDetected(Platform),
    Located(Option<Seq<char>>),
    Existence(bool),
    Acknowledged,
    ReleaseFetched(Result<ReleaseView, Seq<char>>),
    Completed(Result<(), Seq<char>>),
    Listed(Seq<Seq<char>>),
}

impl View for Event {
    type V = EventView;

    open spec fn view(&self) -> EventView {
        match *self {
            Event::LaunchRequested => EventView::LaunchRequested,
            Event::SettingsRead(path) => EventView::SettingsRead(maybe_text(path)),
            Event::PlatformDetected(platform) => EventView::PlatformDetected(platform),
            Event::Located(path) => EventView::Located(maybe_text(path)),
            Event::Existence(exists) => EventView::Existence(exists),
            Event::Acknowledged => EventView::Acknowledged,
            Event::ReleaseFetched(fetched) => EventView::ReleaseFetched(
                match fetched {
                    Ok(release) => Ok(release@),
                    Err(detail) => Err(detail@),
                },
            ),
            Event::Completed(outcome) => EventView::Completed(outcome_text(outcome)),
            Event::Listed(entries) => EventView::Listed(views(entries@)),
        }
    }
}

/// What the machine asks the host to do next.
#[derive(Debug, PartialEq, Eq)]
pub enum Action {
    /// Read the user's settings for the tool. Answer: [`Event::SettingsRead`].
    ReadSettings,
    /// Detect the platform. Answer: [`Event::PlatformDetected`].
    DetectPlatform,
    /// Search `PATH` for a program. Answer: [`Event::Located`].
    Which(String),
    /// Check whether a file exists. Answer: [`Event::Existence`].
    CheckExists(String),
    /// Show a progress notification. Answer: [`Event::Acknowledged`].
    Report(InstallStatus),
    /// Fetch the description of the latest release of a repository. Answer:
    /// [`Event::ReleaseFetched`].
    FetchLatestRelease { repository: String, require_assets: bool, pre_release: bool },
    /// Download an archive and unpack it into a directory. Answer:
    /// [`Event::Completed`].
    FetchArchive { url: String, directory: String, format: ArchiveFormat },
    /// Make a file executable. Answer: [`Event::Completed`].
    MakeExecutable(String),
    /// List the entries of the install root. Answer: [`Event::Listed`].
    ListInstallRoot,
    /// Remove these directories of the install root with all they hold,
    /// ignoring every failure. Answer: [`Event::Acknowledged`].
    RemoveDirectories(Vec<String>),
    /// The resolution is over, with a binary or with a failure.
    Finish(Result<ResolvedBinary, ResolveError>),
}

/// The mathematical value of an [`Action`].
pub enum ActionView {
    ReadSettings,
    DetectPlatform,
    Which(Seq<char>),
    CheckExists(Seq<char>),
    Report(InstallStatus),
    FetchLatestRelease { repository: Seq<char>, require_assets: bool, pre_release: bool },
    FetchArchive { url: Seq<char>, directory: Seq<char>, format: ArchiveFormat },
    MakeExecutable(Seq<char>),
    ListInstallRoot,
    RemoveDirectories(Seq<Seq<char>>),
    Finish(Result<ResolvedBinaryView, ResolveErrorView>),
}

impl View for Action {
    type V = ActionView;

    open spec fn view(&self) -> ActionView {
        match *self {
            Action::ReadSettings => ActionView::ReadSettings,
            Action::DetectPlatform => ActionView::DetectPlatform,
            Action::Which(name) => ActionView::Which(name@),
            Action::CheckExists(path) => ActionView::CheckExists(path@),
            Action::Report(status) => ActionView::Report(status),
            Action::FetchLatestRelease { repository, require_assets, pre_release } => {
                ActionView::FetchLatestRelease {
                    repository: repository@,
                    require_assets,
                    pre_release,
                }
            },
            Action::FetchArchive { url, directory, format } => ActionView::FetchArchive {
                url: url@,
                directory: directory@,
                format,
            },
            Action::MakeExecutable(path) => ActionView::MakeExecutable(path@),
            Action::ListInstallRoot => ActionView::ListInstallRoot,
            Action::RemoveDirectories(names) => ActionView::RemoveDirectories(views(names@)),
            Action::Finish(outcome) => ActionView::Finish(
                match outcome {
                    Ok(binary) => Ok(binary@),
                    Err(error) => Err(error@),
                },
            ),
        }
    }
}

/// The resolver: the path of the binary it installed last, if any, and the
/// phase of the resolution that is running.
///
/// The cache lives as long as the resolver. It is never cleared, only
/// replaced by a later installation, and it is believed only after the host
/// has confirmed that the file is still there.
#[derive(Clone, Debug, PartialEq, Eq)]
pub struct Resolver {
    pub cache: Option<String>,
    pub phase: Phase,
}

/// The mathematical value of a [`Resolver`].
pub struct ResolverView {
    pub cache: Option<Seq<char>>,
    pub phase: PhaseView,
}

impl View for Resolver {
    type V = ResolverView;

    open spec fn view(&self) -> ResolverView {
        ResolverView { cache: maybe_text(self.cache), phase: self.phase@ }
    }
}

/// A binary that needs the mode token.
pub open spec fn raw_tool(path: Seq<char>) -> ResolvedBinaryView {
    ResolvedBinaryView { path, kind: BinaryKind::RawTool }
}

/// The machine moves to `phase` and asks for `action`.
pub open spec fn proceed(cache: Option<Seq<char>>, phase: PhaseView, action: ActionView) -> (
    ResolverView,
    ActionView,
) {
    (ResolverView { cache, phase }, action)
}

/// The resolution ends with `outcome`.
pub open spec fn conclude(
    cache: Option<Seq<char>>,
    outcome: Result<ResolvedBinaryView, ResolveErrorView>,
) -> (ResolverView, ActionView) {
    (ResolverView { cache, phase: PhaseView::Idle }, ActionView::Finish(outcome))
}

/// The request for the latest stable release that carries archives.
pub open spec fn release_request() -> ActionView {
    ActionView::FetchLatestRelease {
        repository: repository(),
        require_assets: true,
        pre_release: false,
    }
}

/// Nothing on `PATH` and no usable cache: the installation is announced.
pub open spec fn announce_check(cache: Option<Seq<char>>, platform: Platform) -> (
    ResolverView,
    ActionView,
) {
    proceed(
        cache,
        PhaseView::AnnouncingCheck(platform),
        ActionView::Report(InstallStatus::CheckingForUpdate),
    )
}

/// After the announcement: a platform without an archive fails here, before
/// anything is fetched; for any other the latest release is requested.
pub open spec fn request_release(cache: Option<Seq<char>>, platform: Platform) -> (
    ResolverView,
    ActionView,
) {
    match asset_name_of(platform) {
        Some(asset) => proceed(cache, PhaseView::FetchingRelease(asset), release_request()),
        None => conclude(cache, Err(ResolveErrorView::UnsupportedPlatform(platform))),
    }
}

/// The installation that a release and the wanted archive lead to.
pub open spec fn plan_install(release: ReleaseView, url: Seq<char>) -> InstallView {
    let directory = version_directory_of(release.version);
    InstallView { url, directory, binary: binary_path_in(directory) }
}

/// After the release arrived: the archive is picked by its exact name, and
/// the host is asked whether this version is already unpacked.
pub open spec fn choose_archive(cache: Option<Seq<char>>, asset: Seq<char>, release: ReleaseView)
    -> (ResolverView, ActionView) {
    match select_asset(release.assets, asset) {
        Some(found) => {
            let install = plan_install(release, found.download_url);
            proceed(
                cache,
                PhaseView::CheckingInstalled(install),
                ActionView::CheckExists(install.binary),
            )
        },
        None => conclude(cache, Err(ResolveErrorView::AssetNotFound(asset))),
    }
}

/// The installation is done: its binary is remembered and returned.
pub open spec fn installed(install: InstallView) -> (ResolverView, ActionView) {
    conclude(Some(install.binary), Ok(raw_tool(install.binary)))
}

/// After the install root was listed: stale version directories are handed
/// over for removal; with none, the installation is done.
pub open spec fn clean_up(cache: Option<Seq<char>>, install: InstallView, entries: Seq<Seq<char>>)
    -> (ResolverView, ActionView) {
    let stale = stale_among(entries, install.directory);
    if stale.len() == 0 {
        installed(install)
    } else {
        proceed(cache, PhaseView::Cleaning(install), ActionView::RemoveDirectories(stale))
    }
}

/// The machine's one rule: from a state and the event that arrived, the next
/// state and the action to take. `None` where the event does not answer what
/// the machine is waiting for.
pub open spec fn transition(state: ResolverView, event: EventView) -> Option<
    (ResolverView, ActionView),
> {
    let cache = state.cache;
    match (state.phase, event) {
        (PhaseView::Idle, EventView::LaunchRequested) => Some(
            proceed(cache, PhaseView::ReadingSettings, ActionView::ReadSettings),
        ),
        (PhaseView::ReadingSettings, EventView::SettingsRead(Some(path))) => Some(
            conclude(cache, Ok(raw_tool(path))),
        ),
        (PhaseView::ReadingSettings, EventView::SettingsRead(None)) => Some(
            proceed(cache, PhaseView::DetectingPlatform, ActionView::DetectPlatform),
        ),
        (PhaseView::DetectingPlatform, EventView::PlatformDetected(platform)) => Some(
            if has_prebuilt_releases(platform.os) {
                proceed(
                    cache,
                    PhaseView::SeekingWrapper(platform),
                    ActionView::Which(wrapper_script()),
                )
            } else {
                proceed(cache, PhaseView::GatedLookup, ActionView::Which(primary_tool()))
            },
        ),
        (PhaseView::GatedLookup, EventView::Located(Some(path))) => Some(
            conclude(cache, Ok(raw_tool(path))),
        ),
        (PhaseView::GatedLookup, EventView::Located(None)) => Some(
            conclude(cache, Err(ResolveErrorView::ManualInstallRequired)),
        ),
        (PhaseView::SeekingWrapper(_), EventView::Located(Some(path))) => Some(
            conclude(cache, Ok(ResolvedBinaryView { path, kind: BinaryKind::Wrapper })),
        ),
        (PhaseView::SeekingWrapper(platform), EventView::Located(None)) => Some(
            proceed(
                cache,
                PhaseView::SeekingSecondary(platform),
                ActionView::Which(secondary_toolchain()),
            ),
        ),
        (PhaseView::SeekingSecondary(_), EventView::Located(Some(path))) => Some(
            conclude(cache, Ok(raw_tool(path))),
        ),
        (PhaseView::SeekingSecondary(platform), EventView::Located(None)) => Some(
            proceed(cache, PhaseView::SeekingPrimary(platform), ActionView::Which(primary_tool())),
        ),
        (PhaseView::SeekingPrimary(_), EventView::Located(Some(path))) => Some(
            conclude(cache, Ok(raw_tool(path))),
        ),
        (PhaseView::SeekingPrimary(platform), EventView::Located(None)) => Some(
            match cache {
                Some(path) => proceed(
                    cache,
                    PhaseView::CheckingCache(platform),
                    ActionView::CheckExists(path),
                ),
                None => announce_check(cache, platform),
            },
        ),
        (PhaseView::CheckingCache(platform), EventView::Existence(exists)) => Some(
            match cache {
                Some(path) if exists => conclude(cache, Ok(raw_tool(path))),
                _ => announce_check(cache, platform),
            },
        ),
        (PhaseView::AnnouncingCheck(platform), EventView::Acknowledged) => Some(
            request_release(cache, platform),
        ),
        (PhaseView::FetchingRelease(asset), EventView::ReleaseFetched(Ok(release))) => Some(
            choose_archive(cache, asset, release),
        ),
        (PhaseView::FetchingRelease(_), EventView::ReleaseFetched(Err(detail))) => Some(
            conclude(cache, Err(ResolveErrorView::ReleaseMetadataUnavailable(detail))),
        ),
        (PhaseView::CheckingInstalled(install), EventView::Existence(exists)) => Some(
            if exists {
                installed(install)
            } else {
                proceed(
                    cache,
                    PhaseView::AnnouncingDownload(install),
                    ActionView::Report(InstallStatus::Downloading),
                )
            },
        ),
        (PhaseView::AnnouncingDownload(install), EventView::Acknowledged) => Some(
            proceed(
                cache,
                PhaseView::Downloading(install),
                ActionView::FetchArchive {
                    url: install.url,
                    directory: install.directory,
                    format: ArchiveFormat::GzipTar,
                },
            ),
        ),
        (PhaseView::Downloading(install), EventView::Completed(Ok(()))) => Some(
            proceed(
                cache,
                PhaseView::MakingExecutable(install),
                ActionView::MakeExecutable(install.binary),
            ),
        ),
        (PhaseView::Downloading(_), EventView::Completed(Err(detail))) => Some(
            conclude(cache, Err(ResolveErrorView::DownloadOrExtractFailed(detail))),
        ),
        (PhaseView::MakingExecutable(install), EventView::Completed(Ok(()))) => Some(
            proceed(cache, PhaseView::ListingRoot(install), ActionView::ListInstallRoot),
        ),
        (PhaseView::MakingExecutable(_), EventView::Completed(Err(detail))) => Some(
            conclude(cache, Err(ResolveErrorView::MakeExecutableFailed(detail))),
        ),
        (PhaseView::ListingRoot(install), EventView::Listed(entries)) => Some(
            clean_up(cache, install, entries),
        ),
        (PhaseView::Cleaning(install), EventView::Acknowledged) => Some(installed(install)),
        _ => None,
    }
}

/// What a step hands back: the resolver after the step, and the action it
/// asks for, if the event was one it waited for.
pub open spec fn step_matches(
    before: ResolverView,
    event: EventView,
    after: ResolverView,
    action: Option<Action>,
) -> bool {
    match transition(before, event) {
        Some((next, wanted)) => after == next && action is Some && action->0@ == wanted,
        None => after == before && action is None,
    }
}

/// Marks a path as the raw tool.
fn raw(path: String) -> (binary: ResolvedBinary)
    ensures
        binary@ == raw_tool(path@),
{
    ResolvedBinary { path, kind: BinaryKind::RawTool }
}

/// Moves to `phase` and asks for `action`.
fn go(cache: Option<String>, phase: Phase, action: Action) -> (out: (Resolver, Option<Action>))
    ensures
        out.1 is Some,
        (out.0@, out.1->0@) == proceed(maybe_text(cache), phase@, action@),
{
    (Resolver { cache, phase }, Some(action))
}

/// Ends the resolution with `outcome`.
fn end(cache: Option<String>, outcome: Result<ResolvedBinary, ResolveError>) -> (out: (
    Resolver,
    Option<Action>,
))
    ensures
        out.1 is Some,
        (out.0@, out.1->0@) == conclude(maybe_text(cache), Action::Finish(outcome)@->Finish_0),
{
    (Resolver { cache, phase: Phase::Idle }, Some(Action::Finish(outcome)))
}

/// Announces the installation.
fn announce(cache: Option<String>, platform: Platform) -> (out: (Resolver, Option<Action>))
    ensures
        out.1 is Some,
        (out.0@, out.1->0@) == announce_check(maybe_text(cache), platform),
{
    go(cache, Phase::AnnouncingCheck(platform), Action::Report(InstallStatus::CheckingForUpdate))
}

/// Asks for the latest release, or fails on a platform without an archive.
fn request(cache: Option<String>, platform: Platform) -> (out: (Resolver, Option<Action>))
    ensures
        out.1 is Some,
        (out.0@, out.1->0@) == request_release(maybe_text(cache), platform),
{
    match platform.asset_name() {
        Some(asset) => go(
            cache,
            Phase::FetchingRelease(String::from_str(asset)),
            Action::FetchLatestRelease {
                repository: String::from_str("noir-lang/noir"),
                require_assets: true,
                pre_release: false,
            },
        ),
        None => end(cache, Err(ResolveError::UnsupportedPlatform(platform))),
    }
}

/// Picks the archive from the release and asks whether it is unpacked
/// already.
fn pick(cache: Option<String>, asset: String, release: Release) -> (out: (
    Resolver,
    Option<Action>,
))
    ensures
        out.1 is Some,
        (out.0@, out.1->0@) == choose_archive(maybe_text(cache), asset@, release@),
{
    match find_asset(&release.assets, asset.as_str()) {
        Some(found) => {
            let directory = version_directory(release.version.as_str());
            let binary = binary_path(directory.as_str());
            let wanted = binary.clone();
            let install = Install { url: found.download_url.clone(), directory, binary };
            go(cache, Phase::CheckingInstalled(install), Action::CheckExists(wanted))
        },
        None => end(cache, Err(ResolveError::AssetNotFound(asset))),
    }
}

/// Remembers the installed binary and returns it.
fn complete(install: Install) -> (out: (Resolver, Option<Action>))
    ensures
        out.1 is Some,
        (out.0@, out.1->0@) == installed(install@),
{
    let path = install.binary.clone();
    end(Some(install.binary), Ok(raw(path)))
}

/// Hands the stale version directories over for removal, or finishes where
/// there are none.
fn clean(cache: Option<String>, install: Install, entries: Vec<String>) -> (out: (
    Resolver,
    Option<Action>,
))
    ensures
        out.1 is Some,
        (out.0@, out.1->0@) == clean_up(maybe_text(cache), install@, views(entries@)),
{
    let stale = stale_directories(&entries, &install.directory);
    if stale.len() == 0 {
        complete(install)
    } else {
        go(cache, Phase::Cleaning(install), Action::RemoveDirectories(stale))
    }
}

impl Resolver {
    /// A resolver that has installed nothing yet and is not resolving.
    pub fn new() -> (resolver: Resolver)
        ensures
            resolver@ == (ResolverView { cache: None, phase: PhaseView::Idle }),
    {
        Resolver { cache: None, phase: Phase::Idle }
    }

    /// Takes one step of the cascade: consumes the event that answers the
    /// last action and returns the resolver after it with the next action.
    ///
    /// An event that does not answer what the resolver is waiting for changes
    /// nothing and yields no action.
    pub fn step(self, event: Event) -> (out: (Resolver, Option<Action>))
        ensures
            step_matches(self@, event@, out.0@, out.1),
    {
        let Resolver { cache, phase } = self;
        match (phase, event) {
            (Phase::Idle, Event::LaunchRequested) => go(
                cache,
                Phase::ReadingSettings,
                Action::ReadSettings,
            ),
            (Phase::ReadingSettings, Event::SettingsRead(Some(path))) => end(cache, Ok(raw(path))),
            (Phase::ReadingSettings, Event::SettingsRead(None)) => go(
                cache,
                Phase::DetectingPlatform,
                Action::DetectPlatform,
            ),
            (Phase::DetectingPlatform, Event::PlatformDetected(platform)) => {
                if platform.os.has_prebuilt_releases() {
                    go(
                        cache,
                        Phase::SeekingWrapper(platform),
                        Action::Which(String::from_str("aztec-lsp")),
                    )
                } else {
                    go(cache, Phase::GatedLookup, Action::Which(String::from_str("nargo")))
                }
            },
            (Phase::GatedLookup, Event::Located(Some(path))) => end(cache, Ok(raw(path))),
            (Phase::GatedLookup, Event::Located(None)) => end(
                cache,
                Err(ResolveError::ManualInstallRequired),
            ),
            (Phase::SeekingWrapper(_), Event::Located(Some(path))) => end(
                cache,
                Ok(ResolvedBinary { path, kind: BinaryKind::Wrapper }),
            ),
            (Phase::SeekingWrapper(platform), Event::Located(None)) => go(
                cache,
                Phase::SeekingSecondary(platform),
                Action::Which(String::from_str("aztec")),
            ),
            (Phase::SeekingSecondary(_), Event::Located(Some(path))) => end(cache, Ok(raw(path))),
            (Phase::SeekingSecondary(platform), Event::Located(None)) => go(
                cache,
                Phase::SeekingPrimary(platform),
                Action::Which(String::from_str("nargo")),
            ),
            (Phase::SeekingPrimary(_), Event::Located(Some(path))) => end(cache, Ok(raw(path))),
            (Phase::SeekingPrimary(platform), Event::Located(None)) => {
                match cache {
                    Some(path) => {
                        let wanted = path.clone();
                        go(Some(path), Phase::CheckingCache(platform), Action::CheckExists(wanted))
                    },
                    None => announce(None, platform),
                }
            },
            (Phase::CheckingCache(platform), Event::Existence(exists)) => {
                match cache {
                    Some(path) => {
                        if exists {
                            let found = path.clone();
                            end(Some(path), Ok(raw(found)))
                        } else {
                            announce(Some(path), platform)
                        }
                    },
                    None => announce(None, platform),
                }
            },
            (Phase::AnnouncingCheck(platform), Event::Acknowledged) => request(cache, platform),
            (Phase::FetchingRelease(asset), Event::ReleaseFetched(Ok(release))) => pick(
                cache,
                asset,
                release,
            ),
            (Phase::FetchingRelease(_), Event::ReleaseFetched(Err(detail))) => end(
                cache,
                Err(ResolveError::ReleaseMetadataUnavailable(detail)),
            ),
            (Phase::CheckingInstalled(install), Event::Existence(exists)) => {
                if exists {
                    complete(install)
                } else {
                    go(
                        cache,
                        Phase::AnnouncingDownload(install),
                        Action::Report(InstallStatus::Downloading),
                    )
                }
            },
            (Phase::AnnouncingDownload(install), Event::Acknowledged) => {
                let url = install.url.clone();
                let directory = install.directory.clone();
                go(
                    cache,
                    Phase::Downloading(install),
                    Action::FetchArchive { url, directory, format: ArchiveFormat::GzipTar },
                )
            },
            (Phase::Downloading(install), Event::Completed(Ok(()))) => {
                let binary = install.binary.clone();
                go(cache, Phase::MakingExecutable(install), Action::MakeExecutable(binary))
            },
            (Phase::Downloading(_), Event::Completed(Err(detail))) => end(
                cache,
                Err(ResolveError::DownloadOrExtractFailed(detail)),
            ),
            (Phase::MakingExecutable(install), Event::Completed(Ok(()))) => go(
                cache,
                Phase::ListingRoot(install),
                Action::ListInstallRoot,
            ),
            (Phase::MakingExecutable(_), Event::Completed(Err(detail))) => end(
                cache,
                Err(ResolveError::MakeExecutableFailed(detail)),
            ),
            (Phase::ListingRoot(install), Event::Listed(entries)) => clean(cache, install, entries),
            (Phase::Cleaning(install), Event::Acknowledged) => complete(install),
            (phase, _) => (Resolver { cache, phase }, None),
        }
    }

    /// Takes one step in place: the same step as [`Resolver::step`], on a
    /// resolver that its owner keeps.
    pub fn advance(&mut self, event: Event) -> (action: Option<Action>)
        ensures
            step_matches(old(self)@, event@, final(self)@, action),
    {
        let mut current = Resolver::new();
        core::mem::swap(self, &mut current);
        let (next, action) = current.step(event);
        *self = next;
        action
    }

    /// Tells whether no resolution is running.
    pub fn is_idle(&self) -> (idle: bool)
        ensures
            idle == (self@.phase == PhaseView::Idle),
    {
        match self.phase {
            Phase::Idle => true,
            _ => false,
        }
    }
}

} // verus!
