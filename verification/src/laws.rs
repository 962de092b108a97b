//! What holds of every resolution, proved against the machine's one rule.
//!
//! A [`World`] fixes the answers a host would give. [`resolve`] is the run of
//! the machine in such a world: the actions it asks for, one after the other,
//! and the resolver it leaves behind.

use vstd::prelude::*;
use crate::command::{
    extra_args, launch_spec_of, mode_token, text_values, ArgValueView, BinaryKind,
    ResolvedBinaryView, ToolSettingsView,
};
use crate::error::{message_of, ResolveErrorView};
use crate::platform::{arch_label, asset_name_of, has_prebuilt_releases, os_label, Platform};
use crate::release::{binary_path_in, select_asset, stale_among, version_directory_of, ReleaseView};
use crate::resolver::{
    plan_install, primary_tool, raw_tool, release_request, secondary_toolchain, transition,
    wrapper_script, ActionView, ArchiveFormat, EventView, InstallStatus, InstallView, PhaseView,
    ResolverView,
};

verus! {

/// The answers of a host, fixed once and for all.
pub struct World {
    /// The `path` that the settings declare, if any.
    pub override_path: Option<Seq<char>>,
    /// The platform the host runs on.
    pub platform: Platform,
    /// The programs on `PATH`, each with the place it is found at.
    pub on_path: Map<Seq<char>, Seq<char>>,
    /// The files that exist.
    pub files: Set<Seq<char>>,
    /// What fetching the latest release gives.
    pub release: Result<ReleaseView, Seq<char>>,
    /// How a download ends.
    pub download: Result<(), Seq<char>>,
    /// How making a file executable ends.
    pub make_executable: Result<(), Seq<char>>,
    /// The entries of the install root.
    pub entries: Seq<Seq<char>>,
}

/// Where the world finds a program on `PATH`.
pub open spec fn located(world: World, name: Seq<char>) -> Option<Seq<char>> {
    if world.on_path.dom().contains(name) {
        Some(world.on_path[name])
    } else {
        None
    }
}

/// The event with which the world answers an action. The request to finish
/// needs no answer; the one given here is never looked at.
pub open spec fn answer(world: World, action: ActionView) -> EventView {
    match action {
        ActionView::ReadSettings => EventView::SettingsRead(world.override_path),
        ActionView::DetectPlatform => EventView::PlatformDetected(world.platform),
        ActionView::Which(name) => EventView::Located(located(world, name)),
        ActionView::CheckExists(path) => EventView::Existence(world.files.contains(path)),
        ActionView::Report(_) => EventView::Acknowledged,
        ActionView::FetchLatestRelease { .. } => EventView::ReleaseFetched(world.release),
        ActionView::FetchArchive { .. } => EventView::Completed(world.download),
        ActionView::MakeExecutable(_) => EventView::Completed(world.make_executable),
        ActionView::ListInstallRoot => EventView::Listed(world.entries),
        ActionView::RemoveDirectories(_) => EventView::Acknowledged,
        ActionView::Finish(_) => EventView::LaunchRequested,
    }
}

/// A run of the machine: the actions it asked for, in order, and the
/// resolver at the end.
pub struct Run {
    pub actions: Seq<ActionView>,
    pub resolver: ResolverView,
}

/// The run that begins with `pending` asked in `state`, followed for at most
/// `fuel` further steps.
pub open spec fn run_from(world: World, state: ResolverView, pending: ActionView, fuel: nat) -> Run
    decreases fuel,
{
    if fuel == 0 || pending is Finish {
        Run { actions: seq![pending], resolver: state }
    } else {
        match transition(state, answer(world, pending)) {
            Some((next, action)) => {
                let rest = run_from(world, next, action, (fuel - 1) as nat);
                Run { actions: seq![pending] + rest.actions, resolver: rest.resolver }
            },
            None => Run { actions: seq![pending], resolver: state },
        }
    }
}

/// The most actions a resolution asks for, the last one included.
pub open spec fn longest_run() -> nat {
    15
}

/// The resolution that a launch request starts in a resolver at rest.
pub open spec fn resolve(world: World, cache: Option<Seq<char>>) -> Run {
    let idle = ResolverView { cache, phase: PhaseView::Idle };
    match transition(idle, EventView::LaunchRequested) {
        Some((state, first)) => run_from(world, state, first, longest_run()),
        None => Run { actions: Seq::empty(), resolver: idle },
    }
}

/// How a run ended: the outcome that its last action carries.
pub open spec fn outcome(run: Run) -> Result<ResolvedBinaryView, ResolveErrorView> {
    run.actions.last()->Finish_0
}

/// An action that reaches out to the network.
pub open spec fn is_remote(action: ActionView) -> bool {
    action is FetchLatestRelease || action is FetchArchive
}

/// No action of the run reaches out to the network.
pub open spec fn stays_local(run: Run) -> bool {
    forall|i: int| 0 <= i < run.actions.len() ==> !is_remote(#[trigger] run.actions[i])
}

/// No action of the run downloads an archive.
pub open spec fn downloads_nothing(run: Run) -> bool {
    forall|i: int| 0 <= i < run.actions.len() ==> !(#[trigger] run.actions[i] is FetchArchive)
}

/// None of the three programs is on `PATH`.
pub open spec fn nothing_on_path(world: World) -> bool {
    &&& located(world, wrapper_script()) is None
    &&& located(world, secondary_toolchain()) is None
    &&& located(world, primary_tool()) is None
}

/// The cache names no file that exists.
pub open spec fn cache_unusable(world: World, cache: Option<Seq<char>>) -> bool {
    match cache {
        Some(path) => !world.files.contains(path),
        None => true,
    }
}

/// Whether `action` is what a resolver in `phase` is waiting to have
/// answered.
pub open spec fn awaits(phase: PhaseView, action: ActionView) -> bool {
    match phase {
        PhaseView::Idle => action is Finish,
        PhaseView::ReadingSettings => action is ReadSettings,
        PhaseView::DetectingPlatform => action is DetectPlatform,
        PhaseView::GatedLookup => action is Which,
        PhaseView::SeekingWrapper(_) => action is Which,
        PhaseView::SeekingSecondary(_) => action is Which,
        PhaseView::SeekingPrimary(_) => action is Which,
        PhaseView::CheckingCache(_) => action is CheckExists,
        PhaseView::AnnouncingCheck(_) => action is Report,
        PhaseView::FetchingRelease(_) => action is FetchLatestRelease,
        PhaseView::CheckingInstalled(_) => action is CheckExists,
        PhaseView::AnnouncingDownload(_) => action is Report,
        PhaseView::Downloading(_) => action is FetchArchive,
        PhaseView::MakingExecutable(_) => action is MakeExecutable,
        PhaseView::ListingRoot(_) => action is ListInstallRoot,
        PhaseView::Cleaning(_) => action is RemoveDirectories,
    }
}

/// The most steps a resolution can still take from a phase.
pub open spec fn steps_left(phase: PhaseView) -> nat {
    match phase {
        PhaseView::Idle => 0,
        PhaseView::ReadingSettings => 14,
        PhaseView::DetectingPlatform => 13,
        PhaseView::GatedLookup => 1,
        PhaseView::SeekingWrapper(_) => 12,
        PhaseView::SeekingSecondary(_) => 11,
        PhaseView::SeekingPrimary(_) => 10,
        PhaseView::CheckingCache(_) => 9,
        PhaseView::AnnouncingCheck(_) => 8,
        PhaseView::FetchingRelease(_) => 7,
        PhaseView::CheckingInstalled(_) => 6,
        PhaseView::AnnouncingDownload(_) => 5,
        PhaseView::Downloading(_) => 4,
        PhaseView::MakingExecutable(_) => 3,
        PhaseView::ListingRoot(_) => 2,
        PhaseView::Cleaning(_) => 1,
    }
}

/// The resolver after the world has answered `pending`; unchanged where the
/// answer is not accepted.
pub open spec fn state_after(world: World, state: ResolverView, pending: ActionView)
    -> ResolverView {
    match transition(state, answer(world, pending)) {
        Some((next, _)) => next,
        None => state,
    }
}

/// The action asked for after the world has answered `pending`; `pending`
/// again where the answer is not accepted.
pub open spec fn action_after(world: World, state: ResolverView, pending: ActionView)
    -> ActionView {
    match transition(state, answer(world, pending)) {
        Some((_, action)) => action,
        None => pending,
    }
}

/// One step in a world: the answer to what the resolver waits for is always
/// accepted, the next action is again one the next phase waits for, and the
/// steps that are left grow fewer.
pub proof fn lemma_step_advances(world: World, state: ResolverView, pending: ActionView)
    requires
        awaits(state.phase, pending),
        !(pending is Finish),
    ensures
        transition(state, answer(world, pending)) is Some,
        awaits(state_after(world, state, pending).phase, action_after(world, state, pending)),
        steps_left(state_after(world, state, pending).phase) < steps_left(state.phase),
{
}

/// A run from any phase ends within the steps that are left to it.
pub proof fn lemma_run_ends(world: World, state: ResolverView, pending: ActionView, fuel: nat)
    requires
        awaits(state.phase, pending),
        steps_left(state.phase) <= fuel,
    ensures
        0 < run_from(world, state, pending, fuel).actions.len() <= steps_left(state.phase) + 1,
        run_from(world, state, pending, fuel).actions.last() is Finish,
        forall|i: int|
            0 <= i < run_from(world, state, pending, fuel).actions.len() - 1 ==> !(
            #[trigger] run_from(world, state, pending, fuel).actions[i] is Finish),
        run_from(world, state, pending, fuel).resolver.phase == PhaseView::Idle,
    decreases fuel,
{
    if pending is Finish {
    } else {
        lemma_step_advances(world, state, pending);
        let next = state_after(world, state, pending);
        let action = action_after(world, state, pending);
        lemma_run_ends(world, next, action, (fuel - 1) as nat);
        let rest = run_from(world, next, action, (fuel - 1) as nat);
        let run = run_from(world, state, pending, fuel);
        assert(run.actions == seq![pending] + rest.actions);
        assert(run.actions.last() == rest.actions.last());
        assert forall|i: int| 0 <= i < run.actions.len() - 1 implies !(
        #[trigger] run.actions[i] is Finish) by {
            if i > 0 {
                assert(run.actions[i] == rest.actions[i - 1]);
            }
        }
    }
}

/// Every resolution ends: within `longest_run()` actions it asks to finish,
/// it asks for nothing after that, and it leaves the resolver at rest.
pub proof fn law_resolution_ends(world: World, cache: Option<Seq<char>>)
    ensures
        0 < resolve(world, cache).actions.len() <= longest_run(),
        resolve(world, cache).actions.last() is Finish,
        forall|i: int|
            0 <= i < resolve(world, cache).actions.len() - 1 ==> !(#[trigger] resolve(
                world,
                cache,
            ).actions[i] is Finish),
        resolve(world, cache).resolver.phase == PhaseView::Idle,
{
    let idle = ResolverView { cache, phase: PhaseView::Idle };
    let state = ResolverView { cache, phase: PhaseView::ReadingSettings };
    lemma_run_ends(world, state, ActionView::ReadSettings, longest_run());
}

/// A configured `path` wins, whatever else is true. Where the settings
/// declare a path, the resolution asks for nothing but the settings and
/// returns that very path: the platform is not looked at, and nothing is
/// checked on disk.
pub proof fn law_override_is_trusted(world: World, cache: Option<Seq<char>>, path: Seq<char>)
    requires
        world.override_path == Some(path),
    ensures
        resolve(world, cache).actions == seq![
            ActionView::ReadSettings,
            ActionView::Finish(Ok(raw_tool(path))),
        ],
        outcome(resolve(world, cache)) == Ok::<ResolvedBinaryView, ResolveErrorView>(
            raw_tool(path),
        ),
        resolve(world, cache).resolver.cache == cache,
{
    reveal_with_fuel(run_from, 3);
    assert(resolve(world, cache).actions =~= seq![
        ActionView::ReadSettings,
        ActionView::Finish(Ok(raw_tool(path))),
    ]);
}

/// What a system without prebuilt archives ends with: the primary tool where
/// `PATH` has it, else the advice to build it by hand.
pub open spec fn gated_outcome(world: World) -> Result<ResolvedBinaryView, ResolveErrorView> {
    match located(world, primary_tool()) {
        Some(path) => Ok(raw_tool(path)),
        None => Err(ResolveErrorView::ManualInstallRequired),
    }
}

/// On a system without prebuilt archives, and with no configured path, the
/// resolution looks for the primary tool on `PATH` and for nothing else. It
/// returns the tool found there or fails with the advice to build it by
/// hand.
pub proof fn law_gated_platform_looks_on_path_only(world: World, cache: Option<Seq<char>>)
    requires
        world.override_path is None,
        !has_prebuilt_releases(world.platform.os),
    ensures
        resolve(world, cache).actions == seq![
            ActionView::ReadSettings,
            ActionView::DetectPlatform,
            ActionView::Which(primary_tool()),
            ActionView::Finish(gated_outcome(world)),
        ],
        outcome(resolve(world, cache)) == gated_outcome(world),
        resolve(world, cache).resolver.cache == cache,
{
    reveal_with_fuel(run_from, 5);
    assert(resolve(world, cache).actions =~= seq![
        ActionView::ReadSettings,
        ActionView::DetectPlatform,
        ActionView::Which(primary_tool()),
        ActionView::Finish(gated_outcome(world)),
    ]);
}

/// A system without prebuilt archives never downloads. Whatever the settings,
/// `PATH`, the disk and the cache hold, a resolution on such a system ends
/// with the configured path, with the primary tool found on `PATH`, or with
/// the advice to build the tool by hand; and none of its actions reaches out
/// to the network.
pub proof fn law_no_download_without_prebuilt_archives(world: World, cache: Option<Seq<char>>)
    requires
        !has_prebuilt_releases(world.platform.os),
    ensures
        outcome(resolve(world, cache)) == match world.override_path {
            Some(path) => Ok(raw_tool(path)),
            None => gated_outcome(world),
        },
        stays_local(resolve(world, cache)),
        resolve(world, cache).resolver.cache == cache,
{
    match world.override_path {
        Some(path) => {
            law_override_is_trusted(world, cache, path);
        },
        None => {
            law_gated_platform_looks_on_path_only(world, cache);
        },
    }
}

/// A wrapper on `PATH` comes first. With no configured path and on a system
/// with prebuilt archives, a wrapper script on `PATH` is returned, marked as
/// a wrapper, whatever else `PATH` holds; and the command built for it
/// carries the user's arguments and no mode token.
pub proof fn law_wrapper_takes_precedence(
    world: World,
    cache: Option<Seq<char>>,
    settings: ToolSettingsView,
)
    requires
        world.override_path is None,
        has_prebuilt_releases(world.platform.os),
        located(world, wrapper_script()) is Some,
    ensures
        resolve(world, cache).actions == seq![
            ActionView::ReadSettings,
            ActionView::DetectPlatform,
            ActionView::Which(wrapper_script()),
            ActionView::Finish(
                Ok(
                    ResolvedBinaryView {
                        path: world.on_path[wrapper_script()],
                        kind: BinaryKind::Wrapper,
                    },
                ),
            ),
        ],
        outcome(resolve(world, cache)) is Ok,
        outcome(resolve(world, cache))->Ok_0.kind == BinaryKind::Wrapper,
        outcome(resolve(world, cache))->Ok_0.path == world.on_path[wrapper_script()],
        launch_spec_of(outcome(resolve(world, cache))->Ok_0, settings).args == extra_args(
            settings,
        ),
{
    reveal_with_fuel(run_from, 5);
    let found = ResolvedBinaryView {
        path: world.on_path[wrapper_script()],
        kind: BinaryKind::Wrapper,
    };
    assert(resolve(world, cache).actions =~= seq![
        ActionView::ReadSettings,
        ActionView::DetectPlatform,
        ActionView::Which(wrapper_script()),
        ActionView::Finish(Ok(found)),
    ]);
    assert(launch_spec_of(found, settings).args =~= extra_args(settings));
}

/// With no configured path, on a system with prebuilt archives, and with
/// neither wrapper nor secondary toolchain on `PATH`, the three lookups are
/// made in order and the primary tool found by the last is returned as a raw
/// tool.
pub proof fn law_primary_tool_is_found_last(world: World, cache: Option<Seq<char>>)
    requires
        world.override_path is None,
        has_prebuilt_releases(world.platform.os),
        located(world, wrapper_script()) is None,
        located(world, secondary_toolchain()) is None,
        located(world, primary_tool()) is Some,
    ensures
        resolve(world, cache).actions == seq![
            ActionView::ReadSettings,
            ActionView::DetectPlatform,
            ActionView::Which(wrapper_script()),
            ActionView::Which(secondary_toolchain()),
            ActionView::Which(primary_tool()),
            ActionView::Finish(Ok(raw_tool(world.on_path[primary_tool()]))),
        ],
        resolve(world, cache).resolver.cache == cache,
{
    reveal_with_fuel(run_from, 7);
    assert(resolve(world, cache).actions =~= seq![
        ActionView::ReadSettings,
        ActionView::DetectPlatform,
        ActionView::Which(wrapper_script()),
        ActionView::Which(secondary_toolchain()),
        ActionView::Which(primary_tool()),
        ActionView::Finish(Ok(raw_tool(world.on_path[primary_tool()]))),
    ]);
}

/// The primary tool alone on `PATH` is launched in language-server mode.
/// Where `PATH` holds the primary tool and neither the wrapper nor the
/// secondary toolchain, every resolution succeeds with a raw tool without
/// touching the network, and the first argument of the command built for it
/// is the mode token. The binary is the tool on `PATH` unless a path is
/// configured.
pub proof fn law_primary_tool_gets_mode_token(
    world: World,
    cache: Option<Seq<char>>,
    settings: ToolSettingsView,
)
    requires
        located(world, wrapper_script()) is None,
        located(world, secondary_toolchain()) is None,
        located(world, primary_tool()) is Some,
    ensures
        outcome(resolve(world, cache)) == Ok::<ResolvedBinaryView, ResolveErrorView>(
            raw_tool(
                match world.override_path {
                    Some(path) => path,
                    None => world.on_path[primary_tool()],
                },
            ),
        ),
        stays_local(resolve(world, cache)),
        launch_spec_of(outcome(resolve(world, cache))->Ok_0, settings).args.len() > 0,
        launch_spec_of(outcome(resolve(world, cache))->Ok_0, settings).args[0] == mode_token(),
{
    match world.override_path {
        Some(path) => {
            law_override_is_trusted(world, cache, path);
            let run = resolve(world, cache);
            assert forall|i: int| 0 <= i < run.actions.len() implies !is_remote(
                #[trigger] run.actions[i],
            ) by {}
        },
        None => {
            if has_prebuilt_releases(world.platform.os) {
                law_primary_tool_is_found_last(world, cache);
                let run = resolve(world, cache);
                assert forall|i: int| 0 <= i < run.actions.len() implies !is_remote(
                    #[trigger] run.actions[i],
                ) by {}
            } else {
                law_no_download_without_prebuilt_archives(world, cache);
            }
        },
    }
}

/// Only a wrapper found on `PATH` is ever marked as a wrapper. A run that
/// returns a wrapper began in a world without a configured path, on a system
/// with prebuilt archives, and returns the very place at which `PATH` holds
/// the wrapper script.
pub open spec fn wrapper_is_from_path(world: World, run: Run) -> bool {
    (outcome(run) is Ok && outcome(run)->Ok_0.kind == BinaryKind::Wrapper) ==> {
        &&& world.override_path is None
        &&& has_prebuilt_releases(world.platform.os)
        &&& located(world, wrapper_script()) == Some(outcome(run)->Ok_0.path)
    }
}

/// What is known of a state on the way to the lookup of the wrapper.
pub open spec fn on_course(world: World, state: ResolverView, pending: ActionView) -> bool {
    match state.phase {
        PhaseView::Idle => false,
        PhaseView::DetectingPlatform => world.override_path is None,
        PhaseView::SeekingWrapper(_) => {
            &&& world.override_path is None
            &&& has_prebuilt_releases(world.platform.os)
            &&& pending == ActionView::Which(wrapper_script())
        },
        _ => true,
    }
}

/// A run returns a wrapper only from the lookup of the wrapper script.
pub proof fn lemma_wrapper_is_from_path(
    world: World,
    state: ResolverView,
    pending: ActionView,
    fuel: nat,
)
    requires
        awaits(state.phase, pending),
        on_course(world, state, pending),
        steps_left(state.phase) <= fuel,
    ensures
        wrapper_is_from_path(world, run_from(world, state, pending, fuel)),
    decreases fuel,
{
    lemma_step_advances(world, state, pending);
    let next = state_after(world, state, pending);
    let action = action_after(world, state, pending);
    let rest = run_from(world, next, action, (fuel - 1) as nat);
    let run = run_from(world, state, pending, fuel);
    assert(run.actions == seq![pending] + rest.actions);
    if action is Finish {
        assert(rest.actions =~= seq![action]);
        assert(run.actions.last() == action);
    } else {
        lemma_run_ends(world, next, action, (fuel - 1) as nat);
        lemma_wrapper_is_from_path(world, next, action, (fuel - 1) as nat);
        assert(run.actions.last() == rest.actions.last());
    }
}

/// A binary is marked as a wrapper exactly when it is the wrapper script
/// found on `PATH`: every resolution that returns a wrapper ran without a
/// configured path, on a system with prebuilt archives, and returns the
/// place at which `PATH` holds the wrapper script. Every other binary is a
/// raw tool, and the command built for it begins with the mode token.
pub proof fn law_wrapper_kind_means_wrapper_on_path(
    world: World,
    cache: Option<Seq<char>>,
    settings: ToolSettingsView,
)
    ensures
        wrapper_is_from_path(world, resolve(world, cache)),
        outcome(resolve(world, cache)) is Ok && located(world, wrapper_script()) is None
            ==> launch_spec_of(outcome(resolve(world, cache))->Ok_0, settings).args[0]
            == mode_token(),
{
    let reading = ResolverView { cache, phase: PhaseView::ReadingSettings };
    lemma_wrapper_is_from_path(world, reading, ActionView::ReadSettings, longest_run());
}

/// The last source of the cascade by itself: the run from the moment the
/// installation is announced.
pub open spec fn remote_install(world: World, cache: Option<Seq<char>>) -> Run {
    run_from(
        world,
        ResolverView { cache, phase: PhaseView::AnnouncingCheck(world.platform) },
        ActionView::Report(InstallStatus::CheckingForUpdate),
        steps_left(PhaseView::AnnouncingCheck(world.platform)),
    )
}

/// The three lookups on `PATH`, in the order in which they are made.
pub open spec fn path_lookups() -> Seq<ActionView> {
    seq![
        ActionView::Which(wrapper_script()),
        ActionView::Which(secondary_toolchain()),
        ActionView::Which(primary_tool()),
    ]
}

/// What a resolution asks for before it turns to the cache, where no path
/// is configured and `PATH` has none of the three programs.
pub open spec fn fruitless_search() -> Seq<ActionView> {
    seq![ActionView::ReadSettings, ActionView::DetectPlatform] + path_lookups()
}

/// Fuel beyond the steps that are left changes nothing about a run.
pub proof fn lemma_spare_fuel(world: World, state: ResolverView, pending: ActionView, fuel: nat)
    requires
        awaits(state.phase, pending),
        steps_left(state.phase) <= fuel,
    ensures
        run_from(world, state, pending, fuel) == run_from(
            world,
            state,
            pending,
            steps_left(state.phase),
        ),
    decreases fuel,
{
    if pending is Finish {
    } else {
        lemma_step_advances(world, state, pending);
        let next = state_after(world, state, pending);
        let action = action_after(world, state, pending);
        let exact = steps_left(state.phase);
        lemma_spare_fuel(world, next, action, (fuel - 1) as nat);
        lemma_spare_fuel(world, next, action, (exact - 1) as nat);
    }
}

/// A run is its first action followed by the run from the next state.
pub proof fn lemma_unfold(world: World, state: ResolverView, pending: ActionView, fuel: nat)
    requires
        fuel > 0,
        !(pending is Finish),
        transition(state, answer(world, pending)) is Some,
    ensures
        run_from(world, state, pending, fuel).actions == seq![pending] + run_from(
            world,
            state_after(world, state, pending),
            action_after(world, state, pending),
            (fuel - 1) as nat,
        ).actions,
        run_from(world, state, pending, fuel).resolver == run_from(
            world,
            state_after(world, state, pending),
            action_after(world, state, pending),
            (fuel - 1) as nat,
        ).resolver,
{
}

/// The run that is left once all three lookups on `PATH` have failed.
pub open spec fn after_lookups(world: World, cache: Option<Seq<char>>) -> Run {
    match cache {
        Some(path) => run_from(
            world,
            ResolverView { cache, phase: PhaseView::CheckingCache(world.platform) },
            ActionView::CheckExists(path),
            steps_left(PhaseView::CheckingCache(world.platform)),
        ),
        None => remote_install(world, cache),
    }
}

/// With no configured path, on a system with prebuilt archives and with
/// nothing on `PATH`, a resolution makes its fruitless search and then turns
/// to the cache.
pub proof fn lemma_fruitless_search(world: World, cache: Option<Seq<char>>)
    requires
        world.override_path is None,
        has_prebuilt_releases(world.platform.os),
        nothing_on_path(world),
    ensures
        resolve(world, cache).actions == fruitless_search() + after_lookups(world, cache).actions,
        resolve(world, cache).resolver == after_lookups(world, cache).resolver,
{
    let platform = world.platform;
    let reading = ResolverView { cache, phase: PhaseView::ReadingSettings };
    let detecting = ResolverView { cache, phase: PhaseView::DetectingPlatform };
    let wrapper = ResolverView { cache, phase: PhaseView::SeekingWrapper(platform) };
    let secondary = ResolverView { cache, phase: PhaseView::SeekingSecondary(platform) };
    let primary = ResolverView { cache, phase: PhaseView::SeekingPrimary(platform) };
    lemma_unfold(world, reading, ActionView::ReadSettings, 15);
    lemma_unfold(world, detecting, ActionView::DetectPlatform, 14);
    lemma_unfold(world, wrapper, ActionView::Which(wrapper_script()), 13);
    lemma_unfold(world, secondary, ActionView::Which(secondary_toolchain()), 12);
    lemma_unfold(world, primary, ActionView::Which(primary_tool()), 11);
    let next = state_after(world, primary, ActionView::Which(primary_tool()));
    let action = action_after(world, primary, ActionView::Which(primary_tool()));
    lemma_spare_fuel(world, next, action, 10);
    let rest = run_from(world, next, action, 10);
    assert(rest == after_lookups(world, cache));
    assert(resolve(world, cache).actions =~= fruitless_search() + rest.actions);
}

/// A cached path whose file is gone is passed over. With no configured
/// path, on a system with prebuilt archives and with nothing on `PATH`, a
/// resolution whose cache names a missing file asks whether that file
/// exists and then goes on exactly as the remote installation does.
pub proof fn law_missing_cache_is_skipped(world: World, cached: Seq<char>)
    requires
        world.override_path is None,
        has_prebuilt_releases(world.platform.os),
        nothing_on_path(world),
        !world.files.contains(cached),
    ensures
        resolve(world, Some(cached)).actions == fruitless_search() + seq![
            ActionView::CheckExists(cached),
        ] + remote_install(world, Some(cached)).actions,
        resolve(world, Some(cached)).resolver == remote_install(world, Some(cached)).resolver,
        remote_install(world, Some(cached)).actions[0] == ActionView::Report(
            InstallStatus::CheckingForUpdate,
        ),
{
    let cache = Some(cached);
    let checking = ResolverView { cache, phase: PhaseView::CheckingCache(world.platform) };
    let announcing = ResolverView { cache, phase: PhaseView::AnnouncingCheck(world.platform) };
    let report = ActionView::Report(InstallStatus::CheckingForUpdate);
    lemma_fruitless_search(world, cache);
    lemma_unfold(world, checking, ActionView::CheckExists(cached), 9);
    lemma_run_ends(world, announcing, report, 8);
    assert(resolve(world, cache).actions =~= fruitless_search() + seq![
        ActionView::CheckExists(cached),
    ] + remote_install(world, cache).actions);
}

/// An empty cache is not asked about. With no configured path, on a system
/// with prebuilt archives and with nothing on `PATH`, a resolution without a
/// cached path goes from the lookups straight on to the remote installation.
pub proof fn law_empty_cache_leads_to_install(world: World)
    requires
        world.override_path is None,
        has_prebuilt_releases(world.platform.os),
        nothing_on_path(world),
    ensures
        resolve(world, None).actions == fruitless_search() + remote_install(world, None).actions,
        resolve(world, None).resolver == remote_install(world, None).resolver,
{
    lemma_fruitless_search(world, None);
}

/// A cached path whose file is still there is reused. With no configured
/// path, on a system with prebuilt archives and with nothing on `PATH`, the
/// cached binary is returned as a raw tool, and nothing is fetched.
pub proof fn law_live_cache_is_reused(world: World, cached: Seq<char>)
    requires
        world.override_path is None,
        has_prebuilt_releases(world.platform.os),
        nothing_on_path(world),
        world.files.contains(cached),
    ensures
        resolve(world, Some(cached)).actions == fruitless_search() + seq![
            ActionView::CheckExists(cached),
            ActionView::Finish(Ok(raw_tool(cached))),
        ],
        outcome(resolve(world, Some(cached))) == Ok::<ResolvedBinaryView, ResolveErrorView>(
            raw_tool(cached),
        ),
        stays_local(resolve(world, Some(cached))),
        resolve(world, Some(cached)).resolver.cache == Some(cached),
{
    let cache = Some(cached);
    let checking = ResolverView { cache, phase: PhaseView::CheckingCache(world.platform) };
    lemma_fruitless_search(world, cache);
    lemma_unfold(world, checking, ActionView::CheckExists(cached), 9);
    assert(resolve(world, cache).actions =~= fruitless_search() + seq![
        ActionView::CheckExists(cached),
        ActionView::Finish(Ok(raw_tool(cached))),
    ]);
}

/// A phase that comes before any release is fetched, and that carries, where
/// it carries a platform, the platform of the world.
pub open spec fn before_fetch(world: World, phase: PhaseView) -> bool {
    match phase {
        PhaseView::Idle => true,
        PhaseView::ReadingSettings => true,
        PhaseView::DetectingPlatform => true,
        PhaseView::GatedLookup => true,
        PhaseView::SeekingWrapper(platform) => platform == world.platform,
        PhaseView::SeekingSecondary(platform) => platform == world.platform,
        PhaseView::SeekingPrimary(platform) => platform == world.platform,
        PhaseView::CheckingCache(platform) => platform == world.platform,
        PhaseView::AnnouncingCheck(platform) => platform == world.platform,
        _ => false,
    }
}

/// On a platform without an archive, a run that has fetched nothing yet
/// never will.
pub proof fn lemma_unsupported_stays_local(
    world: World,
    state: ResolverView,
    pending: ActionView,
    fuel: nat,
)
    requires
        asset_name_of(world.platform) is None,
        awaits(state.phase, pending),
        before_fetch(world, state.phase),
    ensures
        stays_local(run_from(world, state, pending, fuel)),
    decreases fuel,
{
    let run = run_from(world, state, pending, fuel);
    if fuel == 0 || pending is Finish {
        assert(run.actions =~= seq![pending]);
    } else {
        lemma_step_advances(world, state, pending);
        let next = state_after(world, state, pending);
        let action = action_after(world, state, pending);
        lemma_unsupported_stays_local(world, next, action, (fuel - 1) as nat);
        let rest = run_from(world, next, action, (fuel - 1) as nat);
        assert(run.actions == seq![pending] + rest.actions);
        assert forall|i: int| 0 <= i < run.actions.len() implies !is_remote(
            #[trigger] run.actions[i],
        ) by {
            if i > 0 {
                assert(run.actions[i] == rest.actions[i - 1]);
            }
        }
    }
}

/// A platform without an archive never causes a network call. Whatever the
/// settings, `PATH`, the disk and the cache hold, a resolution on such a
/// platform fetches nothing; and its remote installation announces itself
/// and then fails with an error that carries the platform, whose message
/// names both the system and the architecture.
pub proof fn law_unsupported_platform_fails_locally(world: World, cache: Option<Seq<char>>)
    requires
        asset_name_of(world.platform) is None,
    ensures
        stays_local(resolve(world, cache)),
        remote_install(world, cache).actions == seq![
            ActionView::Report(InstallStatus::CheckingForUpdate),
            ActionView::Finish(Err(ResolveErrorView::UnsupportedPlatform(world.platform))),
        ],
        remote_install(world, cache).resolver.cache == cache,
        message_of(ResolveErrorView::UnsupportedPlatform(world.platform))
            == "unsupported platform: "@ + os_label(world.platform.os) + " "@ + arch_label(
            world.platform.arch,
        ),
{
    let reading = ResolverView { cache, phase: PhaseView::ReadingSettings };
    lemma_unsupported_stays_local(world, reading, ActionView::ReadSettings, longest_run());
    let announcing = ResolverView { cache, phase: PhaseView::AnnouncingCheck(world.platform) };
    let report = ActionView::Report(InstallStatus::CheckingForUpdate);
    lemma_unfold(world, announcing, report, 8);
    assert(remote_install(world, cache).actions =~= seq![
        report,
        ActionView::Finish(Err(ResolveErrorView::UnsupportedPlatform(world.platform))),
    ]);
}

/// Where nothing else yields a binary, a platform without an archive makes
/// the whole resolution fail with the unsupported-platform error.
pub proof fn law_unsupported_platform_is_reported(world: World, cache: Option<Seq<char>>)
    requires
        world.override_path is None,
        has_prebuilt_releases(world.platform.os),
        nothing_on_path(world),
        cache_unusable(world, cache),
        asset_name_of(world.platform) is None,
    ensures
        outcome(resolve(world, cache)) == Err::<ResolvedBinaryView, ResolveErrorView>(
            ResolveErrorView::UnsupportedPlatform(world.platform),
        ),
        resolve(world, cache).resolver.cache == cache,
{
    law_unsupported_platform_fails_locally(world, cache);
    match cache {
        Some(cached) => {
            law_missing_cache_is_skipped(world, cached);
        },
        None => {
            law_empty_cache_leads_to_install(world);
        },
    }
}

/// The installation that the world's latest release leads to, where the
/// release was fetched and carries the archive for the world's platform.
pub open spec fn wanted_install(world: World) -> Option<InstallView> {
    match (world.release, asset_name_of(world.platform)) {
        (Ok(release), Some(name)) => match select_asset(release.assets, name) {
            Some(asset) => Some(plan_install(release, asset.download_url)),
            None => None,
        },
        _ => None,
    }
}

/// A version that is already unpacked is not downloaded again. Where the
/// binary of the latest release is on disk, the remote installation checks
/// for an update, finds the binary, and returns it: it downloads nothing,
/// and it remembers the path. Run again from what it left behind, it does
/// exactly the same and returns the same path.
pub proof fn law_install_is_idempotent(world: World, cache: Option<Seq<char>>)
    requires
        wanted_install(world) is Some,
        world.files.contains(wanted_install(world)->0.binary),
    ensures
        remote_install(world, cache).actions == seq![
            ActionView::Report(InstallStatus::CheckingForUpdate),
            release_request(),
            ActionView::CheckExists(wanted_install(world)->0.binary),
            ActionView::Finish(Ok(raw_tool(wanted_install(world)->0.binary))),
        ],
        downloads_nothing(remote_install(world, cache)),
        remote_install(world, cache).resolver.cache == Some(wanted_install(world)->0.binary),
        remote_install(world, remote_install(world, cache).resolver.cache) == remote_install(
            world,
            Some(wanted_install(world)->0.binary),
        ),
        remote_install(world, remote_install(world, cache).resolver.cache).actions
            == remote_install(world, cache).actions,
        wanted_install(world)->0.binary == binary_path_in(
            version_directory_of(world.release->Ok_0.version),
        ),
{
    lemma_reuses_unpacked(world, cache);
    lemma_reuses_unpacked(world, Some(wanted_install(world)->0.binary));
}

/// The remote installation in a world where the wanted binary is on disk.
pub proof fn lemma_reuses_unpacked(world: World, cache: Option<Seq<char>>)
    requires
        wanted_install(world) is Some,
        world.files.contains(wanted_install(world)->0.binary),
    ensures
        remote_install(world, cache).actions == seq![
            ActionView::Report(InstallStatus::CheckingForUpdate),
            release_request(),
            ActionView::CheckExists(wanted_install(world)->0.binary),
            ActionView::Finish(Ok(raw_tool(wanted_install(world)->0.binary))),
        ],
        downloads_nothing(remote_install(world, cache)),
        remote_install(world, cache).resolver.cache == Some(wanted_install(world)->0.binary),
{
    let install = wanted_install(world)->0;
    let name = asset_name_of(world.platform)->0;
    let announcing = ResolverView { cache, phase: PhaseView::AnnouncingCheck(world.platform) };
    let fetching = ResolverView { cache, phase: PhaseView::FetchingRelease(name) };
    let checking = ResolverView { cache, phase: PhaseView::CheckingInstalled(install) };
    let report = ActionView::Report(InstallStatus::CheckingForUpdate);
    lemma_unfold(world, announcing, report, 8);
    lemma_unfold(world, fetching, release_request(), 7);
    lemma_unfold(world, checking, ActionView::CheckExists(install.binary), 6);
    let expected = seq![
        report,
        release_request(),
        ActionView::CheckExists(install.binary),
        ActionView::Finish(Ok(raw_tool(install.binary))),
    ];
    assert(remote_install(world, cache).actions =~= expected);
    assert forall|i: int| 0 <= i < expected.len() implies !(#[trigger] expected[i]
        is FetchArchive) by {
        if i == 0 {
        } else if i == 1 {
        } else if i == 2 {
        } else {
        }
    }
}

/// Two resolutions in a row download at most once. With no configured path,
/// on a system with prebuilt archives, with nothing on `PATH` and with the
/// binary of the latest release on disk, a resolution without a usable cache
/// returns that binary without downloading anything; the resolution after it
/// finds the path in the cache and returns it without any network call.
pub proof fn law_second_resolution_reuses_install(world: World, cache: Option<Seq<char>>)
    requires
        world.override_path is None,
        has_prebuilt_releases(world.platform.os),
        nothing_on_path(world),
        cache_unusable(world, cache),
        wanted_install(world) is Some,
        world.files.contains(wanted_install(world)->0.binary),
    ensures
        outcome(resolve(world, cache)) == Ok::<ResolvedBinaryView, ResolveErrorView>(
            raw_tool(wanted_install(world)->0.binary),
        ),
        downloads_nothing(resolve(world, cache)),
        resolve(world, cache).resolver.cache == Some(wanted_install(world)->0.binary),
        outcome(resolve(world, resolve(world, cache).resolver.cache)) == outcome(
            resolve(world, cache),
        ),
        stays_local(resolve(world, resolve(world, cache).resolver.cache)),
        resolve(world, resolve(world, cache).resolver.cache).resolver.cache == resolve(
            world,
            cache,
        ).resolver.cache,
{
    let binary = wanted_install(world)->0.binary;
    lemma_reuses_unpacked(world, cache);
    let install = remote_install(world, cache);
    let first = resolve(world, cache);
    match cache {
        Some(cached) => {
            law_missing_cache_is_skipped(world, cached);
            let head = fruitless_search() + seq![ActionView::CheckExists(cached)];
            assert(first.actions == head + install.actions);
            assert forall|i: int| 0 <= i < first.actions.len() implies !(
            #[trigger] first.actions[i] is FetchArchive) by {
                if i >= head.len() {
                    assert(first.actions[i] == install.actions[i - head.len()]);
                }
            }
        },
        None => {
            law_empty_cache_leads_to_install(world);
            let head = fruitless_search();
            assert(first.actions == head + install.actions);
            assert forall|i: int| 0 <= i < first.actions.len() implies !(
            #[trigger] first.actions[i] is FetchArchive) by {
                if i >= head.len() {
                    assert(first.actions[i] == install.actions[i - head.len()]);
                }
            }
        },
    }
    law_live_cache_is_reused(world, binary);
}

/// The configured arguments pass through in order, and only the strings
/// among them. The strings of two lists laid end to end are the strings of
/// the first followed by those of the second; a string stands for itself,
/// and a value of any other kind for nothing. For a raw tool the arguments
/// of the command are therefore the mode token followed by exactly the
/// configured strings, in the order in which they were given.
pub proof fn law_arguments_pass_through(
    path: Seq<char>,
    front: Seq<ArgValueView>,
    back: Seq<ArgValueView>,
    text: Seq<char>,
)
    ensures
        text_values(front + back) == text_values(front) + text_values(back),
        text_values(seq![ArgValueView::Text(text)]) == seq![text],
        text_values(seq![ArgValueView::Other]) == Seq::<Seq<char>>::empty(),
        text_values(front + seq![ArgValueView::Other] + back) == text_values(front) + text_values(
            back,
        ),
        launch_spec_of(
            raw_tool(path),
            ToolSettingsView { path: None, args: Some(front + back) },
        ).args == seq![mode_token()] + text_values(front) + text_values(back),
        launch_spec_of(raw_tool(path), ToolSettingsView { path: None, args: None }).args == seq![
            mode_token(),
        ],
{
    let text_item = seq![ArgValueView::Text(text)];
    let other_item = seq![ArgValueView::Other];
    assert(text_values(text_item) =~= seq![text]) by {
        assert(text_item.drop_last() =~= Seq::<ArgValueView>::empty());
        assert(text_values(text_item.drop_last()) =~= Seq::<Seq<char>>::empty());
    }
    assert(text_values(other_item) =~= Seq::<Seq<char>>::empty()) by {
        assert(other_item.drop_last() =~= Seq::<ArgValueView>::empty());
        assert(text_values(other_item.drop_last()) =~= Seq::<Seq<char>>::empty());
    }
    lemma_text_values_concat(front, back);
    lemma_text_values_concat(front, other_item);
    lemma_text_values_concat(front + other_item, back);
    assert(text_values(front + other_item) =~= text_values(front));
    assert(seq![mode_token()] + (text_values(front) + text_values(back)) =~= seq![mode_token()]
        + text_values(front) + text_values(back));
    assert(seq![mode_token()] + Seq::<Seq<char>>::empty() =~= seq![mode_token()]);
}

/// The strings of two lists laid end to end are those of the first followed
/// by those of the second.
pub proof fn lemma_text_values_concat(front: Seq<ArgValueView>, back: Seq<ArgValueView>)
    ensures
        text_values(front + back) == text_values(front) + text_values(back),
    decreases back.len(),
{
    if back.len() == 0 {
        assert(front + back =~= front);
        assert(text_values(front) + text_values(back) =~= text_values(front));
    } else {
        lemma_text_values_concat(front, back.drop_last());
        assert((front + back).drop_last() =~= front + back.drop_last());
        assert((front + back).last() == back.last());
        match back.last() {
            ArgValueView::Text(text) => {
                assert(text_values(front + back) =~= text_values(front) + text_values(back));
            },
            ArgValueView::Other => {},
        }
    }
}

/// The cache a run leaves behind is the one it began with, or the path it
/// returned.
pub open spec fn cache_kept_or_superseded(run: Run, cache: Option<Seq<char>>) -> bool {
    ||| run.resolver.cache == cache
    ||| (outcome(run) is Ok && run.resolver.cache == Some(outcome(run)->Ok_0.path))
}

/// A run keeps the cache of its first state or replaces it by what it
/// returns.
pub proof fn lemma_cache_kept_or_superseded(
    world: World,
    state: ResolverView,
    pending: ActionView,
    fuel: nat,
)
    requires
        awaits(state.phase, pending),
    ensures
        cache_kept_or_superseded(run_from(world, state, pending, fuel), state.cache),
    decreases fuel,
{
    let run = run_from(world, state, pending, fuel);
    if fuel == 0 || pending is Finish {
    } else {
        lemma_step_advances(world, state, pending);
        let next = state_after(world, state, pending);
        let action = action_after(world, state, pending);
        lemma_cache_kept_or_superseded(world, next, action, (fuel - 1) as nat);
        let rest = run_from(world, next, action, (fuel - 1) as nat);
        assert(run.actions == seq![pending] + rest.actions);
        assert(run.actions.last() == rest.actions.last());
        if next.cache != state.cache {
            assert(action is Finish);
            assert(rest.actions =~= seq![action]);
        }
    }
}

/// The cache is never cleared, only superseded. After any resolution the
/// resolver remembers what it remembered before, or the path that this
/// resolution returned; a failed resolution changes nothing.
pub proof fn law_cache_is_only_superseded(world: World, cache: Option<Seq<char>>)
    ensures
        cache_kept_or_superseded(resolve(world, cache), cache),
        outcome(resolve(world, cache)) is Err ==> resolve(world, cache).resolver.cache == cache,
        cache is Some ==> resolve(world, cache).resolver.cache is Some,
{
    let reading = ResolverView { cache, phase: PhaseView::ReadingSettings };
    lemma_cache_kept_or_superseded(world, reading, ActionView::ReadSettings, longest_run());
}

/// What the remote installation asks for when it has to download and
/// everything goes well, up to the listing of the install root.
pub open spec fn download_steps(install: InstallView) -> Seq<ActionView> {
    seq![
        ActionView::Report(InstallStatus::CheckingForUpdate),
        release_request(),
        ActionView::CheckExists(install.binary),
        ActionView::Report(InstallStatus::Downloading),
        ActionView::FetchArchive {
            url: install.url,
            directory: install.directory,
            format: ArchiveFormat::GzipTar,
        },
        ActionView::MakeExecutable(install.binary),
        ActionView::ListInstallRoot,
    ]
}

/// How a successful installation ends after the install root was listed:
/// with the removal of the stale directories, where there are any, and then
/// with the binary.
pub open spec fn cleanup_steps(world: World, install: InstallView) -> Seq<
    ActionView,
> {
    let stale = stale_among(world.entries, install.directory);
    let done = ActionView::Finish(Ok(raw_tool(install.binary)));
    if stale.len() == 0 {
        seq![done]
    } else {
        seq![ActionView::RemoveDirectories(stale), done]
    }
}

/// A version that is not yet on disk is installed in a fixed order. The
/// update check is announced and the release fetched; once the binary is
/// found missing, the download is announced, the archive is fetched from the
/// address of the chosen archive into the directory of the version, and the
/// binary is made executable; then the install root is listed and the stale
/// version directories, if any, are handed over for removal. The binary is
/// remembered and returned as a raw tool.
pub proof fn law_fresh_install(world: World, cache: Option<Seq<char>>)
    requires
        wanted_install(world) is Some,
        !world.files.contains(wanted_install(world)->0.binary),
        world.download is Ok,
        world.make_executable is Ok,
    ensures
        remote_install(world, cache).actions == download_steps(wanted_install(world)->0)
            + cleanup_steps(world, wanted_install(world)->0),
        outcome(remote_install(world, cache)) == Ok::<ResolvedBinaryView, ResolveErrorView>(
            raw_tool(wanted_install(world)->0.binary),
        ),
        remote_install(world, cache).resolver.cache == Some(wanted_install(world)->0.binary),
{
    let install = wanted_install(world)->0;
    let name = asset_name_of(world.platform)->0;
    let report = ActionView::Report(InstallStatus::CheckingForUpdate);
    let fetch = ActionView::FetchArchive {
        url: install.url,
        directory: install.directory,
        format: ArchiveFormat::GzipTar,
    };
    let stale = stale_among(world.entries, install.directory);
    let at = |phase: PhaseView| ResolverView { cache, phase };
    lemma_unfold(world, at(PhaseView::AnnouncingCheck(world.platform)), report, 8);
    lemma_unfold(world, at(PhaseView::FetchingRelease(name)), release_request(), 7);
    lemma_unfold(
        world,
        at(PhaseView::CheckingInstalled(install)),
        ActionView::CheckExists(install.binary),
        6,
    );
    lemma_unfold(
        world,
        at(PhaseView::AnnouncingDownload(install)),
        ActionView::Report(InstallStatus::Downloading),
        5,
    );
    lemma_unfold(world, at(PhaseView::Downloading(install)), fetch, 4);
    lemma_unfold(
        world,
        at(PhaseView::MakingExecutable(install)),
        ActionView::MakeExecutable(install.binary),
        3,
    );
    lemma_unfold(world, at(PhaseView::ListingRoot(install)), ActionView::ListInstallRoot, 2);
    if stale.len() != 0 {
        lemma_unfold(
            world,
            at(PhaseView::Cleaning(install)),
            ActionView::RemoveDirectories(stale),
            1,
        );
    }
    assert(remote_install(world, cache).actions =~= download_steps(install) + cleanup_steps(
        world,
        install,
    ));
}

} // verus!
